//! The registry's rules, with caller, time and block height given by hand.

use did_registry::limits::byte_len;
use did_registry::{
    expiry_from, is_storable_attribute, is_storable_delegate, is_storable_identity,
    is_storable_owner, seconds_from_millis, NearDIDRegistry, RegistryError, MAX_STORAGE_KEY_LEN,
    MAX_STORAGE_VALUE_LEN,
};

fn s(text: &str) -> String {
    text.to_string()
}

#[test]
fn unrecorded_identity_is_its_own_owner() {
    let registry = NearDIDRegistry::new();
    assert_eq!(registry.identity_owner(s("alice")), "alice");
    assert_eq!(registry.identity_owner(s("")), "");
    assert_eq!(registry.assert_only_owner(&s("alice"), &s("alice")), Ok(()));
    assert_eq!(
        registry.assert_only_owner(&s("alice"), &s("bob")),
        Err(RegistryError::Unauthorized)
    );
}

#[test]
fn change_owner_takes_effect_for_the_next_call() {
    let mut registry = NearDIDRegistry::new();

    assert_eq!(registry.change_owner_as(&s("alice"), 5, s("alice"), s("bob")), Ok(()));
    assert_eq!(registry.identity_owner(s("alice")), "bob");
    assert_eq!(registry.get_changed(s("alice")), 5);
    // Bob owns alice's records now; his own are untouched.
    assert_eq!(registry.identity_owner(s("bob")), "bob");
    assert_eq!(registry.get_changed(s("bob")), 0);

    assert_eq!(
        registry.change_owner_as(&s("alice"), 6, s("alice"), s("alice")),
        Err(RegistryError::Unauthorized)
    );
    assert_eq!(registry.identity_owner(s("alice")), "bob");
    assert_eq!(registry.get_changed(s("alice")), 5);

    assert_eq!(registry.change_owner_as(&s("bob"), 7, s("alice"), s("carol")), Ok(()));
    assert_eq!(registry.identity_owner(s("alice")), "carol");
    assert_eq!(registry.get_changed(s("alice")), 7);
}

#[test]
fn delegate_is_valid_until_its_expiry() {
    let mut registry = NearDIDRegistry::new();

    assert_eq!(
        registry.add_delegate_as(&s("A"), 1000, 40, s("A"), s("veriKey"), s("B"), 3600),
        Ok(())
    );
    assert_eq!(registry.delegate_valid_until(s("A"), s("veriKey"), s("B")), Some(4600));

    assert!(registry.valid_delegate_at(1000, s("A"), s("veriKey"), s("B")));
    assert!(registry.valid_delegate_at(0, s("A"), s("veriKey"), s("B")));
    assert!(registry.valid_delegate_at(4599, s("A"), s("veriKey"), s("B")));
    assert!(!registry.valid_delegate_at(4600, s("A"), s("veriKey"), s("B")));
    assert!(!registry.valid_delegate_at(4601, s("A"), s("veriKey"), s("B")));
    assert!(!registry.valid_delegate_at(u64::MAX, s("A"), s("veriKey"), s("B")));
}

#[test]
fn delegate_can_be_renewed() {
    let mut registry = NearDIDRegistry::new();
    assert_eq!(
        registry.add_delegate_as(&s("A"), 1000, 40, s("A"), s("veriKey"), s("B"), 3600),
        Ok(())
    );
    assert!(!registry.valid_delegate_at(4600, s("A"), s("veriKey"), s("B")));
    assert_eq!(
        registry.add_delegate_as(&s("A"), 4600, 41, s("A"), s("veriKey"), s("B"), 10),
        Ok(())
    );
    assert!(registry.valid_delegate_at(4600, s("A"), s("veriKey"), s("B")));
    assert_eq!(registry.delegate_valid_until(s("A"), s("veriKey"), s("B")), Some(4610));
}

#[test]
fn delegate_keys_are_independent() {
    let mut registry = NearDIDRegistry::new();
    assert_eq!(
        registry.add_delegate_as(&s("A"), 1000, 40, s("A"), s("veriKey"), s("B"), 3600),
        Ok(())
    );
    assert!(!registry.valid_delegate_at(1000, s("A"), s("sigAuth"), s("B")));
    assert!(!registry.valid_delegate_at(1000, s("A"), s("veriKey"), s("C")));
    assert!(!registry.valid_delegate_at(1000, s("B"), s("veriKey"), s("A")));
    assert_eq!(registry.delegate_valid_until(s("A"), s("veriKey"), s("C")), None);
    // A delegate grant is no attribute.
    assert!(!registry.valid_attribute_at(1000, s("A"), s("veriKey"), b"B".to_vec()));
}

#[test]
fn grant_for_no_time_is_never_valid() {
    let mut registry = NearDIDRegistry::new();
    assert_eq!(
        registry.add_delegate_as(&s("A"), 1000, 40, s("A"), s("veriKey"), s("B"), 0),
        Ok(())
    );
    assert_eq!(registry.delegate_valid_until(s("A"), s("veriKey"), s("B")), Some(1000));
    assert!(!registry.valid_delegate_at(1000, s("A"), s("veriKey"), s("B")));
    assert!(registry.valid_delegate_at(999, s("A"), s("veriKey"), s("B")));
}

#[test]
fn expiry_stops_at_the_largest_time() {
    assert_eq!(expiry_from(1000, 3600), 4600);
    assert_eq!(expiry_from(0, 0), 0);
    assert_eq!(expiry_from(u64::MAX - 10, 10), u64::MAX);
    assert_eq!(expiry_from(u64::MAX - 10, 11), u64::MAX);
    assert_eq!(expiry_from(u64::MAX, u64::MAX), u64::MAX);
    assert_eq!(expiry_from(1, u64::MAX), u64::MAX);

    let mut registry = NearDIDRegistry::new();
    assert_eq!(
        registry.add_delegate_as(&s("A"), 1000, 40, s("A"), s("veriKey"), s("B"), u64::MAX),
        Ok(())
    );
    assert_eq!(registry.delegate_valid_until(s("A"), s("veriKey"), s("B")), Some(u64::MAX));
    assert!(registry.valid_delegate_at(u64::MAX - 1, s("A"), s("veriKey"), s("B")));
    assert!(!registry.valid_delegate_at(u64::MAX, s("A"), s("veriKey"), s("B")));

    // At the largest time nothing can be granted any more.
    assert_eq!(
        registry.set_attribute_as(&s("A"), u64::MAX, 41, s("A"), s("svc"), b"x".to_vec(), 5),
        Ok(())
    );
    assert!(!registry.valid_attribute_at(u64::MAX, s("A"), s("svc"), b"x".to_vec()));
}

#[test]
fn milliseconds_round_down_to_seconds() {
    assert_eq!(seconds_from_millis(0), 0);
    assert_eq!(seconds_from_millis(999), 0);
    assert_eq!(seconds_from_millis(1000), 1);
    assert_eq!(seconds_from_millis(1999), 1);
    assert_eq!(seconds_from_millis(4_600_000), 4600);
    assert_eq!(seconds_from_millis(u64::MAX), 18_446_744_073_709_551);
}

#[test]
fn revoked_delegate_stays_invalid() {
    let mut registry = NearDIDRegistry::new();
    assert_eq!(
        registry.add_delegate_as(&s("A"), 1000, 40, s("A"), s("veriKey"), s("B"), 3600),
        Ok(())
    );
    assert_eq!(registry.revoke_delegate_as(&s("A"), 41, s("A"), s("veriKey"), s("B")), Ok(()));

    assert_eq!(registry.delegate_valid_until(s("A"), s("veriKey"), s("B")), Some(0));
    assert!(!registry.valid_delegate_at(1000, s("A"), s("veriKey"), s("B")));
    assert!(!registry.valid_delegate_at(0, s("A"), s("veriKey"), s("B")));

    // Nothing but a fresh grant by the owner brings it back.
    assert_eq!(
        registry.add_delegate_as(&s("C"), 1000, 42, s("A"), s("veriKey"), s("B"), 3600),
        Err(RegistryError::Unauthorized)
    );
    assert_eq!(registry.add_delegate_as(&s("A"), 1000, 43, s("A"), s("veriKey"), s("D"), 3600), Ok(()));
    assert_eq!(
        registry.set_attribute_as(&s("A"), 1000, 44, s("A"), s("veriKey"), b"B".to_vec(), 3600),
        Ok(())
    );
    registry.increment_nonce(s("A"));
    assert_eq!(registry.change_owner_as(&s("A"), 45, s("A"), s("B")), Ok(()));
    assert!(!registry.valid_delegate_at(1000, s("A"), s("veriKey"), s("B")));
    assert!(!registry.valid_delegate_at(0, s("A"), s("veriKey"), s("B")));

    assert_eq!(
        registry.add_delegate_as(&s("B"), 2000, 46, s("A"), s("veriKey"), s("B"), 1),
        Ok(())
    );
    assert!(registry.valid_delegate_at(2000, s("A"), s("veriKey"), s("B")));
}

#[test]
fn revoking_twice_is_revoking_once() {
    let mut once = NearDIDRegistry::new();
    assert_eq!(once.add_delegate_as(&s("A"), 1000, 40, s("A"), s("veriKey"), s("B"), 3600), Ok(()));
    assert_eq!(once.revoke_delegate_as(&s("A"), 41, s("A"), s("veriKey"), s("B")), Ok(()));
    let seen_once = (
        once.delegate_valid_until(s("A"), s("veriKey"), s("B")),
        once.valid_delegate_at(1000, s("A"), s("veriKey"), s("B")),
        once.get_changed(s("A")),
        once.identity_owner(s("A")),
        once.get_nonce(s("A")),
    );

    assert_eq!(once.revoke_delegate_as(&s("A"), 41, s("A"), s("veriKey"), s("B")), Ok(()));
    let seen_twice = (
        once.delegate_valid_until(s("A"), s("veriKey"), s("B")),
        once.valid_delegate_at(1000, s("A"), s("veriKey"), s("B")),
        once.get_changed(s("A")),
        once.identity_owner(s("A")),
        once.get_nonce(s("A")),
    );

    assert_eq!(seen_once, seen_twice);
    assert_eq!(seen_twice, (Some(0), false, 41, s("A"), 0));
}

#[test]
fn revoking_what_was_never_granted_leaves_a_tombstone() {
    let mut registry = NearDIDRegistry::new();
    assert_eq!(registry.delegate_valid_until(s("A"), s("veriKey"), s("B")), None);
    assert_eq!(registry.revoke_delegate_as(&s("A"), 9, s("A"), s("veriKey"), s("B")), Ok(()));
    assert_eq!(registry.delegate_valid_until(s("A"), s("veriKey"), s("B")), Some(0));
    assert_eq!(registry.get_changed(s("A")), 9);

    assert_eq!(registry.attribute_valid_until(s("A"), s("svc"), b"x".to_vec()), None);
    assert_eq!(registry.revoke_attribute_as(&s("A"), 10, s("A"), s("svc"), b"x".to_vec()), Ok(()));
    assert_eq!(registry.attribute_valid_until(s("A"), s("svc"), b"x".to_vec()), Some(0));
    assert_eq!(registry.get_changed(s("A")), 10);
}

#[test]
fn unwritten_keys_are_invalid() {
    let registry = NearDIDRegistry::new();
    assert!(!registry.valid_delegate_at(0, s("A"), s("veriKey"), s("B")));
    assert!(!registry.valid_delegate_at(1000, s("A"), s("veriKey"), s("B")));
    assert!(!registry.valid_attribute_at(0, s("A"), s("svc"), b"x".to_vec()));
    assert!(!registry.valid_attribute_at(1000, s("A"), s("svc"), Vec::new()));
    assert_eq!(registry.delegate_valid_until(s("A"), s("veriKey"), s("B")), None);
    assert_eq!(registry.attribute_valid_until(s("A"), s("svc"), b"x".to_vec()), None);
    assert_eq!(registry.get_changed(s("A")), 0);
    assert_eq!(registry.get_nonce(s("A")), 0);
}

#[test]
fn changed_height_moves_on_success_only() {
    let mut registry = NearDIDRegistry::new();
    assert_eq!(registry.get_changed(s("A")), 0);

    assert_eq!(registry.add_delegate_as(&s("A"), 1, 10, s("A"), s("t"), s("B"), 5), Ok(()));
    assert_eq!(registry.get_changed(s("A")), 10);
    assert_eq!(
        registry.add_delegate_as(&s("C"), 1, 11, s("A"), s("t"), s("B"), 5),
        Err(RegistryError::Unauthorized)
    );
    assert_eq!(registry.get_changed(s("A")), 10);

    assert_eq!(registry.set_attribute_as(&s("A"), 1, 12, s("A"), s("n"), b"v".to_vec(), 5), Ok(()));
    assert_eq!(registry.get_changed(s("A")), 12);
    assert_eq!(
        registry.set_attribute_as(&s("C"), 1, 13, s("A"), s("n"), b"v".to_vec(), 5),
        Err(RegistryError::Unauthorized)
    );
    assert_eq!(registry.get_changed(s("A")), 12);

    assert_eq!(registry.revoke_delegate_as(&s("A"), 14, s("A"), s("t"), s("B")), Ok(()));
    assert_eq!(registry.get_changed(s("A")), 14);
    assert_eq!(
        registry.revoke_delegate_as(&s("C"), 15, s("A"), s("t"), s("B")),
        Err(RegistryError::Unauthorized)
    );
    assert_eq!(registry.get_changed(s("A")), 14);

    assert_eq!(registry.revoke_attribute_as(&s("A"), 16, s("A"), s("n"), b"v".to_vec()), Ok(()));
    assert_eq!(registry.get_changed(s("A")), 16);
    assert_eq!(
        registry.revoke_attribute_as(&s("C"), 17, s("A"), s("n"), b"v".to_vec()),
        Err(RegistryError::Unauthorized)
    );
    assert_eq!(registry.get_changed(s("A")), 16);

    assert_eq!(registry.change_owner_as(&s("A"), 18, s("A"), s("B")), Ok(()));
    assert_eq!(registry.get_changed(s("A")), 18);
    assert_eq!(
        registry.change_owner_as(&s("A"), 19, s("A"), s("A")),
        Err(RegistryError::Unauthorized)
    );
    assert_eq!(registry.get_changed(s("A")), 18);

    // A nonce is no record of ownership, delegation or attributes.
    registry.increment_nonce(s("A"));
    assert_eq!(registry.get_changed(s("A")), 18);
    // Other identities were never touched; a later block may have a lower height.
    assert_eq!(registry.get_changed(s("B")), 0);
    assert_eq!(registry.change_owner_as(&s("B"), 3, s("A"), s("A")), Ok(()));
    assert_eq!(registry.get_changed(s("A")), 3);
}

#[test]
fn stranger_cannot_set_an_attribute() {
    let mut registry = NearDIDRegistry::new();
    let outcome =
        registry.set_attribute_as(&s("C"), 1000, 40, s("A"), s("svc"), b"x".to_vec(), 100);
    assert_eq!(outcome, Err(RegistryError::Unauthorized));
    assert_eq!(registry.attribute_valid_until(s("A"), s("svc"), b"x".to_vec()), None);
    assert!(!registry.valid_attribute_at(1000, s("A"), s("svc"), b"x".to_vec()));
    assert_eq!(registry.get_changed(s("A")), 0);
}

#[test]
fn attribute_revoked_within_its_window_is_invalid() {
    let mut registry = NearDIDRegistry::new();
    assert_eq!(
        registry.set_attribute_as(&s("A"), 1000, 40, s("A"), s("svc"), b"x".to_vec(), 100),
        Ok(())
    );
    assert!(registry.valid_attribute_at(1000, s("A"), s("svc"), b"x".to_vec()));
    assert!(registry.valid_attribute_at(1099, s("A"), s("svc"), b"x".to_vec()));
    assert!(!registry.valid_attribute_at(1100, s("A"), s("svc"), b"x".to_vec()));

    assert_eq!(registry.revoke_attribute_as(&s("A"), 40, s("A"), s("svc"), b"x".to_vec()), Ok(()));
    assert!(!registry.valid_attribute_at(1000, s("A"), s("svc"), b"x".to_vec()));
    assert!(!registry.valid_attribute_at(1050, s("A"), s("svc"), b"x".to_vec()));
    assert_eq!(registry.attribute_valid_until(s("A"), s("svc"), b"x".to_vec()), Some(0));
}

#[test]
fn attribute_values_are_separate_records() {
    let mut registry = NearDIDRegistry::new();
    assert_eq!(
        registry.set_attribute_as(&s("A"), 1000, 40, s("A"), s("svc"), b"x".to_vec(), 100),
        Ok(())
    );
    assert_eq!(
        registry.set_attribute_as(&s("A"), 1000, 40, s("A"), s("svc"), b"y".to_vec(), 200),
        Ok(())
    );
    assert_eq!(registry.attribute_valid_until(s("A"), s("svc"), b"x".to_vec()), Some(1100));
    assert_eq!(registry.attribute_valid_until(s("A"), s("svc"), b"y".to_vec()), Some(1200));

    assert_eq!(registry.revoke_attribute_as(&s("A"), 41, s("A"), s("svc"), b"x".to_vec()), Ok(()));
    assert!(!registry.valid_attribute_at(1000, s("A"), s("svc"), b"x".to_vec()));
    assert!(registry.valid_attribute_at(1000, s("A"), s("svc"), b"y".to_vec()));
    assert_eq!(registry.attribute_valid_until(s("A"), s("svc"), b"xy".to_vec()), None);
}

#[test]
fn empty_strings_and_values_are_keys_like_any_other() {
    let mut registry = NearDIDRegistry::new();
    assert_eq!(registry.set_attribute_as(&s(""), 10, 1, s(""), s(""), Vec::new(), 5), Ok(()));
    assert!(registry.valid_attribute_at(10, s(""), s(""), Vec::new()));
    assert!(!registry.valid_attribute_at(10, s(""), s(""), vec![0]));
    assert_eq!(registry.add_delegate_as(&s(""), 10, 2, s(""), s(""), s(""), 5), Ok(()));
    assert!(registry.valid_delegate_at(14, s(""), s(""), s("")));
    assert_eq!(registry.change_owner_as(&s(""), 3, s(""), s("x")), Ok(()));
    assert_eq!(registry.identity_owner(s("")), "x");
    assert_eq!(registry.get_changed(s("")), 3);
}

#[test]
fn anyone_may_increment_any_nonce() {
    let mut registry = NearDIDRegistry::new();
    assert_eq!(registry.change_owner_as(&s("A"), 1, s("A"), s("B")), Ok(()));
    assert_eq!(registry.get_nonce(s("A")), 0);
    registry.increment_nonce(s("A"));
    assert_eq!(registry.get_nonce(s("A")), 1);
    registry.increment_nonce(s("A"));
    registry.increment_nonce(s("A"));
    assert_eq!(registry.get_nonce(s("A")), 3);
    assert_eq!(registry.get_nonce(s("B")), 0);
    // Neither ownership nor the changed height moved.
    assert_eq!(registry.identity_owner(s("A")), "B");
    assert_eq!(registry.get_changed(s("A")), 1);
}

#[test]
fn unauthorized_has_the_contract_abort_text() {
    assert_eq!(RegistryError::Unauthorized.message(), "bad_actor");
}

#[test]
fn storage_limits_are_the_hosts() {
    assert_eq!(MAX_STORAGE_KEY_LEN, 2048);
    assert_eq!(MAX_STORAGE_VALUE_LEN, 4_194_304);
}

#[test]
fn strings_are_measured_in_bytes() {
    assert_eq!(byte_len(&s("")), 0);
    assert_eq!(byte_len(&s("alice")), 5);
    assert_eq!(byte_len(&s("é")), 2);
    assert_eq!(byte_len(&s("日本")), 6);
    assert_eq!(byte_len(&s("🦀")), 4);
}

#[test]
fn identity_fits_up_to_the_key_limit() {
    // One byte of prefix and four of length leave 2043 for the identity.
    assert!(is_storable_identity(&s("")));
    assert!(is_storable_identity(&"a".repeat(2043)));
    assert!(!is_storable_identity(&"a".repeat(2044)));
    assert!(is_storable_identity(&"é".repeat(1021)));
    assert!(!is_storable_identity(&"é".repeat(1022)));
}

#[test]
fn delegate_key_fits_up_to_the_key_limit() {
    // One byte of prefix and three lengths leave 2035 for the three strings.
    assert!(is_storable_delegate(&s(""), &s(""), &s("")));
    assert!(is_storable_delegate(&"a".repeat(2035), &s(""), &s("")));
    assert!(!is_storable_delegate(&"a".repeat(2036), &s(""), &s("")));
    assert!(is_storable_delegate(&"a".repeat(1000), &"b".repeat(1000), &"c".repeat(35)));
    assert!(!is_storable_delegate(&"a".repeat(1000), &"b".repeat(1000), &"c".repeat(36)));
    assert!(!is_storable_delegate(&s(""), &"b".repeat(2036), &s("")));
    assert!(!is_storable_delegate(&s(""), &s(""), &"c".repeat(2036)));
    assert!(!is_storable_delegate(&"a".repeat(2035), &s(""), &s("c")));
}

#[test]
fn attribute_key_fits_up_to_the_key_limit() {
    assert!(is_storable_attribute(&s(""), &s(""), &Vec::new()));
    assert!(is_storable_attribute(&s("A"), &s("svc"), &vec![7u8; 2031]));
    assert!(!is_storable_attribute(&s("A"), &s("svc"), &vec![7u8; 2032]));
    assert!(is_storable_attribute(&"a".repeat(2035), &s(""), &Vec::new()));
    assert!(!is_storable_attribute(&"a".repeat(2035), &s(""), &vec![0u8]));
    assert!(!is_storable_attribute(&s(""), &"n".repeat(2036), &Vec::new()));
}

#[test]
fn owner_fits_up_to_the_value_limit() {
    assert!(is_storable_owner(&s("")));
    assert!(is_storable_owner(&"a".repeat(4_194_300)));
    assert!(!is_storable_owner(&"a".repeat(4_194_301)));
}

#[test]
fn longest_keys_are_served_and_stored() {
    let identity = "i".repeat(2043);
    let grantor = "g".repeat(1000);
    let role = "r".repeat(1000);
    let delegate = "d".repeat(35);
    let value = vec![9u8; 1032];
    assert!(is_storable_identity(&identity));
    assert!(is_storable_delegate(&grantor, &role, &delegate));
    assert!(is_storable_attribute(&grantor, &role[..3].to_string(), &value));
    {
        let mut registry = NearDIDRegistry::new();
        assert_eq!(registry.identity_owner(identity.clone()), identity);
        assert_eq!(registry.change_owner_as(&identity, 5, identity.clone(), s("bob")), Ok(()));
        registry.increment_nonce(identity.clone());
        assert_eq!(
            registry.add_delegate_as(&grantor, 10, 6, grantor.clone(), role.clone(), delegate.clone(), 5),
            Ok(())
        );
        assert_eq!(
            registry.set_attribute_as(&grantor, 10, 7, grantor.clone(), s("rrr"), value.clone(), 5),
            Ok(())
        );
        assert!(registry.valid_delegate_at(14, grantor.clone(), role.clone(), delegate.clone()));
        assert!(registry.valid_attribute_at(14, grantor.clone(), s("rrr"), value.clone()));
    }

    let registry = NearDIDRegistry::new();
    assert_eq!(registry.identity_owner(identity.clone()), "bob");
    assert_eq!(registry.get_changed(identity.clone()), 5);
    assert_eq!(registry.get_nonce(identity), 1);
    assert_eq!(registry.delegate_valid_until(grantor.clone(), role, delegate), Some(15));
    assert_eq!(registry.attribute_valid_until(grantor.clone(), s("rrr"), value), Some(15));
    assert_eq!(registry.get_changed(grantor), 7);
}

#[test]
fn owner_may_be_longer_than_a_key() {
    let heir = "h".repeat(10_000);
    assert!(is_storable_owner(&heir));
    assert!(!is_storable_identity(&heir));
    {
        let mut registry = NearDIDRegistry::new();
        assert_eq!(registry.change_owner_as(&s("alice"), 5, s("alice"), heir.clone()), Ok(()));
        assert_eq!(registry.identity_owner(s("alice")), heir);
    }
    let registry = NearDIDRegistry::new();
    assert_eq!(registry.identity_owner(s("alice")), heir);
}
