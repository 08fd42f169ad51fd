//! What holds of the registry in every state, stated over the model and
//! proved.

use crate::error::RegistryError;
use crate::model::{Call, RegistryState};
use crate::time::{expiry, in_force};
use vstd::prelude::*;

verus! {

/// An identity without an ownership record is its own owner, and so may
/// change its own records.
pub proof fn unrecorded_identity_owns_itself(state: RegistryState, identity: Seq<char>)
    requires
        !state.owners.contains_key(identity),
    ensures
        state.owner_of(identity) == identity,
        state.authorize(identity, identity) is Ok,
{
}

/// A change of owner asked by the owner succeeds, and from then on the new
/// owner is the owner and nobody else is. Asked by anyone else it fails with
/// `Unauthorized` and leaves the state as it was.
pub proof fn change_owner_hands_over(
    state: RegistryState,
    actor: Seq<char>,
    height: u64,
    identity: Seq<char>,
    new_owner: Seq<char>,
)
    ensures
        actor == state.owner_of(identity) ==> state.authorize(actor, identity) is Ok,
        actor == state.owner_of(identity) ==> state.change_owner(
            actor,
            height,
            identity,
            new_owner,
        ).owner_of(identity) == new_owner,
        actor == state.owner_of(identity) ==> forall|other: Seq<char>|
            #[trigger] state.change_owner(actor, height, identity, new_owner).is_owner(
                other,
                identity,
            ) <==> other == new_owner,
        actor != state.owner_of(identity) ==> state.authorize(actor, identity) == Err::<
            (),
            RegistryError,
        >(RegistryError::Unauthorized),
        actor != state.owner_of(identity) ==> state.change_owner(
            actor,
            height,
            identity,
            new_owner,
        ) == state,
{
}

/// A grant made by the owner at `now` for `validity_secs` seconds is in
/// force at exactly the times before `expiry(now, validity_secs)`. So one
/// made for more than no time is in force at once, at any `now` short of
/// `u64::MAX`.
pub proof fn fresh_delegate_is_valid(
    state: RegistryState,
    actor: Seq<char>,
    now: u64,
    height: u64,
    identity: Seq<char>,
    delegate_type: Seq<char>,
    delegate: Seq<char>,
    validity_secs: u64,
)
    requires
        state.is_owner(actor, identity),
    ensures
        forall|at: u64|
            #[trigger] state.add_delegate(
                actor,
                now,
                height,
                identity,
                delegate_type,
                delegate,
                validity_secs,
            ).delegate_valid(identity, delegate_type, delegate, at) <==> at < expiry(
                now,
                validity_secs,
            ),
        validity_secs > 0 && now < u64::MAX ==> state.add_delegate(
            actor,
            now,
            height,
            identity,
            delegate_type,
            delegate,
            validity_secs,
        ).delegate_valid(identity, delegate_type, delegate, now),
{
}

/// An attribute set by the owner at `now` for `validity_secs` seconds is in
/// force at exactly the times before `expiry(now, validity_secs)`. So one
/// set for more than no time is in force at once, at any `now` short of
/// `u64::MAX`.
pub proof fn fresh_attribute_is_valid(
    state: RegistryState,
    actor: Seq<char>,
    now: u64,
    height: u64,
    identity: Seq<char>,
    name: Seq<char>,
    value: Seq<u8>,
    validity_secs: u64,
)
    requires
        state.is_owner(actor, identity),
    ensures
        forall|at: u64|
            #[trigger] state.set_attribute(
                actor,
                now,
                height,
                identity,
                name,
                value,
                validity_secs,
            ).attribute_valid(identity, name, value, at) <==> at < expiry(now, validity_secs),
        validity_secs > 0 && now < u64::MAX ==> state.set_attribute(
            actor,
            now,
            height,
            identity,
            name,
            value,
            validity_secs,
        ).attribute_valid(identity, name, value, now),
{
}

/// A record that is not in force at some time is not in force at any later
/// time either.
pub proof fn validity_does_not_come_back(valid_until: u64, earlier: u64, later: u64)
    requires
        earlier <= later,
        !in_force(valid_until, earlier),
    ensures
        !in_force(valid_until, later),
{
}

/// A grant that was never written, or was revoked, is in force at no time.
pub proof fn dormant_delegate_is_invalid(
    state: RegistryState,
    identity: Seq<char>,
    delegate_type: Seq<char>,
    delegate: Seq<char>,
    now: u64,
)
    requires
        state.delegate_dormant((identity, delegate_type, delegate)),
    ensures
        !state.delegate_valid(identity, delegate_type, delegate, now),
{
}

/// An attribute that was never written, or was revoked, is in force at no
/// time.
pub proof fn dormant_attribute_is_invalid(
    state: RegistryState,
    identity: Seq<char>,
    name: Seq<char>,
    value: Seq<u8>,
    now: u64,
)
    requires
        state.attribute_dormant((identity, name, value)),
    ensures
        !state.attribute_valid(identity, name, value, now),
{
}

/// Revoking a grant as the owner leaves it recorded, with expiry 0.
pub proof fn revoked_delegate_is_dormant(
    state: RegistryState,
    actor: Seq<char>,
    height: u64,
    identity: Seq<char>,
    delegate_type: Seq<char>,
    delegate: Seq<char>,
)
    requires
        state.is_owner(actor, identity),
    ensures
        ({
            let next = state.revoke_delegate(actor, height, identity, delegate_type, delegate);
            let key = (identity, delegate_type, delegate);
            next.delegates.contains_key(key) && next.delegates[key] == 0
                && next.delegate_dormant(key)
        }),
{
}

/// Revoking an attribute as the owner leaves it recorded, with expiry 0.
pub proof fn revoked_attribute_is_dormant(
    state: RegistryState,
    actor: Seq<char>,
    height: u64,
    identity: Seq<char>,
    name: Seq<char>,
    value: Seq<u8>,
)
    requires
        state.is_owner(actor, identity),
    ensures
        ({
            let next = state.revoke_attribute(actor, height, identity, name, value);
            let key = (identity, name, value);
            next.attributes.contains_key(key) && next.attributes[key] == 0
                && next.attribute_dormant(key)
        }),
{
}

/// No call but an `add_delegate` for that very grant, made by the owner,
/// brings a dormant grant into force.
pub proof fn dormant_delegate_survives_call(
    state: RegistryState,
    call: Call,
    key: (Seq<char>, Seq<char>, Seq<char>),
)
    requires
        state.delegate_dormant(key),
        !call.grants_delegate(state, key),
    ensures
        state.apply(call).delegate_dormant(key),
{
}

/// No call but a `set_attribute` for that very attribute, made by the owner,
/// brings a dormant attribute into force.
pub proof fn dormant_attribute_survives_call(
    state: RegistryState,
    call: Call,
    key: (Seq<char>, Seq<char>, Seq<u8>),
)
    requires
        state.attribute_dormant(key),
        !call.sets_attribute(state, key),
    ensures
        state.apply(call).attribute_dormant(key),
{
}

/// A grant that was never written or was revoked stays out of force for
/// good: after any run of calls in which the owner does not grant it anew,
/// it is in force at no time.
pub proof fn dormant_delegate_stays_invalid(
    state: RegistryState,
    calls: Seq<Call>,
    identity: Seq<char>,
    delegate_type: Seq<char>,
    delegate: Seq<char>,
    now: u64,
)
    requires
        state.delegate_dormant((identity, delegate_type, delegate)),
        forall|k: int|
            0 <= k < calls.len() ==> !(#[trigger] calls[k]).grants_delegate(
                state.apply_all(calls.take(k)),
                (identity, delegate_type, delegate),
            ),
    ensures
        state.apply_all(calls).delegate_dormant((identity, delegate_type, delegate)),
        !state.apply_all(calls).delegate_valid(identity, delegate_type, delegate, now),
    decreases calls.len(),
{
    if calls.len() > 0 {
        let key = (identity, delegate_type, delegate);
        let before = calls.drop_last();
        let last = calls.len() - 1;
        assert forall|k: int| 0 <= k < before.len() implies !(#[trigger] before[k]).grants_delegate(
            state.apply_all(before.take(k)),
            key,
        ) by {
            assert(before[k] == calls[k]);
            assert(before.take(k) == calls.take(k));
        }
        dormant_delegate_stays_invalid(state, before, identity, delegate_type, delegate, now);
        assert(calls.take(last) == before);
        assert(!calls[last].grants_delegate(state.apply_all(before), key));
        dormant_delegate_survives_call(state.apply_all(before), calls.last(), key);
    }
}

/// An attribute that was never written or was revoked stays out of force
/// for good: after any run of calls in which the owner does not set it anew,
/// it is in force at no time.
pub proof fn dormant_attribute_stays_invalid(
    state: RegistryState,
    calls: Seq<Call>,
    identity: Seq<char>,
    name: Seq<char>,
    value: Seq<u8>,
    now: u64,
)
    requires
        state.attribute_dormant((identity, name, value)),
        forall|k: int|
            0 <= k < calls.len() ==> !(#[trigger] calls[k]).sets_attribute(
                state.apply_all(calls.take(k)),
                (identity, name, value),
            ),
    ensures
        state.apply_all(calls).attribute_dormant((identity, name, value)),
        !state.apply_all(calls).attribute_valid(identity, name, value, now),
    decreases calls.len(),
{
    if calls.len() > 0 {
        let key = (identity, name, value);
        let before = calls.drop_last();
        let last = calls.len() - 1;
        assert forall|k: int| 0 <= k < before.len() implies !(#[trigger] before[k]).sets_attribute(
            state.apply_all(before.take(k)),
            key,
        ) by {
            assert(before[k] == calls[k]);
            assert(before.take(k) == calls.take(k));
        }
        dormant_attribute_stays_invalid(state, before, identity, name, value, now);
        assert(calls.take(last) == before);
        assert(!calls[last].sets_attribute(state.apply_all(before), key));
        dormant_attribute_survives_call(state.apply_all(before), calls.last(), key);
    }
}

/// Revoking a grant twice in a row leaves the state that revoking it once,
/// in the later of the two blocks, leaves.
pub proof fn revoke_delegate_is_idempotent(
    state: RegistryState,
    actor: Seq<char>,
    first_height: u64,
    height: u64,
    identity: Seq<char>,
    delegate_type: Seq<char>,
    delegate: Seq<char>,
)
    ensures
        state.revoke_delegate(
            actor,
            first_height,
            identity,
            delegate_type,
            delegate,
        ).revoke_delegate(actor, height, identity, delegate_type, delegate)
            == state.revoke_delegate(actor, height, identity, delegate_type, delegate),
{
    let once = state.revoke_delegate(actor, height, identity, delegate_type, delegate);
    let twice = state.revoke_delegate(
        actor,
        first_height,
        identity,
        delegate_type,
        delegate,
    ).revoke_delegate(actor, height, identity, delegate_type, delegate);
    assert(twice =~= once);
}

/// Revoking an attribute twice in a row leaves the state that revoking it
/// once, in the later of the two blocks, leaves.
pub proof fn revoke_attribute_is_idempotent(
    state: RegistryState,
    actor: Seq<char>,
    first_height: u64,
    height: u64,
    identity: Seq<char>,
    name: Seq<char>,
    value: Seq<u8>,
)
    ensures
        state.revoke_attribute(actor, first_height, identity, name, value).revoke_attribute(
            actor,
            height,
            identity,
            name,
            value,
        ) == state.revoke_attribute(actor, height, identity, name, value),
{
    let once = state.revoke_attribute(actor, height, identity, name, value);
    let twice = state.revoke_attribute(actor, first_height, identity, name, value).revoke_attribute(
        actor,
        height,
        identity,
        name,
        value,
    );
    assert(twice =~= once);
}

/// A call that is turned down changes nothing at all, and only a call made
/// by someone other than the owner is turned down.
pub proof fn turned_down_call_changes_nothing(state: RegistryState, call: Call)
    ensures
        call.permitted(state) <==> !call.request.owner_only() || state.authorize(
            call.actor,
            call.request.identity(),
        ) is Ok,
        !call.permitted(state) ==> state.apply(call) == state,
{
}

/// The changed height of an identity moves when, and only when, a call that
/// changes its ownership, delegates or attributes succeeds; it is then the
/// height of that call's block.
pub proof fn changed_height_follows_success(state: RegistryState, call: Call)
    ensures
        call.request.owner_only() && call.permitted(state) ==> state.apply(call).changed_at(
            call.request.identity(),
        ) == call.height,
        !(call.request.owner_only() && call.permitted(state)) ==> state.apply(call).changed
            == state.changed,
        forall|other: Seq<char>|
            other != call.request.identity() ==> #[trigger] state.apply(call).changed_at(other)
                == state.changed_at(other),
{
}

/// A call about one identity leaves the records of every other identity as
/// they were: owner, grants, attributes, changed height and nonce.
pub proof fn call_leaves_other_identities_alone(
    state: RegistryState,
    call: Call,
    other: Seq<char>,
)
    requires
        other != call.request.identity(),
    ensures
        state.apply(call).owner_of(other) == state.owner_of(other),
        state.apply(call).changed_at(other) == state.changed_at(other),
        state.apply(call).nonce_of(other) == state.nonce_of(other),
        forall|delegate_type: Seq<char>, delegate: Seq<char>|
            #![trigger state.apply(call).delegates.contains_key((other, delegate_type, delegate))]
            #![trigger state.apply(call).delegates[(other, delegate_type, delegate)]]
            state.apply(call).delegates.contains_key((other, delegate_type, delegate))
                == state.delegates.contains_key((other, delegate_type, delegate))
                && state.apply(call).delegates[(other, delegate_type, delegate)]
                == state.delegates[(other, delegate_type, delegate)],
        forall|name: Seq<char>, value: Seq<u8>|
            #![trigger state.apply(call).attributes.contains_key((other, name, value))]
            #![trigger state.apply(call).attributes[(other, name, value)]]
            state.apply(call).attributes.contains_key((other, name, value))
                == state.attributes.contains_key((other, name, value))
                && state.apply(call).attributes[(other, name, value)] == state.attributes[(
                other,
                name,
                value,
            )],
{
}

/// The owner of an identity changes only by a `change_owner` that its
/// owner asks for.
pub proof fn owner_moves_by_change_owner_only(state: RegistryState, call: Call)
    ensures
        !(call.request is ChangeOwner && call.permitted(state)) ==> state.apply(call).owners
            == state.owners,
{
}

/// A nonce moves only when it is incremented, whoever asks, and then by one
/// (it stays at `u64::MAX`). No call moves any other nonce.
pub proof fn nonce_moves_by_increment_only(state: RegistryState, call: Call)
    ensures
        call.request is IncrementNonce && state.nonce_of(call.request.identity()) < u64::MAX
            ==> state.apply(call).nonce_of(call.request.identity()) == state.nonce_of(
            call.request.identity(),
        ) + 1,
        !(call.request is IncrementNonce) ==> state.apply(call).nonce == state.nonce,
        forall|identity: Seq<char>|
            #[trigger] state.apply(call).nonce_of(identity) >= state.nonce_of(identity),
        forall|other: Seq<char>|
            other != call.request.identity() ==> #[trigger] state.apply(call).nonce_of(other)
                == state.nonce_of(other),
{
}

/// No call removes a record: what was written stays written.
pub proof fn records_are_never_removed(state: RegistryState, call: Call)
    ensures
        state.owners.dom().subset_of(state.apply(call).owners.dom()),
        state.delegates.dom().subset_of(state.apply(call).delegates.dom()),
        state.attributes.dom().subset_of(state.apply(call).attributes.dom()),
        state.changed.dom().subset_of(state.apply(call).changed.dom()),
        state.nonce.dom().subset_of(state.apply(call).nonce.dom()),
{
}

} // verus!
