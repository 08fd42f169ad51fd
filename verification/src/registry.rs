//! The registry itself: five tables in contract storage, and the operations
//! on them.
//!
//! Every operation that depends on the call in progress comes twice. The
//! form whose name ends in `_as` or `_at` takes the caller, the time and the
//! block height as arguments, and its contract says exactly what it returns
//! and what becomes of the state. The form with the plain name asks the host
//! for them and hands over; its contract says what holds whatever the host
//! answered.
//!
//! Every operation is for keys that the host can store, and a change of
//! owner for an owner that it can store: the host ends a call that reaches
//! storage with anything longer. The `requires` of each operation says so,
//! and `limits` has the functions that tell.

use crate::error::RegistryError;
use crate::host::{block_height, block_timestamp_ms, predecessor_account_id};
use crate::limits::{storable_attribute, storable_delegate, storable_identity, storable_owner};
use crate::model::RegistryState;
use crate::store::{
    attribute_entries, attribute_prefix, counter_entries, counter_prefix, delegate_entries,
    delegate_prefix, owner_entries, owner_prefix, AttributeTable, CounterTable, DelegateTable,
    OwnerTable,
};
use crate::time::{expiry_from, seconds_from_millis, seconds_of_millis};
use vstd::prelude::*;

verus! {

/// Storage prefix of the ownership records: the letter `o`.
pub const OWNERS_PREFIX: u8 = 0x6f;

/// Storage prefix of the delegate grants: the letter `d`.
pub const DELEGATES_PREFIX: u8 = 0x64;

/// Storage prefix of the attribute records: the letter `a`.
pub const ATTRIBUTES_PREFIX: u8 = 0x61;

/// Storage prefix of the changed heights: the letter `c`.
pub const CHANGED_PREFIX: u8 = 0x63;

/// Storage prefix of the nonces: the letter `n`.
pub const NONCE_PREFIX: u8 = 0x6e;

/// Where a registry keeps its tables: the prefix of the storage keys of
/// each. A registry made later with the same layout, on the same storage,
/// finds the records that an earlier one left.
pub struct StorageLayout {
    pub owners: Seq<u8>,
    pub delegates: Seq<u8>,
    pub attributes: Seq<u8>,
    pub changed: Seq<u8>,
    pub nonce: Seq<u8>,
}

/// The layout of every registry: each table under its own one-byte prefix.
pub open spec fn standard_layout() -> StorageLayout {
    StorageLayout {
        owners: seq![OWNERS_PREFIX],
        delegates: seq![DELEGATES_PREFIX],
        attributes: seq![ATTRIBUTES_PREFIX],
        changed: seq![CHANGED_PREFIX],
        nonce: seq![NONCE_PREFIX],
    }
}

/// A registry of identities: who owns each, which delegates and attributes
/// each has granted and until when, at which block each was last changed,
/// and a nonce for each.
pub struct NearDIDRegistry {
    owners: OwnerTable,
    delegates: DelegateTable,
    attributes: AttributeTable,
    changed: CounterTable,
    nonce: CounterTable,
}

impl View for NearDIDRegistry {
    type V = RegistryState;

    closed spec fn view(&self) -> RegistryState {
        RegistryState {
            owners: owner_entries(self.owners),
            delegates: delegate_entries(self.delegates),
            attributes: attribute_entries(self.attributes),
            changed: counter_entries(self.changed),
            nonce: counter_entries(self.nonce),
        }
    }
}

impl Default for NearDIDRegistry {
    /// The same as [`NearDIDRegistry::new`].
    fn default() -> (registry: Self)
        ensures
            registry.layout() == standard_layout(),
    {
        NearDIDRegistry::new()
    }
}

impl NearDIDRegistry {
    /// Where this registry keeps its tables.
    pub closed spec fn layout(&self) -> StorageLayout {
        StorageLayout {
            owners: owner_prefix(self.owners),
            delegates: delegate_prefix(self.delegates),
            attributes: attribute_prefix(self.attributes),
            changed: counter_prefix(self.changed),
            nonce: counter_prefix(self.nonce),
        }
    }

    /// A registry on the contract's storage, with its tables under the
    /// prefixes `o`, `d`, `a`, `c` and `n`: the standard layout, which no
    /// operation changes. It holds what the storage holds there: nothing
    /// before the first write, and after that what earlier registries on the
    /// same storage left.
    pub fn new() -> (registry: Self)
        ensures
            registry.layout() == standard_layout(),
    {
        NearDIDRegistry {
            owners: OwnerTable::new(OWNERS_PREFIX),
            delegates: DelegateTable::new(DELEGATES_PREFIX),
            attributes: AttributeTable::new(ATTRIBUTES_PREFIX),
            changed: CounterTable::new(CHANGED_PREFIX),
            nonce: CounterTable::new(NONCE_PREFIX),
        }
    }

    /// The owner of `identity`: the recorded one, or `identity` itself where
    /// none was recorded.
    pub fn identity_owner(&self, identity: String) -> (owner: String)
        requires
            storable_identity(identity@),
        ensures
            owner@ == self@.owner_of(identity@),
            !self@.owners.contains_key(identity@) ==> owner@ == identity@,
    {
        match self.owners.get(&identity) {
            Some(owner) => owner.clone(),
            None => identity,
        }
    }

    /// Whether `actor` may change the records of `identity`: `Ok` for its
    /// owner, `Unauthorized` for anyone else.
    pub fn assert_only_owner(&self, identity: &String, actor: &String) -> (r: Result<
        (),
        RegistryError,
    >)
        requires
            storable_identity(identity@),
        ensures
            r == self@.authorize(actor@, identity@),
    {
        let owner = self.identity_owner(identity.clone());
        if *actor == owner {
            Ok(())
        } else {
            Err(RegistryError::Unauthorized)
        }
    }

    /// The expiry recorded for the grant `(identity, delegate_type,
    /// delegate)`: `None` where it was never written, `Some(0)` once it was
    /// revoked.
    pub fn delegate_valid_until(
        &self,
        identity: String,
        delegate_type: String,
        delegate: String,
    ) -> (until: Option<u64>)
        requires
            storable_delegate(identity@, delegate_type@, delegate@),
        ensures
            until == (if self@.delegates.contains_key((identity@, delegate_type@, delegate@)) {
                Some(self@.delegates[(identity@, delegate_type@, delegate@)])
            } else {
                None
            }),
    {
        let key = (identity, delegate_type, delegate);
        match self.delegates.get(&key) {
            Some(until) => Some(*until),
            None => None,
        }
    }

    /// The expiry recorded for the attribute `(identity, name, value)`:
    /// `None` where it was never written, `Some(0)` once it was revoked.
    pub fn attribute_valid_until(
        &self,
        identity: String,
        name: String,
        value: Vec<u8>,
    ) -> (until: Option<u64>)
        requires
            storable_attribute(identity@, name@, value@),
        ensures
            until == (if self@.attributes.contains_key((identity@, name@, value@)) {
                Some(self@.attributes[(identity@, name@, value@)])
            } else {
                None
            }),
    {
        let key = (identity, name, value);
        match self.attributes.get(&key) {
            Some(until) => Some(*until),
            None => None,
        }
    }

    /// Hands `identity` to `new_owner` on behalf of `actor`, in a block of
    /// height `block_height`. Fails, and changes nothing, unless `actor` is
    /// the owner of `identity`.
    pub fn change_owner_as(
        &mut self,
        actor: &String,
        block_height: u64,
        identity: String,
        new_owner: String,
    ) -> (r: Result<(), RegistryError>)
        requires
            storable_identity(identity@),
            storable_owner(new_owner@),
        ensures
            r == old(self)@.authorize(actor@, identity@),
            final(self).layout() == old(self).layout(),
            final(self)@ == old(self)@.change_owner(actor@, block_height, identity@, new_owner@),
    {
        match self.assert_only_owner(&identity, actor) {
            Err(e) => Err(e),
            Ok(()) => {
                self.owners.insert(identity.clone(), new_owner);
                self.changed.insert(identity, block_height);
                Ok(())
            },
        }
    }

    /// Grants `delegate` the role `delegate_type` on `identity` for
    /// `validity_secs` seconds from `now`, on behalf of `actor`, in a block
    /// of height `block_height`. Fails, and changes nothing, unless `actor`
    /// is the owner of `identity`.
    pub fn add_delegate_as(
        &mut self,
        actor: &String,
        now: u64,
        block_height: u64,
        identity: String,
        delegate_type: String,
        delegate: String,
        validity_secs: u64,
    ) -> (r: Result<(), RegistryError>)
        requires
            storable_delegate(identity@, delegate_type@, delegate@),
        ensures
            r == old(self)@.authorize(actor@, identity@),
            final(self).layout() == old(self).layout(),
            final(self)@ == old(self)@.add_delegate(
                actor@,
                now,
                block_height,
                identity@,
                delegate_type@,
                delegate@,
                validity_secs,
            ),
    {
        match self.assert_only_owner(&identity, actor) {
            Err(e) => Err(e),
            Ok(()) => {
                let valid_until = expiry_from(now, validity_secs);
                self.delegates.insert((identity.clone(), delegate_type, delegate), valid_until);
                self.changed.insert(identity, block_height);
                Ok(())
            },
        }
    }

    /// Revokes the grant `(identity, delegate_type, delegate)` on behalf of
    /// `actor`, in a block of height `block_height`, whether or not it was
    /// ever made. Fails, and changes nothing, unless `actor` is the owner of
    /// `identity`.
    pub fn revoke_delegate_as(
        &mut self,
        actor: &String,
        block_height: u64,
        identity: String,
        delegate_type: String,
        delegate: String,
    ) -> (r: Result<(), RegistryError>)
        requires
            storable_delegate(identity@, delegate_type@, delegate@),
        ensures
            r == old(self)@.authorize(actor@, identity@),
            final(self).layout() == old(self).layout(),
            final(self)@ == old(self)@.revoke_delegate(
                actor@,
                block_height,
                identity@,
                delegate_type@,
                delegate@,
            ),
    {
        match self.assert_only_owner(&identity, actor) {
            Err(e) => Err(e),
            Ok(()) => {
                self.delegates.insert((identity.clone(), delegate_type, delegate), 0);
                self.changed.insert(identity, block_height);
                Ok(())
            },
        }
    }

    /// Whether the grant `(identity, delegate_type, delegate)` is in force
    /// at `now`: it was written, and runs out later than `now`.
    pub fn valid_delegate_at(
        &self,
        now: u64,
        identity: String,
        delegate_type: String,
        delegate: String,
    ) -> (valid: bool)
        requires
            storable_delegate(identity@, delegate_type@, delegate@),
        ensures
            valid == self@.delegate_valid(identity@, delegate_type@, delegate@, now),
            !self@.delegates.contains_key((identity@, delegate_type@, delegate@)) ==> !valid,
    {
        match self.delegate_valid_until(identity, delegate_type, delegate) {
            Some(valid_until) => valid_until > now,
            None => false,
        }
    }

    /// Publishes the attribute `(name, value)` of `identity` for
    /// `validity_secs` seconds from `now`, on behalf of `actor`, in a block
    /// of height `block_height`. Fails, and changes nothing, unless `actor`
    /// is the owner of `identity`.
    pub fn set_attribute_as(
        &mut self,
        actor: &String,
        now: u64,
        block_height: u64,
        identity: String,
        name: String,
        value: Vec<u8>,
        validity_secs: u64,
    ) -> (r: Result<(), RegistryError>)
        requires
            storable_attribute(identity@, name@, value@),
        ensures
            r == old(self)@.authorize(actor@, identity@),
            final(self).layout() == old(self).layout(),
            final(self)@ == old(self)@.set_attribute(
                actor@,
                now,
                block_height,
                identity@,
                name@,
                value@,
                validity_secs,
            ),
    {
        match self.assert_only_owner(&identity, actor) {
            Err(e) => Err(e),
            Ok(()) => {
                let valid_until = expiry_from(now, validity_secs);
                self.attributes.insert((identity.clone(), name, value), valid_until);
                self.changed.insert(identity, block_height);
                Ok(())
            },
        }
    }

    /// Revokes the attribute `(identity, name, value)` on behalf of `actor`,
    /// in a block of height `block_height`, whether or not it was ever set.
    /// Fails, and changes nothing, unless `actor` is the owner of `identity`.
    pub fn revoke_attribute_as(
        &mut self,
        actor: &String,
        block_height: u64,
        identity: String,
        name: String,
        value: Vec<u8>,
    ) -> (r: Result<(), RegistryError>)
        requires
            storable_attribute(identity@, name@, value@),
        ensures
            r == old(self)@.authorize(actor@, identity@),
            final(self).layout() == old(self).layout(),
            final(self)@ == old(self)@.revoke_attribute(
                actor@,
                block_height,
                identity@,
                name@,
                value@,
            ),
    {
        match self.assert_only_owner(&identity, actor) {
            Err(e) => Err(e),
            Ok(()) => {
                self.attributes.insert((identity.clone(), name, value), 0);
                self.changed.insert(identity, block_height);
                Ok(())
            },
        }
    }

    /// Whether the attribute `(identity, name, value)` is in force at `now`:
    /// it was written, and runs out later than `now`.
    pub fn valid_attribute_at(
        &self,
        now: u64,
        identity: String,
        name: String,
        value: Vec<u8>,
    ) -> (valid: bool)
        requires
            storable_attribute(identity@, name@, value@),
        ensures
            valid == self@.attribute_valid(identity@, name@, value@, now),
            !self@.attributes.contains_key((identity@, name@, value@)) ==> !valid,
    {
        match self.attribute_valid_until(identity, name, value) {
            Some(valid_until) => valid_until > now,
            None => false,
        }
    }

    /// Hands `identity` to `new_owner` on behalf of the account that made
    /// this call, in the block this call runs in. Fails, and changes nothing,
    /// unless that account is the owner of `identity`.
    pub fn change_owner(&mut self, identity: String, new_owner: String) -> (r: Result<
        (),
        RegistryError,
    >)
        requires
            storable_identity(identity@),
            storable_owner(new_owner@),
        ensures
            exists|actor: Seq<char>, height: u64|
                r == old(self)@.authorize(actor, identity@)
                    && final(self)@ == #[trigger] old(self)@.change_owner(
                    actor,
                    height,
                    identity@,
                    new_owner@,
                ),
            r is Err ==> final(self)@ == old(self)@,
            final(self).layout() == old(self).layout(),
            r is Ok ==> final(self)@.owner_of(identity@) == new_owner@,
    {
        let actor = predecessor_account_id();
        let height = block_height();
        self.change_owner_as(&actor, height, identity, new_owner)
    }

    /// Grants `delegate` the role `delegate_type` on `identity` for
    /// `validity_secs` seconds from the time of the block this call runs in,
    /// on behalf of the account that made this call. Fails, and changes
    /// nothing, unless that account is the owner of `identity`.
    pub fn add_delegate(
        &mut self,
        identity: String,
        delegate_type: String,
        delegate: String,
        validity_secs: u64,
    ) -> (r: Result<(), RegistryError>)
        requires
            storable_delegate(identity@, delegate_type@, delegate@),
        ensures
            exists|actor: Seq<char>, millis: u64, height: u64|
                r == old(self)@.authorize(actor, identity@)
                    && final(self)@ == #[trigger] old(self)@.add_delegate(
                    actor,
                    seconds_of_millis(millis),
                    height,
                    identity@,
                    delegate_type@,
                    delegate@,
                    validity_secs,
                ),
            r is Err ==> final(self)@ == old(self)@,
            final(self).layout() == old(self).layout(),
            r is Ok ==> final(self)@.delegates.contains_key((identity@, delegate_type@, delegate@))
                && final(self)@.delegates[(identity@, delegate_type@, delegate@)] >= validity_secs,
    {
        let actor = predecessor_account_id();
        let now = seconds_from_millis(block_timestamp_ms());
        let height = block_height();
        self.add_delegate_as(&actor, now, height, identity, delegate_type, delegate, validity_secs)
    }

    /// Revokes the grant `(identity, delegate_type, delegate)` on behalf of
    /// the account that made this call, whether or not the grant was ever
    /// made. Fails, and changes nothing, unless that account is the owner of
    /// `identity`.
    pub fn revoke_delegate(
        &mut self,
        identity: String,
        delegate_type: String,
        delegate: String,
    ) -> (r: Result<(), RegistryError>)
        requires
            storable_delegate(identity@, delegate_type@, delegate@),
        ensures
            exists|actor: Seq<char>, height: u64|
                r == old(self)@.authorize(actor, identity@)
                    && final(self)@ == #[trigger] old(self)@.revoke_delegate(
                    actor,
                    height,
                    identity@,
                    delegate_type@,
                    delegate@,
                ),
            r is Err ==> final(self)@ == old(self)@,
            final(self).layout() == old(self).layout(),
            r is Ok ==> forall|now: u64|
                !#[trigger] final(self)@.delegate_valid(identity@, delegate_type@, delegate@, now),
    {
        let actor = predecessor_account_id();
        let height = block_height();
        self.revoke_delegate_as(&actor, height, identity, delegate_type, delegate)
    }

    /// Whether the grant `(identity, delegate_type, delegate)` is in force
    /// at the time of the block this call runs in.
    pub fn valid_delegate(
        &self,
        identity: String,
        delegate_type: String,
        delegate: String,
    ) -> (valid: bool)
        requires
            storable_delegate(identity@, delegate_type@, delegate@),
        ensures
            exists|millis: u64|
                valid == #[trigger] self@.delegate_valid(
                    identity@,
                    delegate_type@,
                    delegate@,
                    seconds_of_millis(millis),
                ),
            self@.delegate_dormant((identity@, delegate_type@, delegate@)) ==> !valid,
    {
        let now = seconds_from_millis(block_timestamp_ms());
        self.valid_delegate_at(now, identity, delegate_type, delegate)
    }

    /// Publishes the attribute `(name, value)` of `identity` for
    /// `validity_secs` seconds from the time of the block this call runs in,
    /// on behalf of the account that made this call. Fails, and changes
    /// nothing, unless that account is the owner of `identity`.
    pub fn set_attribute(
        &mut self,
        identity: String,
        name: String,
        value: Vec<u8>,
        validity_secs: u64,
    ) -> (r: Result<(), RegistryError>)
        requires
            storable_attribute(identity@, name@, value@),
        ensures
            exists|actor: Seq<char>, millis: u64, height: u64|
                r == old(self)@.authorize(actor, identity@)
                    && final(self)@ == #[trigger] old(self)@.set_attribute(
                    actor,
                    seconds_of_millis(millis),
                    height,
                    identity@,
                    name@,
                    value@,
                    validity_secs,
                ),
            r is Err ==> final(self)@ == old(self)@,
            final(self).layout() == old(self).layout(),
            r is Ok ==> final(self)@.attributes.contains_key((identity@, name@, value@))
                && final(self)@.attributes[(identity@, name@, value@)] >= validity_secs,
    {
        let actor = predecessor_account_id();
        let now = seconds_from_millis(block_timestamp_ms());
        let height = block_height();
        self.set_attribute_as(&actor, now, height, identity, name, value, validity_secs)
    }

    /// Revokes the attribute `(identity, name, value)` on behalf of the
    /// account that made this call, whether or not the attribute was ever
    /// set. Fails, and changes nothing, unless that account is the owner of
    /// `identity`.
    pub fn revoke_attribute(&mut self, identity: String, name: String, value: Vec<u8>) -> (r:
        Result<(), RegistryError>)
        requires
            storable_attribute(identity@, name@, value@),
        ensures
            exists|actor: Seq<char>, height: u64|
                r == old(self)@.authorize(actor, identity@)
                    && final(self)@ == #[trigger] old(self)@.revoke_attribute(
                    actor,
                    height,
                    identity@,
                    name@,
                    value@,
                ),
            r is Err ==> final(self)@ == old(self)@,
            final(self).layout() == old(self).layout(),
            r is Ok ==> forall|now: u64|
                !#[trigger] final(self)@.attribute_valid(identity@, name@, value@, now),
    {
        let actor = predecessor_account_id();
        let height = block_height();
        self.revoke_attribute_as(&actor, height, identity, name, value)
    }

    /// Whether the attribute `(identity, name, value)` is in force at the
    /// time of the block this call runs in.
    pub fn valid_attribute(&self, identity: String, name: String, value: Vec<u8>) -> (valid: bool)
        requires
            storable_attribute(identity@, name@, value@),
        ensures
            exists|millis: u64|
                valid == #[trigger] self@.attribute_valid(
                    identity@,
                    name@,
                    value@,
                    seconds_of_millis(millis),
                ),
            self@.attribute_dormant((identity@, name@, value@)) ==> !valid,
    {
        let now = seconds_from_millis(block_timestamp_ms());
        self.valid_attribute_at(now, identity, name, value)
    }

    /// The nonce of `identity`, 0 if it was never incremented.
    pub fn get_nonce(&self, identity: String) -> (n: u64)
        requires
            storable_identity(identity@),
        ensures
            n == self@.nonce_of(identity@),
    {
        match self.nonce.get(&identity) {
            Some(n) => *n,
            None => 0,
        }
    }

    /// Adds one to the nonce of `identity`, for any caller. A nonce that has
    /// reached `u64::MAX` stays there.
    pub fn increment_nonce(&mut self, identity: String)
        requires
            storable_identity(identity@),
        ensures
            final(self)@ == old(self)@.increment_nonce(identity@),
            final(self).layout() == old(self).layout(),
    {
        let n = self.get_nonce(identity.clone());
        self.nonce.insert(identity, n.saturating_add(1));
    }

    /// The height of the block that last changed the records of `identity`,
    /// 0 if none did.
    pub fn get_changed(&self, identity: String) -> (height: u64)
        requires
            storable_identity(identity@),
        ensures
            height == self@.changed_at(identity@),
    {
        match self.changed.get(&identity) {
            Some(height) => *height,
            None => 0,
        }
    }
}

} // verus!
