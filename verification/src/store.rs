//! The registry's tables.
//!
//! Each table is a `near_sdk::store::LookupMap`: a map whose entries live in
//! the contract's storage, under keys that start with the table's prefix, and
//! are cached in memory once touched. Verus cannot look inside one, so each
//! table type below is opaque to it, and two things about a table are names
//! without a definition: what it holds, and the prefix it was made with. The
//! contracts in this file are the only things Verus knows about those names;
//! none of them is proved.
//!
//! They describe a `LookupMap` as its documentation does, as a map from keys
//! to values. That is what it is for as long as nothing else writes to the
//! storage keys under its prefix, which is the one assumption behind this
//! file: the registry owns its five prefixes, and one registry at a time is
//! attached to them.
//!
//! The host serves no storage key longer than `MAX_STORAGE_KEY_LEN` bytes:
//! it ends the call that reads or writes one. The storage key of an entry is
//! the table's prefix, which is one byte since `new` takes one, and then the
//! entry's key as Borsh writes it. So `get` and `insert` are for keys that
//! fit, and say so in `requires`. A value longer than `MAX_STORAGE_VALUE_LEN`
//! bytes can be put into a table but not written out when the table is
//! dropped, so `insert` takes no such value either; of the registry's values
//! only an owner can be that long.
//!
//! Reading and writing storage costs gas. A call that runs out of gas ends
//! where it stands and leaves no trace; no function here returns in that
//! case. A view call may read storage but not write it: the host ends one
//! that has put something into a table, when the table is dropped.

use crate::limits::{storable_attribute, storable_delegate, storable_identity, storable_owner};
use near_sdk::store::LookupMap;
use vstd::prelude::*;

verus! {

/// Ownership records, identity to owner: a `LookupMap<String, String>`.
#[verifier::external_body]
pub struct OwnerTable {
    inner: LookupMap<String, String>,
}

/// The entries of an [`OwnerTable`].
pub uninterp spec fn owner_entries(table: OwnerTable) -> Map<Seq<char>, Seq<char>>;

/// The prefix of the storage keys of an [`OwnerTable`]: the bytes it was made
/// with.
pub uninterp spec fn owner_prefix(table: OwnerTable) -> Seq<u8>;

impl OwnerTable {
    /// `LookupMap::new`, with one byte as the prefix. The call only records
    /// the prefix: that byte, as the one-byte key it stands for. The table
    /// then holds whatever the storage holds under it, so nothing is claimed
    /// of its entries.
    #[verifier::external_body]
    pub(crate) fn new(prefix: u8) -> (table: Self)
        ensures
            owner_prefix(table) == seq![prefix],
    {
        OwnerTable { inner: LookupMap::new(prefix) }
    }

    /// `LookupMap::get`: the value stored for `identity`, if there is one.
    /// The host ends the call on a key that does not fit.
    #[verifier::external_body]
    pub(crate) fn get(&self, identity: &String) -> (found: Option<&String>)
        requires
            storable_identity(identity@),
        ensures
            found matches Some(owner) ==> owner_entries(*self).contains_key(identity@)
                && owner_entries(*self)[identity@] == owner@,
            found is None ==> !owner_entries(*self).contains_key(identity@),
    {
        self.inner.get(identity)
    }

    /// `LookupMap::insert`: stores `owner` for `identity`, leaves every other
    /// entry and the prefix as they were, and returns the value that
    /// `identity` had before. It reads storage first, so the host ends the call
    /// on a key that does not fit.
    #[verifier::external_body]
    pub(crate) fn insert(&mut self, identity: String, owner: String) -> (previous: Option<String>)
        requires
            storable_identity(identity@),
            storable_owner(owner@),
        ensures
            owner_prefix(*final(self)) == owner_prefix(*old(self)),
            owner_entries(*final(self)) == owner_entries(*old(self)).insert(identity@, owner@),
            previous matches Some(p) ==> owner_entries(*old(self)).contains_key(identity@)
                && owner_entries(*old(self))[identity@] == p@,
            previous is None ==> !owner_entries(*old(self)).contains_key(identity@),
    {
        self.inner.insert(identity, owner)
    }
}

/// Delegate grants, (identity, delegate type, delegate) to expiry: a
/// `LookupMap<(String, String, String), u64>`.
#[verifier::external_body]
pub struct DelegateTable {
    inner: LookupMap<(String, String, String), u64>,
}

/// The entries of a [`DelegateTable`].
pub uninterp spec fn delegate_entries(table: DelegateTable) -> Map<
    (Seq<char>, Seq<char>, Seq<char>),
    u64,
>;

/// The prefix of the storage keys of a [`DelegateTable`]: the bytes it was made
/// with.
pub uninterp spec fn delegate_prefix(table: DelegateTable) -> Seq<u8>;

impl DelegateTable {
    /// `LookupMap::new`, with one byte as the prefix, which the call records.
    /// Nothing is claimed of the entries: see [`OwnerTable::new`].
    #[verifier::external_body]
    pub(crate) fn new(prefix: u8) -> (table: Self)
        ensures
            delegate_prefix(table) == seq![prefix],
    {
        DelegateTable { inner: LookupMap::new(prefix) }
    }

    /// `LookupMap::get`: the expiry stored for `key`, if there is one. The
    /// host ends the call on a key that does not fit.
    #[verifier::external_body]
    pub(crate) fn get(&self, key: &(String, String, String)) -> (found: Option<&u64>)
        requires
            storable_delegate(key@.0, key@.1, key@.2),
        ensures
            found matches Some(until) ==> delegate_entries(*self).contains_key(key@)
                && delegate_entries(*self)[key@] == *until,
            found is None ==> !delegate_entries(*self).contains_key(key@),
    {
        self.inner.get(key)
    }

    /// `LookupMap::insert`: stores `until` for `key`, leaves every other
    /// entry and the prefix as they were, and returns the value that
    /// `key` had before. It reads storage first, so the host ends the call
    /// on a key that does not fit.
    #[verifier::external_body]
    pub(crate) fn insert(&mut self, key: (String, String, String), until: u64) -> (previous:
        Option<u64>)
        requires
            storable_delegate(key@.0, key@.1, key@.2),
        ensures
            delegate_prefix(*final(self)) == delegate_prefix(*old(self)),
            delegate_entries(*final(self)) == delegate_entries(*old(self)).insert(key@, until),
            previous matches Some(p) ==> delegate_entries(*old(self)).contains_key(key@)
                && delegate_entries(*old(self))[key@] == p,
            previous is None ==> !delegate_entries(*old(self)).contains_key(key@),
    {
        self.inner.insert(key, until)
    }
}

/// Attribute records, (identity, name, value) to expiry: a
/// `LookupMap<(String, String, Vec<u8>), u64>`.
#[verifier::external_body]
pub struct AttributeTable {
    inner: LookupMap<(String, String, Vec<u8>), u64>,
}

/// The entries of an [`AttributeTable`].
pub uninterp spec fn attribute_entries(table: AttributeTable) -> Map<
    (Seq<char>, Seq<char>, Seq<u8>),
    u64,
>;

/// The prefix of the storage keys of an [`AttributeTable`]: the bytes it was made
/// with.
pub uninterp spec fn attribute_prefix(table: AttributeTable) -> Seq<u8>;

impl AttributeTable {
    /// `LookupMap::new`, with one byte as the prefix, which the call records.
    /// Nothing is claimed of the entries: see [`OwnerTable::new`].
    #[verifier::external_body]
    pub(crate) fn new(prefix: u8) -> (table: Self)
        ensures
            attribute_prefix(table) == seq![prefix],
    {
        AttributeTable { inner: LookupMap::new(prefix) }
    }

    /// `LookupMap::get`: the expiry stored for `key`, if there is one. The
    /// host ends the call on a key that does not fit.
    #[verifier::external_body]
    pub(crate) fn get(&self, key: &(String, String, Vec<u8>)) -> (found: Option<&u64>)
        requires
            storable_attribute(key@.0, key@.1, key@.2),
        ensures
            found matches Some(until) ==> attribute_entries(*self).contains_key(key@)
                && attribute_entries(*self)[key@] == *until,
            found is None ==> !attribute_entries(*self).contains_key(key@),
    {
        self.inner.get(key)
    }

    /// `LookupMap::insert`: stores `until` for `key`, leaves every other
    /// entry and the prefix as they were, and returns the value that
    /// `key` had before. It reads storage first, so the host ends the call
    /// on a key that does not fit.
    #[verifier::external_body]
    pub(crate) fn insert(&mut self, key: (String, String, Vec<u8>), until: u64) -> (previous:
        Option<u64>)
        requires
            storable_attribute(key@.0, key@.1, key@.2),
        ensures
            attribute_prefix(*final(self)) == attribute_prefix(*old(self)),
            attribute_entries(*final(self)) == attribute_entries(*old(self)).insert(key@, until),
            previous matches Some(p) ==> attribute_entries(*old(self)).contains_key(key@)
                && attribute_entries(*old(self))[key@] == p,
            previous is None ==> !attribute_entries(*old(self)).contains_key(key@),
    {
        self.inner.insert(key, until)
    }
}

/// One number per identity (a block height, or a nonce): a
/// `LookupMap<String, u64>`.
#[verifier::external_body]
pub struct CounterTable {
    inner: LookupMap<String, u64>,
}

/// The entries of a [`CounterTable`].
pub uninterp spec fn counter_entries(table: CounterTable) -> Map<Seq<char>, u64>;

/// The prefix of the storage keys of a [`CounterTable`]: the bytes it was made
/// with.
pub uninterp spec fn counter_prefix(table: CounterTable) -> Seq<u8>;

impl CounterTable {
    /// `LookupMap::new`, with one byte as the prefix, which the call records.
    /// Nothing is claimed of the entries: see [`OwnerTable::new`].
    #[verifier::external_body]
    pub(crate) fn new(prefix: u8) -> (table: Self)
        ensures
            counter_prefix(table) == seq![prefix],
    {
        CounterTable { inner: LookupMap::new(prefix) }
    }

    /// `LookupMap::get`: the number stored for `identity`, if there is one.
    /// The host ends the call on a key that does not fit.
    #[verifier::external_body]
    pub(crate) fn get(&self, identity: &String) -> (found: Option<&u64>)
        requires
            storable_identity(identity@),
        ensures
            found matches Some(n) ==> counter_entries(*self).contains_key(identity@)
                && counter_entries(*self)[identity@] == *n,
            found is None ==> !counter_entries(*self).contains_key(identity@),
    {
        self.inner.get(identity)
    }

    /// `LookupMap::insert`: stores `n` for `identity`, leaves every other
    /// entry and the prefix as they were, and returns the value that
    /// `identity` had before. It reads storage first, so the host ends the call
    /// on a key that does not fit.
    #[verifier::external_body]
    pub(crate) fn insert(&mut self, identity: String, n: u64) -> (previous: Option<u64>)
        requires
            storable_identity(identity@),
        ensures
            counter_prefix(*final(self)) == counter_prefix(*old(self)),
            counter_entries(*final(self)) == counter_entries(*old(self)).insert(identity@, n),
            previous matches Some(p) ==> counter_entries(*old(self)).contains_key(identity@)
                && counter_entries(*old(self))[identity@] == p,
            previous is None ==> !counter_entries(*old(self)).contains_key(identity@),
    {
        self.inner.insert(identity, n)
    }
}

} // verus!
