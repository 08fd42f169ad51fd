//! What the host can store.
//!
//! A record of the registry lives in storage under a key: one byte for its
//! table, then the record's own key as Borsh writes it. Borsh writes a string
//! or a byte vector as four bytes of length and then the bytes, a string in
//! UTF-8, and a tuple as its parts one after another. The NEAR host serves
//! no storage key longer than [`MAX_STORAGE_KEY_LEN`] bytes and stores no
//! value longer than [`MAX_STORAGE_VALUE_LEN`] bytes: it ends the call that
//! asks. So the registry's operations are for keys and owners that fit, and
//! the functions here say which do.

use vstd::prelude::*;
use vstd::utf8::encode_utf8;

verus! {

/// The longest storage key the host serves, in bytes: the limit of the NEAR
/// protocol from version 53 on.
pub const MAX_STORAGE_KEY_LEN: usize = 2048;

/// The longest storage value the host stores, in bytes.
pub const MAX_STORAGE_VALUE_LEN: usize = 4_194_304;

/// The number of bytes Borsh writes for a string.
pub open spec fn text_size(text: Seq<char>) -> nat {
    4 + encode_utf8(text).len()
}

/// The number of bytes Borsh writes for a byte vector.
pub open spec fn blob_size(bytes: Seq<u8>) -> nat {
    4 + bytes.len()
}

/// Whether the host can store a record kept by identity alone: an owner, a
/// changed height, a nonce.
pub open spec fn storable_identity(identity: Seq<char>) -> bool {
    1 + text_size(identity) <= MAX_STORAGE_KEY_LEN
}

/// Whether the host can store the delegate grant with this key. Where it
/// can, it can store the records kept by `identity` alone too.
pub open spec fn storable_delegate(
    identity: Seq<char>,
    delegate_type: Seq<char>,
    delegate: Seq<char>,
) -> bool {
    1 + text_size(identity) + text_size(delegate_type) + text_size(delegate)
        <= MAX_STORAGE_KEY_LEN
}

/// Whether the host can store the attribute with this key. Where it can, it
/// can store the records kept by `identity` alone too.
pub open spec fn storable_attribute(identity: Seq<char>, name: Seq<char>, value: Seq<u8>) -> bool {
    1 + text_size(identity) + text_size(name) + blob_size(value) <= MAX_STORAGE_KEY_LEN
}

/// Whether the host can store this owner as the value of an ownership
/// record.
pub open spec fn storable_owner(owner: Seq<char>) -> bool {
    text_size(owner) <= MAX_STORAGE_VALUE_LEN
}

/// The number of bytes of a string in UTF-8.
pub fn byte_len(text: &String) -> (len: usize)
    ensures
        len == encode_utf8(text@).len(),
{
    text.as_str().as_bytes().len()
}

/// Whether the host can store a record kept by `identity` alone.
pub fn is_storable_identity(identity: &String) -> (fits: bool)
    ensures
        fits == storable_identity(identity@),
{
    byte_len(identity) <= MAX_STORAGE_KEY_LEN - 5
}

/// Whether the host can store the delegate grant `(identity, delegate_type,
/// delegate)`.
pub fn is_storable_delegate(identity: &String, delegate_type: &String, delegate: &String) -> (fits:
    bool)
    ensures
        fits == storable_delegate(identity@, delegate_type@, delegate@),
{
    let room: usize = MAX_STORAGE_KEY_LEN - 13;
    let first = byte_len(identity);
    let second = byte_len(delegate_type);
    let third = byte_len(delegate);
    first <= room && second <= room - first && third <= room - first - second
}

/// Whether the host can store the attribute `(identity, name, value)`.
pub fn is_storable_attribute(identity: &String, name: &String, value: &Vec<u8>) -> (fits: bool)
    ensures
        fits == storable_attribute(identity@, name@, value@),
{
    let room: usize = MAX_STORAGE_KEY_LEN - 13;
    let first = byte_len(identity);
    let second = byte_len(name);
    let third = value.len();
    first <= room && second <= room - first && third <= room - first - second
}

/// Whether the host can store `owner` as the value of an ownership record.
pub fn is_storable_owner(owner: &String) -> (fits: bool)
    ensures
        fits == storable_owner(owner@),
{
    byte_len(owner) <= MAX_STORAGE_VALUE_LEN - 4
}

} // verus!
