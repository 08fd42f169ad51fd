//! What the host says about the call in progress.
//!
//! The three functions here ask the NEAR runtime, through `near_sdk::env`.
//! Their answers belong to the call, not to the arguments, so none of them
//! promises anything: whatever uses an answer is verified for every value of
//! it.
//!
//! Asking costs gas. A call that runs out of gas ends where it stands and
//! leaves no trace; no function here returns in that case.

use vstd::prelude::*;

verus! {

/// `near_sdk::env::predecessor_account_id`, as text: the account that made
/// this call. The host refuses the question during a view call and ends the
/// call there.
#[verifier::external_body]
pub(crate) fn predecessor_account_id() -> (actor: String) {
    near_sdk::env::predecessor_account_id().to_string()
}

/// `near_sdk::env::block_height`: the height of the block this call runs in.
#[verifier::external_body]
pub(crate) fn block_height() -> (height: u64) {
    near_sdk::env::block_height()
}

/// `near_sdk::env::block_timestamp_ms`: the time of the block this call runs
/// in, in milliseconds since the Unix epoch.
#[verifier::external_body]
pub(crate) fn block_timestamp_ms() -> (millis: u64) {
    near_sdk::env::block_timestamp_ms()
}

} // verus!
