//! Why a call was turned down.

use vstd::prelude::*;

verus! {

/// The one way a call can fail.
#[derive(Debug, Clone, Copy, PartialEq, Eq, Structural)]
pub enum RegistryError {
    /// The caller is not the owner of the identity it tried to change.
    Unauthorized,
}

impl RegistryError {
    /// The text a contract aborts with when it meets this error.
    pub fn message(&self) -> (text: &'static str)
        ensures
            text@ == "bad_actor"@,
    {
        match self {
            RegistryError::Unauthorized => "bad_actor",
        }
    }
}

} // verus!
