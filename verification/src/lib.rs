//! An identity registry for a NEAR contract: ownership of identities,
//! time-bounded delegates and attributes, and the bookkeeping that indexers
//! read.

pub mod error;
mod host;
pub mod laws;
pub mod limits;
pub mod model;
pub mod registry;
pub mod store;
pub mod time;

pub use error::RegistryError;
pub use limits::{
    is_storable_attribute, is_storable_delegate, is_storable_identity, is_storable_owner,
    MAX_STORAGE_KEY_LEN, MAX_STORAGE_VALUE_LEN,
};
pub use model::RegistryState;
pub use registry::NearDIDRegistry;
pub use time::{expiry_from, seconds_from_millis};
