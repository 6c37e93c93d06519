//! The treasury factory: decides which payment streams may be created, and
//! under whose authority its policy may change.
//!
//! The ledger, the authorization of an address and the stream contract belong
//! to the host that runs the factory. The library never reaches for them: it
//! works on the stored entries as plain values, and tells the host what to do
//! next.

pub mod types;
pub mod policy;
pub mod model;
pub mod factory;
pub mod laws;

pub use factory::FluxoraFactory;
pub use policy::MAX_MIN_DURATION_SECONDS;
pub use policy::{validate_cap, validate_min_duration};
pub use types::{
    Address, AdminStep, CreateStep, DataKey, Durability, Entry, FactoryConfig, FactoryError,
    StreamCall, StreamKind,
};
