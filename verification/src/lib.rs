//! Strongly typed 64-bit identifiers.
//!
//! An [`Id`] wraps a `u64` and carries a zero-sized domain tag in its type, so
//! that a client identifier can never be handed to code that expects a request
//! identifier. Identifiers of one domain are totally ordered by their value.
//! An [`IdIter`] hands out fresh identifiers of one domain in increasing order,
//! starting at zero, and stops for good at the top of the 64-bit range.

pub mod domain;
pub mod id;
pub mod render;
pub mod sequence;

pub use domain::Client;
pub use domain::ClientId;
pub use domain::IdType;
pub use domain::Replica;
pub use domain::ReplicaId;
pub use domain::Request;
pub use domain::RequestId;
pub use id::Id;
pub use sequence::IdIter;
