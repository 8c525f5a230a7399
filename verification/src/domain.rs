//! Identifier domains: zero-sized marker types that tell identifiers apart at
//! compile time.

use crate::id::Id;
use std::fmt::Debug;
use std::hash::Hash;
use vstd::prelude::*;

verus! {

/// A domain of identifiers.
///
/// A domain is a marker type that is never instantiated for its own sake: it
/// only serves as the type parameter of [`Id`] and of the sequence generator.
/// Two domains are two distinct types, so identifiers of different domains
/// cannot be assigned to or compared with one another.
pub trait IdType: Debug + Clone + Copy + Hash + PartialEq + Eq + PartialOrd + Ord {
    /// The human-readable name of the domain, used when an identifier is
    /// rendered as text.
    const NAME: &'static str;
}

/// The domain of client identifiers.
#[derive(Debug, Clone, Copy, Hash, PartialEq, Eq, PartialOrd, Ord)]
pub struct Client;

impl IdType for Client {
    const NAME: &'static str = "Client";
}

/// An identifier of a client.
pub type ClientId = Id<Client>;

/// The domain of request identifiers.
#[derive(Debug, Clone, Copy, Hash, PartialEq, Eq, PartialOrd, Ord)]
pub struct Request;

impl IdType for Request {
    const NAME: &'static str = "Request";
}

/// An identifier of a request.
pub type RequestId = Id<Request>;

/// The domain of replica identifiers.
#[derive(Debug, Clone, Copy, Hash, PartialEq, Eq, PartialOrd, Ord)]
pub struct Replica;

impl IdType for Replica {
    const NAME: &'static str = "Replica";
}

/// An identifier of a replica.
pub type ReplicaId = Id<Replica>;

/// The names of the three domains that this library defines.
pub proof fn lemma_domain_names()
    ensures
        Client::NAME@ == "Client"@,
        Request::NAME@ == "Request"@,
        Replica::NAME@ == "Replica"@,
{
}

} // verus!
