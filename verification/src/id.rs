//! The identifier type: a 64-bit value tagged with its domain.

use crate::domain::IdType;
use std::cmp::Ordering;
use std::marker::PhantomData;
use vstd::prelude::*;
use vstd::std_specs::cmp::PartialEqSpec;
use vstd::std_specs::cmp::PartialOrdSpec;

verus! {

/// An identifier of the domain `T`.
///
/// The identifier is its 64-bit value and nothing else: the domain lives in
/// the type only. Every `u64` is a valid value. The view of an identifier is
/// that value.
#[derive(Copy, Hash, Eq, Ord)]
pub struct Id<T: IdType> {
    id: u64,
    phantom_data: PhantomData<T>,
}

impl<T: IdType> View for Id<T> {
    type V = u64;

    closed spec fn view(&self) -> u64 {
        self.id
    }
}

impl<T: IdType> DeepView for Id<T> {
    type V = u64;

    open spec fn deep_view(&self) -> u64 {
        self@
    }
}

impl<T: IdType> Clone for Id<T> {
    fn clone(&self) -> (r: Self)
        ensures
            r == *self,
    {
        *self
    }
}

/// Two identifiers of one domain are equal exactly when their values are.
impl<T: IdType> PartialEq for Id<T> {
    fn eq(&self, other: &Self) -> (r: bool) {
        self.id == other.id
    }
}

impl<T: IdType> vstd::std_specs::cmp::PartialEqSpecImpl for Id<T> {
    open spec fn obeys_eq_spec() -> bool {
        true
    }

    open spec fn eq_spec(&self, other: &Self) -> bool {
        self@ == other@
    }
}

/// Identifiers of one domain are ordered as their values are.
impl<T: IdType> PartialOrd for Id<T> {
    fn partial_cmp(&self, other: &Self) -> (r: Option<Ordering>) {
        if self.id < other.id {
            Some(Ordering::Less)
        } else if self.id == other.id {
            Some(Ordering::Equal)
        } else {
            Some(Ordering::Greater)
        }
    }
}

impl<T: IdType> vstd::std_specs::cmp::PartialOrdSpecImpl for Id<T> {
    open spec fn obeys_partial_cmp_spec() -> bool {
        true
    }

    open spec fn partial_cmp_spec(&self, other: &Self) -> Option<Ordering> {
        if self@ < other@ {
            Some(Ordering::Less)
        } else if self@ == other@ {
            Some(Ordering::Equal)
        } else {
            Some(Ordering::Greater)
        }
    }
}

impl<T: IdType> Id<T> {
    /// The first identifier of the domain, as a specification.
    pub closed spec fn spec_first() -> Self {
        Self::spec_from_u64(0)
    }

    /// The identifier with the value `id`, as a specification.
    pub closed spec fn spec_from_u64(id: u64) -> Self {
        Id { id, phantom_data: PhantomData }
    }

    /// The value of the identifier, as a specification.
    pub open spec fn spec_as_u64(&self) -> u64 {
        self@
    }

    /// The first identifier of the domain: the one with the value 0.
    #[verifier::when_used_as_spec(spec_first)]
    pub fn first() -> (r: Self)
        ensures
            r == Self::spec_first(),
            r@ == 0,
    {
        Self::from_u64(0)
    }

    /// The identifier with the value `id`. Every value is accepted.
    #[verifier::when_used_as_spec(spec_from_u64)]
    pub fn from_u64(id: u64) -> (r: Self)
        ensures
            r == Self::spec_from_u64(id),
            r@ == id,
    {
        Self { id, phantom_data: PhantomData }
    }

    /// The value of the identifier.
    #[verifier::when_used_as_spec(spec_as_u64)]
    pub fn as_u64(&self) -> (v: u64)
        ensures
            v == self@,
    {
        self.id
    }

    /// A mutable borrow of the value of the identifier.
    ///
    /// When the borrow ends, the identifier has the value that was last
    /// written through it. The sequence generator advances its cursor this
    /// way; other code should treat identifiers as immutable.
    pub fn as_mut_u64(&mut self) -> (v: &mut u64)
        ensures
            *v == old(self)@,
            final(self)@ == *final(v),
    {
        &mut self.id
    }
}

/// The first identifier of every domain has the value 0, and it is the
/// identifier made from 0.
pub proof fn lemma_first_is_zero<T: IdType>()
    ensures
        Id::<T>::first().as_u64() == 0,
        Id::<T>::first() == Id::<T>::from_u64(0),
{
}

/// Making an identifier from a value and reading its value gives the value
/// back, whatever the value.
pub proof fn lemma_from_u64_round_trip<T: IdType>(v: u64)
    ensures
        Id::<T>::from_u64(v).as_u64() == v,
{
}

/// The value of an identifier is the whole of it: the identifier made from
/// the value of `a` is `a`. An identifier that is sent as its bare 64-bit
/// value and made anew from that value on the other side is therefore the
/// one that was sent.
pub proof fn lemma_value_round_trip<T: IdType>(a: Id<T>)
    ensures
        Id::<T>::from_u64(a.as_u64()) == a,
{
}

/// Identifiers of one domain compare as their values do: `==` holds exactly
/// when the values are equal, and `<`, `<=`, `>` and `>=` are the order of the
/// values. Identifiers with equal values are the same identifier.
pub proof fn lemma_compares_by_value<T: IdType>(a: Id<T>, b: Id<T>)
    ensures
        Id::<T>::obeys_eq_spec(),
        Id::<T>::obeys_partial_cmp_spec(),
        a.eq_spec(&b) <==> a.as_u64() == b.as_u64(),
        a == b <==> a.as_u64() == b.as_u64(),
        a.partial_cmp_spec(&b) == Some(Ordering::Less) <==> a.as_u64() < b.as_u64(),
        a.partial_cmp_spec(&b) == Some(Ordering::Equal) <==> a.as_u64() == b.as_u64(),
        a.partial_cmp_spec(&b) == Some(Ordering::Greater) <==> a.as_u64() > b.as_u64(),
        a.partial_cmp_spec(&b) is Some,
{
}

} // verus!
