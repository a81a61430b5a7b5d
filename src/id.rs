//! Identifiers branded with the kind of entity that owns them, and their
//! owner-agnostic counterpart.

use core::cmp::Ordering;
use core::marker::PhantomData;
use vstd::prelude::*;

use crate::text::{compare_text, text_order};

verus! {

/// Relies on `<String as Hash>::hash`, which feeds the text to the hasher;
/// nothing is claimed of what it writes.
pub assume_specification<H: core::hash::Hasher>[ <String as core::hash::Hash>::hash::<H> ](
    s: &String,
    state: &mut H,
);

/// Identifier of an object of the owner type.
///
/// The owner lives in the type alone: at run time an `Id` is its text and
/// nothing else, and equality, order and hashing look at the text only.
#[derive(Debug)]
pub struct Id<Owner> where Owner: ?Sized {
    id: String,
    _ph: PhantomData<Owner>,
}

/// Type of identifier with erased (unknown) owner.
#[derive(Debug, Eq, Ord, Hash)]
pub struct ErasedId {
    id: String,
}

impl<Owner> View for Id<Owner> where Owner: ?Sized {
    type V = Seq<char>;

    closed spec fn view(&self) -> Seq<char> {
        self.id@
    }
}

impl View for ErasedId {
    type V = Seq<char>;

    closed spec fn view(&self) -> Seq<char> {
        self.id@
    }
}

impl<Owner> Id<Owner> where Owner: ?Sized {
    /// Creates new identifier from the string.
    pub fn new(id: String) -> (r: Self)
        ensures
            r@ == id@,
    {
        Id { id, _ph: PhantomData }
    }

    /// Returns a string slice of this identifier.
    pub fn as_str(&self) -> (r: &str)
        ensures
            r@ == self@,
    {
        self.id.as_str()
    }

    /// Changes the owner of this identifier explicitly.
    pub fn change_owner<Other>(self) -> (r: Id<Other>) where Other: ?Sized
        ensures
            r@ == self@,
    {
        Id::from(self.id)
    }

    /// Erases the owner of this identifier explicitly,
    /// turning self into [`ErasedId`].
    pub fn erase(self) -> (r: ErasedId)
        ensures
            r@ == self@,
    {
        ErasedId::from(self)
    }

    /// The text of this identifier as it is shown to people: unchanged.
    pub fn to_string(&self) -> (r: String)
        ensures
            r@ == self@,
    {
        self.id.clone()
    }
}

impl ErasedId {
    /// Creates new erased identifier from the string.
    pub fn new(id: String) -> (r: Self)
        ensures
            r@ == id@,
    {
        ErasedId { id }
    }

    /// Returns a string slice of this identifier.
    pub fn as_str(&self) -> (r: &str)
        ensures
            r@ == self@,
    {
        self.id.as_str()
    }

    /// Sets the owner type for this identifier.
    pub fn with_owner<Owner>(self) -> (r: Id<Owner>) where Owner: ?Sized
        ensures
            r@ == self@,
    {
        Id::new(self.id)
    }

    /// The text of this identifier as it is shown to people: unchanged.
    pub fn to_string(&self) -> (r: String)
        ensures
            r@ == self@,
    {
        self.id.clone()
    }
}

impl<Owner> PartialEq for Id<Owner> where Owner: ?Sized {
    fn eq(&self, other: &Self) -> (r: bool) {
        self.id == other.id
    }
}

impl<Owner> vstd::std_specs::cmp::PartialEqSpecImpl for Id<Owner> where Owner: ?Sized {
    open spec fn obeys_eq_spec() -> bool {
        true
    }

    open spec fn eq_spec(&self, other: &Self) -> bool {
        self@ == other@
    }
}

impl<Owner> Eq for Id<Owner> where Owner: ?Sized {}

impl<Owner> PartialOrd for Id<Owner> where Owner: ?Sized {
    fn partial_cmp(&self, other: &Self) -> (r: Option<Ordering>) {
        Some(compare_text(self.id.as_str(), other.id.as_str()))
    }
}

impl<Owner> vstd::std_specs::cmp::PartialOrdSpecImpl for Id<Owner> where Owner: ?Sized {
    open spec fn obeys_partial_cmp_spec() -> bool {
        true
    }

    open spec fn partial_cmp_spec(&self, other: &Self) -> Option<Ordering> {
        Some(text_order(self@, other@))
    }
}

impl<Owner> Ord for Id<Owner> where Owner: ?Sized {
    /// Relies on `<String as Ord>::cmp`, which orders strings
    /// lexicographically by their bytes: the order `text_order` describes.
    #[verifier::external_body]
    fn cmp(&self, other: &Self) -> (r: Ordering)
        ensures
            r == text_order(self@, other@),
    {
        self.id.cmp(&other.id)
    }
}

impl<Owner> Clone for Id<Owner> where Owner: ?Sized {
    fn clone(&self) -> (r: Self)
        ensures
            r == *self,
    {
        Id { id: self.id.clone(), _ph: self._ph }
    }
}

impl<Owner> core::hash::Hash for Id<Owner> where Owner: ?Sized {
    fn hash<H: core::hash::Hasher>(&self, state: &mut H) {
        self.id.hash(state);
    }
}

impl<Owner> From<String> for Id<Owner> where Owner: ?Sized {
    fn from(id: String) -> (r: Self)
        ensures
            r@ == id@,
    {
        Id { id, _ph: PhantomData }
    }
}

impl<Owner> vstd::std_specs::convert::FromSpecImpl<String> for Id<Owner> where Owner: ?Sized {
    open spec fn obeys_from_spec() -> bool {
        true
    }

    closed spec fn from_spec(id: String) -> Self {
        Id { id, _ph: PhantomData }
    }
}

impl<Owner> From<Id<Owner>> for String where Owner: ?Sized {
    fn from(id: Id<Owner>) -> (r: Self)
        ensures
            r@ == id@,
    {
        id.id
    }
}

impl<Owner> vstd::std_specs::convert::FromSpecImpl<Id<Owner>> for String where Owner: ?Sized {
    open spec fn obeys_from_spec() -> bool {
        true
    }

    closed spec fn from_spec(id: Id<Owner>) -> Self {
        id.id
    }
}

impl PartialEq for ErasedId {
    fn eq(&self, other: &Self) -> (r: bool) {
        self.id == other.id
    }
}

impl vstd::std_specs::cmp::PartialEqSpecImpl for ErasedId {
    open spec fn obeys_eq_spec() -> bool {
        true
    }

    open spec fn eq_spec(&self, other: &Self) -> bool {
        self@ == other@
    }
}

impl PartialOrd for ErasedId {
    fn partial_cmp(&self, other: &Self) -> (r: Option<Ordering>) {
        Some(compare_text(self.id.as_str(), other.id.as_str()))
    }
}

impl vstd::std_specs::cmp::PartialOrdSpecImpl for ErasedId {
    open spec fn obeys_partial_cmp_spec() -> bool {
        true
    }

    open spec fn partial_cmp_spec(&self, other: &Self) -> Option<Ordering> {
        Some(text_order(self@, other@))
    }
}

impl Clone for ErasedId {
    fn clone(&self) -> (r: Self)
        ensures
            r == *self,
    {
        ErasedId { id: self.id.clone() }
    }
}

impl From<String> for ErasedId {
    fn from(id: String) -> (r: Self)
        ensures
            r@ == id@,
    {
        ErasedId { id }
    }
}

impl vstd::std_specs::convert::FromSpecImpl<String> for ErasedId {
    open spec fn obeys_from_spec() -> bool {
        true
    }

    closed spec fn from_spec(id: String) -> Self {
        ErasedId { id }
    }
}

impl From<ErasedId> for String {
    fn from(id: ErasedId) -> (r: Self)
        ensures
            r@ == id@,
    {
        id.id
    }
}

impl vstd::std_specs::convert::FromSpecImpl<ErasedId> for String {
    open spec fn obeys_from_spec() -> bool {
        true
    }

    closed spec fn from_spec(id: ErasedId) -> Self {
        id.id
    }
}

impl<Owner> From<Id<Owner>> for ErasedId where Owner: ?Sized {
    fn from(id: Id<Owner>) -> (r: Self)
        ensures
            r@ == id@,
    {
        ErasedId { id: id.id }
    }
}

impl<Owner> vstd::std_specs::convert::FromSpecImpl<Id<Owner>> for ErasedId where Owner: ?Sized {
    open spec fn obeys_from_spec() -> bool {
        true
    }

    closed spec fn from_spec(id: Id<Owner>) -> Self {
        ErasedId { id: id.id }
    }
}

} // verus!
