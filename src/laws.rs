//! Laws that relate the identifier operations to one another.
//!
//! Each law speaks of the results of the operations, as their contracts
//! describe them, and holds for every owner and every text.

use core::cmp::Ordering;
use vstd::prelude::*;

use crate::id::{ErasedId, Id};
use crate::text::{lemma_text_order_equal, lemma_text_order_total, reversed, text_order, text_precedes};

verus! {

/// Text survives construction: for every text `s` and owner, the identifier
/// built from `s` shows exactly `s`, and turning it back into plain text
/// gives exactly `s`.
pub proof fn lemma_text_round_trip<Owner: ?Sized>(s: String, id: Id<Owner>, shown: &str, back: String)
    requires
        call_ensures(Id::<Owner>::new, (s,), id),
        call_ensures(Id::<Owner>::as_str, (&id,), shown),
        call_ensures(<String as From<Id<Owner>>>::from, (id,), back),
    ensures
        shown@ == s@,
        back@ == s@,
{
}

/// Erasing an owner and setting it again keeps the text: for every text `s`
/// and owner, `new(s).erase().with_owner().as_str()` shows exactly `s`.
pub proof fn lemma_erase_restore<Owner: ?Sized>(
    s: String,
    id: Id<Owner>,
    erased: ErasedId,
    restored: Id<Owner>,
    shown: &str,
)
    requires
        call_ensures(Id::<Owner>::new, (s,), id),
        call_ensures(Id::<Owner>::erase, (id,), erased),
        call_ensures(ErasedId::with_owner::<Owner>, (erased,), restored),
        call_ensures(Id::<Owner>::as_str, (&restored,), shown),
    ensures
        shown@ == s@,
{
}

/// Changing the owner keeps the text: for every text `s` and owners `A` and
/// `B`, `new::<A>(s).change_owner::<B>().as_str()` shows exactly `s`.
pub proof fn lemma_change_owner_keeps_text<A: ?Sized, B: ?Sized>(
    s: String,
    id: Id<A>,
    moved: Id<B>,
    shown: &str,
)
    requires
        call_ensures(Id::<A>::new, (s,), id),
        call_ensures(Id::<A>::change_owner::<B>, (id,), moved),
        call_ensures(Id::<B>::as_str, (&moved,), shown),
    ensures
        shown@ == s@,
{
}

/// Equality is that of the text: identifiers of one owner built from `s1`
/// and `s2` compare equal exactly when `s1` and `s2` are the same text.
pub proof fn lemma_eq_is_text_eq<Owner: ?Sized>(
    s1: String,
    s2: String,
    a: Id<Owner>,
    b: Id<Owner>,
    r: bool,
)
    requires
        call_ensures(Id::<Owner>::new, (s1,), a),
        call_ensures(Id::<Owner>::new, (s2,), b),
        call_ensures(<Id<Owner> as PartialEq>::eq, (&a, &b), r),
    ensures
        r == (s1@ == s2@),
{
}

/// Order is that of the text: of identifiers of one owner built from `s1`
/// and `s2`, the first is less exactly when `s1` precedes `s2` byte by byte,
/// and they compare as equal exactly when the texts are the same.
pub proof fn lemma_order_is_text_order<Owner: ?Sized>(
    s1: String,
    s2: String,
    a: Id<Owner>,
    b: Id<Owner>,
    less: bool,
    order: Option<Ordering>,
)
    requires
        call_ensures(Id::<Owner>::new, (s1,), a),
        call_ensures(Id::<Owner>::new, (s2,), b),
        call_ensures(<Id<Owner> as PartialOrd>::lt, (&a, &b), less),
        call_ensures(<Id<Owner> as PartialOrd>::partial_cmp, (&a, &b), order),
    ensures
        less == text_precedes(s1@, s2@),
        (order == Some(Ordering::Equal)) == (s1@ == s2@),
{
    lemma_text_order_equal(s1@, s2@);
}

/// `cmp` is the order of the text: of identifiers of one owner built from
/// `s1` and `s2`, it gives `Less` exactly when `s1` precedes `s2` byte by
/// byte, and `Equal` exactly when the texts are the same.
pub proof fn lemma_cmp_is_text_order<Owner: ?Sized>(
    s1: String,
    s2: String,
    a: Id<Owner>,
    b: Id<Owner>,
    r: Ordering,
)
    requires
        call_ensures(Id::<Owner>::new, (s1,), a),
        call_ensures(Id::<Owner>::new, (s2,), b),
        call_ensures(<Id<Owner> as Ord>::cmp, (&a, &b), r),
    ensures
        r == text_order(s1@, s2@),
        (r == Ordering::Less) == text_precedes(s1@, s2@),
        (r == Ordering::Equal) == (s1@ == s2@),
{
    lemma_text_order_equal(s1@, s2@);
}

/// `partial_cmp` always answers, and answers as `cmp` does.
pub proof fn lemma_partial_cmp_is_cmp<Owner: ?Sized>(
    a: Id<Owner>,
    b: Id<Owner>,
    r: Ordering,
    o: Option<Ordering>,
)
    requires
        call_ensures(<Id<Owner> as Ord>::cmp, (&a, &b), r),
        call_ensures(<Id<Owner> as PartialOrd>::partial_cmp, (&a, &b), o),
    ensures
        o == Some(r),
{
}

/// `cmp` is a total order that agrees with `==`: it gives `Equal` exactly
/// on equal identifiers, swapping its operands reverses its answer, and
/// `Less` is transitive.
pub proof fn lemma_cmp_total_order<Owner: ?Sized>(
    a: Id<Owner>,
    b: Id<Owner>,
    c: Id<Owner>,
    ab: Ordering,
    ba: Ordering,
    bc: Ordering,
    ac: Ordering,
    same: bool,
)
    requires
        call_ensures(<Id<Owner> as Ord>::cmp, (&a, &b), ab),
        call_ensures(<Id<Owner> as Ord>::cmp, (&b, &a), ba),
        call_ensures(<Id<Owner> as Ord>::cmp, (&b, &c), bc),
        call_ensures(<Id<Owner> as Ord>::cmp, (&a, &c), ac),
        call_ensures(<Id<Owner> as PartialEq>::eq, (&a, &b), same),
    ensures
        (ab == Ordering::Equal) == same,
        ba == reversed(ab),
        ab == Ordering::Less && bc == Ordering::Less ==> ac == Ordering::Less,
{
    lemma_text_order_total(a@, b@, c@);
}

/// A duplicate is equal to its original: cloning an identifier gives one
/// with the same text, which compares equal to the original.
pub proof fn lemma_clone_is_equal<Owner: ?Sized>(a: Id<Owner>, b: Id<Owner>, r: bool)
    requires
        call_ensures(<Id<Owner> as Clone>::clone, (&a,), b),
        call_ensures(<Id<Owner> as PartialEq>::eq, (&b, &a), r),
    ensures
        b@ == a@,
        r,
{
}

} // verus!
