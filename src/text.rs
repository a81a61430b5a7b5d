//! Byte-wise lexicographic order on text, the order identifiers follow.

use core::cmp::Ordering;
use vstd::prelude::*;
use vstd::utf8::*;

verus! {

/// The opposite answer of a comparison: what it gives with its operands
/// swapped.
pub open spec fn reversed(o: Ordering) -> Ordering {
    match o {
        Ordering::Less => Ordering::Greater,
        Ordering::Equal => Ordering::Equal,
        Ordering::Greater => Ordering::Less,
    }
}

/// Lexicographic comparison of two byte sequences: the first differing byte
/// decides, and a proper prefix comes first.
pub open spec fn byte_order(a: Seq<u8>, b: Seq<u8>) -> Ordering
    decreases a.len(),
{
    if a.len() == 0 {
        if b.len() == 0 {
            Ordering::Equal
        } else {
            Ordering::Less
        }
    } else if b.len() == 0 {
        Ordering::Greater
    } else if a[0] < b[0] {
        Ordering::Less
    } else if a[0] > b[0] {
        Ordering::Greater
    } else {
        byte_order(a.drop_first(), b.drop_first())
    }
}

/// The order of two texts: that of their UTF-8 encodings, byte by byte.
pub open spec fn text_order(a: Seq<char>, b: Seq<char>) -> Ordering {
    byte_order(encode_utf8(a), encode_utf8(b))
}

/// `a` comes strictly before `b` in text order.
pub open spec fn text_precedes(a: Seq<char>, b: Seq<char>) -> bool {
    text_order(a, b) == Ordering::Less
}

/// Byte order finds two sequences equal exactly when they are.
pub proof fn lemma_byte_order_equal(a: Seq<u8>, b: Seq<u8>)
    ensures
        (byte_order(a, b) == Ordering::Equal) == (a == b),
    decreases a.len(),
{
    if a.len() == 0 && b.len() == 0 {
        assert(a =~= b);
    } else if a.len() > 0 && b.len() > 0 && a[0] == b[0] {
        lemma_byte_order_equal(a.drop_first(), b.drop_first());
        if a.drop_first() == b.drop_first() {
            assert(a =~= seq![a[0]] + a.drop_first());
            assert(b =~= seq![b[0]] + b.drop_first());
        }
    }
}

/// Swapping the operands of byte order reverses its answer.
pub proof fn lemma_byte_order_reverse(a: Seq<u8>, b: Seq<u8>)
    ensures
        byte_order(b, a) == reversed(byte_order(a, b)),
    decreases a.len(),
{
    if a.len() > 0 && b.len() > 0 && a[0] == b[0] {
        lemma_byte_order_reverse(a.drop_first(), b.drop_first());
    }
}

/// Byte order is transitive on `Less`.
pub proof fn lemma_byte_order_transitive(a: Seq<u8>, b: Seq<u8>, c: Seq<u8>)
    requires
        byte_order(a, b) == Ordering::Less,
        byte_order(b, c) == Ordering::Less,
    ensures
        byte_order(a, c) == Ordering::Less,
    decreases a.len(),
{
    if a.len() > 0 && b.len() > 0 && c.len() > 0 && a[0] == b[0] && b[0] == c[0] {
        lemma_byte_order_transitive(a.drop_first(), b.drop_first(), c.drop_first());
    }
}

/// Text order is a total order: equal exactly on equal texts, reversed by
/// swapping its operands, and transitive on `Less`.
pub proof fn lemma_text_order_total(a: Seq<char>, b: Seq<char>, c: Seq<char>)
    ensures
        (text_order(a, b) == Ordering::Equal) == (a == b),
        text_order(b, a) == reversed(text_order(a, b)),
        text_order(a, b) == Ordering::Less && text_order(b, c) == Ordering::Less
            ==> text_order(a, c) == Ordering::Less,
{
    lemma_text_order_equal(a, b);
    lemma_byte_order_reverse(encode_utf8(a), encode_utf8(b));
    if text_order(a, b) == Ordering::Less && text_order(b, c) == Ordering::Less {
        lemma_byte_order_transitive(encode_utf8(a), encode_utf8(b), encode_utf8(c));
    }
}

/// Text order finds two texts equal exactly when they are.
pub proof fn lemma_text_order_equal(a: Seq<char>, b: Seq<char>)
    ensures
        (text_order(a, b) == Ordering::Equal) == (a == b),
{
    lemma_byte_order_equal(encode_utf8(a), encode_utf8(b));
    encode_utf8_decode_utf8(a);
    encode_utf8_decode_utf8(b);
}

/// Compares two texts byte by byte.
pub fn compare_text(a: &str, b: &str) -> (r: Ordering)
    ensures
        r == text_order(a@, b@),
{
    let x = a.as_bytes();
    let y = b.as_bytes();
    let ghost xs = x@;
    let ghost ys = y@;
    let mut i: usize = 0;
    assert(xs.skip(0) =~= xs);
    assert(ys.skip(0) =~= ys);
    while i < x.len() && i < y.len()
        invariant
            xs == x@,
            ys == y@,
            xs == encode_utf8(a@),
            ys == encode_utf8(b@),
            i <= xs.len(),
            i <= ys.len(),
            byte_order(xs, ys) == byte_order(xs.skip(i as int), ys.skip(i as int)),
        decreases xs.len() - i,
    {
        if x[i] < y[i] {
            return Ordering::Less;
        }
        if x[i] > y[i] {
            return Ordering::Greater;
        }
        assert(xs.skip(i as int).drop_first() =~= xs.skip(i + 1));
        assert(ys.skip(i as int).drop_first() =~= ys.skip(i + 1));
        i = i + 1;
    }
    if i < x.len() {
        Ordering::Greater
    } else if i < y.len() {
        Ordering::Less
    } else {
        Ordering::Equal
    }
}

} // verus!
