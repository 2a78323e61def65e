//! The order of texts: character by character, a prefix first.
use vstd::prelude::*;

use std::cmp::Ordering;

use crate::known::{known_view, Known};

verus! {

/// The lexicographic order of two texts by their characters' code points, a proper
/// prefix coming first: negative, zero or positive.
pub open spec fn lex_order(a: Seq<char>, b: Seq<char>) -> int
    decreases a.len(),
{
    if a.len() == 0 && b.len() == 0 {
        0
    } else if a.len() == 0 {
        -1
    } else if b.len() == 0 {
        1
    } else if (a[0] as u32) < (b[0] as u32) {
        -1
    } else if (a[0] as u32) > (b[0] as u32) {
        1
    } else {
        lex_order(a.drop_first(), b.drop_first())
    }
}

/// The ordering that an order gives.
pub open spec fn ordering_of(o: int) -> Ordering {
    if o < 0 {
        Ordering::Less
    } else if o == 0 {
        Ordering::Equal
    } else {
        Ordering::Greater
    }
}

/// The lexicographic order of the characters after the first `i` of both texts.
proof fn lemma_lex_order_skip(a: Seq<char>, b: Seq<char>, i: int)
    requires
        0 <= i <= a.len(),
        i <= b.len(),
        forall|j: int| 0 <= j < i ==> a[j] == b[j],
    ensures
        lex_order(a, b) == lex_order(a.subrange(i, a.len() as int), b.subrange(i, b.len() as int)),
    decreases i,
{
    if i > 0 {
        assert(a.len() > 0 && b.len() > 0);
        assert(a[0] == b[0]);
        let a1 = a.drop_first();
        let b1 = b.drop_first();
        assert forall|j: int| 0 <= j < i - 1 implies a1[j] == b1[j] by {
            assert(a[j + 1] == b[j + 1]);
        }
        lemma_lex_order_skip(a1, b1, i - 1);
        assert(a1.subrange(i - 1, a1.len() as int) =~= a.subrange(i, a.len() as int));
        assert(b1.subrange(i - 1, b1.len() as int) =~= b.subrange(i, b.len() as int));
    } else {
        assert(a.subrange(0, a.len() as int) =~= a);
        assert(b.subrange(0, b.len() as int) =~= b);
    }
}

/// Swapping two texts negates their order.
pub proof fn lemma_lex_order_antisymmetric(a: Seq<char>, b: Seq<char>)
    ensures
        lex_order(a, b) == -lex_order(b, a),
        -1 <= lex_order(a, b) <= 1,
    decreases a.len(),
{
    if a.len() > 0 && b.len() > 0 && (a[0] as u32) == (b[0] as u32) {
        lemma_lex_order_antisymmetric(a.drop_first(), b.drop_first());
    }
}

/// Two texts are in order zero exactly when they are equal.
pub proof fn lemma_lex_order_zero(a: Seq<char>, b: Seq<char>)
    ensures
        lex_order(a, b) == 0 <==> a == b,
    decreases a.len(),
{
    if a.len() > 0 && b.len() > 0 {
        if a[0] == b[0] {
            lemma_lex_order_zero(a.drop_first(), b.drop_first());
            if a.drop_first() == b.drop_first() {
                assert(a =~= seq![a[0]] + a.drop_first());
                assert(b =~= seq![b[0]] + b.drop_first());
            }
        } else {
            vstd::utf8::char_u32_cast(a[0], a[0] as u32);
            vstd::utf8::char_u32_cast(b[0], b[0] as u32);
        }
    } else if a.len() == 0 && b.len() == 0 {
        assert(a =~= b);
    }
}

/// The order of two characters by code point: negative, zero or positive.
fn char_order(a: char, b: char) -> (r: i8)
    ensures
        r < 0 <==> (a as u32) < (b as u32),
        r > 0 <==> (a as u32) > (b as u32),
        r == 0 <==> a == b,
{
    if (a as u32) < (b as u32) {
        -1
    } else if (a as u32) > (b as u32) {
        1
    } else {
        0
    }
}

/// The order of two texts: negative, zero or positive (see [`lex_order`]).
pub fn text_order(a: &str, b: &str) -> (r: i8)
    ensures
        r == (if lex_order(a@, b@) < 0 { -1int } else if lex_order(a@, b@) == 0 { 0int } else { 1int }),
{
    let la = a.unicode_len();
    let lb = b.unicode_len();
    let mut i: usize = 0;
    while i < la && i < lb
        invariant
            la == a@.len(),
            lb == b@.len(),
            i <= la,
            i <= lb,
            forall|j: int| 0 <= j < i ==> a@[j] == b@[j],
        decreases la - i,
    {
        let ca = a.get_char(i);
        let cb = b.get_char(i);
        let o = char_order(ca, cb);
        if o != 0 {
            proof {
                lemma_lex_order_skip(a@, b@, i as int);
                let ra = a@.subrange(i as int, a@.len() as int);
                let rb = b@.subrange(i as int, b@.len() as int);
                assert(ra[0] == ca && rb[0] == cb);
            }
            if o < 0 {
                return -1;
            } else {
                return 1;
            }
        }
        i += 1;
    }
    proof {
        lemma_lex_order_skip(a@, b@, i as int);
        let ra = a@.subrange(i as int, a@.len() as int);
        let rb = b@.subrange(i as int, b@.len() as int);
        assert(ra.len() == 0 || rb.len() == 0);
    }
    if la < lb {
        -1
    } else if la == lb {
        0
    } else {
        1
    }
}

/// Whether two texts are equal.
pub fn same_text(a: &str, b: &str) -> (r: bool)
    ensures
        r == (a@ == b@),
{
    proof {
        lemma_lex_order_zero(a@, b@);
    }
    text_order(a, b) == 0
}

/// Compares two texts character by character, a proper prefix coming first.
pub fn compare_text(a: &str, b: &str) -> (r: Ordering)
    ensures
        r == ordering_of(lex_order(a@, b@)),
{
    let o = text_order(a, b);
    if o < 0 {
        Ordering::Less
    } else if o == 0 {
        Ordering::Equal
    } else {
        Ordering::Greater
    }
}

/// The order of two texts that may be unknown: an unknown one first, two unknown
/// ones alike, two known ones by [`lex_order`].
pub open spec fn known_text_order(a: Known<Seq<char>>, b: Known<Seq<char>>) -> Ordering {
    match (a, b) {
        (Known::Known(x), Known::Known(y)) => ordering_of(lex_order(x, y)),
        (Known::Known(_), Known::Unknown) => Ordering::Greater,
        (Known::Unknown, Known::Known(_)) => Ordering::Less,
        (Known::Unknown, Known::Unknown) => Ordering::Equal,
    }
}

/// Compares two texts that may be unknown (see [`known_text_order`]).
pub fn compare_known_text(a: &Known<String>, b: &Known<String>) -> (r: Ordering)
    ensures
        r == known_text_order(known_view(*a), known_view(*b)),
{
    match (a, b) {
        (Known::Known(x), Known::Known(y)) => compare_text(x.as_str(), y.as_str()),
        (Known::Known(_), Known::Unknown) => Ordering::Greater,
        (Known::Unknown, Known::Known(_)) => Ordering::Less,
        (Known::Unknown, Known::Unknown) => Ordering::Equal,
    }
}

} // verus!
