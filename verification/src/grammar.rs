//! The byte patterns that mark where a variant of UTF-8 departs from the
//! standard: the Java encoding of U+0000, the six-byte CESU-8 encoding of a
//! character outside the Basic Multilingual Plane, and a lone surrogate in
//! three-byte form. A pattern may be cut short by the end of the input, in
//! which case it still matches the bytes that are there.

use vstd::prelude::*;

verus! {

/// `0xC0 0x80`, the Java encoding of U+0000, or a lone `0xC0` at the end.
pub open spec fn java_null_at(s: Seq<u8>, i: int) -> bool {
    &&& 0 <= i < s.len()
    &&& s[i] == 0xC0
    &&& (i + 1 == s.len() || s[i + 1] == 0x80)
}

/// `0xED`, a byte in `0xA0..=0xAF`, a continuation byte, `0xED`, a byte in
/// `0xB0..=0xBF` and a continuation byte: a high and a low surrogate in
/// three-byte form, possibly cut short by the end of the input.
pub open spec fn cesu8_at(s: Seq<u8>, i: int) -> bool {
    &&& 0 <= i < s.len()
    &&& s[i] == 0xED
    &&& (i + 1 == s.len() || (0xA0 <= s[i + 1] <= 0xAF && (i + 2 == s.len() || (0x80 <= s[i + 2]
        <= 0xBF && (i + 3 == s.len() || (s[i + 3] == 0xED && (i + 4 == s.len() || (0xB0 <= s[i
        + 4] <= 0xBF && (i + 5 == s.len() || 0x80 <= s[i + 5] <= 0xBF)))))))))
}

/// `0xED`, a byte in `0xA0..=0xBF` and a continuation byte: a surrogate in
/// three-byte form, possibly cut short by the end of the input.
pub open spec fn surrogate_at(s: Seq<u8>, i: int) -> bool {
    &&& 0 <= i < s.len()
    &&& s[i] == 0xED
    &&& (i + 1 == s.len() || (0xA0 <= s[i + 1] <= 0xBF && (i + 2 == s.len() || 0x80 <= s[i + 2]
        <= 0xBF)))
}

/// Some pattern that needs special decoding starts at byte `i`.
pub open spec fn special_at(s: Seq<u8>, i: int) -> bool {
    java_null_at(s, i) || cesu8_at(s, i) || surrogate_at(s, i)
}

/// The first position at or after `i` where a special pattern starts.
pub open spec fn first_special_from(s: Seq<u8>, i: int) -> Option<int>
    decreases s.len() - i,
{
    if i < 0 || i >= s.len() {
        None
    } else if special_at(s, i) {
        Some(i)
    } else {
        first_special_from(s, i + 1)
    }
}

/// The first position in `s` where a special pattern starts.
pub open spec fn first_special(s: Seq<u8>) -> Option<int> {
    first_special_from(s, 0)
}

/// The position found from `i` on lies between `i` and the end of `s`.
pub(crate) proof fn lemma_first_special_from_bounds(s: Seq<u8>, i: int)
    requires
        0 <= i,
    ensures
        first_special_from(s, i) matches Some(p) ==> i <= p < s.len() && special_at(s, p),
    decreases s.len() - i,
{
    if i < s.len() && !special_at(s, i) {
        lemma_first_special_from_bounds(s, i + 1);
    }
}

/// When `p` is the first position where a special pattern starts, the search
/// from any earlier position finds it.
pub(crate) proof fn lemma_first_special_is(s: Seq<u8>, p: int)
    requires
        0 <= p < s.len(),
        special_at(s, p),
        forall|j: int| 0 <= j < p ==> !special_at(s, j),
    ensures
        first_special(s) == Some(p),
{
    lemma_first_special_from_is(s, p, 0);
}

proof fn lemma_first_special_from_is(s: Seq<u8>, p: int, i: int)
    requires
        0 <= i <= p < s.len(),
        special_at(s, p),
        forall|j: int| 0 <= j < p ==> !special_at(s, j),
    ensures
        first_special_from(s, i) == Some(p),
    decreases p - i,
{
    if i < p {
        lemma_first_special_from_is(s, p, i + 1);
    }
}

/// When no special pattern starts anywhere, the search finds nothing.
pub(crate) proof fn lemma_first_special_none(s: Seq<u8>, i: int)
    requires
        0 <= i,
        forall|j: int| 0 <= j < s.len() ==> !special_at(s, j),
    ensures
        first_special_from(s, i) is None,
    decreases s.len() - i,
{
    if i < s.len() {
        lemma_first_special_none(s, i + 1);
    }
}

/// A six-byte CESU-8 pair starts at position 0 and all six bytes are there.
pub open spec fn cesu8_pair_at_start(s: Seq<u8>) -> bool {
    s.len() >= 6 && cesu8_at(s, 0)
}

/// The number that a CESU-8 pair at the start of `s` stands for: the ten
/// bits carried by each surrogate, joined, plus `0x10000`.
pub open spec fn cesu8_scalar(s: Seq<u8>) -> u32 {
    pair_scalar(s[1], s[2], s[4], s[5])
}

/// The number carried by the data bits of a CESU-8 pair whose second, third,
/// fifth and sixth bytes are given.
pub open spec fn pair_scalar(b1: u8, b2: u8, b4: u8, b5: u8) -> u32 {
    (((b1 as u32 & 0x0F) << 16u32) + ((b2 as u32 & 0x3F) << 10u32) + ((b4 as u32 & 0x0F) << 6u32)
        + (b5 as u32 & 0x3F) + 0x10000) as u32
}

/// Finds the first position where a special pattern starts, if any.
pub fn find_special(s: &[u8]) -> (r: Option<usize>)
    ensures
        r == (match first_special(s@) {
            Some(p) => Some(p as usize),
            None => None::<usize>,
        }),
        r matches Some(p) ==> p < s@.len() && special_at(s@, p as int),
        r matches Some(p) ==> forall|j: int| 0 <= j < p ==> !special_at(s@, j),
        r is None ==> forall|j: int| 0 <= j < s@.len() ==> !special_at(s@, j),
{
    let n = s.len();
    let mut i: usize = 0;
    while i < n
        invariant
            n == s@.len(),
            i <= n,
            first_special(s@) == first_special_from(s@, i as int),
            forall|j: int| 0 <= j < i ==> !special_at(s@, j),
        decreases n - i,
    {
        let b = s[i];
        let at_end1 = i + 1 == n;
        let null_here = b == 0xC0 && (at_end1 || s[i + 1] == 0x80);
        let surrogate_here = b == 0xED && (at_end1 || (0xA0 <= s[i + 1] && s[i + 1] <= 0xBF && (i
            + 2 == n || (0x80 <= s[i + 2] && s[i + 2] <= 0xBF))));
        if null_here || surrogate_here {
            return Some(i);
        }
        // A CESU-8 pair is a surrogate in three-byte form followed by another,
        // so it cannot start here either.
        assert(!cesu8_at(s@, i as int));
        i = i + 1;
    }
    None
}

/// Tells whether a complete six-byte CESU-8 pair starts at position 0.
pub fn is_cesu8_pair_at_start(s: &[u8]) -> (r: bool)
    ensures
        r == cesu8_pair_at_start(s@),
{
    s.len() >= 6 && s[0] == 0xED && 0xA0 <= s[1] && s[1] <= 0xAF && 0x80 <= s[2] && s[2] <= 0xBF
        && s[3] == 0xED && 0xB0 <= s[4] && s[4] <= 0xBF && 0x80 <= s[5] && s[5] <= 0xBF
}

} // verus!
