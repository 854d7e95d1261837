//! Small text helpers used when exercising a text fixer: building genuine
//! mojibake from clean text, and telling whether text holds a line break.

use vstd::prelude::*;
use vstd::utf8::*;
use crate::std_text::push_char;

verus! {

/// The characters that count as line breaks: LF, CR, NEL, LINE SEPARATOR and
/// PARAGRAPH SEPARATOR.
pub open spec fn is_line_break(c: char) -> bool {
    c == '\n' || c == '\r' || c == '\u{0085}' || c == '\u{2028}' || c == '\u{2029}'
}

/// Tells whether `s` holds a line break anywhere.
pub fn has_line_break(s: &str) -> (r: bool)
    ensures
        r == exists|i: int| 0 <= i < s@.len() && is_line_break(#[trigger] s@[i]),
        r == exists|i: int|
            0 <= i < s@.len() && (#[trigger] s@[i] == '\n' || s@[i] == '\r' || s@[i] == '\u{0085}'
                || s@[i] == '\u{2028}' || s@[i] == '\u{2029}'),
{
    let mut found = false;
    for c in it: s.chars()
        invariant
            it.seq() == s@,
            found == exists|i: int| 0 <= i < it.index() && is_line_break(#[trigger] s@[i]),
    {
        if c == '\n' || c == '\r' || c == '\u{0085}' || c == '\u{2028}' || c == '\u{2029}' {
            found = true;
        }
    }
    found
}

/// The Latin-1 reading of a byte: the character with the same number.
pub open spec fn latin1_char(b: u8) -> char {
    b as char
}

/// A line break is exactly one of LF (U+000A), CR (U+000D), NEL (U+0085),
/// LINE SEPARATOR (U+2028) and PARAGRAPH SEPARATOR (U+2029); no other
/// character (a no-break space, a tab, a vertical tab) is one.
pub proof fn law_line_breaks_are_the_five(c: char)
    ensures
        is_line_break(c) <==> (c as u32 == 0x0A || c as u32 == 0x0D || c as u32 == 0x85 || c as u32
            == 0x2028 || c as u32 == 0x2029),
{
}

/// Reading a byte as Latin-1 gives the character whose number is the byte:
/// no byte is changed into another character.
pub proof fn law_latin1_char_is_byte(b: u8)
    ensures
        latin1_char(b) as u32 == b as u32,
{
}

/// Encodes `seed` as UTF-8 and reads every byte back as a Latin-1 character,
/// the mix-up that turns `café` into `cafÃ©`.
pub fn latin1_mojibake(seed: &str) -> (r: String)
    ensures
        r@ == encode_utf8(seed@).map_values(|b: u8| latin1_char(b)),
        r@.len() == encode_utf8(seed@).len(),
        forall|i: int| 0 <= i < r@.len() ==> (#[trigger] r@[i]) as u32 == encode_utf8(seed@)[i] as u32,
{
    let bytes = seed.as_bytes();
    let mut out = String::new();
    for i in 0..bytes.len()
        invariant
            bytes@ == encode_utf8(seed@),
            out@ == bytes@.take(i as int).map_values(|b: u8| latin1_char(b)),
    {
        let b = bytes[i];
        push_char(&mut out, b as char);
        assert(bytes@.take(i + 1) =~= bytes@.take(i as int).push(b));
        assert(out@ =~= bytes@.take(i + 1).map_values(|b: u8| latin1_char(b)));
    }
    assert(bytes@.take(bytes@.len() as int) =~= bytes@);
    proof {
        assert forall|i: int| 0 <= i < out@.len() implies (#[trigger] out@[i]) as u32
            == bytes@[i] as u32 by {
            law_latin1_char_is_byte(bytes@[i]);
        }
    }
    out
}

} // verus!
