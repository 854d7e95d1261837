//! The "utf-8-variants" codec. It decodes text encoded with the popular
//! non-standard versions of UTF-8: CESU-8 (UTF-8 layered on top of UTF-16,
//! so that a character outside the Basic Multilingual Plane takes six bytes)
//! and Java's twist on it, which also writes U+0000 as `0xC0 0x80`.
//!
//! The codec does not enforce "correct" CESU-8: valid UTF-8 and CESU-8 may be
//! mixed. Within the Basic Multilingual Plane characters must still appear in
//! their shortest form, except that `0xC0 0x80` stands for U+0000.
//!
//! Decoding proceeds in steps. Each step looks for the first byte pattern that
//! needs special treatment ([`crate::grammar`]); the standard UTF-8 before it
//! is decoded as one chunk, otherwise the pattern itself is decoded.

use vstd::prelude::*;
use vstd::utf8::*;
use vstd::string::*;
use vstd::slice::slice_subrange;
use crate::grammar::{
    cesu8_pair_at_start, cesu8_scalar, find_special, first_special, is_cesu8_pair_at_start,
    lemma_first_special_from_bounds,
};
use crate::forms::is_variant_encoding;
use crate::laws::law_decoding_is_reading;
use crate::std_text::{
    decimal, format_usize, push_char, scalar_char, utf8_error_len, utf8_str,
};

verus! {

/// The input holds bytes that neither standard UTF-8 nor the variants
/// accepted here can decode. The positions are those within the stretch of
/// bytes that the failing step decoded as standard UTF-8.
#[derive(Debug, Clone, Copy, PartialEq, Eq)]
pub struct DecodeError {
    /// How many bytes of that stretch are well-formed UTF-8.
    pub valid_up_to: usize,
    /// The length of the invalid sequence that follows them, or `None` when
    /// the stretch ends inside a sequence.
    pub error_len: Option<usize>,
}

/// The longest prefix of `b`, of length at most `w`, that is well-formed
/// UTF-8.
pub open spec fn valid_prefix_len(b: Seq<u8>, w: int) -> int
    decreases w,
{
    if w <= 0 {
        0
    } else if valid_utf8(b.take(w)) {
        w
    } else {
        valid_prefix_len(b, w - 1)
    }
}

/// The error that decoding `b` as standard UTF-8 reports.
pub open spec fn utf8_error(b: Seq<u8>) -> DecodeError {
    DecodeError {
        valid_up_to: valid_prefix_len(b, b.len() as int) as usize,
        error_len: utf8_error_len(b),
    }
}

impl DecodeError {
    /// The text that describes the error: `invalid utf-8 sequence of N bytes
    /// from index V`, or `incomplete utf-8 byte sequence from index V` when the
    /// bytes end inside a sequence.
    pub fn message(&self) -> (r: String)
        ensures
            self.error_len matches Some(l) ==> r@ == "invalid utf-8 sequence of "@ + decimal(
                l as nat,
            ) + " bytes from index "@ + decimal(self.valid_up_to as nat),
            self.error_len is None ==> r@ == "incomplete utf-8 byte sequence from index "@
                + decimal(self.valid_up_to as nat),
    {
        match self.error_len {
            Some(l) => {
                let mut m = String::from_str("invalid utf-8 sequence of ");
                let n = format_usize(l);
                m.append(n.as_str());
                m.append(" bytes from index ");
                let v = format_usize(self.valid_up_to);
                m.append(v.as_str());
                m
            },
            None => {
                let mut m = String::from_str("incomplete utf-8 byte sequence from index ");
                let v = format_usize(self.valid_up_to);
                m.append(v.as_str());
                m
            },
        }
    }
}

/// The characters that `bytes` encodes in standard UTF-8, or `None` when the
/// bytes are not well-formed UTF-8.
pub open spec fn utf8_text(bytes: Seq<u8>) -> Option<Seq<char>> {
    if valid_utf8(bytes) {
        Some(decode_utf8(bytes))
    } else {
        None
    }
}

/// A step that decodes the first `n` bytes of `s` as standard UTF-8.
pub open spec fn plain_step(s: Seq<u8>, n: int) -> Option<(Seq<char>, int)> {
    match utf8_text(s.take(n)) {
        Some(cs) => Some((cs, n)),
        None => None,
    }
}

/// A step at a `0xED` byte that starts a special pattern: a complete CESU-8
/// pair at the start gives one character for six bytes; fewer than six bytes
/// are decoded as standard UTF-8; otherwise the first three bytes are, as
/// the character that `0xED` starts.
pub open spec fn surrogate_step(s: Seq<u8>) -> Option<(Seq<char>, int)> {
    if s.len() < 6 {
        plain_step(s, s.len() as int)
    } else if cesu8_pair_at_start(s) {
        Some((seq![cesu8_scalar(s) as char], 6))
    } else {
        plain_step(s, 3)
    }
}

/// One decoding step on the nonempty rest `s` of the input: the decoded
/// characters and the number of bytes consumed, or `None` on an error.
pub open spec fn decode_step(s: Seq<u8>) -> Option<(Seq<char>, int)> {
    match first_special(s) {
        None => plain_step(s, s.len() as int),
        Some(p) => if p > 0 {
            plain_step(s, p)
        } else if s[0] == 0xC0 {
            if s.len() > 1 {
                Some((seq!['\0'], 2))
            } else {
                plain_step(s, s.len() as int)
            }
        } else {
            surrogate_step(s)
        },
    }
}

/// The bytes that a step on `s` decodes as standard UTF-8 when it does not
/// decode a Java null or a CESU-8 pair: the error of a failing step is the
/// error of decoding these.
pub open spec fn step_segment(s: Seq<u8>) -> Seq<u8> {
    match first_special(s) {
        None => s,
        Some(p) => if p > 0 {
            s.take(p)
        } else if s[0] == 0xC0 || s.len() < 6 {
            s
        } else {
            s.take(3)
        },
    }
}

/// The error that decoding `s` reports: that of the first step that fails.
/// (Meaningful when decoding fails.)
pub open spec fn decoding_error(s: Seq<u8>) -> DecodeError
    decreases s.len(),
{
    match decode_step(s) {
        None => utf8_error(step_segment(s)),
        Some((cs, n)) => if 0 < n <= s.len() {
            decoding_error(s.skip(n))
        } else {
            utf8_error(s)
        },
    }
}

/// The text that the whole of `s` decodes to, or `None` when some step fails.
/// A step that consumed nothing would end decoding; none does (see
/// [`lemma_decode_step_progress`]).
pub open spec fn variant_decoding(s: Seq<u8>) -> Option<Seq<char>>
    decreases s.len(),
{
    if s.len() == 0 {
        Some(Seq::empty())
    } else {
        match decode_step(s) {
            None => None,
            Some((cs, n)) => if 0 < n <= s.len() {
                match variant_decoding(s.skip(n)) {
                    Some(rest) => Some(cs + rest),
                    None => None,
                }
            } else {
                Some(Seq::empty())
            },
        }
    }
}

/// A successful step on a nonempty input consumes at least one byte and no
/// more than there are.
pub proof fn lemma_decode_step_progress(s: Seq<u8>)
    requires
        s.len() > 0,
    ensures
        decode_step(s) matches Some((cs, n)) ==> 0 < n <= s.len(),
{
    lemma_first_special_from_bounds(s, 0);
}

/// Decodes `bytes` as standard UTF-8 into an owned string.
fn decode_plain(bytes: &[u8]) -> (r: Result<String, DecodeError>)
    ensures
        utf8_text(bytes@) is None <==> r is Err,
        r matches Ok(t) ==> utf8_text(bytes@) == Some(t@),
        r matches Err(e) ==> e == utf8_error(bytes@),
{
    match utf8_str(bytes) {
        Ok(s) => Ok(String::from_str(s)),
        Err(e) => Err(e),
    }
}

/// Decodes a step that starts at a `0xED` byte: a six-byte CESU-8 pair, or,
/// when fewer than six bytes are left, the rest as standard UTF-8, or else the
/// three bytes of the character that `0xED` starts.
pub fn buffer_decode_surrogates(slice: &[u8]) -> (r: Result<(String, usize), DecodeError>)
    ensures
        surrogate_step(slice@) is None <==> r is Err,
        r matches Ok((t, m)) ==> surrogate_step(slice@) == Some((t@, m as int)),
        r matches Err(e) ==> e == utf8_error(
            if slice@.len() < 6 {
                slice@
            } else {
                slice@.take(3)
            },
        ),
{
    if slice.len() < 6 {
        assert(slice@.take(slice@.len() as int) =~= slice@);
        let t = decode_plain(slice)?;
        Ok((t, slice.len()))
    } else if is_cesu8_pair_at_start(slice) {
        let b1: u32 = slice[1] as u32;
        let b2: u32 = slice[2] as u32;
        let b4: u32 = slice[4] as u32;
        let b5: u32 = slice[5] as u32;
        assert((b1 & 0x0F) << 16u32 <= 0xF0000u32) by (bit_vector);
        assert((b2 & 0x3F) << 10u32 <= 0xFC00u32) by (bit_vector);
        assert((b4 & 0x0F) << 6u32 <= 0x3C0u32) by (bit_vector);
        assert(b5 & 0x3F <= 0x3Fu32) by (bit_vector);
        let codepoint: u32 = ((b1 & 0x0F) << 16u32) + ((b2 & 0x3F) << 10u32) + ((b4 & 0x0F)
            << 6u32) + (b5 & 0x3F) + 0x10000;
        assert(codepoint == cesu8_scalar(slice@));
        match scalar_char(codepoint) {
            Some(c) => {
                let mut t = String::new();
                push_char(&mut t, c);
                proof {
                    char_u32_cast(c, codepoint);
                }
                assert(t@ =~= seq![cesu8_scalar(slice@) as char]);
                Ok((t, 6))
            },
            // Never taken: the number lies in `0x10000..=0x10FFFF`.
            None => Err(DecodeError { valid_up_to: 0, error_len: None }),
        }
    } else {
        let head = &slice[0..3];
        assert(head@ =~= slice@.take(3));
        let t = decode_plain(head)?;
        Ok((t, 3))
    }
}

/// Performs one decoding step on the rest of the input (an empty rest gives
/// no text and consumes nothing): decodes the
/// standard UTF-8 before the first special pattern, or the Java encoding of
/// U+0000, or a step at `0xED`.
pub fn buffer_decode_step(slice: &[u8]) -> (r: Result<(String, usize), DecodeError>)
    ensures
        decode_step(slice@) is None <==> r is Err,
        r matches Ok((t, m)) ==> decode_step(slice@) == Some((t@, m as int)),
        r matches Err(e) ==> e == utf8_error(step_segment(slice@)),
{
    assert(slice@.take(slice@.len() as int) =~= slice@);
    proof {
        lemma_first_special_from_bounds(slice@, 0);
        assert(slice@.len() == slice.len());
    }
    match find_special(slice) {
        Some(cutoff) => {
            if cutoff > 0 {
                let prefix = &slice[0..cutoff];
                assert(prefix@ =~= slice@.take(cutoff as int));
                let t = decode_plain(prefix)?;
                return Ok((t, cutoff));
            }
            if slice[0] == 0xC0 {
                if slice.len() > 1 {
                    let mut t = String::new();
                    push_char(&mut t, '\0');
                    Ok((t, 2))
                } else {
                    let t = decode_plain(slice)?;
                    Ok((t, slice.len()))
                }
            } else {
                buffer_decode_surrogates(slice)
            }
        },
        None => {
            let t = decode_plain(slice)?;
            Ok((t, slice.len()))
        },
    }
}

/// Decodes `data`, which may mix standard UTF-8 with CESU-8 pairs and the
/// Java encoding of U+0000. Succeeds exactly when `data` is such a mix, and
/// then returns the text it stands for; fails when some step meets bytes that
/// no accepted form can decode.
pub fn variant_decode(data: &[u8]) -> (r: Result<String, DecodeError>)
    ensures
        variant_decoding(data@) is None <==> r is Err,
        r matches Ok(t) ==> variant_decoding(data@) == Some(t@),
        r matches Ok(t) ==> is_variant_encoding(data@, t@),
        r is Err <==> forall|t: Seq<char>| !is_variant_encoding(data@, t),
        r matches Err(e) ==> e == decoding_error(data@),
{
    proof {
        law_decoding_is_reading(data@);
    }
    let mut decoded = String::new();
    let mut position: usize = 0;
    assert(data@.skip(0) =~= data@);
    proof {
        if let Some(rest) = variant_decoding(data@) {
            assert(decoded@ + rest =~= rest);
        }
    }
    loop
        invariant
            position <= data@.len(),
            variant_decoding(data@) is Some <==> exists|t: Seq<char>| is_variant_encoding(data@, t),
            decoding_error(data@) == decoding_error(data@.skip(position as int)) || variant_decoding(
                data@,
            ) is Some,
            variant_decoding(data@) == (match variant_decoding(data@.skip(position as int)) {
                Some(rest) => Some(decoded@ + rest),
                None => None::<Seq<char>>,
            }),
        ensures
            variant_decoding(data@) == Some(decoded@),
        decreases data@.len() - position,
    {
        let slice = slice_subrange(data, position, data.len());
        assert(slice@ =~= data@.skip(position as int));
        if slice.len() == 0 {
            assert(decoded@ + Seq::<char>::empty() =~= decoded@);
            break;
        }
        let (segment, consumed) = buffer_decode_step(slice)?;
        proof {
            lemma_decode_step_progress(slice@);
        }
        if consumed == 0 {
            break;
        }
        let ghost before = decoded@;
        position = position + consumed;
        decoded.append(segment.as_str());
        proof {
            assert(slice@.skip(consumed as int) =~= data@.skip(position as int));
            if let Some(rest) = variant_decoding(data@.skip(position as int)) {
                assert(before + (segment@ + rest) =~= decoded@ + rest);
            }
        }
    }
    Ok(decoded)
}

} // verus!
