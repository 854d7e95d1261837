//! The few standard-library text operations the codec relies on, each with the
//! contract that its documentation gives.

use vstd::prelude::*;
use vstd::utf8::*;
use crate::utf8_variants::{DecodeError, utf8_error};

verus! {

/// What `Utf8Error::error_len` reports for bytes that are not well-formed
/// UTF-8: the length of the invalid sequence at `valid_up_to`, or `None` when
/// the input ends inside a sequence.
pub uninterp spec fn utf8_error_len(bytes: Seq<u8>) -> Option<usize>;

/// Calls `std::str::from_utf8`, which accepts a byte slice exactly when it is
/// well-formed UTF-8 and then views the same bytes as text. Its error is
/// turned into a [`DecodeError`] holding `valid_up_to()` (the longest prefix
/// that is well-formed UTF-8) and `error_len()` (the length of the invalid
/// sequence that follows, which lies within the input, or `None` when the
/// input ends one to three bytes after `valid_up_to`).
#[verifier::external_body]
pub(crate) fn utf8_str(bytes: &[u8]) -> (r: Result<&str, DecodeError>)
    ensures
        r is Ok <==> valid_utf8(bytes@),
        r matches Ok(s) ==> s@ == decode_utf8(bytes@),
        r matches Err(e) ==> e == utf8_error(bytes@),
        r matches Err(e) ==> e.error_len == utf8_error_len(bytes@),
        r matches Err(e) ==> (e.error_len matches Some(l) ==> 1 <= l && e.valid_up_to + l
            <= bytes@.len()),
        r matches Err(e) ==> (e.error_len is None ==> 1 <= bytes@.len() - e.valid_up_to <= 3),
{
    match std::str::from_utf8(bytes) {
        Ok(s) => Ok(s),
        Err(e) => Err(DecodeError { valid_up_to: e.valid_up_to(), error_len: e.error_len() }),
    }
}

/// The decimal digits of a number, most significant first, without leading
/// zeros (`0` is `"0"`).
pub open spec fn decimal(n: nat) -> Seq<char>
    decreases n,
{
    if n < 10 {
        seq![(n + 48) as char]
    } else {
        decimal(n / 10).push(((n % 10) + 48) as char)
    }
}

/// Formats a number with `{}`, which calls `<usize as Display>::fmt`: its
/// decimal digits.
#[verifier::external_body]
pub(crate) fn format_usize(n: usize) -> (r: String)
    ensures
        r@ == decimal(n as nat),
{
    format!("{}", n)
}

/// What Rust's `Debug` formatting writes for a string: the string in double
/// quotes, with quotes, backslashes and unprintable characters escaped.
pub uninterp spec fn debug_quoted(s: Seq<char>) -> Seq<char>;

/// Formats a string with `{:?}`, which calls `<str as Debug>::fmt`; the text
/// depends on the string alone.
#[verifier::external_body]
pub(crate) fn format_debug(s: &str) -> (r: String)
    ensures
        r@ == debug_quoted(s@),
{
    format!("{:?}", s)
}

/// Calls `char::from_u32`, which returns the character with the given number
/// exactly when the number is a Unicode scalar value.
#[verifier::external_body]
pub(crate) fn scalar_char(v: u32) -> (r: Option<char>)
    ensures
        r is Some <==> is_scalar(v),
        r matches Some(c) ==> c as u32 == v,
{
    char::from_u32(v)
}

/// Calls `String::push`, which appends one character to the string.
#[verifier::external_body]
pub(crate) fn push_char(s: &mut String, c: char)
    ensures
        final(s)@ == old(s)@.push(c),
{
    s.push(c);
}

} // verus!
