//! The forms a character may take in the input of the codec: its standard
//! UTF-8 encoding, a CESU-8 pair (the two UTF-16 surrogates of a character
//! outside the Basic Multilingual Plane, each written as a three-byte UTF-8
//! sequence), or, for U+0000 only, the Java form `0xC0 0x80`.

use vstd::prelude::*;
use vstd::utf8::*;
use crate::grammar::{cesu8_pair_at_start, cesu8_scalar, special_at};

verus! {

/// One encoded character of a variant-UTF-8 text.
pub enum Form {
    /// The character in standard UTF-8.
    Standard(char),
    /// A character outside the Basic Multilingual Plane as a CESU-8 pair.
    Cesu8Pair(char),
    /// U+0000 written as `0xC0 0x80`.
    JavaNull,
}

/// The high UTF-16 surrogate of a scalar outside the Basic Multilingual
/// Plane: `0xD800` plus the top ten of the twenty bits of `v - 0x10000`.
pub open spec fn high_surrogate(v: u32) -> u32 {
    (0xD800u32 + (((v - 0x10000u32) as u32) >> 10u32)) as u32
}

/// The low UTF-16 surrogate of a scalar outside the Basic Multilingual
/// Plane: `0xDC00` plus the bottom ten of the twenty bits of `v - 0x10000`.
pub open spec fn low_surrogate(v: u32) -> u32 {
    (0xDC00u32 + (((v - 0x10000u32) as u32) & 0x3FFu32)) as u32
}

/// The three-byte UTF-8 form of a 16-bit value, surrogates included.
pub open spec fn three_byte_form(u: u32) -> Seq<u8> {
    seq![leading_byte_width_3(u), second_last_continuation_byte(u), last_continuation_byte(u)]
}

/// The CESU-8 encoding of a character outside the Basic Multilingual Plane.
pub open spec fn cesu8_encode(c: char) -> Seq<u8> {
    three_byte_form(high_surrogate(c as u32)) + three_byte_form(low_surrogate(c as u32))
}

/// A form that can occur: a CESU-8 pair holds a character outside the Basic
/// Multilingual Plane.
pub open spec fn form_ok(f: Form) -> bool {
    match f {
        Form::Cesu8Pair(c) => c as u32 >= 0x10000,
        _ => true,
    }
}

/// The bytes of one form.
pub open spec fn form_bytes(f: Form) -> Seq<u8> {
    match f {
        Form::Standard(c) => encode_scalar(c as u32),
        Form::Cesu8Pair(c) => cesu8_encode(c),
        Form::JavaNull => seq![0xC0u8, 0x80u8],
    }
}

/// The character that one form stands for.
pub open spec fn form_char(f: Form) -> char {
    match f {
        Form::Standard(c) => c,
        Form::Cesu8Pair(c) => c,
        Form::JavaNull => '\0',
    }
}

/// Every form in the sequence can occur.
pub open spec fn forms_ok(fs: Seq<Form>) -> bool {
    forall|k: int| 0 <= k < fs.len() ==> form_ok(#[trigger] fs[k])
}

/// The bytes of a sequence of forms, one after another.
pub open spec fn forms_bytes(fs: Seq<Form>) -> Seq<u8>
    decreases fs.len(),
{
    if fs.len() == 0 {
        Seq::empty()
    } else {
        form_bytes(fs[0]) + forms_bytes(fs.drop_first())
    }
}

/// The text that a sequence of forms stands for.
pub open spec fn forms_text(fs: Seq<Form>) -> Seq<char> {
    fs.map_values(|f: Form| form_char(f))
}

/// A character in standard UTF-8.
pub open spec fn standard_form(c: char) -> Form {
    Form::Standard(c)
}

/// Every character in standard UTF-8.
pub open spec fn standard_forms(cs: Seq<char>) -> Seq<Form> {
    cs.map_values(|c: char| standard_form(c))
}

/// `s` is a mix of forms that stands for the text `t`: each character in
/// standard UTF-8, or as a CESU-8 pair, or (for U+0000) in the Java form.
pub open spec fn is_variant_encoding(s: Seq<u8>, t: Seq<char>) -> bool {
    exists|fs: Seq<Form>| forms_ok(fs) && forms_bytes(fs) == s && #[trigger] forms_text(fs) == t
}

/// The characters of the standard forms at the front of `fs`, up to the
/// first form of another kind.
pub open spec fn leading_standard(fs: Seq<Form>) -> Seq<char>
    decreases fs.len(),
{
    if fs.len() == 0 {
        Seq::empty()
    } else {
        match fs[0] {
            Form::Standard(c) => seq![c] + leading_standard(fs.drop_first()),
            _ => Seq::empty(),
        }
    }
}

/// The bytes of a form followed by more forms.
pub(crate) proof fn lemma_forms_bytes_cons(f: Form, fs: Seq<Form>)
    ensures
        forms_bytes(seq![f] + fs) == form_bytes(f) + forms_bytes(fs),
        forms_text(seq![f] + fs) == seq![form_char(f)] + forms_text(fs),
        forms_ok(seq![f] + fs) <==> form_ok(f) && forms_ok(fs),
{
    let g = seq![f] + fs;
    assert(g.drop_first() =~= fs);
    assert(g[0] == f);
    assert(forms_text(g) =~= seq![form_char(f)] + forms_text(fs));
    if form_ok(f) && forms_ok(fs) {
        assert forall|k: int| 0 <= k < g.len() implies form_ok(#[trigger] g[k]) by {
            if k > 0 {
                assert(g[k] == fs[k - 1]);
            }
        }
    }
    if forms_ok(g) {
        assert(form_ok(g[0]));
        assert forall|k: int| 0 <= k < fs.len() implies form_ok(#[trigger] fs[k]) by {
            assert(g[k + 1] == fs[k]);
        }
    }
}

/// The bytes and the text of two sequences of forms, one after the other.
pub(crate) proof fn lemma_forms_concat(a: Seq<Form>, b: Seq<Form>)
    ensures
        forms_bytes(a + b) == forms_bytes(a) + forms_bytes(b),
        forms_text(a + b) == forms_text(a) + forms_text(b),
        forms_ok(a) && forms_ok(b) ==> forms_ok(a + b),
    decreases a.len(),
{
    if a.len() == 0 {
        assert(a + b =~= b);
        assert(forms_bytes(a) + forms_bytes(b) =~= forms_bytes(b));
        assert(forms_text(a) + forms_text(b) =~= forms_text(b));
    } else {
        let t = a.drop_first();
        lemma_forms_concat(t, b);
        assert(a =~= seq![a[0]] + t);
        assert(a + b =~= seq![a[0]] + (t + b));
        lemma_forms_bytes_cons(a[0], t);
        lemma_forms_bytes_cons(a[0], t + b);
        assert(forms_text(a + b) =~= forms_text(a) + forms_text(b));
        if forms_ok(a) && forms_ok(b) {
            assert(forms_ok(t)) by {
                assert forall|k: int| 0 <= k < t.len() implies form_ok(#[trigger] t[k]) by {
                    assert(t[k] == a[k + 1]);
                }
            }
            assert(form_ok(a[0]));
        }
    }
}

/// A sequence of forms is its leading standard run followed by the rest,
/// which is empty or starts with a form of another kind.
pub(crate) proof fn lemma_leading_standard(fs: Seq<Form>)
    ensures
        ({
            let lc = leading_standard(fs);
            let n = lc.len() as int;
            &&& n <= fs.len()
            &&& forms_bytes(fs) == encode_utf8(lc) + forms_bytes(fs.skip(n))
            &&& forms_text(fs) == lc + forms_text(fs.skip(n))
            &&& (n < fs.len() ==> !(fs[n] is Standard))
            &&& (forms_ok(fs) ==> forms_ok(fs.skip(n)))
        }),
    decreases fs.len(),
{
    let lc = leading_standard(fs);
    let n = lc.len() as int;
    if fs.len() == 0 {
        assert(fs.skip(0) =~= fs);
    } else {
        match fs[0] {
            Form::Standard(c) => {
                let tail = fs.drop_first();
                lemma_leading_standard(tail);
                let lt = leading_standard(tail);
                assert(fs =~= seq![fs[0]] + tail);
                lemma_forms_bytes_cons(fs[0], tail);
                assert(fs.skip(n) =~= tail.skip(n - 1));
                assert(lc[0] == c);
                assert(lc.drop_first() =~= lt);
                assert(forms_text(fs) =~= lc + forms_text(fs.skip(n)));
                if forms_ok(fs) {
                    assert forall|k: int| 0 <= k < tail.len() implies form_ok(#[trigger] tail[k]) by {
                        assert(tail[k] == fs[k + 1]);
                    }
                }
            },
            _ => {
                assert(fs.skip(0) =~= fs);
            },
        }
    }
}

/// Standard forms carry their characters in standard UTF-8.
pub(crate) proof fn lemma_standard_forms(cs: Seq<char>)
    ensures
        forms_ok(standard_forms(cs)),
        forms_bytes(standard_forms(cs)) == encode_utf8(cs),
        forms_text(standard_forms(cs)) == cs,
    decreases cs.len(),
{
    let fs = standard_forms(cs);
    assert forall|k: int| 0 <= k < cs.len() implies #[trigger] forms_text(fs)[k] == cs[k] by {
        assert(fs[k] == Form::Standard(cs[k]));
    }
    assert(forms_text(fs) =~= cs);
    if cs.len() > 0 {
        lemma_standard_forms(cs.drop_first());
        let rest = standard_forms(cs.drop_first());
        assert forall|k: int| 0 <= k < rest.len() implies #[trigger] fs.drop_first()[k]
            == rest[k] by {
            assert(fs[k + 1] == Form::Standard(cs[k + 1]));
        }
        assert(fs.drop_first() =~= rest);
        assert(fs[0] == Form::Standard(cs[0]));
    }
}

/// No byte is `0xC0`, and every `0xED` starts a three-byte sequence whose
/// second byte lies in `0x80..=0x9F`: standard UTF-8 has this shape, so no
/// special pattern starts inside it.
pub open spec fn plain_shape(b: Seq<u8>) -> bool {
    forall|k: int|
        0 <= k < b.len() ==> #[trigger] b[k] != 0xC0 && (b[k] == 0xED ==> k + 2 < b.len() && 0x80
            <= b[k + 1] <= 0x9F)
}

proof fn lemma_width_2_bytes(v: u32)
    by (bit_vector)
    requires
        0x80 <= v <= 0x7FF,
    ensures
        0xC2 <= (0xC0 | ((v >> 6) & 0x1F) as u8) <= 0xDF,
        0x80 <= (0x80 | (v & 0x3F) as u8) <= 0xBF,
{
}

proof fn lemma_width_3_bytes(v: u32)
    by (bit_vector)
    requires
        0x800 <= v <= 0xFFFF,
        !(0xD800 <= v <= 0xDFFF),
    ensures
        0xE0 <= (0xE0 | ((v >> 12) & 0x0F) as u8) <= 0xEF,
        (0xE0 | ((v >> 12) & 0x0F) as u8) == 0xED ==> 0x80 <= (0x80 | ((v >> 6) & 0x3F) as u8)
            <= 0x9F,
        0x80 <= (0x80 | ((v >> 6) & 0x3F) as u8) <= 0xBF,
        0x80 <= (0x80 | (v & 0x3F) as u8) <= 0xBF,
{
}

proof fn lemma_width_4_bytes(v: u32)
    by (bit_vector)
    requires
        0x10000 <= v <= 0x10FFFF,
    ensures
        0xF0 <= (0xF0 | ((v >> 18) & 0x7) as u8) <= 0xF4,
        0x80 <= (0x80 | ((v >> 12) & 0x3F) as u8) <= 0xBF,
        0x80 <= (0x80 | ((v >> 6) & 0x3F) as u8) <= 0xBF,
        0x80 <= (0x80 | (v & 0x3F) as u8) <= 0xBF,
{
}

/// No special pattern starts inside bytes of the plain shape, whatever follows.
pub(crate) proof fn lemma_plain_shape_no_special(b: Seq<u8>, rest: Seq<u8>)
    requires
        plain_shape(b),
    ensures
        forall|i: int| 0 <= i < b.len() ==> !special_at(#[trigger] (b + rest), i),
{
    let s = b + rest;
    assert forall|i: int| 0 <= i < b.len() implies !special_at(b + rest, i) by {
        assert(s[i] == b[i]);
        if b[i] == 0xED {
            assert(s[i + 1] == b[i + 1]);
        }
    }
}

/// The six bytes of a CESU-8 pair match the pattern and carry the scalar back.
proof fn lemma_pair_bytes(v: u32)
    by (bit_vector)
    requires
        0x10000 <= v <= 0x10FFFF,
    ensures
        ({
            let h = (0xD800u32 + (((v - 0x10000u32) as u32) >> 10u32)) as u32;
            let l = (0xDC00u32 + (((v - 0x10000u32) as u32) & 0x3FFu32)) as u32;
            let b0 = 0xE0 | ((h >> 12) & 0x0F) as u8;
            let b1 = 0x80 | ((h >> 6) & 0x3F) as u8;
            let b2 = 0x80 | (h & 0x3F) as u8;
            let b3 = 0xE0 | ((l >> 12) & 0x0F) as u8;
            let b4 = 0x80 | ((l >> 6) & 0x3F) as u8;
            let b5 = 0x80 | (l & 0x3F) as u8;
            &&& b0 == 0xED
            &&& 0xA0 <= b1 <= 0xAF
            &&& 0x80 <= b2 <= 0xBF
            &&& b3 == 0xED
            &&& 0xB0 <= b4 <= 0xBF
            &&& 0x80 <= b5 <= 0xBF
            &&& (((b1 as u32 & 0x0F) << 16u32) + ((b2 as u32 & 0x3F) << 10u32) + ((b4 as u32
                & 0x0F) << 6u32) + (b5 as u32 & 0x3F) + 0x10000) as u32 == v
        }),
{
}

/// Bytes that match the pattern of a CESU-8 pair are the CESU-8 encoding of
/// the scalar they carry.
proof fn lemma_pattern_bytes(b1: u8, b2: u8, b4: u8, b5: u8)
    by (bit_vector)
    requires
        0xA0 <= b1 <= 0xAF,
        0x80 <= b2 <= 0xBF,
        0xB0 <= b4 <= 0xBF,
        0x80 <= b5 <= 0xBF,
    ensures
        ({
            let v = (((b1 as u32 & 0x0F) << 16u32) + ((b2 as u32 & 0x3F) << 10u32) + ((b4 as u32
                & 0x0F) << 6u32) + (b5 as u32 & 0x3F) + 0x10000) as u32;
            let h = (0xD800u32 + (((v - 0x10000u32) as u32) >> 10u32)) as u32;
            let l = (0xDC00u32 + (((v - 0x10000u32) as u32) & 0x3FFu32)) as u32;
            &&& 0x10000 <= v <= 0x10FFFF
            &&& 0xE0 | ((h >> 12) & 0x0F) as u8 == 0xED
            &&& 0x80 | ((h >> 6) & 0x3F) as u8 == b1
            &&& 0x80 | (h & 0x3F) as u8 == b2
            &&& 0xE0 | ((l >> 12) & 0x0F) as u8 == 0xED
            &&& 0x80 | ((l >> 6) & 0x3F) as u8 == b4
            &&& 0x80 | (l & 0x3F) as u8 == b5
        }),
{
}

/// The CESU-8 encoding of a character outside the Basic Multilingual Plane is
/// six bytes that form a complete pair carrying the character.
pub(crate) proof fn lemma_cesu8_encode(c: char, rest: Seq<u8>)
    requires
        c as u32 >= 0x10000,
    ensures
        cesu8_encode(c).len() == 6,
        cesu8_pair_at_start(cesu8_encode(c) + rest),
        cesu8_scalar(cesu8_encode(c) + rest) as char == c,
{
    let v = c as u32;
    char_is_scalar(c);
    lemma_pair_bytes(v);
    let b = cesu8_encode(c) + rest;
    assert(b[0] == 0xED && b[3] == 0xED);
    char_u32_cast(c, v);
}

/// Six bytes that form a complete CESU-8 pair are the CESU-8 encoding of the
/// character they carry, which lies outside the Basic Multilingual Plane.
pub(crate) proof fn lemma_cesu8_pair_bytes(s: Seq<u8>)
    requires
        cesu8_pair_at_start(s),
    ensures
        cesu8_scalar(s) >= 0x10000,
        is_scalar(cesu8_scalar(s)),
        (cesu8_scalar(s) as char) as u32 == cesu8_scalar(s),
        cesu8_encode(cesu8_scalar(s) as char) == s.take(6),
{
    lemma_pattern_bytes(s[1], s[2], s[4], s[5]);
    let c = cesu8_scalar(s) as char;
    assert(c as u32 == cesu8_scalar(s));
    assert(cesu8_encode(c) =~= s.take(6));
}

/// The standard encoding of one character has the plain shape and ends in a
/// byte other than `0xC0`.
pub(crate) proof fn lemma_scalar_plain_shape(c: char)
    ensures
        plain_shape(encode_scalar(c as u32)),
        encode_scalar(c as u32).len() >= 1,
{
    let v = c as u32;
    char_is_scalar(c);
    let b = encode_scalar(v);
    if has_width_1_encoding(v) {
        assert((v & 0x7F) as u8 <= 0x7F) by (bit_vector);
        assert(b[0] <= 0x7F);
    } else if has_width_2_encoding(v) {
        lemma_width_2_bytes(v);
        assert(0xC2 <= b[0] <= 0xDF && 0x80 <= b[1] <= 0xBF);
        assert forall|k: int| 0 <= k < b.len() implies #[trigger] b[k] != 0xC0 && (b[k] == 0xED
            ==> k + 2 < b.len() && 0x80 <= b[k + 1] <= 0x9F) by {
            if k > 0 {
                assert(0x80 <= b[k] <= 0xBF);
            }
        }
    } else if has_width_3_encoding(v) {
        lemma_width_3_bytes(v);
        assert(0xE0 <= b[0] <= 0xEF && 0x80 <= b[1] <= 0xBF && 0x80 <= b[2] <= 0xBF);
        assert(b[0] == 0xED ==> 0x80 <= b[1] <= 0x9F);
        assert forall|k: int| 0 <= k < b.len() implies #[trigger] b[k] != 0xC0 && (b[k] == 0xED
            ==> k + 2 < b.len() && 0x80 <= b[k + 1] <= 0x9F) by {
            if k > 0 {
                assert(0x80 <= b[k] <= 0xBF);
            }
        }
    } else {
        lemma_width_4_bytes(v);
        assert(0xF0 <= b[0] <= 0xF4 && 0x80 <= b[1] <= 0xBF && 0x80 <= b[2] <= 0xBF && 0x80 <= b[3]
            <= 0xBF);
        assert forall|k: int| 0 <= k < b.len() implies #[trigger] b[k] != 0xC0 && (b[k] == 0xED
            ==> k + 2 < b.len() && 0x80 <= b[k + 1] <= 0x9F) by {
            if k > 0 {
                assert(0x80 <= b[k] <= 0xBF);
            }
        }
    }
}

/// The plain shape survives concatenation.
pub(crate) proof fn lemma_plain_shape_concat(a: Seq<u8>, b: Seq<u8>)
    requires
        plain_shape(a),
        plain_shape(b),
    ensures
        plain_shape(a + b),
{
    let ab = a + b;
    assert forall|k: int| 0 <= k < ab.len() implies #[trigger] ab[k] != 0xC0 && (ab[k] == 0xED
        ==> k + 2 < ab.len() && 0x80 <= ab[k + 1] <= 0x9F) by {
        if k < a.len() {
            assert(ab[k] == a[k]);
        } else {
            assert(ab[k] == b[k - a.len()]);
        }
    }
}

/// Standard UTF-8 has the plain shape.
pub(crate) proof fn lemma_utf8_plain_shape(cs: Seq<char>)
    ensures
        plain_shape(encode_utf8(cs)),
    decreases cs.len(),
{
    if cs.len() > 0 {
        lemma_scalar_plain_shape(cs[0]);
        lemma_utf8_plain_shape(cs.drop_first());
        lemma_plain_shape_concat(encode_scalar(cs[0] as u32), encode_utf8(cs.drop_first()));
    }
}

} // verus!
