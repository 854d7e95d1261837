//! What the codec promises as a whole, proved over the decoding that
//! [`crate::utf8_variants::variant_decode`] computes.

use vstd::prelude::*;
use vstd::utf8::*;
use crate::forms::{
    Form, cesu8_encode, form_bytes, forms_bytes, forms_ok, forms_text, is_variant_encoding,
    leading_standard, lemma_cesu8_encode, lemma_cesu8_pair_bytes, lemma_forms_bytes_cons,
    lemma_forms_concat, lemma_leading_standard, lemma_plain_shape_no_special,
    lemma_scalar_plain_shape, lemma_standard_forms, lemma_utf8_plain_shape, standard_forms,
};
use crate::grammar::{
    cesu8_pair_at_start, cesu8_scalar, java_null_at, lemma_first_special_from_bounds,
    lemma_first_special_is, lemma_first_special_none, first_special, special_at,
};
use crate::utf8_variants::{decode_step, lemma_decode_step_progress, variant_decoding};

verus! {

/// The standard encoding of a nonempty text is nonempty.
proof fn lemma_encode_utf8_nonempty(cs: Seq<char>)
    requires
        cs.len() > 0,
    ensures
        encode_utf8(cs).len() > 0,
{
    lemma_scalar_plain_shape(cs[0]);
}

/// A form other than the standard one starts a special pattern, wherever it
/// stands.
proof fn lemma_nonstandard_head_is_special(pre: Seq<u8>, fs: Seq<Form>)
    requires
        fs.len() > 0,
        !(fs[0] is Standard),
        forms_ok(fs),
    ensures
        special_at(pre + forms_bytes(fs), pre.len() as int),
{
    let f = fs[0];
    let tail = fs.drop_first();
    assert(fs =~= seq![f] + tail);
    lemma_forms_bytes_cons(f, tail);
    let b = pre + forms_bytes(fs);
    let p = pre.len() as int;
    match f {
        Form::Cesu8Pair(c) => {
            lemma_cesu8_encode(c, forms_bytes(tail));
            assert(b[p] == cesu8_encode(c)[0]);
            assert(b[p + 1] == cesu8_encode(c)[1]);
            assert(b[p + 2] == cesu8_encode(c)[2]);
        },
        Form::JavaNull => {
            assert(b[p] == 0xC0);
            assert(b[p + 1] == 0x80);
        },
        Form::Standard(_) => {},
    }
}

/// Decoding a mix that starts with a run of standard forms: the run is one
/// step, and the forms after it are decoded as the induction hypothesis says.
proof fn lemma_mix_after_standard_run(fs: Seq<Form>)
    requires
        forms_ok(fs),
        leading_standard(fs).len() > 0,
        ({
            let rest = fs.skip(leading_standard(fs).len() as int);
            rest.len() > 0 ==> variant_decoding(forms_bytes(rest)) == Some(forms_text(rest))
        }),
    ensures
        variant_decoding(forms_bytes(fs)) == Some(forms_text(fs)),
{
    let b = forms_bytes(fs);
    lemma_leading_standard(fs);
    let lc = leading_standard(fs);
    let n = lc.len() as int;
    let rest = fs.skip(n);
    let rb = forms_bytes(rest);
    let pre = encode_utf8(lc);
    lemma_utf8_plain_shape(lc);
    lemma_plain_shape_no_special(pre, rb);
    encode_utf8_valid_utf8(lc);
    encode_utf8_decode_utf8(lc);
    lemma_encode_utf8_nonempty(lc);
    let p = pre.len() as int;
    if rest.len() == 0 {
        assert(rb =~= Seq::<u8>::empty());
        assert(b =~= pre);
        lemma_first_special_none(b, 0);
        assert(b.take(b.len() as int) =~= b);
        assert(b.skip(b.len() as int) =~= Seq::<u8>::empty());
        assert(forms_text(rest) =~= Seq::<char>::empty());
        assert(lc + Seq::<char>::empty() =~= lc);
    } else {
        lemma_nonstandard_head_is_special(pre, rest);
        lemma_first_special_is(b, p);
        assert(b.take(p) =~= pre);
        assert(b.skip(p) =~= rb);
    }
}

/// Decoding a mix that starts with a CESU-8 pair or a Java null: that form is
/// one step, and the forms after it are decoded as the induction hypothesis
/// says.
proof fn lemma_mix_after_special_form(fs: Seq<Form>)
    requires
        forms_ok(fs),
        fs.len() > 0,
        !(fs[0] is Standard),
        variant_decoding(forms_bytes(fs.drop_first())) == Some(forms_text(fs.drop_first())),
    ensures
        variant_decoding(forms_bytes(fs)) == Some(forms_text(fs)),
{
    let b = forms_bytes(fs);
    let f = fs[0];
    let tail = fs.drop_first();
    assert(fs =~= seq![f] + tail);
    lemma_forms_bytes_cons(f, tail);
    let tb = forms_bytes(tail);
    lemma_nonstandard_head_is_special(Seq::<u8>::empty(), fs);
    assert(Seq::<u8>::empty() + b =~= b);
    lemma_first_special_is(b, 0);
    match f {
        Form::Cesu8Pair(c) => {
            lemma_cesu8_encode(c, tb);
            assert(b[0] == 0xED);
            assert(b.skip(6) =~= tb);
        },
        Form::JavaNull => {
            assert(b[0] == 0xC0);
            assert(b.skip(2) =~= tb);
        },
        Form::Standard(_) => {},
    }
}

/// Any mix of characters in standard UTF-8, characters outside the Basic
/// Multilingual Plane as CESU-8 pairs, and U+0000 as `0xC0 0x80` decodes to
/// exactly the characters it encodes.
pub proof fn law_decodes_every_mix(fs: Seq<Form>)
    requires
        forms_ok(fs),
    ensures
        variant_decoding(forms_bytes(fs)) == Some(forms_text(fs)),
    decreases fs.len(),
{
    if fs.len() == 0 {
        assert(forms_text(fs) =~= Seq::<char>::empty());
        return;
    }
    lemma_leading_standard(fs);
    let n = leading_standard(fs).len() as int;
    if n > 0 {
        let rest = fs.skip(n);
        if rest.len() > 0 {
            law_decodes_every_mix(rest);
        }
        lemma_mix_after_standard_run(fs);
    } else {
        let tail = fs.drop_first();
        assert(fs =~= seq![fs[0]] + tail);
        lemma_forms_bytes_cons(fs[0], tail);
        law_decodes_every_mix(tail);
        assert(fs.skip(0) =~= fs);
        lemma_mix_after_special_form(fs);
    }
}

/// Standard forms for the characters of a step that decoded the first `m`
/// bytes of `s` as standard UTF-8.
proof fn lemma_plain_forms(s: Seq<u8>, m: int) -> (head: Seq<Form>)
    requires
        0 <= m <= s.len(),
        valid_utf8(s.take(m)),
    ensures
        forms_ok(head),
        forms_bytes(head) == s.take(m),
        forms_text(head) == decode_utf8(s.take(m)),
{
    let cs = decode_utf8(s.take(m));
    decode_utf8_encode_utf8(s.take(m));
    lemma_standard_forms(cs);
    standard_forms(cs)
}

/// The forms that a successful decoding step consumed.
proof fn lemma_step_forms(s: Seq<u8>) -> (head: Seq<Form>)
    requires
        s.len() > 0,
        decode_step(s) is Some,
    ensures
        forms_ok(head),
        decode_step(s) matches Some((cs, n)) && forms_bytes(head) == s.take(n) && forms_text(head)
            == cs,
{
    lemma_first_special_from_bounds(s, 0);
    assert(s.take(s.len() as int) =~= s);
    match first_special(s) {
        None => lemma_plain_forms(s, s.len() as int),
        Some(p) => {
            if p > 0 {
                lemma_plain_forms(s, p)
            } else if s[0] == 0xC0 {
                if s.len() > 1 {
                    let head = seq![Form::JavaNull];
                    assert(java_null_at(s, 0));
                    lemma_forms_bytes_cons(Form::JavaNull, Seq::empty());
                    assert(head =~= seq![Form::JavaNull] + Seq::<Form>::empty());
                    assert(s.take(2) =~= seq![0xC0u8, 0x80u8]);
                    assert(forms_text(head) =~= seq!['\0']);
                    assert(form_bytes(Form::JavaNull) + Seq::<u8>::empty() =~= s.take(2));
                    head
                } else {
                    lemma_plain_forms(s, s.len() as int)
                }
            } else if s.len() < 6 {
                lemma_plain_forms(s, s.len() as int)
            } else if cesu8_pair_at_start(s) {
                lemma_cesu8_pair_bytes(s);
                let c = cesu8_scalar(s) as char;
                let f = Form::Cesu8Pair(c);
                let head = seq![f];
                lemma_forms_bytes_cons(f, Seq::empty());
                assert(head =~= seq![f] + Seq::<Form>::empty());
                assert(form_bytes(f) + Seq::<u8>::empty() =~= s.take(6));
                assert(forms_text(head) =~= seq![c]);
                head
            } else {
                lemma_plain_forms(s, 3)
            }
        },
    }
}

/// Every input that decodes is such a mix: its bytes are the forms of the
/// characters that decoding gives. (Nothing else is accepted: in particular a
/// character of the Basic Multilingual Plane must appear in its shortest
/// form, U+0000 aside.)
pub proof fn law_accepts_only_mixes(s: Seq<u8>)
    ensures
        variant_decoding(s) matches Some(t) ==> is_variant_encoding(s, t),
{
    if variant_decoding(s) is Some {
        let fs = lemma_decoding_forms(s);
        assert(forms_text(fs) == variant_decoding(s)->0);
    }
}

/// Decoding succeeds exactly on the mixes of forms, and then gives the text
/// they stand for.
pub proof fn law_decoding_is_reading(s: Seq<u8>)
    ensures
        variant_decoding(s) is Some <==> exists|t: Seq<char>| is_variant_encoding(s, t),
        variant_decoding(s) matches Some(t) ==> is_variant_encoding(s, t),
        forall|t: Seq<char>| is_variant_encoding(s, t) ==> variant_decoding(s) == Some(t),
{
    law_accepts_only_mixes(s);
    assert forall|t: Seq<char>| is_variant_encoding(s, t) implies variant_decoding(s) == Some(
        t,
    ) by {
        let fs = choose|fs: Seq<Form>|
            forms_ok(fs) && forms_bytes(fs) == s && #[trigger] forms_text(fs) == t;
        law_decodes_every_mix(fs);
    }
}

/// A byte string stands for at most one text: the forms cannot be read in
/// two ways that give different characters.
pub proof fn law_reading_is_unique(s: Seq<u8>, t1: Seq<char>, t2: Seq<char>)
    requires
        is_variant_encoding(s, t1),
        is_variant_encoding(s, t2),
    ensures
        t1 == t2,
{
    law_decoding_is_reading(s);
}

/// Text in standard UTF-8 decodes to itself: encoding and then decoding gives
/// back the text.
pub proof fn law_standard_utf8_roundtrip(cs: Seq<char>)
    ensures
        variant_decoding(encode_utf8(cs)) == Some(cs),
{
    lemma_standard_forms(cs);
    law_decodes_every_mix(standard_forms(cs));
}

/// The bytes of a nonempty sequence of forms do not end in `0xC0`.
proof fn lemma_forms_last_byte(fs: Seq<Form>)
    requires
        fs.len() > 0,
        forms_ok(fs),
    ensures
        forms_bytes(fs).len() > 0,
        forms_bytes(fs).last() != 0xC0,
    decreases fs.len(),
{
    let f = fs[0];
    let tail = fs.drop_first();
    assert(fs =~= seq![f] + tail);
    lemma_forms_bytes_cons(f, tail);
    let fb = form_bytes(f);
    match f {
        Form::Standard(c) => {
            lemma_scalar_plain_shape(c);
            assert(fb[fb.len() - 1] != 0xC0);
        },
        Form::Cesu8Pair(c) => {
            lemma_cesu8_encode(c, Seq::empty());
            assert(cesu8_encode(c) + Seq::<u8>::empty() =~= cesu8_encode(c));
            assert(fb[5] != 0xC0);
        },
        Form::JavaNull => {},
    }
    if tail.len() > 0 {
        lemma_forms_last_byte(tail);
    } else {
        assert(forms_bytes(tail) =~= Seq::<u8>::empty());
    }
}

/// Input that ends in a lone `0xC0` is rejected, however it begins.
pub proof fn law_trailing_lone_c0_rejected(s: Seq<u8>)
    ensures
        variant_decoding(s.push(0xC0)) is None,
{
    let b = s.push(0xC0);
    if variant_decoding(b) is Some {
        let fs = lemma_decoding_forms(b);
        if fs.len() == 0 {
            assert(forms_bytes(fs) =~= Seq::<u8>::empty());
        } else {
            lemma_forms_last_byte(fs);
        }
    }
}

/// The forms that decoding finds in `s`.
proof fn lemma_decoding_forms(s: Seq<u8>) -> (fs: Seq<Form>)
    requires
        variant_decoding(s) is Some,
    ensures
        forms_ok(fs),
        forms_bytes(fs) == s,
        forms_text(fs) == variant_decoding(s)->0,
    decreases s.len(),
{
    if s.len() == 0 {
        let fs = Seq::<Form>::empty();
        assert(forms_text(fs) =~= Seq::<char>::empty());
        return fs;
    }
    lemma_decode_step_progress(s);
    let (cs, n) = decode_step(s)->0;
    let head = lemma_step_forms(s);
    let tail = lemma_decoding_forms(s.skip(n));
    lemma_forms_concat(head, tail);
    assert(s.take(n) + s.skip(n) =~= s);
    head + tail
}

} // verus!
