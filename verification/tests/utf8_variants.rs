use plsfix::utf8_variants::{
    buffer_decode_step, buffer_decode_surrogates, variant_decode, DecodeError,
};

fn err(valid_up_to: usize, error_len: Option<usize>) -> Result<String, DecodeError> {
    Err(DecodeError { valid_up_to, error_len })
}

#[test]
fn test_decode_ascii() {
    let input = "Hello, world!".as_bytes();
    let output = variant_decode(input).unwrap();
    assert_eq!("Hello, world!", output);
}

#[test]
fn test_decode_cesu8() {
    let input = [0xED, 0xA0, 0x81, 0xED, 0xB0, 0x80];
    // Represents the character U+1F800
    let output = variant_decode(&input).unwrap();
    let output_bytes = output.as_bytes().to_vec();
    assert_eq!(vec![0xF0, 0x90, 0x90, 0x80], output_bytes);
}

#[test]
fn test_decode_empty() {
    let input = [];
    let output = variant_decode(&input).unwrap();
    assert_eq!("", output);
}

#[test]
fn test_decode_null() {
    let input = [0xC0, 0x80];
    let output = variant_decode(&input).unwrap();
    assert_eq!("\0", output);
}

#[test]
fn test_decode_ascii_and_null() {
    let input = [0x41, 0x42, 0xC0, 0x80, 0x43];
    let output = variant_decode(&input).unwrap();
    assert_eq!("AB\0C", output);
}

#[test]
fn test_decode_cesu8_and_null() {
    let input = [0xED, 0xA0, 0x81, 0xED, 0xB0, 0x80, 0xC0, 0x80];
    let output = variant_decode(&input).unwrap();
    let expected_output = String::from_utf8(vec![0xF0, 0x90, 0x90, 0x80, 0x00]).unwrap();
    assert_eq!(expected_output, output);
}

#[test]
fn test_decode_cesu8_and_ascii() {
    let input = [0xED, 0xA0, 0x81, 0xED, 0xB0, 0x80, 0x41, 0x42, 0x43];
    let output = variant_decode(&input).unwrap();
    let expected_output =
        String::from_utf8(vec![0xF0, 0x90, 0x90, 0x80, 0x41, 0x42, 0x43]).unwrap();
    assert_eq!(expected_output, output);
}

#[test]
fn test_decode_multiple_cesu8() {
    let input = [
        0xED, 0xA0, 0x81, 0xED, 0xB0, 0x80, 0xED, 0xA0, 0xA1, 0xED, 0xB1, 0x81,
    ];
    let output = variant_decode(&input).unwrap();
    let expected_output =
        String::from_utf8(vec![0xf0, 0x90, 0x90, 0x80, 0xf0, 0x98, 0x91, 0x81]).unwrap();
    assert_eq!(expected_output, output);
}

#[test]
fn test_decode_multiple_null() {
    let input = [0xC0, 0x80, 0xC0, 0x80, 0xC0, 0x80];
    let output = variant_decode(&input).unwrap();
    assert_eq!("\0\0\0", output);
}

#[test]
fn test_decode_multiple_ascii() {
    let input = [0x41, 0x41, 0x41];
    let output = variant_decode(&input).unwrap();
    assert_eq!("AAA", output);
}

// A CESU-8 surrogate pair decodes to its astral codepoint, and an overlong NUL decodes to U+0000.
#[test]
fn test_cesu8() {
    let test_bytes =
        b"\xed\xa6\x9d\xed\xbd\xb7 is an unassigned character, and \xc0\x80 is null";
    let test_text = "\u{77777} is an unassigned character, and \u{0} is null";
    assert_eq!(variant_decode(test_bytes).unwrap(), test_text);
}

#[test]
fn test_russian_crash() {
    let thebytes = b"\xe8\xed\xe2\xe5\xed\xf2\xe0\xf0\xe8\xe7\xe0\xf6\xe8\xff ";
    // We don't care what the result is, but this shouldn't crash
    let _ = variant_decode(thebytes);
}

// A lone trailing 0xc0 must error, not be silently dropped.
#[test]
fn test_decode_ascii_then_trailing_c0_errors() {
    let input = [0x41, 0xC0];
    assert!(
        variant_decode(&input).is_err(),
        "lone trailing 0xc0 after ASCII must error, not drop the byte"
    );
}

#[test]
fn test_decode_lone_trailing_c0_errors() {
    let input = [0xC0];
    assert!(
        variant_decode(&input).is_err(),
        "lone 0xc0 must error, not decode to empty string"
    );
}

#[test]
fn decodes_standard_multibyte_text_unchanged() {
    let text = "Grüße, 日本語, \u{1F600} and \u{D7FF}";
    assert_eq!(variant_decode(text.as_bytes()).unwrap(), text);
}

#[test]
fn decodes_null_separated_words() {
    assert_eq!(
        variant_decode(b"null\xc0\x80separated").unwrap(),
        "null\x00separated"
    );
}

#[test]
fn decodes_smallest_and_largest_cesu8_pairs() {
    assert_eq!(
        variant_decode(b"\xed\xa0\x80\xed\xb0\x80").unwrap(),
        "\u{10000}"
    );
    assert_eq!(
        variant_decode(b"\xed\xaf\xbf\xed\xbf\xbf").unwrap(),
        "\u{10FFFF}"
    );
}

#[test]
fn decoding_then_reencoding_is_not_the_input() {
    let input = [0xC0, 0x80];
    let output = variant_decode(&input).unwrap();
    assert_ne!(output.as_bytes(), &input[..]);
    assert_eq!(output.as_bytes(), &[0x00]);
}

#[test]
fn rejects_a_lone_surrogate() {
    assert_eq!(variant_decode(b"\xed\xa0\x80"), err(0, Some(1)));
    assert_eq!(variant_decode(b"ab\xed\xb0\x80cd"), err(0, Some(1)));
}

#[test]
fn rejects_a_surrogate_pair_cut_short() {
    assert_eq!(variant_decode(b"\xed\xa0\x81\xed\xb0"), err(0, Some(1)));
    assert_eq!(variant_decode(b"\xed"), err(0, None));
}

#[test]
fn rejects_a_high_surrogate_not_followed_by_a_low_one() {
    // Six bytes are there, but they are not a CESU-8 pair: the three bytes of
    // the high surrogate are decoded on their own, and fail.
    assert_eq!(
        variant_decode(b"\xed\xa0\x80AAA\xed\xa0\x81\xed\xb0\x80"),
        err(0, Some(1))
    );
}

#[test]
fn rejects_overlong_forms_other_than_java_null() {
    assert_eq!(variant_decode(b"\xc0\x81"), err(0, Some(1)));
    assert_eq!(variant_decode(b"\xc1\xbf"), err(0, Some(1)));
    assert_eq!(variant_decode(b"\xe0\x80\x80"), err(0, Some(1)));
}

#[test]
fn rejects_invalid_bytes_after_valid_text() {
    assert_eq!(variant_decode(b"abc\xff"), err(3, Some(1)));
    assert_eq!(variant_decode(b"\xc0\x80\xff"), err(0, Some(1)));
}

#[test]
fn step_decodes_the_utf8_before_a_special_pattern() {
    let (text, consumed) = buffer_decode_step(b"AB\xc0\x80C").unwrap();
    assert_eq!(text, "AB");
    assert_eq!(consumed, 2);
}

#[test]
fn step_decodes_a_java_null() {
    let (text, consumed) = buffer_decode_step(b"\xc0\x80C").unwrap();
    assert_eq!(text, "\0");
    assert_eq!(consumed, 2);
}

#[test]
fn step_decodes_everything_when_nothing_is_special() {
    let (text, consumed) = buffer_decode_step("héllo".as_bytes()).unwrap();
    assert_eq!(text, "héllo");
    assert_eq!(consumed, 6);
}

#[test]
fn surrogate_step_decodes_a_pair() {
    let (text, consumed) = buffer_decode_surrogates(b"\xed\xa6\x9d\xed\xbd\xb7xyz").unwrap();
    assert_eq!(text, "\u{77777}");
    assert_eq!(consumed, 6);
}

#[test]
fn surrogate_step_takes_three_bytes_when_no_pair_follows() {
    // A Hangul syllable starts with 0xED too.
    let (text, consumed) = buffer_decode_surrogates("\u{D55C}xyzw".as_bytes()).unwrap();
    assert_eq!(text, "\u{D55C}");
    assert_eq!(consumed, 3);
}

#[test]
fn surrogate_step_decodes_a_short_rest_as_utf8() {
    let (text, consumed) = buffer_decode_surrogates("\u{D55C}a".as_bytes()).unwrap();
    assert_eq!(text, "\u{D55C}a");
    assert_eq!(consumed, 4);
    assert_eq!(
        buffer_decode_surrogates(b"\xed\xa0"),
        Err(DecodeError { valid_up_to: 0, error_len: Some(1) })
    );
}

#[test]
fn step_on_empty_input_consumes_nothing() {
    let (text, consumed) = buffer_decode_step(&[]).unwrap();
    assert_eq!(text, "");
    assert_eq!(consumed, 0);
}

#[test]
fn error_positions_are_within_the_failing_stretch() {
    // The stretch "h\u{e9}llo" before the null is fine; the stretch after it
    // holds two valid bytes, then an invalid one.
    assert_eq!(variant_decode(b"h\xc3\xa9llo\xc0\x80ab\xffc"), err(2, Some(1)));
    // Input that ends inside a sequence.
    assert_eq!(variant_decode(b"abc\xe2\x82"), err(3, None));
    assert_eq!(variant_decode(&[0x41, 0xC0]), err(0, Some(1)));
    assert_eq!(variant_decode(&[0xC0]), err(0, Some(1)));
}

#[test]
fn error_messages() {
    let e = variant_decode(b"abc\xff").unwrap_err();
    assert_eq!(e.message(), "invalid utf-8 sequence of 1 bytes from index 3");
    assert_eq!(e.message(), std::str::from_utf8(b"abc\xff").unwrap_err().to_string());
    let e = variant_decode(b"abc\xe2\x82").unwrap_err();
    assert_eq!(e.message(), "incomplete utf-8 byte sequence from index 3");
    assert_eq!(
        DecodeError { valid_up_to: 1234, error_len: Some(2) }.message(),
        "invalid utf-8 sequence of 2 bytes from index 1234"
    );
}
