use plsfix::mojibake::{has_line_break, latin1_mojibake};

#[test]
fn finds_each_kind_of_line_break() {
    for s in ["a\nb", "a\rb", "a\u{0085}b", "a\u{2028}b", "a\u{2029}b", "\n"] {
        assert!(has_line_break(s), "{s:?}");
    }
}

#[test]
fn finds_no_line_break_in_a_single_segment() {
    assert!(!has_line_break(""));
    assert!(!has_line_break("one segment\twith a tab and \u{000B}"));
    assert!(!has_line_break("Ã©Ã¨"));
}

#[test]
fn latin1_mojibake_of_cafe() {
    assert_eq!(latin1_mojibake("café"), "cafÃ©");
}

#[test]
fn latin1_mojibake_keeps_ascii() {
    assert_eq!(latin1_mojibake("plain ASCII"), "plain ASCII");
    assert_eq!(latin1_mojibake(""), "");
}

#[test]
fn latin1_mojibake_has_one_char_per_byte() {
    let seed = "\u{1F600}日";
    let moji = latin1_mojibake(seed);
    assert_eq!(moji.chars().count(), seed.len());
    let bytes: Vec<u32> = seed.bytes().map(u32::from).collect();
    let chars: Vec<u32> = moji.chars().map(u32::from).collect();
    assert_eq!(bytes, chars);
}
