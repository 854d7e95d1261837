use plsfix::fixer_config::{
    explain_setting, normalization_message_from, parse_normalization, parse_unescape_html,
    unescape_html_message_from, ConfigError, Normalization, PyErrorKind, PyExplainedText,
    PyExplanationStep, PyTextFixerConfig, TextFixerConfig, UnescapeHtml,
};

fn build(
    unescape_html: Option<UnescapeHtml>,
    normalization: Option<&str>,
    max_decode_length: i32,
) -> Result<PyTextFixerConfig, ConfigError> {
    PyTextFixerConfig::new(
        unescape_html,
        true,
        true,
        false,
        true,
        true,
        true,
        true,
        true,
        false,
        true,
        true,
        true,
        normalization.map(|s| s.to_string()),
        max_decode_length,
        true,
    )
}

#[test]
fn builds_with_the_usual_settings() {
    let c = build(None, Some("NFC"), 1_000_000).unwrap();
    assert_eq!(c.unescape_html, None);
    assert_eq!(c.normalization, Some(Normalization::NFC));
    assert_eq!(c.max_decode_length, 1_000_000);
    assert!(c.remove_terminal_escapes && c.fix_encoding && c.explain);
    assert!(!c.restore_byte_a0 && !c.uncurl_quotes);
}

#[test]
fn unescape_html_tri_state() {
    assert_eq!(parse_unescape_html(None).unwrap(), None);
    assert_eq!(parse_unescape_html(Some(UnescapeHtml::Bool(true))).unwrap(), Some(true));
    assert_eq!(parse_unescape_html(Some(UnescapeHtml::Bool(false))).unwrap(), Some(false));
    assert_eq!(
        parse_unescape_html(Some(UnescapeHtml::Mode("auto".to_string()))).unwrap(),
        None
    );
    match parse_unescape_html(Some(UnescapeHtml::Mode("always".to_string()))) {
        Err(ConfigError::InvalidUnescapeHtml(m)) => assert_eq!(m, "always"),
        other => panic!("unexpected {other:?}"),
    }
    match parse_unescape_html(Some(UnescapeHtml::Mode("Auto".to_string()))) {
        Err(ConfigError::InvalidUnescapeHtml(m)) => assert_eq!(m, "Auto"),
        other => panic!("unexpected {other:?}"),
    }
}

#[test]
fn normalization_names() {
    assert_eq!(parse_normalization(None).unwrap(), None);
    for (name, form) in [
        ("NFC", Normalization::NFC),
        ("NFKC", Normalization::NFKC),
        ("NFD", Normalization::NFD),
        ("NFKD", Normalization::NFKD),
    ] {
        assert_eq!(parse_normalization(Some(name.to_string())).unwrap(), Some(form));
    }
    match parse_normalization(Some("nfc".to_string())) {
        Err(ConfigError::InvalidNormalization(n)) => assert_eq!(n, "nfc"),
        other => panic!("unexpected {other:?}"),
    }
}

#[test]
fn refuses_bad_settings_in_order() {
    assert!(matches!(
        build(Some(UnescapeHtml::Mode("x".to_string())), Some("bad"), 0),
        Err(ConfigError::ZeroMaxDecodeLength)
    ));
    assert!(matches!(
        build(None, None, -5),
        Err(ConfigError::NegativeMaxDecodeLength)
    ));
    assert!(matches!(
        build(Some(UnescapeHtml::Mode("x".to_string())), Some("bad"), 10),
        Err(ConfigError::InvalidUnescapeHtml(_))
    ));
    assert!(matches!(
        build(Some(UnescapeHtml::Bool(false)), Some("bad"), 10),
        Err(ConfigError::InvalidNormalization(_))
    ));
    let c = build(Some(UnescapeHtml::Bool(false)), None, 1).unwrap();
    assert_eq!(c.unescape_html, Some(false));
    assert_eq!(c.normalization, None);
}

#[test]
fn explained_text_getters_copy_their_fields() {
    let explained = PyExplainedText {
        text: "fixed".to_string(),
        steps: Some(vec![
            PyExplanationStep { transformation: "unescape_html".to_string() },
            PyExplanationStep { transformation: "fix_c1_controls".to_string() },
        ]),
    };
    assert_eq!(explained.text(), "fixed");
    let steps = explained.steps().unwrap();
    assert_eq!(steps.len(), 2);
    assert_eq!(steps[0].transformation(), "unescape_html");
    assert_eq!(steps[1].transformation(), "fix_c1_controls");

    let plain = PyExplainedText { text: "x".to_string(), steps: None };
    assert!(plain.steps().is_none());
}

#[test]
fn default_config_has_the_usual_settings() {
    let c = PyTextFixerConfig::default();
    assert_eq!(c.unescape_html, None);
    assert!(c.remove_terminal_escapes && c.fix_encoding && c.restore_byte_a0);
    assert!(c.replace_lossy_sequences && c.decode_inconsistent_utf8 && c.fix_c1_controls);
    assert!(c.fix_latin_ligatures && c.fix_character_width && c.uncurl_quotes);
    assert!(c.fix_line_breaks && c.fix_surrogates && c.remove_control_chars);
    assert_eq!(c.normalization, Some(Normalization::NFC));
    assert_eq!(c.max_decode_length, 1_000_000);
    assert!(c.explain);
}

#[test]
fn refusal_messages() {
    let e = build(Some(UnescapeHtml::Mode("yes".to_string())), Some("NFC"), 10).unwrap_err();
    assert_eq!(e.kind(), PyErrorKind::ValueError);
    assert_eq!(
        e.message(),
        "invalid unescape_html \"yes\", expected True, False, or \"auto\""
    );
    let e = build(None, Some("nfc"), 10).unwrap_err();
    assert_eq!(e.kind(), PyErrorKind::ValueError);
    assert_eq!(
        e.message(),
        "invalid normalization \"nfc\", expected NFC/NFKC/NFD/NFKD or None"
    );
    let e = build(None, Some("a\"b"), 10).unwrap_err();
    assert_eq!(
        e.message(),
        "invalid normalization \"a\\\"b\", expected NFC/NFKC/NFD/NFKD or None"
    );
    let e = build(None, None, 0).unwrap_err();
    assert_eq!(e.kind(), PyErrorKind::ValueError);
    assert_eq!(e.message(), "max_decode_length must not be zero");
    let e = build(None, None, -1).unwrap_err();
    assert_eq!(e.kind(), PyErrorKind::OverflowError);
    assert_eq!(e.message(), "max_decode_length must not be negative");
}

#[test]
fn messages_from_quoted_values() {
    assert_eq!(
        unescape_html_message_from("'q'"),
        "invalid unescape_html 'q', expected True, False, or \"auto\""
    );
    assert_eq!(
        normalization_message_from("<n>"),
        "invalid normalization <n>, expected NFC/NFKC/NFD/NFKD or None"
    );
}

#[test]
fn explain_is_on_without_a_config() {
    assert!(explain_setting(None));
    let mut c = PyTextFixerConfig::default();
    assert!(explain_setting(Some(&c)));
    c.explain = false;
    assert!(!explain_setting(Some(&c)));
}

#[test]
fn fixer_config_takes_every_option() {
    let c = build(Some(UnescapeHtml::Bool(true)), Some("NFKD"), 77).unwrap();
    let t = TextFixerConfig::from(c.clone());
    assert_eq!(t.unescape_html, Some(true));
    assert_eq!(t.remove_terminal_escapes, c.remove_terminal_escapes);
    assert_eq!(t.fix_encoding, c.fix_encoding);
    assert_eq!(t.restore_byte_a0, c.restore_byte_a0);
    assert_eq!(t.replace_lossy_sequences, c.replace_lossy_sequences);
    assert_eq!(t.decode_inconsistent_utf8, c.decode_inconsistent_utf8);
    assert_eq!(t.fix_c1_controls, c.fix_c1_controls);
    assert_eq!(t.fix_latin_ligatures, c.fix_latin_ligatures);
    assert_eq!(t.fix_character_width, c.fix_character_width);
    assert_eq!(t.uncurl_quotes, c.uncurl_quotes);
    assert_eq!(t.fix_line_breaks, c.fix_line_breaks);
    assert_eq!(t.remove_control_chars, c.remove_control_chars);
    assert_eq!(t.normalization, Some(Normalization::NFKD));
    assert_eq!(t.max_decode_length, 77);
}

#[test]
fn explained_text_clones() {
    let e = PyExplainedText {
        text: "t".to_string(),
        steps: Some(vec![PyExplanationStep { transformation: "s".to_string() }]),
    };
    let c = e.clone();
    assert_eq!(c.text, "t");
    assert_eq!(c.steps.unwrap()[0].transformation, "s");
}
