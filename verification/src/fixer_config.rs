//! The configuration of the text fixer as Python code passes it, with the
//! checks made when it is built, and the explained result handed back.

use vstd::prelude::*;
use vstd::string::*;
use vstd::std_specs::convert::FromSpec;
use vstd::std_specs::convert::FromSpecImpl;
use crate::std_text::{debug_quoted, format_debug};

verus! {

/// A Unicode normal form to apply to the fixed text.
#[derive(Debug, Clone, Copy, PartialEq, Eq)]
pub enum Normalization {
    NFC,
    NFKC,
    NFD,
    NFKD,
}

/// The tri-state `unescape_html` option as Python passes it: a flag, or a mode
/// name of which only `"auto"` is known.
#[derive(Debug, Clone)]
pub enum UnescapeHtml {
    Bool(bool),
    Mode(String),
}

/// Why a configuration was refused.
#[derive(Debug, Clone)]
pub enum ConfigError {
    /// `unescape_html` was a mode name other than `"auto"`.
    InvalidUnescapeHtml(String),
    /// `normalization` named none of `NFC`, `NFKC`, `NFD`, `NFKD`.
    InvalidNormalization(String),
    /// `max_decode_length` was zero.
    ZeroMaxDecodeLength,
    /// `max_decode_length` was negative.
    NegativeMaxDecodeLength,
}

/// The text fixer's options as Python builds them.
#[derive(Debug, Clone)]
pub struct PyTextFixerConfig {
    /// `None` for "auto": unescape HTML only where the text holds no tags.
    pub unescape_html: Option<bool>,
    pub remove_terminal_escapes: bool,
    pub fix_encoding: bool,
    pub restore_byte_a0: bool,
    pub replace_lossy_sequences: bool,
    pub decode_inconsistent_utf8: bool,
    pub fix_c1_controls: bool,
    pub fix_latin_ligatures: bool,
    pub fix_character_width: bool,
    pub uncurl_quotes: bool,
    pub fix_line_breaks: bool,
    pub fix_surrogates: bool,
    pub remove_control_chars: bool,
    pub normalization: Option<Normalization>,
    /// The longest segment, in bytes, that encoding repair works on at once.
    pub max_decode_length: i32,
    pub explain: bool,
}

/// The Python exception that a refused configuration raises.
#[derive(Debug, Clone, Copy, PartialEq, Eq)]
pub enum PyErrorKind {
    ValueError,
    OverflowError,
}

/// The message of a refused `unescape_html` mode, given the mode as Rust's
/// `Debug` formatting quotes it.
pub open spec fn unescape_html_message(quoted: Seq<char>) -> Seq<char> {
    "invalid unescape_html "@ + quoted + ", expected True, False, or \"auto\""@
}

/// The message of a refused normal form name, given the name as Rust's
/// `Debug` formatting quotes it.
pub open spec fn normalization_message(quoted: Seq<char>) -> Seq<char> {
    "invalid normalization "@ + quoted + ", expected NFC/NFKC/NFD/NFKD or None"@
}

/// Builds the message of a refused `unescape_html` mode from its quoted form.
pub fn unescape_html_message_from(quoted: &str) -> (r: String)
    ensures
        r@ == unescape_html_message(quoted@),
{
    let mut m = String::from_str("invalid unescape_html ");
    m.append(quoted);
    m.append(", expected True, False, or \"auto\"");
    m
}

/// Builds the message of a refused normal form name from its quoted form.
pub fn normalization_message_from(quoted: &str) -> (r: String)
    ensures
        r@ == normalization_message(quoted@),
{
    let mut m = String::from_str("invalid normalization ");
    m.append(quoted);
    m.append(", expected NFC/NFKC/NFD/NFKD or None");
    m
}

impl ConfigError {
    /// The kind of Python exception raised: `OverflowError` for a negative
    /// `max_decode_length`, `ValueError` otherwise.
    pub fn kind(&self) -> (r: PyErrorKind)
        ensures
            r == (match self {
                ConfigError::NegativeMaxDecodeLength => PyErrorKind::OverflowError,
                _ => PyErrorKind::ValueError,
            }),
    {
        match self {
            ConfigError::NegativeMaxDecodeLength => PyErrorKind::OverflowError,
            _ => PyErrorKind::ValueError,
        }
    }

    /// The message of the Python exception raised.
    pub fn message(&self) -> (r: String)
        ensures
            self matches ConfigError::InvalidUnescapeHtml(mode) ==> r@ == unescape_html_message(
                debug_quoted(mode@),
            ),
            self matches ConfigError::InvalidNormalization(name) ==> r@ == normalization_message(
                debug_quoted(name@),
            ),
            self is ZeroMaxDecodeLength ==> r@ == "max_decode_length must not be zero"@,
            self is NegativeMaxDecodeLength ==> r@ == "max_decode_length must not be negative"@,
    {
        match self {
            ConfigError::InvalidUnescapeHtml(mode) => {
                let q = format_debug(mode.as_str());
                unescape_html_message_from(q.as_str())
            },
            ConfigError::InvalidNormalization(name) => {
                let q = format_debug(name.as_str());
                normalization_message_from(q.as_str())
            },
            ConfigError::ZeroMaxDecodeLength => String::from_str(
                "max_decode_length must not be zero",
            ),
            ConfigError::NegativeMaxDecodeLength => String::from_str(
                "max_decode_length must not be negative",
            ),
        }
    }
}

/// The `explain` setting: on when no configuration is given, otherwise the
/// configuration's own.
pub fn explain_setting(config: Option<&PyTextFixerConfig>) -> (r: bool)
    ensures
        r == (match config {
            None => true,
            Some(c) => c.explain,
        }),
{
    match config {
        None => true,
        Some(c) => c.explain,
    }
}

/// The `unescape_html` setting that an argument gives: not given or `"auto"`
/// is `None`, a flag is itself, any other mode name is refused.
pub open spec fn unescape_html_setting(arg: Option<UnescapeHtml>) -> Result<
    Option<bool>,
    ConfigError,
> {
    match arg {
        None => Ok(None),
        Some(UnescapeHtml::Bool(b)) => Ok(Some(b)),
        Some(UnescapeHtml::Mode(mode)) => if mode@ == "auto"@ {
            Ok(None)
        } else {
            Err(ConfigError::InvalidUnescapeHtml(mode))
        },
    }
}

/// The normal form that a name gives: `None` when no name is given, the form
/// named `NFC`, `NFKC`, `NFD` or `NFKD`, and a refusal for any other name.
pub open spec fn normalization_setting(arg: Option<String>) -> Result<
    Option<Normalization>,
    ConfigError,
> {
    match arg {
        None => Ok(None),
        Some(name) => if name@ == "NFC"@ {
            Ok(Some(Normalization::NFC))
        } else if name@ == "NFKC"@ {
            Ok(Some(Normalization::NFKC))
        } else if name@ == "NFD"@ {
            Ok(Some(Normalization::NFD))
        } else if name@ == "NFKD"@ {
            Ok(Some(Normalization::NFKD))
        } else {
            Err(ConfigError::InvalidNormalization(name))
        },
    }
}

/// Tells whether a string holds exactly the text of `literal`.
fn string_is(s: &String, literal: &str) -> (r: bool)
    ensures
        r == (s@ == literal@),
{
    *s == String::from_str(literal)
}

/// Reads the `unescape_html` argument.
pub fn parse_unescape_html(arg: Option<UnescapeHtml>) -> (r: Result<Option<bool>, ConfigError>)
    ensures
        r == unescape_html_setting(arg),
{
    match arg {
        None => Ok(None),
        Some(UnescapeHtml::Bool(b)) => Ok(Some(b)),
        Some(UnescapeHtml::Mode(mode)) => {
            if string_is(&mode, "auto") {
                Ok(None)
            } else {
                Err(ConfigError::InvalidUnescapeHtml(mode))
            }
        },
    }
}

/// Reads the `normalization` argument.
pub fn parse_normalization(arg: Option<String>) -> (r: Result<Option<Normalization>, ConfigError>)
    ensures
        r == normalization_setting(arg),
{
    match arg {
        None => Ok(None),
        Some(name) => {
            if string_is(&name, "NFC") {
                Ok(Some(Normalization::NFC))
            } else if string_is(&name, "NFKC") {
                Ok(Some(Normalization::NFKC))
            } else if string_is(&name, "NFD") {
                Ok(Some(Normalization::NFD))
            } else if string_is(&name, "NFKD") {
                Ok(Some(Normalization::NFKD))
            } else {
                Err(ConfigError::InvalidNormalization(name))
            }
        },
    }
}

impl PyTextFixerConfig {
    /// Builds a configuration from the arguments Python passes. A negative or
    /// zero `max_decode_length` is refused first, then an unknown
    /// `unescape_html` mode, then an unknown normal form; the flags are taken
    /// as given.
    #[allow(clippy::too_many_arguments)]
    pub fn new(
        unescape_html: Option<UnescapeHtml>,
        remove_terminal_escapes: bool,
        fix_encoding: bool,
        restore_byte_a0: bool,
        replace_lossy_sequences: bool,
        decode_inconsistent_utf8: bool,
        fix_c1_controls: bool,
        fix_latin_ligatures: bool,
        fix_character_width: bool,
        uncurl_quotes: bool,
        fix_line_breaks: bool,
        fix_surrogates: bool,
        remove_control_chars: bool,
        normalization: Option<String>,
        max_decode_length: i32,
        explain: bool,
    ) -> (r: Result<Self, ConfigError>)
        ensures
            max_decode_length < 0 ==> r == Err::<Self, ConfigError>(
                ConfigError::NegativeMaxDecodeLength,
            ),
            max_decode_length == 0 ==> r == Err::<Self, ConfigError>(
                ConfigError::ZeroMaxDecodeLength,
            ),
            max_decode_length > 0 && unescape_html_setting(unescape_html) is Err ==> r == Err::<
                Self,
                ConfigError,
            >(unescape_html_setting(unescape_html)->Err_0),
            max_decode_length > 0 && unescape_html_setting(unescape_html) is Ok
                && normalization_setting(normalization) is Err ==> r == Err::<Self, ConfigError>(
                normalization_setting(normalization)->Err_0,
            ),
            r is Ok <==> max_decode_length > 0 && unescape_html_setting(unescape_html) is Ok
                && normalization_setting(normalization) is Ok,
            r matches Ok(c) ==> ({
                &&& c.unescape_html == unescape_html_setting(unescape_html)->Ok_0
                &&& c.normalization == normalization_setting(normalization)->Ok_0
                &&& c.remove_terminal_escapes == remove_terminal_escapes
                &&& c.fix_encoding == fix_encoding
                &&& c.restore_byte_a0 == restore_byte_a0
                &&& c.replace_lossy_sequences == replace_lossy_sequences
                &&& c.decode_inconsistent_utf8 == decode_inconsistent_utf8
                &&& c.fix_c1_controls == fix_c1_controls
                &&& c.fix_latin_ligatures == fix_latin_ligatures
                &&& c.fix_character_width == fix_character_width
                &&& c.uncurl_quotes == uncurl_quotes
                &&& c.fix_line_breaks == fix_line_breaks
                &&& c.fix_surrogates == fix_surrogates
                &&& c.remove_control_chars == remove_control_chars
                &&& c.max_decode_length == max_decode_length
                &&& c.explain == explain
            }),
    {
        if max_decode_length < 0 {
            return Err(ConfigError::NegativeMaxDecodeLength);
        }
        if max_decode_length == 0 {
            return Err(ConfigError::ZeroMaxDecodeLength);
        }
        let unescape_html = parse_unescape_html(unescape_html)?;
        let normalization = parse_normalization(normalization)?;
        Ok(PyTextFixerConfig {
            unescape_html,
            remove_terminal_escapes,
            fix_encoding,
            restore_byte_a0,
            replace_lossy_sequences,
            decode_inconsistent_utf8,
            fix_c1_controls,
            fix_latin_ligatures,
            fix_character_width,
            uncurl_quotes,
            fix_line_breaks,
            fix_surrogates,
            remove_control_chars,
            normalization,
            max_decode_length,
            explain,
        })
    }
}

impl Default for PyTextFixerConfig {
    /// The usual settings: `unescape_html` on "auto", every fix on, NFC,
    /// segments of at most 1,000,000 bytes, and explanations on.
    fn default() -> (r: Self)
        ensures
            r.unescape_html is None,
            r.remove_terminal_escapes,
            r.fix_encoding,
            r.restore_byte_a0,
            r.replace_lossy_sequences,
            r.decode_inconsistent_utf8,
            r.fix_c1_controls,
            r.fix_latin_ligatures,
            r.fix_character_width,
            r.uncurl_quotes,
            r.fix_line_breaks,
            r.fix_surrogates,
            r.remove_control_chars,
            r.normalization == Some(Normalization::NFC),
            r.max_decode_length == 1_000_000,
            r.explain,
    {
        PyTextFixerConfig {
            unescape_html: None,
            remove_terminal_escapes: true,
            fix_encoding: true,
            restore_byte_a0: true,
            replace_lossy_sequences: true,
            decode_inconsistent_utf8: true,
            fix_c1_controls: true,
            fix_latin_ligatures: true,
            fix_character_width: true,
            uncurl_quotes: true,
            fix_line_breaks: true,
            fix_surrogates: true,
            remove_control_chars: true,
            normalization: Some(Normalization::NFC),
            max_decode_length: 1_000_000,
            explain: true,
        }
    }
}

/// The options the text fixer itself takes: those of [`PyTextFixerConfig`]
/// without `fix_surrogates` (which does nothing on Rust strings) and
/// `explain` (which is passed on its own).
#[derive(Debug, Clone)]
pub struct TextFixerConfig {
    pub unescape_html: Option<bool>,
    pub remove_terminal_escapes: bool,
    pub fix_encoding: bool,
    pub restore_byte_a0: bool,
    pub replace_lossy_sequences: bool,
    pub decode_inconsistent_utf8: bool,
    pub fix_c1_controls: bool,
    pub fix_latin_ligatures: bool,
    pub fix_character_width: bool,
    pub uncurl_quotes: bool,
    pub fix_line_breaks: bool,
    pub remove_control_chars: bool,
    pub normalization: Option<Normalization>,
    pub max_decode_length: i32,
}

impl From<PyTextFixerConfig> for TextFixerConfig {
    fn from(config: PyTextFixerConfig) -> (r: Self)
        ensures
            r.unescape_html == config.unescape_html,
            r.remove_terminal_escapes == config.remove_terminal_escapes,
            r.fix_encoding == config.fix_encoding,
            r.restore_byte_a0 == config.restore_byte_a0,
            r.replace_lossy_sequences == config.replace_lossy_sequences,
            r.decode_inconsistent_utf8 == config.decode_inconsistent_utf8,
            r.fix_c1_controls == config.fix_c1_controls,
            r.fix_latin_ligatures == config.fix_latin_ligatures,
            r.fix_character_width == config.fix_character_width,
            r.uncurl_quotes == config.uncurl_quotes,
            r.fix_line_breaks == config.fix_line_breaks,
            r.remove_control_chars == config.remove_control_chars,
            r.normalization == config.normalization,
            r.max_decode_length == config.max_decode_length,
    {
        TextFixerConfig {
            unescape_html: config.unescape_html,
            remove_terminal_escapes: config.remove_terminal_escapes,
            fix_encoding: config.fix_encoding,
            restore_byte_a0: config.restore_byte_a0,
            replace_lossy_sequences: config.replace_lossy_sequences,
            decode_inconsistent_utf8: config.decode_inconsistent_utf8,
            fix_c1_controls: config.fix_c1_controls,
            fix_latin_ligatures: config.fix_latin_ligatures,
            fix_character_width: config.fix_character_width,
            uncurl_quotes: config.uncurl_quotes,
            fix_line_breaks: config.fix_line_breaks,
            remove_control_chars: config.remove_control_chars,
            normalization: config.normalization,
            max_decode_length: config.max_decode_length,
        }
    }
}

impl FromSpecImpl<PyTextFixerConfig> for TextFixerConfig {
    open spec fn obeys_from_spec() -> bool {
        true
    }

    /// Every option carried over as it is.
    open spec fn from_spec(config: PyTextFixerConfig) -> Self {
        TextFixerConfig {
            unescape_html: config.unescape_html,
            remove_terminal_escapes: config.remove_terminal_escapes,
            fix_encoding: config.fix_encoding,
            restore_byte_a0: config.restore_byte_a0,
            replace_lossy_sequences: config.replace_lossy_sequences,
            decode_inconsistent_utf8: config.decode_inconsistent_utf8,
            fix_c1_controls: config.fix_c1_controls,
            fix_latin_ligatures: config.fix_latin_ligatures,
            fix_character_width: config.fix_character_width,
            uncurl_quotes: config.uncurl_quotes,
            fix_line_breaks: config.fix_line_breaks,
            remove_control_chars: config.remove_control_chars,
            normalization: config.normalization,
            max_decode_length: config.max_decode_length,
        }
    }
}

/// Handing the Python options on to the fixer keeps every option as the user
/// gave it: each option of the result is the option of the same name.
pub proof fn law_conversion_keeps_every_option(config: PyTextFixerConfig)
    ensures
        ({
            let r = <TextFixerConfig as FromSpec<PyTextFixerConfig>>::from_spec(config);
            &&& r.unescape_html == config.unescape_html
            &&& r.remove_terminal_escapes == config.remove_terminal_escapes
            &&& r.fix_encoding == config.fix_encoding
            &&& r.restore_byte_a0 == config.restore_byte_a0
            &&& r.replace_lossy_sequences == config.replace_lossy_sequences
            &&& r.decode_inconsistent_utf8 == config.decode_inconsistent_utf8
            &&& r.fix_c1_controls == config.fix_c1_controls
            &&& r.fix_latin_ligatures == config.fix_latin_ligatures
            &&& r.fix_character_width == config.fix_character_width
            &&& r.uncurl_quotes == config.uncurl_quotes
            &&& r.fix_line_breaks == config.fix_line_breaks
            &&& r.remove_control_chars == config.remove_control_chars
            &&& r.normalization == config.normalization
            &&& r.max_decode_length == config.max_decode_length
        }),
{
}

/// One named transformation that fixing applied.
#[derive(Debug, Clone)]
pub struct PyExplanationStep {
    pub transformation: String,
}

impl PyExplanationStep {
    /// The name of the transformation.
    pub fn transformation(&self) -> (r: String)
        ensures
            r@ == self.transformation@,
    {
        self.transformation.clone()
    }
}

/// Fixed text, with the steps that produced it when they were asked for.
#[derive(Debug, Clone)]
pub struct PyExplainedText {
    pub text: String,
    pub steps: Option<Vec<PyExplanationStep>>,
}

impl PyExplainedText {
    /// The fixed text.
    pub fn text(&self) -> (r: String)
        ensures
            r@ == self.text@,
    {
        self.text.clone()
    }

    /// A copy of the steps, in order.
    pub fn steps(&self) -> (r: Option<Vec<PyExplanationStep>>)
        ensures
            r is Some <==> self.steps is Some,
            r matches Some(v) ==> v@.len() == self.steps->0@.len() && forall|i: int|
                0 <= i < v@.len() ==> (#[trigger] v@[i]).transformation@
                    == self.steps->0@[i].transformation@,
    {
        match &self.steps {
            None => None,
            Some(steps) => {
                let mut copy: Vec<PyExplanationStep> = Vec::new();
                for i in 0..steps.len()
                    invariant
                        copy@.len() == i,
                        forall|j: int|
                            0 <= j < i ==> (#[trigger] copy@[j]).transformation@
                                == steps@[j].transformation@,
                {
                    copy.push(PyExplanationStep { transformation: steps[i].transformation() });
                }
                Some(copy)
            },
        }
    }
}

} // verus!
