use vstd::prelude::*;
use vstd::string::StrSliceExecFns;
use vstd::string::StringSliceAdditionalSpecFns;
use vstd::utf8::decode_utf8;
use vstd::utf8::encode_utf8;
use vstd::utf8::valid_utf8;

use crate::config::NewLineKind;
use crate::config::ResolvedConfiguration;

verus! {

/// The line-ending style handed to the formatting engine.
#[derive(Clone, Copy, Debug, PartialEq, Eq, Structural)]
pub enum LineEnding {
    /// `\n`
    Unix,
    /// `\r\n`
    Windows,
}

/// Why the formatting engine rejected a file.
#[derive(Clone, Copy, Debug, PartialEq, Eq, Structural)]
pub enum EngineErrorKind {
    /// The input does not parse as Lua.
    Parse,
    /// The engine's output failed to reparse during verification.
    OutputInvalid,
    /// The engine's output parsed to a different tree during verification.
    OutputDiffers,
}

/// Why a single format call failed; fatal to that file only.
#[derive(Clone, Copy, Debug, PartialEq, Eq, Structural)]
pub enum FormatError {
    /// The file bytes are not valid UTF-8 text.
    InvalidUtf8,
    /// The formatting engine failed.
    Engine(EngineErrorKind),
}

// ------------------------------------------------------------------
// Newline detection
// ------------------------------------------------------------------

/// Whether the first newline sequence of `bytes` is `\r\n`; `false` when
/// the first newline is a bare `\n` or there is no newline at all.
pub open spec fn auto_crlf(bytes: Seq<u8>) -> bool
    decreases bytes.len(),
{
    if bytes.len() == 0 {
        false
    } else if bytes[0] == 10 {
        false
    } else if bytes.len() >= 2 && bytes[0] == 13 && bytes[1] == 10 {
        true
    } else {
        auto_crlf(bytes.skip(1))
    }
}

/// The effective line-ending policy: an explicit kind wins; auto-detection
/// inspects the text for its first newline sequence and falls back to `\n`.
pub open spec fn spec_use_crlf(kind: NewLineKind, bytes: Seq<u8>) -> bool {
    match kind {
        NewLineKind::CarriageReturnLineFeed => true,
        NewLineKind::LineFeed => false,
        NewLineKind::Auto => auto_crlf(bytes),
    }
}

/// Picks the line ending for a file from the configured kind and the file's
/// own bytes.
pub fn resolve_line_ending(kind: NewLineKind, bytes: &Vec<u8>) -> (r: LineEnding)
    ensures
        (r == LineEnding::Windows) == spec_use_crlf(kind, bytes@),
{
    match kind {
        NewLineKind::CarriageReturnLineFeed => LineEnding::Windows,
        NewLineKind::LineFeed => LineEnding::Unix,
        NewLineKind::Auto => {
            let n = bytes.len();
            let mut i: usize = 0;
            proof {
                assert(bytes@.skip(0) =~= bytes@);
            }
            while i < n
                invariant
                    kind == NewLineKind::Auto,
                    0 <= i <= n,
                    n == bytes@.len(),
                    auto_crlf(bytes@) == auto_crlf(bytes@.skip(i as int)),
                decreases n - i,
            {
                let b = bytes[i];
                let ghost tail = bytes@.skip(i as int);
                proof {
                    assert(tail.len() == n - i);
                    assert(tail[0] == bytes@[i as int]);
                    if i + 1 < n {
                        assert(tail[1] == bytes@[i + 1]);
                    }
                }
                if b == 10 {
                    proof {
                        assert(!auto_crlf(tail));
                    }
                    return LineEnding::Unix;
                }
                if b == 13 && i + 1 < n && bytes[i + 1] == 10 {
                    proof {
                        assert(auto_crlf(tail));
                    }
                    return LineEnding::Windows;
                }
                proof {
                    assert(bytes@.skip(i as int).skip(1) =~= bytes@.skip(i + 1));
                }
                i += 1;
            }
            proof {
                assert(bytes@.skip(n as int).len() == 0);
            }
            LineEnding::Unix
        },
    }
}

// ------------------------------------------------------------------
// Trusted boundary to the outside world
// ------------------------------------------------------------------

/// Relies on String::from_utf8: succeeds exactly on valid UTF-8 input and
/// returns the text those bytes decode to.
#[verifier::external_body]
fn decode_text(bytes: &Vec<u8>) -> (r: Option<String>)
    ensures
        r is Some <==> valid_utf8(bytes@),
        r is Some ==> r->0@ == decode_utf8(bytes@) && encode_utf8(r->0@) == bytes@,
{
    match String::from_utf8(bytes.clone()) {
        Ok(s) => Some(s),
        Err(_) => None,
    }
}

/// The formatting engine's verdict for the given input bytes, configuration
/// and line ending: the formatted text, or the error the engine reports.
/// The engine is a pure function of these inputs, in success and failure
/// alike.
pub uninterp spec fn engine_verdict(
    bytes: Seq<u8>,
    config: ResolvedConfiguration,
    ending: LineEnding,
) -> Result<Seq<char>, EngineErrorKind>;

/// The engine's quote-style setting.
#[verifier::external_type_specification]
#[verifier::external_body]
pub struct ExEngineQuoteStyle(stylua_lib::QuoteStyle);

/// The engine's call-parentheses setting.
#[verifier::external_type_specification]
#[verifier::external_body]
pub struct ExCallParenType(stylua_lib::CallParenType);

/// The engine's collapse setting.
#[verifier::external_type_specification]
#[verifier::external_body]
pub struct ExEngineCollapse(stylua_lib::CollapseSimpleStatement);

/// The engine's configuration record.
#[verifier::external_type_specification]
#[verifier::external_body]
pub struct ExConfig(stylua_lib::Config);

/// Converts the library's quote style to the engine's, variant for variant.
#[verifier::external_body]
fn engine_quote_style(q: crate::config::QuotePreference) -> stylua_lib::QuoteStyle {
    match q {
        crate::config::QuotePreference::AutoPreferDouble => stylua_lib::QuoteStyle::AutoPreferDouble,
        crate::config::QuotePreference::AutoPreferSingle => stylua_lib::QuoteStyle::AutoPreferSingle,
        crate::config::QuotePreference::ForceDouble => stylua_lib::QuoteStyle::ForceDouble,
        crate::config::QuotePreference::ForceSingle => stylua_lib::QuoteStyle::ForceSingle,
    }
}

/// Converts the library's call-parentheses policy to the engine's, variant
/// for variant; the engine spells the table-or-string variant `None`.
#[verifier::external_body]
fn engine_call_parentheses(p: crate::config::CallParentheses) -> stylua_lib::CallParenType {
    match p {
        crate::config::CallParentheses::Always => stylua_lib::CallParenType::Always,
        crate::config::CallParentheses::NoSingleString => stylua_lib::CallParenType::NoSingleString,
        crate::config::CallParentheses::NoSingleTable => stylua_lib::CallParenType::NoSingleTable,
        crate::config::CallParentheses::NoSingleTableOrString => stylua_lib::CallParenType::None,
        crate::config::CallParentheses::Input => stylua_lib::CallParenType::Input,
    }
}

/// Converts the library's collapse policy to the engine's, variant for
/// variant.
#[verifier::external_body]
fn engine_collapse(c: crate::config::CollapsePolicy) -> stylua_lib::CollapseSimpleStatement {
    match c {
        crate::config::CollapsePolicy::Never => stylua_lib::CollapseSimpleStatement::Never,
        crate::config::CollapsePolicy::FunctionOnly => stylua_lib::CollapseSimpleStatement::FunctionOnly,
        crate::config::CollapsePolicy::ConditionalOnly => stylua_lib::CollapseSimpleStatement::ConditionalOnly,
        crate::config::CollapsePolicy::Always => stylua_lib::CollapseSimpleStatement::Always,
    }
}

/// The engine's line-endings setting.
#[verifier::external_type_specification]
#[verifier::external_body]
pub struct ExLineEndings(stylua_lib::LineEndings);

/// The engine's indentation-type setting.
#[verifier::external_type_specification]
#[verifier::external_body]
pub struct ExIndentType(stylua_lib::IndentType);

/// Converts the chosen line ending to the engine's, variant for variant.
#[verifier::external_body]
fn engine_line_endings(ending: LineEnding) -> stylua_lib::LineEndings {
    match ending {
        LineEnding::Unix => stylua_lib::LineEndings::Unix,
        LineEnding::Windows => stylua_lib::LineEndings::Windows,
    }
}

/// Converts the indentation choice to the engine's indent type: tabs or
/// spaces.
#[verifier::external_body]
fn engine_indent_type(use_tabs: bool) -> stylua_lib::IndentType {
    match use_tabs {
        true => stylua_lib::IndentType::Tabs,
        false => stylua_lib::IndentType::Spaces,
    }
}

/// Relies on stylua_lib::Config: builds the engine's configuration value,
/// field for field, from the resolved configuration and the chosen line
/// ending; fields this library does not configure keep the engine default.
#[verifier::external_body]
fn engine_config(config: &ResolvedConfiguration, ending: LineEnding) -> stylua_lib::Config {
    stylua_lib::Config {
        column_width: config.line_width as usize,
        line_endings: engine_line_endings(ending),
        indent_type: engine_indent_type(config.use_tabs),
        indent_width: config.indent_width as usize,
        quote_style: engine_quote_style(config.quote_style),
        call_parentheses: engine_call_parentheses(config.call_parentheses),
        collapse_simple_statement: engine_collapse(config.collapse_simple_statement),
        sort_requires: stylua_lib::SortRequiresConfig { enabled: config.sort_requires },
        ..stylua_lib::Config::default()
    }
}

/// Relies on stylua_lib::format_code: whether it succeeds, the text it
/// produces, and the error it reports are all deterministic in the text
/// and configuration alone; full output verification is requested when
/// `config.verify` is set, and each error variant is mapped to its
/// counterpart kind, one arm each.
#[verifier::external_body]
fn engine_format(text: &str, config: &ResolvedConfiguration, ending: LineEnding) -> (r: Result<
    String,
    EngineErrorKind,
>)
    ensures
        r is Ok <==> engine_verdict(text.spec_bytes(), *config, ending) is Ok,
        r is Ok ==> r->Ok_0@ == engine_verdict(text.spec_bytes(), *config, ending)->Ok_0,
        r is Err ==> r->Err_0 == engine_verdict(text.spec_bytes(), *config, ending)->Err_0,
{
    let verification = match config.verify {
        true => stylua_lib::OutputVerification::Full,
        false => stylua_lib::OutputVerification::None,
    };
    match stylua_lib::format_code(text, engine_config(config, ending), None, verification) {
        Ok(out) => Ok(out),
        Err(stylua_lib::Error::ParseError(_)) => Err(EngineErrorKind::Parse),
        Err(stylua_lib::Error::VerificationAstError(_)) => Err(EngineErrorKind::OutputInvalid),
        Err(stylua_lib::Error::VerificationAstDifference) => Err(EngineErrorKind::OutputDiffers),
    }
}

// ------------------------------------------------------------------
// The verified format adapter
// ------------------------------------------------------------------

/// Decides what a format call reports once the engine has answered: no
/// change when the output equals the original text, otherwise the new
/// bytes; an engine error passes through as a format error.
pub fn finish_format(original: &String, outcome: Result<String, EngineErrorKind>) -> (r: Result<
    Option<Vec<u8>>,
    FormatError,
>)
    ensures
        match outcome {
            Ok(out) => match r {
                Ok(change) => match change {
                    Some(bytes) => out@ != original@ && bytes@ == encode_utf8(out@),
                    None => out@ == original@,
                },
                Err(_) => false,
            },
            Err(kind) => r == Err::<Option<Vec<u8>>, FormatError>(FormatError::Engine(kind)),
        },
{
    match outcome {
        Ok(out) => {
            if out == *original {
                Ok(None)
            } else {
                Ok(Some(out.as_str().as_bytes_vec()))
            }
        },
        Err(kind) => Err(FormatError::Engine(kind)),
    }
}

/// The line ending chosen for a file, from the configured kind and the
/// file's own bytes.
pub open spec fn spec_ending(config: ResolvedConfiguration, bytes: Seq<u8>) -> LineEnding {
    if spec_use_crlf(config.new_line_kind, bytes) {
        LineEnding::Windows
    } else {
        LineEnding::Unix
    }
}

/// What a format call returns, as a function of the file bytes and the
/// resolved configuration alone: a decoding error on invalid UTF-8, the
/// engine's error when it fails, no change when its output equals the
/// input text, and the re-encoded output otherwise.
pub open spec fn spec_format(bytes: Seq<u8>, config: ResolvedConfiguration) -> Result<
    Option<Seq<u8>>,
    FormatError,
> {
    if !valid_utf8(bytes) {
        Err(FormatError::InvalidUtf8)
    } else {
        match engine_verdict(bytes, config, spec_ending(config, bytes)) {
            Ok(out) => if out == decode_utf8(bytes) {
                Ok(None)
            } else {
                Ok(Some(encode_utf8(out)))
            },
            Err(kind) => Err(FormatError::Engine(kind)),
        }
    }
}

/// Law: a file that is already correctly formatted — the engine's verdict
/// on its text is success with the text unchanged — is reported as "no
/// change". Together with the contract of [`format_bytes`], which pins the
/// returned value to [`spec_format`], such a call returns `Ok(None)`.
pub proof fn lemma_formatted_file_unchanged(bytes: Seq<u8>, config: ResolvedConfiguration)
    requires
        valid_utf8(bytes),
        engine_verdict(bytes, config, spec_ending(config, bytes)) == Ok::<Seq<char>, EngineErrorKind>(
            decode_utf8(bytes),
        ),
    ensures
        spec_format(bytes, config) == Ok::<Option<Seq<u8>>, FormatError>(None),
{
}

/// Formats one file: decodes the bytes, settles the line-ending policy,
/// runs the engine, and reports either "no change", the new bytes, or the
/// error for this file — exactly as [`spec_format`] prescribes.
pub fn format_bytes(file_bytes: &Vec<u8>, config: &ResolvedConfiguration) -> (r: Result<
    Option<Vec<u8>>,
    FormatError,
>)
    ensures
        match r {
            Ok(change) => match change {
                Some(bytes) => spec_format(file_bytes@, *config) == Ok::<
                    Option<Seq<u8>>,
                    FormatError,
                >(Some(bytes@)),
                None => spec_format(file_bytes@, *config) == Ok::<Option<Seq<u8>>, FormatError>(
                    None,
                ),
            },
            Err(e) => spec_format(file_bytes@, *config) == Err::<Option<Seq<u8>>, FormatError>(e),
        },
{
    let text = match decode_text(file_bytes) {
        Some(t) => t,
        None => {
            return Err(FormatError::InvalidUtf8);
        },
    };
    proof {
        assert(encode_utf8(text@) == file_bytes@);
    }
    let ending = resolve_line_ending(config.new_line_kind, file_bytes);
    proof {
        assert(ending == spec_ending(*config, file_bytes@));
    }
    let outcome = engine_format(text.as_str(), config, ending);
    finish_format(&text, outcome)
}

} // verus!
