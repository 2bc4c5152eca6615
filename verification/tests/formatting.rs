use dprint_plugin_stylua::config::GlobalDefaults;
use dprint_plugin_stylua::config::NewLineKind;
use dprint_plugin_stylua::config::RawConfig;
use dprint_plugin_stylua::config::ResolvedConfiguration;
use dprint_plugin_stylua::config::resolve;
use dprint_plugin_stylua::format::format_bytes;
use dprint_plugin_stylua::format::resolve_line_ending;
use dprint_plugin_stylua::format::EngineErrorKind;
use dprint_plugin_stylua::format::FormatError;
use dprint_plugin_stylua::format::LineEnding;
use dprint_plugin_stylua::StyluaPluginHandler;

fn default_config() -> ResolvedConfiguration {
    resolve(RawConfig::new(), &GlobalDefaults::empty()).config
}

#[test]
fn newline_autodetection() {
    let crlf_text = b"local x = 1\r\nlocal y = 2\n".to_vec();
    assert_eq!(resolve_line_ending(NewLineKind::Auto, &crlf_text), LineEnding::Windows);

    let lf_text = b"local x = 1\nlocal y = 2\r\n".to_vec();
    assert_eq!(resolve_line_ending(NewLineKind::Auto, &lf_text), LineEnding::Unix);

    let no_newline = b"local x = 1".to_vec();
    assert_eq!(resolve_line_ending(NewLineKind::Auto, &no_newline), LineEnding::Unix);

    let empty = Vec::new();
    assert_eq!(resolve_line_ending(NewLineKind::Auto, &empty), LineEnding::Unix);
}

#[test]
fn explicit_newline_kind_wins() {
    let crlf_text = b"local x = 1\r\n".to_vec();
    assert_eq!(resolve_line_ending(NewLineKind::LineFeed, &crlf_text), LineEnding::Unix);
    let lf_text = b"local x = 1\n".to_vec();
    assert_eq!(
        resolve_line_ending(NewLineKind::CarriageReturnLineFeed, &lf_text),
        LineEnding::Windows
    );
}

#[test]
fn format_rewrites_messy_input() {
    let config = default_config();
    let input = b"local   x=1".to_vec();
    let out = format_bytes(&input, &config).unwrap();
    let bytes = out.expect("formatting must change this input");
    assert_eq!(String::from_utf8(bytes).unwrap(), "local x = 1\n");
}

#[test]
fn format_reports_no_change_for_formatted_input() {
    let config = default_config();
    let input = b"local x = 1\n".to_vec();
    let out = format_bytes(&input, &config).unwrap();
    assert!(out.is_none());
}

#[test]
fn formatting_is_stable_under_reapplication() {
    let mut config = default_config();
    config.verify = true;
    let input = b"local   x   =   1\nlocal function  f( a,b )  return a+b end".to_vec();
    let first = format_bytes(&input, &config)
        .unwrap()
        .expect("first pass must change the input");
    let second = format_bytes(&first, &config).unwrap();
    assert!(second.is_none(), "second pass must report no change");
}

#[test]
fn auto_detected_crlf_is_kept() {
    let mut config = default_config();
    config.new_line_kind = NewLineKind::Auto;
    let input = b"local x = 1\r\nlocal y = 2\r\n".to_vec();
    let out = format_bytes(&input, &config).unwrap();
    assert!(out.is_none(), "already formatted CRLF input must be unchanged");

    let messy = b"local   x=1\r\nlocal  y =2\r\n".to_vec();
    let bytes = format_bytes(&messy, &config).unwrap().unwrap();
    assert_eq!(String::from_utf8(bytes).unwrap(), "local x = 1\r\nlocal y = 2\r\n");
}

#[test]
fn forced_crlf_is_applied() {
    let mut config = default_config();
    config.new_line_kind = NewLineKind::CarriageReturnLineFeed;
    let input = b"local   x=1\n".to_vec();
    let bytes = format_bytes(&input, &config).unwrap().unwrap();
    assert_eq!(String::from_utf8(bytes).unwrap(), "local x = 1\r\n");
}

#[test]
fn invalid_utf8_is_a_decoding_error() {
    let config = default_config();
    let input = vec![0xff, 0xfe, 0x00];
    let out = format_bytes(&input, &config);
    assert_eq!(out, Err(FormatError::InvalidUtf8));
}

#[test]
fn engine_failure_returns_engine_error_and_no_bytes() {
    let mut config = default_config();
    config.verify = true;
    let input = b"local = = broken ((".to_vec();
    let out = format_bytes(&input, &config);
    assert_eq!(out, Err(FormatError::Engine(EngineErrorKind::Parse)));
}

#[test]
fn handler_format_delegates() {
    let mut handler = StyluaPluginHandler;
    let config = default_config();
    let input = b"local   x=1".to_vec();
    let out = handler.format(&input, &config).unwrap().unwrap();
    assert_eq!(String::from_utf8(out).unwrap(), "local x = 1\n");
}

#[test]
fn configured_style_reaches_the_engine() {
    let mut config = default_config();
    config.use_tabs = true;
    config.quote_style = dprint_plugin_stylua::config::QuotePreference::ForceSingle;
    let input = b"if x then\n  y(\"z\")\nend\n".to_vec();
    let bytes = format_bytes(&input, &config).unwrap().unwrap();
    let text = String::from_utf8(bytes).unwrap();
    assert!(text.contains("\ty('z')"), "got: {text:?}");
}
