use dprint_plugin_stylua::config::CallParentheses;
use dprint_plugin_stylua::config::CollapsePolicy;
use dprint_plugin_stylua::config::ConfigValue;
use dprint_plugin_stylua::config::DiagnosticKind;
use dprint_plugin_stylua::config::GlobalDefaults;
use dprint_plugin_stylua::config::NewLineKind;
use dprint_plugin_stylua::config::QuotePreference;
use dprint_plugin_stylua::config::RawConfig;
use dprint_plugin_stylua::config::resolve;
use dprint_plugin_stylua::StyluaPluginHandler;

fn raw(pairs: Vec<(&str, ConfigValue)>) -> RawConfig {
    let mut r = RawConfig::new();
    for (k, v) in pairs {
        r.insert(k.to_string(), v);
    }
    r
}

#[test]
fn valid_known_keys_resolve_exactly() {
    let r = raw(vec![
        ("lineWidth", ConfigValue::Int(100)),
        ("useTabs", ConfigValue::Bool(true)),
        ("indentWidth", ConfigValue::Int(8)),
        ("newLineKind", ConfigValue::Str("crlf".to_string())),
        ("verify", ConfigValue::Bool(true)),
        ("quoteStyle", ConfigValue::Str("ForceSingle".to_string())),
        ("callParentheses", ConfigValue::Str("Input".to_string())),
        ("collapseSimpleStatement", ConfigValue::Str("Always".to_string())),
        ("sortRequires", ConfigValue::Bool(true)),
    ]);
    let out = resolve(r, &GlobalDefaults::empty());
    assert_eq!(out.diagnostics.len(), 0);
    assert_eq!(out.config.line_width, 100);
    assert!(out.config.use_tabs);
    assert_eq!(out.config.indent_width, 8);
    assert_eq!(out.config.new_line_kind, NewLineKind::CarriageReturnLineFeed);
    assert!(out.config.verify);
    assert_eq!(out.config.quote_style, QuotePreference::ForceSingle);
    assert_eq!(out.config.call_parentheses, CallParentheses::Input);
    assert_eq!(out.config.collapse_simple_statement, CollapsePolicy::Always);
    assert!(out.config.sort_requires);
}

#[test]
fn empty_config_empty_globals_gives_documented_defaults() {
    let out = resolve(RawConfig::new(), &GlobalDefaults::empty());
    assert_eq!(out.diagnostics.len(), 0);
    assert_eq!(out.config.line_width, 120);
    assert!(!out.config.use_tabs);
    assert_eq!(out.config.indent_width, 2);
    assert_eq!(out.config.new_line_kind, NewLineKind::LineFeed);
    assert!(!out.config.verify);
    assert_eq!(out.config.quote_style, QuotePreference::AutoPreferDouble);
    assert_eq!(out.config.call_parentheses, CallParentheses::Always);
    assert_eq!(out.config.collapse_simple_statement, CollapsePolicy::Never);
    assert!(!out.config.sort_requires);
}

#[test]
fn unknown_key_reports_one_diagnostic_and_is_inert() {
    let r = raw(vec![
        ("lineWidth", ConfigValue::Int(80)),
        ("unknownKey", ConfigValue::Int(1)),
    ]);
    let mut handler = StyluaPluginHandler;
    let global = GlobalDefaults {
        line_width: Some(120),
        use_tabs: None,
        indent_width: None,
        new_line_kind: None,
    };
    let out = handler.resolve_config(r, &global);
    assert_eq!(out.config.line_width, 80);
    assert_eq!(out.diagnostics.len(), 1);
    assert_eq!(out.diagnostics[0].property_name, "unknownKey");
    assert_eq!(out.diagnostics[0].kind, DiagnosticKind::UnknownProperty);
}

#[test]
fn global_defaults_flow_through() {
    let global = GlobalDefaults {
        line_width: None,
        use_tabs: Some(true),
        indent_width: None,
        new_line_kind: None,
    };
    let out = resolve(RawConfig::new(), &global);
    assert_eq!(out.diagnostics.len(), 0);
    assert!(out.config.use_tabs);
    assert_eq!(out.config.quote_style, QuotePreference::AutoPreferDouble);
}

#[test]
fn numeric_strings_convert() {
    let r = raw(vec![
        ("lineWidth", ConfigValue::Str("96".to_string())),
        ("indentWidth", ConfigValue::Str("+4".to_string())),
    ]);
    let out = resolve(r, &GlobalDefaults::empty());
    assert_eq!(out.diagnostics.len(), 0);
    assert_eq!(out.config.line_width, 96);
    assert_eq!(out.config.indent_width, 4);

    let r = raw(vec![("lineWidth", ConfigValue::Str("080".to_string()))]);
    let out = resolve(r, &GlobalDefaults::empty());
    assert_eq!(out.config.line_width, 80);
    assert_eq!(out.diagnostics.len(), 0);
}

#[test]
fn invalid_values_fall_back_with_diagnostics() {
    let r = raw(vec![
        ("lineWidth", ConfigValue::Str("abc".to_string())),
        ("useTabs", ConfigValue::Int(1)),
        ("indentWidth", ConfigValue::Int(300)),
        ("newLineKind", ConfigValue::Str("something".to_string())),
        ("quoteStyle", ConfigValue::Bool(true)),
    ]);
    let out = resolve(r, &GlobalDefaults::empty());
    assert_eq!(out.diagnostics.len(), 5);
    for d in &out.diagnostics {
        assert_eq!(d.kind, DiagnosticKind::InvalidValue);
    }
    assert_eq!(out.diagnostics[0].property_name, "lineWidth");
    assert_eq!(out.diagnostics[1].property_name, "useTabs");
    assert_eq!(out.diagnostics[2].property_name, "indentWidth");
    assert_eq!(out.diagnostics[3].property_name, "newLineKind");
    assert_eq!(out.diagnostics[4].property_name, "quoteStyle");
    assert_eq!(out.config.line_width, 120);
    assert!(!out.config.use_tabs);
    assert_eq!(out.config.indent_width, 2);
    assert_eq!(out.config.new_line_kind, NewLineKind::LineFeed);
    assert_eq!(out.config.quote_style, QuotePreference::AutoPreferDouble);
}

#[test]
fn out_of_range_numbers_are_invalid() {
    let r = raw(vec![
        ("lineWidth", ConfigValue::Str("4294967296".to_string())),
        ("indentWidth", ConfigValue::Str("256".to_string())),
    ]);
    let out = resolve(r, &GlobalDefaults::empty());
    assert_eq!(out.diagnostics.len(), 2);
    assert_eq!(out.config.line_width, 120);
    assert_eq!(out.config.indent_width, 2);

    let r = raw(vec![("lineWidth", ConfigValue::Str("4294967295".to_string()))]);
    let out = resolve(r, &GlobalDefaults::empty());
    assert_eq!(out.diagnostics.len(), 0);
    assert_eq!(out.config.line_width, 4294967295);

    let r = raw(vec![("lineWidth", ConfigValue::Int(-1))]);
    let out = resolve(r, &GlobalDefaults::empty());
    assert_eq!(out.diagnostics.len(), 1);
    assert_eq!(out.config.line_width, 120);
}

#[test]
fn bool_strings_convert() {
    let r = raw(vec![
        ("useTabs", ConfigValue::Str("true".to_string())),
        ("verify", ConfigValue::Str("false".to_string())),
    ]);
    let out = resolve(r, &GlobalDefaults::empty());
    assert_eq!(out.diagnostics.len(), 0);
    assert!(out.config.use_tabs);
    assert!(!out.config.verify);
}

#[test]
fn call_parentheses_none_tag() {
    let r = raw(vec![("callParentheses", ConfigValue::Str("None".to_string()))]);
    let out = resolve(r, &GlobalDefaults::empty());
    assert_eq!(out.diagnostics.len(), 0);
    assert_eq!(out.config.call_parentheses, CallParentheses::NoSingleTableOrString);
}

#[test]
fn invalid_diagnostics_come_before_unknown_ones() {
    let r = raw(vec![
        ("zebraKey", ConfigValue::Int(1)),
        ("lineWidth", ConfigValue::Str("abc".to_string())),
    ]);
    let out = resolve(r, &GlobalDefaults::empty());
    assert_eq!(out.diagnostics.len(), 2);
    assert_eq!(out.diagnostics[0].property_name, "lineWidth");
    assert_eq!(out.diagnostics[0].kind, DiagnosticKind::InvalidValue);
    assert_eq!(out.diagnostics[1].property_name, "zebraKey");
    assert_eq!(out.diagnostics[1].kind, DiagnosticKind::UnknownProperty);
}

#[test]
fn file_matching_claims_lua_only() {
    let out = resolve(RawConfig::new(), &GlobalDefaults::empty());
    assert_eq!(out.file_matching.file_extensions, vec!["lua".to_string()]);
    assert!(out.file_matching.file_names.is_empty());
}

#[test]
fn plugin_info_is_static() {
    let mut handler = StyluaPluginHandler;
    let info = handler.plugin_info();
    assert_eq!(info.name, "dprint-plugin-stylua");
    assert_eq!(info.config_key, "stylua");
    assert_eq!(info.config_schema_url, "");
    assert!(info.update_url.is_some());
    assert!(!handler.license_text().is_empty());
}
