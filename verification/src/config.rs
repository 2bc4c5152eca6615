use vstd::prelude::*;
use vstd::string::StrSliceExecFns;

verus! {

/// How line endings are chosen when writing formatted output.
#[derive(Clone, Copy, Debug, PartialEq, Eq, Structural)]
pub enum NewLineKind {
    /// Detect the style from the first newline of the input text.
    Auto,
    /// Always use `\n`.
    LineFeed,
    /// Always use `\r\n`.
    CarriageReturnLineFeed,
}

/// The style of quotes to use within string literals.
#[derive(Clone, Copy, Debug, PartialEq, Eq, Structural)]
pub enum QuotePreference {
    /// Prefer double quotes, switching to single quotes when that saves escapes.
    AutoPreferDouble,
    /// Prefer single quotes, switching to double quotes when that saves escapes.
    AutoPreferSingle,
    /// Always use double quotes.
    ForceDouble,
    /// Always use single quotes.
    ForceSingle,
}

/// When parentheses around single-argument calls are kept.
#[derive(Clone, Copy, Debug, PartialEq, Eq, Structural)]
pub enum CallParentheses {
    /// Always keep call parentheses.
    Always,
    /// Omit parentheses when the only argument is a string literal.
    NoSingleString,
    /// Omit parentheses when the only argument is a table.
    NoSingleTable,
    /// Omit parentheses when the only argument is a table or a string literal.
    NoSingleTableOrString,
    /// Keep parentheses exactly as they appear in the input.
    Input,
}

/// Which simple statements may be collapsed onto a single line.
#[derive(Clone, Copy, Debug, PartialEq, Eq, Structural)]
pub enum CollapsePolicy {
    /// Never collapse.
    Never,
    /// Collapse simple functions only.
    FunctionOnly,
    /// Collapse simple conditionals only.
    ConditionalOnly,
    /// Collapse both simple functions and conditionals.
    Always,
}

/// An untyped scalar taken from raw host configuration.
#[derive(Clone, Debug)]
pub enum ConfigValue {
    Str(String),
    Int(i32),
    Bool(bool),
}

/// Mathematical model of a [`ConfigValue`].
pub enum ConfigValueV {
    Str(Seq<char>),
    Int(int),
    Bool(bool),
}

impl View for ConfigValue {
    type V = ConfigValueV;

    open spec fn view(&self) -> ConfigValueV {
        match self {
            ConfigValue::Str(s) => ConfigValueV::Str(s@),
            ConfigValue::Int(n) => ConfigValueV::Int(*n as int),
            ConfigValue::Bool(b) => ConfigValueV::Bool(*b),
        }
    }
}

/// One key/value pair of raw host configuration.
#[derive(Clone, Debug)]
pub struct ConfigEntry {
    pub key: String,
    pub value: ConfigValue,
}

/// Mathematical model of a [`ConfigEntry`].
pub struct EntryV {
    pub key: Seq<char>,
    pub value: ConfigValueV,
}

impl View for ConfigEntry {
    type V = EntryV;

    open spec fn view(&self) -> EntryV {
        EntryV { key: self.key@, value: self.value@ }
    }
}

/// Raw configuration handed over by the host: a mapping from key to scalar
/// value, with unique keys, in the order the host supplied them.
#[derive(Clone, Debug)]
pub struct RawConfig {
    pub entries: Vec<ConfigEntry>,
}

impl View for RawConfig {
    type V = Seq<EntryV>;

    open spec fn view(&self) -> Seq<EntryV> {
        self.entries@.map_values(|e: ConfigEntry| e@)
    }
}

/// Every key occurs at most once.
pub open spec fn unique_keys(s: Seq<EntryV>) -> bool {
    forall|i: int, j: int| 0 <= i < j < s.len() ==> s[i].key != s[j].key
}

/// The value stored under `key`, taking the first match.
pub open spec fn lookup(s: Seq<EntryV>, key: Seq<char>) -> Option<ConfigValueV>
    decreases s.len(),
{
    if s.len() == 0 {
        None
    } else if s[0].key == key {
        Some(s[0].value)
    } else {
        lookup(s.skip(1), key)
    }
}

pub proof fn lemma_lookup_none_iff(s: Seq<EntryV>, key: Seq<char>)
    ensures
        lookup(s, key) is None <==> (forall|i: int| 0 <= i < s.len() ==> s[i].key != key),
    decreases s.len(),
{
    if s.len() > 0 {
        lemma_lookup_none_iff(s.skip(1), key);
        assert(forall|i: int| 0 <= i < s.skip(1).len() ==> s.skip(1)[i] == s[i + 1]);
        if s[0].key != key && (forall|i: int| 0 <= i < s.skip(1).len() ==> s.skip(1)[i].key != key) {
            assert forall|i: int| 0 <= i < s.len() implies s[i].key != key by {
                if i > 0 {
                    assert(s.skip(1)[i - 1].key != key);
                }
            }
        }
    }
}

pub proof fn lemma_lookup_at(s: Seq<EntryV>, key: Seq<char>, i: int)
    requires
        0 <= i < s.len(),
        s[i].key == key,
        forall|j: int| 0 <= j < i ==> s[j].key != key,
    ensures
        lookup(s, key) == Some(s[i].value),
    decreases i,
{
    if i > 0 {
        assert(forall|j: int| 0 <= j < s.skip(1).len() ==> s.skip(1)[j] == s[j + 1]);
        lemma_lookup_at(s.skip(1), key, i - 1);
    }
}

/// The nine configuration keys this formatter understands.
pub open spec fn is_known_key(k: Seq<char>) -> bool {
    ||| k == "lineWidth"@
    ||| k == "useTabs"@
    ||| k == "indentWidth"@
    ||| k == "newLineKind"@
    ||| k == "verify"@
    ||| k == "quoteStyle"@
    ||| k == "callParentheses"@
    ||| k == "collapseSimpleStatement"@
    ||| k == "sortRequires"@
}

// ------------------------------------------------------------------
// Decimal parsing of string-typed values
// ------------------------------------------------------------------

pub open spec fn is_dec_digit(c: char) -> bool {
    48 <= c as int <= 57
}

pub open spec fn all_dec_digits(s: Seq<char>) -> bool {
    forall|i: int| 0 <= i < s.len() ==> is_dec_digit(#[trigger] s[i])
}

/// Value of a pure digit string, most significant digit first.
pub open spec fn dec_val(s: Seq<char>) -> int
    decreases s.len(),
{
    if s.len() == 0 {
        0
    } else {
        dec_val(s.drop_last()) * 10 + (s.last() as int - 48)
    }
}

/// The digits of a decimal string, past an optional leading `+`.
pub open spec fn digits_part(s: Seq<char>) -> Seq<char> {
    if s.len() > 0 && s[0] == '+' {
        s.skip(1)
    } else {
        s
    }
}

/// The numeric value of a decimal string, if it is one: an optional `+`,
/// then one or more digits.
pub open spec fn dec_str_val(s: Seq<char>) -> Option<int> {
    let d = digits_part(s);
    if d.len() > 0 && all_dec_digits(d) {
        Some(dec_val(d))
    } else {
        None
    }
}

pub proof fn lemma_dec_val_nonneg(s: Seq<char>)
    requires
        all_dec_digits(s),
    ensures
        dec_val(s) >= 0,
    decreases s.len(),
{
    if s.len() > 0 {
        assert(all_dec_digits(s.drop_last())) by {
            assert(forall|i: int| 0 <= i < s.len() - 1 ==> s.drop_last()[i] == s[i]);
        }
        lemma_dec_val_nonneg(s.drop_last());
    }
}

/// Parses `s` as a decimal number no greater than `max`, exactly as
/// [`dec_str_val`] reads it.
fn parse_dec(s: &String, max: u32) -> (r: Option<u32>)
    ensures
        r == (match dec_str_val(s@) {
            Some(n) => if n <= max as int { Some(n as u32) } else { None::<u32> },
            None => None::<u32>,
        }),
{
    let st = s.as_str();
    let n = st.unicode_len();
    let start: usize = if n > 0 && st.get_char(0) == '+' {
        1
    } else {
        0
    };
    let ghost d: Seq<char> = digits_part(s@);
    proof {
        assert(d =~= s@.skip(start as int));
    }
    if start == n {
        return None;
    }
    let mut acc: u64 = 0;
    let mut over: bool = false;
    let mut i: usize = start;
    while i < n
        invariant
            start <= i <= n,
            n == s@.len(),
            st@ == s@,
            d == s@.skip(start as int),
            d == digits_part(s@),
            start < n,
            all_dec_digits(s@.subrange(start as int, i as int)),
            !over ==> acc == dec_val(s@.subrange(start as int, i as int)) && acc <= max as u64,
            over ==> dec_val(s@.subrange(start as int, i as int)) > max as int,
            max <= u32::MAX,
        decreases n - i,
    {
        let c = st.get_char(i);
        let cv = c as u32;
        proof {
            assert(c == s@[i as int]);
            assert(cv as int == c as int);
        }
        if cv < 48 || cv > 57 {
            proof {
                assert(!is_dec_digit(s@[i as int]));
                assert(d[i - start as int] == s@[i as int]);
                assert(!all_dec_digits(d));
            }
            return None;
        }
        let ghost prev = s@.subrange(start as int, i as int);
        let ghost cur = s@.subrange(start as int, i + 1);
        proof {
            assert(cur.drop_last() =~= prev);
            assert(cur.last() == s@[i as int]);
            assert(is_dec_digit(s@[i as int]));
            assert forall|j: int| 0 <= j < cur.len() implies is_dec_digit(#[trigger] cur[j]) by {
                if j < cur.len() - 1 {
                    assert(cur[j] == prev[j]);
                } else {
                    assert(cur[j] == s@[i as int]);
                }
            }
        }
        let dv = (cv - 48) as u64;
        if !over {
            acc = acc * 10 + dv;
            if acc > max as u64 {
                over = true;
            }
        } else {
            proof {
                lemma_dec_val_nonneg(prev);
            }
        }
        i += 1;
    }
    proof {
        assert(s@.subrange(start as int, n as int) =~= d);
    }
    if over {
        None
    } else {
        Some(acc as u32)
    }
}

fn string_eq_lit(s: &String, lit: &str) -> (r: bool)
    ensures
        r == (s@ == lit@),
{
    let owned: String = lit.to_owned();
    *s == owned
}

// ------------------------------------------------------------------
// Per-field conversion of raw scalars
// ------------------------------------------------------------------

/// How a raw scalar converts to a width/line-length value.
pub open spec fn converted_u32(v: ConfigValueV) -> Option<u32> {
    match v {
        ConfigValueV::Int(n) => if 0 <= n <= u32::MAX {
            Some(n as u32)
        } else {
            None
        },
        ConfigValueV::Str(s) => match dec_str_val(s) {
            Some(n) => if n <= u32::MAX {
                Some(n as u32)
            } else {
                None
            },
            None => None,
        },
        ConfigValueV::Bool(_) => None,
    }
}

/// How a raw scalar converts to an indentation-width value.
pub open spec fn converted_u8(v: ConfigValueV) -> Option<u8> {
    match v {
        ConfigValueV::Int(n) => if 0 <= n <= u8::MAX {
            Some(n as u8)
        } else {
            None
        },
        ConfigValueV::Str(s) => match dec_str_val(s) {
            Some(n) => if n <= u8::MAX {
                Some(n as u8)
            } else {
                None
            },
            None => None,
        },
        ConfigValueV::Bool(_) => None,
    }
}

/// How a raw scalar converts to a boolean value.
pub open spec fn converted_bool(v: ConfigValueV) -> Option<bool> {
    match v {
        ConfigValueV::Bool(b) => Some(b),
        ConfigValueV::Str(s) => if s == "true"@ {
            Some(true)
        } else if s == "false"@ {
            Some(false)
        } else {
            None
        },
        ConfigValueV::Int(_) => None,
    }
}

/// How a raw scalar converts to a newline kind.
pub open spec fn converted_new_line_kind(v: ConfigValueV) -> Option<NewLineKind> {
    match v {
        ConfigValueV::Str(s) => if s == "auto"@ {
            Some(NewLineKind::Auto)
        } else if s == "lf"@ {
            Some(NewLineKind::LineFeed)
        } else if s == "crlf"@ {
            Some(NewLineKind::CarriageReturnLineFeed)
        } else {
            None
        },
        _ => None,
    }
}

/// How a raw scalar converts to a quote style.
pub open spec fn converted_quote_style(v: ConfigValueV) -> Option<QuotePreference> {
    match v {
        ConfigValueV::Str(s) => if s == "AutoPreferDouble"@ {
            Some(QuotePreference::AutoPreferDouble)
        } else if s == "AutoPreferSingle"@ {
            Some(QuotePreference::AutoPreferSingle)
        } else if s == "ForceDouble"@ {
            Some(QuotePreference::ForceDouble)
        } else if s == "ForceSingle"@ {
            Some(QuotePreference::ForceSingle)
        } else {
            None
        },
        _ => None,
    }
}

/// How a raw scalar converts to a call-parentheses policy.
pub open spec fn converted_call_parentheses(v: ConfigValueV) -> Option<CallParentheses> {
    match v {
        ConfigValueV::Str(s) => if s == "Always"@ {
            Some(CallParentheses::Always)
        } else if s == "NoSingleString"@ {
            Some(CallParentheses::NoSingleString)
        } else if s == "NoSingleTable"@ {
            Some(CallParentheses::NoSingleTable)
        } else if s == "None"@ {
            Some(CallParentheses::NoSingleTableOrString)
        } else if s == "Input"@ {
            Some(CallParentheses::Input)
        } else {
            None
        },
        _ => None,
    }
}

/// How a raw scalar converts to a collapse policy.
pub open spec fn converted_collapse(v: ConfigValueV) -> Option<CollapsePolicy> {
    match v {
        ConfigValueV::Str(s) => if s == "Never"@ {
            Some(CollapsePolicy::Never)
        } else if s == "FunctionOnly"@ {
            Some(CollapsePolicy::FunctionOnly)
        } else if s == "ConditionalOnly"@ {
            Some(CollapsePolicy::ConditionalOnly)
        } else if s == "Always"@ {
            Some(CollapsePolicy::Always)
        } else {
            None
        },
        _ => None,
    }
}

fn to_u32(v: &ConfigValue) -> (r: Option<u32>)
    ensures
        r == converted_u32(v@),
{
    match v {
        ConfigValue::Int(n) => if *n >= 0 {
            Some(*n as u32)
        } else {
            None
        },
        ConfigValue::Str(s) => parse_dec(s, u32::MAX),
        ConfigValue::Bool(_) => None,
    }
}

fn to_u8(v: &ConfigValue) -> (r: Option<u8>)
    ensures
        r == converted_u8(v@),
{
    match v {
        ConfigValue::Int(n) => if *n >= 0 && *n <= 255 {
            Some(*n as u8)
        } else {
            None
        },
        ConfigValue::Str(s) => match parse_dec(s, 255) {
            Some(n) => {
                proof {
                    lemma_dec_val_nonneg(digits_part(s@));
                }
                Some(n as u8)
            },
            None => None,
        },
        ConfigValue::Bool(_) => None,
    }
}

fn to_bool(v: &ConfigValue) -> (r: Option<bool>)
    ensures
        r == converted_bool(v@),
{
    match v {
        ConfigValue::Bool(b) => Some(*b),
        ConfigValue::Str(s) => if string_eq_lit(s, "true") {
            Some(true)
        } else if string_eq_lit(s, "false") {
            Some(false)
        } else {
            None
        },
        ConfigValue::Int(_) => None,
    }
}

fn to_new_line_kind(v: &ConfigValue) -> (r: Option<NewLineKind>)
    ensures
        r == converted_new_line_kind(v@),
{
    match v {
        ConfigValue::Str(s) => if string_eq_lit(s, "auto") {
            Some(NewLineKind::Auto)
        } else if string_eq_lit(s, "lf") {
            Some(NewLineKind::LineFeed)
        } else if string_eq_lit(s, "crlf") {
            Some(NewLineKind::CarriageReturnLineFeed)
        } else {
            None
        },
        _ => None,
    }
}

fn to_quote_style(v: &ConfigValue) -> (r: Option<QuotePreference>)
    ensures
        r == converted_quote_style(v@),
{
    match v {
        ConfigValue::Str(s) => if string_eq_lit(s, "AutoPreferDouble") {
            Some(QuotePreference::AutoPreferDouble)
        } else if string_eq_lit(s, "AutoPreferSingle") {
            Some(QuotePreference::AutoPreferSingle)
        } else if string_eq_lit(s, "ForceDouble") {
            Some(QuotePreference::ForceDouble)
        } else if string_eq_lit(s, "ForceSingle") {
            Some(QuotePreference::ForceSingle)
        } else {
            None
        },
        _ => None,
    }
}

fn to_call_parentheses(v: &ConfigValue) -> (r: Option<CallParentheses>)
    ensures
        r == converted_call_parentheses(v@),
{
    match v {
        ConfigValue::Str(s) => if string_eq_lit(s, "Always") {
            Some(CallParentheses::Always)
        } else if string_eq_lit(s, "NoSingleString") {
            Some(CallParentheses::NoSingleString)
        } else if string_eq_lit(s, "NoSingleTable") {
            Some(CallParentheses::NoSingleTable)
        } else if string_eq_lit(s, "None") {
            Some(CallParentheses::NoSingleTableOrString)
        } else if string_eq_lit(s, "Input") {
            Some(CallParentheses::Input)
        } else {
            None
        },
        _ => None,
    }
}

// ------------------------------------------------------------------
// Defaults
// ------------------------------------------------------------------

/// Formatter-agnostic defaults supplied by the host; a field left `None`
/// falls back to the fixed recommended default.
#[derive(Clone, Copy, Debug)]
pub struct GlobalDefaults {
    pub line_width: Option<u32>,
    pub use_tabs: Option<bool>,
    pub indent_width: Option<u8>,
    pub new_line_kind: Option<NewLineKind>,
}

impl GlobalDefaults {
    /// Host defaults with every field absent.
    pub fn empty() -> (r: GlobalDefaults)
        ensures
            r.line_width is None,
            r.use_tabs is None,
            r.indent_width is None,
            r.new_line_kind is None,
    {
        GlobalDefaults { line_width: None, use_tabs: None, indent_width: None, new_line_kind: None }
    }
}

pub open spec fn fallback_line_width(g: GlobalDefaults) -> u32 {
    match g.line_width {
        Some(w) => w,
        None => 120,
    }
}

pub open spec fn fallback_use_tabs(g: GlobalDefaults) -> bool {
    match g.use_tabs {
        Some(b) => b,
        None => false,
    }
}

pub open spec fn fallback_indent_width(g: GlobalDefaults) -> u8 {
    match g.indent_width {
        Some(w) => w,
        None => 2,
    }
}

pub open spec fn fallback_new_line_kind(g: GlobalDefaults) -> NewLineKind {
    match g.new_line_kind {
        Some(k) => k,
        None => NewLineKind::LineFeed,
    }
}

/// Engine-specific defaults, used when a key is absent from the raw
/// configuration.
#[derive(Clone, Copy, Debug, PartialEq, Eq, Structural)]
pub struct EngineDefaults {
    pub quote_style: QuotePreference,
    pub call_parentheses: CallParentheses,
    pub collapse_simple_statement: CollapsePolicy,
    pub sort_requires: bool,
}

/// The formatting engine's own default configuration.
pub open spec fn spec_engine_defaults() -> EngineDefaults {
    EngineDefaults {
        quote_style: QuotePreference::AutoPreferDouble,
        call_parentheses: CallParentheses::Always,
        collapse_simple_statement: CollapsePolicy::Never,
        sort_requires: false,
    }
}

impl EngineDefaults {
    /// The defaults of the engine's own configuration type.
    pub fn engine() -> (r: EngineDefaults)
        ensures
            r == spec_engine_defaults(),
    {
        EngineDefaults {
            quote_style: QuotePreference::AutoPreferDouble,
            call_parentheses: CallParentheses::Always,
            collapse_simple_statement: CollapsePolicy::Never,
            sort_requires: false,
        }
    }
}

// ------------------------------------------------------------------
// Diagnostics
// ------------------------------------------------------------------

/// Why a configuration key was flagged.
#[derive(Clone, Copy, Debug, PartialEq, Eq, Structural)]
pub enum DiagnosticKind {
    /// The key is known but its value does not convert to the expected type.
    InvalidValue,
    /// The key is not one this formatter understands.
    UnknownProperty,
}

/// A non-fatal problem found while resolving configuration.
#[derive(Clone, Debug)]
pub struct Diagnostic {
    pub property_name: String,
    pub kind: DiagnosticKind,
}

/// Mathematical model of a [`Diagnostic`].
pub struct DiagnosticV {
    pub property_name: Seq<char>,
    pub kind: DiagnosticKind,
}

impl View for Diagnostic {
    type V = DiagnosticV;

    open spec fn view(&self) -> DiagnosticV {
        DiagnosticV { property_name: self.property_name@, kind: self.kind }
    }
}

pub open spec fn dview(s: Seq<Diagnostic>) -> Seq<DiagnosticV> {
    s.map_values(|d: Diagnostic| d@)
}

pub open spec fn mk_invalid(key: Seq<char>) -> Seq<DiagnosticV> {
    seq![DiagnosticV { property_name: key, kind: DiagnosticKind::InvalidValue }]
}

fn to_collapse(v: &ConfigValue) -> (r: Option<CollapsePolicy>)
    ensures
        r == converted_collapse(v@),
{
    match v {
        ConfigValue::Str(s) => if string_eq_lit(s, "Never") {
            Some(CollapsePolicy::Never)
        } else if string_eq_lit(s, "FunctionOnly") {
            Some(CollapsePolicy::FunctionOnly)
        } else if string_eq_lit(s, "ConditionalOnly") {
            Some(CollapsePolicy::ConditionalOnly)
        } else if string_eq_lit(s, "Always") {
            Some(CollapsePolicy::Always)
        } else {
            None
        },
        _ => None,
    }
}

// ------------------------------------------------------------------
// Field resolution: raw value, else fallback
// ------------------------------------------------------------------

pub open spec fn field_u32(raw: Seq<EntryV>, key: Seq<char>, fb: u32) -> u32 {
    match lookup(raw, key) {
        Some(v) => match converted_u32(v) {
            Some(n) => n,
            None => fb,
        },
        None => fb,
    }
}

pub open spec fn field_u8(raw: Seq<EntryV>, key: Seq<char>, fb: u8) -> u8 {
    match lookup(raw, key) {
        Some(v) => match converted_u8(v) {
            Some(n) => n,
            None => fb,
        },
        None => fb,
    }
}

pub open spec fn field_bool(raw: Seq<EntryV>, key: Seq<char>, fb: bool) -> bool {
    match lookup(raw, key) {
        Some(v) => match converted_bool(v) {
            Some(b) => b,
            None => fb,
        },
        None => fb,
    }
}

pub open spec fn field_new_line_kind(raw: Seq<EntryV>, key: Seq<char>, fb: NewLineKind) -> NewLineKind {
    match lookup(raw, key) {
        Some(v) => match converted_new_line_kind(v) {
            Some(k) => k,
            None => fb,
        },
        None => fb,
    }
}

pub open spec fn field_quote_style(raw: Seq<EntryV>, key: Seq<char>, fb: QuotePreference) -> QuotePreference {
    match lookup(raw, key) {
        Some(v) => match converted_quote_style(v) {
            Some(q) => q,
            None => fb,
        },
        None => fb,
    }
}

pub open spec fn field_call_parentheses(raw: Seq<EntryV>, key: Seq<char>, fb: CallParentheses) -> CallParentheses {
    match lookup(raw, key) {
        Some(v) => match converted_call_parentheses(v) {
            Some(p) => p,
            None => fb,
        },
        None => fb,
    }
}

pub open spec fn field_collapse(raw: Seq<EntryV>, key: Seq<char>, fb: CollapsePolicy) -> CollapsePolicy {
    match lookup(raw, key) {
        Some(v) => match converted_collapse(v) {
            Some(c) => c,
            None => fb,
        },
        None => fb,
    }
}

// Diagnostics owed per known key: one invalid-value entry when the key is
// present but its value does not convert.

pub open spec fn u32_field_diag(raw: Seq<EntryV>, key: Seq<char>) -> Seq<DiagnosticV> {
    match lookup(raw, key) {
        Some(v) => if converted_u32(v) is Some {
            Seq::empty()
        } else {
            mk_invalid(key)
        },
        None => Seq::empty(),
    }
}

pub open spec fn u8_field_diag(raw: Seq<EntryV>, key: Seq<char>) -> Seq<DiagnosticV> {
    match lookup(raw, key) {
        Some(v) => if converted_u8(v) is Some {
            Seq::empty()
        } else {
            mk_invalid(key)
        },
        None => Seq::empty(),
    }
}

pub open spec fn bool_field_diag(raw: Seq<EntryV>, key: Seq<char>) -> Seq<DiagnosticV> {
    match lookup(raw, key) {
        Some(v) => if converted_bool(v) is Some {
            Seq::empty()
        } else {
            mk_invalid(key)
        },
        None => Seq::empty(),
    }
}

pub open spec fn new_line_kind_field_diag(raw: Seq<EntryV>, key: Seq<char>) -> Seq<DiagnosticV> {
    match lookup(raw, key) {
        Some(v) => if converted_new_line_kind(v) is Some {
            Seq::empty()
        } else {
            mk_invalid(key)
        },
        None => Seq::empty(),
    }
}

pub open spec fn quote_style_field_diag(raw: Seq<EntryV>, key: Seq<char>) -> Seq<DiagnosticV> {
    match lookup(raw, key) {
        Some(v) => if converted_quote_style(v) is Some {
            Seq::empty()
        } else {
            mk_invalid(key)
        },
        None => Seq::empty(),
    }
}

pub open spec fn call_parentheses_field_diag(raw: Seq<EntryV>, key: Seq<char>) -> Seq<DiagnosticV> {
    match lookup(raw, key) {
        Some(v) => if converted_call_parentheses(v) is Some {
            Seq::empty()
        } else {
            mk_invalid(key)
        },
        None => Seq::empty(),
    }
}

pub open spec fn collapse_field_diag(raw: Seq<EntryV>, key: Seq<char>) -> Seq<DiagnosticV> {
    match lookup(raw, key) {
        Some(v) => if converted_collapse(v) is Some {
            Seq::empty()
        } else {
            mk_invalid(key)
        },
        None => Seq::empty(),
    }
}

/// The invalid-value diagnostics of the nine known keys, in the order the
/// keys are processed.
pub open spec fn known_diags(raw: Seq<EntryV>) -> Seq<DiagnosticV> {
    u32_field_diag(raw, "lineWidth"@) + bool_field_diag(raw, "useTabs"@) + u8_field_diag(
        raw,
        "indentWidth"@,
    ) + new_line_kind_field_diag(raw, "newLineKind"@) + bool_field_diag(raw, "verify"@)
        + quote_style_field_diag(raw, "quoteStyle"@) + call_parentheses_field_diag(
        raw,
        "callParentheses"@,
    ) + collapse_field_diag(raw, "collapseSimpleStatement"@) + bool_field_diag(
        raw,
        "sortRequires"@,
    )
}

/// One unknown-property diagnostic per entry whose key is not known, in
/// the order the entries appear.
pub open spec fn unknown_diags(raw: Seq<EntryV>) -> Seq<DiagnosticV>
    decreases raw.len(),
{
    if raw.len() == 0 {
        Seq::empty()
    } else {
        unknown_diags(raw.drop_last()) + (if is_known_key(raw.last().key) {
            Seq::empty()
        } else {
            seq![DiagnosticV { property_name: raw.last().key, kind: DiagnosticKind::UnknownProperty }]
        })
    }
}

/// Everything resolution reports: invalid values first, unknown keys after.
pub open spec fn resolve_diags(raw: Seq<EntryV>) -> Seq<DiagnosticV> {
    known_diags(raw) + unknown_diags(raw)
}

// ------------------------------------------------------------------
// The resolved configuration
// ------------------------------------------------------------------

/// The validated configuration: every field concrete, nothing left unset.
#[derive(Clone, Copy, Debug, PartialEq, Eq, Structural)]
pub struct ResolvedConfiguration {
    pub line_width: u32,
    pub use_tabs: bool,
    pub indent_width: u8,
    pub new_line_kind: NewLineKind,
    pub verify: bool,
    pub quote_style: QuotePreference,
    pub call_parentheses: CallParentheses,
    pub collapse_simple_statement: CollapsePolicy,
    pub sort_requires: bool,
}

/// What resolution must produce from raw configuration, host defaults
/// and engine defaults.
pub open spec fn spec_resolved(raw: Seq<EntryV>, g: GlobalDefaults, e: EngineDefaults) -> ResolvedConfiguration {
    ResolvedConfiguration {
        line_width: field_u32(raw, "lineWidth"@, fallback_line_width(g)),
        use_tabs: field_bool(raw, "useTabs"@, fallback_use_tabs(g)),
        indent_width: field_u8(raw, "indentWidth"@, fallback_indent_width(g)),
        new_line_kind: field_new_line_kind(raw, "newLineKind"@, fallback_new_line_kind(g)),
        verify: field_bool(raw, "verify"@, false),
        quote_style: field_quote_style(raw, "quoteStyle"@, e.quote_style),
        call_parentheses: field_call_parentheses(raw, "callParentheses"@, e.call_parentheses),
        collapse_simple_statement: field_collapse(raw, "collapseSimpleStatement"@, e.collapse_simple_statement),
        sort_requires: field_bool(raw, "sortRequires"@, e.sort_requires),
    }
}

/// File-matching metadata: this plugin claims Lua source files only.
pub struct FileMatchingInfo {
    pub file_extensions: Vec<String>,
    pub file_names: Vec<String>,
}

/// What a configuration-resolution call returns.
pub struct ResolveResult {
    pub config: ResolvedConfiguration,
    pub diagnostics: Vec<Diagnostic>,
    pub file_matching: FileMatchingInfo,
}

// ------------------------------------------------------------------
// Executable resolution
// ------------------------------------------------------------------

fn lookup_value<'a>(raw: &'a RawConfig, key: &str) -> (r: Option<&'a ConfigValue>)
    ensures
        match r {
            Some(v) => lookup(raw@, key@) == Some(v@),
            None => lookup(raw@, key@) is None,
        },
{
    let mut i: usize = 0;
    while i < raw.entries.len()
        invariant
            0 <= i <= raw.entries.len(),
            forall|j: int| 0 <= j < i ==> raw@[j].key != key@,
        decreases raw.entries.len() - i,
    {
        let e = &raw.entries[i];
        proof {
            assert(raw@[i as int] == raw.entries@[i as int]@);
        }
        if string_eq_lit(&e.key, key) {
            proof {
                lemma_lookup_at(raw@, key@, i as int);
            }
            return Some(&e.value);
        }
        i += 1;
    }
    proof {
        lemma_lookup_none_iff(raw@, key@);
    }
    None
}

fn is_known_key_exec(k: &String) -> (r: bool)
    ensures
        r == is_known_key(k@),
{
    string_eq_lit(k, "lineWidth") || string_eq_lit(k, "useTabs") || string_eq_lit(k, "indentWidth")
        || string_eq_lit(k, "newLineKind") || string_eq_lit(k, "verify") || string_eq_lit(
        k,
        "quoteStyle",
    ) || string_eq_lit(k, "callParentheses") || string_eq_lit(k, "collapseSimpleStatement")
        || string_eq_lit(k, "sortRequires")
}

impl RawConfig {
    /// Whether every key occurs at most once.
    pub open spec fn wf(&self) -> bool {
        unique_keys(self@)
    }

    /// An empty raw configuration.
    pub fn new() -> (r: RawConfig)
        ensures
            r@.len() == 0,
            r.wf(),
    {
        let r = RawConfig { entries: Vec::new() };
        proof {
            assert(r@.len() == 0);
        }
        r
    }

    /// Whether `key` is present.
    pub fn contains_key(&self, key: &str) -> (r: bool)
        ensures
            r == (lookup(self@, key@) is Some),
    {
        match lookup_value(self, key) {
            Some(_) => true,
            None => false,
        }
    }

    /// Appends a pair under a key not yet present.
    pub fn insert(&mut self, key: String, value: ConfigValue)
        requires
            lookup(old(self)@, key@) is None,
        ensures
            final(self)@ == old(self)@.push(EntryV { key: key@, value: value@ }),
            old(self).wf() ==> final(self).wf(),
    {
        proof {
            lemma_lookup_none_iff(self@, key@);
        }
        let ghost pre = self@;
        self.entries.push(ConfigEntry { key, value });
        proof {
            assert(self@ =~= pre.push(EntryV { key: key@, value: value@ }));
            if unique_keys(pre) {
                assert forall|i: int, j: int| 0 <= i < j < self@.len() implies self@[i].key
                    != self@[j].key by {
                    if j < self@.len() - 1 {
                        assert(pre[i].key != pre[j].key);
                    } else {
                        assert(pre[i].key != key@);
                    }
                }
            }
        }
    }
}

fn push_invalid(diagnostics: &mut Vec<Diagnostic>, key: &str)
    ensures
        dview(final(diagnostics)@) == dview(old(diagnostics)@) + mk_invalid(key@),
{
    let ghost pre = diagnostics@;
    diagnostics.push(Diagnostic { property_name: key.to_owned(), kind: DiagnosticKind::InvalidValue });
    proof {
        assert(dview(diagnostics@) =~= dview(pre) + mk_invalid(key@));
    }
}

fn get_u32_field(raw: &RawConfig, key: &str, fb: u32, diagnostics: &mut Vec<Diagnostic>) -> (r: u32)
    ensures
        r == field_u32(raw@, key@, fb),
        dview(final(diagnostics)@) == dview(old(diagnostics)@) + u32_field_diag(raw@, key@),
{
    match lookup_value(raw, key) {
        Some(v) => match to_u32(v) {
            Some(n) => {
                proof {
                    assert(dview(diagnostics@) =~= dview(diagnostics@) + Seq::<DiagnosticV>::empty());
                }
                n
            },
            None => {
                push_invalid(diagnostics, key);
                fb
            },
        },
        None => {
            proof {
                assert(dview(diagnostics@) =~= dview(diagnostics@) + Seq::<DiagnosticV>::empty());
            }
            fb
        },
    }
}

fn get_u8_field(raw: &RawConfig, key: &str, fb: u8, diagnostics: &mut Vec<Diagnostic>) -> (r: u8)
    ensures
        r == field_u8(raw@, key@, fb),
        dview(final(diagnostics)@) == dview(old(diagnostics)@) + u8_field_diag(raw@, key@),
{
    match lookup_value(raw, key) {
        Some(v) => match to_u8(v) {
            Some(n) => {
                proof {
                    assert(dview(diagnostics@) =~= dview(diagnostics@) + Seq::<DiagnosticV>::empty());
                }
                n
            },
            None => {
                push_invalid(diagnostics, key);
                fb
            },
        },
        None => {
            proof {
                assert(dview(diagnostics@) =~= dview(diagnostics@) + Seq::<DiagnosticV>::empty());
            }
            fb
        },
    }
}

fn get_bool_field(raw: &RawConfig, key: &str, fb: bool, diagnostics: &mut Vec<Diagnostic>) -> (r: bool)
    ensures
        r == field_bool(raw@, key@, fb),
        dview(final(diagnostics)@) == dview(old(diagnostics)@) + bool_field_diag(raw@, key@),
{
    match lookup_value(raw, key) {
        Some(v) => match to_bool(v) {
            Some(b) => {
                proof {
                    assert(dview(diagnostics@) =~= dview(diagnostics@) + Seq::<DiagnosticV>::empty());
                }
                b
            },
            None => {
                push_invalid(diagnostics, key);
                fb
            },
        },
        None => {
            proof {
                assert(dview(diagnostics@) =~= dview(diagnostics@) + Seq::<DiagnosticV>::empty());
            }
            fb
        },
    }
}

fn get_new_line_kind_field(
    raw: &RawConfig,
    key: &str,
    fb: NewLineKind,
    diagnostics: &mut Vec<Diagnostic>,
) -> (r: NewLineKind)
    ensures
        r == field_new_line_kind(raw@, key@, fb),
        dview(final(diagnostics)@) == dview(old(diagnostics)@) + new_line_kind_field_diag(raw@, key@),
{
    match lookup_value(raw, key) {
        Some(v) => match to_new_line_kind(v) {
            Some(k) => {
                proof {
                    assert(dview(diagnostics@) =~= dview(diagnostics@) + Seq::<DiagnosticV>::empty());
                }
                k
            },
            None => {
                push_invalid(diagnostics, key);
                fb
            },
        },
        None => {
            proof {
                assert(dview(diagnostics@) =~= dview(diagnostics@) + Seq::<DiagnosticV>::empty());
            }
            fb
        },
    }
}

fn get_quote_style_field(
    raw: &RawConfig,
    key: &str,
    fb: QuotePreference,
    diagnostics: &mut Vec<Diagnostic>,
) -> (r: QuotePreference)
    ensures
        r == field_quote_style(raw@, key@, fb),
        dview(final(diagnostics)@) == dview(old(diagnostics)@) + quote_style_field_diag(raw@, key@),
{
    match lookup_value(raw, key) {
        Some(v) => match to_quote_style(v) {
            Some(q) => {
                proof {
                    assert(dview(diagnostics@) =~= dview(diagnostics@) + Seq::<DiagnosticV>::empty());
                }
                q
            },
            None => {
                push_invalid(diagnostics, key);
                fb
            },
        },
        None => {
            proof {
                assert(dview(diagnostics@) =~= dview(diagnostics@) + Seq::<DiagnosticV>::empty());
            }
            fb
        },
    }
}

fn get_call_parentheses_field(
    raw: &RawConfig,
    key: &str,
    fb: CallParentheses,
    diagnostics: &mut Vec<Diagnostic>,
) -> (r: CallParentheses)
    ensures
        r == field_call_parentheses(raw@, key@, fb),
        dview(final(diagnostics)@) == dview(old(diagnostics)@) + call_parentheses_field_diag(raw@, key@),
{
    match lookup_value(raw, key) {
        Some(v) => match to_call_parentheses(v) {
            Some(p) => {
                proof {
                    assert(dview(diagnostics@) =~= dview(diagnostics@) + Seq::<DiagnosticV>::empty());
                }
                p
            },
            None => {
                push_invalid(diagnostics, key);
                fb
            },
        },
        None => {
            proof {
                assert(dview(diagnostics@) =~= dview(diagnostics@) + Seq::<DiagnosticV>::empty());
            }
            fb
        },
    }
}

fn get_collapse_field(
    raw: &RawConfig,
    key: &str,
    fb: CollapsePolicy,
    diagnostics: &mut Vec<Diagnostic>,
) -> (r: CollapsePolicy)
    ensures
        r == field_collapse(raw@, key@, fb),
        dview(final(diagnostics)@) == dview(old(diagnostics)@) + collapse_field_diag(raw@, key@),
{
    match lookup_value(raw, key) {
        Some(v) => match to_collapse(v) {
            Some(c) => {
                proof {
                    assert(dview(diagnostics@) =~= dview(diagnostics@) + Seq::<DiagnosticV>::empty());
                }
                c
            },
            None => {
                push_invalid(diagnostics, key);
                fb
            },
        },
        None => {
            proof {
                assert(dview(diagnostics@) =~= dview(diagnostics@) + Seq::<DiagnosticV>::empty());
            }
            fb
        },
    }
}

/// Resolves raw host configuration against host and engine defaults.
///
/// Resolution never fails: every field of the result is concrete, and
/// problems are reported as diagnostics, invalid values first (in key
/// processing order), unknown keys after (in the order they appear).
pub fn resolve(raw: RawConfig, global: &GlobalDefaults) -> (r: ResolveResult)
    ensures
        r.config == spec_resolved(raw@, *global, spec_engine_defaults()),
        dview(r.diagnostics@) == resolve_diags(raw@),
        r.file_matching.file_extensions@.len() == 1,
        r.file_matching.file_extensions@[0]@ == "lua"@,
        r.file_matching.file_names@.len() == 0,
{
    let engine = EngineDefaults::engine();
    let mut diagnostics: Vec<Diagnostic> = Vec::new();
    proof {
        assert(dview(diagnostics@) =~= Seq::<DiagnosticV>::empty());
    }
    let lw_fb: u32 = match global.line_width {
        Some(w) => w,
        None => 120,
    };
    let ut_fb: bool = match global.use_tabs {
        Some(b) => b,
        None => false,
    };
    let iw_fb: u8 = match global.indent_width {
        Some(w) => w,
        None => 2,
    };
    let nl_fb: NewLineKind = match global.new_line_kind {
        Some(k) => k,
        None => NewLineKind::LineFeed,
    };
    let line_width = get_u32_field(&raw, "lineWidth", lw_fb, &mut diagnostics);
    let use_tabs = get_bool_field(&raw, "useTabs", ut_fb, &mut diagnostics);
    let indent_width = get_u8_field(&raw, "indentWidth", iw_fb, &mut diagnostics);
    let new_line_kind = get_new_line_kind_field(&raw, "newLineKind", nl_fb, &mut diagnostics);
    let verify = get_bool_field(&raw, "verify", false, &mut diagnostics);
    let quote_style = get_quote_style_field(&raw, "quoteStyle", engine.quote_style, &mut diagnostics);
    let call_parentheses = get_call_parentheses_field(
        &raw,
        "callParentheses",
        engine.call_parentheses,
        &mut diagnostics,
    );
    let collapse_simple_statement = get_collapse_field(
        &raw,
        "collapseSimpleStatement",
        engine.collapse_simple_statement,
        &mut diagnostics,
    );
    let sort_requires = get_bool_field(&raw, "sortRequires", engine.sort_requires, &mut diagnostics);
    proof {
        assert(dview(diagnostics@) =~= known_diags(raw@));
    }
    let mut i: usize = 0;
    while i < raw.entries.len()
        invariant
            0 <= i <= raw.entries.len(),
            raw@.len() == raw.entries@.len(),
            dview(diagnostics@) == known_diags(raw@) + unknown_diags(raw@.take(i as int)),
        decreases raw.entries.len() - i,
    {
        let e = &raw.entries[i];
        let ghost pre = raw@.take(i as int);
        proof {
            assert(raw@[i as int] == raw.entries@[i as int]@);
            assert(raw@.take(i + 1).drop_last() =~= pre);
            assert(raw@.take(i + 1).last() == raw@[i as int]);
        }
        if !is_known_key_exec(&e.key) {
            let ghost dpre = diagnostics@;
            diagnostics.push(Diagnostic { property_name: e.key.clone(), kind: DiagnosticKind::UnknownProperty });
            proof {
                assert(dview(diagnostics@) =~= dview(dpre) + seq![
                    DiagnosticV { property_name: e.key@, kind: DiagnosticKind::UnknownProperty },
                ]);
                assert(dview(diagnostics@) =~= known_diags(raw@) + unknown_diags(raw@.take(i + 1)));
            }
        } else {
            proof {
                assert(unknown_diags(raw@.take(i + 1)) =~= unknown_diags(pre));
            }
        }
        i += 1;
    }
    proof {
        assert(raw@.take(raw@.len() as int) =~= raw@);
    }
    let mut file_extensions: Vec<String> = Vec::new();
    file_extensions.push("lua".to_owned());
    let file_names: Vec<String> = Vec::new();
    ResolveResult {
        config: ResolvedConfiguration {
            line_width,
            use_tabs,
            indent_width,
            new_line_kind,
            verify,
            quote_style,
            call_parentheses,
            collapse_simple_statement,
            sort_requires,
        },
        diagnostics,
        file_matching: FileMatchingInfo { file_extensions, file_names },
    }
}

// ------------------------------------------------------------------
// Laws of resolution
// ------------------------------------------------------------------

/// The value converts to the type expected under `key`.
pub open spec fn value_valid_for(key: Seq<char>, v: ConfigValueV) -> bool {
    if key == "lineWidth"@ {
        converted_u32(v) is Some
    } else if key == "useTabs"@ {
        converted_bool(v) is Some
    } else if key == "indentWidth"@ {
        converted_u8(v) is Some
    } else if key == "newLineKind"@ {
        converted_new_line_kind(v) is Some
    } else if key == "verify"@ {
        converted_bool(v) is Some
    } else if key == "quoteStyle"@ {
        converted_quote_style(v) is Some
    } else if key == "callParentheses"@ {
        converted_call_parentheses(v) is Some
    } else if key == "collapseSimpleStatement"@ {
        converted_collapse(v) is Some
    } else if key == "sortRequires"@ {
        converted_bool(v) is Some
    } else {
        false
    }
}

/// The entry's key is known and its value converts to that key's type.
pub open spec fn entry_valid(e: EntryV) -> bool {
    value_valid_for(e.key, e.value)
}

proof fn lemma_lookup_valid(raw: Seq<EntryV>, key: Seq<char>)
    requires
        forall|i: int| 0 <= i < raw.len() ==> entry_valid(#[trigger] raw[i]),
        lookup(raw, key) is Some,
    ensures
        value_valid_for(key, lookup(raw, key)->0),
{
    lemma_lookup_some_exists(raw, key);
    let i = choose|i: int|
        0 <= i < raw.len() && raw[i].key == key && Some(#[trigger] raw[i].value) == lookup(raw, key);
    assert(entry_valid(raw[i]));
}

pub proof fn lemma_lookup_some_exists(s: Seq<EntryV>, key: Seq<char>)
    requires
        lookup(s, key) is Some,
    ensures
        exists|i: int|
            0 <= i < s.len() && s[i].key == key && Some(#[trigger] s[i].value) == lookup(s, key),
    decreases s.len(),
{
    if s.len() > 0 {
        if s[0].key == key {
            assert(0 <= 0 < s.len() && s[0].key == key && Some(s[0].value) == lookup(s, key));
        } else {
            lemma_lookup_some_exists(s.skip(1), key);
            let i = choose|i: int|
                0 <= i < s.skip(1).len() && s.skip(1)[i].key == key && Some(
                    #[trigger] s.skip(1)[i].value,
                ) == lookup(s.skip(1), key);
            assert(s.skip(1)[i] == s[i + 1]);
            assert(0 <= i + 1 < s.len() && s[i + 1].key == key && Some(s[i + 1].value) == lookup(
                s,
                key,
            ));
        }
    }
}

proof fn lemma_unknown_diags_all_known(s: Seq<EntryV>)
    requires
        forall|i: int| 0 <= i < s.len() ==> is_known_key(#[trigger] s[i].key),
    ensures
        unknown_diags(s).len() == 0,
    decreases s.len(),
{
    if s.len() > 0 {
        assert(forall|i: int| 0 <= i < s.len() - 1 ==> s.drop_last()[i] == s[i]);
        lemma_unknown_diags_all_known(s.drop_last());
    }
}

/// Law: a raw configuration holding only known keys with valid values
/// resolves with no diagnostics at all, and every supplied field takes
/// exactly the supplied value.
pub proof fn lemma_valid_config_resolves_clean(raw: Seq<EntryV>, g: GlobalDefaults, e: EngineDefaults)
    requires
        forall|i: int| 0 <= i < raw.len() ==> entry_valid(#[trigger] raw[i]),
    ensures
        resolve_diags(raw).len() == 0,
        lookup(raw, "lineWidth"@) is Some ==> Some(spec_resolved(raw, g, e).line_width)
            == converted_u32(lookup(raw, "lineWidth"@)->0),
        lookup(raw, "useTabs"@) is Some ==> Some(spec_resolved(raw, g, e).use_tabs)
            == converted_bool(lookup(raw, "useTabs"@)->0),
        lookup(raw, "indentWidth"@) is Some ==> Some(spec_resolved(raw, g, e).indent_width)
            == converted_u8(lookup(raw, "indentWidth"@)->0),
        lookup(raw, "newLineKind"@) is Some ==> Some(spec_resolved(raw, g, e).new_line_kind)
            == converted_new_line_kind(lookup(raw, "newLineKind"@)->0),
        lookup(raw, "verify"@) is Some ==> Some(spec_resolved(raw, g, e).verify) == converted_bool(
            lookup(raw, "verify"@)->0,
        ),
        lookup(raw, "quoteStyle"@) is Some ==> Some(spec_resolved(raw, g, e).quote_style)
            == converted_quote_style(lookup(raw, "quoteStyle"@)->0),
        lookup(raw, "callParentheses"@) is Some ==> Some(spec_resolved(raw, g, e).call_parentheses)
            == converted_call_parentheses(lookup(raw, "callParentheses"@)->0),
        lookup(raw, "collapseSimpleStatement"@) is Some ==> Some(
            spec_resolved(raw, g, e).collapse_simple_statement,
        ) == converted_collapse(lookup(raw, "collapseSimpleStatement"@)->0),
        lookup(raw, "sortRequires"@) is Some ==> Some(spec_resolved(raw, g, e).sort_requires)
            == converted_bool(lookup(raw, "sortRequires"@)->0),
{
    broadcast use vstd::string::group_string_axioms;

    reveal_strlit("lineWidth");
    reveal_strlit("useTabs");
    reveal_strlit("indentWidth");
    reveal_strlit("newLineKind");
    reveal_strlit("verify");
    reveal_strlit("quoteStyle");
    reveal_strlit("callParentheses");
    reveal_strlit("collapseSimpleStatement");
    reveal_strlit("sortRequires");
    assert(("lineWidth"@).len() == 9);
    assert(("useTabs"@).len() == 7);
    assert(("indentWidth"@).len() == 11);
    assert(("newLineKind"@).len() == 11);
    assert(("verify"@).len() == 6);
    assert(("quoteStyle"@).len() == 10);
    assert(("callParentheses"@).len() == 15);
    assert(("collapseSimpleStatement"@).len() == 23);
    assert(("sortRequires"@).len() == 12);
    assert(("indentWidth"@)[0] == 'i');
    assert(("newLineKind"@)[0] == 'n');
    if lookup(raw, "lineWidth"@) is Some {
        lemma_lookup_valid(raw, "lineWidth"@);
    }
    if lookup(raw, "useTabs"@) is Some {
        lemma_lookup_valid(raw, "useTabs"@);
    }
    if lookup(raw, "indentWidth"@) is Some {
        lemma_lookup_valid(raw, "indentWidth"@);
    }
    if lookup(raw, "newLineKind"@) is Some {
        lemma_lookup_valid(raw, "newLineKind"@);
    }
    if lookup(raw, "verify"@) is Some {
        lemma_lookup_valid(raw, "verify"@);
    }
    if lookup(raw, "quoteStyle"@) is Some {
        lemma_lookup_valid(raw, "quoteStyle"@);
    }
    if lookup(raw, "callParentheses"@) is Some {
        lemma_lookup_valid(raw, "callParentheses"@);
    }
    if lookup(raw, "collapseSimpleStatement"@) is Some {
        lemma_lookup_valid(raw, "collapseSimpleStatement"@);
    }
    if lookup(raw, "sortRequires"@) is Some {
        lemma_lookup_valid(raw, "sortRequires"@);
    }
    assert(forall|i: int| 0 <= i < raw.len() ==> is_known_key(#[trigger] raw[i].key)) by {
        assert forall|i: int| 0 <= i < raw.len() implies is_known_key(#[trigger] raw[i].key) by {
            assert(entry_valid(raw[i]));
        }
    }
    lemma_unknown_diags_all_known(raw);
}

/// The entries whose keys this formatter understands, in order.
pub open spec fn known_entries(s: Seq<EntryV>) -> Seq<EntryV>
    decreases s.len(),
{
    if s.len() == 0 {
        Seq::empty()
    } else {
        known_entries(s.drop_last()) + (if is_known_key(s.last().key) {
            seq![s.last()]
        } else {
            Seq::empty()
        })
    }
}

/// The entries whose keys this formatter does not understand, in order.
pub open spec fn unknown_entries(s: Seq<EntryV>) -> Seq<EntryV>
    decreases s.len(),
{
    if s.len() == 0 {
        Seq::empty()
    } else {
        unknown_entries(s.drop_last()) + (if is_known_key(s.last().key) {
            Seq::empty()
        } else {
            seq![s.last()]
        })
    }
}

proof fn lemma_lookup_push(t: Seq<EntryV>, x: EntryV, key: Seq<char>)
    ensures
        lookup(t.push(x), key) == (if lookup(t, key) is Some {
            lookup(t, key)
        } else if x.key == key {
            Some(x.value)
        } else {
            None
        }),
    decreases t.len(),
{
    if t.len() == 0 {
        assert(t.push(x).len() == 1);
        assert(t.push(x)[0] == x);
        assert(t.push(x).skip(1) =~= Seq::<EntryV>::empty());
        if x.key == key {
            assert(lookup(t.push(x), key) == Some(x.value));
        } else {
            assert(lookup(t.push(x), key) == lookup(t.push(x).skip(1), key));
            assert(lookup(t.push(x), key) is None);
        }
    } else {
        assert(t.push(x)[0] == t[0]);
        assert(t.push(x).skip(1) =~= t.skip(1).push(x));
        lemma_lookup_push(t.skip(1), x, key);
    }
}

proof fn lemma_lookup_known_entries(s: Seq<EntryV>, key: Seq<char>)
    requires
        is_known_key(key),
    ensures
        lookup(known_entries(s), key) == lookup(s, key),
    decreases s.len(),
{
    if s.len() > 0 {
        let t = s.drop_last();
        let x = s.last();
        lemma_lookup_known_entries(t, key);
        assert(s =~= t.push(x));
        lemma_lookup_push(t, x, key);
        if is_known_key(x.key) {
            assert(known_entries(s) =~= known_entries(t).push(x));
            lemma_lookup_push(known_entries(t), x, key);
        } else {
            assert(known_entries(s) =~= known_entries(t));
            assert(x.key != key);
        }
    }
}

/// Law: every unrecognized key yields exactly one unknown-property
/// diagnostic naming that key, in order; and unrecognized keys do not
/// affect resolution, which equals resolution of the known entries alone.
#[verifier::rlimit(60)]
pub proof fn lemma_unknown_keys_inert(raw: Seq<EntryV>, g: GlobalDefaults, e: EngineDefaults)
    ensures
        unknown_diags(raw) == unknown_entries(raw).map_values(
            |en: EntryV| DiagnosticV { property_name: en.key, kind: DiagnosticKind::UnknownProperty },
        ),
        unknown_diags(raw).len() + known_entries(raw).len() == raw.len(),
        spec_resolved(raw, g, e) == spec_resolved(known_entries(raw), g, e),
        known_diags(raw) == known_diags(known_entries(raw)),
    decreases raw.len(),
{
    let to_diag = |en: EntryV| DiagnosticV { property_name: en.key, kind: DiagnosticKind::UnknownProperty };
    if raw.len() == 0 {
        assert(unknown_diags(raw) =~= unknown_entries(raw).map_values(to_diag));
    } else {
        lemma_unknown_keys_inert(raw.drop_last(), g, e);
        assert(unknown_diags(raw) =~= unknown_entries(raw).map_values(to_diag));
    }
    lemma_lookup_known_entries(raw, "lineWidth"@);
    lemma_lookup_known_entries(raw, "useTabs"@);
    lemma_lookup_known_entries(raw, "indentWidth"@);
    lemma_lookup_known_entries(raw, "newLineKind"@);
    lemma_lookup_known_entries(raw, "verify"@);
    lemma_lookup_known_entries(raw, "quoteStyle"@);
    lemma_lookup_known_entries(raw, "callParentheses"@);
    lemma_lookup_known_entries(raw, "collapseSimpleStatement"@);
    lemma_lookup_known_entries(raw, "sortRequires"@);
}

} // verus!
