//! Reading single values out of the configuration map.
//!
//! A value is read as dprint reads plain values: a missing property or `null`
//! gives nothing, an array or an object is a problem, and a string, a number or
//! a boolean is turned into text (a number in decimal, a boolean as `true` or
//! `false`) which is then parsed as the property's type. A text that does not
//! parse is a problem. Each problem becomes one diagnostic on the property.

use vstd::prelude::*;
use crate::configuration::config_map::{ConfigKeyMap, ConfigKeyValue, lookup};
use crate::configuration::types::{
    ConfigurationDiagnostic,
    LineEnding,
    ParseConfigurationError,
    diagnostic_views,
    invalid_value_message,
    invalid_value_text,
};
use crate::text::text_equals;

verus! {

/// A decimal digit.
pub open spec fn is_digit(c: char) -> bool {
    '0' <= c && c <= '9'
}

/// The character of the decimal digit `d`.
pub open spec fn digit_char(d: int) -> char {
    (d + 48) as char
}

/// The number written by the decimal digits `s`.
pub open spec fn digits_value(s: Seq<char>) -> nat
    decreases s.len(),
{
    if s.len() == 0 {
        0
    } else {
        digits_value(s.drop_last()) * 10 + ((s.last() as int) - 48) as nat
    }
}

/// Every character of `s` is a decimal digit.
pub open spec fn all_digits(s: Seq<char>) -> bool {
    forall|i: int| 0 <= i < s.len() ==> is_digit(#[trigger] s[i])
}

/// The unsigned integer that the standard library reads from `s` for an
/// integer type whose largest value is `max`: an optional `+` and then one or
/// more decimal digits whose value is at most `max`.
pub open spec fn unsigned_decimal(s: Seq<char>, max: nat) -> Option<nat> {
    let digits = if s.len() > 0 && s[0] == '+' {
        s.drop_first()
    } else {
        s
    };
    if digits.len() > 0 && all_digits(digits) && digits_value(digits) <= max {
        Some(digits_value(digits))
    } else {
        None
    }
}

/// `n` written in decimal, without leading zeros.
pub open spec fn decimal_text(n: nat) -> Seq<char>
    decreases n,
{
    if n < 10 {
        seq![digit_char(n as int)]
    } else {
        decimal_text(n / 10).push(digit_char((n % 10) as int))
    }
}

/// The text of an `i32` as `to_string` writes it.
pub open spec fn i32_text(n: i32) -> Seq<char> {
    if n < 0 {
        seq!['-'] + decimal_text((-n) as nat)
    } else {
        decimal_text(n as nat)
    }
}

/// The text of a boolean as `to_string` writes it.
pub open spec fn bool_text(b: bool) -> Seq<char> {
    if b {
        seq!['t', 'r', 'u', 'e']
    } else {
        seq!['f', 'a', 'l', 's', 'e']
    }
}

proof fn lemma_digit_char(d: int)
    requires
        0 <= d < 10,
    ensures
        is_digit(digit_char(d)),
        (digit_char(d) as int) - 48 == d,
{
}

/// `decimal_text(n)` is a non-empty run of digits that reads back as `n`.
proof fn lemma_decimal_text(n: nat)
    ensures
        decimal_text(n).len() > 0,
        all_digits(decimal_text(n)),
        digits_value(decimal_text(n)) == n,
    decreases n,
{
    let s = decimal_text(n);
    if n < 10 {
        lemma_digit_char(n as int);
        assert(s.drop_last() =~= Seq::<char>::empty());
        assert(digits_value(s.drop_last()) == 0);
        assert(digits_value(s) == digits_value(s.drop_last()) * 10 + ((s.last() as int) - 48) as nat);
    } else {
        lemma_decimal_text(n / 10);
        lemma_digit_char((n % 10) as int);
        let d = decimal_text(n / 10);
        assert(s.drop_last() =~= d);
        assert(s.last() == digit_char((n % 10) as int));
        assert forall|i: int| 0 <= i < s.len() implies is_digit(#[trigger] s[i]) by {
            if i < d.len() {
                assert(s[i] == d[i]);
            }
        }
        assert(digits_value(s) == digits_value(s.drop_last()) * 10 + ((s.last() as int) - 48) as nat);
        assert(digits_value(d) == n / 10);
        assert((n / 10) * 10 + n % 10 == n);
    }
}

/// An integer property reads a number as that number exactly when it is at
/// least zero and at most the largest value of the property's type.
pub proof fn law_number_reads_as_itself(n: i32, max: nat)
    ensures
        unsigned_decimal(i32_text(n), max) == (if 0 <= n && n <= max {
            Some(n as nat)
        } else {
            None
        }),
{
    if n < 0 {
        let s = i32_text(n);
        assert(s[0] == '-');
        assert(!is_digit(s[0]));
    } else {
        lemma_decimal_text(n as nat);
        let s = decimal_text(n as nat);
        assert(is_digit(s[0]));
    }
}

/// A boolean is never read as an integer, and a number is never read as a
/// boolean.
pub proof fn law_booleans_and_numbers_do_not_mix(b: bool, n: i32, max: nat)
    ensures
        unsigned_decimal(bool_text(b), max) is None,
        bool_from_text(i32_text(n)) is None,
{
    let t = bool_text(b);
    assert(!is_digit(t[0]));
    let s = i32_text(n);
    if n < 0 {
        assert(s[0] == '-');
    } else {
        lemma_decimal_text(n as nat);
        assert(is_digit(s[0]));
    }
    assert(s[0] != bool_text(true)[0]);
    assert(s[0] != bool_text(false)[0]);
}

/// The boolean that the standard library reads from `s`.
pub open spec fn bool_from_text(s: Seq<char>) -> Option<bool> {
    if s == bool_text(true) {
        Some(true)
    } else if s == bool_text(false) {
        Some(false)
    } else {
        None
    }
}

/// A boolean is written `true` or `false`, and exactly those texts are read
/// as booleans, each as the boolean it names.
pub proof fn law_boolean_texts(text: Seq<char>)
    ensures
        bool_text(true) == "true"@,
        bool_text(false) == "false"@,
        bool_from_text(text) == Some(true) <==> text == "true"@,
        bool_from_text(text) == Some(false) <==> text == "false"@,
        bool_from_text(text) is None <==> (text != "true"@ && text != "false"@),
{
    reveal_strlit("true");
    reveal_strlit("false");
    assert(bool_text(true) =~= "true"@);
    assert(bool_text(false) =~= "false"@);
}

/// What `str::parse::<u32>` reports on a text that it cannot read.
pub uninterp spec fn u32_parse_error_message(text: Seq<char>) -> Seq<char>;

/// What `str::parse::<u8>` reports on a text that it cannot read.
pub uninterp spec fn u8_parse_error_message(text: Seq<char>) -> Seq<char>;

/// What `str::parse::<bool>` reports on a text that it cannot read.
pub uninterp spec fn bool_parse_error_message(text: Seq<char>) -> Seq<char>;

/// `str::parse::<u32>`, its error turned into its message.
///
/// Trusted: the standard library reads an optional `+` followed by decimal
/// digits, and fails on anything else or on a value above `u32::MAX`. What its
/// error message says is left to `u32_parse_error_message`.
#[verifier::external_body]
fn parse_u32_text(text: &str) -> (parsed: Result<u32, String>)
    ensures
        match parsed {
            Ok(n) => unsigned_decimal(text@, u32::MAX as nat) == Some(n as nat),
            Err(message) => unsigned_decimal(text@, u32::MAX as nat) is None && message@
                == u32_parse_error_message(text@),
        },
{
    text.parse::<u32>().map_err(|e| e.to_string())
}

/// `str::parse::<u8>`, its error turned into its message.
///
/// Trusted: as for `u32`, with `u8::MAX` as the largest value; what its error
/// message says is left to `u8_parse_error_message`.
#[verifier::external_body]
fn parse_u8_text(text: &str) -> (parsed: Result<u8, String>)
    ensures
        match parsed {
            Ok(n) => unsigned_decimal(text@, u8::MAX as nat) == Some(n as nat),
            Err(message) => unsigned_decimal(text@, u8::MAX as nat) is None && message@
                == u8_parse_error_message(text@),
        },
{
    text.parse::<u8>().map_err(|e| e.to_string())
}

/// `str::parse::<bool>`, its error turned into its message.
///
/// Trusted: the standard library reads exactly `true` and `false`; what its
/// error message says is left to `bool_parse_error_message`.
#[verifier::external_body]
fn parse_bool_text(text: &str) -> (parsed: Result<bool, String>)
    ensures
        match parsed {
            Ok(b) => bool_from_text(text@) == Some(b),
            Err(message) => bool_from_text(text@) is None && message@ == bool_parse_error_message(
                text@,
            ),
        },
{
    text.parse::<bool>().map_err(|e| e.to_string())
}

/// `i32::to_string`.
///
/// Trusted: the standard library writes an integer in decimal, without leading
/// zeros, with a leading `-` when it is negative.
#[verifier::external_body]
fn i32_to_text(n: i32) -> (text: String)
    ensures
        text@ == i32_text(n),
{
    n.to_string()
}

/// The kind of line ending as it is written in a configuration, before the
/// system's own kind is put in place of `System`.
#[derive(Clone, Copy, Debug, PartialEq, Eq, Structural)]
pub enum RawNewLineKind {
    Auto,
    LineFeed,
    CarriageReturnLineFeed,
    System,
}

/// The raw line ending kind that `text` names, if any.
pub open spec fn raw_new_line_kind_from_text(text: Seq<char>) -> Option<RawNewLineKind> {
    if text == "auto"@ {
        Some(RawNewLineKind::Auto)
    } else if text == "lf"@ {
        Some(RawNewLineKind::LineFeed)
    } else if text == "crlf"@ {
        Some(RawNewLineKind::CarriageReturnLineFeed)
    } else if text == "system"@ {
        Some(RawNewLineKind::System)
    } else {
        None
    }
}

/// `str::parse::<dprint_core::configuration::RawNewLineKind>`, with the kind
/// carried over variant by variant and its error turned into its message.
///
/// Trusted: dprint-core reads `auto`, `lf`, `crlf` and `system`, and for any
/// other text fails with an error whose message is
/// `Found invalid value '<text>'.`.
#[verifier::external_body]
fn parse_raw_new_line_kind(text: &str) -> (parsed: Result<RawNewLineKind, String>)
    ensures
        match parsed {
            Ok(kind) => raw_new_line_kind_from_text(text@) == Some(kind),
            Err(message) => raw_new_line_kind_from_text(text@) is None && message@
                == invalid_value_message(text@),
        },
{
    match text.parse::<dprint_core::configuration::RawNewLineKind>() {
        Ok(dprint_core::configuration::RawNewLineKind::Auto) => Ok(RawNewLineKind::Auto),
        Ok(dprint_core::configuration::RawNewLineKind::LineFeed) => Ok(RawNewLineKind::LineFeed),
        Ok(dprint_core::configuration::RawNewLineKind::CarriageReturnLineFeed) => Ok(
            RawNewLineKind::CarriageReturnLineFeed,
        ),
        Ok(dprint_core::configuration::RawNewLineKind::System) => Ok(RawNewLineKind::System),
        Err(e) => Err(e.to_string()),
    }
}

/// The line ending that `text` names, if any.
pub open spec fn line_ending_from_text(text: Seq<char>) -> Option<LineEnding> {
    if text == "lf"@ {
        Some(LineEnding::Lf)
    } else if text == "crlf"@ {
        Some(LineEnding::Crlf)
    } else {
        None
    }
}

impl LineEnding {
    /// The line ending that `text` names: `lf` or `crlf`.
    pub fn parse(text: &str) -> (ending: Result<LineEnding, ParseConfigurationError>)
        ensures
            match ending {
                Ok(e) => line_ending_from_text(text@) == Some(e),
                Err(e) => line_ending_from_text(text@) is None && e.0@ == invalid_value_message(
                    text@,
                ),
            },
    {
        if text_equals(text, "lf") {
            Ok(LineEnding::Lf)
        } else if text_equals(text, "crlf") {
            Ok(LineEnding::Crlf)
        } else {
            Err(ParseConfigurationError(invalid_value_text(text)))
        }
    }
}

/// What a property holds, as text to be parsed.
pub enum ValueText {
    /// The property is missing or `null`.
    Absent,
    /// The property holds an array or an object.
    Unsupported,
    /// The property holds a string, a number or a boolean, written as this text.
    Text(Seq<char>),
}

/// The text of a property's value.
pub open spec fn value_text(value: Option<ConfigKeyValue>) -> ValueText {
    match value {
        None => ValueText::Absent,
        Some(ConfigKeyValue::Null) => ValueText::Absent,
        Some(ConfigKeyValue::String(s)) => ValueText::Text(s@),
        Some(ConfigKeyValue::Number(n)) => ValueText::Text(i32_text(n)),
        Some(ConfigKeyValue::Bool(b)) => ValueText::Text(bool_text(b)),
        Some(ConfigKeyValue::Array(_)) => ValueText::Unsupported,
        Some(ConfigKeyValue::Object(_)) => ValueText::Unsupported,
    }
}

/// The problem reported on an array or an object where a plain value is read.
pub open spec fn unsupported_message() -> Seq<char> {
    "Arrays and objects are not supported for this value"@
}

/// The diagnostics for a property that has `problem`, if any.
pub open spec fn problem_diagnostics(name: Seq<char>, problem: Option<Seq<char>>) -> Seq<
    (Seq<char>, Seq<char>),
> {
    match problem {
        Some(message) => seq![(name, message)],
        None => Seq::empty(),
    }
}

/// A property read as a `u32`: the value, or the problem.
pub open spec fn read_u32(value: Option<ConfigKeyValue>) -> (Option<u32>, Option<Seq<char>>) {
    match value_text(value) {
        ValueText::Absent => (None, None),
        ValueText::Unsupported => (None, Some(unsupported_message())),
        ValueText::Text(t) => match unsigned_decimal(t, u32::MAX as nat) {
            Some(n) => (Some(n as u32), None),
            None => (None, Some(u32_parse_error_message(t))),
        },
    }
}

/// A property read as a `u8`: the value, or the problem.
pub open spec fn read_u8(value: Option<ConfigKeyValue>) -> (Option<u8>, Option<Seq<char>>) {
    match value_text(value) {
        ValueText::Absent => (None, None),
        ValueText::Unsupported => (None, Some(unsupported_message())),
        ValueText::Text(t) => match unsigned_decimal(t, u8::MAX as nat) {
            Some(n) => (Some(n as u8), None),
            None => (None, Some(u8_parse_error_message(t))),
        },
    }
}

/// A property read as a boolean: the value, or the problem.
pub open spec fn read_bool(value: Option<ConfigKeyValue>) -> (Option<bool>, Option<Seq<char>>) {
    match value_text(value) {
        ValueText::Absent => (None, None),
        ValueText::Unsupported => (None, Some(unsupported_message())),
        ValueText::Text(t) => match bool_from_text(t) {
            Some(b) => (Some(b), None),
            None => (None, Some(bool_parse_error_message(t))),
        },
    }
}

/// A property read as a raw line ending kind: the value, or the problem.
pub open spec fn read_raw_new_line_kind(value: Option<ConfigKeyValue>) -> (
    Option<RawNewLineKind>,
    Option<Seq<char>>,
) {
    match value_text(value) {
        ValueText::Absent => (None, None),
        ValueText::Unsupported => (None, Some(unsupported_message())),
        ValueText::Text(t) => match raw_new_line_kind_from_text(t) {
            Some(k) => (Some(k), None),
            None => (None, Some(invalid_value_message(t))),
        },
    }
}

/// A property read as a line ending: the value, or the problem.
pub open spec fn read_line_ending(value: Option<ConfigKeyValue>) -> (
    Option<LineEnding>,
    Option<Seq<char>>,
) {
    match value_text(value) {
        ValueText::Absent => (None, None),
        ValueText::Unsupported => (None, Some(unsupported_message())),
        ValueText::Text(t) => match line_ending_from_text(t) {
            Some(e) => (Some(e), None),
            None => (None, Some(invalid_value_message(t))),
        },
    }
}

/// Adds a diagnostic on the property `name`.
pub fn push_diagnostic(diagnostics: &mut Vec<ConfigurationDiagnostic>, name: &str, message: String)
    ensures
        diagnostic_views(final(diagnostics)@) == diagnostic_views(old(diagnostics)@).push(
            (name@, message@),
        ),
{
    let ghost before = diagnostics@;
    let d = ConfigurationDiagnostic { property_name: String::from_str(name), message: message };
    diagnostics.push(d);
    assert(diagnostic_views(diagnostics@) =~= diagnostic_views(before).push((name@, d.message@)));
}

/// The text of the property `name`, or nothing when it is missing or `null`.
/// An array or an object gives nothing and a diagnostic.
fn read_text(config: &ConfigKeyMap, name: &str, diagnostics: &mut Vec<ConfigurationDiagnostic>) -> (text: Option<String>)
    ensures
        match value_text(lookup(config@, name@)) {
            ValueText::Absent => text is None && final(diagnostics)@ == old(diagnostics)@,
            ValueText::Unsupported => text is None && diagnostic_views(final(diagnostics)@)
                == diagnostic_views(old(diagnostics)@) + problem_diagnostics(
                name@,
                Some(unsupported_message()),
            ),
            ValueText::Text(t) => text matches Some(s) && s@ == t && final(diagnostics)@ == old(
                diagnostics,
            )@,
        },
{
    match config.get(name) {
        None => None,
        Some(ConfigKeyValue::Null) => None,
        Some(ConfigKeyValue::String(s)) => Some(s.clone()),
        Some(ConfigKeyValue::Number(n)) => Some(i32_to_text(*n)),
        Some(ConfigKeyValue::Bool(b)) => {
            if *b {
                let t = String::from_str("true");
                proof {
                    reveal_strlit("true");
                }
                Some(t)
            } else {
                let t = String::from_str("false");
                proof {
                    reveal_strlit("false");
                }
                Some(t)
            }
        },
        Some(_) => {
            push_diagnostic(
                diagnostics,
                name,
                String::from_str("Arrays and objects are not supported for this value"),
            );
            None
        },
    }
}

/// The property `name` read as a `u32`; a problem becomes a diagnostic.
pub fn read_u32_value(
    config: &ConfigKeyMap,
    name: &str,
    diagnostics: &mut Vec<ConfigurationDiagnostic>,
) -> (value: Option<u32>)
    ensures
        value == read_u32(lookup(config@, name@)).0,
        diagnostic_views(final(diagnostics)@) == diagnostic_views(old(diagnostics)@)
            + problem_diagnostics(name@, read_u32(lookup(config@, name@)).1),
{
    match read_text(config, name, diagnostics) {
        None => None,
        Some(t) => match parse_u32_text(t.as_str()) {
            Ok(n) => Some(n),
            Err(message) => {
                push_diagnostic(diagnostics, name, message);
                None
            },
        },
    }
}

/// The property `name` read as a `u8`; a problem becomes a diagnostic.
pub fn read_u8_value(
    config: &ConfigKeyMap,
    name: &str,
    diagnostics: &mut Vec<ConfigurationDiagnostic>,
) -> (value: Option<u8>)
    ensures
        value == read_u8(lookup(config@, name@)).0,
        diagnostic_views(final(diagnostics)@) == diagnostic_views(old(diagnostics)@)
            + problem_diagnostics(name@, read_u8(lookup(config@, name@)).1),
{
    match read_text(config, name, diagnostics) {
        None => None,
        Some(t) => match parse_u8_text(t.as_str()) {
            Ok(n) => Some(n),
            Err(message) => {
                push_diagnostic(diagnostics, name, message);
                None
            },
        },
    }
}

/// The property `name` read as a boolean; a problem becomes a diagnostic.
pub fn read_bool_value(
    config: &ConfigKeyMap,
    name: &str,
    diagnostics: &mut Vec<ConfigurationDiagnostic>,
) -> (value: Option<bool>)
    ensures
        value == read_bool(lookup(config@, name@)).0,
        diagnostic_views(final(diagnostics)@) == diagnostic_views(old(diagnostics)@)
            + problem_diagnostics(name@, read_bool(lookup(config@, name@)).1),
{
    match read_text(config, name, diagnostics) {
        None => None,
        Some(t) => match parse_bool_text(t.as_str()) {
            Ok(b) => Some(b),
            Err(message) => {
                push_diagnostic(diagnostics, name, message);
                None
            },
        },
    }
}

/// The property `name` read as a raw line ending kind; a problem becomes a
/// diagnostic.
pub fn read_raw_new_line_kind_value(
    config: &ConfigKeyMap,
    name: &str,
    diagnostics: &mut Vec<ConfigurationDiagnostic>,
) -> (value: Option<RawNewLineKind>)
    ensures
        value == read_raw_new_line_kind(lookup(config@, name@)).0,
        diagnostic_views(final(diagnostics)@) == diagnostic_views(old(diagnostics)@)
            + problem_diagnostics(name@, read_raw_new_line_kind(lookup(config@, name@)).1),
{
    match read_text(config, name, diagnostics) {
        None => None,
        Some(t) => match parse_raw_new_line_kind(t.as_str()) {
            Ok(k) => Some(k),
            Err(message) => {
                push_diagnostic(diagnostics, name, message);
                None
            },
        },
    }
}

/// The property `name` read as a line ending; a problem becomes a diagnostic.
pub fn read_line_ending_value(
    config: &ConfigKeyMap,
    name: &str,
    diagnostics: &mut Vec<ConfigurationDiagnostic>,
) -> (value: Option<LineEnding>)
    ensures
        value == read_line_ending(lookup(config@, name@)).0,
        diagnostic_views(final(diagnostics)@) == diagnostic_views(old(diagnostics)@)
            + problem_diagnostics(name@, read_line_ending(lookup(config@, name@)).1),
{
    match read_text(config, name, diagnostics) {
        None => None,
        Some(t) => match LineEnding::parse(t.as_str()) {
            Ok(e) => Some(e),
            Err(e) => {
                push_diagnostic(diagnostics, name, e.0);
                None
            },
        },
    }
}

} // verus!
