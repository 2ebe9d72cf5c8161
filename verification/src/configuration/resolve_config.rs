//! Resolving the plugin's configuration map into a [`Configuration`].

use vstd::prelude::*;
use crate::configuration::config_map::{ConfigEntries, ConfigKeyMap, ConfigKeyValue, lookup};
use crate::configuration::types::{
    AlignOption,
    Configuration,
    ConfigurationDiagnostic,
    ConfigurationView,
    DuplicateRule,
    DuplicatesOption,
    DuplicatesOptionView,
    EscapeOption,
    EscapeOptionView,
    FieldListOrBool,
    FieldListOrBoolView,
    GenerateKeysOption,
    GenerateKeysOptionView,
    GlobalConfiguration,
    LineEnding,
    MergeOption,
    MergeStrategy,
    NewLineKind,
    ResolveConfigurationResult,
    WrapOption,
    diagnostic_views,
    duplicate_rule_from_text,
    duplicate_rule_text,
    field_list_view,
    merge_strategy_from_text,
    law_duplicate_rule_names,
    law_duplicate_rule_names_round_trip,
    law_merge_strategy_names,
    texts,
};
use crate::configuration::values::{
    RawNewLineKind,
    ValueText,
    bool_from_text,
    bool_text,
    law_number_reads_as_itself,
    problem_diagnostics,
    push_diagnostic,
    read_bool,
    read_bool_value,
    read_line_ending,
    read_line_ending_value,
    read_raw_new_line_kind,
    read_raw_new_line_kind_value,
    read_u32,
    read_u32_value,
    read_u8,
    read_u8_value,
    value_text,
};
use crate::text::text_equals;

verus! {

/// A reading of a property: its value, if it has a usable one, and the problem
/// found on it, if any.
pub type Reading<T> = (Option<T>, Option<Seq<char>>);

/// The problem reported on an array that holds something other than strings.
pub open spec fn expected_strings_message(name: Seq<char>) -> Seq<char> {
    "Expected array of strings for "@ + name + "."@
}

/// The characters of each item, when every item is a string; nothing as soon
/// as one is not.
pub open spec fn string_list(items: Seq<ConfigKeyValue>) -> Option<Seq<Seq<char>>>
    decreases items.len(),
{
    if items.len() == 0 {
        Some(Seq::empty())
    } else {
        match string_list(items.drop_last()) {
            None => None,
            Some(list) => match items.last() {
                ConfigKeyValue::String(s) => Some(list.push(s@)),
                _ => None,
            },
        }
    }
}

/// `align`: a boolean, or a column that is not negative.
pub open spec fn align_reading(value: Option<ConfigKeyValue>) -> Reading<AlignOption> {
    match value {
        None => (None, None),
        Some(ConfigKeyValue::Bool(b)) => (Some(AlignOption::Bool(b)), None),
        Some(ConfigKeyValue::Number(n)) => if n < 0 {
            (None, Some("align must be a non-negative integer or boolean."@))
        } else {
            (Some(AlignOption::Column(n as u32)), None)
        },
        Some(_) => (None, Some("Expected a boolean or integer for align."@)),
    }
}

/// `wrap`: a boolean, or a column greater than zero.
pub open spec fn wrap_reading(value: Option<ConfigKeyValue>) -> Reading<WrapOption> {
    match value {
        None => (None, None),
        Some(ConfigKeyValue::Bool(b)) => (Some(WrapOption::Bool(b)), None),
        Some(ConfigKeyValue::Number(n)) => if n <= 0 {
            (None, Some("wrap must be a boolean."@))
        } else {
            (Some(WrapOption::Column(n as u32)), None)
        },
        Some(_) => (None, Some("Expected a boolean for wrap."@)),
    }
}

/// A property that takes a boolean or a list of field names.
pub open spec fn field_list_reading(name: Seq<char>, value: Option<ConfigKeyValue>) -> Reading<
    FieldListOrBoolView,
> {
    match value {
        None => (None, None),
        Some(ConfigKeyValue::Bool(b)) => (Some(FieldListOrBoolView::Bool(b)), None),
        Some(ConfigKeyValue::Array(items)) => match string_list(items@) {
            Some(list) => (Some(FieldListOrBoolView::List(list)), None),
            None => (None, Some(expected_strings_message(name))),
        },
        Some(_) => (None, Some("Expected a boolean or array of strings for "@ + name + "."@)),
    }
}

/// A property that takes a list of strings.
pub open spec fn string_array_reading(name: Seq<char>, value: Option<ConfigKeyValue>) -> Reading<
    Seq<Seq<char>>,
> {
    match value {
        None => (None, None),
        Some(ConfigKeyValue::Array(items)) => match string_list(items@) {
            Some(list) => (Some(list), None),
            None => (None, Some(expected_strings_message(name))),
        },
        Some(_) => (None, Some(expected_strings_message(name))),
    }
}

/// The problem reported on a string that names no duplicate rule.
pub open spec fn invalid_rule_message(text: Seq<char>) -> Seq<char> {
    "Invalid duplicate rule '"@ + text
        + "'. Expected 'doi', 'key', 'abstract', or 'citation'."@
}

/// The duplicate rules that the items name; the problem with the first item
/// that names none.
pub open spec fn duplicate_rules(items: Seq<ConfigKeyValue>) -> Result<Seq<DuplicateRule>, Seq<char>>
    decreases items.len(),
{
    if items.len() == 0 {
        Ok(Seq::empty())
    } else {
        match duplicate_rules(items.drop_last()) {
            Err(message) => Err(message),
            Ok(rules) => match items.last() {
                ConfigKeyValue::String(s) => match duplicate_rule_from_text(s@) {
                    Some(rule) => Ok(rules.push(rule)),
                    None => Err(invalid_rule_message(s@)),
                },
                _ => Err("Expected array of strings for duplicates."@),
            },
        }
    }
}

/// `duplicates`: a boolean, or a list of duplicate rules.
pub open spec fn duplicates_reading(value: Option<ConfigKeyValue>) -> Reading<DuplicatesOptionView> {
    match value {
        None => (None, None),
        Some(ConfigKeyValue::Bool(b)) => (Some(DuplicatesOptionView::Bool(b)), None),
        Some(ConfigKeyValue::Array(items)) => match duplicate_rules(items@) {
            Ok(rules) => (Some(DuplicatesOptionView::Rules(rules)), None),
            Err(message) => (None, Some(message)),
        },
        Some(_) => (None, Some("Expected a boolean or array of strings for duplicates."@)),
    }
}

/// `merge`: a boolean, or the name of a merge strategy.
pub open spec fn merge_reading(value: Option<ConfigKeyValue>) -> Reading<MergeOption> {
    match value {
        None => (None, None),
        Some(ConfigKeyValue::Bool(b)) => (Some(MergeOption::Bool(b)), None),
        Some(ConfigKeyValue::String(s)) => match merge_strategy_from_text(s@) {
            Some(strategy) => (Some(MergeOption::Strategy(strategy)), None),
            None => (
                None,
                Some(
                    "Invalid merge strategy '"@ + s@
                        + "'. Expected 'first', 'last', 'combine', or 'overwrite'."@,
                ),
            ),
        },
        Some(_) => (None, Some("Expected a boolean or string for merge."@)),
    }
}

/// `escape`: a boolean, or the mode `new`.
pub open spec fn escape_reading(value: Option<ConfigKeyValue>) -> Reading<EscapeOptionView> {
    match value {
        None => (None, None),
        Some(ConfigKeyValue::Bool(b)) => (Some(EscapeOptionView::Bool(b)), None),
        Some(ConfigKeyValue::String(s)) => if s@ == "new"@ {
            (Some(EscapeOptionView::Mode(s@)), None)
        } else {
            (None, Some("Invalid escape option '"@ + s@ + "'. Expected true, false, or 'new'."@))
        },
        Some(_) => (None, Some("Expected a boolean or 'new' for escape."@)),
    }
}

/// `generateKeys`: a boolean, or a key template.
pub open spec fn generate_keys_reading(value: Option<ConfigKeyValue>) -> Reading<
    GenerateKeysOptionView,
> {
    match value {
        None => (None, None),
        Some(ConfigKeyValue::Bool(b)) => (Some(GenerateKeysOptionView::Bool(b)), None),
        Some(ConfigKeyValue::String(s)) => (Some(GenerateKeysOptionView::Template(s@)), None),
        Some(_) => (None, Some("Expected a boolean or string template for generateKeys."@)),
    }
}

/// `a`, or `b` when `a` is nothing.
pub open spec fn or_else<T>(a: Option<T>, b: Option<T>) -> Option<T> {
    match a {
        Some(x) => Some(x),
        None => b,
    }
}

/// `value`, or nothing when it is zero.
pub open spec fn nonzero(value: Option<u32>) -> Option<u32> {
    if value == Some(0u32) {
        None
    } else {
        value
    }
}

/// The diagnostic on `name` when `value` is zero.
pub open spec fn zero_diagnostics(name: Seq<char>, value: Option<u32>, message: Seq<char>) -> Seq<
    (Seq<char>, Seq<char>),
> {
    if value == Some(0u32) {
        seq![(name, message)]
    } else {
        Seq::empty()
    }
}

/// The line ending kind that a raw kind stands for, `system` being the kind of
/// the system.
pub open spec fn new_line_kind_of(raw: Option<RawNewLineKind>, system: NewLineKind) -> Option<
    NewLineKind,
> {
    match raw {
        None => None,
        Some(RawNewLineKind::Auto) => Some(NewLineKind::Auto),
        Some(RawNewLineKind::LineFeed) => Some(NewLineKind::LineFeed),
        Some(RawNewLineKind::CarriageReturnLineFeed) => Some(NewLineKind::CarriageReturnLineFeed),
        Some(RawNewLineKind::System) => Some(system),
    }
}

/// The line width: the plugin's, else the global one; zero is refused.
pub open spec fn resolved_line_width(m: ConfigEntries, g: GlobalConfiguration) -> Option<u32> {
    nonzero(or_else(read_u32(lookup(m, "lineWidth"@)).0, g.line_width))
}

/// The configuration that `m` resolves to, with `g` as the global
/// configuration and `system` as the system's line ending kind.
pub open spec fn resolved_configuration(
    m: ConfigEntries,
    g: GlobalConfiguration,
    system: NewLineKind,
) -> ConfigurationView {
    ConfigurationView {
        line_width: resolved_line_width(m, g),
        indent_width: or_else(read_u8(lookup(m, "indentWidth"@)).0, g.indent_width),
        new_line_kind: or_else(
            new_line_kind_of(read_raw_new_line_kind(lookup(m, "newLineKind"@)).0, system),
            g.new_line_kind,
        ),
        line_ending: read_line_ending(lookup(m, "lineEnding"@)).0,
        use_tabs: or_else(read_bool(lookup(m, "useTabs"@)).0, g.use_tabs),
        tab: read_bool(lookup(m, "tab"@)).0,
        space: read_u8(lookup(m, "space"@)).0,
        align: align_reading(lookup(m, "align"@)).0,
        blank_lines: read_bool(lookup(m, "blankLines"@)).0,
        curly: read_bool(lookup(m, "curly"@)).0,
        numeric: read_bool(lookup(m, "numeric"@)).0,
        months: read_bool(lookup(m, "months"@)).0,
        sort: field_list_reading("sort"@, lookup(m, "sort"@)).0,
        duplicates: duplicates_reading(lookup(m, "duplicates"@)).0,
        merge: merge_reading(lookup(m, "merge"@)).0,
        strip_enclosing_braces: read_bool(lookup(m, "stripEnclosingBraces"@)).0,
        drop_all_caps: read_bool(lookup(m, "dropAllCaps"@)).0,
        escape: escape_reading(lookup(m, "escape"@)).0,
        unescape: read_bool(lookup(m, "unescape"@)).0,
        sort_fields: field_list_reading("sortFields"@, lookup(m, "sortFields"@)).0,
        strip_comments: read_bool(lookup(m, "stripComments"@)).0,
        trailing_commas: read_bool(lookup(m, "trailingCommas"@)).0,
        encode_urls: read_bool(lookup(m, "encodeUrls"@)).0,
        tidy_comments: read_bool(lookup(m, "tidyComments"@)).0,
        remove_empty_fields: read_bool(lookup(m, "removeEmptyFields"@)).0,
        remove_duplicate_fields: read_bool(lookup(m, "removeDuplicateFields"@)).0,
        generate_keys: generate_keys_reading(lookup(m, "generateKeys"@)).0,
        max_authors: nonzero(read_u32(lookup(m, "maxAuthors"@)).0),
        lowercase: read_bool(lookup(m, "lowercase"@)).0,
        enclosing_braces: field_list_reading("enclosingBraces"@, lookup(m, "enclosingBraces"@)).0,
        remove_braces: field_list_reading("removeBraces"@, lookup(m, "removeBraces"@)).0,
        wrap: wrap_reading(lookup(m, "wrap"@)).0,
        omit: string_array_reading("omit"@, lookup(m, "omit"@)).0,
    }
}

/// The properties that the plugin reads.
pub open spec fn is_known_property(name: Seq<char>) -> bool {
    ||| name == "lineWidth"@
    ||| name == "indentWidth"@
    ||| name == "newLineKind"@
    ||| name == "lineEnding"@
    ||| name == "useTabs"@
    ||| name == "tab"@
    ||| name == "space"@
    ||| name == "align"@
    ||| name == "blankLines"@
    ||| name == "curly"@
    ||| name == "numeric"@
    ||| name == "months"@
    ||| name == "sort"@
    ||| name == "duplicates"@
    ||| name == "merge"@
    ||| name == "stripEnclosingBraces"@
    ||| name == "dropAllCaps"@
    ||| name == "escape"@
    ||| name == "unescape"@
    ||| name == "sortFields"@
    ||| name == "stripComments"@
    ||| name == "trailingCommas"@
    ||| name == "encodeUrls"@
    ||| name == "tidyComments"@
    ||| name == "removeEmptyFields"@
    ||| name == "removeDuplicateFields"@
    ||| name == "generateKeys"@
    ||| name == "maxAuthors"@
    ||| name == "lowercase"@
    ||| name == "enclosingBraces"@
    ||| name == "removeBraces"@
    ||| name == "wrap"@
    ||| name == "omit"@
}

/// The first characters and the lengths of the property and option names,
/// enough to tell any two of them apart.
pub(crate) proof fn lemma_property_names()
    ensures
        "tab"@[0] == 't',
        "tab"@.len() == 3,
        "space"@[0] == 's',
        "space"@.len() == 5,
        "align"@[0] == 'a',
        "align"@.len() == 5,
        "blankLines"@[0] == 'b',
        "blankLines"@.len() == 10,
        "curly"@[0] == 'c',
        "curly"@.len() == 5,
        "numeric"@[0] == 'n',
        "numeric"@.len() == 7,
        "months"@[0] == 'm',
        "months"@.len() == 6,
        "sort"@[0] == 's',
        "sort"@.len() == 4,
        "duplicates"@[0] == 'd',
        "duplicates"@.len() == 10,
        "merge"@[0] == 'm',
        "merge"@.len() == 5,
        "stripEnclosingBraces"@[0] == 's',
        "stripEnclosingBraces"@.len() == 20,
        "dropAllCaps"@[0] == 'd',
        "dropAllCaps"@.len() == 11,
        "escape"@[0] == 'e',
        "escape"@.len() == 6,
        "unescape"@[0] == 'u',
        "unescape"@.len() == 8,
        "sortFields"@[0] == 's',
        "sortFields"@.len() == 10,
        "stripComments"@[0] == 's',
        "stripComments"@.len() == 13,
        "trailingCommas"@[0] == 't',
        "trailingCommas"@.len() == 14,
        "encodeUrls"@[0] == 'e',
        "encodeUrls"@.len() == 10,
        "tidyComments"@[0] == 't',
        "tidyComments"@.len() == 12,
        "removeEmptyFields"@[0] == 'r',
        "removeEmptyFields"@.len() == 17,
        "removeDuplicateFields"@[0] == 'r',
        "removeDuplicateFields"@.len() == 21,
        "generateKeys"@[0] == 'g',
        "generateKeys"@.len() == 12,
        "maxAuthors"@[0] == 'm',
        "maxAuthors"@.len() == 10,
        "lowercase"@[0] == 'l',
        "lowercase"@.len() == 9,
        "enclosingBraces"@[0] == 'e',
        "enclosingBraces"@.len() == 15,
        "removeBraces"@[0] == 'r',
        "removeBraces"@.len() == 12,
        "wrap"@[0] == 'w',
        "wrap"@.len() == 4,
        "omit"@[0] == 'o',
        "omit"@.len() == 4,
        "lineEnding"@[0] == 'l',
        "lineEnding"@.len() == 10,
        "newLineKind"@[0] == 'n',
        "newLineKind"@.len() == 11,
        "lineWidth"@[0] == 'l',
        "lineWidth"@.len() == 9,
        "indentWidth"@[0] == 'i',
        "indentWidth"@.len() == 11,
        "useTabs"@[0] == 'u',
        "useTabs"@.len() == 7,
        "lineWidth"@[1] == 'i',
        "lowercase"@[1] == 'o',
{
    reveal_strlit("tab");
    reveal_strlit("space");
    reveal_strlit("align");
    reveal_strlit("blankLines");
    reveal_strlit("curly");
    reveal_strlit("numeric");
    reveal_strlit("months");
    reveal_strlit("sort");
    reveal_strlit("duplicates");
    reveal_strlit("merge");
    reveal_strlit("stripEnclosingBraces");
    reveal_strlit("dropAllCaps");
    reveal_strlit("escape");
    reveal_strlit("unescape");
    reveal_strlit("sortFields");
    reveal_strlit("stripComments");
    reveal_strlit("trailingCommas");
    reveal_strlit("encodeUrls");
    reveal_strlit("tidyComments");
    reveal_strlit("removeEmptyFields");
    reveal_strlit("removeDuplicateFields");
    reveal_strlit("generateKeys");
    reveal_strlit("maxAuthors");
    reveal_strlit("lowercase");
    reveal_strlit("enclosingBraces");
    reveal_strlit("removeBraces");
    reveal_strlit("wrap");
    reveal_strlit("omit");
    reveal_strlit("lineEnding");
    reveal_strlit("newLineKind");
    reveal_strlit("lineWidth");
    reveal_strlit("indentWidth");
    reveal_strlit("useTabs");
}

/// One diagnostic for each entry whose property the plugin does not read, in
/// the order of the entries.
pub open spec fn unknown_property_diagnostics(m: ConfigEntries) -> Seq<(Seq<char>, Seq<char>)>
    decreases m.len(),
{
    if m.len() == 0 {
        Seq::empty()
    } else {
        unknown_property_diagnostics(m.drop_last()) + if is_known_property(m.last().0) {
            Seq::<(Seq<char>, Seq<char>)>::empty()
        } else {
            seq![(m.last().0, "Unknown property in configuration"@)]
        }
    }
}

/// The problems with the properties of layout, in the order in which they are
/// read: `lineWidth` (whose value, the plugin's or else the global one, must
/// not be zero), `indentWidth`, `newLineKind`, `lineEnding`, `useTabs`, `tab`,
/// `space` and `align`.
pub open spec fn layout_diagnostics(m: ConfigEntries, g: GlobalConfiguration) -> Seq<
    (Seq<char>, Seq<char>),
> {
    problem_diagnostics("lineWidth"@, read_u32(lookup(m, "lineWidth"@)).1)
    + zero_diagnostics(
        "lineWidth"@,
        or_else(read_u32(lookup(m, "lineWidth"@)).0, g.line_width),
        "lineWidth must be greater than 0."@,
    )
    + problem_diagnostics("indentWidth"@, read_u8(lookup(m, "indentWidth"@)).1)
    + problem_diagnostics("newLineKind"@, read_raw_new_line_kind(lookup(m, "newLineKind"@)).1)
    + problem_diagnostics("lineEnding"@, read_line_ending(lookup(m, "lineEnding"@)).1)
    + problem_diagnostics("useTabs"@, read_bool(lookup(m, "useTabs"@)).1)
    + problem_diagnostics("tab"@, read_bool(lookup(m, "tab"@)).1)
    + problem_diagnostics("space"@, read_u8(lookup(m, "space"@)).1)
    + problem_diagnostics("align"@, align_reading(lookup(m, "align"@)).1)
}

/// The problems with the properties from `blankLines` to `sortFields`, in the
/// order in which they are read.
pub open spec fn entry_diagnostics(m: ConfigEntries) -> Seq<(Seq<char>, Seq<char>)> {
    problem_diagnostics("blankLines"@, read_bool(lookup(m, "blankLines"@)).1)
    + problem_diagnostics("curly"@, read_bool(lookup(m, "curly"@)).1)
    + problem_diagnostics("numeric"@, read_bool(lookup(m, "numeric"@)).1)
    + problem_diagnostics("months"@, read_bool(lookup(m, "months"@)).1)
    + problem_diagnostics("sort"@, field_list_reading("sort"@, lookup(m, "sort"@)).1)
    + problem_diagnostics("duplicates"@, duplicates_reading(lookup(m, "duplicates"@)).1)
    + problem_diagnostics("merge"@, merge_reading(lookup(m, "merge"@)).1)
    + problem_diagnostics(
        "stripEnclosingBraces"@,
        read_bool(lookup(m, "stripEnclosingBraces"@)).1,
    )
    + problem_diagnostics("dropAllCaps"@, read_bool(lookup(m, "dropAllCaps"@)).1)
    + problem_diagnostics("escape"@, escape_reading(lookup(m, "escape"@)).1)
    + problem_diagnostics("unescape"@, read_bool(lookup(m, "unescape"@)).1)
    + problem_diagnostics(
        "sortFields"@,
        field_list_reading("sortFields"@, lookup(m, "sortFields"@)).1,
    )
}

/// The problems with the properties from `stripComments` to `omit`, in the
/// order in which they are read; `maxAuthors` must not be zero.
pub open spec fn cleanup_diagnostics(m: ConfigEntries) -> Seq<(Seq<char>, Seq<char>)> {
    problem_diagnostics("stripComments"@, read_bool(lookup(m, "stripComments"@)).1)
    + problem_diagnostics("trailingCommas"@, read_bool(lookup(m, "trailingCommas"@)).1)
    + problem_diagnostics("encodeUrls"@, read_bool(lookup(m, "encodeUrls"@)).1)
    + problem_diagnostics("tidyComments"@, read_bool(lookup(m, "tidyComments"@)).1)
    + problem_diagnostics("removeEmptyFields"@, read_bool(lookup(m, "removeEmptyFields"@)).1)
    + problem_diagnostics(
        "removeDuplicateFields"@,
        read_bool(lookup(m, "removeDuplicateFields"@)).1,
    )
    + problem_diagnostics("generateKeys"@, generate_keys_reading(lookup(m, "generateKeys"@)).1)
    + problem_diagnostics("maxAuthors"@, read_u32(lookup(m, "maxAuthors"@)).1)
    + zero_diagnostics(
        "maxAuthors"@,
        read_u32(lookup(m, "maxAuthors"@)).0,
        "maxAuthors must be greater than 0."@,
    )
    + problem_diagnostics("lowercase"@, read_bool(lookup(m, "lowercase"@)).1)
    + problem_diagnostics(
        "enclosingBraces"@,
        field_list_reading("enclosingBraces"@, lookup(m, "enclosingBraces"@)).1,
    )
    + problem_diagnostics(
        "removeBraces"@,
        field_list_reading("removeBraces"@, lookup(m, "removeBraces"@)).1,
    )
    + problem_diagnostics("wrap"@, wrap_reading(lookup(m, "wrap"@)).1)
    + problem_diagnostics("omit"@, string_array_reading("omit"@, lookup(m, "omit"@)).1)
}

/// The diagnostics of resolving `m` with `g` as the global configuration: the
/// problems with the properties, in the order in which they are read, then one
/// for each property that the plugin does not read.
pub open spec fn resolution_diagnostics(m: ConfigEntries, g: GlobalConfiguration) -> Seq<
    (Seq<char>, Seq<char>),
> {
    layout_diagnostics(m, g) + entry_diagnostics(m) + cleanup_diagnostics(m)
        + unknown_property_diagnostics(m)
}

/// The strings of a list, nothing when an item is not a string.
proof fn lemma_string_list_stays_none(items: Seq<ConfigKeyValue>, k: int)
    requires
        0 <= k <= items.len(),
        string_list(items.take(k)) is None,
    ensures
        string_list(items) is None,
    decreases items.len() - k,
{
    if k < items.len() {
        assert(items.take(k + 1).drop_last() =~= items.take(k));
        lemma_string_list_stays_none(items, k + 1);
    } else {
        assert(items.take(k) =~= items);
    }
}

proof fn lemma_duplicate_rules_stay_failed(items: Seq<ConfigKeyValue>, k: int, message: Seq<char>)
    requires
        0 <= k <= items.len(),
        duplicate_rules(items.take(k)) == Err::<Seq<DuplicateRule>, Seq<char>>(message),
    ensures
        duplicate_rules(items) == Err::<Seq<DuplicateRule>, Seq<char>>(message),
    decreases items.len() - k,
{
    if k < items.len() {
        assert(items.take(k + 1).drop_last() =~= items.take(k));
        lemma_duplicate_rules_stay_failed(items, k + 1, message);
    } else {
        assert(items.take(k) =~= items);
    }
}

/// The strings of `items`, when every item is a string.
fn string_items(items: &Vec<ConfigKeyValue>) -> (strings: Option<Vec<String>>)
    ensures
        match strings {
            Some(v) => string_list(items@) == Some(texts(v@)),
            None => string_list(items@) is None,
        },
{
    let mut strings: Vec<String> = Vec::new();
    let mut i: usize = 0;
    proof {
        assert(items@.take(0) =~= Seq::<ConfigKeyValue>::empty());
        assert(texts(strings@) =~= Seq::<Seq<char>>::empty());
    }
    while i < items.len()
        invariant
            0 <= i <= items.len(),
            string_list(items@.take(i as int)) == Some(texts(strings@)),
        decreases items.len() - i,
    {
        proof {
            assert(items@.take(i + 1).drop_last() =~= items@.take(i as int));
            assert(items@.take(i + 1).last() == items@[i as int]);
        }
        match &items[i] {
            ConfigKeyValue::String(s) => {
                let ghost before = strings@;
                strings.push(s.clone());
                proof {
                    assert(texts(strings@) =~= texts(before).push(s@));
                }
            },
            _ => {
                proof {
                    lemma_string_list_stays_none(items@, i + 1);
                }
                return None;
            },
        }
        i = i + 1;
    }
    proof {
        assert(items@.take(items@.len() as int) =~= items@);
    }
    Some(strings)
}

/// The problem reported on an array that holds something other than strings.
fn expected_strings_text(name: &str) -> (message: String)
    ensures
        message@ == expected_strings_message(name@),
{
    let mut message = String::from_str("Expected array of strings for ");
    message.append(name);
    message.append(".");
    message
}

fn resolve_align(config: &ConfigKeyMap, diagnostics: &mut Vec<ConfigurationDiagnostic>) -> (align:
    Option<AlignOption>)
    ensures
        align == align_reading(lookup(config@, "align"@)).0,
        diagnostic_views(final(diagnostics)@) == diagnostic_views(old(diagnostics)@)
            + problem_diagnostics("align"@, align_reading(lookup(config@, "align"@)).1),
{
    match config.get("align") {
        Some(ConfigKeyValue::Bool(b)) => Some(AlignOption::Bool(*b)),
        Some(ConfigKeyValue::Number(n)) => {
            if *n < 0 {
                push_diagnostic(
                    diagnostics,
                    "align",
                    String::from_str("align must be a non-negative integer or boolean."),
                );
                None
            } else {
                Some(AlignOption::Column(*n as u32))
            }
        },
        Some(_) => {
            push_diagnostic(
                diagnostics,
                "align",
                String::from_str("Expected a boolean or integer for align."),
            );
            None
        },
        None => None,
    }
}

fn resolve_wrap(config: &ConfigKeyMap, diagnostics: &mut Vec<ConfigurationDiagnostic>) -> (wrap:
    Option<WrapOption>)
    ensures
        wrap == wrap_reading(lookup(config@, "wrap"@)).0,
        diagnostic_views(final(diagnostics)@) == diagnostic_views(old(diagnostics)@)
            + problem_diagnostics("wrap"@, wrap_reading(lookup(config@, "wrap"@)).1),
{
    match config.get("wrap") {
        Some(ConfigKeyValue::Bool(b)) => Some(WrapOption::Bool(*b)),
        Some(ConfigKeyValue::Number(n)) => {
            if *n <= 0 {
                push_diagnostic(
                    diagnostics,
                    "wrap",
                    String::from_str("wrap must be a boolean."),
                );
                None
            } else {
                Some(WrapOption::Column(*n as u32))
            }
        },
        Some(_) => {
            push_diagnostic(
                diagnostics,
                "wrap",
                String::from_str("Expected a boolean for wrap."),
            );
            None
        },
        None => None,
    }
}

fn resolve_field_list_or_bool(
    config: &ConfigKeyMap,
    name: &str,
    diagnostics: &mut Vec<ConfigurationDiagnostic>,
) -> (list: Option<FieldListOrBool>)
    ensures
        field_list_view(list) == field_list_reading(name@, lookup(config@, name@)).0,
        diagnostic_views(final(diagnostics)@) == diagnostic_views(old(diagnostics)@)
            + problem_diagnostics(name@, field_list_reading(name@, lookup(config@, name@)).1),
{
    match config.get(name) {
        Some(ConfigKeyValue::Bool(b)) => Some(FieldListOrBool::Bool(*b)),
        Some(ConfigKeyValue::Array(items)) => match string_items(items) {
            Some(fields) => Some(FieldListOrBool::List(fields)),
            None => {
                push_diagnostic(diagnostics, name, expected_strings_text(name));
                None
            },
        },
        Some(_) => {
            let mut message = String::from_str("Expected a boolean or array of strings for ");
            message.append(name);
            message.append(".");
            push_diagnostic(diagnostics, name, message);
            None
        },
        None => None,
    }
}

fn resolve_duplicates(config: &ConfigKeyMap, diagnostics: &mut Vec<ConfigurationDiagnostic>) -> (dupes: Option<DuplicatesOption>)
    ensures
        match dupes {
            Some(d) => duplicates_reading(lookup(config@, "duplicates"@)).0 == Some(d@),
            None => duplicates_reading(lookup(config@, "duplicates"@)).0 is None,
        },
        diagnostic_views(final(diagnostics)@) == diagnostic_views(old(diagnostics)@)
            + problem_diagnostics("duplicates"@, duplicates_reading(lookup(config@, "duplicates"@)).1),
{
    match config.get("duplicates") {
        Some(ConfigKeyValue::Bool(b)) => Some(DuplicatesOption::Bool(*b)),
        Some(ConfigKeyValue::Array(items)) => {
            let mut rules: Vec<DuplicateRule> = Vec::new();
            let mut i: usize = 0;
            proof {
                assert(items@.take(0) =~= Seq::<ConfigKeyValue>::empty());
                assert(rules@ =~= Seq::<DuplicateRule>::empty());
            }
            while i < items.len()
                invariant
                    0 <= i <= items.len(),
                    duplicate_rules(items@.take(i as int)) == Ok::<Seq<DuplicateRule>, Seq<char>>(
                        rules@,
                    ),
                    diagnostics@ == old(diagnostics)@,
                    lookup(config@, "duplicates"@) == Some(ConfigKeyValue::Array(*items)),
                decreases items.len() - i,
            {
                proof {
                    assert(items@.take(i + 1).drop_last() =~= items@.take(i as int));
                    assert(items@.take(i + 1).last() == items@[i as int]);
                }
                match &items[i] {
                    ConfigKeyValue::String(s) => match DuplicateRule::parse(s.as_str()) {
                        Ok(rule) => {
                            rules.push(rule);
                        },
                        Err(_) => {
                            let mut message = String::from_str("Invalid duplicate rule '");
                            message.append(s.as_str());
                            message.append(
                                "'. Expected 'doi', 'key', 'abstract', or 'citation'.",
                            );
                            proof {
                                lemma_duplicate_rules_stay_failed(items@, i + 1, message@);
                            }
                            push_diagnostic(diagnostics, "duplicates", message);
                            return None;
                        },
                    },
                    _ => {
                        let message = String::from_str("Expected array of strings for duplicates.");
                        proof {
                            lemma_duplicate_rules_stay_failed(items@, i + 1, message@);
                        }
                        push_diagnostic(diagnostics, "duplicates", message);
                        return None;
                    },
                }
                i = i + 1;
            }
            proof {
                assert(items@.take(items@.len() as int) =~= items@);
            }
            Some(DuplicatesOption::Rules(rules))
        },
        Some(_) => {
            push_diagnostic(
                diagnostics,
                "duplicates",
                String::from_str("Expected a boolean or array of strings for duplicates."),
            );
            None
        },
        None => None,
    }
}

fn resolve_merge(config: &ConfigKeyMap, diagnostics: &mut Vec<ConfigurationDiagnostic>) -> (merge:
    Option<MergeOption>)
    ensures
        merge == merge_reading(lookup(config@, "merge"@)).0,
        diagnostic_views(final(diagnostics)@) == diagnostic_views(old(diagnostics)@)
            + problem_diagnostics("merge"@, merge_reading(lookup(config@, "merge"@)).1),
{
    match config.get("merge") {
        Some(ConfigKeyValue::Bool(b)) => Some(MergeOption::Bool(*b)),
        Some(ConfigKeyValue::String(s)) => match MergeStrategy::parse(s.as_str()) {
            Ok(strategy) => Some(MergeOption::Strategy(strategy)),
            Err(_) => {
                let mut message = String::from_str("Invalid merge strategy '");
                message.append(s.as_str());
                message.append("'. Expected 'first', 'last', 'combine', or 'overwrite'.");
                push_diagnostic(diagnostics, "merge", message);
                None
            },
        },
        Some(_) => {
            push_diagnostic(
                diagnostics,
                "merge",
                String::from_str("Expected a boolean or string for merge."),
            );
            None
        },
        None => None,
    }
}

fn resolve_escape(config: &ConfigKeyMap, diagnostics: &mut Vec<ConfigurationDiagnostic>) -> (escape: Option<EscapeOption>)
    ensures
        match escape {
            Some(e) => escape_reading(lookup(config@, "escape"@)).0 == Some(e@),
            None => escape_reading(lookup(config@, "escape"@)).0 is None,
        },
        diagnostic_views(final(diagnostics)@) == diagnostic_views(old(diagnostics)@)
            + problem_diagnostics("escape"@, escape_reading(lookup(config@, "escape"@)).1),
{
    match config.get("escape") {
        Some(ConfigKeyValue::Bool(b)) => Some(EscapeOption::Bool(*b)),
        Some(ConfigKeyValue::String(s)) => {
            if text_equals(s.as_str(), "new") {
                Some(EscapeOption::Mode(s.clone()))
            } else {
                let mut message = String::from_str("Invalid escape option '");
                message.append(s.as_str());
                message.append("'. Expected true, false, or 'new'.");
                push_diagnostic(diagnostics, "escape", message);
                None
            }
        },
        Some(_) => {
            push_diagnostic(
                diagnostics,
                "escape",
                String::from_str("Expected a boolean or 'new' for escape."),
            );
            None
        },
        None => None,
    }
}

fn resolve_generate_keys(config: &ConfigKeyMap, diagnostics: &mut Vec<ConfigurationDiagnostic>) -> (keys: Option<GenerateKeysOption>)
    ensures
        match keys {
            Some(k) => generate_keys_reading(lookup(config@, "generateKeys"@)).0 == Some(k@),
            None => generate_keys_reading(lookup(config@, "generateKeys"@)).0 is None,
        },
        diagnostic_views(final(diagnostics)@) == diagnostic_views(old(diagnostics)@)
            + problem_diagnostics(
            "generateKeys"@,
            generate_keys_reading(lookup(config@, "generateKeys"@)).1,
        ),
{
    match config.get("generateKeys") {
        Some(ConfigKeyValue::Bool(b)) => Some(GenerateKeysOption::Bool(*b)),
        Some(ConfigKeyValue::String(s)) => Some(GenerateKeysOption::Template(s.clone())),
        Some(_) => {
            push_diagnostic(
                diagnostics,
                "generateKeys",
                String::from_str("Expected a boolean or string template for generateKeys."),
            );
            None
        },
        None => None,
    }
}

fn resolve_string_array(
    config: &ConfigKeyMap,
    name: &str,
    diagnostics: &mut Vec<ConfigurationDiagnostic>,
) -> (strings: Option<Vec<String>>)
    ensures
        match strings {
            Some(v) => string_array_reading(name@, lookup(config@, name@)).0 == Some(texts(v@)),
            None => string_array_reading(name@, lookup(config@, name@)).0 is None,
        },
        diagnostic_views(final(diagnostics)@) == diagnostic_views(old(diagnostics)@)
            + problem_diagnostics(name@, string_array_reading(name@, lookup(config@, name@)).1),
{
    match config.get(name) {
        Some(ConfigKeyValue::Array(items)) => match string_items(items) {
            Some(strings) => Some(strings),
            None => {
                push_diagnostic(diagnostics, name, expected_strings_text(name));
                None
            },
        },
        Some(_) => {
            push_diagnostic(diagnostics, name, expected_strings_text(name));
            None
        },
        None => None,
    }
}

/// Whether the plugin reads the property `name`.
fn is_known_property_name(name: &str) -> (known: bool)
    ensures
        known == is_known_property(name@),
{
    text_equals(name, "lineWidth")
        || text_equals(name, "indentWidth")
        || text_equals(name, "newLineKind")
        || text_equals(name, "lineEnding")
        || text_equals(name, "useTabs")
        || text_equals(name, "tab")
        || text_equals(name, "space")
        || text_equals(name, "align")
        || text_equals(name, "blankLines")
        || text_equals(name, "curly")
        || text_equals(name, "numeric")
        || text_equals(name, "months")
        || text_equals(name, "sort")
        || text_equals(name, "duplicates")
        || text_equals(name, "merge")
        || text_equals(name, "stripEnclosingBraces")
        || text_equals(name, "dropAllCaps")
        || text_equals(name, "escape")
        || text_equals(name, "unescape")
        || text_equals(name, "sortFields")
        || text_equals(name, "stripComments")
        || text_equals(name, "trailingCommas")
        || text_equals(name, "encodeUrls")
        || text_equals(name, "tidyComments")
        || text_equals(name, "removeEmptyFields")
        || text_equals(name, "removeDuplicateFields")
        || text_equals(name, "generateKeys")
        || text_equals(name, "maxAuthors")
        || text_equals(name, "lowercase")
        || text_equals(name, "enclosingBraces")
        || text_equals(name, "removeBraces")
        || text_equals(name, "wrap")
        || text_equals(name, "omit")
}

/// Adds a diagnostic for each entry whose property the plugin does not read.
fn push_unknown_property_diagnostics(
    config: &ConfigKeyMap,
    diagnostics: &mut Vec<ConfigurationDiagnostic>,
)
    ensures
        diagnostic_views(final(diagnostics)@) == diagnostic_views(old(diagnostics)@)
            + unknown_property_diagnostics(config@),
{
    let names = config.names();
    let mut i: usize = 0;
    proof {
        assert(config@.take(0) =~= Seq::<(Seq<char>, ConfigKeyValue)>::empty());
    }
    while i < names.len()
        invariant
            0 <= i <= names.len(),
            names@.len() == config@.len(),
            forall|j: int| 0 <= j < config@.len() ==> #[trigger] names@[j]@ == config@[j].0,
            diagnostic_views(diagnostics@) == diagnostic_views(old(diagnostics)@)
                + unknown_property_diagnostics(config@.take(i as int)),
        decreases names.len() - i,
    {
        proof {
            assert(config@.take(i + 1).drop_last() =~= config@.take(i as int));
            assert(config@.take(i + 1).last() == config@[i as int]);
            assert(names@[i as int]@ == config@[i as int].0);
        }
        if !is_known_property_name(names[i].as_str()) {
            push_diagnostic(
                diagnostics,
                names[i].as_str(),
                String::from_str("Unknown property in configuration"),
            );
        }
        i = i + 1;
    }
    proof {
        assert(config@.take(config@.len() as int) =~= config@);
    }
}

/// The layout properties resolved, with their diagnostics.
fn resolve_layout(
    config: &ConfigKeyMap,
    global_config: &GlobalConfiguration,
    system_new_line_kind: NewLineKind,
) -> (layout: (
    Option<u32>,
    Option<u8>,
    Option<NewLineKind>,
    Option<LineEnding>,
    Option<bool>,
    Option<bool>,
    Option<u8>,
    Option<AlignOption>,
    Vec<ConfigurationDiagnostic>,
))
    ensures
        ({
            let v = resolved_configuration(config@, *global_config, system_new_line_kind);
            &&& layout.0 == v.line_width
            &&& layout.1 == v.indent_width
            &&& layout.2 == v.new_line_kind
            &&& layout.3 == v.line_ending
            &&& layout.4 == v.use_tabs
            &&& layout.5 == v.tab
            &&& layout.6 == v.space
            &&& layout.7 == v.align
        }),
        diagnostic_views(layout.8@) == layout_diagnostics(config@, *global_config),
{
    let mut diagnostics: Vec<ConfigurationDiagnostic> = Vec::new();
    let ghost m = config@;
    let ghost g = *global_config;

    // Line width
    let line_width = match read_u32_value(config, "lineWidth", &mut diagnostics) {
        Some(w) => Some(w),
        None => global_config.line_width,
    };
    proof {
        assert(diagnostic_views(diagnostics@) =~= problem_diagnostics(
            "lineWidth"@,
            read_u32(lookup(m, "lineWidth"@)).1,
        ));
    }
    let ghost before = diagnostic_views(diagnostics@);
    let line_width = match line_width {
        Some(0) => {
            push_diagnostic(
                &mut diagnostics,
                "lineWidth",
                String::from_str("lineWidth must be greater than 0."),
            );
            None
        },
        other => other,
    };
    proof {
        assert(diagnostic_views(diagnostics@) =~= before + zero_diagnostics(
            "lineWidth"@,
            or_else(read_u32(lookup(m, "lineWidth"@)).0, g.line_width),
            "lineWidth must be greater than 0."@,
        ));
    }

    // Indent width
    let indent_width = match read_u8_value(config, "indentWidth", &mut diagnostics) {
        Some(w) => Some(w),
        None => global_config.indent_width,
    };

    // New line kind: the plugin's own overrides the global one.
    let local_new_line_kind = match read_raw_new_line_kind_value(
        config,
        "newLineKind",
        &mut diagnostics,
    ) {
        Some(RawNewLineKind::Auto) => Some(NewLineKind::Auto),
        Some(RawNewLineKind::LineFeed) => Some(NewLineKind::LineFeed),
        Some(RawNewLineKind::CarriageReturnLineFeed) => Some(NewLineKind::CarriageReturnLineFeed),
        Some(RawNewLineKind::System) => Some(system_new_line_kind),
        None => None,
    };
    let new_line_kind = match local_new_line_kind {
        Some(k) => Some(k),
        None => global_config.new_line_kind,
    };
    let line_ending = read_line_ending_value(config, "lineEnding", &mut diagnostics);

    // Tabs and spaces
    let use_tabs = match read_bool_value(config, "useTabs", &mut diagnostics) {
        Some(t) => Some(t),
        None => global_config.use_tabs,
    };
    let tab = read_bool_value(config, "tab", &mut diagnostics);
    let space = read_u8_value(config, "space", &mut diagnostics);

    let align = resolve_align(config, &mut diagnostics);
    (line_width, indent_width, new_line_kind, line_ending, use_tabs, tab, space, align, diagnostics)
}

/// The properties from `blankLines` to `sortFields` resolved, with their
/// diagnostics.
fn resolve_entry_options(config: &ConfigKeyMap) -> (options: (
    Option<bool>,
    Option<bool>,
    Option<bool>,
    Option<bool>,
    Option<FieldListOrBool>,
    Option<DuplicatesOption>,
    Option<MergeOption>,
    Option<bool>,
    Option<bool>,
    Option<EscapeOption>,
    Option<bool>,
    Option<FieldListOrBool>,
    Vec<ConfigurationDiagnostic>,
))
    ensures
        ({
            let m = config@;
            &&& options.0 == read_bool(lookup(m, "blankLines"@)).0
            &&& options.1 == read_bool(lookup(m, "curly"@)).0
            &&& options.2 == read_bool(lookup(m, "numeric"@)).0
            &&& options.3 == read_bool(lookup(m, "months"@)).0
            &&& field_list_view(options.4) == field_list_reading("sort"@, lookup(m, "sort"@)).0
            &&& match options.5 {
                Some(d) => duplicates_reading(lookup(m, "duplicates"@)).0 == Some(d@),
                None => duplicates_reading(lookup(m, "duplicates"@)).0 is None,
            }
            &&& options.6 == merge_reading(lookup(m, "merge"@)).0
            &&& options.7 == read_bool(lookup(m, "stripEnclosingBraces"@)).0
            &&& options.8 == read_bool(lookup(m, "dropAllCaps"@)).0
            &&& match options.9 {
                Some(e) => escape_reading(lookup(m, "escape"@)).0 == Some(e@),
                None => escape_reading(lookup(m, "escape"@)).0 is None,
            }
            &&& options.10 == read_bool(lookup(m, "unescape"@)).0
            &&& field_list_view(options.11) == field_list_reading(
                "sortFields"@,
                lookup(m, "sortFields"@),
            ).0
        }),
        diagnostic_views(options.12@) == entry_diagnostics(config@),
{
    let mut diagnostics: Vec<ConfigurationDiagnostic> = Vec::new();
    let ghost m = config@;
    let blank_lines = read_bool_value(config, "blankLines", &mut diagnostics);
    proof {
        assert(diagnostic_views(diagnostics@) =~= problem_diagnostics(
            "blankLines"@,
            read_bool(lookup(m, "blankLines"@)).1,
        ));
    }
    let curly = read_bool_value(config, "curly", &mut diagnostics);
    let numeric = read_bool_value(config, "numeric", &mut diagnostics);
    let months = read_bool_value(config, "months", &mut diagnostics);

    let sort = resolve_field_list_or_bool(config, "sort", &mut diagnostics);
    let duplicates = resolve_duplicates(config, &mut diagnostics);
    let merge = resolve_merge(config, &mut diagnostics);

    let strip_enclosing_braces = read_bool_value(config, "stripEnclosingBraces", &mut diagnostics);
    let drop_all_caps = read_bool_value(config, "dropAllCaps", &mut diagnostics);

    let escape = resolve_escape(config, &mut diagnostics);
    let unescape = read_bool_value(config, "unescape", &mut diagnostics);

    let sort_fields = resolve_field_list_or_bool(config, "sortFields", &mut diagnostics);
    (
        blank_lines,
        curly,
        numeric,
        months,
        sort,
        duplicates,
        merge,
        strip_enclosing_braces,
        drop_all_caps,
        escape,
        unescape,
        sort_fields,
        diagnostics,
    )
}

/// The properties from `stripComments` to `omit` resolved, with their
/// diagnostics.
fn resolve_cleanup_options(config: &ConfigKeyMap) -> (options: (
    Option<bool>,
    Option<bool>,
    Option<bool>,
    Option<bool>,
    Option<bool>,
    Option<bool>,
    Option<GenerateKeysOption>,
    Option<u32>,
    Option<bool>,
    Option<FieldListOrBool>,
    Option<FieldListOrBool>,
    Option<WrapOption>,
    Option<Vec<String>>,
    Vec<ConfigurationDiagnostic>,
))
    ensures
        ({
            let m = config@;
            &&& options.0 == read_bool(lookup(m, "stripComments"@)).0
            &&& options.1 == read_bool(lookup(m, "trailingCommas"@)).0
            &&& options.2 == read_bool(lookup(m, "encodeUrls"@)).0
            &&& options.3 == read_bool(lookup(m, "tidyComments"@)).0
            &&& options.4 == read_bool(lookup(m, "removeEmptyFields"@)).0
            &&& options.5 == read_bool(lookup(m, "removeDuplicateFields"@)).0
            &&& match options.6 {
                Some(k) => generate_keys_reading(lookup(m, "generateKeys"@)).0 == Some(k@),
                None => generate_keys_reading(lookup(m, "generateKeys"@)).0 is None,
            }
            &&& options.7 == nonzero(read_u32(lookup(m, "maxAuthors"@)).0)
            &&& options.8 == read_bool(lookup(m, "lowercase"@)).0
            &&& field_list_view(options.9) == field_list_reading(
                "enclosingBraces"@,
                lookup(m, "enclosingBraces"@),
            ).0
            &&& field_list_view(options.10) == field_list_reading(
                "removeBraces"@,
                lookup(m, "removeBraces"@),
            ).0
            &&& options.11 == wrap_reading(lookup(m, "wrap"@)).0
            &&& match options.12 {
                Some(o) => string_array_reading("omit"@, lookup(m, "omit"@)).0 == Some(texts(o@)),
                None => string_array_reading("omit"@, lookup(m, "omit"@)).0 is None,
            }
        }),
        diagnostic_views(options.13@) == cleanup_diagnostics(config@),
{
    let mut diagnostics: Vec<ConfigurationDiagnostic> = Vec::new();
    let ghost m = config@;
    let strip_comments = read_bool_value(config, "stripComments", &mut diagnostics);
    proof {
        assert(diagnostic_views(diagnostics@) =~= problem_diagnostics(
            "stripComments"@,
            read_bool(lookup(m, "stripComments"@)).1,
        ));
    }
    let trailing_commas = read_bool_value(config, "trailingCommas", &mut diagnostics);
    let encode_urls = read_bool_value(config, "encodeUrls", &mut diagnostics);
    let tidy_comments = read_bool_value(config, "tidyComments", &mut diagnostics);
    let remove_empty_fields = read_bool_value(config, "removeEmptyFields", &mut diagnostics);
    let remove_duplicate_fields = read_bool_value(
        config,
        "removeDuplicateFields",
        &mut diagnostics,
    );

    let generate_keys = resolve_generate_keys(config, &mut diagnostics);

    let max_authors = read_u32_value(config, "maxAuthors", &mut diagnostics);
    let ghost before = diagnostic_views(diagnostics@);
    let max_authors = match max_authors {
        Some(0) => {
            push_diagnostic(
                &mut diagnostics,
                "maxAuthors",
                String::from_str("maxAuthors must be greater than 0."),
            );
            None
        },
        other => other,
    };
    proof {
        assert(diagnostic_views(diagnostics@) =~= before + zero_diagnostics(
            "maxAuthors"@,
            read_u32(lookup(m, "maxAuthors"@)).0,
            "maxAuthors must be greater than 0."@,
        ));
    }

    let lowercase = read_bool_value(config, "lowercase", &mut diagnostics);
    let enclosing_braces = resolve_field_list_or_bool(config, "enclosingBraces", &mut diagnostics);
    let remove_braces = resolve_field_list_or_bool(config, "removeBraces", &mut diagnostics);

    let wrap = resolve_wrap(config, &mut diagnostics);
    let omit = resolve_string_array(config, "omit", &mut diagnostics);
    (
        strip_comments,
        trailing_commas,
        encode_urls,
        tidy_comments,
        remove_empty_fields,
        remove_duplicate_fields,
        generate_keys,
        max_authors,
        lowercase,
        enclosing_braces,
        remove_braces,
        wrap,
        omit,
        diagnostics,
    )
}

/// Resolves the plugin's configuration map, with `global_config` as the
/// configuration shared by all plugins and `system_new_line_kind` as the line
/// ending kind that a `newLineKind` of `system` stands for: `\r\n` on Windows
/// and `\n` elsewhere, which the caller knows from the target it is built for.
pub fn resolve_config(
    config: ConfigKeyMap,
    global_config: &GlobalConfiguration,
    system_new_line_kind: NewLineKind,
) -> (result: ResolveConfigurationResult<Configuration>)
    ensures
        result.config@ == resolved_configuration(config@, *global_config, system_new_line_kind),
        diagnostic_views(result.diagnostics@) == resolution_diagnostics(config@, *global_config),
{
    let (line_width, indent_width, new_line_kind, line_ending, use_tabs, tab, space, align, layout) =
        resolve_layout(&config, global_config, system_new_line_kind);
    let (
        blank_lines,
        curly,
        numeric,
        months,
        sort,
        duplicates,
        merge,
        strip_enclosing_braces,
        drop_all_caps,
        escape,
        unescape,
        sort_fields,
        entries,
    ) = resolve_entry_options(&config);
    let (
        strip_comments,
        trailing_commas,
        encode_urls,
        tidy_comments,
        remove_empty_fields,
        remove_duplicate_fields,
        generate_keys,
        max_authors,
        lowercase,
        enclosing_braces,
        remove_braces,
        wrap,
        omit,
        cleanup,
    ) = resolve_cleanup_options(&config);

    let mut diagnostics = layout;
    let mut entries = entries;
    let mut cleanup = cleanup;
    let ghost layout_views = diagnostic_views(diagnostics@);
    let ghost entry_views = diagnostic_views(entries@);
    let ghost cleanup_views = diagnostic_views(cleanup@);
    let ghost d0 = diagnostics@;
    let ghost e0 = entries@;
    diagnostics.append(&mut entries);
    proof {
        assert(diagnostic_views(diagnostics@) =~= layout_views + entry_views) by {
            assert(diagnostics@ == d0 + e0);
        }
    }
    let ghost d1 = diagnostics@;
    let ghost c0 = cleanup@;
    diagnostics.append(&mut cleanup);
    proof {
        assert(diagnostic_views(diagnostics@) =~= layout_views + entry_views + cleanup_views) by {
            assert(diagnostics@ == d1 + c0);
        }
    }
    push_unknown_property_diagnostics(&config, &mut diagnostics);

    let resolved = Configuration {
        line_width,
        indent_width,
        new_line_kind,
        line_ending,
        use_tabs,
        tab,
        space,
        align,
        blank_lines,
        curly,
        numeric,
        months,
        sort,
        duplicates,
        merge,
        strip_enclosing_braces,
        drop_all_caps,
        escape,
        unescape,
        sort_fields,
        strip_comments,
        trailing_commas,
        encode_urls,
        tidy_comments,
        remove_empty_fields,
        remove_duplicate_fields,
        generate_keys,
        max_authors,
        lowercase,
        enclosing_braces,
        remove_braces,
        wrap,
        omit,
    };
    ResolveConfigurationResult { config: resolved, diagnostics }
}

/// Resolution never yields a line width, a number of authors or a wrapping
/// column of zero.
pub proof fn law_nothing_resolves_to_zero(m: ConfigEntries, g: GlobalConfiguration, system: NewLineKind)
    ensures
        resolved_configuration(m, g, system).line_width != Some(0u32),
        resolved_configuration(m, g, system).max_authors != Some(0u32),
        resolved_configuration(m, g, system).wrap != Some(WrapOption::Column(0)),
{
}

/// The only escape mode that resolution accepts is `new`.
pub proof fn law_escape_mode_is_new(m: ConfigEntries, g: GlobalConfiguration, system: NewLineKind)
    ensures
        resolved_configuration(m, g, system).escape matches Some(EscapeOptionView::Mode(mode))
            ==> mode == "new"@,
{
    let escape = resolved_configuration(m, g, system).escape;
    assert(escape == escape_reading(lookup(m, "escape"@)).0);
    match lookup(m, "escape"@) {
        Some(ConfigKeyValue::String(s)) => {},
        _ => {},
    }
}

/// The plugin's own indent width and tab setting win over the global ones, and
/// the global indent width, tab setting, new line kind and line width are taken
/// when the plugin sets none.
pub proof fn law_plugin_settings_override_global(
    m: ConfigEntries,
    g: GlobalConfiguration,
    system: NewLineKind,
)
    ensures
        read_u8(lookup(m, "indentWidth"@)).0 is Some ==> resolved_configuration(
            m,
            g,
            system,
        ).indent_width == read_u8(lookup(m, "indentWidth"@)).0,
        lookup(m, "indentWidth"@) is None ==> resolved_configuration(m, g, system).indent_width
            == g.indent_width,
        read_bool(lookup(m, "useTabs"@)).0 is Some ==> resolved_configuration(m, g, system).use_tabs
            == read_bool(lookup(m, "useTabs"@)).0,
        lookup(m, "useTabs"@) is None ==> resolved_configuration(m, g, system).use_tabs
            == g.use_tabs,
        lookup(m, "newLineKind"@) is None ==> resolved_configuration(m, g, system).new_line_kind
            == g.new_line_kind,
        lookup(m, "lineWidth"@) is None ==> resolved_configuration(m, g, system).line_width
            == nonzero(g.line_width),
{
}

proof fn lemma_boolean_read(b: bool)
    ensures
        read_bool(Some(ConfigKeyValue::Bool(b))).0 == Some(b),
{
    assert(bool_from_text(bool_text(b)) == Some(b));
}

/// A boolean given for a setting that takes one is resolved to that same boolean.
pub proof fn law_boolean_settings_keep_their_value(
    m: ConfigEntries,
    g: GlobalConfiguration,
    system: NewLineKind,
    b: bool,
)
    ensures
        lookup(m, "useTabs"@) == Some(ConfigKeyValue::Bool(b)) ==> resolved_configuration(m, g, system).use_tabs == Some(b),
        lookup(m, "tab"@) == Some(ConfigKeyValue::Bool(b)) ==> resolved_configuration(m, g, system).tab == Some(b),
        lookup(m, "blankLines"@) == Some(ConfigKeyValue::Bool(b)) ==> resolved_configuration(m, g, system).blank_lines == Some(b),
        lookup(m, "curly"@) == Some(ConfigKeyValue::Bool(b)) ==> resolved_configuration(m, g, system).curly == Some(b),
        lookup(m, "numeric"@) == Some(ConfigKeyValue::Bool(b)) ==> resolved_configuration(m, g, system).numeric == Some(b),
        lookup(m, "months"@) == Some(ConfigKeyValue::Bool(b)) ==> resolved_configuration(m, g, system).months == Some(b),
        lookup(m, "stripEnclosingBraces"@) == Some(ConfigKeyValue::Bool(b)) ==> resolved_configuration(m, g, system).strip_enclosing_braces == Some(b),
        lookup(m, "dropAllCaps"@) == Some(ConfigKeyValue::Bool(b)) ==> resolved_configuration(m, g, system).drop_all_caps == Some(b),
        lookup(m, "unescape"@) == Some(ConfigKeyValue::Bool(b)) ==> resolved_configuration(m, g, system).unescape == Some(b),
        lookup(m, "stripComments"@) == Some(ConfigKeyValue::Bool(b)) ==> resolved_configuration(m, g, system).strip_comments == Some(b),
        lookup(m, "trailingCommas"@) == Some(ConfigKeyValue::Bool(b)) ==> resolved_configuration(m, g, system).trailing_commas == Some(b),
        lookup(m, "encodeUrls"@) == Some(ConfigKeyValue::Bool(b)) ==> resolved_configuration(m, g, system).encode_urls == Some(b),
        lookup(m, "tidyComments"@) == Some(ConfigKeyValue::Bool(b)) ==> resolved_configuration(m, g, system).tidy_comments == Some(b),
        lookup(m, "removeEmptyFields"@) == Some(ConfigKeyValue::Bool(b)) ==> resolved_configuration(m, g, system).remove_empty_fields == Some(b),
        lookup(m, "removeDuplicateFields"@) == Some(ConfigKeyValue::Bool(b)) ==> resolved_configuration(m, g, system).remove_duplicate_fields == Some(b),
        lookup(m, "lowercase"@) == Some(ConfigKeyValue::Bool(b)) ==> resolved_configuration(m, g, system).lowercase == Some(b),
{
    lemma_boolean_read(b);
}

/// A boolean given for a setting that takes a boolean or something else is
/// resolved to that same boolean; a positive column for `wrap`, a column for
/// `align`, a strategy's name for `merge`, a template for `generateKeys`, the
/// mode `new` for `escape` and `lf` or `crlf` for `lineEnding` are kept as
/// given.
pub proof fn law_choice_settings_keep_their_value(
    m: ConfigEntries,
    g: GlobalConfiguration,
    system: NewLineKind,
    b: bool,
    n: i32,
    s: String,
)
    ensures
        lookup(m, "wrap"@) == Some(ConfigKeyValue::Bool(b)) ==> resolved_configuration(m, g, system).wrap == Some(WrapOption::Bool(b)),
        lookup(m, "wrap"@) == Some(ConfigKeyValue::Number(n)) && n > 0 ==> resolved_configuration(m, g, system).wrap == Some(WrapOption::Column(n as u32)),
        lookup(m, "align"@) == Some(ConfigKeyValue::Bool(b)) ==> resolved_configuration(m, g, system).align == Some(AlignOption::Bool(b)),
        lookup(m, "align"@) == Some(ConfigKeyValue::Number(n)) && n >= 0 ==> resolved_configuration(m, g, system).align == Some(AlignOption::Column(n as u32)),
        lookup(m, "duplicates"@) == Some(ConfigKeyValue::Bool(b)) ==> resolved_configuration(m, g, system).duplicates == Some(DuplicatesOptionView::Bool(b)),
        lookup(m, "merge"@) == Some(ConfigKeyValue::Bool(b)) ==> resolved_configuration(m, g, system).merge == Some(MergeOption::Bool(b)),
        lookup(m, "merge"@) == Some(ConfigKeyValue::String(s)) && s@ == "first"@ ==> resolved_configuration(m, g, system).merge == Some(MergeOption::Strategy(MergeStrategy::First)),
        lookup(m, "merge"@) == Some(ConfigKeyValue::String(s)) && s@ == "last"@ ==> resolved_configuration(m, g, system).merge == Some(MergeOption::Strategy(MergeStrategy::Last)),
        lookup(m, "merge"@) == Some(ConfigKeyValue::String(s)) && s@ == "combine"@ ==> resolved_configuration(m, g, system).merge == Some(MergeOption::Strategy(MergeStrategy::Combine)),
        lookup(m, "merge"@) == Some(ConfigKeyValue::String(s)) && s@ == "overwrite"@ ==> resolved_configuration(m, g, system).merge == Some(MergeOption::Strategy(MergeStrategy::Overwrite)),
        lookup(m, "escape"@) == Some(ConfigKeyValue::Bool(b)) ==> resolved_configuration(m, g, system).escape == Some(EscapeOptionView::Bool(b)),
        lookup(m, "escape"@) == Some(ConfigKeyValue::String(s)) && s@ == "new"@ ==> resolved_configuration(m, g, system).escape == Some(EscapeOptionView::Mode("new"@)),
        lookup(m, "lineEnding"@) == Some(ConfigKeyValue::String(s)) && s@ == "lf"@ ==> resolved_configuration(m, g, system).line_ending == Some(LineEnding::Lf),
        lookup(m, "lineEnding"@) == Some(ConfigKeyValue::String(s)) && s@ == "crlf"@ ==> resolved_configuration(m, g, system).line_ending == Some(LineEnding::Crlf),
        lookup(m, "generateKeys"@) == Some(ConfigKeyValue::Bool(b)) ==> resolved_configuration(m, g, system).generate_keys == Some(GenerateKeysOptionView::Bool(b)),
        lookup(m, "generateKeys"@) == Some(ConfigKeyValue::String(s)) ==> resolved_configuration(m, g, system).generate_keys == Some(GenerateKeysOptionView::Template(s@)),
        lookup(m, "sort"@) == Some(ConfigKeyValue::Bool(b)) ==> resolved_configuration(m, g, system).sort == Some(FieldListOrBoolView::Bool(b)),
        lookup(m, "sortFields"@) == Some(ConfigKeyValue::Bool(b)) ==> resolved_configuration(m, g, system).sort_fields == Some(FieldListOrBoolView::Bool(b)),
        lookup(m, "enclosingBraces"@) == Some(ConfigKeyValue::Bool(b)) ==> resolved_configuration(m, g, system).enclosing_braces == Some(FieldListOrBoolView::Bool(b)),
        lookup(m, "removeBraces"@) == Some(ConfigKeyValue::Bool(b)) ==> resolved_configuration(m, g, system).remove_braces == Some(FieldListOrBoolView::Bool(b)),
{
    law_merge_strategy_names(MergeStrategy::First, s@);
    reveal_strlit("lf");
    reveal_strlit("crlf");
    assert(value_text(Some(ConfigKeyValue::String(s))) == ValueText::Text(s@));
}

proof fn lemma_number_read(n: i32)
    ensures
        0 <= n ==> read_u32(Some(ConfigKeyValue::Number(n))).0 == Some(n as u32),
        0 <= n <= 255 ==> read_u8(Some(ConfigKeyValue::Number(n))).0 == Some(n as u8),
{
    law_number_reads_as_itself(n, u32::MAX as nat);
    law_number_reads_as_itself(n, u8::MAX as nat);
}

/// A number given for a numeric setting is resolved to that same number when
/// the setting's type holds it (and, for the line width and the number of
/// authors, when it is not zero).
pub proof fn law_number_settings_keep_their_value(
    m: ConfigEntries,
    g: GlobalConfiguration,
    system: NewLineKind,
    n: i32,
)
    ensures
        lookup(m, "lineWidth"@) == Some(ConfigKeyValue::Number(n)) && n > 0 ==> resolved_configuration(m, g, system).line_width == Some(n as u32),
        lookup(m, "maxAuthors"@) == Some(ConfigKeyValue::Number(n)) && n > 0 ==> resolved_configuration(m, g, system).max_authors == Some(n as u32),
        lookup(m, "indentWidth"@) == Some(ConfigKeyValue::Number(n)) && 0 <= n <= 255 ==> resolved_configuration(m, g, system).indent_width == Some(n as u8),
        lookup(m, "space"@) == Some(ConfigKeyValue::Number(n)) && 0 <= n <= 255 ==> resolved_configuration(m, g, system).space == Some(n as u8),
{
    lemma_number_read(n);
}

/// Each item is a string, and the text at each place is that string's.
pub open spec fn lists_strings(items: Seq<ConfigKeyValue>, list: Seq<Seq<char>>) -> bool {
    &&& list.len() == items.len()
    &&& forall|i: int|
        0 <= i < items.len() ==> match #[trigger] items[i] {
            ConfigKeyValue::String(s) => list[i] == s@,
            _ => false,
        }
}

/// Each item is a string, and the rule at each place is the one that string
/// names.
pub open spec fn lists_rules(items: Seq<ConfigKeyValue>, rules: Seq<DuplicateRule>) -> bool {
    &&& rules.len() == items.len()
    &&& forall|i: int|
        0 <= i < items.len() ==> match #[trigger] items[i] {
            ConfigKeyValue::String(s) => duplicate_rule_text(rules[i]) == s@,
            _ => false,
        }
}

/// A list resolved from a list of strings holds those strings, in order.
pub open spec fn field_list_kept(value: Option<ConfigKeyValue>, resolved: Option<FieldListOrBoolView>) -> bool {
    match (value, resolved) {
        (Some(ConfigKeyValue::Array(items)), Some(FieldListOrBoolView::List(list))) => lists_strings(
            items@,
            list,
        ),
        _ => true,
    }
}

proof fn lemma_string_list_holds_strings(items: Seq<ConfigKeyValue>)
    ensures
        string_list(items) matches Some(list) ==> lists_strings(items, list),
    decreases items.len(),
{
    if items.len() > 0 {
        let front = items.drop_last();
        lemma_string_list_holds_strings(front);
        if let Some(list) = string_list(items) {
            let front_list = string_list(front)->Some_0;
            assert forall|i: int| 0 <= i < items.len() implies match #[trigger] items[i] {
                ConfigKeyValue::String(s) => list[i] == s@,
                _ => false,
            } by {
                if i < items.len() - 1 {
                    assert(items[i] == front[i]);
                    assert(list[i] == front_list[i]);
                }
            }
        }
    }
}

proof fn lemma_duplicate_rules_hold_rules(items: Seq<ConfigKeyValue>)
    ensures
        duplicate_rules(items) matches Ok(rules) ==> lists_rules(items, rules),
    decreases items.len(),
{
    if items.len() > 0 {
        let front = items.drop_last();
        lemma_duplicate_rules_hold_rules(front);
        if let Ok(rules) = duplicate_rules(items) {
            let front_rules = duplicate_rules(front)->Ok_0;
            assert forall|i: int| 0 <= i < items.len() implies match #[trigger] items[i] {
                ConfigKeyValue::String(s) => duplicate_rule_text(rules[i]) == s@,
                _ => false,
            } by {
                if i < items.len() - 1 {
                    assert(items[i] == front[i]);
                    assert(rules[i] == front_rules[i]);
                } else {
                    if let ConfigKeyValue::String(s) = items[i] {
                        law_duplicate_rule_names(rules[i], s@);
                        law_duplicate_rule_names_round_trip(rules[i]);
                    }
                }
            }
        }
    }
}

/// A list of rule names given for `duplicates` is resolved to the rules that
/// they name, in their order; a list of strings given for `omit`, or for a
/// setting that takes a boolean or a list of fields, is kept as given.
pub proof fn law_list_settings_keep_their_value(m: ConfigEntries, g: GlobalConfiguration, system: NewLineKind)
    ensures
        match lookup(m, "duplicates"@) {
            Some(ConfigKeyValue::Array(items)) => all_rule_names(items@) ==> match resolved_configuration(m, g, system).duplicates {
                Some(DuplicatesOptionView::Rules(rules)) => lists_rules(items@, rules),
                _ => false,
            },
            _ => true,
        },
        match (lookup(m, "omit"@), resolved_configuration(m, g, system).omit) {
            (Some(ConfigKeyValue::Array(items)), Some(list)) => lists_strings(items@, list),
            _ => true,
        },
        field_list_kept(lookup(m, "sort"@), resolved_configuration(m, g, system).sort),
        field_list_kept(lookup(m, "sortFields"@), resolved_configuration(m, g, system).sort_fields),
        field_list_kept(lookup(m, "enclosingBraces"@), resolved_configuration(m, g, system).enclosing_braces),
        field_list_kept(lookup(m, "removeBraces"@), resolved_configuration(m, g, system).remove_braces),
{
    let c = resolved_configuration(m, g, system);
    if let Some(ConfigKeyValue::Array(items)) = lookup(m, "duplicates"@) {
        lemma_duplicate_rules_read(items@);
        lemma_duplicate_rules_hold_rules(items@);
    }
    if let Some(ConfigKeyValue::Array(items)) = lookup(m, "omit"@) {
        lemma_string_list_holds_strings(items@);
    }
    if let Some(ConfigKeyValue::Array(items)) = lookup(m, "sort"@) {
        lemma_string_list_holds_strings(items@);
    }
    if let Some(ConfigKeyValue::Array(items)) = lookup(m, "sortFields"@) {
        lemma_string_list_holds_strings(items@);
    }
    if let Some(ConfigKeyValue::Array(items)) = lookup(m, "enclosingBraces"@) {
        lemma_string_list_holds_strings(items@);
    }
    if let Some(ConfigKeyValue::Array(items)) = lookup(m, "removeBraces"@) {
        lemma_string_list_holds_strings(items@);
    }
}

/// The plugin's line width wins over the global one, which is taken when the
/// plugin gives none; a width of zero is refused with a diagnostic on
/// `lineWidth`.
pub proof fn law_line_width(m: ConfigEntries, g: GlobalConfiguration, system: NewLineKind)
    ensures
        ({
            let w = or_else(read_u32(lookup(m, "lineWidth"@)).0, g.line_width);
            if w == Some(0u32) {
                &&& resolved_configuration(m, g, system).line_width is None
                &&& resolution_diagnostics(m, g).contains(
                    ("lineWidth"@, "lineWidth must be greater than 0."@),
                )
            } else {
                resolved_configuration(m, g, system).line_width == w
            }
        }),
{
    let w = or_else(read_u32(lookup(m, "lineWidth"@)).0, g.line_width);
    if w == Some(0u32) {
        let a = problem_diagnostics("lineWidth"@, read_u32(lookup(m, "lineWidth"@)).1);
        let d = ("lineWidth"@, "lineWidth must be greater than 0."@);
        let z = zero_diagnostics("lineWidth"@, w, "lineWidth must be greater than 0."@);
        assert(z[0] == d);
        assert((a + z)[a.len() as int] == d);
        let l = layout_diagnostics(m, g);
        assert(l[a.len() as int] == d);
        let r = resolution_diagnostics(m, g);
        assert(r[a.len() as int] == d);
    }
}

/// Every item is a string that names a duplicate rule.
pub open spec fn all_rule_names(items: Seq<ConfigKeyValue>) -> bool {
    forall|i: int|
        0 <= i < items.len() ==> match #[trigger] items[i] {
            ConfigKeyValue::String(s) => duplicate_rule_from_text(s@) is Some,
            _ => false,
        }
}

/// A boolean, or a list of strings that each name a duplicate rule.
pub open spec fn names_duplicates(value: Option<ConfigKeyValue>) -> bool {
    match value {
        Some(ConfigKeyValue::Bool(_)) => true,
        Some(ConfigKeyValue::Array(items)) => all_rule_names(items@),
        _ => false,
    }
}

/// The rules of a list are read exactly when every item names a rule.
proof fn lemma_duplicate_rules_read(items: Seq<ConfigKeyValue>)
    ensures
        duplicate_rules(items) is Ok <==> all_rule_names(items),
    decreases items.len(),
{
    if items.len() > 0 {
        let front = items.drop_last();
        lemma_duplicate_rules_read(front);
        if all_rule_names(items) {
            assert forall|i: int| 0 <= i < front.len() implies match #[trigger] front[i] {
                ConfigKeyValue::String(s) => duplicate_rule_from_text(s@) is Some,
                _ => false,
            } by {
                assert(front[i] == items[i]);
            }
            assert(items.last() == items[items.len() - 1]);
        }
        if duplicate_rules(items) is Ok {
            assert forall|i: int| 0 <= i < items.len() implies match #[trigger] items[i] {
                ConfigKeyValue::String(s) => duplicate_rule_from_text(s@) is Some,
                _ => false,
            } by {
                if i < items.len() - 1 {
                    assert(items[i] == front[i]);
                }
            }
        }
    }
}

/// `duplicates` resolves to a value exactly when it is a boolean or a list of
/// strings that each name a duplicate rule; any other value it holds gives one
/// diagnostic on `duplicates` and no value.
pub proof fn law_duplicates(m: ConfigEntries, g: GlobalConfiguration, system: NewLineKind)
    ensures
        resolved_configuration(m, g, system).duplicates == duplicates_reading(
            lookup(m, "duplicates"@),
        ).0,
        duplicates_reading(lookup(m, "duplicates"@)).0 is Some <==> names_duplicates(
            lookup(m, "duplicates"@),
        ),
        duplicates_reading(lookup(m, "duplicates"@)).1 is Some <==> (lookup(
            m,
            "duplicates"@,
        ) is Some && duplicates_reading(lookup(m, "duplicates"@)).0 is None),
{
    match lookup(m, "duplicates"@) {
        Some(ConfigKeyValue::Array(items)) => {
            lemma_duplicate_rules_read(items@);
        },
        _ => {},
    }
}

/// No diagnostic of `diagnostics` is about the property `name`.
pub open spec fn names_no_diagnostic(diagnostics: Seq<(Seq<char>, Seq<char>)>, name: Seq<char>) -> bool {
    forall|i: int| 0 <= i < diagnostics.len() ==> #[trigger] diagnostics[i].0 != name
}

/// A value of `newLineKind` that resolution accepts: none, null, or one of the
/// texts `auto`, `lf`, `crlf` and `system`.
pub open spec fn is_new_line_kind_setting(value: Option<ConfigKeyValue>) -> bool {
    match value {
        None => true,
        Some(ConfigKeyValue::Null) => true,
        Some(ConfigKeyValue::String(s)) => s@ == "auto"@ || s@ == "lf"@ || s@ == "crlf"@ || s@
            == "system"@,
        _ => false,
    }
}

proof fn lemma_names_no_diagnostic_append(
    a: Seq<(Seq<char>, Seq<char>)>,
    b: Seq<(Seq<char>, Seq<char>)>,
    name: Seq<char>,
)
    requires
        names_no_diagnostic(a, name),
        names_no_diagnostic(b, name),
    ensures
        names_no_diagnostic(a + b, name),
{
    assert forall|i: int| 0 <= i < (a + b).len() implies #[trigger] (a + b)[i].0 != name by {
        if i < a.len() {
            assert((a + b)[i] == a[i]);
        } else {
            assert((a + b)[i] == b[i - a.len()]);
        }
    }
}

proof fn lemma_unknown_properties_are_unknown(m: ConfigEntries)
    ensures
        forall|i: int|
            0 <= i < unknown_property_diagnostics(m).len() ==> !is_known_property(
                #[trigger] unknown_property_diagnostics(m)[i].0,
            ),
    decreases m.len(),
{
    if m.len() > 0 {
        lemma_unknown_properties_are_unknown(m.drop_last());
        let a = unknown_property_diagnostics(m.drop_last());
        let b = if is_known_property(m.last().0) {
            Seq::<(Seq<char>, Seq<char>)>::empty()
        } else {
            seq![(m.last().0, "Unknown property in configuration"@)]
        };
        assert forall|i: int|
            0 <= i < (a + b).len() implies !is_known_property(#[trigger] (a + b)[i].0) by {
            if i < a.len() {
                assert((a + b)[i] == a[i]);
            } else {
                assert((a + b)[i] == b[i - a.len()]);
            }
        }
    }
}

proof fn lemma_problem_names_no_diagnostic(property: Seq<char>, problem: Option<Seq<char>>, name: Seq<char>)
    requires
        property != name || problem is None,
    ensures
        names_no_diagnostic(problem_diagnostics(property, problem), name),
{
}

proof fn lemma_zero_names_no_diagnostic(
    property: Seq<char>,
    value: Option<u32>,
    message: Seq<char>,
    name: Seq<char>,
)
    requires
        property != name,
    ensures
        names_no_diagnostic(zero_diagnostics(property, value, message), name),
{
}

proof fn lemma_layout_diagnostics_name_no_new_line_kind(m: ConfigEntries, g: GlobalConfiguration)
    requires
        read_raw_new_line_kind(lookup(m, "newLineKind"@)).1 is None,
    ensures
        names_no_diagnostic(layout_diagnostics(m, g), "newLineKind"@),
{
    lemma_property_names();
    lemma_problem_names_no_diagnostic("lineWidth"@, read_u32(lookup(m, "lineWidth"@)).1, "newLineKind"@);
    let d0 = problem_diagnostics("lineWidth"@, read_u32(lookup(m, "lineWidth"@)).1);
    lemma_zero_names_no_diagnostic("lineWidth"@, or_else(read_u32(lookup(m, "lineWidth"@)).0, g.line_width), "lineWidth must be greater than 0."@, "newLineKind"@);
    let d1 = zero_diagnostics("lineWidth"@, or_else(read_u32(lookup(m, "lineWidth"@)).0, g.line_width), "lineWidth must be greater than 0."@);
    let s1 = d0 + d1;
    lemma_names_no_diagnostic_append(d0, d1, "newLineKind"@);
    lemma_problem_names_no_diagnostic("indentWidth"@, read_u8(lookup(m, "indentWidth"@)).1, "newLineKind"@);
    let d2 = problem_diagnostics("indentWidth"@, read_u8(lookup(m, "indentWidth"@)).1);
    let s2 = s1 + d2;
    lemma_names_no_diagnostic_append(s1, d2, "newLineKind"@);
    lemma_problem_names_no_diagnostic("newLineKind"@, read_raw_new_line_kind(lookup(m, "newLineKind"@)).1, "newLineKind"@);
    let d3 = problem_diagnostics("newLineKind"@, read_raw_new_line_kind(lookup(m, "newLineKind"@)).1);
    let s3 = s2 + d3;
    lemma_names_no_diagnostic_append(s2, d3, "newLineKind"@);
    lemma_problem_names_no_diagnostic("lineEnding"@, read_line_ending(lookup(m, "lineEnding"@)).1, "newLineKind"@);
    let d4 = problem_diagnostics("lineEnding"@, read_line_ending(lookup(m, "lineEnding"@)).1);
    let s4 = s3 + d4;
    lemma_names_no_diagnostic_append(s3, d4, "newLineKind"@);
    lemma_problem_names_no_diagnostic("useTabs"@, read_bool(lookup(m, "useTabs"@)).1, "newLineKind"@);
    let d5 = problem_diagnostics("useTabs"@, read_bool(lookup(m, "useTabs"@)).1);
    let s5 = s4 + d5;
    lemma_names_no_diagnostic_append(s4, d5, "newLineKind"@);
    lemma_problem_names_no_diagnostic("tab"@, read_bool(lookup(m, "tab"@)).1, "newLineKind"@);
    let d6 = problem_diagnostics("tab"@, read_bool(lookup(m, "tab"@)).1);
    let s6 = s5 + d6;
    lemma_names_no_diagnostic_append(s5, d6, "newLineKind"@);
    lemma_problem_names_no_diagnostic("space"@, read_u8(lookup(m, "space"@)).1, "newLineKind"@);
    let d7 = problem_diagnostics("space"@, read_u8(lookup(m, "space"@)).1);
    let s7 = s6 + d7;
    lemma_names_no_diagnostic_append(s6, d7, "newLineKind"@);
    lemma_problem_names_no_diagnostic("align"@, align_reading(lookup(m, "align"@)).1, "newLineKind"@);
    let d8 = problem_diagnostics("align"@, align_reading(lookup(m, "align"@)).1);
    let s8 = s7 + d8;
    lemma_names_no_diagnostic_append(s7, d8, "newLineKind"@);
    assert(s8 == layout_diagnostics(m, g));
}

proof fn lemma_entry_diagnostics_name_no_new_line_kind(m: ConfigEntries)
    ensures
        names_no_diagnostic(entry_diagnostics(m), "newLineKind"@),
{
    lemma_property_names();
    lemma_problem_names_no_diagnostic("blankLines"@, read_bool(lookup(m, "blankLines"@)).1, "newLineKind"@);
    let d0 = problem_diagnostics("blankLines"@, read_bool(lookup(m, "blankLines"@)).1);
    lemma_problem_names_no_diagnostic("curly"@, read_bool(lookup(m, "curly"@)).1, "newLineKind"@);
    let d1 = problem_diagnostics("curly"@, read_bool(lookup(m, "curly"@)).1);
    let s1 = d0 + d1;
    lemma_names_no_diagnostic_append(d0, d1, "newLineKind"@);
    lemma_problem_names_no_diagnostic("numeric"@, read_bool(lookup(m, "numeric"@)).1, "newLineKind"@);
    let d2 = problem_diagnostics("numeric"@, read_bool(lookup(m, "numeric"@)).1);
    let s2 = s1 + d2;
    lemma_names_no_diagnostic_append(s1, d2, "newLineKind"@);
    lemma_problem_names_no_diagnostic("months"@, read_bool(lookup(m, "months"@)).1, "newLineKind"@);
    let d3 = problem_diagnostics("months"@, read_bool(lookup(m, "months"@)).1);
    let s3 = s2 + d3;
    lemma_names_no_diagnostic_append(s2, d3, "newLineKind"@);
    lemma_problem_names_no_diagnostic("sort"@, field_list_reading("sort"@, lookup(m, "sort"@)).1, "newLineKind"@);
    let d4 = problem_diagnostics("sort"@, field_list_reading("sort"@, lookup(m, "sort"@)).1);
    let s4 = s3 + d4;
    lemma_names_no_diagnostic_append(s3, d4, "newLineKind"@);
    lemma_problem_names_no_diagnostic("duplicates"@, duplicates_reading(lookup(m, "duplicates"@)).1, "newLineKind"@);
    let d5 = problem_diagnostics("duplicates"@, duplicates_reading(lookup(m, "duplicates"@)).1);
    let s5 = s4 + d5;
    lemma_names_no_diagnostic_append(s4, d5, "newLineKind"@);
    lemma_problem_names_no_diagnostic("merge"@, merge_reading(lookup(m, "merge"@)).1, "newLineKind"@);
    let d6 = problem_diagnostics("merge"@, merge_reading(lookup(m, "merge"@)).1);
    let s6 = s5 + d6;
    lemma_names_no_diagnostic_append(s5, d6, "newLineKind"@);
    lemma_problem_names_no_diagnostic("stripEnclosingBraces"@, read_bool(lookup(m, "stripEnclosingBraces"@)).1, "newLineKind"@);
    let d7 = problem_diagnostics("stripEnclosingBraces"@, read_bool(lookup(m, "stripEnclosingBraces"@)).1);
    let s7 = s6 + d7;
    lemma_names_no_diagnostic_append(s6, d7, "newLineKind"@);
    lemma_problem_names_no_diagnostic("dropAllCaps"@, read_bool(lookup(m, "dropAllCaps"@)).1, "newLineKind"@);
    let d8 = problem_diagnostics("dropAllCaps"@, read_bool(lookup(m, "dropAllCaps"@)).1);
    let s8 = s7 + d8;
    lemma_names_no_diagnostic_append(s7, d8, "newLineKind"@);
    lemma_problem_names_no_diagnostic("escape"@, escape_reading(lookup(m, "escape"@)).1, "newLineKind"@);
    let d9 = problem_diagnostics("escape"@, escape_reading(lookup(m, "escape"@)).1);
    let s9 = s8 + d9;
    lemma_names_no_diagnostic_append(s8, d9, "newLineKind"@);
    lemma_problem_names_no_diagnostic("unescape"@, read_bool(lookup(m, "unescape"@)).1, "newLineKind"@);
    let d10 = problem_diagnostics("unescape"@, read_bool(lookup(m, "unescape"@)).1);
    let s10 = s9 + d10;
    lemma_names_no_diagnostic_append(s9, d10, "newLineKind"@);
    lemma_problem_names_no_diagnostic("sortFields"@, field_list_reading("sortFields"@, lookup(m, "sortFields"@)).1, "newLineKind"@);
    let d11 = problem_diagnostics("sortFields"@, field_list_reading("sortFields"@, lookup(m, "sortFields"@)).1);
    let s11 = s10 + d11;
    lemma_names_no_diagnostic_append(s10, d11, "newLineKind"@);
    assert(s11 == entry_diagnostics(m));
}

proof fn lemma_cleanup_diagnostics_name_no_new_line_kind(m: ConfigEntries)
    ensures
        names_no_diagnostic(cleanup_diagnostics(m), "newLineKind"@),
{
    lemma_property_names();
    lemma_problem_names_no_diagnostic("stripComments"@, read_bool(lookup(m, "stripComments"@)).1, "newLineKind"@);
    let d0 = problem_diagnostics("stripComments"@, read_bool(lookup(m, "stripComments"@)).1);
    lemma_problem_names_no_diagnostic("trailingCommas"@, read_bool(lookup(m, "trailingCommas"@)).1, "newLineKind"@);
    let d1 = problem_diagnostics("trailingCommas"@, read_bool(lookup(m, "trailingCommas"@)).1);
    let s1 = d0 + d1;
    lemma_names_no_diagnostic_append(d0, d1, "newLineKind"@);
    lemma_problem_names_no_diagnostic("encodeUrls"@, read_bool(lookup(m, "encodeUrls"@)).1, "newLineKind"@);
    let d2 = problem_diagnostics("encodeUrls"@, read_bool(lookup(m, "encodeUrls"@)).1);
    let s2 = s1 + d2;
    lemma_names_no_diagnostic_append(s1, d2, "newLineKind"@);
    lemma_problem_names_no_diagnostic("tidyComments"@, read_bool(lookup(m, "tidyComments"@)).1, "newLineKind"@);
    let d3 = problem_diagnostics("tidyComments"@, read_bool(lookup(m, "tidyComments"@)).1);
    let s3 = s2 + d3;
    lemma_names_no_diagnostic_append(s2, d3, "newLineKind"@);
    lemma_problem_names_no_diagnostic("removeEmptyFields"@, read_bool(lookup(m, "removeEmptyFields"@)).1, "newLineKind"@);
    let d4 = problem_diagnostics("removeEmptyFields"@, read_bool(lookup(m, "removeEmptyFields"@)).1);
    let s4 = s3 + d4;
    lemma_names_no_diagnostic_append(s3, d4, "newLineKind"@);
    lemma_problem_names_no_diagnostic("removeDuplicateFields"@, read_bool(lookup(m, "removeDuplicateFields"@)).1, "newLineKind"@);
    let d5 = problem_diagnostics("removeDuplicateFields"@, read_bool(lookup(m, "removeDuplicateFields"@)).1);
    let s5 = s4 + d5;
    lemma_names_no_diagnostic_append(s4, d5, "newLineKind"@);
    lemma_problem_names_no_diagnostic("generateKeys"@, generate_keys_reading(lookup(m, "generateKeys"@)).1, "newLineKind"@);
    let d6 = problem_diagnostics("generateKeys"@, generate_keys_reading(lookup(m, "generateKeys"@)).1);
    let s6 = s5 + d6;
    lemma_names_no_diagnostic_append(s5, d6, "newLineKind"@);
    lemma_problem_names_no_diagnostic("maxAuthors"@, read_u32(lookup(m, "maxAuthors"@)).1, "newLineKind"@);
    let d7 = problem_diagnostics("maxAuthors"@, read_u32(lookup(m, "maxAuthors"@)).1);
    let s7 = s6 + d7;
    lemma_names_no_diagnostic_append(s6, d7, "newLineKind"@);
    lemma_zero_names_no_diagnostic("maxAuthors"@, read_u32(lookup(m, "maxAuthors"@)).0, "maxAuthors must be greater than 0."@, "newLineKind"@);
    let d8 = zero_diagnostics("maxAuthors"@, read_u32(lookup(m, "maxAuthors"@)).0, "maxAuthors must be greater than 0."@);
    let s8 = s7 + d8;
    lemma_names_no_diagnostic_append(s7, d8, "newLineKind"@);
    lemma_problem_names_no_diagnostic("lowercase"@, read_bool(lookup(m, "lowercase"@)).1, "newLineKind"@);
    let d9 = problem_diagnostics("lowercase"@, read_bool(lookup(m, "lowercase"@)).1);
    let s9 = s8 + d9;
    lemma_names_no_diagnostic_append(s8, d9, "newLineKind"@);
    lemma_problem_names_no_diagnostic("enclosingBraces"@, field_list_reading("enclosingBraces"@, lookup(m, "enclosingBraces"@)).1, "newLineKind"@);
    let d10 = problem_diagnostics("enclosingBraces"@, field_list_reading("enclosingBraces"@, lookup(m, "enclosingBraces"@)).1);
    let s10 = s9 + d10;
    lemma_names_no_diagnostic_append(s9, d10, "newLineKind"@);
    lemma_problem_names_no_diagnostic("removeBraces"@, field_list_reading("removeBraces"@, lookup(m, "removeBraces"@)).1, "newLineKind"@);
    let d11 = problem_diagnostics("removeBraces"@, field_list_reading("removeBraces"@, lookup(m, "removeBraces"@)).1);
    let s11 = s10 + d11;
    lemma_names_no_diagnostic_append(s10, d11, "newLineKind"@);
    lemma_problem_names_no_diagnostic("wrap"@, wrap_reading(lookup(m, "wrap"@)).1, "newLineKind"@);
    let d12 = problem_diagnostics("wrap"@, wrap_reading(lookup(m, "wrap"@)).1);
    let s12 = s11 + d12;
    lemma_names_no_diagnostic_append(s11, d12, "newLineKind"@);
    lemma_problem_names_no_diagnostic("omit"@, string_array_reading("omit"@, lookup(m, "omit"@)).1, "newLineKind"@);
    let d13 = problem_diagnostics("omit"@, string_array_reading("omit"@, lookup(m, "omit"@)).1);
    let s13 = s12 + d13;
    lemma_names_no_diagnostic_append(s12, d13, "newLineKind"@);
    assert(s13 == cleanup_diagnostics(m));
}

proof fn lemma_new_line_kind_setting_is_read(value: Option<ConfigKeyValue>)
    requires
        is_new_line_kind_setting(value),
    ensures
        read_raw_new_line_kind(value).1 is None,
{
    reveal_strlit("auto");
    reveal_strlit("lf");
    reveal_strlit("crlf");
    reveal_strlit("system");
}

/// The kind that a `newLineKind` value gives, the global kind `global` standing
/// in where there is none.
pub open spec fn new_line_kind_setting(
    value: Option<ConfigKeyValue>,
    global: Option<NewLineKind>,
    system: NewLineKind,
) -> Option<NewLineKind> {
    match value {
        None => global,
        Some(ConfigKeyValue::Null) => global,
        Some(ConfigKeyValue::String(s)) => if s@ == "auto"@ {
            Some(NewLineKind::Auto)
        } else if s@ == "lf"@ {
            Some(NewLineKind::LineFeed)
        } else if s@ == "crlf"@ {
            Some(NewLineKind::CarriageReturnLineFeed)
        } else if s@ == "system"@ {
            Some(system)
        } else {
            global
        },
        _ => global,
    }
}

proof fn lemma_new_line_kind_read(
    value: Option<ConfigKeyValue>,
    global: Option<NewLineKind>,
    system: NewLineKind,
)
    requires
        is_new_line_kind_setting(value),
    ensures
        or_else(new_line_kind_of(read_raw_new_line_kind(value).0, system), global)
            == new_line_kind_setting(value, global, system),
{
    reveal_strlit("auto");
    reveal_strlit("lf");
    reveal_strlit("crlf");
    reveal_strlit("system");
    match value {
        Some(ConfigKeyValue::String(s)) => {
            assert(value_text(value) == ValueText::Text(s@));
        },
        _ => {},
    }
}

/// A `newLineKind` of `auto`, `lf` or `crlf` gives that kind, and `system` the
/// system's own kind; with none, or null, the global kind is taken; and no
/// diagnostic is about `newLineKind`.
pub proof fn law_new_line_kind(m: ConfigEntries, g: GlobalConfiguration, system: NewLineKind)
    requires
        is_new_line_kind_setting(lookup(m, "newLineKind"@)),
    ensures
        resolved_configuration(m, g, system).new_line_kind == new_line_kind_setting(
            lookup(m, "newLineKind"@),
            g.new_line_kind,
            system,
        ),
        names_no_diagnostic(resolution_diagnostics(m, g), "newLineKind"@),
{
    lemma_new_line_kind_read(lookup(m, "newLineKind"@), g.new_line_kind, system);
    {
        lemma_new_line_kind_setting_is_read(lookup(m, "newLineKind"@));
        let name = "newLineKind"@;
        lemma_layout_diagnostics_name_no_new_line_kind(m, g);
        lemma_entry_diagnostics_name_no_new_line_kind(m);
        lemma_cleanup_diagnostics_name_no_new_line_kind(m);
        lemma_unknown_properties_are_unknown(m);
        lemma_property_names();
        assert(is_known_property(name));
        let u = unknown_property_diagnostics(m);
        assert(names_no_diagnostic(u, name));
        let a = layout_diagnostics(m, g);
        let b = entry_diagnostics(m);
        let c = cleanup_diagnostics(m);
        lemma_names_no_diagnostic_append(a, b, name);
        lemma_names_no_diagnostic_append(a + b, c, name);
        lemma_names_no_diagnostic_append(a + b + c, u, name);
    }
}

} // verus!
