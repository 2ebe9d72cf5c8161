//! What the library decides around bibtex-tidy: the options it is given, the
//! line endings of the text it returns, and whether that text is a change.

use vstd::prelude::*;
use crate::configuration::types::{
    AlignOption,
    Configuration,
    ConfigurationView,
    DuplicateRule,
    DuplicatesOption,
    DuplicatesOptionView,
    EscapeOption,
    EscapeOptionView,
    FieldListOrBool,
    FieldListOrBoolView,
    GenerateKeysOption,
    GenerateKeysOptionView,
    LineEnding,
    MergeOption,
    MergeStrategy,
    NewLineKind,
    WrapOption,
    duplicate_rule_text,
    merge_strategy_text,
    texts,
};
use crate::configuration::config_map::{ConfigEntries, lookup};
use crate::configuration::resolve_config::{lemma_property_names, resolved_configuration};
use crate::configuration::types::GlobalConfiguration;
use crate::configuration::values::read_line_ending;
use crate::text::{
    crlf,
    lacks,
    last_line_ending_is_crlf,
    lemma_crlf_text_ends_lines_in_crlf,
    lemma_expand_line_feeds,
    lemma_expanded_line_feeds_read_back,
    lemma_no_carriage_return_ends_in_line_feed,
    lemma_no_line_feed_no_crlf,
    lemma_replace_absent,
    lemma_replace_by_itself,
    lf,
    line_feeds_follow_carriage_returns,
    replace_all,
    replace_text,
    text_equals,
};

verus! {

/// The value of a bibtex-tidy option.
#[derive(Clone, Debug, PartialEq, Eq)]
pub enum TidyValue {
    Bool(bool),
    Number(u32),
    Text(String),
    List(Vec<String>),
}

/// An option value with its texts taken by their characters.
pub enum TidyValueView {
    Bool(bool),
    Number(u32),
    Text(Seq<char>),
    List(Seq<Seq<char>>),
}

impl View for TidyValue {
    type V = TidyValueView;

    open spec fn view(&self) -> TidyValueView {
        match self {
            TidyValue::Bool(b) => TidyValueView::Bool(*b),
            TidyValue::Number(n) => TidyValueView::Number(*n),
            TidyValue::Text(t) => TidyValueView::Text(t@),
            TidyValue::List(l) => TidyValueView::List(texts(l@)),
        }
    }
}

/// A bibtex-tidy option: its name and its value.
#[derive(Clone, Debug, PartialEq, Eq)]
pub struct TidyOption {
    pub name: String,
    pub value: TidyValue,
}

/// Each option as its name and the view of its value.
pub open spec fn option_views(options: Seq<TidyOption>) -> Seq<(Seq<char>, TidyValueView)> {
    options.map_values(|o: TidyOption| (o.name@, o.value@))
}

/// The option `name`, when it has a value.
pub open spec fn entry(name: Seq<char>, value: Option<TidyValueView>) -> Seq<
    (Seq<char>, TidyValueView),
> {
    match value {
        Some(v) => seq![(name, v)],
        None => Seq::empty(),
    }
}

/// A boolean option.
pub open spec fn bool_value(b: Option<bool>) -> Option<TidyValueView> {
    match b {
        Some(b) => Some(TidyValueView::Bool(b)),
        None => None,
    }
}

/// A numeric option.
pub open spec fn number_value(n: Option<u32>) -> Option<TidyValueView> {
    match n {
        Some(n) => Some(TidyValueView::Number(n)),
        None => None,
    }
}

/// An option that is a boolean or a list of field names.
pub open spec fn field_list_value(f: Option<FieldListOrBoolView>) -> Option<TidyValueView> {
    match f {
        Some(FieldListOrBoolView::Bool(b)) => Some(TidyValueView::Bool(b)),
        Some(FieldListOrBoolView::List(l)) => Some(TidyValueView::List(l)),
        None => None,
    }
}

/// `tab`: bibtex-tidy's own setting, else `useTabs`.
pub open spec fn tab_value(c: ConfigurationView) -> Option<TidyValueView> {
    match c.tab {
        Some(t) => bool_value(Some(t)),
        None => bool_value(c.use_tabs),
    }
}

/// `space`: bibtex-tidy's own setting, else the indent width.
pub open spec fn space_value(c: ConfigurationView) -> Option<TidyValueView> {
    match c.space {
        Some(s) => Some(TidyValueView::Number(s as u32)),
        None => match c.indent_width {
            Some(w) => Some(TidyValueView::Number(w as u32)),
            None => None,
        },
    }
}

/// `align`: a boolean or a column.
pub open spec fn align_value(a: Option<AlignOption>) -> Option<TidyValueView> {
    match a {
        Some(AlignOption::Bool(b)) => Some(TidyValueView::Bool(b)),
        Some(AlignOption::Column(c)) => Some(TidyValueView::Number(c)),
        None => None,
    }
}

/// `duplicates`: a boolean or the names of the rules.
pub open spec fn duplicates_value(d: Option<DuplicatesOptionView>) -> Option<TidyValueView> {
    match d {
        Some(DuplicatesOptionView::Bool(b)) => Some(TidyValueView::Bool(b)),
        Some(DuplicatesOptionView::Rules(rules)) => Some(
            TidyValueView::List(rules.map_values(|r: DuplicateRule| duplicate_rule_text(r))),
        ),
        None => None,
    }
}

/// `merge`: a boolean or the name of the strategy.
pub open spec fn merge_value(m: Option<MergeOption>) -> Option<TidyValueView> {
    match m {
        Some(MergeOption::Bool(b)) => Some(TidyValueView::Bool(b)),
        Some(MergeOption::Strategy(s)) => Some(TidyValueView::Text(merge_strategy_text(s))),
        None => None,
    }
}

/// `escape`: a boolean or the mode.
pub open spec fn escape_value(e: Option<EscapeOptionView>) -> Option<TidyValueView> {
    match e {
        Some(EscapeOptionView::Bool(b)) => Some(TidyValueView::Bool(b)),
        Some(EscapeOptionView::Mode(m)) => Some(TidyValueView::Text(m)),
        None => None,
    }
}

/// `generateKeys`: a boolean or the template.
pub open spec fn generate_keys_value(g: Option<GenerateKeysOptionView>) -> Option<TidyValueView> {
    match g {
        Some(GenerateKeysOptionView::Bool(b)) => Some(TidyValueView::Bool(b)),
        Some(GenerateKeysOptionView::Template(t)) => Some(TidyValueView::Text(t)),
        None => None,
    }
}

/// `wrap`: the column to wrap at. Wrapping that is asked for without a column
/// wraps at the line width when there is one; with no wrap setting, a line
/// width is the column to wrap at.
pub open spec fn wrap_value(wrap: Option<WrapOption>, line_width: Option<u32>) -> Option<
    TidyValueView,
> {
    match wrap {
        Some(WrapOption::Bool(true)) => match line_width {
            Some(w) => Some(TidyValueView::Number(w)),
            None => Some(TidyValueView::Bool(true)),
        },
        Some(WrapOption::Bool(false)) => Some(TidyValueView::Bool(false)),
        Some(WrapOption::Column(c)) => Some(TidyValueView::Number(c)),
        None => number_value(line_width),
    }
}

/// `omit`: the fields to drop.
pub open spec fn omit_value(o: Option<Seq<Seq<char>>>) -> Option<TidyValueView> {
    match o {
        Some(l) => Some(TidyValueView::List(l)),
        None => None,
    }
}

/// The options for layout: `tab`, `space` and `align`.
pub open spec fn layout_options(c: ConfigurationView) -> Seq<(Seq<char>, TidyValueView)> {
    entry("tab"@, tab_value(c)) + entry("space"@, space_value(c)) + entry(
        "align"@,
        align_value(c.align),
    )
}

/// The options from `blankLines` to `sortFields`.
pub open spec fn entry_options(c: ConfigurationView) -> Seq<(Seq<char>, TidyValueView)> {
    entry("blankLines"@, bool_value(c.blank_lines))
    + entry("curly"@, bool_value(c.curly))
    + entry("numeric"@, bool_value(c.numeric))
    + entry("months"@, bool_value(c.months))
    + entry("sort"@, field_list_value(c.sort))
    + entry("duplicates"@, duplicates_value(c.duplicates))
    + entry("merge"@, merge_value(c.merge))
    + entry("stripEnclosingBraces"@, bool_value(c.strip_enclosing_braces))
    + entry("dropAllCaps"@, bool_value(c.drop_all_caps))
    + entry("escape"@, escape_value(c.escape))
    + entry("unescape"@, bool_value(c.unescape))
    + entry("sortFields"@, field_list_value(c.sort_fields))
}

/// The options from `stripComments` to `omit`.
pub open spec fn cleanup_options(c: ConfigurationView) -> Seq<(Seq<char>, TidyValueView)> {
    entry("stripComments"@, bool_value(c.strip_comments))
    + entry("trailingCommas"@, bool_value(c.trailing_commas))
    + entry("encodeUrls"@, bool_value(c.encode_urls))
    + entry("tidyComments"@, bool_value(c.tidy_comments))
    + entry("removeEmptyFields"@, bool_value(c.remove_empty_fields))
    + entry("removeDuplicateFields"@, bool_value(c.remove_duplicate_fields))
    + entry("generateKeys"@, generate_keys_value(c.generate_keys))
    + entry("maxAuthors"@, number_value(c.max_authors))
    + entry("lowercase"@, bool_value(c.lowercase))
    + entry("enclosingBraces"@, field_list_value(c.enclosing_braces))
    + entry("removeBraces"@, field_list_value(c.remove_braces))
    + entry("wrap"@, wrap_value(c.wrap, c.line_width))
    + entry("omit"@, omit_value(c.omit))
}

/// The options handed to bibtex-tidy for the configuration `c`, in order: one
/// for each setting that `c` makes.
pub open spec fn tidy_options(c: ConfigurationView) -> Seq<(Seq<char>, TidyValueView)> {
    layout_options(c) + entry_options(c) + cleanup_options(c)
}

/// The view of an optional option value.
pub open spec fn value_view(value: Option<TidyValue>) -> Option<TidyValueView> {
    match value {
        Some(v) => Some(v@),
        None => None,
    }
}

/// Adds the option `name` when it has a value.
fn add_option(options: &mut Vec<TidyOption>, name: &str, value: Option<TidyValue>)
    ensures
        option_views(final(options)@) == option_views(old(options)@) + entry(
            name@,
            value_view(value),
        ),
{
    match value {
        Some(v) => {
            let ghost before = options@;
            let option = TidyOption { name: String::from_str(name), value: v };
            options.push(option);
            assert(option_views(options@) =~= option_views(before).push((name@, option.value@)));
        },
        None => {},
    }
}

/// A copy of each string.
fn copy_strings(strings: &Vec<String>) -> (copy: Vec<String>)
    ensures
        texts(copy@) == texts(strings@),
{
    let mut copy: Vec<String> = Vec::new();
    let mut i: usize = 0;
    while i < strings.len()
        invariant
            0 <= i <= strings.len(),
            copy@.len() == i,
            forall|j: int| 0 <= j < i ==> #[trigger] copy@[j]@ == strings@[j]@,
        decreases strings.len() - i,
    {
        copy.push(strings[i].clone());
        i = i + 1;
    }
    assert(texts(copy@) =~= texts(strings@));
    copy
}

fn bool_option(b: Option<bool>) -> (value: Option<TidyValue>)
    ensures
        value_view(value) == bool_value(b),
{
    match b {
        Some(b) => Some(TidyValue::Bool(b)),
        None => None,
    }
}

fn field_list_option(f: &Option<FieldListOrBool>) -> (value: Option<TidyValue>)
    ensures
        value_view(value) == field_list_value(match f {
            Some(l) => Some(l@),
            None => None,
        }),
{
    match f {
        Some(FieldListOrBool::Bool(b)) => Some(TidyValue::Bool(*b)),
        Some(FieldListOrBool::List(l)) => Some(TidyValue::List(copy_strings(l))),
        None => None,
    }
}

fn duplicates_option(d: &Option<DuplicatesOption>) -> (value: Option<TidyValue>)
    ensures
        value_view(value) == duplicates_value(match d {
            Some(d) => Some(d@),
            None => None,
        }),
{
    match d {
        Some(DuplicatesOption::Bool(b)) => Some(TidyValue::Bool(*b)),
        Some(DuplicatesOption::Rules(rules)) => {
            let mut names: Vec<String> = Vec::new();
            let mut i: usize = 0;
            while i < rules.len()
                invariant
                    0 <= i <= rules.len(),
                    names@.len() == i,
                    forall|j: int| 0 <= j < i ==> #[trigger] names@[j]@ == duplicate_rule_text(
                        rules@[j],
                    ),
                decreases rules.len() - i,
            {
                names.push(String::from_str(rules[i].as_str()));
                i = i + 1;
            }
            assert(texts(names@) =~= rules@.map_values(|r: DuplicateRule| duplicate_rule_text(r)));
            Some(TidyValue::List(names))
        },
        None => None,
    }
}

/// The options for layout.
fn layout_tidy_options(config: &Configuration) -> (options: Vec<TidyOption>)
    ensures
        option_views(options@) == layout_options(config@),
{
    let mut options: Vec<TidyOption> = Vec::new();
    let tab = match config.tab {
        Some(t) => Some(TidyValue::Bool(t)),
        None => bool_option(config.use_tabs),
    };
    add_option(&mut options, "tab", tab);
    assert(option_views(options@) =~= entry("tab"@, tab_value(config@)));
    let space = match config.space {
        Some(s) => Some(TidyValue::Number(s as u32)),
        None => match config.indent_width {
            Some(w) => Some(TidyValue::Number(w as u32)),
            None => None,
        },
    };
    add_option(&mut options, "space", space);
    let align = match config.align {
        Some(AlignOption::Bool(b)) => Some(TidyValue::Bool(b)),
        Some(AlignOption::Column(c)) => Some(TidyValue::Number(c)),
        None => None,
    };
    add_option(&mut options, "align", align);
    options
}

/// The options from `blankLines` to `sortFields`.
fn entry_tidy_options(config: &Configuration) -> (options: Vec<TidyOption>)
    ensures
        option_views(options@) == entry_options(config@),
{
    let mut options: Vec<TidyOption> = Vec::new();
    add_option(&mut options, "blankLines", bool_option(config.blank_lines));
    assert(option_views(options@) =~= entry("blankLines"@, bool_value(config@.blank_lines)));
    add_option(&mut options, "curly", bool_option(config.curly));
    add_option(&mut options, "numeric", bool_option(config.numeric));
    add_option(&mut options, "months", bool_option(config.months));
    add_option(&mut options, "sort", field_list_option(&config.sort));
    add_option(&mut options, "duplicates", duplicates_option(&config.duplicates));
    let merge = match config.merge {
        Some(MergeOption::Bool(b)) => Some(TidyValue::Bool(b)),
        Some(MergeOption::Strategy(s)) => Some(TidyValue::Text(String::from_str(s.as_str()))),
        None => None,
    };
    add_option(&mut options, "merge", merge);
    add_option(&mut options, "stripEnclosingBraces", bool_option(config.strip_enclosing_braces));
    add_option(&mut options, "dropAllCaps", bool_option(config.drop_all_caps));
    let escape = match &config.escape {
        Some(EscapeOption::Bool(b)) => Some(TidyValue::Bool(*b)),
        Some(EscapeOption::Mode(m)) => Some(TidyValue::Text(m.clone())),
        None => None,
    };
    add_option(&mut options, "escape", escape);
    add_option(&mut options, "unescape", bool_option(config.unescape));
    add_option(&mut options, "sortFields", field_list_option(&config.sort_fields));
    options
}

/// The options from `stripComments` to `omit`.
fn cleanup_tidy_options(config: &Configuration) -> (options: Vec<TidyOption>)
    ensures
        option_views(options@) == cleanup_options(config@),
{
    let mut options: Vec<TidyOption> = Vec::new();
    add_option(&mut options, "stripComments", bool_option(config.strip_comments));
    assert(option_views(options@) =~= entry("stripComments"@, bool_value(config@.strip_comments)));
    add_option(&mut options, "trailingCommas", bool_option(config.trailing_commas));
    add_option(&mut options, "encodeUrls", bool_option(config.encode_urls));
    add_option(&mut options, "tidyComments", bool_option(config.tidy_comments));
    add_option(&mut options, "removeEmptyFields", bool_option(config.remove_empty_fields));
    add_option(&mut options, "removeDuplicateFields", bool_option(config.remove_duplicate_fields));
    let generate_keys = match &config.generate_keys {
        Some(GenerateKeysOption::Bool(b)) => Some(TidyValue::Bool(*b)),
        Some(GenerateKeysOption::Template(t)) => Some(TidyValue::Text(t.clone())),
        None => None,
    };
    add_option(&mut options, "generateKeys", generate_keys);
    let max_authors = match config.max_authors {
        Some(n) => Some(TidyValue::Number(n)),
        None => None,
    };
    add_option(&mut options, "maxAuthors", max_authors);
    add_option(&mut options, "lowercase", bool_option(config.lowercase));
    add_option(&mut options, "enclosingBraces", field_list_option(&config.enclosing_braces));
    add_option(&mut options, "removeBraces", field_list_option(&config.remove_braces));
    let wrap = match config.wrap {
        Some(WrapOption::Bool(true)) => match config.line_width {
            Some(w) => Some(TidyValue::Number(w)),
            None => Some(TidyValue::Bool(true)),
        },
        Some(WrapOption::Bool(false)) => Some(TidyValue::Bool(false)),
        Some(WrapOption::Column(c)) => Some(TidyValue::Number(c)),
        None => match config.line_width {
            Some(w) => Some(TidyValue::Number(w)),
            None => None,
        },
    };
    add_option(&mut options, "wrap", wrap);
    let omit = match &config.omit {
        Some(fields) => Some(TidyValue::List(copy_strings(fields))),
        None => None,
    };
    add_option(&mut options, "omit", omit);
    options
}

/// The options that bibtex-tidy is given for `config`.
pub fn to_bibtex_tidy_options(config: &Configuration) -> (options: Vec<TidyOption>)
    ensures
        option_views(options@) == tidy_options(config@),
{
    let mut options = layout_tidy_options(config);
    let mut entries = entry_tidy_options(config);
    let mut cleanup = cleanup_tidy_options(config);
    let ghost a = options@;
    let ghost b = entries@;
    let ghost c = cleanup@;
    options.append(&mut entries);
    options.append(&mut cleanup);
    assert(options@ == a + b + c);
    assert(option_views(options@) =~= option_views(a) + option_views(b) + option_views(c));
    options
}

/// The line ending kind that the configuration asks for: the plugin's own
/// `lineEnding`, else the new line kind, else `\n`.
pub open spec fn requested_new_line_kind(c: ConfigurationView) -> NewLineKind {
    match c.line_ending {
        Some(LineEnding::Lf) => NewLineKind::LineFeed,
        Some(LineEnding::Crlf) => NewLineKind::CarriageReturnLineFeed,
        None => match c.new_line_kind {
            Some(k) => k,
            None => NewLineKind::LineFeed,
        },
    }
}

/// The text of a line ending of kind `kind` for a file whose text is `input`:
/// `auto` takes the ending of the last line of `input`, and `\n` when it has
/// none.
pub open spec fn line_ending_text(input: Seq<char>, kind: NewLineKind) -> Seq<char> {
    match kind {
        NewLineKind::LineFeed => lf(),
        NewLineKind::CarriageReturnLineFeed => crlf(),
        NewLineKind::Auto => if last_line_ending_is_crlf(input) {
            crlf()
        } else {
            lf()
        },
    }
}

/// `text` with each `\r\n` made `\n`, then each `\n` made `ending`.
pub open spec fn with_line_endings(text: Seq<char>, ending: Seq<char>) -> Seq<char> {
    replace_all(replace_all(text, crlf(), lf()), lf(), ending)
}

/// The text that bibtex-tidy returned as `formatted`, with the line endings
/// that `config` asks for on a file whose text is `input`.
pub open spec fn formatted_text(formatted: Seq<char>, input: Seq<char>, config: ConfigurationView) -> Seq<char> {
    with_line_endings(formatted, line_ending_text(input, requested_new_line_kind(config)))
}

/// `dprint_core::configuration::resolve_new_line_kind`, with the kind carried
/// over variant by variant.
///
/// Trusted: dprint-core gives `\n` for a line feed, `\r\n` for a carriage
/// return line feed, and for `auto` looks for the last `\n` of `file_text`: `\r\n`
/// when a `\r` comes right before it, and `\n` otherwise or when there is none.
#[verifier::external_body]
fn resolve_new_line_kind(file_text: &str, kind: NewLineKind) -> (ending: &'static str)
    ensures
        ending@ == line_ending_text(file_text@, kind),
{
    let kind = match kind {
        NewLineKind::Auto => dprint_core::configuration::NewLineKind::Auto,
        NewLineKind::LineFeed => dprint_core::configuration::NewLineKind::LineFeed,
        NewLineKind::CarriageReturnLineFeed => {
            dprint_core::configuration::NewLineKind::CarriageReturnLineFeed
        },
    };
    dprint_core::configuration::resolve_new_line_kind(file_text, kind)
}

/// `text` with the line endings that `config` asks for on a file whose text is
/// `input_text`.
pub fn apply_line_ending(text: String, input_text: &str, config: &Configuration) -> (applied:
    String)
    ensures
        applied@ == formatted_text(text@, input_text@, config@),
{
    let kind = match config.line_ending {
        Some(LineEnding::Lf) => NewLineKind::LineFeed,
        Some(LineEnding::Crlf) => NewLineKind::CarriageReturnLineFeed,
        None => match config.new_line_kind {
            Some(k) => k,
            None => NewLineKind::LineFeed,
        },
    };
    let ending = resolve_new_line_kind(input_text, kind);
    proof {
        reveal_strlit("\r\n");
        reveal_strlit("\n");
        assert("\r\n"@ =~= crlf());
        assert("\n"@ =~= lf());
    }
    let unified = replace_text(text.as_str(), "\r\n", "\n");
    replace_text(unified.as_str(), "\n", ending)
}

/// The outcome of formatting `input_text` when bibtex-tidy returned
/// `formatted`: nothing when the text, with its line endings applied, is
/// already `input_text`, and that text otherwise.
pub fn finish_formatting(formatted: String, input_text: &str, config: &Configuration) -> (result:
    Option<String>)
    ensures
        match result {
            None => formatted_text(formatted@, input_text@, config@) == input_text@,
            Some(text) => text@ == formatted_text(formatted@, input_text@, config@) && text@
                != input_text@,
        },
{
    let formatted = apply_line_ending(formatted, input_text, config);
    if text_equals(formatted.as_str(), input_text) {
        None
    } else {
        Some(formatted)
    }
}

/// With `auto`, a file whose last line ends in `\r\n` gets `\r\n` line
/// endings, any other file `\n`; a file without line endings gets `\n`.
pub proof fn law_auto_follows_the_file(input: Seq<char>)
    ensures
        line_ending_text(input, NewLineKind::Auto) == (if last_line_ending_is_crlf(input) {
            crlf()
        } else {
            lf()
        }),
        lacks(input, '\n') ==> line_ending_text(input, NewLineKind::Auto) == lf(),
{
    if lacks(input, '\n') {
        lemma_no_line_feed_no_crlf(input);
    }
}

/// The plugin's own `lineEnding` decides the line endings, whatever the new
/// line kind.
pub proof fn law_line_ending_overrides_new_line_kind(c: ConfigurationView)
    ensures
        c.line_ending == Some(LineEnding::Lf) ==> requested_new_line_kind(c)
            == NewLineKind::LineFeed,
        c.line_ending == Some(LineEnding::Crlf) ==> requested_new_line_kind(c)
            == NewLineKind::CarriageReturnLineFeed,
{
}

/// With `\r\n` line endings, every line feed of the result follows a
/// carriage return.
pub proof fn law_crlf_output_has_no_bare_line_feed(formatted: Seq<char>)
    ensures
        line_feeds_follow_carriage_returns(with_line_endings(formatted, crlf())),
{
    lemma_expand_line_feeds(replace_all(formatted, crlf(), lf()));
}

/// Formatting again what formatting gave changes nothing, when bibtex-tidy
/// returns the same text: the line endings of the result are those that the
/// result itself asks for. This holds whenever the line ending kind is `\n` or
/// `\r\n` rather than `auto`, and with `auto` when the endings come out as
/// `\r\n` or the text that bibtex-tidy returned holds no carriage return.
pub proof fn law_reformatting_is_stable(formatted: Seq<char>, input: Seq<char>, c: ConfigurationView)
    requires
        requested_new_line_kind(c) != NewLineKind::Auto
            || line_ending_text(input, requested_new_line_kind(c)) == crlf()
            || lacks(formatted, '\r'),
    ensures
        formatted_text(formatted, formatted_text(formatted, input, c), c) == formatted_text(
            formatted,
            input,
            c,
        ),
{
    let k = requested_new_line_kind(c);
    let e = line_ending_text(input, k);
    let u = replace_all(formatted, crlf(), lf());
    let out = replace_all(u, lf(), e);
    assert(out == formatted_text(formatted, input, c));
    if k == NewLineKind::Auto {
        if e == crlf() {
            lemma_expand_line_feeds(u);
            if lacks(out, '\n') {
                lemma_no_line_feed_no_crlf(out);
                lemma_replace_by_itself(u, lf());
                lemma_replace_absent(u, lf(), crlf());
                assert(line_ending_text(out, k) == lf());
            } else {
                lemma_crlf_text_ends_lines_in_crlf(out);
                assert(line_ending_text(out, k) == crlf());
            }
        } else {
            assert(e == lf());
            lemma_replace_absent(formatted, crlf(), lf());
            assert(u == formatted);
            lemma_replace_by_itself(u, lf());
            assert(out == formatted);
            lemma_no_carriage_return_ends_in_line_feed(formatted);
            assert(line_ending_text(out, k) == lf());
        }
    }
}

/// The value of the last option named `name`: the value that an object built
/// by setting the options in order holds under `name`.
pub open spec fn option_named(options: Seq<(Seq<char>, TidyValueView)>, name: Seq<char>) -> Option<
    TidyValueView,
>
    decreases options.len(),
{
    if options.len() == 0 {
        None
    } else if options.last().0 == name {
        Some(options.last().1)
    } else {
        option_named(options.drop_last(), name)
    }
}

/// The value that the configuration `c` gives the bibtex-tidy option `name`,
/// if any.
pub open spec fn option_value(c: ConfigurationView, name: Seq<char>) -> Option<TidyValueView> {
    if name == "tab"@ {
        tab_value(c)
    } else if name == "space"@ {
        space_value(c)
    } else if name == "align"@ {
        align_value(c.align)
    } else if name == "blankLines"@ {
        bool_value(c.blank_lines)
    } else if name == "curly"@ {
        bool_value(c.curly)
    } else if name == "numeric"@ {
        bool_value(c.numeric)
    } else if name == "months"@ {
        bool_value(c.months)
    } else if name == "sort"@ {
        field_list_value(c.sort)
    } else if name == "duplicates"@ {
        duplicates_value(c.duplicates)
    } else if name == "merge"@ {
        merge_value(c.merge)
    } else if name == "stripEnclosingBraces"@ {
        bool_value(c.strip_enclosing_braces)
    } else if name == "dropAllCaps"@ {
        bool_value(c.drop_all_caps)
    } else if name == "escape"@ {
        escape_value(c.escape)
    } else if name == "unescape"@ {
        bool_value(c.unescape)
    } else if name == "sortFields"@ {
        field_list_value(c.sort_fields)
    } else if name == "stripComments"@ {
        bool_value(c.strip_comments)
    } else if name == "trailingCommas"@ {
        bool_value(c.trailing_commas)
    } else if name == "encodeUrls"@ {
        bool_value(c.encode_urls)
    } else if name == "tidyComments"@ {
        bool_value(c.tidy_comments)
    } else if name == "removeEmptyFields"@ {
        bool_value(c.remove_empty_fields)
    } else if name == "removeDuplicateFields"@ {
        bool_value(c.remove_duplicate_fields)
    } else if name == "generateKeys"@ {
        generate_keys_value(c.generate_keys)
    } else if name == "maxAuthors"@ {
        number_value(c.max_authors)
    } else if name == "lowercase"@ {
        bool_value(c.lowercase)
    } else if name == "enclosingBraces"@ {
        field_list_value(c.enclosing_braces)
    } else if name == "removeBraces"@ {
        field_list_value(c.remove_braces)
    } else if name == "wrap"@ {
        wrap_value(c.wrap, c.line_width)
    } else if name == "omit"@ {
        omit_value(c.omit)
    } else {
        None
    }
}

/// An option set later wins over one set earlier under the same name.
pub broadcast proof fn lemma_option_named_append(
    a: Seq<(Seq<char>, TidyValueView)>,
    b: Seq<(Seq<char>, TidyValueView)>,
    name: Seq<char>,
)
    ensures
        #[trigger] option_named(a + b, name) == match option_named(b, name) {
            Some(v) => Some(v),
            None => option_named(a, name),
        },
    decreases b.len(),
{
    if b.len() == 0 {
        assert(a + b =~= a);
    } else {
        assert((a + b).drop_last() =~= a + b.drop_last());
        assert((a + b).last() == b.last());
        lemma_option_named_append(a, b.drop_last(), name);
    }
}

/// An option that is set is found under its own name only.
pub broadcast proof fn lemma_option_named_entry(
    option: Seq<char>,
    value: Option<TidyValueView>,
    name: Seq<char>,
)
    ensures
        #[trigger] option_named(entry(option, value), name) == if option == name {
            value
        } else {
            None
        },
{
    let e = entry(option, value);
    if value is Some {
        assert(e.drop_last() =~= Seq::<(Seq<char>, TidyValueView)>::empty());
        assert(option_named(e.drop_last(), name) is None);
        assert(e.last() == (option, value->0));
    } else {
        assert(e.len() == 0);
    }
}

/// The value that the configuration gives the option `name` among the layout options.
pub open spec fn layout_option_value(c: ConfigurationView, name: Seq<char>) -> Option<TidyValueView> {
    if name == "tab"@ {
        tab_value(c)
    } else if name == "space"@ {
        space_value(c)
    } else if name == "align"@ {
        align_value(c.align)
    } else {
        None
    }
}

proof fn lemma_layout_options_by_name(c: ConfigurationView, name: Seq<char>)
    ensures
        option_named(layout_options(c), name) == layout_option_value(c, name),
{
    broadcast use lemma_option_named_append, lemma_option_named_entry;
    lemma_property_names();
}

/// The value that the configuration gives the option `name` among the entry options.
pub open spec fn entry_option_value(c: ConfigurationView, name: Seq<char>) -> Option<TidyValueView> {
    if name == "blankLines"@ {
        bool_value(c.blank_lines)
    } else if name == "curly"@ {
        bool_value(c.curly)
    } else if name == "numeric"@ {
        bool_value(c.numeric)
    } else if name == "months"@ {
        bool_value(c.months)
    } else if name == "sort"@ {
        field_list_value(c.sort)
    } else if name == "duplicates"@ {
        duplicates_value(c.duplicates)
    } else if name == "merge"@ {
        merge_value(c.merge)
    } else if name == "stripEnclosingBraces"@ {
        bool_value(c.strip_enclosing_braces)
    } else if name == "dropAllCaps"@ {
        bool_value(c.drop_all_caps)
    } else if name == "escape"@ {
        escape_value(c.escape)
    } else if name == "unescape"@ {
        bool_value(c.unescape)
    } else if name == "sortFields"@ {
        field_list_value(c.sort_fields)
    } else {
        None
    }
}

proof fn lemma_entry_options_by_name(c: ConfigurationView, name: Seq<char>)
    ensures
        option_named(entry_options(c), name) == entry_option_value(c, name),
{
    let e0 = entry("blankLines"@, bool_value(c.blank_lines));
    lemma_option_named_entry("blankLines"@, bool_value(c.blank_lines), name);
    let e1 = entry("curly"@, bool_value(c.curly));
    lemma_option_named_entry("curly"@, bool_value(c.curly), name);
    let e2 = entry("numeric"@, bool_value(c.numeric));
    lemma_option_named_entry("numeric"@, bool_value(c.numeric), name);
    let e3 = entry("months"@, bool_value(c.months));
    lemma_option_named_entry("months"@, bool_value(c.months), name);
    let e4 = entry("sort"@, field_list_value(c.sort));
    lemma_option_named_entry("sort"@, field_list_value(c.sort), name);
    let e5 = entry("duplicates"@, duplicates_value(c.duplicates));
    lemma_option_named_entry("duplicates"@, duplicates_value(c.duplicates), name);
    let e6 = entry("merge"@, merge_value(c.merge));
    lemma_option_named_entry("merge"@, merge_value(c.merge), name);
    let e7 = entry("stripEnclosingBraces"@, bool_value(c.strip_enclosing_braces));
    lemma_option_named_entry("stripEnclosingBraces"@, bool_value(c.strip_enclosing_braces), name);
    let e8 = entry("dropAllCaps"@, bool_value(c.drop_all_caps));
    lemma_option_named_entry("dropAllCaps"@, bool_value(c.drop_all_caps), name);
    let e9 = entry("escape"@, escape_value(c.escape));
    lemma_option_named_entry("escape"@, escape_value(c.escape), name);
    let e10 = entry("unescape"@, bool_value(c.unescape));
    lemma_option_named_entry("unescape"@, bool_value(c.unescape), name);
    let e11 = entry("sortFields"@, field_list_value(c.sort_fields));
    lemma_option_named_entry("sortFields"@, field_list_value(c.sort_fields), name);
    let p0 = e0;
    let p1 = p0 + e1;
    lemma_option_named_append(p0, e1, name);
    let p2 = p1 + e2;
    lemma_option_named_append(p1, e2, name);
    let p3 = p2 + e3;
    lemma_option_named_append(p2, e3, name);
    let p4 = p3 + e4;
    lemma_option_named_append(p3, e4, name);
    let p5 = p4 + e5;
    lemma_option_named_append(p4, e5, name);
    let p6 = p5 + e6;
    lemma_option_named_append(p5, e6, name);
    let p7 = p6 + e7;
    lemma_option_named_append(p6, e7, name);
    let p8 = p7 + e8;
    lemma_option_named_append(p7, e8, name);
    let p9 = p8 + e9;
    lemma_option_named_append(p8, e9, name);
    let p10 = p9 + e10;
    lemma_option_named_append(p9, e10, name);
    let p11 = p10 + e11;
    lemma_option_named_append(p10, e11, name);
    assert(p11 == entry_options(c));
    lemma_property_names();
    if name == "blankLines"@ {
        assert(option_named(entry_options(c), name) == bool_value(c.blank_lines));
    } else if name == "curly"@ {
        assert(option_named(entry_options(c), name) == bool_value(c.curly));
    } else if name == "numeric"@ {
        assert(option_named(entry_options(c), name) == bool_value(c.numeric));
    } else if name == "months"@ {
        assert(option_named(entry_options(c), name) == bool_value(c.months));
    } else if name == "sort"@ {
        assert(option_named(entry_options(c), name) == field_list_value(c.sort));
    } else if name == "duplicates"@ {
        assert(option_named(entry_options(c), name) == duplicates_value(c.duplicates));
    } else if name == "merge"@ {
        assert(option_named(entry_options(c), name) == merge_value(c.merge));
    } else if name == "stripEnclosingBraces"@ {
        assert(option_named(entry_options(c), name) == bool_value(c.strip_enclosing_braces));
    } else if name == "dropAllCaps"@ {
        assert(option_named(entry_options(c), name) == bool_value(c.drop_all_caps));
    } else if name == "escape"@ {
        assert(option_named(entry_options(c), name) == escape_value(c.escape));
    } else if name == "unescape"@ {
        assert(option_named(entry_options(c), name) == bool_value(c.unescape));
    } else if name == "sortFields"@ {
        assert(option_named(entry_options(c), name) == field_list_value(c.sort_fields));
    } else {
        assert(option_named(entry_options(c), name) is None);
    }
}

/// The value that the configuration gives the option `name` among the cleanup options.
pub open spec fn cleanup_option_value(c: ConfigurationView, name: Seq<char>) -> Option<TidyValueView> {
    if name == "stripComments"@ {
        bool_value(c.strip_comments)
    } else if name == "trailingCommas"@ {
        bool_value(c.trailing_commas)
    } else if name == "encodeUrls"@ {
        bool_value(c.encode_urls)
    } else if name == "tidyComments"@ {
        bool_value(c.tidy_comments)
    } else if name == "removeEmptyFields"@ {
        bool_value(c.remove_empty_fields)
    } else if name == "removeDuplicateFields"@ {
        bool_value(c.remove_duplicate_fields)
    } else if name == "generateKeys"@ {
        generate_keys_value(c.generate_keys)
    } else if name == "maxAuthors"@ {
        number_value(c.max_authors)
    } else if name == "lowercase"@ {
        bool_value(c.lowercase)
    } else if name == "enclosingBraces"@ {
        field_list_value(c.enclosing_braces)
    } else if name == "removeBraces"@ {
        field_list_value(c.remove_braces)
    } else if name == "wrap"@ {
        wrap_value(c.wrap, c.line_width)
    } else if name == "omit"@ {
        omit_value(c.omit)
    } else {
        None
    }
}

proof fn lemma_cleanup_options_by_name(c: ConfigurationView, name: Seq<char>)
    ensures
        option_named(cleanup_options(c), name) == cleanup_option_value(c, name),
{
    let e0 = entry("stripComments"@, bool_value(c.strip_comments));
    lemma_option_named_entry("stripComments"@, bool_value(c.strip_comments), name);
    let e1 = entry("trailingCommas"@, bool_value(c.trailing_commas));
    lemma_option_named_entry("trailingCommas"@, bool_value(c.trailing_commas), name);
    let e2 = entry("encodeUrls"@, bool_value(c.encode_urls));
    lemma_option_named_entry("encodeUrls"@, bool_value(c.encode_urls), name);
    let e3 = entry("tidyComments"@, bool_value(c.tidy_comments));
    lemma_option_named_entry("tidyComments"@, bool_value(c.tidy_comments), name);
    let e4 = entry("removeEmptyFields"@, bool_value(c.remove_empty_fields));
    lemma_option_named_entry("removeEmptyFields"@, bool_value(c.remove_empty_fields), name);
    let e5 = entry("removeDuplicateFields"@, bool_value(c.remove_duplicate_fields));
    lemma_option_named_entry("removeDuplicateFields"@, bool_value(c.remove_duplicate_fields), name);
    let e6 = entry("generateKeys"@, generate_keys_value(c.generate_keys));
    lemma_option_named_entry("generateKeys"@, generate_keys_value(c.generate_keys), name);
    let e7 = entry("maxAuthors"@, number_value(c.max_authors));
    lemma_option_named_entry("maxAuthors"@, number_value(c.max_authors), name);
    let e8 = entry("lowercase"@, bool_value(c.lowercase));
    lemma_option_named_entry("lowercase"@, bool_value(c.lowercase), name);
    let e9 = entry("enclosingBraces"@, field_list_value(c.enclosing_braces));
    lemma_option_named_entry("enclosingBraces"@, field_list_value(c.enclosing_braces), name);
    let e10 = entry("removeBraces"@, field_list_value(c.remove_braces));
    lemma_option_named_entry("removeBraces"@, field_list_value(c.remove_braces), name);
    let e11 = entry("wrap"@, wrap_value(c.wrap, c.line_width));
    lemma_option_named_entry("wrap"@, wrap_value(c.wrap, c.line_width), name);
    let e12 = entry("omit"@, omit_value(c.omit));
    lemma_option_named_entry("omit"@, omit_value(c.omit), name);
    let p0 = e0;
    let p1 = p0 + e1;
    lemma_option_named_append(p0, e1, name);
    let p2 = p1 + e2;
    lemma_option_named_append(p1, e2, name);
    let p3 = p2 + e3;
    lemma_option_named_append(p2, e3, name);
    let p4 = p3 + e4;
    lemma_option_named_append(p3, e4, name);
    let p5 = p4 + e5;
    lemma_option_named_append(p4, e5, name);
    let p6 = p5 + e6;
    lemma_option_named_append(p5, e6, name);
    let p7 = p6 + e7;
    lemma_option_named_append(p6, e7, name);
    let p8 = p7 + e8;
    lemma_option_named_append(p7, e8, name);
    let p9 = p8 + e9;
    lemma_option_named_append(p8, e9, name);
    let p10 = p9 + e10;
    lemma_option_named_append(p9, e10, name);
    let p11 = p10 + e11;
    lemma_option_named_append(p10, e11, name);
    let p12 = p11 + e12;
    lemma_option_named_append(p11, e12, name);
    assert(p12 == cleanup_options(c));
    lemma_property_names();
}

/// Under each name, the options handed to bibtex-tidy hold exactly the value
/// that the configuration gives that option: `tab` from `tab` or else
/// `useTabs`, `space` from `space` or else the indent width, `wrap` from `wrap`
/// or else the line width, each boolean setting as that boolean, and nothing
/// under any other name.
pub proof fn law_options_by_name(c: ConfigurationView, name: Seq<char>)
    ensures
        option_named(tidy_options(c), name) == option_value(c, name),
{
    lemma_option_named_append(layout_options(c), entry_options(c), name);
    lemma_option_named_append(layout_options(c) + entry_options(c), cleanup_options(c), name);
    lemma_layout_options_by_name(c, name);
    lemma_entry_options_by_name(c, name);
    lemma_cleanup_options_by_name(c, name);
    lemma_property_names();
}

/// bibtex-tidy's own `tab` and `space` win over `useTabs` and the indent width,
/// and no option is set for the line ending, the new line kind, the line
/// width, the indent width or `useTabs` under their own names.
pub proof fn law_tab_and_space_win(c: ConfigurationView)
    ensures
        option_named(tidy_options(c), "tab"@) == match c.tab {
            Some(t) => Some(TidyValueView::Bool(t)),
            None => bool_value(c.use_tabs),
        },
        option_named(tidy_options(c), "space"@) == match c.space {
            Some(s) => Some(TidyValueView::Number(s as u32)),
            None => match c.indent_width {
                Some(w) => Some(TidyValueView::Number(w as u32)),
                None => None,
            },
        },
        option_named(tidy_options(c), "lineEnding"@) is None,
        option_named(tidy_options(c), "newLineKind"@) is None,
        option_named(tidy_options(c), "lineWidth"@) is None,
        option_named(tidy_options(c), "indentWidth"@) is None,
        option_named(tidy_options(c), "useTabs"@) is None,
{
    law_options_by_name(c, "tab"@);
    law_options_by_name(c, "space"@);
    law_options_by_name(c, "lineEnding"@);
    law_options_by_name(c, "newLineKind"@);
    law_options_by_name(c, "lineWidth"@);
    law_options_by_name(c, "indentWidth"@);
    law_options_by_name(c, "useTabs"@);
    lemma_property_names();
}

/// Each boolean setting is handed to bibtex-tidy under its own name as that
/// same boolean, and not at all when it is unset.
pub proof fn law_boolean_options_carry_the_setting(c: ConfigurationView)
    ensures
        option_named(tidy_options(c), "blankLines"@) == match c.blank_lines {
            Some(b) => Some(TidyValueView::Bool(b)),
            None => None,
        },
        option_named(tidy_options(c), "curly"@) == match c.curly {
            Some(b) => Some(TidyValueView::Bool(b)),
            None => None,
        },
        option_named(tidy_options(c), "numeric"@) == match c.numeric {
            Some(b) => Some(TidyValueView::Bool(b)),
            None => None,
        },
        option_named(tidy_options(c), "months"@) == match c.months {
            Some(b) => Some(TidyValueView::Bool(b)),
            None => None,
        },
        option_named(tidy_options(c), "stripEnclosingBraces"@) == match c.strip_enclosing_braces {
            Some(b) => Some(TidyValueView::Bool(b)),
            None => None,
        },
        option_named(tidy_options(c), "dropAllCaps"@) == match c.drop_all_caps {
            Some(b) => Some(TidyValueView::Bool(b)),
            None => None,
        },
        option_named(tidy_options(c), "unescape"@) == match c.unescape {
            Some(b) => Some(TidyValueView::Bool(b)),
            None => None,
        },
        option_named(tidy_options(c), "stripComments"@) == match c.strip_comments {
            Some(b) => Some(TidyValueView::Bool(b)),
            None => None,
        },
        option_named(tidy_options(c), "trailingCommas"@) == match c.trailing_commas {
            Some(b) => Some(TidyValueView::Bool(b)),
            None => None,
        },
        option_named(tidy_options(c), "encodeUrls"@) == match c.encode_urls {
            Some(b) => Some(TidyValueView::Bool(b)),
            None => None,
        },
        option_named(tidy_options(c), "tidyComments"@) == match c.tidy_comments {
            Some(b) => Some(TidyValueView::Bool(b)),
            None => None,
        },
        option_named(tidy_options(c), "removeEmptyFields"@) == match c.remove_empty_fields {
            Some(b) => Some(TidyValueView::Bool(b)),
            None => None,
        },
        option_named(tidy_options(c), "removeDuplicateFields"@) == match c.remove_duplicate_fields {
            Some(b) => Some(TidyValueView::Bool(b)),
            None => None,
        },
        option_named(tidy_options(c), "lowercase"@) == match c.lowercase {
            Some(b) => Some(TidyValueView::Bool(b)),
            None => None,
        },
{
    lemma_property_names();
    law_options_by_name(c, "blankLines"@);
    law_options_by_name(c, "curly"@);
    law_options_by_name(c, "numeric"@);
    law_options_by_name(c, "months"@);
    law_options_by_name(c, "stripEnclosingBraces"@);
    law_options_by_name(c, "dropAllCaps"@);
    law_options_by_name(c, "unescape"@);
    law_options_by_name(c, "stripComments"@);
    law_options_by_name(c, "trailingCommas"@);
    law_options_by_name(c, "encodeUrls"@);
    law_options_by_name(c, "tidyComments"@);
    law_options_by_name(c, "removeEmptyFields"@);
    law_options_by_name(c, "removeDuplicateFields"@);
    law_options_by_name(c, "lowercase"@);
}

/// A setting that takes a boolean or a list of fields is handed to bibtex-tidy
/// under its own name as that boolean or that list, and so is the list of
/// fields to omit.
pub proof fn law_list_options_carry_the_setting(c: ConfigurationView)
    ensures
        option_named(tidy_options(c), "sort"@) == match c.sort {
            Some(FieldListOrBoolView::Bool(b)) => Some(TidyValueView::Bool(b)),
            Some(FieldListOrBoolView::List(l)) => Some(TidyValueView::List(l)),
            None => None,
        },
        option_named(tidy_options(c), "sortFields"@) == match c.sort_fields {
            Some(FieldListOrBoolView::Bool(b)) => Some(TidyValueView::Bool(b)),
            Some(FieldListOrBoolView::List(l)) => Some(TidyValueView::List(l)),
            None => None,
        },
        option_named(tidy_options(c), "enclosingBraces"@) == match c.enclosing_braces {
            Some(FieldListOrBoolView::Bool(b)) => Some(TidyValueView::Bool(b)),
            Some(FieldListOrBoolView::List(l)) => Some(TidyValueView::List(l)),
            None => None,
        },
        option_named(tidy_options(c), "removeBraces"@) == match c.remove_braces {
            Some(FieldListOrBoolView::Bool(b)) => Some(TidyValueView::Bool(b)),
            Some(FieldListOrBoolView::List(l)) => Some(TidyValueView::List(l)),
            None => None,
        },
        option_named(tidy_options(c), "omit"@) == match c.omit {
            Some(l) => Some(TidyValueView::List(l)),
            None => None,
        },
{
    lemma_property_names();
    law_options_by_name(c, "sort"@);
    law_options_by_name(c, "sortFields"@);
    law_options_by_name(c, "enclosingBraces"@);
    law_options_by_name(c, "removeBraces"@);
    law_options_by_name(c, "omit"@);
}

/// `align`, `duplicates`, `merge`, `escape`, `generateKeys` and `maxAuthors`
/// are handed to bibtex-tidy under their own names as what they hold: a
/// boolean as that boolean, a column or number as that number, the duplicate
/// rules by their names in order, a merge strategy by its name, the escape
/// mode and the key template as their text.
pub proof fn law_choice_options_carry_the_setting(c: ConfigurationView)
    ensures
        option_named(tidy_options(c), "align"@) == match c.align {
            Some(AlignOption::Bool(b)) => Some(TidyValueView::Bool(b)),
            Some(AlignOption::Column(n)) => Some(TidyValueView::Number(n)),
            None => None,
        },
        match c.duplicates {
            Some(DuplicatesOptionView::Bool(b)) => option_named(tidy_options(c), "duplicates"@) == Some(TidyValueView::Bool(b)),
            Some(DuplicatesOptionView::Rules(rules)) => match option_named(tidy_options(c), "duplicates"@) {
                Some(TidyValueView::List(names)) => names.len() == rules.len() && forall|i: int|
                    0 <= i < rules.len() ==> #[trigger] names[i] == duplicate_rule_text(rules[i]),
                _ => false,
            },
            None => option_named(tidy_options(c), "duplicates"@) is None,
        },
        option_named(tidy_options(c), "merge"@) == match c.merge {
            Some(MergeOption::Bool(b)) => Some(TidyValueView::Bool(b)),
            Some(MergeOption::Strategy(MergeStrategy::First)) => Some(TidyValueView::Text("first"@)),
            Some(MergeOption::Strategy(MergeStrategy::Last)) => Some(TidyValueView::Text("last"@)),
            Some(MergeOption::Strategy(MergeStrategy::Combine)) => Some(TidyValueView::Text("combine"@)),
            Some(MergeOption::Strategy(MergeStrategy::Overwrite)) => Some(TidyValueView::Text("overwrite"@)),
            None => None,
        },
        option_named(tidy_options(c), "escape"@) == match c.escape {
            Some(EscapeOptionView::Bool(b)) => Some(TidyValueView::Bool(b)),
            Some(EscapeOptionView::Mode(mode)) => Some(TidyValueView::Text(mode)),
            None => None,
        },
        option_named(tidy_options(c), "generateKeys"@) == match c.generate_keys {
            Some(GenerateKeysOptionView::Bool(b)) => Some(TidyValueView::Bool(b)),
            Some(GenerateKeysOptionView::Template(t)) => Some(TidyValueView::Text(t)),
            None => None,
        },
        option_named(tidy_options(c), "maxAuthors"@) == match c.max_authors {
            Some(n) => Some(TidyValueView::Number(n)),
            None => None,
        },
{
    lemma_property_names();
    law_options_by_name(c, "align"@);
    law_options_by_name(c, "duplicates"@);
    law_options_by_name(c, "merge"@);
    law_options_by_name(c, "escape"@);
    law_options_by_name(c, "generateKeys"@);
    law_options_by_name(c, "maxAuthors"@);
}

/// `wrap` is handed to bibtex-tidy as the column to wrap at: the column that
/// it gives, or the line width when it asks for wrapping without a column (or
/// `true` when there is no line width); `false` stays `false`; with no wrap
/// setting the line width is the column.
pub proof fn law_wrap_option_carries_the_setting(c: ConfigurationView)
    ensures
        option_named(tidy_options(c), "wrap"@) == match (c.wrap, c.line_width) {
            (Some(WrapOption::Bool(false)), _) => Some(TidyValueView::Bool(false)),
            (Some(WrapOption::Bool(true)), Some(w)) => Some(TidyValueView::Number(w)),
            (Some(WrapOption::Bool(true)), None) => Some(TidyValueView::Bool(true)),
            (Some(WrapOption::Column(n)), _) => Some(TidyValueView::Number(n)),
            (None, Some(w)) => Some(TidyValueView::Number(w)),
            (None, None) => None,
        },
{
    lemma_property_names();
    law_options_by_name(c, "wrap"@);
}

/// With no wrapping setting and no line width of its own, the plugin wraps at
/// the global line width.
pub proof fn law_global_line_width_controls_wrapping(
    m: ConfigEntries,
    g: GlobalConfiguration,
    system: NewLineKind,
    width: u32,
)
    requires
        lookup(m, "wrap"@) is None,
        lookup(m, "lineWidth"@) is None,
        g.line_width == Some(width),
        width > 0,
    ensures
        wrap_value(
            resolved_configuration(m, g, system).wrap,
            resolved_configuration(m, g, system).line_width,
        ) == Some(TidyValueView::Number(width)),
{
}

/// A `lineEnding` property of `lf` gives `\n` line endings, and one of `crlf`
/// gives `\r\n`, whatever new line kind the plugin or dprint sets.
pub proof fn law_line_ending_property_wins(m: ConfigEntries, g: GlobalConfiguration, system: NewLineKind)
    ensures
        read_line_ending(lookup(m, "lineEnding"@)).0 == Some(LineEnding::Lf)
            ==> requested_new_line_kind(resolved_configuration(m, g, system))
            == NewLineKind::LineFeed,
        read_line_ending(lookup(m, "lineEnding"@)).0 == Some(LineEnding::Crlf)
            ==> requested_new_line_kind(resolved_configuration(m, g, system))
            == NewLineKind::CarriageReturnLineFeed,
{
}

/// Only line endings change: for a text without carriage returns, the result
/// with each `\r\n` read back as `\n` is the text itself, and the result is
/// either the text or the text with each `\n` written as `\r\n`.
pub proof fn law_only_line_endings_change(text: Seq<char>, input: Seq<char>, c: ConfigurationView)
    requires
        lacks(text, '\r'),
    ensures
        replace_all(formatted_text(text, input, c), crlf(), lf()) == text,
        formatted_text(text, input, c) == text || formatted_text(text, input, c) == replace_all(
            text,
            lf(),
            crlf(),
        ),
{
    let e = line_ending_text(input, requested_new_line_kind(c));
    lemma_replace_absent(text, crlf(), lf());
    assert(replace_all(text, crlf(), lf()) == text);
    if e == lf() {
        lemma_replace_by_itself(text, lf());
        lemma_replace_absent(text, crlf(), lf());
    } else {
        assert(e == crlf());
        lemma_expanded_line_feeds_read_back(text);
    }
}

} // verus!
