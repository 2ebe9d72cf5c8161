//! The types of the resolved configuration, and their views.

use vstd::prelude::*;
use crate::text::text_equals;

verus! {

/// The characters of each string, in order.
pub open spec fn texts(strings: Seq<String>) -> Seq<Seq<char>> {
    strings.map_values(|s: String| s@)
}

/// The message of a value that names no member of an enumeration.
pub open spec fn invalid_value_message(text: Seq<char>) -> Seq<char> {
    "Found invalid value '"@ + text + "'."@
}

/// A text that names no member of an enumeration of configuration values.
#[derive(Clone, Debug, PartialEq, Eq)]
pub struct ParseConfigurationError(pub String);

/// Duplicate detection rules.
#[derive(Clone, Copy, Debug, PartialEq, Eq, Structural)]
pub enum DuplicateRule {
    Doi,
    Key,
    Abstract,
    Citation,
}

/// The name of a duplicate rule in the configuration.
pub open spec fn duplicate_rule_text(rule: DuplicateRule) -> Seq<char> {
    match rule {
        DuplicateRule::Doi => "doi"@,
        DuplicateRule::Key => "key"@,
        DuplicateRule::Abstract => "abstract"@,
        DuplicateRule::Citation => "citation"@,
    }
}

/// The duplicate rule that `text` names, if any.
pub open spec fn duplicate_rule_from_text(text: Seq<char>) -> Option<DuplicateRule> {
    if text == "doi"@ {
        Some(DuplicateRule::Doi)
    } else if text == "key"@ {
        Some(DuplicateRule::Key)
    } else if text == "abstract"@ {
        Some(DuplicateRule::Abstract)
    } else if text == "citation"@ {
        Some(DuplicateRule::Citation)
    } else {
        None
    }
}

impl DuplicateRule {
    /// The name of the rule.
    pub fn as_str(&self) -> (text: &'static str)
        ensures
            text@ == duplicate_rule_text(*self),
    {
        match self {
            DuplicateRule::Doi => "doi",
            DuplicateRule::Key => "key",
            DuplicateRule::Abstract => "abstract",
            DuplicateRule::Citation => "citation",
        }
    }

    /// The rule that `text` names.
    pub fn parse(text: &str) -> (rule: Result<DuplicateRule, ParseConfigurationError>)
        ensures
            match rule {
                Ok(r) => duplicate_rule_from_text(text@) == Some(r),
                Err(e) => duplicate_rule_from_text(text@) is None && e.0@ == invalid_value_message(
                    text@,
                ),
            },
    {
        if text_equals(text, "doi") {
            Ok(DuplicateRule::Doi)
        } else if text_equals(text, "key") {
            Ok(DuplicateRule::Key)
        } else if text_equals(text, "abstract") {
            Ok(DuplicateRule::Abstract)
        } else if text_equals(text, "citation") {
            Ok(DuplicateRule::Citation)
        } else {
            Err(ParseConfigurationError(invalid_value_text(text)))
        }
    }
}

/// The message of a value that names no member of an enumeration.
pub fn invalid_value_text(text: &str) -> (message: String)
    ensures
        message@ == invalid_value_message(text@),
{
    let mut message = String::from_str("Found invalid value '");
    message.append(text);
    message.append("'.");
    message
}

/// Merge strategy for duplicate entries.
#[derive(Clone, Copy, Debug, PartialEq, Eq, Structural)]
pub enum MergeStrategy {
    First,
    Last,
    Combine,
    Overwrite,
}

/// The name of a merge strategy in the configuration.
pub open spec fn merge_strategy_text(strategy: MergeStrategy) -> Seq<char> {
    match strategy {
        MergeStrategy::First => "first"@,
        MergeStrategy::Last => "last"@,
        MergeStrategy::Combine => "combine"@,
        MergeStrategy::Overwrite => "overwrite"@,
    }
}

/// The merge strategy that `text` names, if any.
pub open spec fn merge_strategy_from_text(text: Seq<char>) -> Option<MergeStrategy> {
    if text == "first"@ {
        Some(MergeStrategy::First)
    } else if text == "last"@ {
        Some(MergeStrategy::Last)
    } else if text == "combine"@ {
        Some(MergeStrategy::Combine)
    } else if text == "overwrite"@ {
        Some(MergeStrategy::Overwrite)
    } else {
        None
    }
}

impl MergeStrategy {
    /// The name of the strategy.
    pub fn as_str(&self) -> (text: &'static str)
        ensures
            text@ == merge_strategy_text(*self),
    {
        match self {
            MergeStrategy::First => "first",
            MergeStrategy::Last => "last",
            MergeStrategy::Combine => "combine",
            MergeStrategy::Overwrite => "overwrite",
        }
    }

    /// The strategy that `text` names.
    pub fn parse(text: &str) -> (strategy: Result<MergeStrategy, ParseConfigurationError>)
        ensures
            match strategy {
                Ok(s) => merge_strategy_from_text(text@) == Some(s),
                Err(e) => merge_strategy_from_text(text@) is None && e.0@ == invalid_value_message(
                    text@,
                ),
            },
    {
        if text_equals(text, "first") {
            Ok(MergeStrategy::First)
        } else if text_equals(text, "last") {
            Ok(MergeStrategy::Last)
        } else if text_equals(text, "combine") {
            Ok(MergeStrategy::Combine)
        } else if text_equals(text, "overwrite") {
            Ok(MergeStrategy::Overwrite)
        } else {
            Err(ParseConfigurationError(invalid_value_text(text)))
        }
    }
}

/// The name of each duplicate rule names that rule.
pub proof fn law_duplicate_rule_names_round_trip(rule: DuplicateRule)
    ensures
        duplicate_rule_from_text(duplicate_rule_text(rule)) == Some(rule),
{
    reveal_strlit("doi");
    reveal_strlit("key");
    reveal_strlit("abstract");
    reveal_strlit("citation");
    assert("doi"@[0] != "key"@[0] && "doi"@[0] != "abstract"@[0] && "doi"@[0] != "citation"@[0]);
    assert("key"@[0] != "abstract"@[0] && "key"@[0] != "citation"@[0]);
    assert("abstract"@[0] != "citation"@[0]);
}

/// The name of each merge strategy names that strategy.
pub proof fn law_merge_strategy_names_round_trip(strategy: MergeStrategy)
    ensures
        merge_strategy_from_text(merge_strategy_text(strategy)) == Some(strategy),
{
    reveal_strlit("first");
    reveal_strlit("last");
    reveal_strlit("combine");
    reveal_strlit("overwrite");
    assert("first"@[0] != "last"@[0] && "first"@[0] != "combine"@[0] && "first"@[0] != "overwrite"@[0]);
    assert("last"@[0] != "combine"@[0] && "last"@[0] != "overwrite"@[0]);
    assert("combine"@[0] != "overwrite"@[0]);
}

/// The configuration names the duplicate rules `doi`, `key`, `abstract` and
/// `citation`, each by its own name, and no other text names a rule.
pub proof fn law_duplicate_rule_names(rule: DuplicateRule, text: Seq<char>)
    ensures
        duplicate_rule_text(rule) == "doi"@ <==> rule == DuplicateRule::Doi,
        duplicate_rule_text(rule) == "key"@ <==> rule == DuplicateRule::Key,
        duplicate_rule_text(rule) == "abstract"@ <==> rule == DuplicateRule::Abstract,
        duplicate_rule_text(rule) == "citation"@ <==> rule == DuplicateRule::Citation,
        duplicate_rule_from_text(text) == Some(DuplicateRule::Doi) <==> text == "doi"@,
        duplicate_rule_from_text(text) == Some(DuplicateRule::Key) <==> text == "key"@,
        duplicate_rule_from_text(text) == Some(DuplicateRule::Abstract) <==> text == "abstract"@,
        duplicate_rule_from_text(text) == Some(DuplicateRule::Citation) <==> text == "citation"@,
        duplicate_rule_from_text(text) is None <==> (text != "doi"@ && text != "key"@ && text
            != "abstract"@ && text != "citation"@),
{
    reveal_strlit("doi");
    reveal_strlit("key");
    reveal_strlit("abstract");
    reveal_strlit("citation");
    assert("doi"@[0] == 'd' && "key"@[0] == 'k' && "abstract"@[0] == 'a' && "citation"@[0] == 'c');
}

/// The configuration names the merge strategies `first`, `last`, `combine` and
/// `overwrite`, each by its own name, and no other text names a strategy.
pub proof fn law_merge_strategy_names(strategy: MergeStrategy, text: Seq<char>)
    ensures
        merge_strategy_text(strategy) == "first"@ <==> strategy == MergeStrategy::First,
        merge_strategy_text(strategy) == "last"@ <==> strategy == MergeStrategy::Last,
        merge_strategy_text(strategy) == "combine"@ <==> strategy == MergeStrategy::Combine,
        merge_strategy_text(strategy) == "overwrite"@ <==> strategy == MergeStrategy::Overwrite,
        merge_strategy_from_text(text) == Some(MergeStrategy::First) <==> text == "first"@,
        merge_strategy_from_text(text) == Some(MergeStrategy::Last) <==> text == "last"@,
        merge_strategy_from_text(text) == Some(MergeStrategy::Combine) <==> text == "combine"@,
        merge_strategy_from_text(text) == Some(MergeStrategy::Overwrite) <==> text == "overwrite"@,
        merge_strategy_from_text(text) is None <==> (text != "first"@ && text != "last"@ && text
            != "combine"@ && text != "overwrite"@),
{
    reveal_strlit("first");
    reveal_strlit("last");
    reveal_strlit("combine");
    reveal_strlit("overwrite");
    assert("first"@[0] == 'f' && "last"@[0] == 'l' && "combine"@[0] == 'c' && "overwrite"@[0] == 'o');
}

/// Options for escaping special characters.
#[derive(Clone, Debug, PartialEq, Eq)]
pub enum EscapeOption {
    Bool(bool),
    Mode(String),
}

/// An escape option with its mode taken by its characters.
pub enum EscapeOptionView {
    Bool(bool),
    Mode(Seq<char>),
}

impl View for EscapeOption {
    type V = EscapeOptionView;

    open spec fn view(&self) -> EscapeOptionView {
        match self {
            EscapeOption::Bool(b) => EscapeOptionView::Bool(*b),
            EscapeOption::Mode(m) => EscapeOptionView::Mode(m@),
        }
    }
}

/// Options for fields that can be boolean or a list of field names.
#[derive(Clone, Debug, PartialEq, Eq)]
pub enum FieldListOrBool {
    Bool(bool),
    List(Vec<String>),
}

/// A field list option with each field name taken by its characters.
pub enum FieldListOrBoolView {
    Bool(bool),
    List(Seq<Seq<char>>),
}

impl View for FieldListOrBool {
    type V = FieldListOrBoolView;

    open spec fn view(&self) -> FieldListOrBoolView {
        match self {
            FieldListOrBool::Bool(b) => FieldListOrBoolView::Bool(*b),
            FieldListOrBool::List(l) => FieldListOrBoolView::List(texts(l@)),
        }
    }
}

/// Options for aligning field values.
#[derive(Clone, Copy, Debug, PartialEq, Eq, Structural)]
pub enum AlignOption {
    Bool(bool),
    Column(u32),
}

/// Options for wrapping long values.
#[derive(Clone, Copy, Debug, PartialEq, Eq, Structural)]
pub enum WrapOption {
    Bool(bool),
    Column(u32),
}

/// Options for duplicates check.
#[derive(Clone, Debug, PartialEq, Eq)]
pub enum DuplicatesOption {
    Bool(bool),
    Rules(Vec<DuplicateRule>),
}

/// A duplicates option with its rules as a sequence.
pub enum DuplicatesOptionView {
    Bool(bool),
    Rules(Seq<DuplicateRule>),
}

impl View for DuplicatesOption {
    type V = DuplicatesOptionView;

    open spec fn view(&self) -> DuplicatesOptionView {
        match self {
            DuplicatesOption::Bool(b) => DuplicatesOptionView::Bool(*b),
            DuplicatesOption::Rules(r) => DuplicatesOptionView::Rules(r@),
        }
    }
}

/// Options for duplicate merging.
#[derive(Clone, Copy, Debug, PartialEq, Eq, Structural)]
pub enum MergeOption {
    Bool(bool),
    Strategy(MergeStrategy),
}

/// Options for generating citation keys.
#[derive(Clone, Debug, PartialEq, Eq)]
pub enum GenerateKeysOption {
    Bool(bool),
    Template(String),
}

/// A key generation option with its template taken by its characters.
pub enum GenerateKeysOptionView {
    Bool(bool),
    Template(Seq<char>),
}

impl View for GenerateKeysOption {
    type V = GenerateKeysOptionView;

    open spec fn view(&self) -> GenerateKeysOptionView {
        match self {
            GenerateKeysOption::Bool(b) => GenerateKeysOptionView::Bool(*b),
            GenerateKeysOption::Template(t) => GenerateKeysOptionView::Template(t@),
        }
    }
}

/// The kind of line ending to write.
#[derive(Clone, Copy, Debug, PartialEq, Eq, Structural)]
pub enum NewLineKind {
    /// Decide from the last line ending of the file.
    Auto,
    /// `\n`
    LineFeed,
    /// `\r\n`
    CarriageReturnLineFeed,
}

/// The line ending that the plugin's own `lineEnding` property asks for.
#[derive(Clone, Copy, Debug, PartialEq, Eq, Structural)]
pub enum LineEnding {
    Lf,
    Crlf,
}

/// The configuration that dprint shares among all plugins.
#[derive(Clone, Copy, Debug, PartialEq, Eq, Structural)]
pub struct GlobalConfiguration {
    pub line_width: Option<u32>,
    pub use_tabs: Option<bool>,
    pub indent_width: Option<u8>,
    pub new_line_kind: Option<NewLineKind>,
}

impl Default for GlobalConfiguration {
    fn default() -> (config: GlobalConfiguration)
        ensures
            config.line_width is None,
            config.use_tabs is None,
            config.indent_width is None,
            config.new_line_kind is None,
    {
        GlobalConfiguration { line_width: None, use_tabs: None, indent_width: None, new_line_kind: None }
    }
}

/// A problem found in the configuration.
#[derive(Clone, Debug, PartialEq, Eq)]
pub struct ConfigurationDiagnostic {
    /// The property the problem was found on.
    pub property_name: String,
    /// What is wrong with it.
    pub message: String,
}

/// Each diagnostic as its property name and its message.
pub open spec fn diagnostic_views(diagnostics: Seq<ConfigurationDiagnostic>) -> Seq<
    (Seq<char>, Seq<char>),
> {
    diagnostics.map_values(|d: ConfigurationDiagnostic| (d.property_name@, d.message@))
}

/// A resolved configuration together with the problems found while resolving it.
#[derive(Clone, Debug)]
pub struct ResolveConfigurationResult<T> {
    /// The problems found in the configuration.
    pub diagnostics: Vec<ConfigurationDiagnostic>,
    /// The configuration resolved from the given one.
    pub config: T,
}

/// Configuration for the BibTeX formatter.
#[derive(Clone, Debug, PartialEq, Eq)]
pub struct Configuration {
    pub line_width: Option<u32>,
    pub indent_width: Option<u8>,
    /// Effective newline kind (the plugin's `newLineKind` overrides the global one).
    pub new_line_kind: Option<NewLineKind>,
    /// The plugin's own line ending, which overrides `new_line_kind`.
    pub line_ending: Option<LineEnding>,
    pub use_tabs: Option<bool>,
    /// bibtex-tidy's own `tab`, which overrides `use_tabs`.
    pub tab: Option<bool>,
    /// bibtex-tidy's own `space`, which overrides `indent_width`.
    pub space: Option<u8>,
    pub align: Option<AlignOption>,
    pub blank_lines: Option<bool>,
    pub curly: Option<bool>,
    pub numeric: Option<bool>,
    pub months: Option<bool>,
    pub sort: Option<FieldListOrBool>,
    pub duplicates: Option<DuplicatesOption>,
    pub merge: Option<MergeOption>,
    pub strip_enclosing_braces: Option<bool>,
    pub drop_all_caps: Option<bool>,
    pub escape: Option<EscapeOption>,
    pub unescape: Option<bool>,
    pub sort_fields: Option<FieldListOrBool>,
    pub strip_comments: Option<bool>,
    pub trailing_commas: Option<bool>,
    pub encode_urls: Option<bool>,
    pub tidy_comments: Option<bool>,
    pub remove_empty_fields: Option<bool>,
    pub remove_duplicate_fields: Option<bool>,
    pub generate_keys: Option<GenerateKeysOption>,
    pub max_authors: Option<u32>,
    pub lowercase: Option<bool>,
    pub enclosing_braces: Option<FieldListOrBool>,
    pub remove_braces: Option<FieldListOrBool>,
    pub wrap: Option<WrapOption>,
    pub omit: Option<Vec<String>>,
}

impl Default for Configuration {
    /// A configuration that sets nothing.
    fn default() -> (config: Configuration)
        ensures
            config.line_width is None,
            config.indent_width is None,
            config.new_line_kind is None,
            config.line_ending is None,
            config.use_tabs is None,
            config.tab is None,
            config.space is None,
            config.align is None,
            config.blank_lines is None,
            config.curly is None,
            config.numeric is None,
            config.months is None,
            config.sort is None,
            config.duplicates is None,
            config.merge is None,
            config.strip_enclosing_braces is None,
            config.drop_all_caps is None,
            config.escape is None,
            config.unescape is None,
            config.sort_fields is None,
            config.strip_comments is None,
            config.trailing_commas is None,
            config.encode_urls is None,
            config.tidy_comments is None,
            config.remove_empty_fields is None,
            config.remove_duplicate_fields is None,
            config.generate_keys is None,
            config.max_authors is None,
            config.lowercase is None,
            config.enclosing_braces is None,
            config.remove_braces is None,
            config.wrap is None,
            config.omit is None,
    {
        Configuration {
            line_width: None,
            indent_width: None,
            new_line_kind: None,
            line_ending: None,
            use_tabs: None,
            tab: None,
            space: None,
            align: None,
            blank_lines: None,
            curly: None,
            numeric: None,
            months: None,
            sort: None,
            duplicates: None,
            merge: None,
            strip_enclosing_braces: None,
            drop_all_caps: None,
            escape: None,
            unescape: None,
            sort_fields: None,
            strip_comments: None,
            trailing_commas: None,
            encode_urls: None,
            tidy_comments: None,
            remove_empty_fields: None,
            remove_duplicate_fields: None,
            generate_keys: None,
            max_authors: None,
            lowercase: None,
            enclosing_braces: None,
            remove_braces: None,
            wrap: None,
            omit: None,
        }
    }
}

/// A configuration with its texts taken by their characters.
pub struct ConfigurationView {
    pub line_width: Option<u32>,
    pub indent_width: Option<u8>,
    pub new_line_kind: Option<NewLineKind>,
    pub line_ending: Option<LineEnding>,
    pub use_tabs: Option<bool>,
    pub tab: Option<bool>,
    pub space: Option<u8>,
    pub align: Option<AlignOption>,
    pub blank_lines: Option<bool>,
    pub curly: Option<bool>,
    pub numeric: Option<bool>,
    pub months: Option<bool>,
    pub sort: Option<FieldListOrBoolView>,
    pub duplicates: Option<DuplicatesOptionView>,
    pub merge: Option<MergeOption>,
    pub strip_enclosing_braces: Option<bool>,
    pub drop_all_caps: Option<bool>,
    pub escape: Option<EscapeOptionView>,
    pub unescape: Option<bool>,
    pub sort_fields: Option<FieldListOrBoolView>,
    pub strip_comments: Option<bool>,
    pub trailing_commas: Option<bool>,
    pub encode_urls: Option<bool>,
    pub tidy_comments: Option<bool>,
    pub remove_empty_fields: Option<bool>,
    pub remove_duplicate_fields: Option<bool>,
    pub generate_keys: Option<GenerateKeysOptionView>,
    pub max_authors: Option<u32>,
    pub lowercase: Option<bool>,
    pub enclosing_braces: Option<FieldListOrBoolView>,
    pub remove_braces: Option<FieldListOrBoolView>,
    pub wrap: Option<WrapOption>,
    pub omit: Option<Seq<Seq<char>>>,
}

/// The view of an optional field list.
pub open spec fn field_list_view(o: Option<FieldListOrBool>) -> Option<FieldListOrBoolView> {
    match o {
        Some(l) => Some(l@),
        None => None,
    }
}

impl View for Configuration {
    type V = ConfigurationView;

    open spec fn view(&self) -> ConfigurationView {
        ConfigurationView {
            line_width: self.line_width,
            indent_width: self.indent_width,
            new_line_kind: self.new_line_kind,
            line_ending: self.line_ending,
            use_tabs: self.use_tabs,
            tab: self.tab,
            space: self.space,
            align: self.align,
            blank_lines: self.blank_lines,
            curly: self.curly,
            numeric: self.numeric,
            months: self.months,
            sort: field_list_view(self.sort),
            duplicates: match self.duplicates {
                Some(d) => Some(d@),
                None => None,
            },
            merge: self.merge,
            strip_enclosing_braces: self.strip_enclosing_braces,
            drop_all_caps: self.drop_all_caps,
            escape: match self.escape {
                Some(e) => Some(e@),
                None => None,
            },
            unescape: self.unescape,
            sort_fields: field_list_view(self.sort_fields),
            strip_comments: self.strip_comments,
            trailing_commas: self.trailing_commas,
            encode_urls: self.encode_urls,
            tidy_comments: self.tidy_comments,
            remove_empty_fields: self.remove_empty_fields,
            remove_duplicate_fields: self.remove_duplicate_fields,
            generate_keys: match self.generate_keys {
                Some(g) => Some(g@),
                None => None,
            },
            max_authors: self.max_authors,
            lowercase: self.lowercase,
            enclosing_braces: field_list_view(self.enclosing_braces),
            remove_braces: field_list_view(self.remove_braces),
            wrap: self.wrap,
            omit: match self.omit {
                Some(o) => Some(texts(o@)),
                None => None,
            },
        }
    }
}

} // verus!
