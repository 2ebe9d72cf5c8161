use dprint_plugin_bibtex_tidy::configuration::resolve_config;
use dprint_plugin_bibtex_tidy::configuration::AlignOption;
use dprint_plugin_bibtex_tidy::configuration::ConfigKeyMap;
use dprint_plugin_bibtex_tidy::configuration::ConfigKeyValue;
use dprint_plugin_bibtex_tidy::configuration::Configuration;
use dprint_plugin_bibtex_tidy::configuration::DuplicateRule;
use dprint_plugin_bibtex_tidy::configuration::DuplicatesOption;
use dprint_plugin_bibtex_tidy::configuration::EscapeOption;
use dprint_plugin_bibtex_tidy::configuration::FieldListOrBool;
use dprint_plugin_bibtex_tidy::configuration::GenerateKeysOption;
use dprint_plugin_bibtex_tidy::configuration::GlobalConfiguration;
use dprint_plugin_bibtex_tidy::configuration::LineEnding;
use dprint_plugin_bibtex_tidy::configuration::MergeOption;
use dprint_plugin_bibtex_tidy::configuration::MergeStrategy;
use dprint_plugin_bibtex_tidy::configuration::NewLineKind;
use dprint_plugin_bibtex_tidy::configuration::WrapOption;
use dprint_plugin_bibtex_tidy::format_text::apply_line_ending;
use dprint_plugin_bibtex_tidy::format_text::finish_formatting;
use dprint_plugin_bibtex_tidy::format_text::to_bibtex_tidy_options;
use dprint_plugin_bibtex_tidy::format_text::TidyOption;
use dprint_plugin_bibtex_tidy::format_text::TidyValue;

/// What bibtex-tidy returns for `@article{key,title={Hello}}`.
const FORMATTED_LF: &str = "@article{key,\n  title         = {Hello}\n}\n";
const FORMATTED_CRLF: &str = "@article{key,\r\n  title         = {Hello}\r\n}\r\n";

fn resolved(map: ConfigKeyMap, global: GlobalConfiguration) -> Configuration {
  let result = resolve_config(map, &global, NewLineKind::LineFeed);
  assert!(result.diagnostics.is_empty(), "{:?}", result.diagnostics);
  result.config
}

fn with_property(name: &str, value: ConfigKeyValue) -> ConfigKeyMap {
  let mut map = ConfigKeyMap::new();
  map.insert(name.to_string(), value);
  map
}

fn auto_global() -> GlobalConfiguration {
  GlobalConfiguration { new_line_kind: Some(NewLineKind::Auto), ..GlobalConfiguration::default() }
}

fn option(options: &[TidyOption], name: &str) -> Option<TidyValue> {
  options.iter().find(|o| o.name == name).map(|o| o.value.clone())
}

#[test]
fn global_line_width_sets_the_wrapping_column() {
  let config = resolved(
    ConfigKeyMap::new(),
    GlobalConfiguration { line_width: Some(40), ..GlobalConfiguration::default() },
  );
  let options = to_bibtex_tidy_options(&config);
  assert_eq!(options.len(), 1);
  assert_eq!(option(&options, "wrap"), Some(TidyValue::Number(40)));
}

#[test]
fn wrapping_asked_for_wraps_at_the_line_width() {
  let mut config = Configuration::default();
  config.wrap = Some(WrapOption::Bool(true));
  assert_eq!(option(&to_bibtex_tidy_options(&config), "wrap"), Some(TidyValue::Bool(true)));
  config.line_width = Some(60);
  assert_eq!(option(&to_bibtex_tidy_options(&config), "wrap"), Some(TidyValue::Number(60)));
  config.wrap = Some(WrapOption::Bool(false));
  assert_eq!(option(&to_bibtex_tidy_options(&config), "wrap"), Some(TidyValue::Bool(false)));
  config.wrap = Some(WrapOption::Column(30));
  assert_eq!(option(&to_bibtex_tidy_options(&config), "wrap"), Some(TidyValue::Number(30)));
}

#[test]
fn tab_and_space_fall_back_to_the_indentation_settings() {
  let config = resolved(
    ConfigKeyMap::new(),
    GlobalConfiguration { use_tabs: Some(true), indent_width: Some(4), ..GlobalConfiguration::default() },
  );
  let options = to_bibtex_tidy_options(&config);
  assert_eq!(option(&options, "tab"), Some(TidyValue::Bool(true)));
  assert_eq!(option(&options, "space"), Some(TidyValue::Number(4)));

  let mut map = ConfigKeyMap::new();
  map.insert("tab".to_string(), ConfigKeyValue::Bool(false));
  map.insert("space".to_string(), ConfigKeyValue::Number(8));
  let config = resolved(
    map,
    GlobalConfiguration { use_tabs: Some(true), indent_width: Some(4), ..GlobalConfiguration::default() },
  );
  let options = to_bibtex_tidy_options(&config);
  assert_eq!(option(&options, "tab"), Some(TidyValue::Bool(false)));
  assert_eq!(option(&options, "space"), Some(TidyValue::Number(8)));
}

#[test]
fn every_setting_becomes_an_option() {
  let config = Configuration {
    line_width: Some(90),
    indent_width: Some(3),
    new_line_kind: Some(NewLineKind::LineFeed),
    line_ending: Some(LineEnding::Crlf),
    use_tabs: Some(true),
    tab: None,
    space: None,
    align: Some(AlignOption::Column(16)),
    blank_lines: Some(true),
    curly: Some(true),
    numeric: Some(false),
    months: Some(true),
    sort: Some(FieldListOrBool::List(vec!["-year".to_string(), "title".to_string()])),
    duplicates: Some(DuplicatesOption::Rules(vec![DuplicateRule::Doi, DuplicateRule::Citation])),
    merge: Some(MergeOption::Strategy(MergeStrategy::Combine)),
    strip_enclosing_braces: Some(true),
    drop_all_caps: Some(true),
    escape: Some(EscapeOption::Mode("new".to_string())),
    unescape: Some(false),
    sort_fields: Some(FieldListOrBool::Bool(true)),
    strip_comments: Some(true),
    trailing_commas: Some(true),
    encode_urls: Some(true),
    tidy_comments: Some(false),
    remove_empty_fields: Some(true),
    remove_duplicate_fields: Some(false),
    generate_keys: Some(GenerateKeysOption::Template("[auth][year]".to_string())),
    max_authors: Some(3),
    lowercase: Some(false),
    enclosing_braces: Some(FieldListOrBool::List(vec!["title".to_string()])),
    remove_braces: Some(FieldListOrBool::Bool(false)),
    wrap: None,
    omit: Some(vec!["abstract".to_string(), "file".to_string()]),
  };
  let options = to_bibtex_tidy_options(&config);
  let names: Vec<&str> = options.iter().map(|o| o.name.as_str()).collect();
  assert_eq!(
    names,
    vec![
      "tab",
      "space",
      "align",
      "blankLines",
      "curly",
      "numeric",
      "months",
      "sort",
      "duplicates",
      "merge",
      "stripEnclosingBraces",
      "dropAllCaps",
      "escape",
      "unescape",
      "sortFields",
      "stripComments",
      "trailingCommas",
      "encodeUrls",
      "tidyComments",
      "removeEmptyFields",
      "removeDuplicateFields",
      "generateKeys",
      "maxAuthors",
      "lowercase",
      "enclosingBraces",
      "removeBraces",
      "wrap",
      "omit",
    ]
  );
  assert_eq!(option(&options, "tab"), Some(TidyValue::Bool(true)));
  assert_eq!(option(&options, "space"), Some(TidyValue::Number(3)));
  assert_eq!(option(&options, "align"), Some(TidyValue::Number(16)));
  assert_eq!(
    option(&options, "sort"),
    Some(TidyValue::List(vec!["-year".to_string(), "title".to_string()]))
  );
  assert_eq!(
    option(&options, "duplicates"),
    Some(TidyValue::List(vec!["doi".to_string(), "citation".to_string()]))
  );
  assert_eq!(option(&options, "merge"), Some(TidyValue::Text("combine".to_string())));
  assert_eq!(option(&options, "escape"), Some(TidyValue::Text("new".to_string())));
  assert_eq!(option(&options, "generateKeys"), Some(TidyValue::Text("[auth][year]".to_string())));
  assert_eq!(option(&options, "maxAuthors"), Some(TidyValue::Number(3)));
  assert_eq!(option(&options, "wrap"), Some(TidyValue::Number(90)));
  assert_eq!(
    option(&options, "omit"),
    Some(TidyValue::List(vec!["abstract".to_string(), "file".to_string()]))
  );
}

#[test]
fn default_configuration_gives_no_options() {
  assert!(to_bibtex_tidy_options(&Configuration::default()).is_empty());
}

#[test]
fn auto_line_endings_follow_a_crlf_file_and_are_stable() {
  let config = resolved(ConfigKeyMap::new(), auto_global());
  let formatted = finish_formatting(FORMATTED_LF.to_string(), "@article{key,title={Hello}}\r\n", &config);
  assert_eq!(formatted.as_deref(), Some(FORMATTED_CRLF));
  assert_eq!(finish_formatting(FORMATTED_LF.to_string(), FORMATTED_CRLF, &config), None);
}

#[test]
fn auto_line_endings_follow_an_lf_file() {
  let config = resolved(ConfigKeyMap::new(), auto_global());
  let formatted = finish_formatting(FORMATTED_LF.to_string(), "@article{key,title={Hello}}\n", &config);
  assert_eq!(formatted.as_deref(), Some(FORMATTED_LF));
}

#[test]
fn auto_line_endings_without_a_newline_in_the_file_are_lf() {
  let config = resolved(ConfigKeyMap::new(), auto_global());
  let formatted = finish_formatting(FORMATTED_CRLF.to_string(), "@article{key,title={Hello}}", &config);
  assert_eq!(formatted.as_deref(), Some(FORMATTED_LF));
}

#[test]
fn plugin_lf_line_ending_overrides_global_auto_endings() {
  let config = resolved(with_property("lineEnding", ConfigKeyValue::String("lf".to_string())), auto_global());
  let formatted = finish_formatting(FORMATTED_LF.to_string(), "@article{key,title={Hello}}\r\n", &config);
  assert_eq!(formatted.as_deref(), Some(FORMATTED_LF));
}

#[test]
fn plugin_crlf_line_ending_overrides_global_auto_endings() {
  let config = resolved(with_property("lineEnding", ConfigKeyValue::String("crlf".to_string())), auto_global());
  let formatted = finish_formatting(FORMATTED_LF.to_string(), "@article{key,title={Hello}}\n", &config);
  assert_eq!(formatted.as_deref(), Some(FORMATTED_CRLF));
}

#[test]
fn unchanged_text_gives_nothing() {
  let config = Configuration::default();
  assert_eq!(finish_formatting(FORMATTED_LF.to_string(), FORMATTED_LF, &config), None);
  assert_eq!(
    finish_formatting(FORMATTED_CRLF.to_string(), FORMATTED_LF, &config),
    None,
    "the default line ending is a line feed"
  );
}

#[test]
fn line_endings_are_rewritten_everywhere() {
  let mut config = Configuration::default();
  config.new_line_kind = Some(NewLineKind::CarriageReturnLineFeed);
  assert_eq!(apply_line_ending("a\nb\r\nc\n".to_string(), "", &config), "a\r\nb\r\nc\r\n");
  config.new_line_kind = Some(NewLineKind::LineFeed);
  assert_eq!(apply_line_ending("a\r\nb\r\nc\n".to_string(), "", &config), "a\nb\nc\n");
  assert_eq!(apply_line_ending("a\r\r\nb".to_string(), "", &config), "a\r\nb");
  config.new_line_kind = Some(NewLineKind::Auto);
  assert_eq!(apply_line_ending("x\ny\n".to_string(), "first\nsecond\r\n", &config), "x\r\ny\r\n");
  assert_eq!(apply_line_ending("x\r\ny\r\n".to_string(), "first\r\nsecond\n", &config), "x\ny\n");
  assert_eq!(apply_line_ending("x\ny\n".to_string(), "\n", &config), "x\ny\n");
}
