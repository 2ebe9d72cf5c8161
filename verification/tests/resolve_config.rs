use dprint_plugin_bibtex_tidy::configuration::resolve_config;
use dprint_plugin_bibtex_tidy::configuration::AlignOption;
use dprint_plugin_bibtex_tidy::configuration::ConfigKeyMap;
use dprint_plugin_bibtex_tidy::configuration::ConfigKeyValue;
use dprint_plugin_bibtex_tidy::configuration::Configuration;
use dprint_plugin_bibtex_tidy::configuration::DuplicateRule;
use dprint_plugin_bibtex_tidy::configuration::DuplicatesOption;
use dprint_plugin_bibtex_tidy::configuration::EscapeOption;
use dprint_plugin_bibtex_tidy::configuration::FieldListOrBool;
use dprint_plugin_bibtex_tidy::configuration::GenerateKeysOption;
use dprint_plugin_bibtex_tidy::configuration::GlobalConfiguration;
use dprint_plugin_bibtex_tidy::configuration::LineEnding;
use dprint_plugin_bibtex_tidy::configuration::MergeOption;
use dprint_plugin_bibtex_tidy::configuration::MergeStrategy;
use dprint_plugin_bibtex_tidy::configuration::NewLineKind;
use dprint_plugin_bibtex_tidy::configuration::ResolveConfigurationResult;
use dprint_plugin_bibtex_tidy::configuration::WrapOption;

fn string(value: &str) -> ConfigKeyValue {
  ConfigKeyValue::String(value.to_string())
}

fn number(value: i32) -> ConfigKeyValue {
  ConfigKeyValue::Number(value)
}

fn boolean(value: bool) -> ConfigKeyValue {
  ConfigKeyValue::Bool(value)
}

fn strings(values: &[&str]) -> ConfigKeyValue {
  ConfigKeyValue::Array(values.iter().map(|v| string(v)).collect())
}

fn numbers(values: &[i32]) -> ConfigKeyValue {
  ConfigKeyValue::Array(values.iter().map(|v| number(*v)).collect())
}

fn single_property(name: &str, value: ConfigKeyValue) -> ConfigKeyMap {
  let mut map = ConfigKeyMap::new();
  map.insert(name.to_string(), value);
  map
}

fn resolve_single(name: &str, value: ConfigKeyValue) -> ResolveConfigurationResult<Configuration> {
  resolve_config(single_property(name, value), &GlobalConfiguration::default(), NewLineKind::LineFeed)
}

fn valid_and_invalid_cases() -> Vec<(&'static str, Vec<ConfigKeyValue>, Vec<ConfigKeyValue>)> {
  vec![
    ("lineWidth", vec![number(80)], vec![number(0)]),
    ("indentWidth", vec![number(4)], vec![number(-1), number(256)]),
    ("useTabs", vec![boolean(true)], vec![number(1)]),
    ("space", vec![number(4)], vec![number(-1), number(256)]),
    ("tab", vec![boolean(true)], vec![number(1)]),
    ("align", vec![number(16), boolean(false)], vec![number(-1)]),
    ("blankLines", vec![boolean(true)], vec![number(1)]),
    ("curly", vec![boolean(true)], vec![number(1)]),
    ("numeric", vec![boolean(true)], vec![number(1)]),
    ("months", vec![boolean(true)], vec![number(1)]),
    ("sort", vec![boolean(true), strings(&["-year", "title"])], vec![number(123), numbers(&[1])]),
    (
      "duplicates",
      vec![boolean(true), strings(&["doi", "key", "abstract", "citation"])],
      vec![strings(&["unknown"]), numbers(&[1])],
    ),
    (
      "merge",
      vec![boolean(true), string("first"), string("last"), string("combine"), string("overwrite")],
      vec![string("unknown"), number(123)],
    ),
    ("stripEnclosingBraces", vec![boolean(true)], vec![number(1)]),
    ("dropAllCaps", vec![boolean(true)], vec![number(1)]),
    ("escape", vec![boolean(true), string("new")], vec![string("legacy"), number(123)]),
    ("unescape", vec![boolean(true)], vec![number(1)]),
    ("sortFields", vec![boolean(true), strings(&["title", "author"])], vec![number(123), numbers(&[1])]),
    ("stripComments", vec![boolean(true)], vec![number(1)]),
    ("trailingCommas", vec![boolean(true)], vec![number(1)]),
    ("encodeUrls", vec![boolean(true)], vec![number(1)]),
    ("tidyComments", vec![boolean(true)], vec![number(1)]),
    ("removeEmptyFields", vec![boolean(true)], vec![number(1)]),
    ("removeDuplicateFields", vec![boolean(true)], vec![number(1)]),
    ("generateKeys", vec![boolean(true), string("[auth][year]")], vec![number(123)]),
    ("maxAuthors", vec![number(3)], vec![number(0)]),
    ("lowercase", vec![boolean(true)], vec![number(1)]),
    ("enclosingBraces", vec![boolean(true), strings(&["title"])], vec![number(123), numbers(&[1])]),
    ("removeBraces", vec![boolean(true), strings(&["abstract"])], vec![number(123), numbers(&[1])]),
    ("wrap", vec![number(80), boolean(false)], vec![number(0)]),
    ("omit", vec![strings(&["abstract", "file"])], vec![number(123), numbers(&[1])]),
    ("lineEnding", vec![string("lf"), string("crlf")], vec![string("auto"), boolean(true)]),
  ]
}

#[test]
fn resolver_validates_documented_configurations() {
  for (name, valid_values, invalid_values) in valid_and_invalid_cases() {
    for value in valid_values {
      let shown = format!("{value:?}");
      assert!(
        resolve_single(name, value).diagnostics.is_empty(),
        "resolver rejected valid {name} configuration: {shown}"
      );
    }
    for value in invalid_values {
      let shown = format!("{value:?}");
      assert!(
        !resolve_single(name, value).diagnostics.is_empty(),
        "resolver accepted invalid {name} configuration: {shown}"
      );
    }
  }
}

#[test]
fn empty_configuration_resolves_to_nothing() {
  let result = resolve_config(ConfigKeyMap::new(), &GlobalConfiguration::default(), NewLineKind::LineFeed);
  assert!(result.diagnostics.is_empty());
  assert_eq!(result.config, Configuration::default());
}

#[test]
fn global_configuration_fills_what_the_plugin_leaves_unset() {
  let global = GlobalConfiguration {
    line_width: Some(40),
    use_tabs: Some(true),
    indent_width: Some(8),
    new_line_kind: Some(NewLineKind::Auto),
  };
  let result = resolve_config(ConfigKeyMap::new(), &global, NewLineKind::LineFeed);
  assert!(result.diagnostics.is_empty());
  assert_eq!(result.config.line_width, Some(40));
  assert_eq!(result.config.use_tabs, Some(true));
  assert_eq!(result.config.indent_width, Some(8));
  assert_eq!(result.config.new_line_kind, Some(NewLineKind::Auto));
}

#[test]
fn plugin_configuration_overrides_global_configuration() {
  let mut map = ConfigKeyMap::new();
  map.insert("lineWidth".to_string(), number(100));
  map.insert("indentWidth".to_string(), number(4));
  map.insert("useTabs".to_string(), boolean(false));
  map.insert("newLineKind".to_string(), string("crlf"));
  let global = GlobalConfiguration {
    line_width: Some(40),
    use_tabs: Some(true),
    indent_width: Some(8),
    new_line_kind: Some(NewLineKind::Auto),
  };
  let result = resolve_config(map, &global, NewLineKind::LineFeed);
  assert!(result.diagnostics.is_empty());
  assert_eq!(result.config.line_width, Some(100));
  assert_eq!(result.config.indent_width, Some(4));
  assert_eq!(result.config.use_tabs, Some(false));
  assert_eq!(result.config.new_line_kind, Some(NewLineKind::CarriageReturnLineFeed));
}

#[test]
fn zero_global_line_width_is_reported() {
  let global = GlobalConfiguration { line_width: Some(0), ..GlobalConfiguration::default() };
  let result = resolve_config(ConfigKeyMap::new(), &global, NewLineKind::LineFeed);
  assert_eq!(result.config.line_width, None);
  assert_eq!(result.diagnostics.len(), 1);
  assert_eq!(result.diagnostics[0].property_name, "lineWidth");
  assert_eq!(result.diagnostics[0].message, "lineWidth must be greater than 0.");
}

#[test]
fn every_property_resolves_to_its_value() {
  let mut map = ConfigKeyMap::new();
  map.insert("lineWidth".to_string(), string("90"));
  map.insert("indentWidth".to_string(), string("+3"));
  map.insert("newLineKind".to_string(), string("lf"));
  map.insert("lineEnding".to_string(), string("crlf"));
  map.insert("useTabs".to_string(), string("true"));
  map.insert("tab".to_string(), boolean(false));
  map.insert("space".to_string(), number(6));
  map.insert("align".to_string(), number(16));
  map.insert("blankLines".to_string(), boolean(true));
  map.insert("curly".to_string(), boolean(true));
  map.insert("numeric".to_string(), boolean(false));
  map.insert("months".to_string(), boolean(true));
  map.insert("sort".to_string(), strings(&["-year", "title"]));
  map.insert("duplicates".to_string(), strings(&["doi", "citation"]));
  map.insert("merge".to_string(), string("combine"));
  map.insert("stripEnclosingBraces".to_string(), boolean(true));
  map.insert("dropAllCaps".to_string(), boolean(true));
  map.insert("escape".to_string(), string("new"));
  map.insert("unescape".to_string(), boolean(false));
  map.insert("sortFields".to_string(), boolean(true));
  map.insert("stripComments".to_string(), boolean(true));
  map.insert("trailingCommas".to_string(), boolean(true));
  map.insert("encodeUrls".to_string(), boolean(true));
  map.insert("tidyComments".to_string(), boolean(false));
  map.insert("removeEmptyFields".to_string(), boolean(true));
  map.insert("removeDuplicateFields".to_string(), boolean(false));
  map.insert("generateKeys".to_string(), string("[auth][year]"));
  map.insert("maxAuthors".to_string(), number(3));
  map.insert("lowercase".to_string(), boolean(false));
  map.insert("enclosingBraces".to_string(), strings(&["title"]));
  map.insert("removeBraces".to_string(), boolean(false));
  map.insert("wrap".to_string(), number(72));
  map.insert("omit".to_string(), strings(&["abstract", "file"]));
  let result = resolve_config(map, &GlobalConfiguration::default(), NewLineKind::LineFeed);
  assert!(result.diagnostics.is_empty(), "{:?}", result.diagnostics);
  let expected = Configuration {
    line_width: Some(90),
    indent_width: Some(3),
    new_line_kind: Some(NewLineKind::LineFeed),
    line_ending: Some(LineEnding::Crlf),
    use_tabs: Some(true),
    tab: Some(false),
    space: Some(6),
    align: Some(AlignOption::Column(16)),
    blank_lines: Some(true),
    curly: Some(true),
    numeric: Some(false),
    months: Some(true),
    sort: Some(FieldListOrBool::List(vec!["-year".to_string(), "title".to_string()])),
    duplicates: Some(DuplicatesOption::Rules(vec![DuplicateRule::Doi, DuplicateRule::Citation])),
    merge: Some(MergeOption::Strategy(MergeStrategy::Combine)),
    strip_enclosing_braces: Some(true),
    drop_all_caps: Some(true),
    escape: Some(EscapeOption::Mode("new".to_string())),
    unescape: Some(false),
    sort_fields: Some(FieldListOrBool::Bool(true)),
    strip_comments: Some(true),
    trailing_commas: Some(true),
    encode_urls: Some(true),
    tidy_comments: Some(false),
    remove_empty_fields: Some(true),
    remove_duplicate_fields: Some(false),
    generate_keys: Some(GenerateKeysOption::Template("[auth][year]".to_string())),
    max_authors: Some(3),
    lowercase: Some(false),
    enclosing_braces: Some(FieldListOrBool::List(vec!["title".to_string()])),
    remove_braces: Some(FieldListOrBool::Bool(false)),
    wrap: Some(WrapOption::Column(72)),
    omit: Some(vec!["abstract".to_string(), "file".to_string()]),
  };
  assert_eq!(result.config, expected);
}

#[test]
fn unknown_properties_are_reported_in_order() {
  let mut map = ConfigKeyMap::new();
  map.insert("zebra".to_string(), boolean(true));
  map.insert("curly".to_string(), boolean(true));
  map.insert("apple".to_string(), number(1));
  let result = resolve_config(map, &GlobalConfiguration::default(), NewLineKind::LineFeed);
  assert_eq!(result.config.curly, Some(true));
  assert_eq!(result.diagnostics.len(), 2);
  assert_eq!(result.diagnostics[0].property_name, "zebra");
  assert_eq!(result.diagnostics[0].message, "Unknown property in configuration");
  assert_eq!(result.diagnostics[1].property_name, "apple");
  assert_eq!(result.diagnostics[1].message, "Unknown property in configuration");
}

#[test]
fn diagnostics_come_in_reading_order_before_unknown_properties() {
  let mut map = ConfigKeyMap::new();
  map.insert("other".to_string(), boolean(true));
  map.insert("omit".to_string(), boolean(true));
  map.insert("useTabs".to_string(), number(1));
  let result = resolve_config(map, &GlobalConfiguration::default(), NewLineKind::LineFeed);
  let names: Vec<&str> = result.diagnostics.iter().map(|d| d.property_name.as_str()).collect();
  assert_eq!(names, vec!["useTabs", "omit", "other"]);
  assert_eq!(result.diagnostics[0].message, "provided string was not `true` or `false`");
  assert_eq!(result.diagnostics[1].message, "Expected array of strings for omit.");
}

#[test]
fn problem_messages_name_the_value() {
  let cases = vec![
    ("newLineKind", string("something"), "Found invalid value 'something'."),
    ("lineEnding", string("auto"), "Found invalid value 'auto'."),
    ("lineEnding", boolean(true), "Found invalid value 'true'."),
    ("merge", string("unknown"), "Invalid merge strategy 'unknown'. Expected 'first', 'last', 'combine', or 'overwrite'."),
    ("merge", number(123), "Expected a boolean or string for merge."),
    ("duplicates", strings(&["doi", "unknown"]), "Invalid duplicate rule 'unknown'. Expected 'doi', 'key', 'abstract', or 'citation'."),
    ("duplicates", numbers(&[1]), "Expected array of strings for duplicates."),
    ("duplicates", number(1), "Expected a boolean or array of strings for duplicates."),
    ("escape", string("legacy"), "Invalid escape option 'legacy'. Expected true, false, or 'new'."),
    ("escape", number(1), "Expected a boolean or 'new' for escape."),
    ("align", number(-1), "align must be a non-negative integer or boolean."),
    ("align", string("16"), "Expected a boolean or integer for align."),
    ("wrap", number(0), "wrap must be a boolean."),
    ("wrap", ConfigKeyValue::Null, "Expected a boolean for wrap."),
    ("sort", number(123), "Expected a boolean or array of strings for sort."),
    ("sortFields", numbers(&[1]), "Expected array of strings for sortFields."),
    ("generateKeys", number(123), "Expected a boolean or string template for generateKeys."),
    ("maxAuthors", number(0), "maxAuthors must be greater than 0."),
    ("curly", strings(&["a"]), "Arrays and objects are not supported for this value"),
  ];
  for (name, value, message) in cases {
    let result = resolve_single(name, value);
    assert_eq!(result.diagnostics.len(), 1, "{name}: {:?}", result.diagnostics);
    assert_eq!(result.diagnostics[0].property_name, name);
    assert_eq!(result.diagnostics[0].message, message);
  }
}

#[test]
fn null_values_count_as_unset() {
  let result = resolve_single("lineWidth", ConfigKeyValue::Null);
  assert!(result.diagnostics.is_empty());
  assert_eq!(result.config.line_width, None);
}

#[test]
fn integer_properties_read_numbers_and_numeric_strings() {
  assert_eq!(resolve_single("lineWidth", number(120)).config.line_width, Some(120));
  assert_eq!(resolve_single("lineWidth", string("120")).config.line_width, Some(120));
  assert_eq!(resolve_single("maxAuthors", number(i32::MAX)).config.max_authors, Some(2147483647));
  assert_eq!(resolve_single("space", number(255)).config.space, Some(255));
  let result = resolve_single("space", string("4x"));
  assert_eq!(result.config.space, None);
  assert_eq!(result.diagnostics.len(), 1);
  let result = resolve_single("lineWidth", boolean(true));
  assert_eq!(result.config.line_width, None);
  assert_eq!(result.diagnostics.len(), 1);
}

#[test]
fn system_new_line_kind_stands_for_the_given_kind() {
  for system in [NewLineKind::LineFeed, NewLineKind::CarriageReturnLineFeed] {
    let result = resolve_config(
      single_property("newLineKind", string("system")),
      &GlobalConfiguration::default(),
      system,
    );
    assert!(result.diagnostics.is_empty());
    assert_eq!(result.config.new_line_kind, Some(system));
  }
  assert_eq!(resolve_single("newLineKind", string("auto")).config.new_line_kind, Some(NewLineKind::Auto));
}

#[test]
fn inserting_an_existing_property_keeps_its_place() {
  let mut map = ConfigKeyMap::new();
  assert_eq!(map.insert("b".to_string(), number(1)), None);
  assert_eq!(map.insert("a".to_string(), number(2)), None);
  assert_eq!(map.insert("b".to_string(), number(3)), Some(number(1)));
  assert_eq!(map.len(), 2);
  assert_eq!(map.names(), vec!["b".to_string(), "a".to_string()]);
  assert_eq!(map.get("b"), Some(&number(3)));
  assert_eq!(map.get("c"), None);
}

#[test]
fn enumeration_names_round_trip() {
  for rule in [DuplicateRule::Doi, DuplicateRule::Key, DuplicateRule::Abstract, DuplicateRule::Citation] {
    assert_eq!(DuplicateRule::parse(rule.as_str()), Ok(rule));
  }
  for strategy in [MergeStrategy::First, MergeStrategy::Last, MergeStrategy::Combine, MergeStrategy::Overwrite] {
    assert_eq!(MergeStrategy::parse(strategy.as_str()), Ok(strategy));
  }
  assert_eq!(DuplicateRule::parse("Doi").unwrap_err().0, "Found invalid value 'Doi'.");
  assert_eq!(LineEnding::parse("crlf"), Ok(LineEnding::Crlf));
}


#[test]
fn accepted_new_line_kinds_give_no_diagnostic() {
  let global = GlobalConfiguration { new_line_kind: Some(NewLineKind::Auto), ..GlobalConfiguration::default() };
  let cases = [
    (string("auto"), Some(NewLineKind::Auto)),
    (string("lf"), Some(NewLineKind::LineFeed)),
    (string("crlf"), Some(NewLineKind::CarriageReturnLineFeed)),
    (string("system"), Some(NewLineKind::CarriageReturnLineFeed)),
    (ConfigKeyValue::Null, Some(NewLineKind::Auto)),
  ];
  for (value, expected) in cases {
    let result = resolve_config(single_property("newLineKind", value), &global, NewLineKind::CarriageReturnLineFeed);
    assert!(result.diagnostics.is_empty(), "{:?}", result.diagnostics);
    assert_eq!(result.config.new_line_kind, expected);
  }
  let result = resolve_config(ConfigKeyMap::new(), &global, NewLineKind::LineFeed);
  assert!(result.diagnostics.is_empty());
  assert_eq!(result.config.new_line_kind, Some(NewLineKind::Auto));
}
