use dprint_plugin_bibtex_tidy::text::replace_text;
use dprint_plugin_bibtex_tidy::text::text_equals;

#[test]
fn equal_texts_compare_equal() {
  assert!(text_equals("", ""));
  assert!(text_equals("lineWidth", "lineWidth"));
  assert!(text_equals("é\r\n", "é\r\n"));
}

#[test]
fn texts_that_differ_compare_unequal() {
  assert!(!text_equals("lineWidth", "linewidth"));
  assert!(!text_equals("tab", "tabs"));
  assert!(!text_equals("tabs", "tab"));
  assert!(!text_equals("", "a"));
}

#[test]
fn replacing_rewrites_every_match() {
  assert_eq!(replace_text("a\nb\n", "\n", "\r\n"), "a\r\nb\r\n");
  assert_eq!(replace_text("a\r\nb\r\n", "\r\n", "\n"), "a\nb\n");
  assert_eq!(replace_text("aaa", "aa", "b"), "ba");
}
