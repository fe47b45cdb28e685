use fmtcore::lists::{
    definitive_tactic, format_list, needs_trailing_separator, write_list, DefinitiveListTactic,
    ListItem, ListTactic, SeparatorTactic,
};

fn items(texts: &[&str]) -> Vec<ListItem> {
    texts
        .iter()
        .map(|t| ListItem { item: t.to_string(), pre_comment: None, post_comment: None })
        .collect()
}

#[test]
fn trailing_separator_policy() {
    assert!(needs_trailing_separator(SeparatorTactic::Always, DefinitiveListTactic::Horizontal));
    assert!(!needs_trailing_separator(SeparatorTactic::Never, DefinitiveListTactic::Vertical));
    assert!(needs_trailing_separator(SeparatorTactic::Vertical, DefinitiveListTactic::Vertical));
    assert!(!needs_trailing_separator(SeparatorTactic::Vertical, DefinitiveListTactic::Horizontal));
    assert!(!needs_trailing_separator(SeparatorTactic::Vertical, DefinitiveListTactic::Mixed));
}

#[test]
fn horizontal_list_has_no_trailing_separator_under_vertical_policy() {
    let xs = items(&["a", "b", "c"]);
    let text = write_list(&xs, DefinitiveListTactic::Horizontal, SeparatorTactic::Vertical, 4, 100);
    assert_eq!(text, "a, b, c");
}

#[test]
fn vertical_list_always_has_trailing_separator_under_vertical_policy() {
    let xs = items(&["a", "b", "c"]);
    let text = write_list(&xs, DefinitiveListTactic::Vertical, SeparatorTactic::Vertical, 4, 100);
    assert_eq!(text, "a,\n    b,\n    c,");
}

#[test]
fn always_policy_adds_separator_on_one_line() {
    let xs = items(&["x", "y"]);
    let text = write_list(&xs, DefinitiveListTactic::Horizontal, SeparatorTactic::Always, 0, 100);
    assert_eq!(text, "x, y,");
}

#[test]
fn mixed_packs_items_greedily() {
    let xs = items(&["aa", "bb", "cc"]);
    let text = write_list(&xs, DefinitiveListTactic::Mixed, SeparatorTactic::Never, 0, 8);
    assert_eq!(text, "aa, bb,\ncc");
}

#[test]
fn fitting_list_goes_on_one_line() {
    let xs = items(&["aaa", "bbb"]);
    assert_eq!(definitive_tactic(&xs, ListTactic::HorizontalVertical, 8), DefinitiveListTactic::Horizontal);
    assert_eq!(definitive_tactic(&xs, ListTactic::Mixed, 8), DefinitiveListTactic::Horizontal);
}

#[test]
fn too_wide_list_is_wrapped() {
    let xs = items(&["aaa", "bbb"]);
    assert_eq!(definitive_tactic(&xs, ListTactic::HorizontalVertical, 7), DefinitiveListTactic::Vertical);
    assert_eq!(definitive_tactic(&xs, ListTactic::Mixed, 7), DefinitiveListTactic::Mixed);
    assert_eq!(definitive_tactic(&xs, ListTactic::Horizontal, 7), DefinitiveListTactic::Horizontal);
    let text = format_list(&xs, ListTactic::HorizontalVertical, SeparatorTactic::Vertical, 2, 7);
    assert_eq!(text, "aaa,\n  bbb,");
}

#[test]
fn multiline_item_forces_vertical() {
    let xs = items(&["a\nb", "c"]);
    assert_eq!(definitive_tactic(&xs, ListTactic::HorizontalVertical, 100), DefinitiveListTactic::Vertical);
}

#[test]
fn comment_forces_vertical_and_is_kept() {
    let xs = vec![
        ListItem { item: "a".to_string(), pre_comment: Some("// first".to_string()), post_comment: None },
        ListItem { item: "b".to_string(), pre_comment: None, post_comment: Some("// last".to_string()) },
    ];
    assert_eq!(definitive_tactic(&xs, ListTactic::Horizontal, 100), DefinitiveListTactic::Vertical);
    let text = format_list(&xs, ListTactic::Horizontal, SeparatorTactic::Vertical, 4, 100);
    assert_eq!(text, "// first\n    a,\n    b, // last");
}

#[test]
fn empty_list_is_empty() {
    let xs = items(&[]);
    assert_eq!(definitive_tactic(&xs, ListTactic::HorizontalVertical, 0), DefinitiveListTactic::Horizontal);
    assert_eq!(format_list(&xs, ListTactic::Vertical, SeparatorTactic::Always, 4, 10), "");
}
