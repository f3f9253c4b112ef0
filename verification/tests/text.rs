use flow_mesh::text::{contains_text, split_commas, str_eq, trim_text};

#[test]
fn trims_unicode_whitespace() {
    assert_eq!(trim_text("  a b \n"), "a b");
    assert_eq!(trim_text("\u{3000}\u{a0}x\u{2029}"), "x");
    assert_eq!(trim_text(" \t "), "");
    assert_eq!(trim_text("\u{200b}x"), "\u{200b}x");
}

#[test]
fn finds_substrings() {
    assert!(contains_text("run the workflow now", "workflow"));
    assert!(contains_text("abc", ""));
    assert!(!contains_text("tol", "tool"));
    assert!(contains_text("tool", "tool"));
}

#[test]
fn splits_like_str_split() {
    assert_eq!(split_commas("a,,b,"), vec!["a", "", "b", ""]);
    assert_eq!(split_commas(""), vec![""]);
    assert_eq!(split_commas("é,ü"), vec!["é", "ü"]);
}

#[test]
fn compares_characters() {
    assert!(str_eq("/health", "/health"));
    assert!(!str_eq("/health", "/healthz"));
    assert!(!str_eq("a", "b"));
}
