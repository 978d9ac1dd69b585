use cli_boilerplate_automation::text::{chars_of, contains, same_text, to_ascii_lowercase};

#[test]
fn same_text_compares_texts() {
    assert!(same_text("", ""));
    assert!(same_text("abc", "abc"));
    assert!(!same_text("abc", "abd"));
    assert!(!same_text("abc", "ab"));
    assert!(!same_text("abc", "ABC"));
}

#[test]
fn chars_of_lists_characters() {
    assert_eq!(chars_of(""), Vec::<char>::new());
    assert_eq!(chars_of("ab"), vec!['a', 'b']);
    assert_eq!(chars_of("\u{e9}\u{1f600}z"), vec!['\u{e9}', '\u{1f600}', 'z']);
}

#[test]
fn contains_finds_a_part_anywhere() {
    assert!(contains("powershell.exe", "powershell"));
    assert!(contains("c:/powershell", "powershell"));
    assert!(contains("xpowershellx", "powershell"));
    assert!(contains("abc", ""));
    assert!(contains("", ""));
    assert!(contains("abc", "abc"));
    assert!(contains("aab", "ab"));
    assert!(contains("gr\u{fc}n", "\u{fc}n"));
    assert!(!contains("", "a"));
    assert!(!contains("ab", "abc"));
    assert!(!contains("power shell", "powershell"));
    assert!(!contains("abab", "abb"));
}

#[test]
fn to_ascii_lowercase_makes_capitals_small() {
    assert_eq!(to_ascii_lowercase("EXE"), vec!['e', 'x', 'e']);
    assert_eq!(to_ascii_lowercase("AzZa09@[`{"), chars_of("azza09@[`{"));
    assert_eq!(to_ascii_lowercase("\u{c9}t\u{c9}"), vec!['\u{c9}', 't', '\u{c9}']);
    assert_eq!(to_ascii_lowercase(""), Vec::<char>::new());
}
