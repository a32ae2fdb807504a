use mentci_egui::text::{
    concat_text, decimal_string, join_lines_of, operation_names, owned, parse_trimmed_u64, same_text,
    trimmed_text,
};

#[test]
fn decimal_text_reads_back() {
    for n in [0u64, 7, 10, 99, 1_000_000_007, u64::MAX] {
        let text = decimal_string(n);
        assert_eq!(text, n.to_string());
        assert_eq!(parse_trimmed_u64(&text), Some(n));
    }
}

#[test]
fn parsing_follows_std() {
    for text in ["", "+", "-1", "1_000", "12a", " 5 ", "+8", "0009", "18446744073709551616", "\u{a0}42\u{2003}"] {
        assert_eq!(parse_trimmed_u64(text), text.trim().parse::<u64>().ok(), "{text:?}");
    }
}

#[test]
fn trimming_follows_std() {
    for text in ["", "  ", " a b ", "\u{85}x\u{2029}", "\u{200b}y", "z"] {
        let expected = if text.trim().is_empty() {
            None
        } else {
            Some(text.trim().to_string())
        };
        assert_eq!(trimmed_text(text), expected, "{text:?}");
    }
}

#[test]
fn joined_names_split_back() {
    let names = vec!["Record".to_string(), "Observe".to_string(), "Spawn it".to_string()];
    let joined = join_lines_of(&names);
    assert_eq!(joined, "Record\nObserve\nSpawn it");
    assert_eq!(operation_names(&joined), names);
    assert_eq!(operation_names(""), Vec::<String>::new());
    assert_eq!(operation_names("a,,b\r\n"), vec!["a".to_string(), "b".to_string()]);
}

#[test]
fn small_string_helpers() {
    assert_eq!(owned("abc"), "abc");
    assert_eq!(concat_text("ab", "cd"), "abcd");
    assert!(same_text("q", "q"));
    assert!(!same_text("q", "qq"));
    assert!(!same_text("q", "r"));
}
