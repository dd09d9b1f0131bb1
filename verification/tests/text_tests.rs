use starship_manager::text::{join_with_newlines, same_text, split_lines};

#[test]
fn split_lines_matches_str_lines() {
    let samples = [
        "",
        "\n",
        "a",
        "a\n",
        "a\nb",
        "a\r\nb\r\n",
        "foo\r\nbar\n\nbaz\r",
        "\n\n",
        "x\r\r\ny",
        "λ\n➜",
    ];
    for s in samples {
        let expected: Vec<String> = s.lines().map(String::from).collect();
        assert_eq!(split_lines(s), expected, "{s:?}");
    }
}

#[test]
fn join_with_newlines_matches_join() {
    let cases: Vec<Vec<String>> = vec![
        vec![],
        vec!["".to_string()],
        vec!["a".to_string(), "".to_string()],
        vec!["a".to_string(), "b".to_string(), "c".to_string()],
    ];
    for c in cases {
        assert_eq!(join_with_newlines(&c), c.join("\n"));
    }
}

#[test]
fn same_text_compares() {
    assert!(same_text("toml", "toml"));
    assert!(!same_text("toml", "tom"));
    assert!(same_text("", ""));
}
