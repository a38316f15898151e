use juv::lines::{join_lines, split_lines, trim};

fn owned(v: &[&str]) -> Vec<String> {
    v.iter().map(|s| s.to_string()).collect()
}

#[test]
fn split_keeps_newlines() {
    assert_eq!(split_lines("a\nb"), owned(&["a\n", "b"]));
    assert_eq!(split_lines("a\n"), owned(&["a\n"]));
    assert_eq!(split_lines("\n\n"), owned(&["\n", "\n"]));
    assert_eq!(split_lines(""), Vec::<String>::new());
}

#[test]
fn split_then_join_gives_text_back() {
    for text in ["", "x", "a\nb\n", "\n", "α\nβγ\n\nδ", "line one\r\nline two"] {
        let lines = split_lines(text);
        assert_eq!(join_lines(&lines), text);
        assert_eq!(lines, text.split_inclusive('\n').map(|s| s.to_string()).collect::<Vec<_>>());
    }
}

#[test]
fn trim_matches_std() {
    for text in ["", "  a b  ", "\n\tx\n", "\u{3000}y\u{a0}", "   ", "z"] {
        assert_eq!(trim(text), text.trim());
    }
}
