use crate_ai_engine::text::{join_lines, split_chars};

fn pieces(text: &str, sep: char) -> Vec<String> {
    split_chars(text, sep).into_iter().map(|piece| piece.into_iter().collect()).collect()
}

#[test]
fn split_keeps_empty_pieces() {
    assert_eq!(pieces("", '.'), vec![""]);
    assert_eq!(pieces("abc", '.'), vec!["abc"]);
    assert_eq!(pieces("1.0.0", '.'), vec!["1", "0", "0"]);
    assert_eq!(pieces(".", '.'), vec!["", ""]);
    assert_eq!(pieces("..", '.'), vec!["", "", ""]);
    assert_eq!(pieces("a..b", '.'), vec!["a", "", "b"]);
    assert_eq!(pieces(".a.", '.'), vec!["", "a", ""]);
    assert_eq!(pieces("a:b.c", ':'), vec!["a", "b.c"]);
}

#[test]
fn split_agrees_with_the_standard_split() {
    for text in ["", "1.2.3", "...", "a.b", "no dots", ".x", "x.", "é.ü.⚓"] {
        let expected: Vec<String> = text.split('.').map(|piece| piece.to_string()).collect();
        assert_eq!(pieces(text, '.'), expected);
    }
}

#[test]
fn join_puts_the_separator_between_neighbours() {
    assert_eq!(join_lines(&vec![], "; "), "");
    assert_eq!(join_lines(&vec!["one"], "; "), "one");
    assert_eq!(join_lines(&vec!["one", "two"], "; "), "one; two");
    assert_eq!(join_lines(&vec!["one", "", "three"], "; "), "one; ; three");
    assert_eq!(join_lines(&vec!["a", "b", "c"], ""), "abc");
    assert_eq!(join_lines(&vec!["", ""], "-"), "-");
}

#[test]
fn join_undoes_split() {
    for text in ["", ".", "1.2.3", "..a..", "no dots", "é.ü.⚓", "trailing."] {
        let owned = pieces(text, '.');
        let lines: Vec<&str> = owned.iter().map(|piece| piece.as_str()).collect();
        assert_eq!(join_lines(&lines, "."), text);
    }
}

#[test]
fn pieces_hold_no_separator() {
    for text in ["", ".", "1.2.3", "..a..", "a.b.c.d.e"] {
        let owned = pieces(text, '.');
        assert_eq!(owned.len(), text.matches('.').count() + 1);
        assert!(owned.iter().all(|piece| !piece.contains('.')));
    }
}
