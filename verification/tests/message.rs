use posterino::message::{join_words, prepare_message, unescape_newlines};

fn words(list: &[&str]) -> Vec<String> {
    list.iter().map(|w| w.to_string()).collect()
}

#[test]
fn words_are_joined_with_single_spaces() {
    assert_eq!(join_words(&words(&[])), "");
    assert_eq!(join_words(&words(&["one"])), "one");
    assert_eq!(join_words(&words(&["one", "two", "three"])), "one two three");
    assert_eq!(join_words(&words(&["a", "", "b"])), "a  b");
}

#[test]
fn escape_becomes_line_feed() {
    assert_eq!(unescape_newlines("a\\nb"), "a\nb");
    assert_eq!(unescape_newlines("\\n"), "\n");
    assert_eq!(unescape_newlines("\\n\\n"), "\n\n");
    assert_eq!(unescape_newlines("first\\nsecond\\n"), "first\nsecond\n");
}

#[test]
fn text_without_escape_is_unchanged() {
    assert_eq!(unescape_newlines(""), "");
    assert_eq!(unescape_newlines("no escapes here"), "no escapes here");
    assert_eq!(unescape_newlines("back\\slash n"), "back\\slash n");
    assert_eq!(unescape_newlines("ends with \\"), "ends with \\");
    assert_eq!(unescape_newlines("real\nnewline"), "real\nnewline");
}

#[test]
fn escapes_are_found_left_to_right() {
    assert_eq!(unescape_newlines("\\\\n"), "\\\n");
    assert_eq!(unescape_newlines("\\\\nn"), "\\\nn");
    assert_eq!(unescape_newlines("é\\n☃"), "é\n☃");
}

#[test]
fn no_escape_is_left_after_unescaping() {
    for raw in ["a\\nb", "\\\\nn", "\\n\\n\\n", "x\\\\\\nn", "\\", "n\\"] {
        assert!(!unescape_newlines(raw).contains("\\n"), "raw: {:?}", raw);
    }
}

#[test]
fn message_is_joined_then_unescaped() {
    assert_eq!(prepare_message(&words(&["line", "one\\nline", "two"])), "line one\nline two");
    assert_eq!(prepare_message(&words(&["a\\", "nb"])), "a\\ nb");
}
