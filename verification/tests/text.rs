use python_config::text::{same_text, split_lines, split_once, strip_carriage_return};

#[test]
fn same_text_compares_character_by_character() {
    assert!(same_text("", ""));
    assert!(same_text("True", "True"));
    assert!(same_text("zoë", "zoë"));
    assert!(!same_text("True", "False"));
    assert!(!same_text("True", "Tru"));
    assert!(!same_text("Tru", "True"));
    assert!(!same_text("", "a"));
    assert!(!same_text("abc", "abd"));
}

#[test]
fn split_once_cuts_at_the_first_occurrence() {
    assert_eq!(split_once("a=b=c", '='), Some(("a", "b=c")));
    assert_eq!(split_once("=b", '='), Some(("", "b")));
    assert_eq!(split_once("a=", '='), Some(("a", "")));
    assert_eq!(split_once("=", '='), Some(("", "")));
    assert_eq!(split_once("abc", '='), None);
    assert_eq!(split_once("", '='), None);
    assert_eq!(split_once("é è", ' '), Some(("é", "è")));
    assert_eq!(split_once("日本語\n한국어", '\n'), Some(("日本語", "한국어")));
}

#[test]
fn strip_carriage_return_drops_one_from_the_end() {
    assert_eq!(strip_carriage_return("line\r"), "line");
    assert_eq!(strip_carriage_return("line\r\r"), "line\r");
    assert_eq!(strip_carriage_return("line"), "line");
    assert_eq!(strip_carriage_return("\rline"), "\rline");
    assert_eq!(strip_carriage_return("\r"), "");
    assert_eq!(strip_carriage_return(""), "");
}

fn lines_as_std(text: &str) {
    let expected: Vec<&str> = text.lines().collect();
    assert_eq!(split_lines(text), expected, "{:?}", text);
}

#[test]
fn split_lines_gives_the_lines() {
    assert_eq!(split_lines("a\nb\nc"), vec!["a", "b", "c"]);
    assert_eq!(split_lines("a\nb\nc\n"), vec!["a", "b", "c"]);
    assert_eq!(split_lines("a\r\nb\r\n"), vec!["a", "b"]);
    assert_eq!(split_lines("a\n\nb"), vec!["a", "", "b"]);
    assert_eq!(split_lines("\n"), vec![""]);
    assert_eq!(split_lines("\n\n"), vec!["", ""]);
    assert_eq!(split_lines("a\r"), vec!["a\r"]);
    assert_eq!(split_lines("a\rb\n"), vec!["a\rb"]);
    assert_eq!(split_lines("a\r\r\nb"), vec!["a\r", "b"]);
    assert_eq!(split_lines(""), Vec::<&str>::new());
    assert_eq!(split_lines("one line"), vec!["one line"]);
}

#[test]
fn split_lines_agrees_with_the_standard_library() {
    for text in [
        "",
        "\n",
        "\r",
        "\r\n",
        "\n\r",
        "a",
        "a\n",
        "a\r\n",
        "a\n\r\nb",
        "a\r\n\r\nb\r",
        "\r\r\n\n\r",
        "version_major 3\r\nversion_minor 11\r\n",
        "é\nè\r\nê",
    ] {
        lines_as_std(text);
    }
}
