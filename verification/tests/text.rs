use weevibin::text::{joined, strip_escaped_quotes};

#[test]
fn escaped_quotes_are_taken_out() {
    assert_eq!(strip_escaped_quotes(r#"say \"hi\" now"#), "say hi now");
    assert_eq!(strip_escaped_quotes(r#"\""#), "");
    assert_eq!(strip_escaped_quotes(r#"\"\""#), "");
    assert_eq!(strip_escaped_quotes(r#"a\"b"#), "ab");
}

#[test]
fn other_text_is_kept_as_it_is() {
    assert_eq!(strip_escaped_quotes(""), "");
    assert_eq!(strip_escaped_quotes("plain"), "plain");
    assert_eq!(strip_escaped_quotes(r#"a "quoted" word"#), r#"a "quoted" word"#);
    assert_eq!(strip_escaped_quotes(r#"back\slash"#), r#"back\slash"#);
    assert_eq!(strip_escaped_quotes(r#"trailing\"#), r#"trailing\"#);
    assert_eq!(strip_escaped_quotes("naïve \\\" café"), "naïve  café");
}

#[test]
fn pairs_are_found_from_the_left() {
    assert_eq!(strip_escaped_quotes(r#"\\""#), r#"\"#);
    assert_eq!(strip_escaped_quotes(r#"\\\""#), r#"\\"#);
    assert_eq!(strip_escaped_quotes(r#"\"""#), r#"""#);
}

#[test]
fn joined_puts_one_text_after_the_other() {
    assert_eq!(joined("IO error: ", "boom"), "IO error: boom");
    assert_eq!(joined("", ""), "");
    assert_eq!(joined("é", "ü"), "éü");
}
