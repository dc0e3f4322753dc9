use string_hash::validate_literal;
use string_hash::HashError;
use string_hash::LiteralDefect;

fn refused(text: &str, defect: LiteralDefect) -> Result<&'static str, HashError> {
    Err(HashError::InvalidLiteralFormat { text: text.to_string(), defect })
}

#[test]
fn a_quoted_letter_is_the_shortest_accepted_text() {
    assert_eq!(validate_literal("\"a\""), Ok("a"));
}

#[test]
fn the_two_quotes_alone_are_too_short() {
    assert_eq!(validate_literal("\"\""), refused("\"\"", LiteralDefect::TooShort));
}

#[test]
fn texts_under_three_characters_are_too_short() {
    assert_eq!(validate_literal(""), refused("", LiteralDefect::TooShort));
    assert_eq!(validate_literal("\""), refused("\"", LiteralDefect::TooShort));
    assert_eq!(validate_literal("1"), refused("1", LiteralDefect::TooShort));
    assert_eq!(validate_literal("42"), refused("42", LiteralDefect::TooShort));
    assert_eq!(validate_literal("\"a"), refused("\"a", LiteralDefect::TooShort));
}

#[test]
fn length_is_counted_in_characters() {
    assert_eq!(validate_literal("\"\u{e9}"), refused("\"\u{e9}", LiteralDefect::TooShort));
    assert_eq!(validate_literal("\"\u{e9}\""), Ok("\u{e9}"));
}

#[test]
fn a_text_must_open_with_a_quote() {
    assert_eq!(validate_literal("123"), refused("123", LiteralDefect::NoOpeningQuote));
    assert_eq!(validate_literal("'a'"), refused("'a'", LiteralDefect::NoOpeningQuote));
    assert_eq!(validate_literal("abc\""), refused("abc\"", LiteralDefect::NoOpeningQuote));
    assert_eq!(validate_literal("r\"a\""), refused("r\"a\"", LiteralDefect::NoOpeningQuote));
    assert_eq!(validate_literal("b\"a\""), refused("b\"a\"", LiteralDefect::NoOpeningQuote));
}

#[test]
fn a_text_must_close_with_a_quote() {
    assert_eq!(validate_literal("\"ab"), refused("\"ab", LiteralDefect::NoClosingQuote));
    assert_eq!(validate_literal("\"a\"x"), refused("\"a\"x", LiteralDefect::NoClosingQuote));
    assert_eq!(validate_literal("\"a\"u8"), refused("\"a\"u8", LiteralDefect::NoClosingQuote));
}

#[test]
fn the_opening_quote_is_looked_at_before_the_closing_one() {
    assert_eq!(validate_literal("abc"), refused("abc", LiteralDefect::NoOpeningQuote));
}

#[test]
fn the_content_is_what_stands_between_the_quotes() {
    assert_eq!(validate_literal("\"hello world\""), Ok("hello world"));
    assert_eq!(validate_literal("\" \""), Ok(" "));
    assert_eq!(validate_literal("\"\"\""), Ok("\""));
    assert_eq!(validate_literal("\"\"a\"\""), Ok("\"a\""));
    assert_eq!(validate_literal("\"\u{65e5}\u{672c}\u{8a9e}\""), Ok("\u{65e5}\u{672c}\u{8a9e}"));
}

#[test]
fn escapes_are_left_as_they_were_written() {
    assert_eq!(validate_literal("\"a\\nb\""), Ok("a\\nb"));
    assert_eq!(validate_literal("\"a\\\"b\""), Ok("a\\\"b"));
}
