use gcmake::parsers::general_parser::{
    alternatives_parse, parse_given_str, parse_given_str_after_whitespace, parse_whitespace,
    point_to_position, Literal, ParseError, ParseResult, Parser,
};

#[test]
fn whitespace_is_skipped_and_always_matches() {
    let r: ParseResult<(), ()> = parse_whitespace("  \t\n abc ");
    assert_eq!(r.unwrap().unwrap().rest, "abc ");
    let r: ParseResult<(), ()> = parse_whitespace("abc");
    assert_eq!(r.unwrap().unwrap().rest, "abc");
    let r: ParseResult<(), ()> = parse_whitespace("   ");
    assert_eq!(r.unwrap().unwrap().rest, "");
    let r: ParseResult<(), ()> = parse_whitespace("");
    assert_eq!(r.unwrap().unwrap().rest, "");
}

#[test]
fn whitespace_of_unicode_is_skipped() {
    let r: ParseResult<(), ()> = parse_whitespace("\u{2003}\u{a0}x");
    assert_eq!(r.unwrap().unwrap().rest, "x");
    let r: ParseResult<(), ()> = parse_whitespace("\u{200b}x");
    assert_eq!(r.unwrap().unwrap().rest, "\u{200b}x");
}

#[test]
fn given_text_matches_at_the_front() {
    let r: ParseResult<&str, ()> = parse_given_str("((", "((unix)) -Wall");
    let success = r.unwrap().unwrap();
    assert_eq!(success.value, "((");
    assert_eq!(success.rest, "unix)) -Wall");
}

#[test]
fn given_text_does_not_match_on_mismatch_or_short_input() {
    let r: ParseResult<&str, ()> = parse_given_str("((", "(unix");
    assert!(matches!(r, Ok(None)));
    let r: ParseResult<&str, ()> = parse_given_str("abc", "ab");
    assert!(matches!(r, Ok(None)));
    let r: ParseResult<&str, ()> = parse_given_str("", "ab");
    assert!(matches!(r, Ok(None)));
    let r: ParseResult<&str, ()> = parse_given_str("abc", "\u{e9}\u{e9}");
    assert!(matches!(r, Ok(None)));
}

#[test]
fn given_text_matches_after_whitespace() {
    let r: ParseResult<&str, ()> = parse_given_str_after_whitespace("::", "   ::x");
    let success = r.unwrap().unwrap();
    assert_eq!(success.value, "::");
    assert_eq!(success.rest, "x");
    let r: ParseResult<&str, ()> = parse_given_str("::", "   ::x");
    assert!(matches!(r, Ok(None)));
}

#[test]
fn alternation_takes_the_first_match() {
    let first = Literal { expected: "and", after_whitespace: true };
    let second = Literal { expected: "a", after_whitespace: true };
    let r: ParseResult<&str, ()> = alternatives_parse(" and b", vec![&first, &second]);
    let success = r.unwrap().unwrap();
    assert_eq!(success.value, "and");
    assert_eq!(success.rest, " b");
    let r: ParseResult<&str, ()> = alternatives_parse(" and b", vec![&second, &first]);
    let success = r.unwrap().unwrap();
    assert_eq!(success.value, "a");
    assert_eq!(success.rest, "nd b");
}

#[test]
fn alternation_goes_on_past_what_does_not_match() {
    let first = Literal { expected: "or", after_whitespace: false };
    let second = Literal { expected: "not", after_whitespace: false };
    let r: ParseResult<&str, ()> = alternatives_parse("not x", vec![&first, &second]);
    assert_eq!(r.unwrap().unwrap().value, "not");
    let r: ParseResult<&str, ()> = alternatives_parse("xor", vec![&first, &second]);
    assert!(matches!(r, Ok(None)));
    let none: Vec<&Literal> = Vec::new();
    let r: ParseResult<&str, ()> = alternatives_parse("xor", none);
    assert!(matches!(r, Ok(None)));
}

struct Refusing;

impl<'a> Parser<'a, &'a str, u8> for Refusing {
    fn yields(&self, _s: &'a str, r: ParseResult<'a, &'a str, u8>) -> bool {
        r.is_err()
    }

    fn parse(&self, _s: &'a str) -> ParseResult<'a, &'a str, u8> {
        Err(ParseError::Custom(7))
    }
}

struct Taking;

impl<'a> Parser<'a, &'a str, u8> for Taking {
    fn yields(&self, _s: &'a str, r: ParseResult<'a, &'a str, u8>) -> bool {
        r.is_ok()
    }

    fn parse(&self, s: &'a str) -> ParseResult<'a, &'a str, u8> {
        parse_given_str("x", s)
    }
}

enum Either {
    Refusing(Refusing),
    Taking(Taking),
}

impl<'a> Parser<'a, &'a str, u8> for Either {
    fn yields(&self, s: &'a str, r: ParseResult<'a, &'a str, u8>) -> bool {
        match self {
            Either::Refusing(p) => p.yields(s, r),
            Either::Taking(p) => p.yields(s, r),
        }
    }

    fn parse(&self, s: &'a str) -> ParseResult<'a, &'a str, u8> {
        match self {
            Either::Refusing(p) => p.parse(s),
            Either::Taking(p) => p.parse(s),
        }
    }
}

#[test]
fn alternation_stops_at_a_hard_error() {
    let refusing = Either::Refusing(Refusing);
    let taking = Either::Taking(Taking);
    let r = alternatives_parse("xy", vec![&refusing, &taking]);
    assert!(matches!(r, Err(ParseError::Custom(7))));
    let r = alternatives_parse("xy", vec![&taking, &refusing]);
    assert_eq!(r.unwrap().unwrap().rest, "y");
    let r = alternatives_parse("zy", vec![&taking, &refusing]);
    assert!(matches!(r, Err(ParseError::Custom(7))));
}

#[test]
fn position_is_pointed_at() {
    assert_eq!(
        point_to_position("abc def", "def"),
        "\tabc def\n\t    ^-- Error occurs here\n"
    );
    assert_eq!(
        point_to_position("abc def", "  abc def"),
        "\tabc def\n\t^-- Error occurs here\n"
    );
}

#[test]
fn position_is_the_last_occurrence_in_bytes() {
    assert_eq!(point_to_position("ab ab", "ab"), "\tab ab\n\t   ^-- Error occurs here\n");
    assert_eq!(
        point_to_position("\u{e9}\u{e9} x", "x"),
        "\t\u{e9}\u{e9} x\n\t     ^-- Error occurs here\n"
    );
    assert_eq!(point_to_position("abc", ""), "\tabc\n\t   ^-- Error occurs here\n");
}
