//! Parsing primitives with a three-way outcome: matched, not matched, or hard error.

use crate::text::{
    chars_occur_at, chars_of, count_leading_whitespace, occurs_at, occurs_in, trim_start,
};
use vstd::prelude::*;
use vstd::string::*;

verus! {

/// A value read from the front of a text, and the text that was not consumed.
#[derive(Debug)]
pub struct ParseSuccess<'a, T> {
    pub value: T,
    pub rest: &'a str,
}

/// Why a text that has the shape of an alternative is nevertheless refused.
#[derive(Debug)]
pub enum ParseError<E> {
    NoneMatched { what_parsing: String, parsed_from: String, failure_reason: String },
    InvalidIdentifier {
        what_parsing: String,
        identifier: String,
        expected: Option<String>,
        parsed_from: String,
    },
    Custom(E),
}

/// `Ok(Some(_))`: matched. `Ok(None)`: this alternative does not apply.
/// `Err(_)`: the alternative applies but the text is invalid.
pub type ParseResult<'a, T, E> = Result<Option<ParseSuccess<'a, T>>, ParseError<E>>;

/// Something that reads a `T` from the front of a text.
pub trait Parser<'a, T, E> {
    /// Whether `r` is an outcome that this parser may give on `s`.
    spec fn yields(&self, s: &'a str, r: ParseResult<'a, T, E>) -> bool;

    fn parse(&self, s: &'a str) -> (r: ParseResult<'a, T, E>)
        ensures
            self.yields(s, r),
    ;
}

/// Whether `r` is what ordered alternation gives on `s` when the parser at
/// index `k` is the first with a definite outcome (`k == parsers.len()`: none has one).
pub open spec fn alternation_stops_at<'a, T, E, P: Parser<'a, T, E>>(
    parsers: Seq<&P>,
    s: &'a str,
    r: ParseResult<'a, T, E>,
    k: int,
) -> bool {
    &&& 0 <= k <= parsers.len()
    &&& forall|j: int| 0 <= j < k ==> (#[trigger] parsers[j]).yields(s, Ok(None))
    &&& k < parsers.len() ==> parsers[k].yields(s, r) && r != Ok::<
        Option<ParseSuccess<'a, T>>,
        ParseError<E>,
    >(None)
    &&& k == parsers.len() ==> r == Ok::<Option<ParseSuccess<'a, T>>, ParseError<E>>(None)
}

/// Tries each parser in turn. The first match or hard error is the result;
/// a parser that does not match hands over to the next one. The parsers are
/// of one type: alternatives of different kinds are the variants of an enum
/// that implements `Parser`.
pub fn alternatives_parse<'a, T, E, P: Parser<'a, T, E>>(s: &'a str, parsers: Vec<&P>) -> (r:
    ParseResult<'a, T, E>)
    ensures
        exists|k: int| alternation_stops_at(parsers@, s, r, k),
{
    let mut i: usize = 0;
    while i < parsers.len()
        invariant
            i <= parsers@.len(),
            forall|j: int| 0 <= j < i ==> (#[trigger] parsers@[j]).yields(s, Ok(None)),
        decreases parsers@.len() - i,
    {
        let outcome = parsers[i].parse(s);
        match outcome {
            Ok(None) => {},
            _ => {
                assert(alternation_stops_at(parsers@, s, outcome, i as int));
                return outcome;
            },
        }
        i += 1;
    }
    let none: ParseResult<'a, T, E> = Ok(None);
    assert(alternation_stops_at(parsers@, s, none, i as int));
    none
}

/// Skips leading whitespace. Always matches.
pub fn parse_whitespace<'a, E>(s: &'a str) -> (r: ParseResult<'a, (), E>)
    ensures
        r matches Ok(Some(success)) && success.rest@ == trim_start(s@),
{
    let chars = chars_of(s);
    let start = count_leading_whitespace(&chars);
    Ok(Some(ParseSuccess { value: (), rest: s.substring_char(start, chars.len()) }))
}

/// Whether `s` starts with the non-empty text `expected`.
pub open spec fn starts_with_literal(expected: Seq<char>, s: Seq<char>) -> bool {
    expected.len() > 0 && expected.is_prefix_of(s)
}

/// What matching the literal `expected` at the front of `s` gives.
pub open spec fn literal_outcome<'a, E>(
    expected: &'a str,
    s: Seq<char>,
    r: ParseResult<'a, &'a str, E>,
) -> bool {
    match r {
        Ok(Some(success)) => {
            &&& starts_with_literal(expected@, s)
            &&& success.value@ == expected@
            &&& success.rest@ == s.skip(expected@.len() as int)
        },
        Ok(None) => !starts_with_literal(expected@, s),
        Err(_) => false,
    }
}

/// Matches the exact text `str_parsing_for` at the front of `s`. An empty
/// literal, a text that is too short and any differing character give "not matched".
pub fn parse_given_str<'a, E>(str_parsing_for: &'a str, s: &'a str) -> (r: ParseResult<
    'a,
    &'a str,
    E,
>)
    ensures
        literal_outcome(str_parsing_for, s@, r),
{
    let wanted = chars_of(str_parsing_for);
    let given = chars_of(s);
    if wanted.len() == 0 || !chars_occur_at(&given, &wanted, 0) {
        return Ok(None);
    }
    Ok(
        Some(
            ParseSuccess {
                value: str_parsing_for,
                rest: s.substring_char(wanted.len(), given.len()),
            },
        ),
    )
}

/// Skips leading whitespace, then matches the exact text `str_parsing_for`.
pub fn parse_given_str_after_whitespace<'a, E>(str_parsing_for: &'a str, s: &'a str) -> (r:
    ParseResult<'a, &'a str, E>)
    ensures
        literal_outcome(str_parsing_for, trim_start(s@), r),
{
    let skipped: ParseResult<'a, (), E> = parse_whitespace(s);
    match skipped {
        Ok(Some(success)) => parse_given_str(str_parsing_for, success.rest),
        _ => Ok(None),
    }
}

/// A parser for one fixed text, optionally after leading whitespace.
pub struct Literal<'a> {
    pub expected: &'a str,
    pub after_whitespace: bool,
}

impl<'a, E> Parser<'a, &'a str, E> for Literal<'a> {
    open spec fn yields(&self, s: &'a str, r: ParseResult<'a, &'a str, E>) -> bool {
        literal_outcome(
            self.expected,
            if self.after_whitespace {
                trim_start(s@)
            } else {
                s@
            },
            r,
        )
    }

    fn parse(&self, s: &'a str) -> (r: ParseResult<'a, &'a str, E>) {
        if self.after_whitespace {
            parse_given_str_after_whitespace(self.expected, s)
        } else {
            parse_given_str(self.expected, s)
        }
    }
}

/// Whether `at` is where `needle` occurs last in `hay`.
pub open spec fn is_last_occurrence(hay: Seq<char>, needle: Seq<char>, at: int) -> bool {
    &&& occurs_at(hay, needle, at)
    &&& forall|j: int| occurs_at(hay, needle, j) ==> j <= at
}

/// Where `needle` occurs last in `hay`.
pub open spec fn last_occurrence(hay: Seq<char>, needle: Seq<char>) -> int {
    choose|at: int| is_last_occurrence(hay, needle, at)
}

/// `n` blanks.
pub open spec fn blanks(n: nat) -> Seq<char>
    decreases n,
{
    if n == 0 {
        Seq::empty()
    } else {
        blanks((n - 1) as nat) + " "@
    }
}

/// The text and, on the line below it, a marker that starts `column` columns in.
pub open spec fn position_diagram(full: Seq<char>, column: nat) -> Seq<char> {
    "\t"@ + full + "\n\t"@ + blanks(column) + "^-- Error occurs here\n"@
}

/// Number of bytes that `s` takes in UTF-8.
pub open spec fn utf8_len(s: Seq<char>) -> nat {
    vstd::utf8::encode_utf8(s).len()
}

/// The diagram that points, in `full`, at the place where the trimmed `rest` occurs last.
pub open spec fn pointed_at(full: Seq<char>, rest: Seq<char>) -> Seq<char> {
    position_diagram(full, utf8_len(full.take(last_occurrence(full, trim_start(rest)))))
}

/// Index of the last place where `needle` occurs in `hay`.
pub fn find_last_occurrence(hay: &Vec<char>, needle: &Vec<char>) -> (at: usize)
    requires
        occurs_in(hay@, needle@),
    ensures
        is_last_occurrence(hay@, needle@, at as int),
        at as int == last_occurrence(hay@, needle@),
{
    let ghost witness: int = choose|w: int| occurs_at(hay@, needle@, w);
    let mut at: usize = hay.len() - needle.len();
    while !chars_occur_at(hay, needle, at)
        invariant
            occurs_at(hay@, needle@, witness),
            witness <= at <= hay@.len() - needle@.len(),
            forall|j: int| occurs_at(hay@, needle@, j) ==> j <= at,
        decreases at,
    {
        at -= 1;
    }
    proof {
        let chosen = last_occurrence(hay@, needle@);
        assert(is_last_occurrence(hay@, needle@, at as int));
        assert(is_last_occurrence(hay@, needle@, chosen));
    }
    at
}

/// Renders `full_str` and, beneath it, a caret under the place where the
/// trimmed `parsed_from` occurs last. The caret is indented by that place's
/// byte offset.
pub fn point_to_position(full_str: &str, parsed_from: &str) -> (r: String)
    requires
        occurs_in(full_str@, trim_start(parsed_from@)),
    ensures
        r@ == pointed_at(full_str@, parsed_from@),
{
    let hay = chars_of(full_str);
    let from = chars_of(parsed_from);
    let skip = count_leading_whitespace(&from);
    let needle = chars_of(parsed_from.substring_char(skip, from.len()));
    assert(needle@ == trim_start(parsed_from@));
    let at = find_last_occurrence(&hay, &needle);
    let column: usize = full_str.substring_char(0, at).as_bytes().len();
    assert(full_str@.take(at as int) == full_str@.subrange(0, at as int));
    assert(column == utf8_len(full_str@.take(at as int)));
    let mut out = String::from_str("\t");
    out.append(full_str);
    out.append("\n\t");
    let mut i: usize = 0;
    while i < column
        invariant
            i <= column,
            out@ == "\t"@ + full_str@ + "\n\t"@ + blanks(i as nat),
        decreases column - i,
    {
        out.append(" ");
        i += 1;
    }
    out.append("^-- Error occurs here\n");
    out
}

} // verus!
