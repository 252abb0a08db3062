//! System specifiers: boolean gates over platform names and feature names,
//! written between `((` and `))` in front of a flag, a define or a link.

use crate::parsers::general_parser::{pointed_at, point_to_position, ParseSuccess};
use crate::text::{
    blank_end, chars_of, cut, is_whitespace, lemma_blank_end, lemma_suffix_occurs,
    lemma_trim_start_of_suffix, names_of, range_is, range_is_one_of, skip_whitespace_from,
    char_is_whitespace,
};
use vstd::prelude::*;
use vstd::string::*;

verus! {

/// A platform or compiler that a gate can name.
#[derive(Clone, Copy, Debug, PartialEq, Eq, Structural)]
pub enum SingleSystemSpec {
    Android,
    Windows,
    Linux,
    MacOS,
    Unix,
    MinGW,
    GCC,
    Clang,
    MSVC,
    Emscripten,
}

/// A gate as written: platform and feature names joined by `not`, `and`, `or`.
#[derive(Debug, PartialEq, Eq)]
pub enum SystemSpecExpressionTree {
    Value(SingleSystemSpec),
    Feature(String),
    Not(Box<SystemSpecExpressionTree>),
    And(Box<SystemSpecExpressionTree>, Box<SystemSpecExpressionTree>),
    Or(Box<SystemSpecExpressionTree>, Box<SystemSpecExpressionTree>),
}

/// The mathematical form of a gate expression.
pub ghost enum GateExpression {
    Value(SingleSystemSpec),
    Feature(Seq<char>),
    Not(Box<GateExpression>),
    And(Box<GateExpression>, Box<GateExpression>),
    Or(Box<GateExpression>, Box<GateExpression>),
}

impl View for SystemSpecExpressionTree {
    type V = GateExpression;

    open spec fn view(&self) -> GateExpression
        decreases self,
    {
        match self {
            Self::Value(system) => GateExpression::Value(*system),
            Self::Feature(name) => GateExpression::Feature(name@),
            Self::Not(inner) => GateExpression::Not(Box::new((**inner).view())),
            Self::And(left, right) => GateExpression::And(
                Box::new((**left).view()),
                Box::new((**right).view()),
            ),
            Self::Or(left, right) => GateExpression::Or(
                Box::new((**left).view()),
                Box::new((**right).view()),
            ),
        }
    }
}

/// Whether the condition `gate` is open where the systems `systems` are the
/// current ones and the features `features` are enabled.
pub open spec fn holds(gate: GateExpression, systems: Seq<SingleSystemSpec>, features: Seq<Seq<char>>) -> bool
    decreases gate,
{
    match gate {
        GateExpression::Value(system) => systems.contains(system),
        GateExpression::Feature(name) => features.contains(name),
        GateExpression::Not(inner) => !holds(*inner, systems, features),
        GateExpression::And(left, right) => holds(*left, systems, features) && holds(
            *right,
            systems,
            features,
        ),
        GateExpression::Or(left, right) => holds(*left, systems, features) || holds(
            *right,
            systems,
            features,
        ),
    }
}

/// Whether `system` is one of `systems`.
pub fn systems_contain(systems: &Vec<SingleSystemSpec>, system: SingleSystemSpec) -> (r: bool)
    ensures
        r == systems@.contains(system),
{
    let mut i: usize = 0;
    while i < systems.len()
        invariant
            i <= systems@.len(),
            forall|j: int| 0 <= j < i ==> systems@[j] != system,
        decreases systems@.len() - i,
    {
        if systems[i] == system {
            return true;
        }
        i += 1;
    }
    false
}

/// Whether `name` is one of `names`.
pub fn names_contain(names: &Vec<&str>, name: &str) -> (r: bool)
    ensures
        r == names_of(names@).contains(name@),
{
    let chars = chars_of(name);
    assert(chars@.subrange(0, chars@.len() as int) == name@);
    range_is_one_of(&chars, 0, chars.len(), names)
}

impl SystemSpecExpressionTree {
    /// Evaluates the condition for the given systems and enabled features.
    pub fn is_satisfied_by(&self, systems: &Vec<SingleSystemSpec>, features: &Vec<&str>) -> (r:
        bool)
        ensures
            r == holds(self@, systems@, names_of(features@)),
        decreases self,
    {
        match self {
            Self::Value(system) => systems_contain(systems, *system),
            Self::Feature(name) => names_contain(features, name.as_str()),
            Self::Not(inner) => !inner.is_satisfied_by(systems, features),
            Self::And(left, right) => left.is_satisfied_by(systems, features)
                && right.is_satisfied_by(systems, features),
            Self::Or(left, right) => left.is_satisfied_by(systems, features)
                || right.is_satisfied_by(systems, features),
        }
    }

    /// A copy of the condition.
    pub fn duplicate(&self) -> (r: Self)
        ensures
            r@ == self@,
        decreases self,
    {
        match self {
            Self::Value(system) => Self::Value(*system),
            Self::Feature(name) => Self::Feature(name.clone()),
            Self::Not(inner) => Self::Not(Box::new(inner.duplicate())),
            Self::And(left, right) => Self::And(
                Box::new(left.duplicate()),
                Box::new(right.duplicate()),
            ),
            Self::Or(left, right) => Self::Or(
                Box::new(left.duplicate()),
                Box::new(right.duplicate()),
            ),
        }
    }
}

/// A gate, or the absence of one: what carries no gate applies everywhere.
#[derive(Debug, PartialEq, Eq)]
pub enum SystemSpecifierWrapper {
    All,
    Specific(SystemSpecExpressionTree),
}

impl View for SystemSpecifierWrapper {
    type V = Option<GateExpression>;

    open spec fn view(&self) -> Option<GateExpression> {
        match self {
            Self::All => None,
            Self::Specific(tree) => Some(tree@),
        }
    }
}

/// Whether something gated by `gate` applies for the given systems and features.
pub open spec fn applies(
    gate: Option<GateExpression>,
    systems: Seq<SingleSystemSpec>,
    features: Seq<Seq<char>>,
) -> bool {
    match gate {
        None => true,
        Some(expression) => holds(expression, systems, features),
    }
}

impl SystemSpecifierWrapper {
    /// The condition that is always open.
    pub fn default_include_all() -> (r: Self)
        ensures
            r@ is None,
    {
        Self::All
    }

    /// Whether the condition is the one that is always open.
    pub fn includes_all(&self) -> (r: bool)
        ensures
            r == (self@ is None),
    {
        match self {
            Self::All => true,
            Self::Specific(_) => false,
        }
    }

    /// Whether what this gate guards applies for the given systems and enabled features.
    pub fn applies_to(&self, systems: &Vec<SingleSystemSpec>, features: &Vec<&str>) -> (r: bool)
        ensures
            r == applies(self@, systems@, names_of(features@)),
    {
        match self {
            Self::All => true,
            Self::Specific(tree) => tree.is_satisfied_by(systems, features),
        }
    }

    /// A copy of the condition.
    pub fn duplicate(&self) -> (r: Self)
        ensures
            r@ == self@,
    {
        match self {
            Self::All => Self::All,
            Self::Specific(tree) => Self::Specific(tree.duplicate()),
        }
    }
}

/// What is wrong with a text that starts like a gate.
#[derive(Clone, Copy, Debug, PartialEq, Eq, Structural)]
pub enum GateErrorKind {
    ExpectedExpression,
    ExpectedClosingParenthesis,
    ExpectedGateEnd,
    UnknownSystem,
    UnknownFeature,
}

/// Whether `c` can be part of a word of a gate: anything but whitespace and parentheses.
pub open spec fn is_word_char(c: char) -> bool {
    !is_whitespace(c) && c != '(' && c != ')'
}

/// Number of consecutive word characters of `s` from index `pos` on.
pub open spec fn word_run(s: Seq<char>, pos: int) -> nat
    decreases s.len() - pos,
{
    if 0 <= pos < s.len() && is_word_char(s[pos]) {
        1 + word_run(s, pos + 1)
    } else {
        0
    }
}

/// Index just behind the word that starts at `pos`.
pub open spec fn word_end(s: Seq<char>, pos: int) -> int {
    pos + word_run(s, pos)
}

/// The system that `word` names, if it names one.
pub open spec fn system_named(word: Seq<char>) -> Option<SingleSystemSpec> {
    if word == "android"@ {
        Some(SingleSystemSpec::Android)
    } else if word == "windows"@ {
        Some(SingleSystemSpec::Windows)
    } else if word == "linux"@ {
        Some(SingleSystemSpec::Linux)
    } else if word == "macos"@ {
        Some(SingleSystemSpec::MacOS)
    } else if word == "unix"@ {
        Some(SingleSystemSpec::Unix)
    } else if word == "mingw"@ {
        Some(SingleSystemSpec::MinGW)
    } else if word == "gcc"@ {
        Some(SingleSystemSpec::GCC)
    } else if word == "clang"@ {
        Some(SingleSystemSpec::Clang)
    } else if word == "msvc"@ {
        Some(SingleSystemSpec::MSVC)
    } else if word == "emscripten"@ {
        Some(SingleSystemSpec::Emscripten)
    } else {
        None
    }
}

/// The names of the features in scope; `None` where any feature may be named.
pub open spec fn feature_names(list: Option<&Vec<&str>>) -> Option<Seq<Seq<char>>> {
    match list {
        None => None,
        Some(names) => Some(names_of(names@)),
    }
}

/// The leaf that the word `word` stands for: a system, or `feature:` and the
/// name of a feature in scope.
pub open spec fn leaf_for(word: Seq<char>, features: Option<Seq<Seq<char>>>) -> Result<
    GateExpression,
    GateErrorKind,
> {
    let prefix = "feature:"@;
    if system_named(word) is Some {
        Ok(GateExpression::Value(system_named(word)->0))
    } else if prefix.is_prefix_of(word) {
        let name = word.skip(prefix.len() as int);
        if name.len() > 0 && (features is None || features->0.contains(name)) {
            Ok(GateExpression::Feature(name))
        } else {
            Err(GateErrorKind::UnknownFeature)
        }
    } else {
        Err(GateErrorKind::UnknownSystem)
    }
}

/// Where the keyword `keyword` ends, if it is the next word of `s` after `pos`.
pub open spec fn keyword_at(s: Seq<char>, pos: int, keyword: Seq<char>) -> Option<int> {
    let start = blank_end(s, pos);
    let end = word_end(s, start);
    if start < end <= s.len() && s.subrange(start, end) == keyword {
        Some(end)
    } else {
        None
    }
}

/// A gate expression and the index behind it, or what is wrong and where.
pub type GateParse = Result<(GateExpression, int), (GateErrorKind, int)>;

/// An operand: a parenthesised expression, `not` and an operand, or a leaf.
pub open spec fn parse_unary(s: Seq<char>, pos: int, features: Option<Seq<Seq<char>>>) -> GateParse
    decreases s.len() - pos, 1int,
{
    let start = blank_end(s, pos);
    if !(start < s.len()) {
        Err((GateErrorKind::ExpectedExpression, start))
    } else if s[start] == '(' {
        match parse_or(s, start + 1, features) {
            Err(fault) => Err(fault),
            Ok((inner, behind)) => {
                let close = blank_end(s, behind);
                if close < s.len() && s[close] == ')' {
                    Ok((inner, close + 1))
                } else {
                    Err((GateErrorKind::ExpectedClosingParenthesis, close))
                }
            },
        }
    } else {
        let end = word_end(s, start);
        if !(start < end <= s.len()) {
            Err((GateErrorKind::ExpectedExpression, start))
        } else if s.subrange(start, end) == "not"@ {
            match parse_unary(s, end, features) {
                Err(fault) => Err(fault),
                Ok((inner, behind)) => Ok((GateExpression::Not(Box::new(inner)), behind)),
            }
        } else {
            match leaf_for(s.subrange(start, end), features) {
                Ok(leaf) => Ok((leaf, end)),
                Err(kind) => Err((kind, start)),
            }
        }
    }
}

/// What follows an operand of a conjunction: any number of `and` and an operand.
pub open spec fn and_tail(
    s: Seq<char>,
    left: GateExpression,
    pos: int,
    features: Option<Seq<Seq<char>>>,
) -> GateParse
    decreases s.len() - pos, 0int,
{
    match keyword_at(s, pos, "and"@) {
        None => Ok((left, pos)),
        Some(end) => match parse_unary(s, end, features) {
            Err(fault) => Err(fault),
            Ok((right, behind)) => if pos < behind <= s.len() {
                and_tail(
                    s,
                    GateExpression::And(Box::new(left), Box::new(right)),
                    behind,
                    features,
                )
            } else {
                Err((GateErrorKind::ExpectedExpression, behind))
            },
        },
    }
}

/// A conjunction: operands joined by `and`, grouped from the left.
pub open spec fn parse_and(s: Seq<char>, pos: int, features: Option<Seq<Seq<char>>>) -> GateParse
    decreases s.len() - pos, 2int,
{
    match parse_unary(s, pos, features) {
        Err(fault) => Err(fault),
        Ok((left, behind)) => if pos < behind <= s.len() {
            and_tail(s, left, behind, features)
        } else {
            Err((GateErrorKind::ExpectedExpression, behind))
        },
    }
}

/// What follows a conjunction of a disjunction: any number of `or` and a conjunction.
pub open spec fn or_tail(
    s: Seq<char>,
    left: GateExpression,
    pos: int,
    features: Option<Seq<Seq<char>>>,
) -> GateParse
    decreases s.len() - pos, 0int,
{
    match keyword_at(s, pos, "or"@) {
        None => Ok((left, pos)),
        Some(end) => match parse_and(s, end, features) {
            Err(fault) => Err(fault),
            Ok((right, behind)) => if pos < behind <= s.len() {
                or_tail(s, GateExpression::Or(Box::new(left), Box::new(right)), behind, features)
            } else {
                Err((GateErrorKind::ExpectedExpression, behind))
            },
        },
    }
}

/// A disjunction: conjunctions joined by `or`, grouped from the left. `not`
/// binds tighter than `and`, and `and` tighter than `or`.
pub open spec fn parse_or(s: Seq<char>, pos: int, features: Option<Seq<Seq<char>>>) -> GateParse
    decreases s.len() - pos, 3int,
{
    match parse_and(s, pos, features) {
        Err(fault) => Err(fault),
        Ok((left, behind)) => if pos < behind <= s.len() {
            or_tail(s, left, behind, features)
        } else {
            Err((GateErrorKind::ExpectedExpression, behind))
        },
    }
}

/// What stands at the front of a text: no gate, a gate and the index where
/// the conditiond text starts, or a malformed gate.
pub ghost enum LeadingGate {
    Absent,
    Present { gate: GateExpression, rest_from: int },
    Malformed { kind: GateErrorKind, at: int },
}

/// Reads the condition at the front of `s`. A text that does not start, after
/// blanks, with `((` has no gate. Else an expression and `))` must follow;
/// the conditiond text starts behind the blanks that follow `))`.
pub open spec fn leading_gate(s: Seq<char>, features: Option<Seq<Seq<char>>>) -> LeadingGate {
    let start = blank_end(s, 0);
    if !(start + 2 <= s.len() && s[start] == '(' && s[start + 1] == '(') {
        LeadingGate::Absent
    } else {
        match parse_or(s, start + 2, features) {
            Err((kind, at)) => LeadingGate::Malformed { kind, at },
            Ok((gate, behind)) => {
                let close = blank_end(s, behind);
                if close + 2 <= s.len() && s[close] == ')' && s[close + 1] == ')' {
                    LeadingGate::Present { gate, rest_from: blank_end(s, close + 2) }
                } else {
                    LeadingGate::Malformed { kind: GateErrorKind::ExpectedGateEnd, at: close }
                }
            },
        }
    }
}

/// The first line of the message for a malformed gate; `word` is the word at the fault.
pub open spec fn gate_error_headline(kind: GateErrorKind, word: Seq<char>) -> Seq<char> {
    match kind {
        GateErrorKind::ExpectedExpression =>
            "Expected a system or feature name in the system specifier."@,
        GateErrorKind::ExpectedClosingParenthesis => "Expected ')' in the system specifier."@,
        GateErrorKind::ExpectedGateEnd => "Expected '))' at the end of the system specifier."@,
        GateErrorKind::UnknownSystem => "Unknown system name '"@ + word
            + "' in the system specifier."@,
        GateErrorKind::UnknownFeature => "Unknown feature '"@ + word
            + "' in the system specifier."@,
    }
}

/// The message for a gate of `s` that is malformed at index `at`: a headline,
/// and the text with a marker under the fault.
pub open spec fn gate_error_message(s: Seq<char>, kind: GateErrorKind, at: int) -> Seq<char> {
    gate_error_headline(kind, s.subrange(at, word_end(s, at))) + "\n"@ + pointed_at(s, s.skip(at))
}

/// Whether an executable parse result is the one that the grammar gives.
pub open spec fn agrees(
    r: Result<(SystemSpecExpressionTree, usize), (GateErrorKind, usize)>,
    parse: GateParse,
) -> bool {
    match (r, parse) {
        (Ok((tree, behind)), Ok((gate, gate_behind))) => tree@ == gate && behind == gate_behind,
        (Err((kind, at)), Err((gate_kind, gate_at))) => kind == gate_kind && at == gate_at,
        _ => false,
    }
}

/// Index just behind the word that starts at `pos`.
fn scan_word(chars: &Vec<char>, pos: usize) -> (end: usize)
    requires
        pos <= chars@.len(),
    ensures
        end == word_end(chars@, pos as int),
        pos <= end <= chars@.len(),
{
    let mut i: usize = pos;
    while i < chars.len() && !char_is_whitespace(chars[i]) && chars[i] != '(' && chars[i] != ')'
        invariant
            pos <= i <= chars@.len(),
            word_end(chars@, pos as int) == word_end(chars@, i as int),
        decreases chars@.len() - i,
    {
        i += 1;
    }
    i
}

/// The system that the characters from `from` up to `to` name.
fn system_for(chars: &Vec<char>, from: usize, to: usize) -> (r: Option<SingleSystemSpec>)
    requires
        from <= to <= chars@.len(),
    ensures
        r == system_named(chars@.subrange(from as int, to as int)),
{
    if range_is(chars, from, to, "android") {
        Some(SingleSystemSpec::Android)
    } else if range_is(chars, from, to, "windows") {
        Some(SingleSystemSpec::Windows)
    } else if range_is(chars, from, to, "linux") {
        Some(SingleSystemSpec::Linux)
    } else if range_is(chars, from, to, "macos") {
        Some(SingleSystemSpec::MacOS)
    } else if range_is(chars, from, to, "unix") {
        Some(SingleSystemSpec::Unix)
    } else if range_is(chars, from, to, "mingw") {
        Some(SingleSystemSpec::MinGW)
    } else if range_is(chars, from, to, "gcc") {
        Some(SingleSystemSpec::GCC)
    } else if range_is(chars, from, to, "clang") {
        Some(SingleSystemSpec::Clang)
    } else if range_is(chars, from, to, "msvc") {
        Some(SingleSystemSpec::MSVC)
    } else if range_is(chars, from, to, "emscripten") {
        Some(SingleSystemSpec::Emscripten)
    } else {
        None
    }
}

/// The leaf that the word from `from` up to `to` stands for.
fn make_leaf(
    text: &str,
    chars: &Vec<char>,
    from: usize,
    to: usize,
    features: Option<&Vec<&str>>,
) -> (r: Result<SystemSpecExpressionTree, GateErrorKind>)
    requires
        chars@ == text@,
        from <= to <= chars@.len(),
    ensures
        match (r, leaf_for(chars@.subrange(from as int, to as int), feature_names(features))) {
            (Ok(tree), Ok(gate)) => tree@ == gate,
            (Err(kind), Err(gate_kind)) => kind == gate_kind,
            _ => false,
        },
{
    let ghost word = chars@.subrange(from as int, to as int);
    match system_for(chars, from, to) {
        Some(system) => {
            return Ok(SystemSpecExpressionTree::Value(system));
        },
        None => {},
    }
    let prefix = chars_of("feature:");
    if to - from < prefix.len() || !range_is(chars, from, from + prefix.len(), "feature:") {
        proof {
            if "feature:"@.is_prefix_of(word) {
                assert(word.subrange(0, prefix@.len() as int) =~= chars@.subrange(
                    from as int,
                    from + prefix@.len(),
                ));
            }
        }
        return Err(GateErrorKind::UnknownSystem);
    }
    let name_from: usize = from + prefix.len();
    proof {
        assert(word.subrange(0, prefix@.len() as int) =~= chars@.subrange(
            from as int,
            from + prefix@.len(),
        ));
        assert(word.skip(prefix@.len() as int) =~= chars@.subrange(name_from as int, to as int));
    }
    let in_scope = match features {
        None => true,
        Some(names) => range_is_one_of(chars, name_from, to, names),
    };
    if name_from < to && in_scope {
        Ok(SystemSpecExpressionTree::Feature(cut(text, name_from, to)))
    } else {
        Err(GateErrorKind::UnknownFeature)
    }
}

/// Reads an operand from index `pos` on.
fn parse_unary_expression(
    text: &str,
    chars: &Vec<char>,
    pos: usize,
    features: Option<&Vec<&str>>,
) -> (r: Result<(SystemSpecExpressionTree, usize), (GateErrorKind, usize)>)
    requires
        chars@ == text@,
        pos <= chars@.len(),
    ensures
        agrees(r, parse_unary(chars@, pos as int, feature_names(features))),
        r matches Ok((_, behind)) ==> pos < behind <= chars@.len(),
        r matches Err((_, at)) ==> at <= chars@.len(),
    decreases chars@.len() - pos, 1int,
{
    let start = skip_whitespace_from(chars, pos);
    if start >= chars.len() {
        return Err((GateErrorKind::ExpectedExpression, start));
    }
    if chars[start] == '(' {
        return match parse_or_expression(text, chars, start + 1, features) {
            Err(fault) => Err(fault),
            Ok((inner, behind)) => {
                let close = skip_whitespace_from(chars, behind);
                if close < chars.len() && chars[close] == ')' {
                    Ok((inner, close + 1))
                } else {
                    Err((GateErrorKind::ExpectedClosingParenthesis, close))
                }
            },
        };
    }
    let end = scan_word(chars, start);
    if end == start {
        return Err((GateErrorKind::ExpectedExpression, start));
    }
    if range_is(chars, start, end, "not") {
        return match parse_unary_expression(text, chars, end, features) {
            Err(fault) => Err(fault),
            Ok((inner, behind)) => Ok((SystemSpecExpressionTree::Not(Box::new(inner)), behind)),
        };
    }
    match make_leaf(text, chars, start, end, features) {
        Ok(leaf) => Ok((leaf, end)),
        Err(kind) => Err((kind, start)),
    }
}

/// Reads a conjunction from index `pos` on.
fn parse_and_expression(
    text: &str,
    chars: &Vec<char>,
    pos: usize,
    features: Option<&Vec<&str>>,
) -> (r: Result<(SystemSpecExpressionTree, usize), (GateErrorKind, usize)>)
    requires
        chars@ == text@,
        pos <= chars@.len(),
    ensures
        agrees(r, parse_and(chars@, pos as int, feature_names(features))),
        r matches Ok((_, behind)) ==> pos < behind <= chars@.len(),
        r matches Err((_, at)) ==> at <= chars@.len(),
    decreases chars@.len() - pos, 2int,
{
    let (first, first_behind) = match parse_unary_expression(text, chars, pos, features) {
        Err(fault) => {
            return Err(fault);
        },
        Ok(found) => found,
    };
    let mut left = first;
    let mut behind: usize = first_behind;
    loop
        invariant
            chars@ == text@,
            pos < behind <= chars@.len(),
            parse_and(chars@, pos as int, feature_names(features)) == and_tail(
                chars@,
                left@,
                behind as int,
                feature_names(features),
            ),
        decreases chars@.len() - behind,
    {
        let start = skip_whitespace_from(chars, behind);
        let end = scan_word(chars, start);
        if end == start || !range_is(chars, start, end, "and") {
            return Ok((left, behind));
        }
        match parse_unary_expression(text, chars, end, features) {
            Err(fault) => {
                return Err(fault);
            },
            Ok((right, right_behind)) => {
                left = SystemSpecExpressionTree::And(Box::new(left), Box::new(right));
                behind = right_behind;
            },
        }
    }
}

/// Reads a disjunction from index `pos` on.
fn parse_or_expression(
    text: &str,
    chars: &Vec<char>,
    pos: usize,
    features: Option<&Vec<&str>>,
) -> (r: Result<(SystemSpecExpressionTree, usize), (GateErrorKind, usize)>)
    requires
        chars@ == text@,
        pos <= chars@.len(),
    ensures
        agrees(r, parse_or(chars@, pos as int, feature_names(features))),
        r matches Ok((_, behind)) ==> pos < behind <= chars@.len(),
        r matches Err((_, at)) ==> at <= chars@.len(),
    decreases chars@.len() - pos, 3int,
{
    let (first, first_behind) = match parse_and_expression(text, chars, pos, features) {
        Err(fault) => {
            return Err(fault);
        },
        Ok(found) => found,
    };
    let mut left = first;
    let mut behind: usize = first_behind;
    loop
        invariant
            chars@ == text@,
            pos < behind <= chars@.len(),
            parse_or(chars@, pos as int, feature_names(features)) == or_tail(
                chars@,
                left@,
                behind as int,
                feature_names(features),
            ),
        decreases chars@.len() - behind,
    {
        let start = skip_whitespace_from(chars, behind);
        let end = scan_word(chars, start);
        if end == start || !range_is(chars, start, end, "or") {
            return Ok((left, behind));
        }
        match parse_and_expression(text, chars, end, features) {
            Err(fault) => {
                return Err(fault);
            },
            Ok((right, right_behind)) => {
                left = SystemSpecExpressionTree::Or(Box::new(left), Box::new(right));
                behind = right_behind;
            },
        }
    }
}

/// Renders the message for a gate of `text` that is malformed at index `at`.
fn describe_gate_error(text: &str, chars: &Vec<char>, kind: GateErrorKind, at: usize) -> (r:
    String)
    requires
        chars@ == text@,
        at <= chars@.len(),
    ensures
        r@ == gate_error_message(text@, kind, at as int),
{
    let end = scan_word(chars, at);
    let word = text.substring_char(at, end);
    let mut out = match kind {
        GateErrorKind::ExpectedExpression => String::from_str(
            "Expected a system or feature name in the system specifier.",
        ),
        GateErrorKind::ExpectedClosingParenthesis => String::from_str(
            "Expected ')' in the system specifier.",
        ),
        GateErrorKind::ExpectedGateEnd => String::from_str(
            "Expected '))' at the end of the system specifier.",
        ),
        GateErrorKind::UnknownSystem => {
            let mut headline = String::from_str("Unknown system name '");
            headline.append(word);
            headline.append("' in the system specifier.");
            headline
        },
        GateErrorKind::UnknownFeature => {
            let mut headline = String::from_str("Unknown feature '");
            headline.append(word);
            headline.append("' in the system specifier.");
            headline
        },
    };
    out.append("\n");
    let rest = text.substring_char(at, chars.len());
    proof {
        assert(rest@ == text@.skip(at as int));
        lemma_trim_start_of_suffix(text@, at as int);
        lemma_blank_end(text@, at as int);
        lemma_suffix_occurs(text@, blank_end(text@, at as int));
    }
    let diagram = point_to_position(text, rest);
    out.append(diagram.as_str());
    out
}

/// Reads the condition at the front of `some_string`, if there is one.
///
/// `Ok(None)`: the text does not start with a gate, and is to be taken whole.
/// `Ok(Some(_))`: the condition and the text that it guards. `Err(_)`: the text
/// starts like a gate but the condition is malformed, or names a feature that is
/// not in `valid_feature_list`.
pub fn parse_leading_system_spec<'a>(
    some_string: &'a str,
    valid_feature_list: Option<&Vec<&str>>,
) -> (r: Result<Option<ParseSuccess<'a, SystemSpecifierWrapper>>, String>)
    ensures
        match leading_gate(some_string@, feature_names(valid_feature_list)) {
            LeadingGate::Absent => r == Ok::<
                Option<ParseSuccess<'a, SystemSpecifierWrapper>>,
                String,
            >(None),
            LeadingGate::Present { gate, rest_from } => {
                &&& r matches Ok(Some(success))
                &&& success.value@ == Some(gate)
                &&& 0 <= rest_from <= some_string@.len()
                &&& success.rest@ == some_string@.skip(rest_from)
            },
            LeadingGate::Malformed { kind, at } => {
                &&& r matches Err(message)
                &&& message@ == gate_error_message(some_string@, kind, at)
            },
        },
{
    let chars = chars_of(some_string);
    let start = skip_whitespace_from(&chars, 0);
    if chars.len() - start < 2 || chars[start] != '(' || chars[start + 1] != '(' {
        return Ok(None);
    }
    match parse_or_expression(some_string, &chars, start + 2, valid_feature_list) {
        Err((kind, at)) => Err(describe_gate_error(some_string, &chars, kind, at)),
        Ok((tree, behind)) => {
            let close = skip_whitespace_from(&chars, behind);
            if chars.len() - close < 2 || chars[close] != ')' || chars[close + 1] != ')' {
                return Err(
                    describe_gate_error(some_string, &chars, GateErrorKind::ExpectedGateEnd, close),
                );
            }
            let rest_from = skip_whitespace_from(&chars, close + 2);
            Ok(
                Some(
                    ParseSuccess {
                        value: SystemSpecifierWrapper::Specific(tree),
                        rest: some_string.substring_char(rest_from, chars.len()),
                    },
                ),
            )
        },
    }
}

/// Reads the condition at the front of `some_string`. A text without one is
/// taken whole, under the condition that always holds: that a text has no
/// condition is never an error.
pub fn parse_system_spec_or_default<'a>(
    some_string: &'a str,
    valid_feature_list: Option<&Vec<&str>>,
) -> (r: Result<ParseSuccess<'a, SystemSpecifierWrapper>, String>)
    ensures
        match leading_gate(some_string@, feature_names(valid_feature_list)) {
            LeadingGate::Absent => {
                &&& r matches Ok(success)
                &&& success.value@ is None
                &&& success.rest@ == some_string@
            },
            LeadingGate::Present { gate, rest_from } => {
                &&& r matches Ok(success)
                &&& success.value@ == Some(gate)
                &&& 0 <= rest_from <= some_string@.len()
                &&& success.rest@ == some_string@.skip(rest_from)
            },
            LeadingGate::Malformed { kind, at } => {
                &&& r matches Err(message)
                &&& message@ == gate_error_message(some_string@, kind, at)
            },
        },
{
    match parse_leading_system_spec(some_string, valid_feature_list) {
        Err(message) => Err(message),
        Ok(Some(success)) => Ok(success),
        Ok(None) => Ok(
            ParseSuccess { value: SystemSpecifierWrapper::default_include_all(), rest: some_string },
        ),
    }
}

} // verus!
