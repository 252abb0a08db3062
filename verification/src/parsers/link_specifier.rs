//! Link specifiers: `target`, `namespace::target` or `namespace::{ a, b }`,
//! optionally behind a system specifier.

use crate::parsers::general_parser::{
    alternation_stops_at, alternatives_parse, pointed_at, point_to_position, ParseError,
    ParseResult, ParseSuccess, Parser,
};
use crate::parsers::system_specifier::{
    feature_names, gate_error_message, leading_gate, parse_system_spec_or_default,
    GateExpression, LeadingGate, SystemSpecifierWrapper,
};
use crate::text::{
    blank_end, char_is_whitespace, chars_of, cut, is_whitespace, lemma_blank_end,
    lemma_suffix_occurs, lemma_trim_start_of_suffix, skip_whitespace_from, strings_of,
};
use crate::validators::{is_valid_target_name, name_accepted};
use vstd::prelude::*;
use vstd::string::*;

verus! {

/// Who wrote a link specifier: a configuration author, or this tool itself.
/// Names in a specifier of the tool's own are not validated.
#[derive(Clone, Copy, Debug, PartialEq, Eq, Structural)]
pub enum LinkAccessMode {
    UserFacing,
    Internal,
}

/// The three shapes of a link specifier, in the order in which they are tried.
#[derive(Clone, Copy, Debug, PartialEq, Eq, Structural)]
pub enum LinkForm {
    NamespacedSet,
    NamespacedSingle,
    Bare,
}

/// What is wrong with a text that has the shape of a link specifier.
#[derive(Clone, Copy, Debug, PartialEq, Eq, Structural)]
pub enum LinkFaultKind {
    ExpectedTargetName,
    ExpectedCommaOrBrace,
    UnexpectedText,
}

/// A fault and the index of the character at which it was found.
#[derive(Clone, Copy, Debug, PartialEq, Eq, Structural)]
pub struct LinkFault {
    pub kind: LinkFaultKind,
    pub at: usize,
}

/// The names that a link specifier holds.
#[derive(Debug, Clone, PartialEq, Eq)]
pub struct LinkTargets {
    pub namespace: Option<String>,
    pub target_names: Vec<String>,
}

/// The mathematical form of `LinkTargets`.
pub ghost struct LinkTargetsModel {
    pub namespace: Option<Seq<char>>,
    pub targets: Seq<Seq<char>>,
}

impl View for LinkTargets {
    type V = LinkTargetsModel;

    open spec fn view(&self) -> LinkTargetsModel {
        LinkTargetsModel {
            namespace: match self.namespace {
                Some(name) => Some(name@),
                None => None,
            },
            targets: strings_of(self.target_names@),
        }
    }
}

/// Whether `c` can be part of a name: anything but whitespace and the
/// punctuation of the specifier languages.
pub open spec fn is_name_char(c: char) -> bool {
    !is_whitespace(c) && c != ':' && c != '{' && c != '}' && c != ',' && c != '(' && c != ')'
}

/// Number of consecutive name characters of `s` from index `pos` on.
pub open spec fn name_run(s: Seq<char>, pos: int) -> nat
    decreases s.len() - pos,
{
    if 0 <= pos < s.len() && is_name_char(s[pos]) {
        1 + name_run(s, pos + 1)
    } else {
        0
    }
}

/// Index just behind the name that starts at `pos`.
pub open spec fn name_end(s: Seq<char>, pos: int) -> int {
    pos + name_run(s, pos)
}

/// Whether `::` stands at index `pos`.
pub open spec fn separator_at(s: Seq<char>, pos: int) -> bool {
    0 <= pos && pos + 2 <= s.len() && s[pos] == ':' && s[pos + 1] == ':'
}

/// What one shape of link specifier makes of a whole text.
pub ghost enum FormOutcome {
    Matched(LinkTargetsModel),
    NotMatched,
    Invalid(LinkFaultKind, int),
}

/// A lone target name, with blanks around it at most.
pub open spec fn bare_form(s: Seq<char>) -> FormOutcome {
    let start = blank_end(s, 0);
    let end = name_end(s, start);
    if !(start < end) {
        FormOutcome::NotMatched
    } else if blank_end(s, end) == s.len() {
        FormOutcome::Matched(
            LinkTargetsModel { namespace: None, targets: seq![s.subrange(start, end)] },
        )
    } else {
        FormOutcome::Invalid(LinkFaultKind::UnexpectedText, blank_end(s, end))
    }
}

/// A namespace, `::` and one target name.
pub open spec fn namespaced_single_form(s: Seq<char>) -> FormOutcome {
    let start = blank_end(s, 0);
    let end = name_end(s, start);
    let separator = blank_end(s, end);
    if !(start < end && separator_at(s, separator)) {
        FormOutcome::NotMatched
    } else {
        let target = blank_end(s, separator + 2);
        let target_end = name_end(s, target);
        if !(target < target_end) {
            FormOutcome::Invalid(LinkFaultKind::ExpectedTargetName, target)
        } else if blank_end(s, target_end) == s.len() {
            FormOutcome::Matched(
                LinkTargetsModel {
                    namespace: Some(s.subrange(start, end)),
                    targets: seq![s.subrange(target, target_end)],
                },
            )
        } else {
            FormOutcome::Invalid(LinkFaultKind::UnexpectedText, blank_end(s, target_end))
        }
    }
}

/// The names of a braced set from index `pos` on, added to `found`, and the
/// index behind the closing brace. Names are separated by commas; a comma may
/// follow the last name; the set holds one name at least.
pub open spec fn name_items(s: Seq<char>, pos: int, found: Seq<Seq<char>>) -> Result<
    (Seq<Seq<char>>, int),
    (LinkFaultKind, int),
>
    decreases s.len() - pos,
{
    let start = blank_end(s, pos);
    let end = name_end(s, start);
    if !(start < end) {
        if found.len() > 0 && start < s.len() && s[start] == '}' {
            Ok((found, start + 1))
        } else {
            Err((LinkFaultKind::ExpectedTargetName, start))
        }
    } else {
        let next = blank_end(s, end);
        if pos <= next < s.len() && s[next] == ',' {
            name_items(s, next + 1, found.push(s.subrange(start, end)))
        } else if next < s.len() && s[next] == '}' {
            Ok((found.push(s.subrange(start, end)), next + 1))
        } else {
            Err((LinkFaultKind::ExpectedCommaOrBrace, next))
        }
    }
}

/// A namespace, `::` and a set of target names in braces.
pub open spec fn namespaced_set_form(s: Seq<char>) -> FormOutcome {
    let start = blank_end(s, 0);
    let end = name_end(s, start);
    let separator = blank_end(s, end);
    let brace = blank_end(s, separator + 2);
    if !(start < end && separator_at(s, separator) && brace < s.len() && s[brace] == '{') {
        FormOutcome::NotMatched
    } else {
        match name_items(s, brace + 1, Seq::empty()) {
            Err((kind, at)) => FormOutcome::Invalid(kind, at),
            Ok((targets, behind)) => if blank_end(s, behind) == s.len() {
                FormOutcome::Matched(
                    LinkTargetsModel { namespace: Some(s.subrange(start, end)), targets },
                )
            } else {
                FormOutcome::Invalid(LinkFaultKind::UnexpectedText, blank_end(s, behind))
            },
        }
    }
}

/// What the shape `form` makes of the text `s`.
pub open spec fn form_outcome(form: LinkForm, s: Seq<char>) -> FormOutcome {
    match form {
        LinkForm::NamespacedSet => namespaced_set_form(s),
        LinkForm::NamespacedSingle => namespaced_single_form(s),
        LinkForm::Bare => bare_form(s),
    }
}

/// What the three shapes, tried in order, make of the text `s`: the outcome
/// of the first shape that the text has.
pub open spec fn link_targets(s: Seq<char>) -> FormOutcome {
    if namespaced_set_form(s) != FormOutcome::NotMatched {
        namespaced_set_form(s)
    } else if namespaced_single_form(s) != FormOutcome::NotMatched {
        namespaced_single_form(s)
    } else {
        bare_form(s)
    }
}

/// Whether a parse result says what `outcome` says.
pub open spec fn describes<'a>(
    r: ParseResult<'a, LinkTargets, LinkFault>,
    outcome: FormOutcome,
) -> bool {
    match outcome {
        FormOutcome::Matched(model) => {
            &&& r matches Ok(Some(success))
            &&& success.value@ == model
            &&& success.rest@ == Seq::<char>::empty()
        },
        FormOutcome::NotMatched => r == Ok::<
            Option<ParseSuccess<'a, LinkTargets>>,
            ParseError<LinkFault>,
        >(None),
        FormOutcome::Invalid(kind, at) => {
            &&& r matches Err(ParseError::Custom(fault))
            &&& fault.kind == kind
            &&& fault.at == at
        },
    }
}

/// Index just behind the name that starts at `pos`.
fn scan_name(chars: &Vec<char>, pos: usize) -> (end: usize)
    requires
        pos <= chars@.len(),
    ensures
        end == name_end(chars@, pos as int),
        pos <= end <= chars@.len(),
{
    let mut i: usize = pos;
    while i < chars.len() && !char_is_whitespace(chars[i]) && chars[i] != ':' && chars[i] != '{'
        && chars[i] != '}' && chars[i] != ',' && chars[i] != '(' && chars[i] != ')'
        invariant
            pos <= i <= chars@.len(),
            name_end(chars@, pos as int) == name_end(chars@, i as int),
        decreases chars@.len() - i,
    {
        i += 1;
    }
    i
}

/// Whether `::` stands at index `pos`.
fn has_separator_at(chars: &Vec<char>, pos: usize) -> (r: bool)
    requires
        pos <= chars@.len(),
    ensures
        r == separator_at(chars@, pos as int),
{
    chars.len() - pos >= 2 && chars[pos] == ':' && chars[pos + 1] == ':'
}

/// Index of the first character behind the `::` at `separator` that is not whitespace.
fn skip_separator(chars: &Vec<char>, separator: usize) -> (behind: usize)
    requires
        separator_at(chars@, separator as int),
    ensures
        behind == blank_end(chars@, separator + 2),
        separator + 2 <= behind <= chars@.len(),
{
    let total: usize = chars.len();
    skip_whitespace_from(chars, separator + 2)
}

/// The result for a text that is taken whole.
fn matched<'a>(text: &'a str, chars: &Vec<char>, namespace: Option<String>, target_names: Vec<String>) -> (r:
    ParseResult<'a, LinkTargets, LinkFault>)
    requires
        chars@ == text@,
    ensures
        r matches Ok(Some(success)) && success.value.namespace == namespace
            && success.value.target_names == target_names && success.rest@ == Seq::<
            char,
        >::empty(),
{
    Ok(
        Some(
            ParseSuccess {
                value: LinkTargets { namespace, target_names },
                rest: text.substring_char(chars.len(), chars.len()),
            },
        ),
    )
}

/// The result for a text that has a shape but is malformed at index `at`.
fn invalid<'a>(kind: LinkFaultKind, at: usize) -> (r: ParseResult<'a, LinkTargets, LinkFault>)
    ensures
        r matches Err(ParseError::Custom(fault)) && fault.kind == kind && fault.at == at,
{
    Err(ParseError::Custom(LinkFault { kind, at }))
}

/// Reads a lone target name.
fn parse_bare<'a>(text: &'a str, chars: &Vec<char>) -> (r: ParseResult<'a, LinkTargets, LinkFault>)
    requires
        chars@ == text@,
    ensures
        describes(r, bare_form(chars@)),
        r matches Err(ParseError::Custom(fault)) ==> fault.at <= chars@.len(),
{
    let start = skip_whitespace_from(chars, 0);
    let end = scan_name(chars, start);
    if end == start {
        return Ok(None);
    }
    let behind = skip_whitespace_from(chars, end);
    if behind != chars.len() {
        return invalid(LinkFaultKind::UnexpectedText, behind);
    }
    let mut target_names: Vec<String> = Vec::new();
    target_names.push(cut(text, start, end));
    assert(strings_of(target_names@) =~= seq![chars@.subrange(start as int, end as int)]);
    matched(text, chars, None, target_names)
}

/// Reads a namespace, `::` and one target name.
fn parse_namespaced_single<'a>(text: &'a str, chars: &Vec<char>) -> (r: ParseResult<
    'a,
    LinkTargets,
    LinkFault,
>)
    requires
        chars@ == text@,
    ensures
        describes(r, namespaced_single_form(chars@)),
        r matches Err(ParseError::Custom(fault)) ==> fault.at <= chars@.len(),
{
    let start = skip_whitespace_from(chars, 0);
    let end = scan_name(chars, start);
    let separator = skip_whitespace_from(chars, end);
    if end == start || !has_separator_at(chars, separator) {
        return Ok(None);
    }
    let target = skip_separator(chars, separator);
    let target_end = scan_name(chars, target);
    if target_end == target {
        return invalid(LinkFaultKind::ExpectedTargetName, target);
    }
    let behind = skip_whitespace_from(chars, target_end);
    if behind != chars.len() {
        return invalid(LinkFaultKind::UnexpectedText, behind);
    }
    let mut target_names: Vec<String> = Vec::new();
    target_names.push(cut(text, target, target_end));
    assert(strings_of(target_names@) =~= seq![
        chars@.subrange(target as int, target_end as int),
    ]);
    matched(text, chars, Some(cut(text, start, end)), target_names)
}

/// Reads a namespace, `::` and a set of target names in braces.
#[verifier::loop_isolation(false)]
fn parse_namespaced_set<'a>(text: &'a str, chars: &Vec<char>) -> (r: ParseResult<
    'a,
    LinkTargets,
    LinkFault,
>)
    requires
        chars@ == text@,
    ensures
        describes(r, namespaced_set_form(chars@)),
        r matches Err(ParseError::Custom(fault)) ==> fault.at <= chars@.len(),
{
    let start = skip_whitespace_from(chars, 0);
    let end = scan_name(chars, start);
    let separator = skip_whitespace_from(chars, end);
    if end == start || !has_separator_at(chars, separator) {
        return Ok(None);
    }
    let brace = skip_separator(chars, separator);
    if brace >= chars.len() || chars[brace] != '{' {
        return Ok(None);
    }
    let mut target_names: Vec<String> = Vec::new();
    let mut pos: usize = brace + 1;
    let mut closed = false;
    assert(strings_of(target_names@) =~= Seq::<Seq<char>>::empty());
    while !closed
        invariant
            brace < pos <= chars@.len(),
            !closed ==> name_items(chars@, brace + 1, Seq::empty()) == name_items(
                chars@,
                pos as int,
                strings_of(target_names@),
            ),
            closed ==> name_items(chars@, brace + 1, Seq::empty()) == Ok::<
                (Seq<Seq<char>>, int),
                (LinkFaultKind, int),
            >((strings_of(target_names@), pos as int)),
        decreases chars@.len() - pos + (if closed { 0int } else { 1int }),
    {
        let name_start = skip_whitespace_from(chars, pos);
        let name_end = scan_name(chars, name_start);
        assert(strings_of(target_names@).len() == target_names@.len());
        if name_end == name_start {
            if target_names.len() > 0 && name_start < chars.len() && chars[name_start] == '}' {
                pos = name_start + 1;
                closed = true;
            } else {
                return invalid(LinkFaultKind::ExpectedTargetName, name_start);
            }
        } else {
            let next = skip_whitespace_from(chars, name_end);
            if next >= chars.len() || (chars[next] != ',' && chars[next] != '}') {
                return invalid(LinkFaultKind::ExpectedCommaOrBrace, next);
            }
            let ghost before = strings_of(target_names@);
            target_names.push(cut(text, name_start, name_end));
            assert(strings_of(target_names@) =~= before.push(
                chars@.subrange(name_start as int, name_end as int),
            ));
            pos = next + 1;
            closed = chars[next] == '}';
        }
    }
    let behind = skip_whitespace_from(chars, pos);
    if behind != chars.len() {
        return invalid(LinkFaultKind::UnexpectedText, behind);
    }
    matched(text, chars, Some(cut(text, start, end)), target_names)
}

/// A parser for one shape of link specifier. It takes the whole text or none of it.
pub struct LinkFormParser {
    pub form: LinkForm,
}

impl<'a> Parser<'a, LinkTargets, LinkFault> for LinkFormParser {
    open spec fn yields(&self, s: &'a str, r: ParseResult<'a, LinkTargets, LinkFault>) -> bool {
        &&& describes(r, form_outcome(self.form, s@))
        &&& r matches Err(ParseError::Custom(fault)) ==> fault.at <= s@.len()
    }

    fn parse(&self, s: &'a str) -> (r: ParseResult<'a, LinkTargets, LinkFault>) {
        let chars = chars_of(s);
        match self.form {
            LinkForm::NamespacedSet => parse_namespaced_set(s, &chars),
            LinkForm::NamespacedSingle => parse_namespaced_single(s, &chars),
            LinkForm::Bare => parse_bare(s, &chars),
        }
    }
}

/// One reference to link targets: an optional namespace, the names of one or
/// more targets in it, and the condition under which the link applies.
#[derive(Debug, PartialEq, Eq)]
pub struct LinkSpecifier {
    original_spec_str: String,
    namespace: Option<String>,
    target_names: Vec<String>,
    access_mode: LinkAccessMode,
    system_spec: SystemSpecifierWrapper,
}

/// The mathematical form of a link specifier.
pub ghost struct LinkModel {
    pub original: Seq<char>,
    pub namespace: Option<Seq<char>>,
    pub targets: Seq<Seq<char>>,
    pub mode: LinkAccessMode,
    pub gate: Option<GateExpression>,
}

impl View for LinkSpecifier {
    type V = LinkModel;

    closed spec fn view(&self) -> LinkModel {
        LinkModel {
            original: self.original_spec_str@,
            namespace: match self.namespace {
                Some(name) => Some(name@),
                None => None,
            },
            targets: strings_of(self.target_names@),
            mode: self.access_mode,
            gate: self.system_spec@,
        }
    }
}

/// The first of `names` that is not accepted, if there is one.
pub open spec fn first_unaccepted(names: Seq<Seq<char>>) -> Option<Seq<char>>
    decreases names.len(),
{
    if names.len() == 0 {
        None
    } else if !name_accepted(names[0]) {
        Some(names[0])
    } else {
        first_unaccepted(names.drop_first())
    }
}

/// The first name of `targets` that is not accepted, the namespace coming first.
pub open spec fn first_unaccepted_name(targets: LinkTargetsModel) -> Option<Seq<char>> {
    match targets.namespace {
        Some(namespace) if !name_accepted(namespace) => Some(namespace),
        _ => first_unaccepted(targets.targets),
    }
}

/// The message for a text that has none of the shapes of a link specifier.
pub open spec fn no_link_message(full: Seq<char>) -> Seq<char> {
    "Expected a link target in \""@ + full + "\"."@
}

/// The message for a name that configuration authors may not use.
pub open spec fn invalid_name_message(name: Seq<char>) -> Seq<char> {
    "\""@ + name
        + "\" is not a valid name in a link specifier. Names may hold letters, digits, '-' and '_' only."@
}

/// The first line of the message for a malformed link specifier.
pub open spec fn link_fault_headline(kind: LinkFaultKind) -> Seq<char> {
    match kind {
        LinkFaultKind::ExpectedTargetName => "Expected a target name in the link specifier."@,
        LinkFaultKind::ExpectedCommaOrBrace => "Expected ',' or '}' in the set of link targets."@,
        LinkFaultKind::UnexpectedText => "Unexpected text behind the link target."@,
    }
}

/// The message for a link specifier `full` whose part `rest` is malformed at
/// index `at`: a headline, and the specifier with a marker under the fault.
pub open spec fn link_fault_message(
    full: Seq<char>,
    rest: Seq<char>,
    kind: LinkFaultKind,
    at: int,
) -> Seq<char> {
    link_fault_headline(kind) + "\n"@ + pointed_at(full, rest.skip(at))
}

/// What the link text `rest` of the specifier `full`, found under the condition
/// `gate`, comes to.
pub open spec fn link_behind_gate(
    full: Seq<char>,
    rest: Seq<char>,
    gate: Option<GateExpression>,
    mode: LinkAccessMode,
) -> Result<LinkModel, Seq<char>> {
    match link_targets(rest) {
        FormOutcome::NotMatched => Err(no_link_message(full)),
        FormOutcome::Invalid(kind, at) => Err(link_fault_message(full, rest, kind, at)),
        FormOutcome::Matched(targets) => if mode == LinkAccessMode::UserFacing
            && first_unaccepted_name(targets) is Some {
            Err(invalid_name_message(first_unaccepted_name(targets)->0))
        } else {
            Ok(
                LinkModel {
                    original: full,
                    namespace: targets.namespace,
                    targets: targets.targets,
                    mode,
                    gate,
                },
            )
        },
    }
}

/// What the text `s` comes to as a link specifier: the specifier, or the
/// message that refuses it.
pub open spec fn parse_link(
    s: Seq<char>,
    mode: LinkAccessMode,
    features: Option<Seq<Seq<char>>>,
) -> Result<LinkModel, Seq<char>> {
    match leading_gate(s, features) {
        LeadingGate::Malformed { kind, at } => Err(gate_error_message(s, kind, at)),
        LeadingGate::Absent => link_behind_gate(s, s, None, mode),
        LeadingGate::Present { gate, rest_from } => link_behind_gate(
            s,
            s.skip(rest_from),
            Some(gate),
            mode,
        ),
    }
}

/// Renders the message for a link specifier `full` whose part `rest` is
/// malformed at the index that `fault` gives.
fn describe_link_fault(full: &str, rest: &str, fault: LinkFault, Ghost(offset): Ghost<int>) -> (r:
    String)
    requires
        0 <= offset <= full@.len(),
        rest@ == full@.skip(offset),
        fault.at <= rest@.len(),
    ensures
        r@ == link_fault_message(full@, rest@, fault.kind, fault.at as int),
{
    let mut out = match fault.kind {
        LinkFaultKind::ExpectedTargetName => String::from_str(
            "Expected a target name in the link specifier.",
        ),
        LinkFaultKind::ExpectedCommaOrBrace => String::from_str(
            "Expected ',' or '}' in the set of link targets.",
        ),
        LinkFaultKind::UnexpectedText => String::from_str(
            "Unexpected text behind the link target.",
        ),
    };
    out.append("\n");
    let total = rest.unicode_len();
    let from = rest.substring_char(fault.at, total);
    proof {
        let place = offset + fault.at;
        assert(from@ =~= full@.skip(place));
        lemma_trim_start_of_suffix(full@, place);
        lemma_blank_end(full@, place);
        lemma_suffix_occurs(full@, blank_end(full@, place));
    }
    let diagram = point_to_position(full, from);
    out.append(diagram.as_str());
    out
}

/// The first of `names` that is not accepted.
fn find_unaccepted(names: &Vec<String>) -> (r: Option<usize>)
    ensures
        match r {
            Some(i) => i < names@.len() && first_unaccepted(strings_of(names@)) == Some(
                names@[i as int]@,
            ),
            None => first_unaccepted(strings_of(names@)) is None,
        },
{
    let ghost all = strings_of(names@);
    let mut i: usize = 0;
    assert(all.skip(0) =~= all);
    while i < names.len()
        invariant
            i <= names@.len(),
            all == strings_of(names@),
            first_unaccepted(all) == first_unaccepted(all.skip(i as int)),
        decreases names@.len() - i,
    {
        assert(all.skip(i as int)[0] == names@[i as int]@);
        if !is_valid_target_name(names[i].as_str()) {
            return Some(i);
        }
        assert(all.skip(i as int).drop_first() =~= all.skip(i + 1));
        i += 1;
    }
    None
}

impl LinkSpecifier {
    /// Reads a link specifier. With `LinkAccessMode::UserFacing` the
    /// namespace and the target names must be valid target names; a feature
    /// named in the condition must be one of `valid_feature_list`, where a list is given.
    pub fn parse_from(
        link_spec: &str,
        access_mode: LinkAccessMode,
        valid_feature_list: Option<&Vec<&str>>,
    ) -> (r: Result<LinkSpecifier, String>)
        ensures
            match parse_link(link_spec@, access_mode, feature_names(valid_feature_list)) {
                Ok(model) => r matches Ok(link) && link@ == model,
                Err(message) => r matches Err(given) && given@ == message,
            },
    {
        let (system_spec, rest): (SystemSpecifierWrapper, &str) =
            match parse_system_spec_or_default(link_spec, valid_feature_list) {
            Err(message) => {
                return Err(message);
            },
            Ok(success) => (success.value, success.rest),
        };
        let ghost offset: int = match leading_gate(
            link_spec@,
            feature_names(valid_feature_list),
        ) {
            LeadingGate::Present { rest_from, .. } => rest_from,
            _ => 0,
        };
        assert(rest@ =~= link_spec@.skip(offset));
        let set = LinkFormParser { form: LinkForm::NamespacedSet };
        let single = LinkFormParser { form: LinkForm::NamespacedSingle };
        let bare = LinkFormParser { form: LinkForm::Bare };
        let mut forms: Vec<&LinkFormParser> = Vec::new();
        forms.push(&set);
        forms.push(&single);
        forms.push(&bare);
        let outcome = alternatives_parse(rest, forms);
        proof {
            let k = choose|k: int| alternation_stops_at(forms@, rest, outcome, k);
            assert(forms@[0].form == LinkForm::NamespacedSet);
            assert(forms@[1].form == LinkForm::NamespacedSingle);
            assert(forms@[2].form == LinkForm::Bare);
            if k > 0 {
                assert(forms@[0].yields(rest, Ok(None)));
            }
            if k > 1 {
                assert(forms@[1].yields(rest, Ok(None)));
            }
            if k > 2 {
                assert(forms@[2].yields(rest, Ok(None)));
            }
            if k < 3 {
                assert(forms@[k].yields(rest, outcome));
            }
            assert(describes(outcome, link_targets(rest@)));
        }
        match outcome {
            Ok(None) => {
                let mut message = String::from_str("Expected a link target in \"");
                message.append(link_spec);
                message.append("\".");
                Err(message)
            },
            Err(ParseError::Custom(fault)) => Err(
                describe_link_fault(link_spec, rest, fault, Ghost(offset)),
            ),
            Err(_) => {
                proof {
                    assert(false);
                }
                Err(String::from_str(""))
            },
            Ok(Some(success)) => {
                let targets = success.value;
                if access_mode == LinkAccessMode::UserFacing {
                    match &targets.namespace {
                        Some(namespace) => {
                            if !is_valid_target_name(namespace.as_str()) {
                                return Err(describe_invalid_name(namespace.as_str()));
                            }
                        },
                        None => {},
                    }
                    match find_unaccepted(&targets.target_names) {
                        Some(i) => {
                            return Err(describe_invalid_name(targets.target_names[i].as_str()));
                        },
                        None => {},
                    }
                }
                Ok(
                    LinkSpecifier {
                        original_spec_str: String::from_str(link_spec),
                        namespace: targets.namespace,
                        target_names: targets.target_names,
                        access_mode,
                        system_spec,
                    },
                )
            },
        }
    }

    /// The text that the specifier was read from.
    pub fn get_original_spec_str(&self) -> (r: &str)
        ensures
            r@ == self@.original,
    {
        self.original_spec_str.as_str()
    }

    /// The namespace, if the specifier has one.
    pub fn get_namespace(&self) -> (r: &Option<String>)
        ensures
            match *r {
                Some(name) => self@.namespace == Some(name@),
                None => self@.namespace is None,
            },
    {
        &self.namespace
    }

    /// The target names, in the order in which they were written.
    pub fn get_target_names(&self) -> (r: &Vec<String>)
        ensures
            strings_of(r@) == self@.targets,
    {
        &self.target_names
    }

    /// Who wrote the specifier.
    pub fn get_access_mode(&self) -> (r: LinkAccessMode)
        ensures
            r == self@.mode,
    {
        self.access_mode
    }

    /// The condition under which the link applies.
    pub fn get_system_spec(&self) -> (r: &SystemSpecifierWrapper)
        ensures
            r@ == self@.gate,
    {
        &self.system_spec
    }
}

/// Renders the message for a name that configuration authors may not use.
fn describe_invalid_name(name: &str) -> (r: String)
    ensures
        r@ == invalid_name_message(name@),
{
    let mut message = String::from_str("\"");
    message.append(name);
    message.append(
        "\" is not a valid name in a link specifier. Names may hold letters, digits, '-' and '_' only.",
    );
    message
}

} // verus!
