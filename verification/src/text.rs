//! Character classes and small string routines shared by the parsers.

use vstd::prelude::*;
use vstd::string::*;

verus! {

/// Whether `c` carries the Unicode `White_Space` property.
pub open spec fn is_whitespace(c: char) -> bool {
    let n = c as u32;
    ||| 0x09 <= n <= 0x0D
    ||| n == 0x20
    ||| n == 0x85
    ||| n == 0xA0
    ||| n == 0x1680
    ||| 0x2000 <= n <= 0x200A
    ||| n == 0x2028
    ||| n == 0x2029
    ||| n == 0x202F
    ||| n == 0x205F
    ||| n == 0x3000
}

/// Number of consecutive whitespace characters of `s` from index `pos` on.
pub open spec fn whitespace_run(s: Seq<char>, pos: int) -> nat
    decreases s.len() - pos,
{
    if 0 <= pos < s.len() && is_whitespace(s[pos]) {
        1 + whitespace_run(s, pos + 1)
    } else {
        0
    }
}

/// Index of the first character at or after `pos` that is not whitespace.
pub open spec fn blank_end(s: Seq<char>, pos: int) -> int {
    pos + whitespace_run(s, pos)
}

/// `s` without its leading whitespace.
pub open spec fn trim_start(s: Seq<char>) -> Seq<char> {
    s.skip(blank_end(s, 0))
}

/// Whether `needle` occurs in `hay` starting at index `at`.
pub open spec fn occurs_at(hay: Seq<char>, needle: Seq<char>, at: int) -> bool {
    &&& 0 <= at
    &&& at + needle.len() <= hay.len()
    &&& hay.subrange(at, at + needle.len()) == needle
}

/// Whether `needle` occurs somewhere in `hay`.
pub open spec fn occurs_in(hay: Seq<char>, needle: Seq<char>) -> bool {
    exists|at: int| occurs_at(hay, needle, at)
}

/// The blanks skipped from `pos` are whitespace, and what follows them is not.
pub proof fn lemma_blank_end(s: Seq<char>, pos: int)
    requires
        0 <= pos <= s.len(),
    ensures
        pos <= blank_end(s, pos) <= s.len(),
        forall|i: int| pos <= i < blank_end(s, pos) ==> is_whitespace(#[trigger] s[i]),
        blank_end(s, pos) < s.len() ==> !is_whitespace(s[blank_end(s, pos)]),
    decreases s.len() - pos,
{
    if pos < s.len() && is_whitespace(s[pos]) {
        lemma_blank_end(s, pos + 1);
    }
}

/// Trimming what is left of a text from `pos` on leaves what is left of it
/// from the end of the blanks on.
pub proof fn lemma_trim_start_of_suffix(s: Seq<char>, pos: int)
    requires
        0 <= pos <= s.len(),
    ensures
        trim_start(s.skip(pos)) == s.skip(blank_end(s, pos)),
        blank_end(s.skip(pos), 0) == blank_end(s, pos) - pos,
    decreases s.len() - pos,
{
    let t = s.skip(pos);
    if pos < s.len() && is_whitespace(s[pos]) {
        lemma_trim_start_of_suffix(s, pos + 1);
        lemma_blank_end(s, pos + 1);
        lemma_whitespace_run_shift(t, s, pos, 0);
    } else {
        assert(whitespace_run(t, 0) == 0);
    }
    lemma_blank_end(s, pos);
    assert(t.skip(blank_end(t, 0)) =~= s.skip(blank_end(s, pos)));
}

/// A run of whitespace is the same whether counted in `s` from `pos + k` or
/// in what is left of `s` from `pos` on, from `k`.
pub proof fn lemma_whitespace_run_shift(t: Seq<char>, s: Seq<char>, pos: int, k: int)
    requires
        0 <= pos <= s.len(),
        0 <= k,
        t == s.skip(pos),
    ensures
        whitespace_run(t, k) == whitespace_run(s, pos + k),
    decreases s.len() - pos - k,
{
    if pos + k < s.len() && is_whitespace(s[pos + k]) {
        assert(t[k] == s[pos + k]);
        lemma_whitespace_run_shift(t, s, pos, k + 1);
    } else if pos + k < s.len() {
        assert(t[k] == s[pos + k]);
    }
}

/// A suffix of a text occurs in it.
pub proof fn lemma_suffix_occurs(s: Seq<char>, pos: int)
    requires
        0 <= pos <= s.len(),
    ensures
        occurs_at(s, s.skip(pos), pos),
        occurs_in(s, s.skip(pos)),
{
    assert(s.subrange(pos, pos + s.skip(pos).len()) =~= s.skip(pos));
}

/// Executable test for the `White_Space` property.
pub fn char_is_whitespace(c: char) -> (b: bool)
    ensures
        b == is_whitespace(c),
{
    let n: u32 = c as u32;
    (0x09 <= n && n <= 0x0D) || n == 0x20 || n == 0x85 || n == 0xA0 || n == 0x1680 || (0x2000 <= n
        && n <= 0x200A) || n == 0x2028 || n == 0x2029 || n == 0x202F || n == 0x205F || n == 0x3000
}

/// The characters of a string slice, in order.
pub fn chars_of(s: &str) -> (v: Vec<char>)
    ensures
        v@ == s@,
{
    broadcast use vstd::string::group_string_axioms;

    let mut v: Vec<char> = Vec::new();
    for c in it: s.chars()
        invariant
            it.seq() == s@,
            v@ =~= s@.take(it.index() as int),
    {
        v.push(c);
    }
    v
}

/// Index of the first character of `chars` at or after `pos` that is not whitespace.
pub fn skip_whitespace_from(chars: &Vec<char>, pos: usize) -> (end: usize)
    requires
        pos <= chars@.len(),
    ensures
        end == blank_end(chars@, pos as int),
        pos <= end <= chars@.len(),
        end < chars@.len() ==> !is_whitespace(chars@[end as int]),
{
    let mut i: usize = pos;
    while i < chars.len() && char_is_whitespace(chars[i])
        invariant
            pos <= i <= chars@.len(),
            blank_end(chars@, pos as int) == blank_end(chars@, i as int),
        decreases chars@.len() - i,
    {
        i += 1;
    }
    i
}

/// Index of the first non-whitespace character of `chars` (its length if there is none).
pub fn count_leading_whitespace(chars: &Vec<char>) -> (n: usize)
    ensures
        n == blank_end(chars@, 0),
        n <= chars@.len(),
{
    skip_whitespace_from(chars, 0)
}

/// Whether two string slices hold the same characters.
pub fn str_equal(a: &str, b: &str) -> (r: bool)
    ensures
        r == (a@ == b@),
{
    let x = chars_of(a);
    let y = chars_of(b);
    chars_equal(&x, &y)
}

/// Whether two character vectors hold the same characters.
pub fn chars_equal(x: &Vec<char>, y: &Vec<char>) -> (r: bool)
    ensures
        r == (x@ == y@),
{
    if x.len() != y.len() {
        return false;
    }
    let mut i: usize = 0;
    while i < x.len()
        invariant
            i <= x@.len(),
            x@.len() == y@.len(),
            forall|j: int| 0 <= j < i ==> x@[j] == y@[j],
        decreases x@.len() - i,
    {
        if x[i] != y[i] {
            return false;
        }
        i += 1;
    }
    assert(x@ =~= y@);
    true
}

/// Whether `needle` occurs in `hay` at index `at`.
pub fn chars_occur_at(hay: &Vec<char>, needle: &Vec<char>, at: usize) -> (r: bool)
    ensures
        r == occurs_at(hay@, needle@, at as int),
{
    if at > hay.len() || needle.len() > hay.len() - at {
        return false;
    }
    let mut i: usize = 0;
    while i < needle.len()
        invariant
            i <= needle@.len(),
            at + needle@.len() <= hay@.len(),
            hay@.len() <= usize::MAX,
            forall|j: int| 0 <= j < i ==> hay@[at + j] == needle@[j],
        decreases needle@.len() - i,
    {
        if hay[at + i] != needle[i] {
            assert(hay@.subrange(at as int, at + needle@.len())[i as int] == hay@[at + i]);
            return false;
        }
        i += 1;
    }
    assert(hay@.subrange(at as int, at + needle@.len()) =~= needle@);
    true
}

/// `String::push` appends one character to the end of the string.
pub assume_specification[ String::push ](s: &mut String, c: char)
    ensures
        final(s)@ == old(s)@.push(c),
;

/// What `str::to_uppercase` makes of a text: its upper-case form by the
/// rules of Unicode, under which one character may become several.
pub uninterp spec fn uppercase_of(s: Seq<char>) -> Seq<char>;

/// Calls `str::to_uppercase`, whose result depends on the text alone.
#[verifier::external_body]
pub(crate) fn to_uppercase(s: &str) -> (r: String)
    ensures
        r@ == uppercase_of(s@),
{
    s.to_uppercase()
}

/// `s` with an underscore in place of each blank and each hyphen.
pub open spec fn with_underscores(s: Seq<char>) -> Seq<char> {
    s.map_values(
        |c: char|
            if c == ' ' || c == '-' {
                '_'
            } else {
                c
            },
    )
}

/// Puts an underscore in place of each blank and each hyphen of `s`.
pub fn underscore_separators(s: &str) -> (r: String)
    ensures
        r@ == with_underscores(s@),
{
    let chars = chars_of(s);
    let mut out = String::new();
    let mut i: usize = 0;
    while i < chars.len()
        invariant
            i <= chars@.len(),
            chars@ == s@,
            out@ == with_underscores(s@.take(i as int)),
        decreases chars@.len() - i,
    {
        let c = chars[i];
        let ghost before = out@;
        if c == ' ' || c == '-' {
            out.push('_');
        } else {
            out.push(c);
        }
        assert(out@ =~= with_underscores(s@.take(i + 1)));
        i += 1;
    }
    assert(s@.take(i as int) =~= s@);
    out
}

/// `hay` without the places where `part` occurs, found from the left, each
/// behind the one before it. An empty `part` occurs nowhere.
pub open spec fn without(hay: Seq<char>, part: Seq<char>) -> Seq<char>
    decreases hay.len(),
{
    if part.len() == 0 || hay.len() == 0 {
        hay
    } else if occurs_at(hay, part, 0) {
        without(hay.skip(part.len() as int), part)
    } else {
        seq![hay[0]] + without(hay.skip(1), part)
    }
}

/// Takes out of `text` every place where `part` occurs.
pub fn remove_all(text: &str, part: &str) -> (r: String)
    ensures
        r@ == without(text@, part@),
{
    let hay = chars_of(text);
    let needle = chars_of(part);
    if needle.len() == 0 {
        return String::from_str(text);
    }
    let mut out = String::new();
    let mut i: usize = 0;
    assert(hay@.skip(0) =~= hay@);
    assert(out@ + without(hay@, needle@) =~= without(hay@, needle@));
    while i < hay.len()
        invariant
            i <= hay@.len(),
            needle@.len() > 0,
            hay@ == text@,
            needle@ == part@,
            without(hay@, needle@) == out@ + without(hay@.skip(i as int), needle@),
        decreases hay@.len() - i,
    {
        let ghost rest = hay@.skip(i as int);
        let ghost so_far = out@;
        if chars_occur_at(&hay, &needle, i) {
            proof {
                assert(rest.subrange(0, needle@.len() as int) =~= hay@.subrange(
                    i as int,
                    i + needle@.len(),
                ));
                assert(occurs_at(rest, needle@, 0));
                assert(rest.skip(needle@.len() as int) =~= hay@.skip(i + needle@.len()));
            }
            i += needle.len();
        } else {
            proof {
                if occurs_at(rest, needle@, 0) {
                    assert(rest.subrange(0, needle@.len() as int) =~= hay@.subrange(
                        i as int,
                        i + needle@.len(),
                    ));
                }
                assert(rest.skip(1) =~= hay@.skip(i + 1));
                assert(rest[0] == hay@[i as int]);
            }
            out.push(hay[i]);
            assert(out@ + without(hay@.skip(i + 1), needle@) =~= so_far + (seq![hay@[i as int]]
                + without(hay@.skip(i + 1), needle@)));
            i += 1;
        }
    }
    assert(out@ + without(hay@.skip(i as int), needle@) =~= out@);
    out
}

/// Whether the characters of `chars` from `from` up to `to` spell `literal`.
pub fn range_is(chars: &Vec<char>, from: usize, to: usize, literal: &str) -> (r: bool)
    requires
        from <= to <= chars@.len(),
    ensures
        r == (chars@.subrange(from as int, to as int) == literal@),
{
    let wanted = chars_of(literal);
    if wanted.len() != to - from {
        return false;
    }
    chars_occur_at(chars, &wanted, from)
}

/// The characters of `text` from `from` up to `to`, as an owned string.
pub fn cut(text: &str, from: usize, to: usize) -> (r: String)
    requires
        from <= to <= text@.len(),
    ensures
        r@ == text@.subrange(from as int, to as int),
{
    String::from_str(text.substring_char(from, to))
}

/// The views of a list of strings.
pub open spec fn strings_of(list: Seq<String>) -> Seq<Seq<char>> {
    list.map_values(|name: String| name@)
}

/// The view of a text that may be absent.
pub open spec fn maybe_text(text: Option<String>) -> Option<Seq<char>> {
    match text {
        Some(given) => Some(given@),
        None => None,
    }
}

/// A copy of a text that may be absent.
pub fn copy_text(text: &Option<String>) -> (r: Option<String>)
    ensures
        maybe_text(r) == maybe_text(*text),
{
    match text {
        Some(given) => Some(given.clone()),
        None => None,
    }
}

/// Whether `name` is one of `list`.
pub fn list_contains(list: &Vec<String>, name: &str) -> (r: bool)
    ensures
        r == strings_of(list@).contains(name@),
{
    let mut i: usize = 0;
    while i < list.len()
        invariant
            i <= list@.len(),
            forall|j: int| 0 <= j < i ==> strings_of(list@)[j] != name@,
        decreases list@.len() - i,
    {
        if str_equal(list[i].as_str(), name) {
            assert(strings_of(list@)[i as int] == name@);
            return true;
        }
        i += 1;
    }
    false
}

/// The views of a list of string slices.
pub open spec fn names_of(list: Seq<&str>) -> Seq<Seq<char>> {
    list.map_values(|name: &str| name@)
}

/// Whether the characters of `chars` from `from` up to `to` spell one of `list`.
pub fn range_is_one_of(chars: &Vec<char>, from: usize, to: usize, list: &Vec<&str>) -> (r: bool)
    requires
        from <= to <= chars@.len(),
    ensures
        r == names_of(list@).contains(chars@.subrange(from as int, to as int)),
{
    let ghost word = chars@.subrange(from as int, to as int);
    let mut i: usize = 0;
    while i < list.len()
        invariant
            i <= list@.len(),
            from <= to <= chars@.len(),
            word == chars@.subrange(from as int, to as int),
            forall|j: int| 0 <= j < i ==> names_of(list@)[j] != word,
        decreases list@.len() - i,
    {
        if range_is(chars, from, to, list[i]) {
            assert(names_of(list@)[i as int] == word);
            return true;
        }
        i += 1;
    }
    false
}

} // verus!
