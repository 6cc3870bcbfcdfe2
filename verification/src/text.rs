//! Character-level text handling: conversion, whitespace, trimming, and splitting into lines
//! and at commas.
//!
//! Every function here works on the characters of a string (its view, a `Seq<char>`),
//! so that contracts elsewhere can speak of trimmed lines exactly.

use vstd::prelude::*;

verus! {

/// The characters of `s`, in order.
pub fn chars_of(s: &str) -> (v: Vec<char>)
    ensures
        v@ == s@,
{
    let mut v: Vec<char> = Vec::new();
    for c in it: s.chars()
        invariant
            v@ == it.seq().take(it.index() as int),
    {
        v.push(c);
    }
    v
}

/// Whether the two character sequences are equal.
pub fn chars_equal(a: &Vec<char>, b: &Vec<char>) -> (r: bool)
    ensures
        r == (a@ == b@),
{
    if a.len() != b.len() {
        return false;
    }
    let mut i: usize = 0;
    while i < a.len()
        invariant
            a@.len() == b@.len(),
            i <= a@.len(),
            forall|k: int| 0 <= k < i ==> a@[k] == b@[k],
        decreases a@.len() - i,
    {
        if a[i] != b[i] {
            return false;
        }
        i = i + 1;
    }
    assert(a@ =~= b@);
    true
}

/// Whether the two strings hold the same characters.
pub fn str_equals(a: &str, b: &str) -> (r: bool)
    ensures
        r == (a@ == b@),
{
    let va = chars_of(a);
    let vb = chars_of(b);
    chars_equal(&va, &vb)
}

/// The characters of each string of `v`.
pub open spec fn strings_view(v: Seq<String>) -> Seq<Seq<char>> {
    v.map_values(|s: String| s@)
}

/// Appends `s` to `v`.
pub fn push_string(v: &mut Vec<String>, s: String)
    ensures
        strings_view(final(v)@) == strings_view(old(v)@).push(s@),
{
    v.push(s);
    assert(strings_view(final(v)@) =~= strings_view(old(v)@).push(s@));
}

/// The characters `s[from..to]` as an owned string.
pub fn substring(s: &str, from: usize, to: usize) -> (r: String)
    requires
        from <= to <= s@.len(),
    ensures
        r@ == s@.subrange(from as int, to as int),
{
    s.substring_char(from, to).to_owned()
}

/// Unicode `White_Space`: the characters that `char::is_whitespace` accepts.
pub open spec fn is_white_space(c: char) -> bool {
    let n = c as u32;
    ||| 0x09 <= n <= 0x0D
    ||| n == 0x20
    ||| n == 0x85
    ||| n == 0xA0
    ||| n == 0x1680
    ||| 0x2000 <= n <= 0x200A
    ||| n == 0x2028
    ||| n == 0x2029
    ||| n == 0x202F
    ||| n == 0x205F
    ||| n == 0x3000
}

/// Whether `c` is a white-space character.
pub fn is_white_space_char(c: char) -> (r: bool)
    ensures
        r == is_white_space(c),
{
    let n = c as u32;
    (0x09 <= n && n <= 0x0D) || n == 0x20 || n == 0x85 || n == 0xA0 || n == 0x1680 || (0x2000 <= n
        && n <= 0x200A) || n == 0x2028 || n == 0x2029 || n == 0x202F || n == 0x205F || n == 0x3000
}

/// `s` without its leading white space.
pub open spec fn trim_start(s: Seq<char>) -> Seq<char>
    decreases s.len(),
{
    if s.len() > 0 && is_white_space(s[0]) {
        trim_start(s.drop_first())
    } else {
        s
    }
}

/// `s` without its trailing white space.
pub open spec fn trim_end(s: Seq<char>) -> Seq<char>
    decreases s.len(),
{
    if s.len() > 0 && is_white_space(s.last()) {
        trim_end(s.drop_last())
    } else {
        s
    }
}

/// `s` without leading and trailing white space (what `str::trim` returns).
pub open spec fn trim(s: Seq<char>) -> Seq<char> {
    trim_end(trim_start(s))
}

/// Bounds of the trimmed part of `v[start..end]`.
pub fn trim_bounds(v: &Vec<char>, start: usize, end: usize) -> (r: (usize, usize))
    requires
        start <= end <= v@.len(),
    ensures
        start <= r.0 <= r.1 <= end,
        v@.subrange(r.0 as int, r.1 as int) == trim(v@.subrange(start as int, end as int)),
{
    let mut i = start;
    while i < end && is_white_space_char(v[i])
        invariant
            start <= i <= end <= v@.len(),
            trim_start(v@.subrange(start as int, end as int)) == trim_start(
                v@.subrange(i as int, end as int),
            ),
        decreases end - i,
    {
        assert(v@.subrange(i as int, end as int).drop_first() =~= v@.subrange(
            i + 1,
            end as int,
        ));
        i = i + 1;
    }
    let mut j = end;
    while j > i && is_white_space_char(v[j - 1])
        invariant
            start <= i <= j <= end <= v@.len(),
            trim_start(v@.subrange(start as int, end as int)) == v@.subrange(i as int, end as int),
            trim_end(v@.subrange(i as int, end as int)) == trim_end(
                v@.subrange(i as int, j as int),
            ),
        decreases j - i,
    {
        assert(v@.subrange(i as int, j as int).drop_last() =~= v@.subrange(
            i as int,
            j - 1,
        ));
        j = j - 1;
    }
    (i, j)
}

/// Index of the first `'\n'` in `s` at or after `i`, or `s.len()` when there is none.
pub open spec fn newline_from(s: Seq<char>, i: int) -> int
    decreases s.len() - i,
{
    if i < 0 || i >= s.len() {
        s.len() as int
    } else if s[i] == '\n' {
        i
    } else {
        newline_from(s, i + 1)
    }
}

/// The line that starts at `start`: up to the next `'\n'`, without a `'\r'` just before it.
pub open spec fn line_at(s: Seq<char>, start: int) -> Seq<char> {
    let e = newline_from(s, start);
    let raw = s.subrange(start, e);
    if e < s.len() && raw.len() > 0 && raw.last() == '\r' {
        raw.drop_last()
    } else {
        raw
    }
}

/// The lines of `s` from `start` on, as `str::lines` yields them.
pub open spec fn lines_from(s: Seq<char>, start: int) -> Seq<Seq<char>>
    decreases s.len() - start,
{
    if start < 0 || start >= s.len() {
        Seq::empty()
    } else {
        let e = newline_from(s, start);
        proof {
            lemma_newline_from(s, start);
        }
        if e < s.len() {
            seq![line_at(s, start)] + lines_from(s, e + 1)
        } else {
            seq![line_at(s, start)]
        }
    }
}

/// The lines of `s`: split at `"\n"` or `"\r\n"`; a final line ending adds no empty line.
pub open spec fn lines(s: Seq<char>) -> Seq<Seq<char>> {
    lines_from(s, 0)
}

/// `newline_from` lies between its start and the end, and only newline-free text precedes it.
pub proof fn lemma_newline_from(s: Seq<char>, i: int)
    requires
        0 <= i <= s.len(),
    ensures
        i <= newline_from(s, i) <= s.len(),
        newline_from(s, i) < s.len() ==> s[newline_from(s, i)] == '\n',
        forall|k: int| i <= k < newline_from(s, i) ==> s[k] != '\n',
    decreases s.len() - i,
{
    if i < s.len() && s[i] != '\n' {
        lemma_newline_from(s, i + 1);
    }
}

/// Finds the line starting at `start` in `v`: its bounds and the index of the newline that
/// ends it (`v.len()` when none does); the next line starts just after that newline.
pub fn next_line(v: &Vec<char>, start: usize) -> (r: (usize, usize, usize))
    requires
        start < v@.len(),
    ensures
        start <= r.0 <= r.1 <= v@.len(),
        r.0 == start,
        v@.subrange(r.0 as int, r.1 as int) == line_at(v@, start as int),
        r.1 <= r.2 <= v@.len(),
        r.2 == newline_from(v@, start as int),
        lines_from(v@, start as int) == seq![line_at(v@, start as int)] + lines_from(
            v@,
            r.2 + 1,
        ),
{
    let mut e = start;
    while e < v.len() && v[e] != '\n'
        invariant
            start <= e <= v@.len(),
            newline_from(v@, start as int) == newline_from(v@, e as int),
        decreases v@.len() - e,
    {
        e = e + 1;
    }
    proof {
        lemma_newline_from(v@, start as int);
    }
    let mut stop = e;
    if e < v.len() && e > start && v[e - 1] == '\r' {
        stop = e - 1;
        assert(v@.subrange(start as int, e as int).drop_last() =~= v@.subrange(
            start as int,
            stop as int,
        ));
    }
    (start, stop, e)
}

/// The number of lines of `s` is zero exactly when `s` is empty.
pub proof fn lemma_lines_empty(s: Seq<char>)
    ensures
        (lines(s).len() == 0) <==> (s.len() == 0),
{
    if s.len() > 0 {
        assert(lines(s) == seq![line_at(s, 0)] + lines_from(s, newline_from(s, 0) + 1));
    }
}

/// Index of the first `','` in `s` at or after `i`, or `s.len()` when there is none.
pub open spec fn comma_from(s: Seq<char>, i: int) -> int
    decreases s.len() - i,
{
    if i < 0 || i >= s.len() {
        s.len() as int
    } else if s[i] == ',' {
        i
    } else {
        comma_from(s, i + 1)
    }
}

/// `comma_from` lies between its start and the end.
pub proof fn lemma_comma_from(s: Seq<char>, i: int)
    requires
        0 <= i <= s.len(),
    ensures
        i <= comma_from(s, i) <= s.len(),
    decreases s.len() - i,
{
    if i < s.len() && s[i] != ',' {
        lemma_comma_from(s, i + 1);
    }
}

/// The parts of `s` from `start` on, separated by commas (as `str::split(',')` gives them).
pub open spec fn comma_fields_from(s: Seq<char>, start: int) -> Seq<Seq<char>>
    decreases s.len() - start,
{
    if start < 0 || start > s.len() {
        Seq::empty()
    } else {
        let e = comma_from(s, start);
        proof {
            lemma_comma_from(s, start);
        }
        if e < s.len() {
            seq![s.subrange(start, e)] + comma_fields_from(s, e + 1)
        } else {
            seq![s.subrange(start, s.len() as int)]
        }
    }
}

/// Splits `value` at its commas (as `str::split(',')` does).
pub fn comma_fields(value: &str) -> (r: Vec<String>)
    ensures
        strings_view(r@) == comma_fields_from(value@, 0),
{
    let v = chars_of(value);
    let mut parts: Vec<String> = Vec::new();
    let mut start: usize = 0;
    loop
        invariant
            v@ == value@,
            start <= v@.len(),
            strings_view(parts@) + comma_fields_from(v@, start as int) == comma_fields_from(
                value@,
                0,
            ),
        decreases v@.len() - start,
    {
        let mut e = start;
        while e < v.len() && v[e] != ','
            invariant
                start <= e <= v@.len(),
                comma_from(v@, start as int) == comma_from(v@, e as int),
            decreases v@.len() - e,
        {
            e = e + 1;
        }
        proof {
            lemma_comma_from(v@, start as int);
        }
        push_string(&mut parts, substring(value, start, e));
        if e < v.len() {
            assert(comma_fields_from(v@, start as int) == seq![v@.subrange(start as int, e as int)]
                + comma_fields_from(v@, e + 1));
            start = e + 1;
        } else {
            assert(comma_fields_from(v@, start as int) == seq![v@.subrange(start as int, e as int)]);
            assert(strings_view(parts@) =~= comma_fields_from(value@, 0));
            return parts;
        }
    }
}

/// From `i` on, the first comma of `s` is at `j`.
pub proof fn lemma_comma_at(s: Seq<char>, i: int, j: int)
    requires
        0 <= i <= j < s.len(),
        s[j] == ',',
        forall|k: int| i <= k < j ==> s[k] != ',',
    ensures
        comma_from(s, i) == j,
    decreases j - i,
{
    if i < j {
        lemma_comma_at(s, i + 1, j);
    }
}

/// A string without commas is a single field.
pub proof fn lemma_no_comma(s: Seq<char>, i: int)
    requires
        0 <= i <= s.len(),
        forall|k: int| i <= k < s.len() ==> s[k] != ',',
    ensures
        comma_from(s, i) == s.len(),
        comma_fields_from(s, i) == seq![s.subrange(i, s.len() as int)],
    decreases s.len() - i,
{
    if i < s.len() {
        lemma_no_comma(s, i + 1);
    }
    lemma_comma_from(s, i);
}

/// What a sequence of at most four items contains: one of its items.
pub proof fn lemma_contains_short<A>(s: Seq<A>, x: A)
    requires
        s.len() <= 4,
    ensures
        s.contains(x) <==> ((s.len() > 0 && s[0] == x) || (s.len() > 1 && s[1] == x) || (s.len()
            > 2 && s[2] == x) || (s.len() > 3 && s[3] == x)),
{
    if s.contains(x) {
        let i = choose|i: int| 0 <= i < s.len() && s[i] == x;
        assert(i == 0 || i == 1 || i == 2 || i == 3);
    }
    if s.len() > 0 && s[0] == x {
        assert(s.contains(x));
    }
    if s.len() > 1 && s[1] == x {
        assert(s.contains(x));
    }
    if s.len() > 2 && s[2] == x {
        assert(s.contains(x));
    }
    if s.len() > 3 && s[3] == x {
        assert(s.contains(x));
    }
}

/// From `i` on, the first newline of `s` is at `j`.
pub proof fn lemma_newline_at(s: Seq<char>, i: int, j: int)
    requires
        0 <= i <= j < s.len(),
        s[j] == '\n',
        forall|k: int| i <= k < j ==> s[k] != '\n',
    ensures
        newline_from(s, i) == j,
    decreases j - i,
{
    if i < j {
        lemma_newline_at(s, i + 1, j);
    }
}

/// A text that neither starts nor ends with white space is its own trimmed form.
pub proof fn lemma_trim_unchanged(s: Seq<char>)
    requires
        s.len() > 0,
        !is_white_space(s[0]),
        !is_white_space(s.last()),
    ensures
        trim(s) == s,
{
    assert(trim_start(s) == s);
    assert(trim_end(s) == s);
}

} // verus!
