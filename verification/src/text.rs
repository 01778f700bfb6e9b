//! Text helpers over sequences of characters.

use vstd::prelude::*;
use vstd::std_specs::iter::IteratorSpec;

verus! {

/// `String::push`. Trusted: it appends the character.
pub assume_specification[ String::push ](s: &mut String, c: char)
    ensures
        final(s)@ == old(s)@.push(c),
;

/// The characters of `s`, in order.
pub fn chars_of(s: &str) -> (v: Vec<char>)
    ensures
        v@ == s@,
{
    broadcast use vstd::string::group_string_axioms;
    let mut v: Vec<char> = Vec::new();
    let mut it = s.chars();
    loop
        invariant
            v@ + it.remaining() == s@,
        ensures
            v@ == s@,
        decreases s@.len() - v@.len(),
    {
        match it.next() {
            Some(c) => {
                v.push(c);
            },
            None => {
                break;
            },
        }
    }
    v
}

/// The string made of the characters of `v`, in order.
pub fn string_of(v: &Vec<char>) -> (s: String)
    ensures
        s@ == v@,
{
    let mut s = String::new();
    let mut i: usize = 0;
    while i < v.len()
        invariant
            i <= v.len(),
            s@ == v@.take(i as int),
        decreases v.len() - i,
    {
        s.push(v[i]);
        i += 1;
    }
    s
}

/// The character that writes a decimal digit.
pub open spec fn digit_char(d: nat) -> char {
    if d == 0 {
        '0'
    } else if d == 1 {
        '1'
    } else if d == 2 {
        '2'
    } else if d == 3 {
        '3'
    } else if d == 4 {
        '4'
    } else if d == 5 {
        '5'
    } else if d == 6 {
        '6'
    } else if d == 7 {
        '7'
    } else if d == 8 {
        '8'
    } else {
        '9'
    }
}

/// A number in decimal, without sign or leading zeros.
pub open spec fn decimal_text(n: nat) -> Seq<char>
    decreases n,
{
    if n < 10 {
        seq![digit_char(n)]
    } else {
        decimal_text(n / 10).push(digit_char(n % 10))
    }
}

fn digit(d: usize) -> (c: char)
    requires
        d < 10,
    ensures
        c == digit_char(d as nat),
{
    if d == 0 {
        '0'
    } else if d == 1 {
        '1'
    } else if d == 2 {
        '2'
    } else if d == 3 {
        '3'
    } else if d == 4 {
        '4'
    } else if d == 5 {
        '5'
    } else if d == 6 {
        '6'
    } else if d == 7 {
        '7'
    } else if d == 8 {
        '8'
    } else {
        '9'
    }
}

/// Writes a number in decimal.
pub fn decimal(n: usize) -> (s: String)
    ensures
        s@ == decimal_text(n as nat),
    decreases n,
{
    if n < 10 {
        let mut s = String::new();
        s.push(digit(n));
        assert(s@ =~= seq![digit_char(n as nat)]);
        s
    } else {
        let mut s = decimal(n / 10);
        s.push(digit(n % 10));
        s
    }
}

/// Whether a character is white space in the sense of Unicode's
/// `White_Space` property.
pub open spec fn is_whitespace(c: char) -> bool {
    ||| '\u{9}' <= c <= '\u{d}'
    ||| c == ' '
    ||| c == '\u{85}'
    ||| c == '\u{a0}'
    ||| c == '\u{1680}'
    ||| '\u{2000}' <= c <= '\u{200a}'
    ||| c == '\u{2028}'
    ||| c == '\u{2029}'
    ||| c == '\u{202f}'
    ||| c == '\u{205f}'
    ||| c == '\u{3000}'
}

/// A text without the white space it starts with.
pub open spec fn trim_start_text(s: Seq<char>) -> Seq<char>
    decreases s.len(),
{
    if s.len() > 0 && is_whitespace(s[0]) {
        trim_start_text(s.skip(1))
    } else {
        s
    }
}

/// A text without the white space it ends with.
pub open spec fn trim_end_text(s: Seq<char>) -> Seq<char>
    decreases s.len(),
{
    if s.len() > 0 && is_whitespace(s.last()) {
        trim_end_text(s.drop_last())
    } else {
        s
    }
}

/// A text without the white space around it.
pub open spec fn trim_text(s: Seq<char>) -> Seq<char> {
    trim_end_text(trim_start_text(s))
}

/// A character with the letters `A` to `Z` turned into `a` to `z`.
pub open spec fn lower_char(c: char) -> char {
    if 'A' <= c <= 'Z' {
        ((c as u8) + 32) as char
    } else {
        c
    }
}

/// A text with its ASCII capitals turned into small letters.
pub open spec fn lower_text(s: Seq<char>) -> Seq<char> {
    Seq::new(s.len(), |i: int| lower_char(s[i]))
}

/// Whether `part` stands in `s` at position `at`.
pub open spec fn occurs_at(s: Seq<char>, part: Seq<char>, at: int) -> bool {
    0 <= at && at + part.len() <= s.len() && s.subrange(at, at + part.len()) == part
}

/// Whether `s` begins with `part`.
pub open spec fn starts_with_text(s: Seq<char>, part: Seq<char>) -> bool {
    occurs_at(s, part, 0)
}

/// Whether `part` stands somewhere in `s`.
pub open spec fn contains_text(s: Seq<char>, part: Seq<char>) -> bool {
    exists|at: int| occurs_at(s, part, at)
}

/// Whether a character is white space.
pub fn char_is_whitespace(c: char) -> (r: bool)
    ensures
        r == is_whitespace(c),
{
    ('\u{9}' <= c && c <= '\u{d}') || c == ' ' || c == '\u{85}' || c == '\u{a0}' || c
        == '\u{1680}' || ('\u{2000}' <= c && c <= '\u{200a}') || c == '\u{2028}' || c
        == '\u{2029}' || c == '\u{202f}' || c == '\u{205f}' || c == '\u{3000}'
}

/// Turns a capital ASCII letter into its small letter.
pub fn char_to_lower(c: char) -> (r: char)
    ensures
        r == lower_char(c),
{
    if 'A' <= c && c <= 'Z' {
        ((c as u8) + 32) as char
    } else {
        c
    }
}

/// The text with its ASCII capitals turned into small letters.
pub fn to_lower(v: &Vec<char>) -> (r: Vec<char>)
    ensures
        r@ == lower_text(v@),
{
    let mut r: Vec<char> = Vec::new();
    let mut i: usize = 0;
    while i < v.len()
        invariant
            i <= v.len(),
            r@ == lower_text(v@.take(i as int)),
        decreases v.len() - i,
    {
        r.push(char_to_lower(v[i]));
        i += 1;
        assert(r@ =~= lower_text(v@.take(i as int)));
    }
    assert(v@.take(v.len() as int) =~= v@);
    r
}

proof fn lemma_trim_start_skips(s: Seq<char>, k: int)
    requires
        0 <= k <= s.len(),
        forall|i: int| 0 <= i < k ==> is_whitespace(s[i]),
    ensures
        trim_start_text(s) == trim_start_text(s.skip(k)),
    decreases k,
{
    if k > 0 {
        lemma_trim_start_skips(s.skip(1), k - 1);
        assert(s.skip(1).skip(k - 1) =~= s.skip(k));
    } else {
        assert(s.skip(0) =~= s);
    }
}

proof fn lemma_trim_end_drops(s: Seq<char>, k: int)
    requires
        0 <= k <= s.len(),
        forall|i: int| k <= i < s.len() ==> is_whitespace(s[i]),
    ensures
        trim_end_text(s) == trim_end_text(s.take(k)),
    decreases s.len() - k,
{
    if k < s.len() {
        lemma_trim_end_drops(s.drop_last(), k);
        assert(s.drop_last().take(k) =~= s.take(k));
    } else {
        assert(s.take(k) =~= s);
    }
}

/// Where the text of `v` without the white space at its start begins.
pub fn trim_start_index(v: &Vec<char>) -> (start: usize)
    ensures
        start <= v.len(),
        v@.skip(start as int) == trim_start_text(v@),
{
    let mut start: usize = 0;
    while start < v.len() && char_is_whitespace(v[start])
        invariant
            start <= v.len(),
            forall|i: int| 0 <= i < start ==> is_whitespace(v@[i]),
        decreases v.len() - start,
    {
        start += 1;
    }
    proof {
        lemma_trim_start_skips(v@, start as int);
    }
    start
}

/// The bounds of the text of `v` without the white space around it.
pub fn trim_bounds(v: &Vec<char>) -> (r: (usize, usize))
    ensures
        r.0 <= r.1 <= v.len(),
        v@.subrange(r.0 as int, r.1 as int) == trim_text(v@),
{
    let start = trim_start_index(v);
    let mut end: usize = v.len();
    while end > start && char_is_whitespace(v[end - 1])
        invariant
            start <= end <= v.len(),
            forall|i: int| end <= i < v.len() ==> is_whitespace(v@[i]),
        decreases end,
    {
        end -= 1;
    }
    proof {
        let rest = v@.skip(start as int);
        lemma_trim_end_drops(rest, end - start);
        assert(rest.take(end - start) =~= v@.subrange(start as int, end as int));
        let kept = v@.subrange(start as int, end as int);
        if kept.len() > 0 {
            assert(kept.last() == v@[end - 1]);
            if is_whitespace(kept.last()) {
                assert(end == start);
            }
        }
    }
    (start, end)
}

/// The characters of `v` from `start` up to `end`.
pub fn slice_of(v: &Vec<char>, start: usize, end: usize) -> (r: Vec<char>)
    requires
        start <= end <= v.len(),
    ensures
        r@ == v@.subrange(start as int, end as int),
{
    let mut r: Vec<char> = Vec::new();
    let mut i: usize = start;
    while i < end
        invariant
            start <= i <= end <= v.len(),
            r@ == v@.subrange(start as int, i as int),
        decreases end - i,
    {
        r.push(v[i]);
        i += 1;
        assert(r@ =~= v@.subrange(start as int, i as int));
    }
    r
}

/// The text of `v` without the white space around it.
pub fn trimmed(v: &Vec<char>) -> (r: Vec<char>)
    ensures
        r@ == trim_text(v@),
{
    let (start, end) = trim_bounds(v);
    slice_of(v, start, end)
}

/// Whether two texts are the same.
pub fn same_text(a: &Vec<char>, b: &Vec<char>) -> (r: bool)
    ensures
        r == (a@ == b@),
{
    if a.len() != b.len() {
        return false;
    }
    let mut i: usize = 0;
    while i < a.len()
        invariant
            i <= a.len(),
            a.len() == b.len(),
            forall|j: int| 0 <= j < i ==> a@[j] == b@[j],
        decreases a.len() - i,
    {
        if a[i] != b[i] {
            return false;
        }
        i += 1;
    }
    assert(a@ =~= b@);
    true
}

/// Whether the text of `v` is `literal`.
pub fn is_text(v: &Vec<char>, literal: &str) -> (r: bool)
    ensures
        r == (v@ == literal@),
{
    let other = chars_of(literal);
    same_text(v, &other)
}

/// Whether `part` stands in `v` at position `at`.
pub fn found_at(v: &Vec<char>, part: &Vec<char>, at: usize) -> (r: bool)
    ensures
        r == occurs_at(v@, part@, at as int),
{
    if part.len() > v.len() || at > v.len() - part.len() {
        return false;
    }
    let mut i: usize = 0;
    while i < part.len()
        invariant
            i <= part.len(),
            at + part.len() <= v.len(),
            forall|j: int| 0 <= j < i ==> v@[at + j] == part@[j],
        decreases part.len() - i,
    {
        if v[at + i] != part[i] {
            assert(v@.subrange(at as int, at + part.len())[i as int] != part@[i as int]);
            return false;
        }
        i += 1;
    }
    assert(v@.subrange(at as int, at + part.len()) =~= part@);
    true
}

/// Whether the text of `v` begins with `literal`.
pub fn starts_with(v: &Vec<char>, literal: &str) -> (r: bool)
    ensures
        r == starts_with_text(v@, literal@),
{
    let part = chars_of(literal);
    found_at(v, &part, 0)
}

/// Where `part` first stands in `v` at or after `from`, if anywhere.
pub fn find_from(v: &Vec<char>, part: &Vec<char>, from: usize) -> (r: Option<usize>)
    ensures
        match r {
            Some(at) => from <= at && occurs_at(v@, part@, at as int) && forall|i: int|
                from <= i < at ==> !occurs_at(v@, part@, i),
            None => forall|i: int| from <= i ==> !occurs_at(v@, part@, i),
        },
{
    if part.len() > v.len() {
        return None;
    }
    let last = v.len() - part.len();
    let mut at: usize = from;
    while at <= last
        invariant
            from <= at,
            last == v.len() - part.len(),
            forall|i: int| from <= i < at ==> !occurs_at(v@, part@, i),
        decreases last + 1 - at,
    {
        if found_at(v, part, at) {
            return Some(at);
        }
        if at == last {
            return None;
        }
        at += 1;
    }
    None
}

/// Whether `literal` stands somewhere in the text of `v`.
pub fn contains(v: &Vec<char>, literal: &str) -> (r: bool)
    ensures
        r == contains_text(v@, literal@),
{
    let part = chars_of(literal);
    match find_from(v, &part, 0) {
        Some(at) => {
            assert(occurs_at(v@, part@, at as int));
            true
        },
        None => false,
    }
}

} // verus!
