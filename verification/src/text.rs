//! Character-level helpers shared by the rest of the library.
//!
//! Strings are modelled by their view, a `Seq<char>`. Executable code reads a
//! string into a `Vec<char>`, works on that, and builds the result back.

use vstd::prelude::*;
use vstd::utf8::is_ascii_chars;

verus! {

/// `String::push` appends one character to the end of the string.
pub assume_specification[ String::push ](s: &mut String, c: char)
    ensures
        final(s)@ == old(s)@.push(c),
;

/// The uppercase equivalent of `s` by the rules of Unicode.
pub uninterp spec fn uppercase_of(s: Seq<char>) -> Seq<char>;

/// `s` with every small letter of ASCII replaced by its capital.
pub open spec fn ascii_upper(s: Seq<char>) -> Seq<char> {
    Seq::new(
        s.len(),
        |i: int|
            if 'a' <= s[i] <= 'z' {
                ((s[i] as u8) - 32) as char
            } else {
                s[i]
            },
    )
}

/// `str::to_uppercase` gives the uppercase equivalent of a string by the
/// rules of Unicode, which depends on the string alone and is given the
/// name `uppercase_of`. On a string of ASCII characters it replaces the
/// small letters by their capitals and leaves the rest.
pub assume_specification[ str::to_uppercase ](s: &str) -> (r: String)
    ensures
        r@ == uppercase_of(s@),
        is_ascii_chars(s@) ==> r@ == ascii_upper(s@),
;

/// The characters of `s`, in order.
pub fn chars_of(s: &str) -> (v: Vec<char>)
    ensures
        v@ == s@,
{
    let mut v: Vec<char> = Vec::new();
    for c in it: s.chars()
        invariant
            it.seq() == s@,
            v@ == s@.take(it.index() as int),
    {
        assert(s@.take(it.index() + 1) == s@.take(it.index() as int).push(c));
        v.push(c);
    }
    assert(s@.take(s@.len() as int) == s@);
    v
}

/// The string that holds exactly the characters `v`.
pub fn string_of(v: &Vec<char>) -> (s: String)
    ensures
        s@ == v@,
{
    let mut s = String::new();
    let mut i: usize = 0;
    while i < v.len()
        invariant
            i <= v.len(),
            s@ == v@.take(i as int),
        decreases v.len() - i,
    {
        assert(v@.take(i + 1) == v@.take(i as int).push(v@[i as int]));
        s.push(v[i]);
        i += 1;
    }
    assert(v@.take(v@.len() as int) == v@);
    s
}

/// Appends the characters of `tail` to `dst`.
pub fn push_all(dst: &mut Vec<char>, tail: &Vec<char>)
    ensures
        final(dst)@ == old(dst)@ + tail@,
{
    let mut i: usize = 0;
    while i < tail.len()
        invariant
            i <= tail.len(),
            dst@ == old(dst)@ + tail@.take(i as int),
        decreases tail.len() - i,
    {
        assert(tail@.take(i + 1) == tail@.take(i as int).push(tail@[i as int]));
        dst.push(tail[i]);
        i += 1;
    }
    assert(tail@.take(tail@.len() as int) == tail@);
}

/// The characters `v[from..to]` as a vector of their own.
pub fn slice_of(v: &Vec<char>, from: usize, to: usize) -> (r: Vec<char>)
    requires
        from <= to <= v.len(),
    ensures
        r@ == v@.subrange(from as int, to as int),
{
    let mut r: Vec<char> = Vec::new();
    let mut i: usize = from;
    while i < to
        invariant
            from <= i <= to <= v.len(),
            r@ == v@.subrange(from as int, i as int),
        decreases to - i,
    {
        r.push(v[i]);
        i += 1;
        assert(r@ == v@.subrange(from as int, i as int));
    }
    r
}

/// Whether `a` and `b` hold the same characters.
pub fn same_chars(a: &Vec<char>, b: &Vec<char>) -> (r: bool)
    ensures
        r == (a@ == b@),
{
    if a.len() != b.len() {
        return false;
    }
    let mut i: usize = 0;
    while i < a.len()
        invariant
            i <= a.len(),
            a.len() == b.len(),
            a@.take(i as int) == b@.take(i as int),
        decreases a.len() - i,
    {
        if a[i] != b[i] {
            assert(a@[i as int] != b@[i as int]);
            return false;
        }
        assert(a@.take(i + 1) == a@.take(i as int).push(a@[i as int]));
        assert(b@.take(i + 1) == b@.take(i as int).push(b@[i as int]));
        i += 1;
    }
    assert(a@.take(a@.len() as int) == a@);
    assert(b@.take(b@.len() as int) == b@);
    true
}

/// Whether `v` begins with the characters `p`.
pub fn has_prefix(v: &Vec<char>, p: &Vec<char>) -> (r: bool)
    ensures
        r == p@.is_prefix_of(v@),
{
    if p.len() > v.len() {
        return false;
    }
    let mut i: usize = 0;
    while i < p.len()
        invariant
            i <= p.len() <= v.len(),
            forall|j: int| 0 <= j < i ==> v@[j] == p@[j],
        decreases p.len() - i,
    {
        if v[i] != p[i] {
            assert(v@.subrange(0, p@.len() as int)[i as int] != p@[i as int]);
            return false;
        }
        i += 1;
    }
    assert(v@.subrange(0, p@.len() as int) =~= p@);
    true
}

/// Whether the character `c` occurs in `v`.
pub fn has_char(v: &Vec<char>, c: char) -> (r: bool)
    ensures
        r == v@.contains(c),
{
    let mut i: usize = 0;
    while i < v.len()
        invariant
            i <= v.len(),
            forall|j: int| 0 <= j < i ==> v@[j] != c,
        decreases v.len() - i,
    {
        if v[i] == c {
            return true;
        }
        i += 1;
    }
    false
}

/// The characters that Unicode gives the property `White_Space`.
pub open spec fn is_space(c: char) -> bool {
    ||| '\u{9}' <= c <= '\u{d}'
    ||| c == ' '
    ||| c == '\u{85}'
    ||| c == '\u{a0}'
    ||| c == '\u{1680}'
    ||| '\u{2000}' <= c <= '\u{200a}'
    ||| c == '\u{2028}'
    ||| c == '\u{2029}'
    ||| c == '\u{202f}'
    ||| c == '\u{205f}'
    ||| c == '\u{3000}'
}

/// Whether `c` is white space.
pub fn is_whitespace(c: char) -> (r: bool)
    ensures
        r == is_space(c),
{
    ('\u{9}' <= c && c <= '\u{d}') || c == ' ' || c == '\u{85}' || c == '\u{a0}' || c
        == '\u{1680}' || ('\u{2000}' <= c && c <= '\u{200a}') || c == '\u{2028}' || c
        == '\u{2029}' || c == '\u{202f}' || c == '\u{205f}' || c == '\u{3000}'
}

/// `s` without its leading white space.
pub open spec fn trim_start(s: Seq<char>) -> Seq<char>
    decreases s.len(),
{
    if s.len() > 0 && is_space(s[0]) {
        trim_start(s.drop_first())
    } else {
        s
    }
}

/// `s` without its trailing white space.
pub open spec fn trim_end(s: Seq<char>) -> Seq<char>
    decreases s.len(),
{
    if s.len() > 0 && is_space(s.last()) {
        trim_end(s.drop_last())
    } else {
        s
    }
}

/// `s` without leading and trailing white space.
pub open spec fn trim(s: Seq<char>) -> Seq<char> {
    trim_end(trim_start(s))
}

/// `v` without leading and trailing white space.
pub fn trimmed(v: &Vec<char>) -> (r: Vec<char>)
    ensures
        r@ == trim(v@),
{
    let mut b: usize = 0;
    assert(v@.skip(0) == v@);
    while b < v.len() && is_whitespace(v[b])
        invariant
            b <= v.len(),
            trim_start(v@) == trim_start(v@.skip(b as int)),
        decreases v.len() - b,
    {
        assert(v@.skip(b as int).drop_first() == v@.skip(b + 1));
        b += 1;
    }
    assert(trim_start(v@) == v@.skip(b as int));
    let mut e: usize = v.len();
    assert(v@.skip(b as int) == v@.subrange(b as int, e as int));
    while e > b && is_whitespace(v[e - 1])
        invariant
            b <= e <= v.len(),
            trim(v@) == trim_end(v@.subrange(b as int, e as int)),
        decreases e,
    {
        assert(v@.subrange(b as int, e as int).drop_last() == v@.subrange(b as int, e - 1));
        e -= 1;
    }
    slice_of(v, b, e)
}

/// `s` without the characters `c` at its end.
pub open spec fn strip_trailing(s: Seq<char>, c: char) -> Seq<char>
    decreases s.len(),
{
    if s.len() > 0 && s.last() == c {
        strip_trailing(s.drop_last(), c)
    } else {
        s
    }
}

/// `v` without the characters `c` at its end.
pub fn without_trailing(v: &Vec<char>, c: char) -> (r: Vec<char>)
    ensures
        r@ == strip_trailing(v@, c),
{
    let mut e: usize = v.len();
    assert(v@.subrange(0, e as int) == v@);
    while e > 0 && v[e - 1] == c
        invariant
            e <= v.len(),
            strip_trailing(v@, c) == strip_trailing(v@.subrange(0, e as int), c),
        decreases e,
    {
        assert(v@.subrange(0, e as int).drop_last() == v@.subrange(0, e - 1));
        e -= 1;
    }
    slice_of(v, 0, e)
}

/// `s` without the copies of `p` at its start.
pub open spec fn strip_leading(s: Seq<char>, p: Seq<char>) -> Seq<char>
    decreases s.len(),
{
    if p.len() > 0 && p.is_prefix_of(s) {
        strip_leading(s.skip(p.len() as int), p)
    } else {
        s
    }
}

/// `v` without the copies of `p` at its start.
pub fn without_leading(v: &Vec<char>, p: &Vec<char>) -> (r: Vec<char>)
    ensures
        r@ == strip_leading(v@, p@),
{
    if p.len() == 0 {
        return slice_of(v, 0, v.len());
    }
    let mut b: usize = 0;
    assert(v@.skip(0) == v@);
    loop
        invariant
            b <= v.len(),
            p.len() > 0,
            strip_leading(v@, p@) == strip_leading(v@.skip(b as int), p@),
        decreases v.len() - b,
    {
        let rest = slice_of(v, b, v.len());
        assert(rest@ == v@.skip(b as int));
        if !has_prefix(&rest, p) {
            return rest;
        }
        assert(v@.skip(b as int).skip(p.len() as int) == v@.skip(b + p.len()));
        b += p.len();
    }
}

/// The position of the first occurrence of `pat` in `s`, or the length of
/// `s` if there is none.
pub open spec fn first_match(s: Seq<char>, pat: Seq<char>) -> int
    decreases s.len(),
{
    if pat.is_prefix_of(s) || s.len() == 0 {
        0
    } else {
        1 + first_match(s.drop_first(), pat)
    }
}

/// Whether `pat`, which is not empty, occurs in `s`.
pub open spec fn has_match(s: Seq<char>, pat: Seq<char>) -> bool {
    first_match(s, pat) + pat.len() <= s.len()
}

/// What follows the last occurrence of `pat` in `s`, where occurrences are
/// found from the left and do not overlap; `s` if `pat` does not occur.
pub open spec fn last_piece(s: Seq<char>, pat: Seq<char>) -> Seq<char>
    decreases s.len(),
{
    if pat.len() > 0 && has_match(s, pat) && first_match(s, pat) >= 0 {
        last_piece(s.skip(first_match(s, pat) + pat.len()), pat)
    } else {
        s
    }
}

/// The first occurrence is within bounds, and it is an occurrence unless
/// it is the end.
pub proof fn lemma_first_match(s: Seq<char>, pat: Seq<char>)
    ensures
        0 <= first_match(s, pat) <= s.len(),
        first_match(s, pat) < s.len() ==> pat.is_prefix_of(s.skip(first_match(s, pat))),
        pat.len() > 0 && first_match(s, pat) == s.len() ==> !has_match(s, pat),
    decreases s.len(),
{
    if pat.is_prefix_of(s) || s.len() == 0 {
        assert(s.skip(0) == s);
    } else {
        lemma_first_match(s.drop_first(), pat);
        assert(s.skip(first_match(s, pat)) == s.drop_first().skip(first_match(s.drop_first(), pat)));
    }
}

/// The position of the first occurrence of `pat` in `v` at or after
/// `from`, or the length of `v`.
pub fn find_match(v: &Vec<char>, pat: &Vec<char>, from: usize) -> (r: usize)
    requires
        from <= v.len(),
    ensures
        from <= r <= v.len(),
        r == from + first_match(v@.skip(from as int), pat@),
{
    let mut i: usize = from;
    while i < v.len()
        invariant
            from <= i <= v.len(),
            first_match(v@.skip(from as int), pat@) == (i - from) + first_match(
                v@.skip(i as int),
                pat@,
            ),
        decreases v.len() - i,
    {
        let rest = slice_of(v, i, v.len());
        assert(rest@ == v@.skip(i as int));
        if has_prefix(&rest, pat) {
            return i;
        }
        assert(v@.skip(i as int).drop_first() == v@.skip(i + 1));
        i += 1;
    }
    i
}

/// What follows the last occurrence of `pat` in `v`.
pub fn after_last(v: &Vec<char>, pat: &Vec<char>) -> (r: Vec<char>)
    requires
        pat.len() > 0,
    ensures
        r@ == last_piece(v@, pat@),
{
    let mut from: usize = 0;
    assert(v@.skip(0) == v@);
    loop
        invariant
            from <= v.len(),
            pat.len() > 0,
            last_piece(v@, pat@) == last_piece(v@.skip(from as int), pat@),
        decreases v.len() - from,
    {
        let at = find_match(v, pat, from);
        proof {
            lemma_first_match(v@.skip(from as int), pat@);
        }
        if at >= v.len() || pat.len() > v.len() - at {
            return slice_of(v, from, v.len());
        }
        assert(v@.skip(from as int).skip(at - from + pat.len()) == v@.skip(at + pat.len()));
        from = at + pat.len();
    }
}

/// `s` with every `from` replaced by `to`.
pub open spec fn replace_char(s: Seq<char>, from: char, to: char) -> Seq<char> {
    Seq::new(
        s.len(),
        |i: int|
            if s[i] == from {
                to
            } else {
                s[i]
            },
    )
}

/// `v` with every `from` replaced by `to`.
pub fn with_replaced(v: &Vec<char>, from: char, to: char) -> (r: Vec<char>)
    ensures
        r@ == replace_char(v@, from, to),
{
    let mut r: Vec<char> = Vec::new();
    let mut i: usize = 0;
    while i < v.len()
        invariant
            i <= v.len(),
            r@ == replace_char(v@, from, to).take(i as int),
        decreases v.len() - i,
    {
        r.push(
            if v[i] == from {
                to
            } else {
                v[i]
            },
        );
        i += 1;
        assert(r@ =~= replace_char(v@, from, to).take(i as int));
    }
    assert(replace_char(v@, from, to).take(v.len() as int) == replace_char(v@, from, to));
    r
}

/// The characters of `a` followed by those of `b`.
pub fn joined(a: &str, b: &str) -> (r: String)
    ensures
        r@ == a@ + b@,
{
    let mut r = String::from_str(a);
    r.append(b);
    r
}

} // verus!
