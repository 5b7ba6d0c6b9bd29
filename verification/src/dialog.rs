//! The texts of dialogs: messages are wrapped so that no line is wider
//! than 96 bytes, and the message of a failed expectation is put together.
//! Showing a dialog is the caller's business.

use vstd::prelude::*;
use crate::text::{
    chars_of, is_space, is_whitespace, push_all, slice_of, string_of, trim, trimmed, uppercase_of,
};

verus! {

/// The widest line of a dialog, in bytes.
pub const MAX_LINE_LENGTH: u128 = 96;

/// The texts that the vectors `pieces` hold.
pub open spec fn texts(pieces: Seq<Vec<char>>) -> Seq<Seq<char>> {
    Seq::new(pieces.len(), |i: int| pieces[i]@)
}

/// The position of the first `c` in `s`, or the length of `s`.
pub open spec fn first_index(s: Seq<char>, c: char) -> int
    decreases s.len(),
{
    if s.len() == 0 || s[0] == c {
        0
    } else {
        1 + first_index(s.drop_first(), c)
    }
}

/// The lines of `s`: the pieces between its line feeds.
pub open spec fn split_lines(s: Seq<char>) -> Seq<Seq<char>>
    decreases s.len(),
{
    let end = first_index(s, '\n');
    if 0 <= end < s.len() {
        seq![s.take(end)] + split_lines(s.skip(end + 1))
    } else {
        seq![s]
    }
}

/// The number of white space characters at the start of `s`.
pub open spec fn leading_spaces(s: Seq<char>) -> int
    decreases s.len(),
{
    if s.len() > 0 && is_space(s[0]) {
        1 + leading_spaces(s.drop_first())
    } else {
        0
    }
}

/// The number of characters at the start of `s` that are no white space.
pub open spec fn leading_word(s: Seq<char>) -> int
    decreases s.len(),
{
    if s.len() > 0 && !is_space(s[0]) {
        1 + leading_word(s.drop_first())
    } else {
        0
    }
}

/// The words of `s`: the pieces between its white space that are not
/// empty.
pub open spec fn split_words(s: Seq<char>) -> Seq<Seq<char>>
    decreases s.len(),
{
    let start = leading_spaces(s);
    let rest = s.skip(start);
    let end = leading_word(rest);
    if 0 <= start <= s.len() && 0 < end <= rest.len() {
        seq![rest.take(end)] + split_words(rest.skip(end))
    } else {
        Seq::empty()
    }
}

/// The counts of leading characters are within bounds, and the character
/// that follows them, if any, is of the other kind.
pub proof fn lemma_leading(s: Seq<char>)
    ensures
        0 <= first_index(s, '\n') <= s.len(),
        first_index(s, '\n') < s.len() ==> s[first_index(s, '\n')] == '\n',
        forall|j: int| 0 <= j < first_index(s, '\n') ==> s[j] != '\n',
        0 <= leading_spaces(s) <= s.len(),
        0 <= leading_word(s) <= s.len(),
    decreases s.len(),
{
    if s.len() > 0 {
        lemma_leading(s.drop_first());
        assert forall|j: int| 0 <= j < first_index(s, '\n') implies s[j] != '\n' by {
            if j > 0 {
                assert(s[j] == s.drop_first()[j - 1]);
            }
        }
    }
}

/// The position of the first `c` in `v` at or after `from`, or the length
/// of `v`.
fn find_from(v: &Vec<char>, from: usize, c: char) -> (r: usize)
    requires
        from <= v.len(),
    ensures
        from <= r <= v.len(),
        r == from + first_index(v@.skip(from as int), c),
{
    let mut i: usize = from;
    while i < v.len() && v[i] != c
        invariant
            from <= i <= v.len(),
            first_index(v@.skip(from as int), c) == (i - from) + first_index(v@.skip(i as int), c),
        decreases v.len() - i,
    {
        assert(v@.skip(i as int).drop_first() == v@.skip(i + 1));
        i += 1;
    }
    i
}

/// The lines of `v`.
pub fn lines_of(v: &Vec<char>) -> (r: Vec<Vec<char>>)
    ensures
        texts(r@) == split_lines(v@),
        r.len() > 0,
{
    let mut lines: Vec<Vec<char>> = Vec::new();
    let mut start: usize = 0;
    assert(v@.skip(0) == v@);
    assert(texts(lines@) + split_lines(v@) =~= split_lines(v@));
    loop
        invariant
            start <= v.len(),
            texts(lines@) + split_lines(v@.skip(start as int)) == split_lines(v@),
        decreases v.len() - start,
    {
        let end = find_from(v, start, '\n');
        let ghost rest = v@.skip(start as int);
        let ghost before = texts(lines@);
        proof {
            lemma_leading(rest);
        }
        let line = slice_of(v, start, end);
        assert(line@ == rest.take(end - start));
        lines.push(line);
        assert(texts(lines@) =~= before.push(line@));
        if end < v.len() {
            assert(rest.skip(end - start + 1) == v@.skip(end + 1));
            assert(texts(lines@) + split_lines(v@.skip(end + 1)) =~= before + split_lines(
                rest,
            ));
            start = end + 1;
        } else {
            assert(rest.take(rest.len() as int) == rest);
            assert(texts(lines@) =~= before + split_lines(rest));
            return lines;
        }
    }
}

/// The words of `v`.
pub fn words_of(v: &Vec<char>) -> (r: Vec<Vec<char>>)
    ensures
        texts(r@) == split_words(v@),
{
    let mut words: Vec<Vec<char>> = Vec::new();
    let mut at: usize = 0;
    assert(v@.skip(0) == v@);
    assert(texts(words@) + split_words(v@) =~= split_words(v@));
    loop
        invariant
            at <= v.len(),
            texts(words@) + split_words(v@.skip(at as int)) == split_words(v@),
        decreases v.len() - at,
    {
        let ghost tail = v@.skip(at as int);
        let mut start: usize = at;
        while start < v.len() && is_whitespace(v[start])
            invariant
                at <= start <= v.len(),
                leading_spaces(v@.skip(at as int)) == (start - at) + leading_spaces(
                    v@.skip(start as int),
                ),
            decreases v.len() - start,
        {
            assert(v@.skip(start as int).drop_first() == v@.skip(start + 1));
            start += 1;
        }
        let mut end: usize = start;
        while end < v.len() && !is_whitespace(v[end])
            invariant
                start <= end <= v.len(),
                leading_word(v@.skip(start as int)) == (end - start) + leading_word(
                    v@.skip(end as int),
                ),
            decreases v.len() - end,
        {
            assert(v@.skip(end as int).drop_first() == v@.skip(end + 1));
            end += 1;
        }
        assert(tail.skip(start - at) == v@.skip(start as int));
        let ghost rest = v@.skip(start as int);
        if end == start {
            assert(split_words(tail) =~= Seq::empty());
            assert(texts(words@) + Seq::<Seq<char>>::empty() =~= texts(words@));
            return words;
        }
        let ghost before = texts(words@);
        let word = slice_of(v, start, end);
        assert(word@ == rest.take(end - start));
        assert(rest.skip(end - start) == v@.skip(end as int));
        words.push(word);
        assert(texts(words@) =~= before.push(word@));
        assert(texts(words@) + split_words(v@.skip(end as int)) =~= before + split_words(tail));
        at = end;
    }
}

/// The number of bytes that `c` takes in UTF-8.
pub open spec fn utf8_len(c: char) -> nat {
    if '\u{80}' > c {
        1
    } else if '\u{800}' > c {
        2
    } else if '\u{10000}' > c {
        3
    } else {
        4
    }
}

/// The number of bytes that `s` takes in UTF-8.
pub open spec fn byte_len(s: Seq<char>) -> nat
    decreases s.len(),
{
    if s.len() == 0 {
        0
    } else {
        byte_len(s.drop_last()) + utf8_len(s.last())
    }
}

/// The number of bytes that `v` takes in UTF-8.
fn bytes_of(v: &Vec<char>) -> (r: u128)
    ensures
        r == byte_len(v@),
        r <= 4 * v.len(),
{
    let mut n: u128 = 0;
    let mut i: usize = 0;
    assert(v@.take(0) =~= Seq::empty());
    while i < v.len()
        invariant
            i <= v.len(),
            n == byte_len(v@.take(i as int)),
            n <= 4 * i,
        decreases v.len() - i,
    {
        assert(v@.take(i + 1).drop_last() == v@.take(i as int));
        let c = v[i];
        let width: u128 = if '\u{80}' > c {
            1
        } else if '\u{800}' > c {
            2
        } else if '\u{10000}' > c {
            3
        } else {
            4
        };
        n = n + width;
        i += 1;
    }
    assert(v@.take(v.len() as int) == v@);
    n
}

/// The words `words` set on lines of at most 96 bytes, where the line they
/// continue holds `current` bytes already: a word that does not fit goes to
/// a new line, and words on one line are parted by one blank.
pub open spec fn wrapped(words: Seq<Seq<char>>, current: nat) -> Seq<char>
    decreases words.len(),
{
    if words.len() == 0 {
        Seq::empty()
    } else {
        let word = words[0];
        let gap: nat = if current > 0 {
            1
        } else {
            0
        };
        if current + gap + byte_len(word) > MAX_LINE_LENGTH {
            seq!['\n'] + word + wrapped(words.drop_first(), byte_len(word))
        } else if current > 0 {
            seq![' '] + word + wrapped(words.drop_first(), current + 1 + byte_len(word))
        } else {
            word + wrapped(words.drop_first(), byte_len(word))
        }
    }
}

/// What the lines `lines` become: every line is wrapped and ended with a
/// line feed, and an empty line that is not the last gets a second one.
pub open spec fn formatted(lines: Seq<Seq<char>>) -> Seq<char>
    decreases lines.len(),
{
    if lines.len() == 0 {
        Seq::empty()
    } else {
        let line = lines[0];
        let end = if lines.len() > 1 && line.len() == 0 {
            seq!['\n', '\n']
        } else {
            seq!['\n']
        };
        wrapped(split_words(line), 0) + end + formatted(lines.drop_first())
    }
}

/// Whether `c` stays in a dialog: control characters of ASCII other than
/// the line feed do not.
pub open spec fn is_shown(c: char) -> bool {
    !(c <= '\u{1f}' || c == '\u{7f}') || c == '\n'
}

/// The characters of `s` that stay in a dialog.
pub open spec fn shown(s: Seq<char>) -> Seq<char>
    decreases s.len(),
{
    if s.len() == 0 {
        Seq::empty()
    } else if is_shown(s.last()) {
        shown(s.drop_last()).push(s.last())
    } else {
        shown(s.drop_last())
    }
}

/// The text of a dialog for the message `msg`: trimmed, its lines wrapped
/// at 96 bytes, without control characters.
pub open spec fn width_limited(msg: Seq<char>) -> Seq<char> {
    shown(formatted(split_lines(trim(msg))))
}

/// Appends the words `words` to `out`, wrapped.
fn push_wrapped(out: &mut Vec<char>, words: &Vec<Vec<char>>)
    ensures
        final(out)@ == old(out)@ + wrapped(texts(words@), 0),
{
    let ghost all = texts(words@);
    let mut current: u128 = 0;
    let mut i: usize = 0;
    let mut sum: u128 = 0;
    assert(all.skip(0) == all);
    assert(out@ + wrapped(all, 0) == old(out)@ + wrapped(all, 0));
    while i < words.len()
        invariant
            i <= words.len(),
            all == texts(words@),
            current <= 97 + 4 * usize::MAX,
            out@ + wrapped(all.skip(i as int), current as nat) == old(out)@ + wrapped(all, 0),
        decreases words.len() - i,
    {
        let ghost rest = all.skip(i as int);
        let ghost before = out@;
        let ghost filled = current as nat;
        assert(rest[0] == words@[i as int]@);
        assert(rest.drop_first() == all.skip(i + 1));
        let word = &words[i];
        let size = bytes_of(word);
        let gap: u128 = if current > 0 {
            1
        } else {
            0
        };
        if current + gap + size > MAX_LINE_LENGTH {
            out.push('\n');
            push_all(out, word);
            current = size;
            assert(out@ =~= before + seq!['\n'] + word@);
            assert(out@ + wrapped(all.skip(i + 1), current as nat) =~= before + (seq!['\n'] + word@
                + wrapped(all.skip(i + 1), current as nat)));
        } else if current > 0 {
            out.push(' ');
            push_all(out, word);
            current = current + 1 + size;
            assert(out@ =~= before + seq![' '] + word@);
            assert(out@ + wrapped(all.skip(i + 1), current as nat) =~= before + (seq![' '] + word@
                + wrapped(all.skip(i + 1), current as nat)));
        } else {
            push_all(out, word);
            current = size;
            assert(out@ + wrapped(all.skip(i + 1), current as nat) =~= before + (word@ + wrapped(
                all.skip(i + 1),
                current as nat,
            )));
        }
        i += 1;
    }
    assert(wrapped(all.skip(words.len() as int), current as nat) =~= Seq::empty());
    assert(out@ + Seq::<char>::empty() =~= out@);
}

/// The characters of `v` that stay in a dialog.
fn retain_shown(v: &Vec<char>) -> (r: Vec<char>)
    ensures
        r@ == shown(v@),
{
    let mut r: Vec<char> = Vec::new();
    let mut i: usize = 0;
    assert(v@.take(0) =~= Seq::empty());
    while i < v.len()
        invariant
            i <= v.len(),
            r@ == shown(v@.take(i as int)),
        decreases v.len() - i,
    {
        assert(v@.take(i + 1).drop_last() == v@.take(i as int));
        let c = v[i];
        if !(c <= '\u{1f}' || c == '\u{7f}') || c == '\n' {
            r.push(c);
        }
        i += 1;
    }
    assert(v@.take(v.len() as int) == v@);
    r
}

/// Formats the message of a dialog: the message is trimmed, its lines are
/// wrapped so that none is wider than 96 bytes, and control characters
/// other than line feeds are taken out.
pub fn limit_width(msg: &str) -> (r: String)
    ensures
        r@ == width_limited(msg@),
{
    let text = trimmed(&chars_of(msg));
    let lines = lines_of(&text);
    let ghost all = texts(lines@);
    let mut out: Vec<char> = Vec::new();
    let mut i: usize = 0;
    assert(all.skip(0) == all);
    assert(out@ + formatted(all) =~= formatted(all));
    while i < lines.len()
        invariant
            i <= lines.len(),
            all == texts(lines@),
            out@ + formatted(all.skip(i as int)) == formatted(all),
        decreases lines.len() - i,
    {
        let ghost rest = all.skip(i as int);
        let ghost before = out@;
        assert(rest[0] == lines@[i as int]@);
        assert(rest.drop_first() == all.skip(i + 1));
        assert(rest.len() == lines.len() - i);
        let words = words_of(&lines[i]);
        push_wrapped(&mut out, &words);
        out.push('\n');
        if i + 1 < lines.len() && lines[i].len() == 0 {
            out.push('\n');
            assert(out@ =~= before + wrapped(split_words(rest[0]), 0) + seq!['\n', '\n']);
        } else {
            assert(out@ =~= before + wrapped(split_words(rest[0]), 0) + seq!['\n']);
        }
        assert(out@ + formatted(all.skip(i + 1)) =~= before + formatted(rest));
        i += 1;
    }
    assert(formatted(all.skip(lines.len() as int)) =~= Seq::empty());
    assert(out@ + Seq::<char>::empty() =~= out@);
    string_of(&retain_shown(&out))
}

/// Formatting for dialogs.
pub trait LimitWidthExt {
    /// The text to format.
    spec fn message(&self) -> Seq<char>;

    /// This text as a dialog shows it: no line wider than 96 bytes.
    fn limit_width(&self) -> (r: String)
        ensures
            r@ == width_limited(self.message()),
    ;
}

impl LimitWidthExt for str {
    open spec fn message(&self) -> Seq<char> {
        self@
    }

    fn limit_width(&self) -> (r: String) {
        self::limit_width(self)
    }
}

impl LimitWidthExt for String {
    open spec fn message(&self) -> Seq<char> {
        self@
    }

    fn limit_width(&self) -> (r: String) {
        self::limit_width(self.as_str())
    }
}

/// The text of the dialog for a failed expectation: the message `msg`
/// with its first letter as the capital `initial`, then the error, wrapped.
pub open spec fn failure_text(initial: Seq<char>, msg: Seq<char>, error: Seq<char>) -> Seq<char> {
    initial + msg.skip(1) + ":\n\n"@ + width_limited(error)
}

/// The text of the dialog for a failed expectation, where `initial` is the
/// capital of the first letter of `msg`.
pub fn failure_message(initial: &str, msg: &str, error: &str) -> (r: String)
    requires
        msg@.len() > 0,
    ensures
        r@ == failure_text(initial@, msg@, error@),
{
    let text = chars_of(msg);
    let mut out = chars_of(initial);
    push_all(&mut out, &slice_of(&text, 1, text.len()));
    push_all(&mut out, &chars_of(":\n\n"));
    let wrapped_error = self::limit_width(error);
    push_all(&mut out, &chars_of(wrapped_error.as_str()));
    string_of(&out)
}

/// Expectations whose failure is shown to the user.
pub trait ExpectDialogExt<T> {
    /// The value, or the text of the dialog that tells of its absence:
    /// the caller shows the dialog and gives up.
    fn expect_dialog(self, msg: &str) -> (r: Result<T, String>)
        requires
            msg@.len() > 0,
    ;
}

impl<T> ExpectDialogExt<T> for Option<T> {
    /// The dialog of a missing value shows the message as it is.
    fn expect_dialog(self, msg: &str) -> (r: Result<T, String>)
        ensures
            match self {
                Some(v) => r == Ok::<T, String>(v),
                None => r matches Err(text) && text@ == msg@,
            },
    {
        match self {
            Some(v) => Ok(v),
            None => Err(String::from_str(msg)),
        }
    }
}

impl<T> ExpectDialogExt<T> for Result<T, String> {
    /// The dialog of an error shows the message with a capital first
    /// letter, then the error, wrapped.
    fn expect_dialog(self, msg: &str) -> (r: Result<T, String>)
        ensures
            match self {
                Ok(v) => r == Ok::<T, String>(v),
                Err(e) => r matches Err(text) && text@ == failure_text(
                    uppercase_of(msg@.take(1)),
                    msg@,
                    e@,
                ),
            },
    {
        match self {
            Ok(v) => Ok(v),
            Err(e) => {
                let first = string_of(&slice_of(&chars_of(msg), 0, 1));
                let initial = first.as_str().to_uppercase();
                Err(failure_message(initial.as_str(), msg, e.as_str()))
            },
        }
    }
}

} // verus!
