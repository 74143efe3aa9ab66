//! Decisions of the command-line tool that do not touch the terminal or the
//! disk: how a typed password line is read, and when a passphrase deserves a
//! warning.
use vstd::prelude::*;
use vstd::string::StrSliceExecFns;

verus! {

/// The characters with the Unicode `White_Space` property, as
/// `char::is_whitespace` documents them.
pub open spec fn is_white_space(c: char) -> bool {
    ||| ('\u{0009}' <= c && c <= '\u{000D}')
    ||| c == '\u{0020}'
    ||| c == '\u{0085}'
    ||| c == '\u{00A0}'
    ||| c == '\u{1680}'
    ||| ('\u{2000}' <= c && c <= '\u{200A}')
    ||| c == '\u{2028}'
    ||| c == '\u{2029}'
    ||| c == '\u{202F}'
    ||| c == '\u{205F}'
    ||| c == '\u{3000}'
}

/// Whether a word starts at position `i`: a non-space character at the start
/// or after a space.
pub open spec fn starts_word(s: Seq<char>, i: int) -> bool {
    !is_white_space(s[i]) && (i == 0 || is_white_space(s[i - 1]))
}

/// Number of words of `s`: maximal runs of non-space characters, as
/// `split_whitespace` yields them.
pub open spec fn word_count(s: Seq<char>) -> nat
    decreases s.len(),
{
    if s.len() == 0 {
        0
    } else {
        word_count(s.drop_last()) + if starts_word(s, s.len() - 1) {
            1nat
        } else {
            0nat
        }
    }
}

/// A passphrase is weak when it has fewer than 12 characters or fewer than
/// three words.
pub open spec fn weak_passphrase(s: Seq<char>) -> bool {
    s.len() < 12 || word_count(s) < 3
}

/// The line without its trailing carriage returns and line feeds.
pub open spec fn without_line_end(s: Seq<char>) -> Seq<char>
    decreases s.len(),
{
    if s.len() > 0 && (s.last() == '\r' || s.last() == '\n') {
        without_line_end(s.drop_last())
    } else {
        s
    }
}

fn is_white_space_char(c: char) -> (res: bool)
    ensures
        res == is_white_space(c),
{
    ('\u{0009}' <= c && c <= '\u{000D}') || c == '\u{0020}' || c == '\u{0085}' || c == '\u{00A0}'
        || c == '\u{1680}' || ('\u{2000}' <= c && c <= '\u{200A}') || c == '\u{2028}' || c
        == '\u{2029}' || c == '\u{202F}' || c == '\u{205F}' || c == '\u{3000}'
}

/// Counts the words of a passphrase.
pub fn count_words(s: &str) -> (n: usize)
    ensures
        n == word_count(s@),
{
    let mut n: usize = 0;
    let mut after_space = true;
    let mut i: usize = 0;
    let len = s.unicode_len();
    while i < len
        invariant
            len == s@.len(),
            i <= len,
            n == word_count(s@.take(i as int)),
            n <= i,
            after_space == (i == 0 || is_white_space(s@[i - 1])),
        decreases len - i,
    {
        let c = s.get_char(i);
        let space = is_white_space_char(c);
        proof {
            let t = s@.take(i + 1);
            assert(t.drop_last() =~= s@.take(i as int));
            assert(t[i as int] == c);
            if i > 0 {
                assert(t[i - 1] == s@[i - 1]);
            }
        }
        if !space && after_space {
            n = n + 1;
        }
        after_space = space;
        i = i + 1;
    }
    assert(s@.take(len as int) =~= s@);
    n
}

/// Tells whether a passphrase deserves a warning. The warning informs and
/// does not block: the choice belongs to the user.
pub fn is_weak_passphrase(password: &str) -> (res: bool)
    ensures
        res == weak_passphrase(password@),
{
    password.unicode_len() < 12 || count_words(password) < 3
}

/// Removes the line ending of a password line read from standard input.
///
/// Only the line ending goes: a password may legitimately start or end with a
/// space.
pub fn trim_line_end(line: &str) -> (res: &str)
    ensures
        res@ == without_line_end(line@),
{
    let mut end = line.unicode_len();
    assert(line@.take(end as int) =~= line@);
    while end > 0 && (line.get_char(end - 1) == '\r' || line.get_char(end - 1) == '\n')
        invariant
            end <= line@.len(),
            without_line_end(line@) == without_line_end(line@.take(end as int)),
        decreases end,
    {
        assert(line@.take(end as int).drop_last() =~= line@.take(end - 1));
        end = end - 1;
    }
    assert(line@.take(0) =~= line@.subrange(0, 0));
    assert(without_line_end(line@.take(end as int)) == line@.take(end as int));
    line.substring_char(0, end)
}

/// The length criterion counts characters, not bytes: a passphrase of fewer
/// than 12 characters is weak whatever its UTF-8 length, one with fewer than
/// three words is weak, and one with at least 12 characters and three words
/// is not.
pub proof fn lemma_weakness_counts_characters_and_words(s: Seq<char>)
    ensures
        s.len() < 12 ==> weak_passphrase(s),
        word_count(s) < 3 ==> weak_passphrase(s),
        s.len() >= 12 && word_count(s) >= 3 ==> !weak_passphrase(s),
{
}

/// A passphrase never has more words than characters, and a passphrase
/// without any white space has no word when empty and exactly one otherwise.
pub proof fn lemma_word_count_bounds(s: Seq<char>)
    ensures
        word_count(s) <= s.len(),
        (forall|i: int| 0 <= i < s.len() ==> !is_white_space(#[trigger] s[i])) ==> word_count(s)
            == if s.len() == 0 {
            0nat
        } else {
            1nat
        },
        (forall|i: int| 0 <= i < s.len() ==> is_white_space(#[trigger] s[i])) ==> word_count(s)
            == 0,
    decreases s.len(),
{
    if s.len() > 0 {
        lemma_word_count_bounds(s.drop_last());
        let t = s.drop_last();
        if forall|i: int| 0 <= i < s.len() ==> !is_white_space(#[trigger] s[i]) {
            assert forall|i: int| 0 <= i < t.len() implies !is_white_space(#[trigger] t[i]) by {
                assert(t[i] == s[i]);
            }
            if s.len() > 1 {
                assert(!is_white_space(s[s.len() - 2]));
            }
        }
        if forall|i: int| 0 <= i < s.len() ==> is_white_space(#[trigger] s[i]) {
            assert forall|i: int| 0 <= i < t.len() implies is_white_space(#[trigger] t[i]) by {
                assert(t[i] == s[i]);
            }
            assert(is_white_space(s[s.len() - 1]));
        }
    }
}

/// Words separated by a space add up: the words of `a`, a space, then `b`
/// are those of `a` and those of `b`.
pub proof fn lemma_word_count_of_spaced_concat(a: Seq<char>, b: Seq<char>)
    ensures
        word_count(a + seq![' '] + b) == word_count(a) + word_count(b),
    decreases b.len(),
{
    let s = a + seq![' '] + b;
    if b.len() == 0 {
        assert(s.drop_last() =~= a);
    } else {
        lemma_word_count_of_spaced_concat(a, b.drop_last());
        assert(s.drop_last() =~= a + seq![' '] + b.drop_last());
        let n = s.len() - 1;
        assert(s[n] == b[b.len() - 1]);
        if b.len() == 1 {
            assert(s[n - 1] == ' ');
        } else {
            assert(s[n - 1] == b[b.len() - 2]);
        }
    }
}

/// Trimming a password line only removes its line ending: the result is a
/// prefix of the line, does not end with a carriage return or a line feed,
/// and every character removed is one of those two.
pub proof fn lemma_trim_removes_only_the_line_ending(s: Seq<char>)
    ensures
        without_line_end(s).len() <= s.len(),
        without_line_end(s) == s.subrange(0, without_line_end(s).len() as int),
        without_line_end(s).len() > 0 ==> without_line_end(s).last() != '\r'
            && without_line_end(s).last() != '\n',
        forall|i: int|
            without_line_end(s).len() <= i < s.len() ==> #[trigger] s[i] == '\r' || s[i] == '\n',
    decreases s.len(),
{
    if s.len() > 0 && (s.last() == '\r' || s.last() == '\n') {
        let t = s.drop_last();
        lemma_trim_removes_only_the_line_ending(t);
        assert(t.subrange(0, without_line_end(t).len() as int) =~= s.subrange(
            0,
            without_line_end(t).len() as int,
        ));
        assert forall|i: int| without_line_end(s).len() <= i < s.len() implies #[trigger] s[i]
            == '\r' || s[i] == '\n' by {
            if i < t.len() {
                assert(t[i] == s[i]);
            }
        }
    } else {
        assert(s.subrange(0, s.len() as int) =~= s);
    }
}

} // verus!
