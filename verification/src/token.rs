//! Splitting an input line into words.
//!
//! Words are the maximal runs of characters that are not white space, in
//! the order in which they stand in the line. White space is what Unicode
//! calls `White_Space`.

use vstd::prelude::*;
use vstd::std_specs::iter::IteratorSpec;
use vstd::string::*;

verus! {

/// Whether Unicode classes `c` as `White_Space`.
pub open spec fn is_space(c: char) -> bool {
    ||| '\u{9}' <= c <= '\u{d}'
    ||| c == ' '
    ||| c == '\u{85}'
    ||| c == '\u{a0}'
    ||| c == '\u{1680}'
    ||| '\u{2000}' <= c <= '\u{200a}'
    ||| c == '\u{2028}'
    ||| c == '\u{2029}'
    ||| c == '\u{202f}'
    ||| c == '\u{205f}'
    ||| c == '\u{3000}'
}

/// The number of characters at the start of `text` that are not white
/// space.
pub open spec fn word_length(text: Seq<char>) -> nat
    decreases text.len(),
{
    if text.len() == 0 || is_space(text[0]) {
        0
    } else {
        1 + word_length(text.drop_first())
    }
}

/// The words of `text`: leading white space is dropped, the longest run
/// of other characters is a word, and the rest goes on in the same way.
pub open spec fn words(text: Seq<char>) -> Seq<Seq<char>>
    decreases text.len(),
    via words_decreases
{
    if text.len() == 0 {
        Seq::empty()
    } else if is_space(text[0]) {
        words(text.drop_first())
    } else {
        let n = word_length(text) as int;
        seq![text.take(n)] + words(text.skip(n))
    }
}

#[via_fn]
proof fn words_decreases(text: Seq<char>) {
    if text.len() != 0 && !is_space(text[0]) {
        lemma_word_length_bounds(text);
    }
}

/// A word is no longer than the text it starts, and not empty when the
/// text starts with a character that is not white space.
pub proof fn lemma_word_length_bounds(text: Seq<char>)
    ensures
        word_length(text) <= text.len(),
        text.len() > 0 && !is_space(text[0]) ==> word_length(text) >= 1,
    decreases text.len(),
{
    if text.len() != 0 && !is_space(text[0]) {
        lemma_word_length_bounds(text.drop_first());
    }
}

/// Whether `c` is white space.
pub fn is_whitespace(c: char) -> (space: bool)
    ensures
        space == is_space(c),
{
    ('\u{9}' <= c && c <= '\u{d}') || c == ' ' || c == '\u{85}' || c == '\u{a0}' || c == '\u{1680}'
        || ('\u{2000}' <= c && c <= '\u{200a}') || c == '\u{2028}' || c == '\u{2029}' || c
        == '\u{202f}' || c == '\u{205f}' || c == '\u{3000}'
}

/// A run of `n` characters that are not white space, followed by white
/// space or by the end of the text, is the word that the text starts with.
pub proof fn lemma_word_length_of_run(text: Seq<char>, n: nat)
    requires
        n <= text.len(),
        forall|k: int| 0 <= k < n ==> !is_space(#[trigger] text[k]),
        n == text.len() || is_space(text[n as int]),
    ensures
        word_length(text) == n,
    decreases n,
{
    if n > 0 {
        let rest = text.drop_first();
        assert forall|k: int| 0 <= k < n - 1 implies !is_space(#[trigger] rest[k]) by {
            assert(rest[k] == text[k + 1]);
        }
        lemma_word_length_of_run(rest, (n - 1) as nat);
    }
}

/// A text of white space alone has no words, and only such a text has
/// none.
pub proof fn law_no_words_iff_blank(text: Seq<char>)
    ensures
        words(text).len() == 0 <==> forall|k: int| 0 <= k < text.len() ==> is_space(#[trigger] text[k]),
    decreases text.len(),
{
    if text.len() != 0 && is_space(text[0]) {
        let rest = text.drop_first();
        law_no_words_iff_blank(rest);
        if words(rest).len() == 0 {
            assert forall|k: int| 0 <= k < text.len() implies is_space(#[trigger] text[k]) by {
                if k > 0 {
                    assert(text[k] == rest[k - 1]);
                }
            }
        } else {
            let k = choose|k: int| 0 <= k < rest.len() && !is_space(#[trigger] rest[k]);
            assert(text[k + 1] == rest[k]);
        }
    }
}

/// Every word holds at least one character and no white space.
pub proof fn law_words_are_solid(text: Seq<char>, i: int)
    requires
        0 <= i < words(text).len(),
    ensures
        words(text)[i].len() > 0,
        forall|k: int| 0 <= k < words(text)[i].len() ==> !is_space(#[trigger] words(text)[i][k]),
    decreases text.len(),
{
    if is_space(text[0]) {
        law_words_are_solid(text.drop_first(), i);
    } else {
        let n = word_length(text) as int;
        lemma_word_length_bounds(text);
        if i == 0 {
            lemma_word_is_solid(text);
        } else {
            law_words_are_solid(text.skip(n), i - 1);
        }
    }
}

/// The characters counted by `word_length` are not white space.
proof fn lemma_word_is_solid(text: Seq<char>)
    ensures
        forall|k: int| 0 <= k < word_length(text) ==> !is_space(#[trigger] text[k]),
    decreases text.len(),
{
    if text.len() != 0 && !is_space(text[0]) {
        let rest = text.drop_first();
        lemma_word_is_solid(rest);
        lemma_word_length_bounds(rest);
        assert forall|k: int| 0 <= k < word_length(text) implies !is_space(#[trigger] text[k]) by {
            if k > 0 {
                assert(text[k] == rest[k - 1]);
            }
        }
    }
}

/// The characters of `text`, one by one.
fn characters(text: &str) -> (chars: Vec<char>)
    ensures
        chars@ == text@,
{
    let mut chars: Vec<char> = Vec::new();
    let mut rest = text.chars();
    loop
        invariant
            chars@ + rest.remaining() == text@,
        ensures
            chars@ == text@,
        decreases text@.len() - chars@.len(),
    {
        match rest.next() {
            Some(c) => {
                chars.push(c);
            },
            None => {
                break ;
            },
        }
    }
    chars
}

/// Splits `line` into its words.
pub fn split_whitespace(line: &str) -> (parts: Vec<String>)
    ensures
        parts.deep_view() == words(line@),
{
    let chars = characters(line);
    let mut parts: Vec<String> = Vec::new();
    let mut i: usize = 0;
    proof {
        assert(line@.skip(0) == line@);
        assert(parts.deep_view() == Seq::<Seq<char>>::empty());
    }
    while i < chars.len()
        invariant
            chars@ == line@,
            i <= chars.len(),
            parts.deep_view() + words(line@.skip(i as int)) == words(line@),
        decreases chars.len() - i,
    {
        let ghost tail = line@.skip(i as int);
        if is_whitespace(chars[i]) {
            proof {
                assert(tail.drop_first() == line@.skip(i + 1));
            }
            i += 1;
        } else {
            let start = i;
            let mut end = i + 1;
            while end < chars.len() && !is_whitespace(chars[end])
                invariant
                    start < end <= chars.len(),
                    forall|k: int| start <= k < end ==> !is_space(#[trigger] chars@[k]),
                decreases chars.len() - end,
            {
                end += 1;
            }
            let word = String::from_str(line.substring_char(start, end));
            proof {
                lemma_word_length_of_run(tail, (end - start) as nat);
                assert(tail.take(end - start) == line@.subrange(start as int, end as int));
                assert(tail.skip(end - start) == line@.skip(end as int));
                assert(parts.deep_view().push(word@) + words(line@.skip(end as int)) == words(
                    line@,
                ));
            }
            let ghost before = parts.deep_view();
            parts.push(word);
            assert(parts.deep_view() == before.push(word@));
            i = end;
        }
    }
    parts
}

} // verus!
