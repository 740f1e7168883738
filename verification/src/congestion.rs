//! The list of congestion-control algorithms that the system offers.
//!
//! The system gives the list as one line of text, the names separated by
//! white space. The caller reads the text; this module takes it apart.

use vstd::prelude::*;
use vstd::string::StrSliceExecFns;

verus! {

/// Whether `c` is white space: a character with the Unicode property
/// `White_Space`.
pub open spec fn is_space(c: char) -> bool {
    let code = c as u32;
    ||| 0x09 <= code <= 0x0d
    ||| code == 0x20
    ||| code == 0x85
    ||| code == 0xa0
    ||| code == 0x1680
    ||| 0x2000 <= code <= 0x200a
    ||| code == 0x2028
    ||| code == 0x2029
    ||| code == 0x202f
    ||| code == 0x205f
    ||| code == 0x3000
}

/// The number of characters in front of the first white space of `text`;
/// all of them if there is none.
pub open spec fn word_len(text: Seq<char>) -> nat
    decreases text.len(),
{
    if text.len() == 0 || is_space(text[0]) {
        0
    } else {
        1 + word_len(text.drop_first())
    }
}

/// The words of `text`: its longest runs of characters that are not white
/// space, in their order. White space in front, at the end and between words
/// belongs to none of them, so no word is empty.
pub open spec fn words(text: Seq<char>) -> Seq<Seq<char>>
    decreases text.len(),
    via words_decreases
{
    if text.len() == 0 {
        Seq::empty()
    } else if is_space(text[0]) {
        words(text.drop_first())
    } else {
        seq![text.subrange(0, word_len(text) as int)] + words(
            text.subrange(word_len(text) as int, text.len() as int),
        )
    }
}

#[via_fn]
proof fn words_decreases(text: Seq<char>) {
    lemma_word_solid(text);
}

/// A word ends where a run of characters that are not white space ends.
pub proof fn lemma_word_len(text: Seq<char>, end: int)
    requires
        0 <= end <= text.len(),
        forall|j: int| 0 <= j < end ==> !is_space(text[j]),
        end == text.len() || is_space(text[end]),
    ensures
        word_len(text) == end,
    decreases end,
{
    if end > 0 {
        let rest = text.drop_first();
        assert forall|j: int| 0 <= j < end - 1 implies !is_space(rest[j]) by {
            assert(rest[j] == text[j + 1]);
        }
        lemma_word_len(rest, end - 1);
    }
}

/// Whether `c` is white space.
pub fn is_whitespace(c: char) -> (space: bool)
    ensures
        space == is_space(c),
{
    let code: u32 = c as u32;
    (0x09 <= code && code <= 0x0d) || code == 0x20 || code == 0x85 || code == 0xa0 || code
        == 0x1680 || (0x2000 <= code && code <= 0x200a) || code == 0x2028 || code == 0x2029
        || code == 0x202f || code == 0x205f || code == 0x3000
}

/// The names in the system's list of congestion-control algorithms: the
/// words of `contents`.
pub fn available_congestion_controllers(contents: &str) -> (names: Vec<String>)
    ensures
        names@.len() == words(contents@).len(),
        forall|i: int| 0 <= i < names@.len() ==> (#[trigger] names@[i])@ == words(contents@)[i],
{
    let len = contents.unicode_len();
    let mut names: Vec<String> = Vec::new();
    let ghost mut found: Seq<Seq<char>> = Seq::empty();
    let mut at: usize = 0;
    proof {
        assert(contents@.subrange(0, len as int) == contents@);
        assert(found + words(contents@) == words(contents@));
    }
    while at < len
        invariant
            at <= len,
            len == contents@.len(),
            names@.len() == found.len(),
            forall|i: int| 0 <= i < names@.len() ==> (#[trigger] names@[i])@ == found[i],
            words(contents@) == found + words(contents@.subrange(at as int, len as int)),
        decreases len - at,
    {
        let ghost rest = contents@.subrange(at as int, len as int);
        if is_whitespace(contents.get_char(at)) {
            assert(rest.drop_first() == contents@.subrange(at + 1, len as int));
            at += 1;
        } else {
            let start = at;
            while at < len && !is_whitespace(contents.get_char(at))
                invariant
                    start <= at <= len,
                    len == contents@.len(),
                    forall|j: int| start <= j < at ==> !is_space(contents@[j]),
                decreases len - at,
            {
                at += 1;
            }
            proof {
                lemma_word_len(rest, at - start);
                assert(rest.subrange(0, at - start) == contents@.subrange(
                    start as int,
                    at as int,
                ));
                assert(rest.subrange(at - start, rest.len() as int) == contents@.subrange(
                    at as int,
                    len as int,
                ));
                let word = contents@.subrange(start as int, at as int);
                let tail = words(contents@.subrange(at as int, len as int));
                assert(words(rest) == seq![word] + tail);
                assert(found + (seq![word] + tail) == found.push(word) + tail);
                found = found.push(word);
            }
            names.push(contents.substring_char(start, at).to_owned());
        }
    }
    proof {
        assert(contents@.subrange(len as int, len as int) == Seq::<char>::empty());
        assert(found + Seq::<Seq<char>>::empty() == found);
    }
    names
}

/// No name in the list is empty, and none holds white space.
pub proof fn lemma_words_solid(text: Seq<char>, i: int)
    requires
        0 <= i < words(text).len(),
    ensures
        words(text)[i].len() > 0,
        forall|j: int| 0 <= j < words(text)[i].len() ==> !is_space(#[trigger] words(text)[i][j]),
    decreases text.len(),
{
    if is_space(text[0]) {
        lemma_words_solid(text.drop_first(), i);
    } else {
        lemma_word_solid(text);
        if i > 0 {
            lemma_words_solid(text.subrange(word_len(text) as int, text.len() as int), i - 1);
        }
    }
}

/// The first word of a text is made of its first characters up to the first
/// white space.
pub proof fn lemma_word_solid(text: Seq<char>)
    ensures
        word_len(text) <= text.len(),
        forall|j: int| 0 <= j < word_len(text) ==> !is_space(text[j]),
        word_len(text) == text.len() || is_space(text[word_len(text) as int]),
        text.len() > 0 && !is_space(text[0]) ==> word_len(text) > 0,
    decreases text.len(),
{
    if text.len() > 0 && !is_space(text[0]) {
        let rest = text.drop_first();
        lemma_word_solid(rest);
        assert forall|j: int| 0 <= j < word_len(text) implies !is_space(text[j]) by {
            if j > 0 {
                assert(rest[j - 1] == text[j]);
            }
        }
    }
}

} // verus!
