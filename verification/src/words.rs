//! Splitting typed text into words at ASCII whitespace, as
//! `str::split_ascii_whitespace` does.

use vstd::prelude::*;

use crate::text::{push_char, texts_of};

verus! {

/// The ASCII whitespace characters: space, tab, line feed, form feed and carriage return.
pub open spec fn is_ascii_whitespace(c: char) -> bool {
    c == ' ' || c == '\t' || c == '\n' || c == '\x0C' || c == '\r'
}

/// Reading `s` from the left: the words already closed by a whitespace
/// character, and the word still being read.
pub open spec fn split_state(s: Seq<char>) -> (Seq<Seq<char>>, Seq<char>)
    decreases s.len(),
{
    if s.len() == 0 {
        (Seq::empty(), Seq::empty())
    } else {
        let (done, cur) = split_state(s.drop_last());
        let c = s.last();
        if is_ascii_whitespace(c) {
            if cur.len() > 0 {
                (done.push(cur), Seq::empty())
            } else {
                (done, Seq::empty())
            }
        } else {
            (done, cur.push(c))
        }
    }
}

/// The maximal runs of characters other than ASCII whitespace in `s`, in order.
pub open spec fn ascii_words(s: Seq<char>) -> Seq<Seq<char>> {
    let (done, cur) = split_state(s);
    if cur.len() > 0 {
        done.push(cur)
    } else {
        done
    }
}

/// Whether `w` is a word: not empty, and without ASCII whitespace.
pub open spec fn is_word(w: Seq<char>) -> bool {
    w.len() > 0 && forall|i: int| 0 <= i < w.len() ==> !is_ascii_whitespace(#[trigger] w[i])
}

proof fn lemma_split_state_words(s: Seq<char>)
    ensures
        forall|i: int| 0 <= i < split_state(s).0.len() ==> is_word(#[trigger] split_state(s).0[i]),
        forall|i: int|
            0 <= i < split_state(s).1.len() ==> !is_ascii_whitespace(#[trigger] split_state(s).1[i]),
    decreases s.len(),
{
    if s.len() > 0 {
        let p = s.drop_last();
        lemma_split_state_words(p);
        let (done, cur) = split_state(p);
        let c = s.last();
        if is_ascii_whitespace(c) {
            if cur.len() > 0 {
                assert(is_word(cur));
                assert forall|i: int| 0 <= i < done.push(cur).len() implies is_word(
                    #[trigger] done.push(cur)[i],
                ) by {
                    if i < done.len() {
                        assert(done.push(cur)[i] == done[i]);
                    }
                }
            }
        } else {
            assert forall|i: int| 0 <= i < cur.push(c).len() implies !is_ascii_whitespace(
                #[trigger] cur.push(c)[i],
            ) by {
                if i < cur.len() {
                    assert(cur.push(c)[i] == cur[i]);
                }
            }
        }
    }
}

/// Every word is non-empty and holds no ASCII whitespace.
pub proof fn lemma_words_are_words(s: Seq<char>)
    ensures
        forall|i: int| 0 <= i < ascii_words(s).len() ==> is_word(#[trigger] ascii_words(s)[i]),
{
    lemma_split_state_words(s);
}

/// Text without any ASCII whitespace but a character is one word; text of
/// whitespace alone has none.
pub proof fn lemma_words_of_plain_text(s: Seq<char>)
    ensures
        (forall|i: int| 0 <= i < s.len() ==> is_ascii_whitespace(#[trigger] s[i])) ==> ascii_words(
            s,
        ).len() == 0,
        is_word(s) ==> ascii_words(s) == seq![s],
    decreases s.len(),
{
    if s.len() > 0 {
        let p = s.drop_last();
        assert forall|i: int| 0 <= i < p.len() implies #[trigger] p[i] == s[i] by {}
        lemma_words_of_plain_text(p);
        lemma_split_state_cur(s);
        if is_word(s) {
            if p.len() > 0 {
                assert(is_word(p));
            }
            assert(split_state(s).0.len() == 0);
        }
    }
}

proof fn lemma_split_state_cur(s: Seq<char>)
    ensures
        (forall|i: int| 0 <= i < s.len() ==> !is_ascii_whitespace(#[trigger] s[i])) ==> split_state(
            s,
        ) == (Seq::<Seq<char>>::empty(), s),
        (forall|i: int| 0 <= i < s.len() ==> is_ascii_whitespace(#[trigger] s[i])) ==> split_state(
            s,
        ) == (Seq::<Seq<char>>::empty(), Seq::<char>::empty()),
    decreases s.len(),
{
    if s.len() > 0 {
        let p = s.drop_last();
        assert forall|i: int| 0 <= i < p.len() implies #[trigger] p[i] == s[i] by {}
        lemma_split_state_cur(p);
        assert(p.push(s.last()) =~= s);
    }
}

fn is_ascii_whitespace_char(c: char) -> (b: bool)
    ensures
        b == is_ascii_whitespace(c),
{
    c == ' ' || c == '\t' || c == '\n' || c == '\x0C' || c == '\r'
}

/// The words of `text`: its maximal runs of characters other than ASCII
/// whitespace, in order.
pub fn split_ascii_whitespace(text: &str) -> (words: Vec<String>)
    ensures
        texts_of(words@) == ascii_words(text@),
{
    broadcast use vstd::string::group_string_axioms;

    let mut done: Vec<String> = Vec::new();
    let mut cur = String::new();
    let ghost n = text@.len();
    for c in it: text.chars()
        invariant
            it.seq() == text@,
            (texts_of(done@), cur@) == split_state(text@.take(it.index() as int)),
    {
        let ghost i = it.index();
        assert(text@.take(i + 1).drop_last() =~= text@.take(i as int));
        if is_ascii_whitespace_char(c) {
            if !cur.as_str().is_empty() {
                let word = cur;
                cur = String::new();
                done.push(word);
                assert(texts_of(done@) =~= split_state(text@.take(i + 1)).0);
            }
        } else {
            push_char(&mut cur, c);
        }
    }
    assert(text@.take(n as int) =~= text@);
    if !cur.as_str().is_empty() {
        done.push(cur);
    }
    assert(texts_of(done@) =~= ascii_words(text@));
    done
}

} // verus!
