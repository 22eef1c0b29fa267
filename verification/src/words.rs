//! Splitting the text of a command into its words.

use vstd::prelude::*;
use crate::commands::texts_of;
use crate::text::push_char;

verus! {

/// Number of characters in front of the first space of `s`, or in all of
/// `s` where it has no space.
pub open spec fn word_len(s: Seq<char>) -> int
    decreases s.len(),
{
    if s.len() == 0 || s[0] == ' ' {
        0
    } else {
        1 + word_len(s.skip(1))
    }
}

/// The words of `s`: its longest runs of characters other than the space,
/// in order. Spaces only separate; no word is empty.
pub open spec fn words(s: Seq<char>) -> Seq<Seq<char>>
    decreases s.len(),
    via words_decreases
{
    if s.len() == 0 {
        Seq::empty()
    } else if s[0] == ' ' {
        words(s.skip(1))
    } else {
        seq![s.take(word_len(s))] + words(s.skip(word_len(s)))
    }
}

#[via_fn]
proof fn words_decreases(s: Seq<char>) {
    lemma_word_len_bounds(s);
}

/// A word is no longer than the text it starts, and not empty where the
/// text starts with something other than a space.
pub proof fn lemma_word_len_bounds(s: Seq<char>)
    ensures
        0 <= word_len(s) <= s.len(),
        s.len() > 0 && s[0] != ' ' ==> word_len(s) >= 1,
    decreases s.len(),
{
    if s.len() > 0 && s[0] != ' ' {
        lemma_word_len_bounds(s.skip(1));
    }
}

/// Where the first `n` characters of `s` are no spaces and a space or the
/// end of `s` follows them, the first word of `s` has `n` characters.
pub proof fn lemma_word_len_is(s: Seq<char>, n: int)
    requires
        0 <= n <= s.len(),
        forall|k: int| 0 <= k < n ==> s[k] != ' ',
        n == s.len() || s[n] == ' ',
    ensures
        word_len(s) == n,
    decreases n,
{
    if n > 0 {
        let rest = s.skip(1);
        assert forall|k: int| 0 <= k < n - 1 implies rest[k] != ' ' by {
            assert(rest[k] == s[k + 1]);
        }
        lemma_word_len_is(rest, n - 1);
    }
}

/// The words of `chars` from position `start` on.
pub fn split_words(chars: &Vec<char>, start: usize) -> (out: Vec<String>)
    requires
        start <= chars@.len(),
    ensures
        texts_of(out@) == words(chars@.skip(start as int)),
{
    let n = chars.len();
    let mut out: Vec<String> = Vec::new();
    let mut i: usize = start;
    assert(texts_of(out@) =~= Seq::<Seq<char>>::empty());
    while i < n
        invariant
            start <= i <= n,
            n == chars@.len(),
            texts_of(out@) + words(chars@.skip(i as int)) == words(chars@.skip(start as int)),
        decreases n - i,
    {
        let ghost tail = chars@.skip(i as int);
        if chars[i] == ' ' {
            assert(tail.skip(1) =~= chars@.skip(i + 1));
            i = i + 1;
        } else {
            let mut word = String::new();
            let mut j: usize = i;
            while j < n && chars[j] != ' '
                invariant
                    i <= j <= n,
                    n == chars@.len(),
                    word@ == chars@.subrange(i as int, j as int),
                    forall|k: int| i <= k < j ==> chars@[k] != ' ',
                decreases n - j,
            {
                push_char(&mut word, chars[j]);
                assert(word@ =~= chars@.subrange(i as int, j + 1));
                j = j + 1;
            }
            proof {
                lemma_word_len_is(tail, j - i);
                assert(tail.take(j - i) =~= word@);
                assert(tail.skip(j - i) =~= chars@.skip(j as int));
                assert(texts_of(out@.push(word)) =~= texts_of(out@).push(word@));
                assert(texts_of(out@).push(word@) + words(chars@.skip(j as int)) =~= texts_of(out@)
                    + words(tail));
            }
            out.push(word);
            i = j;
        }
    }
    assert(chars@.skip(i as int) =~= Seq::<char>::empty());
    assert(texts_of(out@) + Seq::<Seq<char>>::empty() =~= texts_of(out@));
    out
}

} // verus!
