//! Splitting a text into its words.

use crate::sequences::lemma_filter_keeps_all;
use crate::text::{char_is_whitespace, chars_of, is_blank, is_whitespace};
use vstd::prelude::*;

verus! {

/// The number of characters in front of the first whitespace of `s`.
pub open spec fn word_len(s: Seq<char>) -> nat
    decreases s.len(),
{
    if s.len() > 0 && !is_whitespace(s.first()) {
        1 + word_len(s.drop_first())
    } else {
        0
    }
}

/// The words of `s`: its maximal runs of characters that are no whitespace,
/// from left to right.
pub open spec fn words(s: Seq<char>) -> Seq<Seq<char>>
    decreases s.len(),
{
    if s.len() == 0 {
        Seq::empty()
    } else if is_whitespace(s.first()) {
        words(s.drop_first())
    } else {
        proof {
            lemma_word_len_bound(s);
        }
        seq![s.take(word_len(s) as int)] + words(s.skip(word_len(s) as int))
    }
}

/// The views of a sequence of strings.
pub open spec fn texts(v: Seq<String>) -> Seq<Seq<char>> {
    v.map_values(|t: String| t@)
}

/// `word_len(s)` counts characters of `s`.
pub proof fn lemma_word_len_bound(s: Seq<char>)
    ensures
        word_len(s) <= s.len(),
        s.len() > 0 && !is_whitespace(s.first()) ==> word_len(s) > 0,
    decreases s.len(),
{
    if s.len() > 0 && !is_whitespace(s.first()) {
        lemma_word_len_bound(s.drop_first());
    }
}

/// A run of `n` characters that are no whitespace, ended by whitespace or by
/// the end of `s`, is the first word of `s`.
pub proof fn lemma_word_len_is(s: Seq<char>, n: int)
    requires
        0 <= n <= s.len(),
        forall|i: int| 0 <= i < n ==> !is_whitespace(#[trigger] s[i]),
        n < s.len() ==> is_whitespace(s[n]),
    ensures
        word_len(s) == n,
    decreases n,
{
    if n > 0 {
        let rest = s.drop_first();
        assert forall|i: int| 0 <= i < n - 1 implies !is_whitespace(#[trigger] rest[i]) by {
            assert(rest[i] == s[i + 1]);
        }
        lemma_word_len_is(rest, n - 1);
    }
}

/// The first word of `s` holds no whitespace.
pub proof fn lemma_first_word_clean(s: Seq<char>)
    ensures
        forall|j: int| 0 <= j < word_len(s) ==> !is_whitespace(#[trigger] s[j]),
    decreases s.len(),
{
    lemma_word_len_bound(s);
    if s.len() > 0 && !is_whitespace(s.first()) {
        let rest = s.drop_first();
        lemma_first_word_clean(rest);
        lemma_word_len_bound(rest);
        assert forall|j: int| 0 <= j < word_len(s) implies !is_whitespace(#[trigger] s[j]) by {
            if j > 0 {
                assert(s[j] == rest[j - 1]);
            }
        }
    }
}

/// Splitting drops the empty fragments and all whitespace: every word has at
/// least one character, and none of its characters is whitespace.
pub proof fn lemma_words_clean(s: Seq<char>)
    ensures
        forall|k: int| 0 <= k < words(s).len() ==> (#[trigger] words(s)[k]).len() > 0,
        forall|k: int, j: int|
            0 <= k < words(s).len() && 0 <= j < words(s)[k].len() ==> !is_whitespace(
                #[trigger] words(s)[k][j],
            ),
    decreases s.len(),
{
    if s.len() == 0 {
        assert(words(s).len() == 0);
    } else if is_whitespace(s.first()) {
        lemma_words_clean(s.drop_first());
        assert(words(s) == words(s.drop_first()));
    } else {
        lemma_word_len_bound(s);
        lemma_first_word_clean(s);
        let n = word_len(s) as int;
        let first = s.take(n);
        let rest = words(s.skip(n));
        lemma_words_clean(s.skip(n));
        assert(words(s) == seq![first] + rest);
        assert forall|k: int| 0 <= k < words(s).len() implies (#[trigger] words(s)[k]).len()
            > 0 by {
            if k > 0 {
                assert(words(s)[k] == rest[k - 1]);
            } else {
                assert(words(s)[0] == first);
            }
        }
        assert forall|k: int, j: int|
            0 <= k < words(s).len() && 0 <= j < words(s)[k].len() implies !is_whitespace(
            #[trigger] words(s)[k][j],
        ) by {
            if k > 0 {
                assert(words(s)[k] == rest[k - 1]);
            } else {
                assert(words(s)[0] == first);
                assert(first[j] == s[j]);
            }
        }
    }
}

/// The test that keeps the characters that are no whitespace.
pub open spec fn not_whitespace() -> spec_fn(char) -> bool {
    |c: char| !is_whitespace(c)
}

/// Splitting loses nothing but whitespace: the words, one after the other,
/// are the characters of `s` that are no whitespace, in their order.
pub proof fn lemma_words_keep_text(s: Seq<char>)
    ensures
        words(s).flatten() == s.filter(not_whitespace()),
    decreases s.len(),
{
    let keep = not_whitespace();
    if s.len() == 0 {
        reveal(Seq::filter);
    } else if is_whitespace(s.first()) {
        let rest = s.drop_first();
        let head = Seq::<char>::empty().push(s.first());
        lemma_words_keep_text(rest);
        assert(s =~= head + rest);
        Seq::filter_distributes_over_add(head, rest, keep);
        Seq::<char>::empty().lemma_filter_push(s.first(), keep);
        assert(Seq::<char>::empty().filter(keep) =~= Seq::<char>::empty()) by {
            reveal(Seq::filter);
        }
        assert(head.filter(keep) + rest.filter(keep) =~= rest.filter(keep));
    } else {
        lemma_word_len_bound(s);
        lemma_first_word_clean(s);
        let n = word_len(s) as int;
        let first = s.take(n);
        let tail = s.skip(n);
        lemma_words_keep_text(tail);
        assert(s =~= first + tail);
        Seq::filter_distributes_over_add(first, tail, keep);
        assert forall|i: int| 0 <= i < first.len() implies keep(#[trigger] first[i]) by {
            assert(first[i] == s[i]);
        }
        lemma_filter_keeps_all(first, keep);
        let all = seq![first] + words(tail);
        assert(all.first() == first);
        assert(all.drop_first() =~= words(tail));
        assert(words(s) == all);
    }
}

/// A text without whitespace that is not empty is one word: itself.
pub proof fn lemma_single_word(s: Seq<char>)
    requires
        s.len() > 0,
        forall|i: int| 0 <= i < s.len() ==> !is_whitespace(#[trigger] s[i]),
    ensures
        words(s) == seq![s],
{
    let n = s.len() as int;
    lemma_word_len_is(s, n);
    assert(s.take(n) =~= s);
    assert(words(s.skip(n)) =~= Seq::<Seq<char>>::empty());
    assert(words(s) == seq![s.take(n)] + words(s.skip(n)));
    assert(seq![s] + Seq::<Seq<char>>::empty() =~= seq![s]);
}

/// A blank text has no words.
pub proof fn lemma_blank_has_no_words(s: Seq<char>)
    requires
        is_blank(s),
    ensures
        words(s).len() == 0,
    decreases s.len(),
{
    if s.len() > 0 {
        let rest = s.drop_first();
        assert forall|i: int| 0 <= i < rest.len() implies is_whitespace(#[trigger] rest[i]) by {
            assert(rest[i] == s[i + 1]);
        }
        lemma_blank_has_no_words(rest);
    }
}

/// The words of `s`, each as a string of its own.
pub fn split_whitespace(s: &str) -> (r: Vec<String>)
    ensures
        texts(r@) == words(s@),
{
    let v = chars_of(s);
    let n = v.len();
    let mut out: Vec<String> = Vec::new();
    let mut i: usize = 0;
    proof {
        assert(s@.skip(0) =~= s@);
        assert(texts(out@) + words(s@) =~= words(s@));
    }
    while i < n
        invariant
            i <= n,
            n == v@.len(),
            v@ == s@,
            words(s@) == texts(out@) + words(s@.skip(i as int)),
        decreases n - i,
    {
        let ghost tail = s@.skip(i as int);
        if char_is_whitespace(v[i]) {
            proof {
                assert(tail.drop_first() =~= s@.skip(i + 1));
            }
            i += 1;
        } else {
            let mut j: usize = i + 1;
            while j < n && !char_is_whitespace(v[j])
                invariant
                    i < j <= n,
                    n == v@.len(),
                    forall|k: int| i <= k < j ==> !is_whitespace(#[trigger] v@[k]),
                decreases n - j,
            {
                j += 1;
            }
            let word = s.substring_char(i, j).to_owned();
            proof {
                lemma_word_len_is(tail, j - i);
                assert(tail.take(j - i) =~= s@.subrange(i as int, j as int));
                assert(tail.skip(j - i) =~= s@.skip(j as int));
                assert(texts(out@.push(word)) =~= texts(out@) + seq![word@]);
            }
            out.push(word);
            i = j;
        }
    }
    proof {
        assert(texts(out@) + words(s@.skip(n as int)) =~= texts(out@));
    }
    out
}

} // verus!
