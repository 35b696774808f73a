//! The intake of a text message: which of its words refer to posts.
//!
//! The words are taken in the order of the text, so that the responses can
//! be delivered in the order in which the posts were named.

use vstd::prelude::*;
use vstd::string::{StrSliceExecFns, StringExecFns};
use crate::text::chars_of;

verus! {

/// What a word has to hold to count as a reference to a post.
pub const MARKER: &'static str = "twitter";

/// Whether `c` is ASCII white space: a space, a tab, a line feed, a form
/// feed or a carriage return.
pub open spec fn is_space(c: char) -> bool {
    c == ' ' || c == '\t' || c == '\n' || c == '\x0C' || c == '\r'
}

/// The words of `s`: its longest runs of characters without white space, in
/// order.
pub open spec fn words(s: Seq<char>) -> Seq<Seq<char>>
    decreases s.len(),
{
    if s.len() == 0 {
        Seq::empty()
    } else {
        let before = words(s.drop_last());
        let c = s.last();
        if is_space(c) {
            before
        } else if s.len() >= 2 && !is_space(s[s.len() - 2]) {
            before.update(before.len() - 1, before.last().push(c))
        } else {
            before.push(seq![c])
        }
    }
}

/// Whether `run` stands somewhere in `word`, character by character.
pub open spec fn holds(word: Seq<char>, run: Seq<char>) -> bool {
    exists|i: int| holds_at(word, run, i)
}

/// Whether `run` stands in `word` at `i`.
pub open spec fn holds_at(word: Seq<char>, run: Seq<char>, i: int) -> bool {
    0 <= i && i + run.len() <= word.len() && word.subrange(i, i + run.len()) == run
}

/// Whether `word` refers to a post.
pub open spec fn is_reference(word: Seq<char>) -> bool {
    holds(word, MARKER@)
}

/// The words of `s` that refer to posts, in the order of `s`.
pub open spec fn references_in(s: Seq<char>) -> Seq<Seq<char>> {
    words(s).filter(|word: Seq<char>| is_reference(word))
}

/// Every word holds a character, and none of its characters is white space.
pub proof fn lemma_words_hold_no_space(s: Seq<char>)
    ensures
        forall|i: int|
            0 <= i < words(s).len() ==> (#[trigger] words(s)[i]).len() > 0 && forall|j: int|
                0 <= j < words(s)[i].len() ==> !is_space(#[trigger] words(s)[i][j]),
        s.len() > 0 && !is_space(s.last()) ==> words(s).len() > 0,
    decreases s.len(),
{
    if s.len() > 0 {
        lemma_words_hold_no_space(s.drop_last());
        let before = words(s.drop_last());
        let all = words(s);
        if !is_space(s.last()) {
            if s.len() >= 2 && !is_space(s[s.len() - 2]) {
                assert(s.drop_last().last() == s[s.len() - 2]);
                assert forall|i: int| 0 <= i < all.len() implies (#[trigger] all[i]).len() > 0
                    && forall|j: int| 0 <= j < all[i].len() ==> !is_space(#[trigger] all[i][j]) by {
                    if i < before.len() - 1 {
                        assert(all[i] == before[i]);
                    } else {
                        let last = before[before.len() - 1];
                        assert(all[i] == last.push(s.last()));
                        assert forall|j: int| 0 <= j < all[i].len() implies !is_space(
                            #[trigger] all[i][j],
                        ) by {
                            if j < last.len() {
                                assert(all[i][j] == last[j]);
                            }
                        }
                    }
                }
            } else {
                assert forall|i: int| 0 <= i < all.len() implies (#[trigger] all[i]).len() > 0
                    && forall|j: int| 0 <= j < all[i].len() ==> !is_space(#[trigger] all[i][j]) by {
                    if i < before.len() {
                        assert(all[i] == before[i]);
                    }
                }
            }
        }
    }
}

/// Whether `c` is ASCII white space.
pub fn is_ascii_space(c: char) -> (b: bool)
    ensures
        b == is_space(c),
{
    c == ' ' || c == '\t' || c == '\n' || c == '\x0C' || c == '\r'
}

/// Whether `run` stands in `chars` at `at`.
fn stands_at(chars: &Vec<char>, at: usize, run: &Vec<char>) -> (b: bool)
    requires
        at + run.len() <= chars.len(),
    ensures
        b == (chars@.subrange(at as int, at + run.len()) == run@),
{
    let m = run.len();
    let mut k: usize = 0;
    while k < m
        invariant
            k <= m,
            m == run.len(),
            at + m <= chars.len(),
            forall|j: int| 0 <= j < k ==> chars[at + j] == run[j],
        decreases m - k,
    {
        if chars[at + k] != run[k] {
            assert(chars@.subrange(at as int, at + m)[k as int] != run@[k as int]);
            return false;
        }
        k += 1;
    }
    assert(chars@.subrange(at as int, at + m) =~= run@);
    true
}

/// Whether `run` stands somewhere in the characters of `chars` from `start`
/// up to `end`.
fn holds_run(chars: &Vec<char>, start: usize, end: usize, run: &Vec<char>) -> (b: bool)
    requires
        start <= end <= chars.len(),
    ensures
        b == holds(chars@.subrange(start as int, end as int), run@),
{
    let m = run.len();
    let ghost word = chars@.subrange(start as int, end as int);
    if m > end - start {
        return false;
    }
    if m == 0 {
        assert(word.subrange(0, 0) =~= run@);
        assert(holds_at(word, run@, 0));
        return true;
    }
    let last = end - m;
    let mut p: usize = start;
    while p <= last
        invariant
            start <= p <= last + 1,
            last + m == end,
            m > 0,
            end <= chars.len(),
            m == run.len(),
            word == chars@.subrange(start as int, end as int),
            forall|i: int| 0 <= i < p - start ==> !holds_at(word, run@, i),
        decreases last + 1 - p,
    {
        proof {
            assert(word.subrange(p - start, p - start + m) =~= chars@.subrange(p as int, p + m));
        }
        if stands_at(chars, p, run) {
            assert(holds_at(word, run@, p - start));
            return true;
        }
        p += 1;
    }
    false
}

/// The closed word `chars[start..end]` is added to `found` where it refers
/// to a post.
fn keep_reference(
    found: &mut Vec<String>,
    text: &str,
    chars: &Vec<char>,
    marker: &Vec<char>,
    start: usize,
    end: usize,
)
    requires
        chars@ == text@,
        marker@ == MARKER@,
        start <= end <= chars.len(),
    ensures
        final(found).deep_view() == if is_reference(text@.subrange(start as int, end as int)) {
            old(found).deep_view().push(text@.subrange(start as int, end as int))
        } else {
            old(found).deep_view()
        },
{
    if holds_run(chars, start, end, marker) {
        found.push(String::from_str(text.substring_char(start, end)));
        assert(found.deep_view() =~= old(found).deep_view().push(
            text@.subrange(start as int, end as int),
        ));
    }
}

/// The words of `text` that refer to posts, in the order of the text.
pub fn references(text: &str) -> (found: Vec<String>)
    ensures
        found.deep_view() == references_in(text@),
{
    let chars = chars_of(text);
    let marker = chars_of(MARKER);
    let ghost keep = |word: Seq<char>| is_reference(word);
    let n = chars.len();
    let mut found: Vec<String> = Vec::new();
    let mut start: usize = 0;
    let mut in_word = false;
    let mut i: usize = 0;
    proof {
        assert(chars@.take(0) =~= Seq::<char>::empty());
        assert(found.deep_view() =~= Seq::<Seq<char>>::empty());
        assert(words(chars@.take(0)).filter(keep) =~= Seq::<Seq<char>>::empty());
    }
    while i < n
        invariant
            i <= n,
            n == chars.len(),
            chars@ == text@,
            marker@ == MARKER@,
            keep == |word: Seq<char>| is_reference(word),
            in_word <==> i > 0 && !is_space(chars[i - 1]),
            in_word ==> start < i && words(chars@.take(i as int)).len() >= 1 && words(
                chars@.take(i as int),
            ).last() == chars@.subrange(start as int, i as int) && found.deep_view() == words(
                chars@.take(i as int),
            ).drop_last().filter(keep),
            !in_word ==> found.deep_view() == words(chars@.take(i as int)).filter(keep),
        decreases n - i,
    {
        let c = chars[i];
        let ghost before = words(chars@.take(i as int));
        let ghost after = words(chars@.take(i + 1));
        proof {
            assert(chars@.take(i + 1).drop_last() =~= chars@.take(i as int));
            assert(chars@.take(i + 1).last() == c);
            if i > 0 {
                assert(chars@.take(i + 1)[i - 1] == chars[i - 1]);
            }
        }
        if is_ascii_space(c) {
            if in_word {
                keep_reference(&mut found, text, &chars, &marker, start, i);
                proof {
                    assert(before =~= before.drop_last().push(before.last()));
                    lemma_filter_push(before.drop_last(), before.last(), keep);
                }
                in_word = false;
            }
        } else {
            if !in_word {
                start = i;
                in_word = true;
                assert(after.last() =~= chars@.subrange(i as int, i + 1));
                assert(after.drop_last() =~= before);
            } else {
                assert(after.last() =~= chars@.subrange(start as int, i + 1));
                assert(after.drop_last() =~= before.drop_last());
            }
        }
        i += 1;
    }
    proof {
        assert(chars@.take(n as int) =~= chars@);
    }
    if in_word {
        keep_reference(&mut found, text, &chars, &marker, start, n);
        proof {
            let all = words(chars@);
            assert(all =~= all.drop_last().push(all.last()));
            lemma_filter_push(all.drop_last(), all.last(), keep);
        }
    }
    found
}

/// Filtering a sequence with one more item keeps what the filter kept
/// before, and the item where it passes.
pub proof fn lemma_filter_push<A>(s: Seq<A>, last: A, keep: spec_fn(A) -> bool)
    ensures
        s.push(last).filter(keep) == if keep(last) {
            s.filter(keep).push(last)
        } else {
            s.filter(keep)
        },
{
    reveal(Seq::filter);
    assert(s.push(last).drop_last() =~= s);
}

} // verus!
