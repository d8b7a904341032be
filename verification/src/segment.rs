//! Word boundaries of the edited text.
//!
//! The division of a string into word-bound segments follows the Unicode
//! text-segmentation rules and comes from the `unicode-segmentation` crate;
//! it is named here by [`word_seg_lens`], the character length of each
//! segment in order. Everything built on top of it — which segments start a
//! word (their first character is not whitespace), where the previous or
//! next word starts — is ordinary verified code over that name.

use vstd::prelude::*;

use crate::chars::subvec;

verus! {

/// The character lengths, in order, of the word-bound segments of `s`, as
/// `unicode-segmentation`'s word splitting divides it.
pub uninterp spec fn word_seg_lens(s: Seq<char>) -> Seq<usize>;

/// Whether a character counts as whitespace (the Unicode `White_Space`
/// property, as `char::is_whitespace` decides it).
pub uninterp spec fn is_white(c: char) -> bool;

/// Relies on `char::is_whitespace`: returns whether the character has the
/// Unicode `White_Space` property. vstd gives `char` no specification for it.
pub assume_specification[ char::is_whitespace ](c: char) -> (r: bool)
    ensures
        r == is_white(c),
;

/// The segment lengths fit the text: they are positive and sum to its
/// length. This is the shape `unicode-segmentation` guarantees: its word
/// splitting returns non-empty substrings whose concatenation is the
/// original string.
pub open spec fn seg_lens_wf(lens: Seq<usize>, total: int) -> bool {
    &&& prefix_len(lens, lens.len() as int) == total
    &&& forall|i: int| 0 <= i < lens.len() ==> lens[i] >= 1
}

/// The combined length of the first `k` segments.
pub open spec fn prefix_len(lens: Seq<usize>, k: int) -> int
    decreases k,
{
    if k <= 0 {
        0
    } else {
        prefix_len(lens, k - 1) + lens[k - 1] as int
    }
}

/// Relies on `unicode_segmentation::UnicodeSegmentation::split_word_bounds`:
/// divides the text on UAX#29 word boundaries into non-empty substrings
/// whose concatenation is the original string; the division depends on the
/// characters alone.
#[verifier::external_body]
fn split_word_seg_lens(chars: &Vec<char>) -> (r: Vec<usize>)
    ensures
        r@ == word_seg_lens(chars@),
        seg_lens_wf(r@, chars@.len() as int),
{
    let s: String = chars.iter().collect();
    unicode_segmentation::UnicodeSegmentation::split_word_bounds(s.as_str())
        .map(|seg| seg.chars().count())
        .collect()
}

/// The starts (as character indices into `s`) of the segments among the
/// first `k` whose first character is not whitespace — the segments that
/// begin a word.
pub open spec fn nonwhite_starts_upto(s: Seq<char>, lens: Seq<usize>, k: int) -> Seq<int>
    decreases k,
{
    if k <= 0 {
        Seq::empty()
    } else {
        let prev = nonwhite_starts_upto(s, lens, k - 1);
        let st = prefix_len(lens, k - 1);
        if 0 <= st < s.len() && !is_white(s[st]) {
            prev.push(st)
        } else {
            prev
        }
    }
}

/// The character indices where words of `s` start, in increasing order.
pub open spec fn nonwhite_starts(s: Seq<char>) -> Seq<int> {
    nonwhite_starts_upto(s, word_seg_lens(s), word_seg_lens(s).len() as int)
}

/// Where the word before character position `at` starts: the last word
/// start strictly inside the text before `at`, or the start of the text
/// when no word stands there.
pub open spec fn prev_word_start(s: Seq<char>, at: int) -> int {
    let nws = nonwhite_starts(s.subrange(0, at));
    if nws.len() == 0 {
        0
    } else {
        nws.last()
    }
}

/// Where the next word after character position `at` starts: the second
/// word start within the text from `at` on (the first may be the word the
/// cursor stands in), or the end of the text.
pub open spec fn next_word_start(s: Seq<char>, at: int) -> int {
    let nws = nonwhite_starts(s.subrange(at, s.len() as int));
    if nws.len() >= 2 {
        at + nws[1]
    } else {
        s.len() as int
    }
}

/// Every word start lies inside the text.
pub proof fn lemma_nws_upto_bounds(s: Seq<char>, lens: Seq<usize>, k: int)
    ensures
        forall|j: int|
            0 <= j < nonwhite_starts_upto(s, lens, k).len() ==> 0 <= #[trigger] nonwhite_starts_upto(
                s,
                lens,
                k,
            )[j] < s.len(),
    decreases k,
{
    if k > 0 {
        lemma_nws_upto_bounds(s, lens, k - 1);
        let prev = nonwhite_starts_upto(s, lens, k - 1);
        let st = prefix_len(lens, k - 1);
        if 0 <= st < s.len() && !is_white(s[st]) {
            assert(nonwhite_starts_upto(s, lens, k) == prev.push(st));
            assert forall|j: int|
                0 <= j < prev.push(st).len() implies 0 <= #[trigger] prev.push(st)[j]
                < s.len() by {
                if j < prev.len() {
                    assert(prev.push(st)[j] == prev[j]);
                } else {
                    assert(prev.push(st)[j] == st);
                }
            }
        } else {
            assert(nonwhite_starts_upto(s, lens, k) == prev);
        }
    }
}

/// Every word start names a character that is not whitespace.
pub proof fn lemma_nws_upto_nonwhite(s: Seq<char>, lens: Seq<usize>, k: int)
    ensures
        forall|j: int|
            0 <= j < nonwhite_starts_upto(s, lens, k).len() ==> !is_white(
                s[#[trigger] nonwhite_starts_upto(s, lens, k)[j]],
            ),
    decreases k,
{
    if k > 0 {
        lemma_nws_upto_nonwhite(s, lens, k - 1);
        let prev = nonwhite_starts_upto(s, lens, k - 1);
        let st = prefix_len(lens, k - 1);
        if 0 <= st < s.len() && !is_white(s[st]) {
            assert(nonwhite_starts_upto(s, lens, k) == prev.push(st));
            assert forall|j: int|
                0 <= j < prev.push(st).len() implies !is_white(
                s[#[trigger] prev.push(st)[j]],
            ) by {
                if j < prev.len() {
                    assert(prev.push(st)[j] == prev[j]);
                } else {
                    assert(prev.push(st)[j] == st);
                }
            }
        } else {
            assert(nonwhite_starts_upto(s, lens, k) == prev);
        }
    }
}

/// The previous word start lies between the start of the text and the
/// cursor, strictly before it whenever the cursor is not at the start.
pub proof fn lemma_prev_word_start_bounds(s: Seq<char>, at: int)
    requires
        0 <= at <= s.len(),
    ensures
        0 <= prev_word_start(s, at) <= at,
        at > 0 ==> prev_word_start(s, at) < at,
        at == 0 ==> prev_word_start(s, at) == 0,
{
    let sub = s.subrange(0, at);
    lemma_nws_upto_bounds(sub, word_seg_lens(sub), word_seg_lens(sub).len() as int);
}

/// The next word start lies between the cursor and the end of the text.
pub proof fn lemma_next_word_start_bounds(s: Seq<char>, at: int)
    requires
        0 <= at <= s.len(),
    ensures
        at <= next_word_start(s, at) <= s.len(),
{
    let sub = s.subrange(at, s.len() as int);
    lemma_nws_upto_bounds(sub, word_seg_lens(sub), word_seg_lens(sub).len() as int);
}

/// When a word stands before the cursor, deleting or moving to the previous
/// word lands on its first character, which is not whitespace: the
/// whitespace between that word and the cursor is skipped over.
pub proof fn lemma_prev_word_starts_word(s: Seq<char>, at: int)
    requires
        0 <= at <= s.len(),
        nonwhite_starts(s.subrange(0, at)).len() > 0,
    ensures
        !is_white(s[prev_word_start(s, at)]),
{
    let sub = s.subrange(0, at);
    lemma_nws_upto_bounds(sub, word_seg_lens(sub), word_seg_lens(sub).len() as int);
    lemma_nws_upto_nonwhite(sub, word_seg_lens(sub), word_seg_lens(sub).len() as int);
}

/// Under positive segment lengths, prefixes of more segments are strictly
/// longer.
proof fn lemma_prefix_len_mono(lens: Seq<usize>, k1: int, k2: int)
    requires
        forall|i: int| 0 <= i < lens.len() ==> lens[i] >= 1,
        0 <= k1 <= k2 <= lens.len(),
    ensures
        prefix_len(lens, k1) <= prefix_len(lens, k2),
        k1 < k2 ==> prefix_len(lens, k1) + (k2 - k1) <= prefix_len(lens, k2),
    decreases k2 - k1,
{
    if k1 < k2 {
        lemma_prefix_len_mono(lens, k1, k2 - 1);
    }
}

/// A sequence of usizes seen as mathematical integers.
pub open spec fn as_ints(s: Seq<usize>) -> Seq<int> {
    s.map_values(|x: usize| x as int)
}

/// The word starts of the text, as an increasing list of indices.
fn nonwhite_start_list(chars: &Vec<char>) -> (r: Vec<usize>)
    ensures
        as_ints(r@) == nonwhite_starts(chars@),
        forall|j: int| 0 <= j < r@.len() ==> r@[j] < chars@.len(),
        forall|j1: int, j2: int| 0 <= j1 < j2 < r@.len() ==> r@[j1] < r@[j2],
{
    let lens = split_word_seg_lens(chars);
    let ghost glens = word_seg_lens(chars@);
    let n = chars.len();
    let mut starts: Vec<usize> = Vec::new();
    let mut pos: usize = 0;
    let mut k: usize = 0;
    proof {
        assert(as_ints(starts@) =~= nonwhite_starts_upto(chars@, glens, 0));
    }
    while k < lens.len()
        invariant
            lens@ == glens,
            seg_lens_wf(glens, chars@.len() as int),
            n == chars@.len(),
            k <= lens@.len(),
            pos as int == prefix_len(glens, k as int),
            pos <= chars@.len(),
            as_ints(starts@) == nonwhite_starts_upto(chars@, glens, k as int),
            forall|j: int| 0 <= j < starts@.len() ==> starts@[j] < pos,
            forall|j1: int, j2: int| 0 <= j1 < j2 < starts@.len() ==> starts@[j1] < starts@[j2],
        decreases lens@.len() - k,
    {
        proof {
            lemma_prefix_len_mono(glens, k as int, glens.len() as int);
            lemma_prefix_len_mono(glens, k as int + 1, glens.len() as int);
        }
        assert(pos < chars@.len());
        let ghost old_starts = starts@;
        if !chars[pos].is_whitespace() {
            starts.push(pos);
            proof {
                assert(as_ints(starts@) =~= as_ints(old_starts).push(pos as int));
            }
        }
        pos = pos + lens[k];
        k = k + 1;
        proof {
            assert(as_ints(starts@) =~= nonwhite_starts_upto(chars@, glens, k as int));
        }
    }
    proof {
        assert(as_ints(starts@) =~= nonwhite_starts(chars@));
    }
    starts
}

/// The start of the word before character position `at` in `chars`.
pub(crate) fn find_word_left(chars: &Vec<char>, at: usize) -> (r: usize)
    requires
        at <= chars@.len(),
    ensures
        r as int == prev_word_start(chars@, at as int),
        r <= at,
        at > 0 ==> r < at,
{
    let prefix = subvec(chars, 0, at);
    let nws = nonwhite_start_list(&prefix);
    proof {
        lemma_prev_word_start_bounds(chars@, at as int);
    }
    if nws.len() == 0 {
        0
    } else {
        let r = nws[nws.len() - 1];
        proof {
            assert(r as int == as_ints(nws@).last());
        }
        r
    }
}

/// The start of the word after character position `at` in `chars`.
pub(crate) fn find_word_right(chars: &Vec<char>, at: usize) -> (r: usize)
    requires
        at <= chars@.len(),
    ensures
        r as int == next_word_start(chars@, at as int),
        at <= r <= chars@.len(),
        at < chars@.len() ==> at < r,
{
    let suffix = subvec(chars, at, chars.len());
    let nws = nonwhite_start_list(&suffix);
    if nws.len() >= 2 {
        proof {
            assert(nws@[1] as int == as_ints(nws@)[1]);
            assert(nws@[0] as int == as_ints(nws@)[0]);
        }
        at + nws[1]
    } else {
        chars.len()
    }
}

} // verus!
