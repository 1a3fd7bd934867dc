//! Texts laid end to end.

use vstd::prelude::*;

verus! {

/// The length of the first `n` texts together.
pub open spec fn total_len(texts: Seq<Seq<char>>, n: int) -> int
    decreases n,
{
    if n <= 0 {
        0
    } else {
        total_len(texts, n - 1) + texts[n - 1].len()
    }
}

/// The first `n` texts have the same length together whatever follows them.
proof fn lemma_total_len_prefix(texts: Seq<Seq<char>>, shorter: Seq<Seq<char>>, n: int)
    requires
        0 <= n <= shorter.len() <= texts.len(),
        forall|k: int| 0 <= k < shorter.len() ==> shorter[k] == texts[k],
    ensures
        total_len(shorter, n) == total_len(texts, n),
    decreases n,
{
    if n > 0 {
        lemma_total_len_prefix(texts, shorter, n - 1);
    }
}

/// Texts laid end to end are as long as all of them together.
pub proof fn lemma_flatten_len(texts: Seq<Seq<char>>)
    ensures
        texts.flatten().len() == total_len(texts, texts.len() as int),
    decreases texts.len(),
{
    if texts.len() > 0 {
        let front = texts.drop_last();
        lemma_flatten_len(front);
        lemma_total_len_prefix(texts, front, front.len() as int);
        front.lemma_flatten_push(texts.last());
        assert(front.push(texts.last()) =~= texts);
    }
}

/// Where texts are laid end to end, each of them stands in the result, whole
/// and unchanged, right after those before it.
pub proof fn lemma_flatten_slot(texts: Seq<Seq<char>>, i: int)
    requires
        0 <= i < texts.len(),
    ensures
        0 <= total_len(texts, i) <= total_len(texts, i + 1) <= texts.flatten().len(),
        texts.flatten().subrange(total_len(texts, i), total_len(texts, i + 1)) == texts[i],
    decreases texts.len(),
{
    let front = texts.drop_last();
    lemma_flatten_len(front);
    lemma_flatten_len(texts);
    lemma_total_len_prefix(texts, front, front.len() as int);
    front.lemma_flatten_push(texts.last());
    assert(front.push(texts.last()) =~= texts);
    if i == texts.len() - 1 {
        assert(texts.flatten().subrange(total_len(texts, i), total_len(texts, i + 1)) =~= texts[i]);
    } else {
        lemma_flatten_slot(front, i);
        lemma_total_len_prefix(texts, front, i);
        lemma_total_len_prefix(texts, front, i + 1);
        assert(texts.flatten().subrange(total_len(texts, i), total_len(texts, i + 1))
            =~= front.flatten().subrange(total_len(front, i), total_len(front, i + 1)));
    }
}

/// `pattern` stands in `text` at position `i`.
pub open spec fn occurs_at(text: Seq<char>, pattern: Seq<char>, i: int) -> bool {
    0 <= i && i + pattern.len() <= text.len() && text.subrange(i, i + pattern.len()) == pattern
}

/// At how many of the positions from `lo` up to, and without, `hi` the
/// pattern stands in the text.
pub open spec fn occurrences_in(text: Seq<char>, pattern: Seq<char>, lo: int, hi: int) -> nat
    decreases hi - lo,
{
    if hi <= lo {
        0
    } else {
        occurrences_in(text, pattern, lo, hi - 1) + if occurs_at(text, pattern, hi - 1) {
            1nat
        } else {
            0nat
        }
    }
}

/// How often the pattern occurs in the text: at how many positions it
/// stands in it.
pub open spec fn occurrences(text: Seq<char>, pattern: Seq<char>) -> nat {
    occurrences_in(text, pattern, 0, text.len() as int)
}

/// The characters of the pattern from position `j` on stand in the text from
/// position `i + j` on.
pub open spec fn agrees_from(text: Seq<char>, pattern: Seq<char>, i: int, j: int) -> bool
    decreases pattern.len() - j,
{
    if j >= pattern.len() {
        true
    } else {
        0 <= i + j < text.len() && text[i + j] == pattern[j] && agrees_from(
            text,
            pattern,
            i,
            j + 1,
        )
    }
}

/// Agreement from a position of the pattern on is agreement at each of the
/// positions behind it.
proof fn lemma_agrees_from(text: Seq<char>, pattern: Seq<char>, i: int, j: int)
    requires
        0 <= j,
    ensures
        agrees_from(text, pattern, i, j) == all_agree_from(text, pattern, i, j),
    decreases pattern.len() - j,
{
    if j < pattern.len() {
        lemma_agrees_from(text, pattern, i, j + 1);
        if agrees_from(text, pattern, i, j) {
            assert forall|k: int| j <= k < pattern.len() implies agree_at(text, pattern, i, k) by {
                if k > j {
                    assert(j + 1 <= k);
                }
            }
        }
        if all_agree_from(text, pattern, i, j) {
            assert(agree_at(text, pattern, i, j));
            assert forall|k: int| j + 1 <= k < pattern.len() implies agree_at(
                text,
                pattern,
                i,
                k,
            ) by {
                assert(j <= k);
            }
        }
    }
}

/// The character of the pattern at position `k` stands in the text at
/// position `i + k`.
spec fn agree_at(text: Seq<char>, pattern: Seq<char>, i: int, k: int) -> bool {
    0 <= i + k < text.len() && text[i + k] == pattern[k]
}

/// The characters of the pattern from position `j` on each stand in the
/// text, `i` positions further on.
spec fn all_agree_from(text: Seq<char>, pattern: Seq<char>, i: int, j: int) -> bool {
    forall|k: int| j <= k < pattern.len() ==> agree_at(text, pattern, i, k)
}

/// A pattern stands at a position exactly if it agrees with the text there,
/// character by character.
pub proof fn lemma_occurs_at_agrees(text: Seq<char>, pattern: Seq<char>, i: int)
    requires
        pattern.len() > 0,
    ensures
        occurs_at(text, pattern, i) == agrees_from(text, pattern, i, 0),
{
    lemma_agrees_from(text, pattern, i, 0);
    if all_agree_from(text, pattern, i, 0) {
        assert(agree_at(text, pattern, i, 0));
        assert(agree_at(text, pattern, i, pattern.len() - 1));
        assert forall|k: int| 0 <= k < pattern.len() implies text.subrange(
            i,
            i + pattern.len(),
        )[k] == pattern[k] by {
            assert(agree_at(text, pattern, i, k));
        }
        assert(text.subrange(i, i + pattern.len()) =~= pattern);
    }
    if occurs_at(text, pattern, i) {
        assert forall|k: int| 0 <= k < pattern.len() implies agree_at(text, pattern, i, k) by {
            assert(text.subrange(i, i + pattern.len())[k] == text[i + k]);
        }
    }
}

/// Counting over a range is counting over its two parts.
pub proof fn lemma_occurrences_split(
    text: Seq<char>,
    pattern: Seq<char>,
    lo: int,
    mid: int,
    hi: int,
)
    requires
        lo <= mid <= hi,
    ensures
        occurrences_in(text, pattern, lo, hi) == occurrences_in(text, pattern, lo, mid)
            + occurrences_in(text, pattern, mid, hi),
    decreases hi - mid,
{
    if mid < hi {
        lemma_occurrences_split(text, pattern, lo, mid, hi - 1);
    }
}

/// Where a pattern stands in one text at the positions of a range exactly
/// where it stands in another text at the positions `shift` further on, it
/// stands equally often in the two ranges.
pub proof fn lemma_occurrences_shift(
    text: Seq<char>,
    other: Seq<char>,
    pattern: Seq<char>,
    lo: int,
    hi: int,
    shift: int,
)
    requires
        forall|i: int|
            lo <= i < hi ==> occurs_at(text, pattern, i) == #[trigger] occurs_at(
                other,
                pattern,
                i + shift,
            ),
    ensures
        occurrences_in(text, pattern, lo, hi) == occurrences_in(
            other,
            pattern,
            lo + shift,
            hi + shift,
        ),
    decreases hi - lo,
{
    if lo < hi {
        lemma_occurrences_shift(text, other, pattern, lo, hi - 1, shift);
        assert(occurs_at(text, pattern, hi - 1) == occurs_at(other, pattern, hi - 1 + shift));
    }
}

/// Two texts are kept apart for a pattern where one of them is empty, or
/// the first ends, or the second begins, with a character that the pattern
/// does not hold.
pub open spec fn kept_apart(a: Seq<char>, b: Seq<char>, pattern: Seq<char>) -> bool {
    a.len() == 0 || b.len() == 0 || !pattern.contains(a.last()) || !pattern.contains(b[0])
}

/// Where two texts that are kept apart are laid end to end, the pattern
/// occurs as often as in the two together: no occurrence comes about across
/// the seam.
pub proof fn lemma_occurrences_concat(a: Seq<char>, b: Seq<char>, pattern: Seq<char>)
    requires
        pattern.len() > 0,
        kept_apart(a, b, pattern),
    ensures
        occurrences(a + b, pattern) == occurrences(a, pattern) + occurrences(b, pattern),
{
    let whole = a + b;
    let n = pattern.len() as int;
    assert forall|i: int| 0 <= i < a.len() implies occurs_at(whole, pattern, i)
        == #[trigger] occurs_at(a, pattern, i + 0) by {
        if i + n <= a.len() {
            assert(whole.subrange(i, i + n) =~= a.subrange(i, i + n));
        } else if occurs_at(whole, pattern, i) {
            let found = whole.subrange(i, i + n);
            assert(found[a.len() - 1 - i] == a.last());
            assert(found[a.len() - i] == b[0]);
            assert(pattern.contains(a.last()));
            assert(pattern.contains(b[0]));
        }
    }
    assert forall|i: int| a.len() <= i < whole.len() implies occurs_at(whole, pattern, i)
        == #[trigger] occurs_at(b, pattern, i + (-a.len())) by {
        if i + n <= whole.len() {
            assert(whole.subrange(i, i + n) =~= b.subrange(i - a.len(), i - a.len() + n));
        }
    }
    lemma_occurrences_shift(whole, a, pattern, 0, a.len() as int, 0);
    lemma_occurrences_shift(whole, b, pattern, a.len() as int, whole.len() as int, -a.len());
    lemma_occurrences_split(whole, pattern, 0, a.len() as int, whole.len() as int);
}

/// Where a pattern stands at no position of a range, it occurs there no
/// times.
pub proof fn lemma_occurrences_none(text: Seq<char>, pattern: Seq<char>, lo: int, hi: int)
    requires
        forall|i: int| lo <= i < hi ==> !#[trigger] occurs_at(text, pattern, i),
    ensures
        occurrences_in(text, pattern, lo, hi) == 0,
    decreases hi - lo,
{
    if lo < hi {
        lemma_occurrences_none(text, pattern, lo, hi - 1);
        assert(!occurs_at(text, pattern, hi - 1));
    }
}

/// Two texts laid end to end hold a character exactly if one of them does.
pub proof fn lemma_contains_concat(a: Seq<char>, b: Seq<char>, c: char)
    ensures
        (a + b).contains(c) == (a.contains(c) || b.contains(c)),
{
    let whole = a + b;
    if whole.contains(c) {
        let i = choose|i: int| 0 <= i < whole.len() && whole[i] == c;
        if i < a.len() {
            assert(a[i] == c);
        } else {
            assert(b[i - a.len()] == c);
        }
    }
    if a.contains(c) {
        let i = choose|i: int| 0 <= i < a.len() && a[i] == c;
        assert(whole[i] == c);
    }
    if b.contains(c) {
        let i = choose|i: int| 0 <= i < b.len() && b[i] == c;
        assert(whole[a.len() + i] == c);
    }
}

/// Behind a text that does not hold the first character of a pattern, the
/// pattern occurs as often as in what follows: no occurrence begins in that
/// text.
pub proof fn lemma_occurrences_after(a: Seq<char>, b: Seq<char>, pattern: Seq<char>)
    requires
        pattern.len() > 0,
        !a.contains(pattern[0]),
    ensures
        occurrences(a + b, pattern) == occurrences(b, pattern),
{
    let whole = a + b;
    let n = pattern.len() as int;
    assert forall|i: int| 0 <= i < a.len() implies !#[trigger] occurs_at(whole, pattern, i) by {
        if occurs_at(whole, pattern, i) {
            assert(whole.subrange(i, i + n)[0] == a[i]);
            assert(a.contains(pattern[0]));
        }
    }
    assert forall|i: int| a.len() <= i < whole.len() implies occurs_at(whole, pattern, i)
        == #[trigger] occurs_at(b, pattern, i + (-a.len())) by {
        if i + n <= whole.len() {
            assert(whole.subrange(i, i + n) =~= b.subrange(i - a.len(), i - a.len() + n));
        }
    }
    lemma_occurrences_none(whole, pattern, 0, a.len() as int);
    lemma_occurrences_shift(whole, b, pattern, a.len() as int, whole.len() as int, -a.len());
    lemma_occurrences_split(whole, pattern, 0, a.len() as int, whole.len() as int);
}

/// A text of at most ten characters, none of which is `c`, does not hold
/// `c`.
pub proof fn lemma_short_text_without(text: Seq<char>, c: char)
    requires
        text.len() <= 10,
        text.len() > 0 ==> text[0] != c,
        text.len() > 1 ==> text[1] != c,
        text.len() > 2 ==> text[2] != c,
        text.len() > 3 ==> text[3] != c,
        text.len() > 4 ==> text[4] != c,
        text.len() > 5 ==> text[5] != c,
        text.len() > 6 ==> text[6] != c,
        text.len() > 7 ==> text[7] != c,
        text.len() > 8 ==> text[8] != c,
        text.len() > 9 ==> text[9] != c,
    ensures
        !text.contains(c),
{
    if text.contains(c) {
        let i = choose|i: int| 0 <= i < text.len() && text[i] == c;
        assert(i == 0 || i == 1 || i == 2 || i == 3 || i == 4 || i == 5 || i == 6 || i == 7 || i
            == 8 || i == 9);
    }
}

} // verus!
