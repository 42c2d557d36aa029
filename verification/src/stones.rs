//! Counting the stones on a board.
use vstd::prelude::*;

verus! {

/// Total number of stones in a sequence of pits.
pub open spec fn stones(s: Seq<u8>) -> int
    decreases s.len(),
{
    if s.len() == 0 {
        0
    } else {
        stones(s.drop_last()) + s.last()
    }
}

/// Number of stones in the pits `lo..hi`.
pub open spec fn stones_in(s: Seq<u8>, lo: int, hi: int) -> int {
    stones(s.subrange(lo, hi))
}

/// A pit count is never negative in total.
pub proof fn lemma_stones_nonneg(s: Seq<u8>)
    ensures
        stones(s) >= 0,
    decreases s.len(),
{
    if s.len() > 0 {
        lemma_stones_nonneg(s.drop_last());
    }
}

/// Changing one pit changes the total by the difference.
pub proof fn lemma_stones_update(s: Seq<u8>, i: int, v: u8)
    requires
        0 <= i < s.len(),
    ensures
        stones(s.update(i, v)) == stones(s) - s[i] + v,
    decreases s.len(),
{
    if i == s.len() - 1 {
        assert(s.update(i, v).drop_last() =~= s.drop_last());
    } else {
        lemma_stones_update(s.drop_last(), i, v);
        assert(s.update(i, v).drop_last() =~= s.drop_last().update(i, v));
    }
}

/// One pit never holds more than the whole board.
pub proof fn lemma_pit_le_stones(s: Seq<u8>, i: int)
    requires
        0 <= i < s.len(),
    ensures
        s[i] <= stones(s),
{
    lemma_stones_update(s, i, 0);
    lemma_stones_nonneg(s.update(i, 0));
}

/// Two distinct pits never hold more than the whole board.
pub proof fn lemma_two_pits_le_stones(s: Seq<u8>, i: int, j: int)
    requires
        0 <= i < s.len(),
        0 <= j < s.len(),
        i != j,
    ensures
        s[i] + s[j] <= stones(s),
{
    lemma_stones_update(s, i, 0);
    lemma_pit_le_stones(s.update(i, 0), j);
}

/// Three distinct pits never hold more than the whole board.
pub proof fn lemma_three_pits_le_stones(s: Seq<u8>, i: int, j: int, k: int)
    requires
        0 <= i < s.len(),
        0 <= j < s.len(),
        0 <= k < s.len(),
        i != j,
        j != k,
        i != k,
    ensures
        s[i] + s[j] + s[k] <= stones(s),
{
    lemma_stones_update(s, i, 0);
    lemma_two_pits_le_stones(s.update(i, 0), j, k);
}


/// Adding the pit `i` to the range `lo..i` adds its stones.
pub proof fn lemma_stones_in_step(s: Seq<u8>, lo: int, i: int)
    requires
        0 <= lo <= i < s.len(),
    ensures
        stones_in(s, lo, i + 1) == stones_in(s, lo, i) + s[i],
{
    assert(s.subrange(lo, i + 1).drop_last() =~= s.subrange(lo, i));
}

/// A range of pits holds at least as many stones as any shorter range from
/// the same start, and never a negative number.
pub proof fn lemma_stones_in_mono(s: Seq<u8>, lo: int, i: int, hi: int)
    requires
        0 <= lo <= i <= hi <= s.len(),
    ensures
        0 <= stones_in(s, lo, i) <= stones_in(s, lo, hi),
    decreases hi - i,
{
    lemma_stones_nonneg(s.subrange(lo, i));
    if i < hi {
        lemma_stones_in_step(s, lo, hi - 1);
        lemma_stones_in_mono(s, lo, i, hi - 1);
    }
}

/// The stones of `lo..hi` are those of `lo..mid` and those of `mid..hi`.
pub proof fn lemma_stones_in_split(s: Seq<u8>, lo: int, mid: int, hi: int)
    requires
        0 <= lo <= mid <= hi <= s.len(),
    ensures
        stones_in(s, lo, hi) == stones_in(s, lo, mid) + stones_in(s, mid, hi),
    decreases hi - mid,
{
    if mid < hi {
        lemma_stones_in_step(s, lo, hi - 1);
        lemma_stones_in_step(s, mid, hi - 1);
        lemma_stones_in_split(s, lo, mid, hi - 1);
    } else {
        assert(s.subrange(mid, hi) =~= Seq::<u8>::empty());
    }
}

/// A range of empty pits holds no stones.
pub proof fn lemma_stones_in_empty(s: Seq<u8>, lo: int, hi: int)
    requires
        0 <= lo <= hi <= s.len(),
        forall|i: int| lo <= i < hi ==> s[i] == 0,
    ensures
        stones_in(s, lo, hi) == 0,
    decreases hi - lo,
{
    if lo < hi {
        lemma_stones_in_step(s, lo, hi - 1);
        lemma_stones_in_empty(s, lo, hi - 1);
    } else {
        assert(s.subrange(lo, hi) =~= Seq::<u8>::empty());
    }
}

/// A board of fourteen pits holds the stones of both rows and both stores.
pub proof fn lemma_stones_of_board(s: Seq<u8>)
    requires
        s.len() == 14,
    ensures
        stones(s) == stones_in(s, 0, 6) + s[6] + stones_in(s, 7, 13) + s[13],
{
    assert(s.subrange(0, 14) =~= s);
    lemma_stones_in_step(s, 0, 13);
    lemma_stones_in_split(s, 0, 7, 13);
    lemma_stones_in_step(s, 0, 6);
}

} // verus!
