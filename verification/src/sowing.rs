//! Where the stones of a move fall: sowing counted pit by pit around the
//! board, one lap being the thirteen pits that are not passed over.
use vstd::prelude::*;
use crate::game::{next_sow_pit, sow, sow_fits};

verus! {

/// How many pits along from `from` the pit `to` lies, going
/// counter-clockwise and not counting the store `skipped`: 1 for the next
/// pit, up to 13 for `from` itself.
#[verifier::opaque]
pub open spec fn sowing_steps(from: int, skipped: int, to: int) -> int {
    let d = if to > from {
        to - from
    } else {
        to - from + 14
    };
    let ds = if skipped > from {
        skipped - from
    } else {
        skipped - from + 14
    };
    if ds < d {
        d - 1
    } else {
        d
    }
}

/// How many of `count` stones, dropped one per pit around a lap of thirteen
/// pits, fall into the pit `steps` pits along.
#[verifier::opaque]
pub open spec fn stones_dropped(count: int, steps: int) -> int {
    if count >= steps {
        (count - steps) / 13 + 1
    } else {
        0
    }
}

/// The pit after `k` lies one pit further along, or is `from` again after
/// the thirteenth.
proof fn lemma_steps_of_next(from: int, skipped: int, k: int)
    requires
        skipped == 6 || skipped == 13,
        0 <= from < 14,
        from != skipped,
        0 <= k < 14,
        k != skipped,
    ensures
        sowing_steps(from, skipped, next_sow_pit(skipped == 6, skipped == 13, k))
            == sowing_steps(from, skipped, k) % 13 + 1,
        1 <= sowing_steps(from, skipped, k) <= 13,
        sowing_steps(from, skipped, from) == 13,
{
    reveal(sowing_steps);
}

/// Two different pits lie a different number of pits along.
proof fn lemma_steps_differ(from: int, skipped: int, k1: int, k2: int)
    requires
        skipped == 6 || skipped == 13,
        0 <= from < 14,
        from != skipped,
        0 <= k1 < 14,
        0 <= k2 < 14,
        k1 != skipped,
        k2 != skipped,
        k1 != k2,
    ensures
        sowing_steps(from, skipped, k1) != sowing_steps(from, skipped, k2),
{
    reveal(sowing_steps);
}

/// One stone more adds a stone to the pit it reaches and to no other.
proof fn lemma_dropped_one_more(count: int, steps: int)
    requires
        count >= 0,
        1 <= steps <= 13,
    ensures
        stones_dropped(count + 1, steps) == stones_dropped(count, steps) + (if steps == count % 13
            + 1 {
            1int
        } else {
            0int
        }),
        count == 0 ==> stones_dropped(count, steps) == 0,
{
    reveal(stones_dropped);
    let q = count / 13;
    let r = count % 13;
    assert(count == 13 * q + r);
    assert(count + 1 - steps == 13 * q + (r + 1 - steps));
    if count + 1 >= steps {
        if count >= steps {
            assert((count - steps) / 13 == q + (r - steps) / 13) by {
                assert(count - steps == 13 * q + (r - steps));
            }
            assert((count + 1 - steps) / 13 == q + (r + 1 - steps) / 13) by {
                assert(count + 1 - steps == 13 * q + (r + 1 - steps));
            }
        }
    }
}

/// Sowing one stone more is sowing the stones before it and then dropping
/// one into the pit after the last one.
proof fn lemma_sow_one_more(skip6: bool, skip13: bool, board: Seq<u8>, pit: int, count: nat)
    ensures
        ({
            let (b, last) = sow(skip6, skip13, board, pit, count);
            let m = next_sow_pit(skip6, skip13, last);
            sow(skip6, skip13, board, pit, count + 1) == (b.update(m, (b[m] + 1) as u8), m)
        }),
    decreases count,
{
    let n = next_sow_pit(skip6, skip13, pit);
    let b0 = board.update(n, (board[n] + 1) as u8);
    assert(sow(skip6, skip13, board, pit, count + 1) == sow(skip6, skip13, b0, n, count));
    if count > 0 {
        let c = (count - 1) as nat;
        assert((c + 1) as nat == count);
        lemma_sow_one_more(skip6, skip13, b0, n, c);
        assert(sow(skip6, skip13, board, pit, count) == sow(skip6, skip13, b0, n, c));
    } else {
        assert(sow(skip6, skip13, b0, n, 0) == (b0, n));
    }
}

/// Sowing one stone more fits exactly when the stones before it fit and
/// the pit after the last one holds fewer than 255 stones.
proof fn lemma_sow_fits_one_more(skip6: bool, skip13: bool, board: Seq<u8>, pit: int, count: nat)
    requires
        sow_fits(skip6, skip13, board, pit, count + 1),
    ensures
        sow_fits(skip6, skip13, board, pit, count),
        ({
            let (b, last) = sow(skip6, skip13, board, pit, count);
            b[next_sow_pit(skip6, skip13, last)] < 255
        }),
    decreases count,
{
    if count > 0 {
        let n = next_sow_pit(skip6, skip13, pit);
        assert((count + 1 - 1) as nat == ((count - 1) as nat + 1) as nat);
        lemma_sow_fits_one_more(skip6, skip13, board.update(n, (board[n] + 1) as u8), n, (count - 1) as nat);
    }
}

/// Sowing `count` stones from `pit`, passing over the store `skipped`: the
/// pit `k` pits along gets one stone for each lap that reaches it, the
/// store passed over gets none, and the last stone lies `(count - 1) % 13 + 1`
/// pits along.
pub proof fn lemma_sow_laps(skipped: int, board: Seq<u8>, pit: int, count: nat)
    requires
        skipped == 6 || skipped == 13,
        board.len() == 14,
        0 <= pit < 14,
        pit != skipped,
        sow_fits(skipped == 6, skipped == 13, board, pit, count),
    ensures
        ({
            let (b, last) = sow(skipped == 6, skipped == 13, board, pit, count);
            &&& b.len() == 14
            &&& b[skipped] == board[skipped]
            &&& forall|k: int|
                0 <= k < 14 && k != skipped ==> #[trigger] b[k] == board[k] + stones_dropped(
                    count as int,
                    sowing_steps(pit, skipped, k),
                )
            &&& 0 <= last < 14
            &&& last != skipped
            &&& count == 0 ==> last == pit
            &&& count > 0 ==> sowing_steps(pit, skipped, last) == (count - 1) % 13 + 1
        }),
    decreases count,
{
    let s6 = skipped == 6;
    let s13 = skipped == 13;
    if count == 0 {
        assert forall|k: int| 0 <= k < 14 && k != skipped implies #[trigger] board[k] == board[k]
            + stones_dropped(0, sowing_steps(pit, skipped, k)) by {
            lemma_steps_of_next(pit, skipped, k);
            lemma_dropped_one_more(0, sowing_steps(pit, skipped, k));
        }
    } else {
        let c = (count - 1) as nat;
        assert((c + 1) as nat == count);
        lemma_sow_fits_one_more(s6, s13, board, pit, c);
        lemma_sow_laps(skipped, board, pit, c);
        lemma_sow_one_more(s6, s13, board, pit, c);
        let (b1, l1) = sow(s6, s13, board, pit, c);
        let m = next_sow_pit(s6, s13, l1);
        lemma_steps_of_next(pit, skipped, l1);
        let (b, last) = sow(s6, s13, board, pit, count);
        assert(last == m);
        assert(sowing_steps(pit, skipped, m) == c % 13 + 1) by {
            lemma_steps_of_next(pit, skipped, pit);
            if c > 0 {
                assert(sowing_steps(pit, skipped, l1) == (c - 1) % 13 + 1);
            }
        }
        assert forall|k: int| 0 <= k < 14 && k != skipped implies #[trigger] b[k] == board[k]
            + stones_dropped(count as int, sowing_steps(pit, skipped, k)) by {
            lemma_steps_of_next(pit, skipped, k);
            lemma_dropped_one_more(c as int, sowing_steps(pit, skipped, k));
            if k != m {
                lemma_steps_differ(pit, skipped, k, m);
            }
        }
    }
}

} // verus!
