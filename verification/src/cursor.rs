//! The pit cursor: which pit the arrow keys select next.
//!
//! On screen the board is drawn as two columns: row `i` (0..=5) shows pit `i`
//! on the left and pit `12 - i` on the right.
use vstd::prelude::*;

verus! {

/// The pit selected after pressing "up" on pit `n`.
pub open spec fn pit_above(n: int) -> int {
    if 1 <= n < 6 {
        n - 1
    } else if 7 <= n < 12 {
        n + 1
    } else {
        n
    }
}

/// The pit selected after pressing "left" on pit `n`.
pub open spec fn pit_left_of(n: int) -> int {
    if 1 <= n < 6 {
        13 - n
    } else if 7 <= n < 13 {
        12 - n
    } else {
        n
    }
}

/// The pit selected after pressing "down" on pit `n`.
pub open spec fn pit_below(n: int) -> int {
    if 0 <= n < 5 {
        n + 1
    } else if 8 <= n < 13 {
        n - 1
    } else {
        n
    }
}

/// The pit selected after pressing "right" on pit `n`.
pub open spec fn pit_right_of(n: int) -> int {
    if 0 <= n < 6 {
        12 - n
    } else if 8 <= n < 13 {
        13 - n
    } else {
        n
    }
}

/// A pit a player can choose: not a store, and on the board.
pub open spec fn is_playable_pit(n: int) -> bool {
    (0 <= n < 6) || (7 <= n < 13)
}

/// Moves the selection one pit up.
pub fn move_selected_pit_up(selected_pit_numb: &mut u8)
    ensures
        *final(selected_pit_numb) == pit_above(*old(selected_pit_numb) as int),
{
    if 1 <= *selected_pit_numb && *selected_pit_numb < 6 {
        *selected_pit_numb -= 1;
    } else if 7 <= *selected_pit_numb && *selected_pit_numb < 12 {
        *selected_pit_numb += 1;
    }
}

/// Moves the selection one pit to the left.
pub fn move_selected_pit_left(selected_pit_numb: &mut u8)
    ensures
        *final(selected_pit_numb) == pit_left_of(*old(selected_pit_numb) as int),
{
    let n = *selected_pit_numb;

    if 1 <= n && n < 6 {
        *selected_pit_numb = 13 - n
    } else if 7 <= n && n < 13 {
        *selected_pit_numb = 12 - n
    }
}

/// Moves the selection one pit down.
pub fn move_selected_pit_down(selected_pit_numb: &mut u8)
    ensures
        *final(selected_pit_numb) == pit_below(*old(selected_pit_numb) as int),
{
    if *selected_pit_numb < 5 {
        *selected_pit_numb += 1;
    } else if 8 <= *selected_pit_numb && *selected_pit_numb < 13 {
        *selected_pit_numb -= 1;
    }
}

/// Moves the selection one pit to the right.
pub fn move_selected_pit_right(selected_pit_numb: &mut u8)
    ensures
        *final(selected_pit_numb) == pit_right_of(*old(selected_pit_numb) as int),
{
    let n = *selected_pit_numb;

    if n < 6 {
        *selected_pit_numb = 12 - n;
    } else if 8 <= n && n < 13 {
        *selected_pit_numb = 13 - n;
    }
}

/// Law: the cursor never leaves the playable pits; from a playable pit every
/// arrow key selects a playable pit.
pub proof fn lemma_cursor_stays_on_playable_pits(n: int)
    requires
        is_playable_pit(n),
    ensures
        is_playable_pit(pit_above(n)),
        is_playable_pit(pit_below(n)),
        is_playable_pit(pit_left_of(n)),
        is_playable_pit(pit_right_of(n)),
{
}

/// Law: "left" undoes "right" on the left column, "right" undoes "left" on
/// the right column, "down" undoes "up" wherever "up" moves the cursor down
/// the list, and "up" undoes "down" likewise.
pub proof fn lemma_cursor_moves_undo(n: int)
    ensures
        0 <= n < 6 ==> pit_left_of(pit_right_of(n)) == n,
        7 <= n < 13 ==> pit_right_of(pit_left_of(n)) == n,
        (1 <= n < 6 || 7 <= n < 12) ==> pit_below(pit_above(n)) == n,
        (0 <= n < 5 || 8 <= n < 13) ==> pit_above(pit_below(n)) == n,
{
}

/// The row of the screen on which pit `n` is drawn: pit `i` and pit
/// `12 - i` share row `i`.
pub open spec fn screen_row(n: int) -> int {
    if n < 6 {
        n
    } else {
        12 - n
    }
}

/// Law: on the drawn board, "up" and "down" keep the cursor in its column
/// and move it one row up or down, stopping at the top and bottom rows.
/// "Right" from the left column and "left" from the right column cross to
/// the pit drawn on the same row. "Right" from the right column wraps to the
/// left column one row further down, and "left" from the left column wraps
/// to the right column one row further up, stopping at the bottom and top
/// rows.
pub proof fn lemma_cursor_moves_on_screen(n: int)
    requires
        is_playable_pit(n),
    ensures
        (pit_above(n) < 6) == (n < 6),
        screen_row(pit_above(n)) == (if screen_row(n) > 0 {
            screen_row(n) - 1
        } else {
            0
        }),
        (pit_below(n) < 6) == (n < 6),
        screen_row(pit_below(n)) == (if screen_row(n) < 5 {
            screen_row(n) + 1
        } else {
            5
        }),
        n < 6 ==> pit_right_of(n) >= 7 && screen_row(pit_right_of(n)) == screen_row(n),
        n >= 7 ==> pit_left_of(n) < 6 && screen_row(pit_left_of(n)) == screen_row(n),
        n >= 8 ==> pit_right_of(n) < 6 && screen_row(pit_right_of(n)) == screen_row(n) + 1,
        pit_right_of(7) == 7,
        1 <= n < 6 ==> pit_left_of(n) >= 7 && screen_row(pit_left_of(n)) == screen_row(n) - 1,
        pit_left_of(0) == 0,
{
}

} // verus!
