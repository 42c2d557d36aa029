//! Facts about stone counts on the Mancala board, and the laws that the
//! moves of a game keep.
use vstd::prelude::*;
use crate::cursor::is_playable_pit;
use crate::game::{
    standard_board, event_fits, event_handled, next_sow_pit, no_moves_left, pit_across, plays_selected_pit, sow,
    sow_fits, swept_board, sweep_fits, Game, GameStatus, LoopAction,
};
use crate::keys::{Event, KeyCode, KeyEventKind};
use crate::sowing::{lemma_sow_laps, sowing_steps, stones_dropped};
use crate::stones::{
    lemma_pit_le_stones, lemma_stones_in_empty, lemma_stones_in_mono, lemma_stones_in_step,
    lemma_stones_of_board, lemma_stones_update, lemma_three_pits_le_stones, stones, stones_in,
};

verus! {

/// The pit after any pit is never a store that is passed over.
pub proof fn lemma_next_sow_pit(skip6: bool, skip13: bool, pit: int)
    requires
        0 <= pit < 14,
    ensures
        0 <= next_sow_pit(skip6, skip13, pit) < 14,
        !(next_sow_pit(skip6, skip13, pit) == 6 && skip6),
        !(next_sow_pit(skip6, skip13, pit) == 13 && skip13),
{
}

/// Sowing `count` stones adds exactly `count` stones to the board, keeps its
/// size, leaves every passed-over store untouched, and ends in a pit that is
/// not passed over (or in `pit` when nothing is sown).
pub proof fn lemma_sow(skip6: bool, skip13: bool, board: Seq<u8>, pit: int, count: nat)
    requires
        board.len() == 14,
        0 <= pit < 14,
        sow_fits(skip6, skip13, board, pit, count),
    ensures
        sow(skip6, skip13, board, pit, count).0.len() == 14,
        stones(sow(skip6, skip13, board, pit, count).0) == stones(board) + count,
        0 <= sow(skip6, skip13, board, pit, count).1 < 14,
        count == 0 ==> sow(skip6, skip13, board, pit, count).1 == pit,
        count > 0 ==> !(sow(skip6, skip13, board, pit, count).1 == 6 && skip6),
        count > 0 ==> !(sow(skip6, skip13, board, pit, count).1 == 13 && skip13),
        skip6 ==> sow(skip6, skip13, board, pit, count).0[6] == board[6],
        skip13 ==> sow(skip6, skip13, board, pit, count).0[13] == board[13],
    decreases count,
{
    if count > 0 {
        let n = next_sow_pit(skip6, skip13, pit);
        lemma_next_sow_pit(skip6, skip13, pit);
        let b = board.update(n, (board[n] + 1) as u8);
        lemma_stones_update(board, n, (board[n] + 1) as u8);
        lemma_sow(skip6, skip13, b, n, (count - 1) as nat);
    }
}

/// A board of at most 255 stones in all can take `count` more stones
/// without any pit passing 255 (as long as the total stays at most 255).
pub proof fn lemma_sow_fits(skip6: bool, skip13: bool, board: Seq<u8>, pit: int, count: nat)
    requires
        board.len() == 14,
        0 <= pit < 14,
        stones(board) + count <= 255,
    ensures
        sow_fits(skip6, skip13, board, pit, count),
    decreases count,
{
    if count > 0 {
        let n = next_sow_pit(skip6, skip13, pit);
        lemma_next_sow_pit(skip6, skip13, pit);
        lemma_pit_le_stones(board, n);
        let b = board.update(n, (board[n] + 1) as u8);
        lemma_stones_update(board, n, (board[n] + 1) as u8);
        lemma_sow_fits(skip6, skip13, b, n, (count - 1) as nat);
    }
}

/// When a move captures, the pit of the last stone, the pit across from it
/// and the mover's store are three different pits, and the last stone is
/// not in a store.
proof fn lemma_capture_pits_distinct(g: Game, pit: int)
    requires
        0 <= pit < 14,
        g.captures(pit),
        sow_fits(g.skips6(), g.skips13(), g.board@.update(pit, 0), pit, g.board@[pit] as nat),
    ensures
        ({
            let (b, last) = g.sown(pit);
            let across = pit_across(last);
            let store = g.score_pit(g.current_player_id);
            &&& 0 <= last < 14
            &&& last != 6 && last != 13
            &&& 0 <= across < 14
            &&& across != last
            &&& store != last
            &&& store != across
            &&& (store == 6 || store == 13)
        }),
{
    lemma_sow(g.skips6(), g.skips13(), g.board@.update(pit, 0), pit, g.board@[pit] as nat);
}

/// Law: playing a pit neither creates nor destroys stones; the board holds
/// as many stones after a move as before it.
pub proof fn lemma_play_move_conserves_stones(g: Game, pit: int)
    requires
        0 <= pit < 14,
        g.move_fits(pit),
    ensures
        stones(g.board_after_move(pit)) == stones(g.board@),
{
    let b0 = g.board@.update(pit, 0);
    lemma_stones_update(g.board@, pit, 0);
    lemma_sow(g.skips6(), g.skips13(), b0, pit, g.board@[pit] as nat);
    if g.captures(pit) {
        lemma_capture_pits_distinct(g, pit);
        let (b, last) = g.sown(pit);
        let across = pit_across(last);
        let store = g.score_pit(g.current_player_id);
        let b1 = b.update(store, (b[store] + 1) as u8);
        let b2 = b1.update(last, 0);
        let b3 = b2.update(store, (b2[store] + b2[across]) as u8);
        lemma_stones_update(b, store, (b[store] + 1) as u8);
        lemma_stones_update(b1, last, 0);
        lemma_stones_update(b2, store, (b2[store] + b2[across]) as u8);
        lemma_stones_update(b3, across, 0);
    }
}

/// Law: when the board holds at most 255 stones in all, every pit may be
/// played without a pit passing 255 stones.
pub proof fn lemma_bounded_board_move_fits(g: Game, pit: int)
    requires
        0 <= pit < 14,
        stones(g.board@) <= 255,
    ensures
        g.move_fits(pit),
{
    let b0 = g.board@.update(pit, 0);
    lemma_stones_update(g.board@, pit, 0);
    lemma_sow_fits(g.skips6(), g.skips13(), b0, pit, g.board@[pit] as nat);
    lemma_sow(g.skips6(), g.skips13(), b0, pit, g.board@[pit] as nat);
    if g.captures(pit) {
        lemma_capture_pits_distinct(g, pit);
        let (b, last) = g.sown(pit);
        let across = pit_across(last);
        let store = g.score_pit(g.current_player_id);
        lemma_three_pits_le_stones(b, store, last, across);
    }
}

/// Law: a legal move (a pit of the current player, in a game whose two
/// players are told apart) never changes the opponent's store.
pub proof fn lemma_play_move_keeps_opponent_store(g: Game, pit: int)
    requires
        0 <= pit < 14,
        g.move_fits(pit),
        g.player1.id != g.player2.id,
        g.owns_pit(g.current_player_id, pit),
    ensures
        ({
            let opponent_store = if g.current_player_id == g.player1.id {
                13int
            } else {
                6int
            };
            g.board_after_move(pit)[opponent_store] == g.board@[opponent_store]
        }),
{
    let b0 = g.board@.update(pit, 0);
    lemma_sow(g.skips6(), g.skips13(), b0, pit, g.board@[pit] as nat);
    if g.captures(pit) {
        lemma_capture_pits_distinct(g, pit);
    }
}

/// Sowing only adds stones: no pit holds fewer stones afterwards.
pub proof fn lemma_sow_only_adds(skip6: bool, skip13: bool, board: Seq<u8>, pit: int, count: nat)
    requires
        board.len() == 14,
        0 <= pit < 14,
        sow_fits(skip6, skip13, board, pit, count),
    ensures
        forall|k: int| 0 <= k < 14 ==> #[trigger] sow(skip6, skip13, board, pit, count).0[k] >= board[k],
    decreases count,
{
    if count > 0 {
        let n = next_sow_pit(skip6, skip13, pit);
        lemma_next_sow_pit(skip6, skip13, pit);
        let b = board.update(n, (board[n] + 1) as u8);
        lemma_sow_only_adds(skip6, skip13, b, n, (count - 1) as nat);
        lemma_sow(skip6, skip13, b, n, (count - 1) as nat);
        assert forall|k: int| 0 <= k < 14 implies #[trigger] sow(skip6, skip13, board, pit, count).0[k]
            >= board[k] by {
            assert(sow(skip6, skip13, b, n, (count - 1) as nat).0[k] >= b[k]);
            assert(b[k] >= board[k]);
        }
    }
}

/// Law: a legal move (a pit of the current player) never takes stones from
/// the mover's own store.
pub proof fn lemma_play_move_keeps_own_store(g: Game, pit: int)
    requires
        0 <= pit < 14,
        g.move_fits(pit),
        g.owns_pit(g.current_player_id, pit),
    ensures
        ({
            let own_store = g.score_pit(g.current_player_id);
            g.board_after_move(pit)[own_store] >= g.board@[own_store]
        }),
{
    let b0 = g.board@.update(pit, 0);
    let own_store = g.score_pit(g.current_player_id);
    lemma_sow(g.skips6(), g.skips13(), b0, pit, g.board@[pit] as nat);
    lemma_sow_only_adds(g.skips6(), g.skips13(), b0, pit, g.board@[pit] as nat);
    assert(g.sown(pit).0[own_store] >= b0[own_store]);
    if g.captures(pit) {
        lemma_capture_pits_distinct(g, pit);
    }
}

/// Law: ending the game keeps every stone on the board and leaves both
/// rows of pits empty.
pub proof fn lemma_end_game_conserves_stones(p1_id: u8, b: Seq<u8>)
    requires
        b.len() == 14,
        sweep_fits(p1_id, b),
    ensures
        stones(swept_board(p1_id, b)) == stones(b),
        forall|i: int| is_playable_pit(i) ==> #[trigger] swept_board(p1_id, b)[i] == 0,
{
    let s = swept_board(p1_id, b);
    lemma_stones_in_mono(b, 0, 0, 6);
    lemma_stones_in_mono(b, 7, 7, 13);
    lemma_stones_of_board(b);
    lemma_stones_of_board(s);
    lemma_stones_in_empty(s, 0, 6);
    lemma_stones_in_empty(s, 7, 13);
}

/// Law: a board of at most 255 stones in all can always be swept into the
/// stores.
pub proof fn lemma_bounded_board_sweep_fits(p1_id: u8, b: Seq<u8>)
    requires
        b.len() == 14,
        stones(b) <= 255,
    ensures
        sweep_fits(p1_id, b),
{
    lemma_stones_in_mono(b, 0, 0, 6);
    lemma_stones_in_mono(b, 7, 7, 13);
    lemma_stones_of_board(b);
}

/// Law: in a game of at most 255 stones, before turn 255, every event can
/// be handled without a counter passing its limit.
pub proof fn lemma_bounded_game_event_fits(g: Game, e: Event)
    requires
        stones(g.board@) <= 255,
        g.turn < 255,
    ensures
        event_fits(g, e),
{
    if plays_selected_pit(g, e) {
        let sel = g.selected_pit_number as int;
        lemma_bounded_board_move_fits(g, sel);
        lemma_play_move_conserves_stones(g, sel);
        lemma_board_after_move_len(g, sel);
        lemma_bounded_board_sweep_fits(g.player1.id, g.board_after_move(sel));
    }
}

/// The board after a move still has fourteen pits.
proof fn lemma_board_after_move_len(g: Game, pit: int)
    requires
        0 <= pit < 14,
        g.move_fits(pit),
    ensures
        g.board_after_move(pit).len() == 14,
{
    lemma_sow(g.skips6(), g.skips13(), g.board@.update(pit, 0), pit, g.board@[pit] as nat);
}

/// Law: whatever event the game loop handles, the board keeps exactly the
/// stones it had, the two players stay the same, and the turn stays with
/// one of them.
pub proof fn lemma_event_conserves_stones(o: Game, e: Event, n: Game, r: LoopAction)
    requires
        event_fits(o, e),
        event_handled(o, e, n, r),
    ensures
        stones(n.board@) == stones(o.board@),
        n.player1 == o.player1,
        n.player2 == o.player2,
        (o.current_player_id == o.player1.id || o.current_player_id == o.player2.id) ==> (
        n.current_player_id == n.player1.id || n.current_player_id == n.player2.id),
{
    if plays_selected_pit(o, e) {
        let sel = o.selected_pit_number as int;
        lemma_play_move_conserves_stones(o, sel);
        lemma_board_after_move_len(o, sel);
        let b = o.board_after_move(sel);
        if no_moves_left(b) {
            lemma_end_game_conserves_stones(o.player1.id, b);
        }
    }
}

/// Law: a standard game starts with 48 stones, and a random game with at
/// most 84 (seven in each of twelve pits); so both start within the bound
/// under which every event can be handled.
pub proof fn lemma_new_boards_bounded(b: Seq<u8>)
    requires
        b.len() == 14,
        forall|n: int| 0 <= n < 6 ==> 1 <= #[trigger] b[n] <= 7,
        forall|n: int| 0 <= n < 6 ==> b[n + 7] == #[trigger] b[n],
        b[6] == 0,
        b[13] == 0,
    ensures
        stones(b) <= 84,
        stones(standard_board()) == 48,
{
    lemma_stones_of_board(b);
    assert(b[7] == b[0] && b[8] == b[1] && b[9] == b[2] && b[10] == b[3] && b[11] == b[4]
        && b[12] == b[5]);
    assert(b[0] <= 7 && b[1] <= 7 && b[2] <= 7 && b[3] <= 7 && b[4] <= 7 && b[5] <= 7);
    lemma_stones_in_bounded(b, 0, 6);
    lemma_stones_in_bounded(b, 7, 13);
    reveal_with_fuel(stones, 15);
}

/// A range of pits of at most seven stones each holds at most seven stones
/// per pit.
proof fn lemma_stones_in_bounded(b: Seq<u8>, lo: int, hi: int)
    requires
        0 <= lo <= hi <= b.len(),
        forall|n: int| lo <= n < hi ==> b[n] <= 7,
    ensures
        stones_in(b, lo, hi) <= 7 * (hi - lo),
    decreases hi - lo,
{
    if lo < hi {
        lemma_stones_in_step(b, lo, hi - 1);
        lemma_stones_in_bounded(b, lo, hi - 1);
    } else {
        assert(b.subrange(lo, hi) =~= Seq::<u8>::empty());
    }
}

/// Law: when the mover plays one of their own pits and the last stone lands
/// in a pit that is not a store, that was empty before it (it now holds that
/// one stone), and whose opposite pit holds at least one stone, the mover's
/// store gains the last stone and every stone of the opposite pit, both of
/// those pits end empty, and every other pit keeps what the sowing left in
/// it. In every other case (a pit of the opponent or a store played among
/// them) the board is the board after sowing.
pub proof fn lemma_capture(g: Game, pit: int)
    requires
        0 <= pit < 14,
        g.move_fits(pit),
    ensures
        ({
            let (b, last) = g.sown(pit);
            let store = if g.current_player_id == g.player1.id {
                6int
            } else {
                13int
            };
            let a = g.board_after_move(pit);
            &&& a.len() == 14
            &&& 0 <= last < 14
            &&& if ((g.current_player_id == g.player1.id && pit < 6) || (g.current_player_id
                == g.player2.id && 7 <= pit < 13)) && last != 6 && last != 13 && b[last] == 1
                && b[12 - last] >= 1 {
                &&& a[store] == b[store] + 1 + b[12 - last]
                &&& a[last] == 0
                &&& a[12 - last] == 0
                &&& forall|k: int|
                    0 <= k < 14 && k != store && k != last && k != 12 - last ==> #[trigger] a[k]
                        == b[k]
            } else {
                a == b
            }
        }),
{
    let b0 = g.board@.update(pit, 0);
    lemma_sow(g.skips6(), g.skips13(), b0, pit, g.board@[pit] as nat);
    if g.captures(pit) {
        lemma_capture_pits_distinct(g, pit);
    }
}

/// Law: the game is over exactly when each of player one's pits 0..=5 is
/// empty, or each of player two's pits 7..=12 is empty.
pub proof fn lemma_game_over_rows(b: Seq<u8>)
    requires
        b.len() == 14,
    ensures
        no_moves_left(b) == ((b[0] == 0 && b[1] == 0 && b[2] == 0 && b[3] == 0 && b[4] == 0
            && b[5] == 0) || (b[7] == 0 && b[8] == 0 && b[9] == 0 && b[10] == 0 && b[11] == 0
            && b[12] == 0)),
{
    if b[0] == 0 && b[1] == 0 && b[2] == 0 && b[3] == 0 && b[4] == 0 && b[5] == 0 {
        assert forall|i: int| 0 <= i < 6 implies b[i] == 0 by {
            if i == 0 {
            } else if i == 1 {
            } else if i == 2 {
            } else if i == 3 {
            } else if i == 4 {
            } else {
            }
        }
    }
    if b[7] == 0 && b[8] == 0 && b[9] == 0 && b[10] == 0 && b[11] == 0 && b[12] == 0 {
        assert forall|i: int| 7 <= i < 13 implies b[i] == 0 by {
            if i == 7 {
            } else if i == 8 {
            } else if i == 9 {
            } else if i == 10 {
            } else if i == 11 {
            } else {
            }
        }
    }
}

/// Law: the turn passes only when the game loop answers `NextPlayer`, and
/// then to the other player: player two when player one was to move, and
/// player one otherwise. On every other answer the same player is still to
/// move.
pub proof fn lemma_turn_passes(o: Game, e: Event, n: Game, r: LoopAction)
    requires
        event_handled(o, e, n, r),
    ensures
        r is NextPlayer ==> n.current_player_id == (if o.current_player_id == o.player1.id {
            o.player2.id
        } else {
            o.player1.id
        }),
        !(r is NextPlayer) ==> n.current_player_id == o.current_player_id,
{
}

/// Law: a move sows counter-clockwise from the played pit, one stone per
/// pit, passing over the opponent's store. The played pit is emptied first;
/// then the pit `k` pits along (the opponent's store not counted, 13 for the
/// played pit itself) gets one stone for each lap of thirteen pits that
/// reaches it, the opponent's store keeps its stones, and the last stone lies
/// `(count - 1) % 13 + 1` pits along.
pub proof fn lemma_move_sows(g: Game, pit: int)
    requires
        0 <= pit < 14,
        g.move_fits(pit),
        g.player1.id != g.player2.id,
        g.current_player_id == g.player1.id || g.current_player_id == g.player2.id,
        pit != (if g.current_player_id == g.player1.id {
            13int
        } else {
            6int
        }),
    ensures
        ({
            let opponent_store = if g.current_player_id == g.player1.id {
                13int
            } else {
                6int
            };
            let count = g.board@[pit] as int;
            let (b, last) = g.sown(pit);
            &&& b.len() == 14
            &&& b[opponent_store] == g.board@[opponent_store]
            &&& forall|k: int|
                0 <= k < 14 && k != opponent_store ==> #[trigger] b[k] == (if k == pit {
                    0
                } else {
                    g.board@[k] as int
                }) + stones_dropped(count, sowing_steps(pit, opponent_store, k))
            &&& 0 <= last < 14
            &&& last != opponent_store
            &&& count == 0 ==> last == pit
            &&& count > 0 ==> sowing_steps(pit, opponent_store, last) == (count - 1) % 13 + 1
        }),
{
    let opponent_store = if g.current_player_id == g.player1.id {
        13int
    } else {
        6int
    };
    let b0 = g.board@.update(pit, 0);
    lemma_sow_laps(opponent_store, b0, pit, g.board@[pit] as nat);
}

/// Law: Enter on a non-empty pit of the player to move plays it and counts
/// a turn. If a row is then empty the game is over and the same player is
/// still the one to move. Otherwise a last stone in the mover's own store
/// gives the mover another move; a capture leaves the free-move flag as it
/// was; any other move hands the turn to the other player.
pub proof fn lemma_enter_outcome(o: Game, e: Event, n: Game, r: LoopAction)
    requires
        event_fits(o, e),
        event_handled(o, e, n, r),
        e matches Event::Key(k) && k.kind == KeyEventKind::Press && k.code == KeyCode::Enter,
        (o.current_player_id == o.player1.id && o.selected_pit_number < 6) || (o.current_player_id
            == o.player2.id && 7 <= o.selected_pit_number < 13),
        o.board@[o.selected_pit_number as int] != 0,
    ensures
        ({
            let sel = o.selected_pit_number as int;
            let a = o.board_after_move(sel);
            let (b, last) = o.sown(sel);
            let store = if o.current_player_id == o.player1.id {
                6int
            } else {
                13int
            };
            let other = if o.current_player_id == o.player1.id {
                o.player2.id
            } else {
                o.player1.id
            };
            let captured = last != 6 && last != 13 && b[last] == 1 && b[12 - last] != 0;
            &&& n.turn == o.turn + 1
            &&& no_moves_left(a) ==> r is GameOver && n.status == GameStatus::End
                && n.current_player_id == o.current_player_id
            &&& !no_moves_left(a) ==> n.board@ == a
            &&& (!no_moves_left(a) && last == store) ==> r is FreeMove && n.is_free_turn
                && n.current_player_id == o.current_player_id
            &&& (!no_moves_left(a) && captured) ==> n.is_free_turn == o.is_free_turn && if o.is_free_turn {
                r is FreeMove && n.current_player_id == o.current_player_id
            } else {
                r is NextPlayer && n.current_player_id == other
            }
            &&& (!no_moves_left(a) && last != store && !captured) ==> r is NextPlayer
                && !n.is_free_turn && n.current_player_id == other
        }),
{
    let sel = o.selected_pit_number as int;
    lemma_sow(o.skips6(), o.skips13(), o.board@.update(sel, 0), sel, o.board@[sel] as nat);
}
} // verus!
