//! The rules of Mancala (Kalah): a board of fourteen pits, two of which
//! (pits 6 and 13) are the players' stores.
//!
//! Player one owns pits 0..=5 and the store at pit 6; player two owns pits
//! 7..=12 and the store at pit 13. Stones are sown counter-clockwise, one per
//! pit, skipping the opponent's store.
use rand::RngExt;
use vstd::prelude::*;
use crate::keys::{Event, KeyCode, KeyEventKind, CONTROL};
use crate::game_laws::lemma_game_over_rows;
use crate::cursor::{pit_above, pit_below, pit_left_of, pit_right_of};
use crate::stones::{
    lemma_stones_in_mono, lemma_stones_in_step, stones, stones_in,
};

verus! {

/// A participant of the game.
pub struct Player {
    pub id: u8,
    pub name: String,
}

/// Whether a game is still being played.
#[derive(PartialEq, Eq, Structural, Clone, Copy)]
pub enum GameStatus {
    Running,
    End,
}

/// The whole state of a game of Mancala.
pub struct Game {
    pub player1: Player,
    pub player2: Player,
    pub turn: u8,
    pub current_player_id: u8,
    pub board: [u8; 14],
    pub status: GameStatus,
    pub is_free_turn: bool,
    pub selected_pit_number: u8,
}

/// The pit that follows `pit` when sowing: the next pit counter-clockwise,
/// where the store at 6 is passed over when `skip6` holds, and the store at
/// 13 when `skip13` holds.
pub open spec fn next_sow_pit(skip6: bool, skip13: bool, pit: int) -> int {
    let n = (pit + 1) % 14;
    if (n == 6 && skip6) || (n == 13 && skip13) {
        (n + 1) % 14
    } else {
        n
    }
}

/// Drops `count` stones one by one into the pits after `pit`; gives the
/// resulting board and the pit that received the last stone (`pit` itself
/// when no stone is sown).
pub open spec fn sow(skip6: bool, skip13: bool, board: Seq<u8>, pit: int, count: nat) -> (Seq<u8>, int)
    decreases count,
{
    if count == 0 {
        (board, pit)
    } else {
        let n = next_sow_pit(skip6, skip13, pit);
        sow(skip6, skip13, board.update(n, (board[n] + 1) as u8), n, (count - 1) as nat)
    }
}

/// No pit that receives a stone while sowing already holds 255 stones.
pub open spec fn sow_fits(skip6: bool, skip13: bool, board: Seq<u8>, pit: int, count: nat) -> bool
    decreases count,
{
    count == 0 || {
        let n = next_sow_pit(skip6, skip13, pit);
        &&& board[n] < 255
        &&& sow_fits(skip6, skip13, board.update(n, (board[n] + 1) as u8), n, (count - 1) as nat)
    }
}


/// Whether either player has no stones left in their six pits.
pub open spec fn no_moves_left(b: Seq<u8>) -> bool {
    (forall|i: int| 0 <= i < 6 ==> b[i] == 0) || (forall|i: int| 7 <= i < 13 ==> b[i] == 0)
}

/// The pit that collects player one's row at the end of the game: the store
/// of the player whose id is 1.
pub open spec fn first_sweep_store(p1_id: u8) -> int {
    if p1_id == 1 {
        6
    } else {
        13
    }
}

/// The pit that collects player two's row at the end of the game: the store
/// of the player whose id is 2.
pub open spec fn second_sweep_store(p1_id: u8) -> int {
    if p1_id == 2 {
        6
    } else {
        13
    }
}

/// The board at the end of the game: the stones of pits 0..=5 go to the
/// first sweep store, those of pits 7..=12 to the second, and both rows
/// are left empty.
pub open spec fn swept_board(p1_id: u8, b: Seq<u8>) -> Seq<u8> {
    let s1 = first_sweep_store(p1_id);
    let s2 = second_sweep_store(p1_id);
    let row1 = stones_in(b, 0, 6);
    let row2 = stones_in(b, 7, 13);
    Seq::new(
        14,
        |i: int|
            if (0 <= i < 6) || (7 <= i < 13) {
                0u8
            } else if i == s1 && i == s2 {
                (b[i] + row1 + row2) as u8
            } else if i == s1 {
                (b[i] + row1) as u8
            } else if i == s2 {
                (b[i] + row2) as u8
            } else {
                b[i]
            },
    )
}

/// Sweeping the rows into the stores pushes no store past 255 stones.
pub open spec fn sweep_fits(p1_id: u8, b: Seq<u8>) -> bool {
    let s1 = first_sweep_store(p1_id);
    let s2 = second_sweep_store(p1_id);
    if s1 == s2 {
        b[s1] + stones_in(b, 0, 6) + stones_in(b, 7, 13) <= 255
    } else {
        b[s1] + stones_in(b, 0, 6) <= 255 && b[s2] + stones_in(b, 7, 13) <= 255
    }
}

/// The text shown when the game is over: the winner is the player whose
/// store holds more stones; equal stores are a draw.
pub open spec fn result_message(p1: Player, p2: Player, b: Seq<u8>) -> Seq<char> {
    let points1 = b[first_sweep_store(p1.id)];
    let points2 = b[second_sweep_store(p1.id)];
    let head = if points1 > points2 {
        "The winner is "@ + p1.name@
    } else if points2 > points1 {
        "The winner is "@ + p2.name@
    } else {
        "It is a draw"@
    };
    head + "\nPress enter to exit."@
}

/// The starting board of a standard game: four stones in every pit, empty
/// stores.
pub open spec fn standard_board() -> Seq<u8> {
    seq![4u8, 4, 4, 4, 4, 4, 0, 4, 4, 4, 4, 4, 4, 0]
}

/// The pit on the other side of the board; a store is its own opposite.
pub open spec fn pit_across(pit: int) -> int {
    if pit == 6 || pit == 13 {
        pit
    } else {
        12 - pit
    }
}


/// What the game loop does after an event has been handled.
pub enum LoopAction {
    /// Control-C: leave the game.
    Quit,
    /// The game is over; the text names the winner.
    GameOver(String),
    /// The move ended in the mover's store; the same player moves again.
    FreeMove,
    /// The move is done and the other player is to move.
    NextPlayer,
    /// The selected pit cannot be played.
    InvalidMove,
    /// Only the board needs to be drawn again.
    Redraw,
    /// Nothing changed.
    Ignore,
}

/// `rand::rngs::ThreadRng`, the random number generator of the current thread.
#[verifier::external_type_specification]
#[verifier::external_body]
pub struct ExThreadRng(rand::rngs::ThreadRng);

/// Calls `rand::rng()`, which hands out the generator of the current
/// thread. Nothing is claimed of it.
#[verifier::external_body]
fn thread_rng() -> (rng: rand::rngs::ThreadRng) {
    rand::rng()
}

/// Calls `RngExt::random_range` on `low..=high`. Claimed: the result lies
/// in `low..=high`. Which value comes out is chance and is not stated; the
/// range is never empty here, so rand does not panic.
#[verifier::external_body]
fn random_in_range(rng: &mut rand::rngs::ThreadRng, low: u8, high: u8) -> (r: u8)
    requires
        low <= high,
    ensures
        low <= r <= high,
{
    rng.random_range(low..=high)
}

/// Every field of `n` is that of `o`, but for the selected pit.
pub open spec fn same_but_selection(o: Game, n: Game) -> bool {
    &&& n.player1 == o.player1
    &&& n.player2 == o.player2
    &&& n.turn == o.turn
    &&& n.current_player_id == o.current_player_id
    &&& n.board == o.board
    &&& n.status == o.status
    &&& n.is_free_turn == o.is_free_turn
}

/// A game just set up: "player1" (id 1) against "player2" (id 2), turn 1,
/// player one to move, running, no free turn, pit 0 selected.
pub open spec fn is_new_game(g: Game) -> bool {
    &&& g.player1.id == 1
    &&& g.player1.name@ == "player1"@
    &&& g.player2.id == 2
    &&& g.player2.name@ == "player2"@
    &&& g.turn == 1
    &&& g.current_player_id == 1
    &&& g.status == GameStatus::Running
    &&& !g.is_free_turn
    &&& g.selected_pit_number == 0
}


/// The id of the player who is not to move.
pub open spec fn other_player_id(o: Game) -> u8 {
    if o.player1.id == o.current_player_id {
        o.player2.id
    } else {
        o.player1.id
    }
}

/// Enter was pressed: the selected pit is played if it is a non-empty pit
/// of the player to move; then the game ends if a row is empty, the same
/// player goes on after a free move, or the other player is to move.
/// Otherwise the move is refused and nothing changes.
pub open spec fn enter_handled(o: Game, n: Game, r: LoopAction) -> bool {
    let sel = o.selected_pit_number as int;
    if o.owns_pit(o.current_player_id, sel) && o.board@[sel] != 0 {
        let b = o.board_after_move(sel);
        let free = o.free_turn_after_move(sel);
        &&& n.turn == o.turn + 1
        &&& n.player1 == o.player1
        &&& n.player2 == o.player2
        &&& n.selected_pit_number == o.selected_pit_number
        &&& n.is_free_turn == free
        &&& if no_moves_left(b) {
            &&& n.board@ == swept_board(o.player1.id, b)
            &&& n.status == GameStatus::End
            &&& n.current_player_id == o.current_player_id
            &&& r matches LoopAction::GameOver(m) && m@ == result_message(
                o.player1,
                o.player2,
                n.board@,
            )
        } else if free {
            &&& n.board@ == b
            &&& n.status == o.status
            &&& n.current_player_id == o.current_player_id
            &&& r is FreeMove
        } else {
            &&& n.board@ == b
            &&& n.status == o.status
            &&& n.current_player_id == other_player_id(o)
            &&& r is NextPlayer
        }
    } else {
        r is InvalidMove && n == o
    }
}

/// How the game loop answers an event: control-C quits, Enter plays the
/// selected pit, the arrow keys move the selection, other key presses are
/// ignored, a key that is not a press only redraws, and other events are
/// ignored.
pub open spec fn event_handled(o: Game, e: Event, n: Game, r: LoopAction) -> bool {
    match e {
        Event::Key(k) => if k.kind == KeyEventKind::Press {
            if k.code == KeyCode::Char('c') && k.modifiers == CONTROL {
                r is Quit && n == o
            } else if k.code == KeyCode::Enter {
                enter_handled(o, n, r)
            } else if k.code == KeyCode::Up {
                r is Redraw && n.selected_pit_number == pit_above(o.selected_pit_number as int)
                    && same_but_selection(o, n)
            } else if k.code == KeyCode::Down {
                r is Redraw && n.selected_pit_number == pit_below(o.selected_pit_number as int)
                    && same_but_selection(o, n)
            } else if k.code == KeyCode::Left {
                r is Redraw && n.selected_pit_number == pit_left_of(o.selected_pit_number as int)
                    && same_but_selection(o, n)
            } else if k.code == KeyCode::Right {
                r is Redraw && n.selected_pit_number == pit_right_of(o.selected_pit_number as int)
                    && same_but_selection(o, n)
            } else {
                r is Ignore && n == o
            }
        } else {
            r is Redraw && n == o
        },
        Event::Other => r is Ignore && n == o,
    }
}

/// Whether `e` makes the player to move play the selected pit.
pub open spec fn plays_selected_pit(o: Game, e: Event) -> bool {
    &&& e matches Event::Key(k) && k.kind == KeyEventKind::Press && k.code == KeyCode::Enter
    &&& o.owns_pit(o.current_player_id, o.selected_pit_number as int)
    &&& o.board@[o.selected_pit_number as int] != 0
}

/// Handling `e` pushes no counter past its limit: a move is played only
/// before turn 255, without a pit passing 255 stones, and the stores can
/// take the rows if the game then ends.
pub open spec fn event_fits(o: Game, e: Event) -> bool {
    plays_selected_pit(o, e) ==> {
        let sel = o.selected_pit_number as int;
        let b = o.board_after_move(sel);
        &&& o.turn < 255
        &&& o.move_fits(sel)
        &&& no_moves_left(b) ==> sweep_fits(o.player1.id, b)
    }
}

impl Game {
    /// The store of `player_id`: pit 6 for player one, pit 13 otherwise.
    pub open spec fn score_pit(&self, player_id: u8) -> int {
        if self.player1.id == player_id {
            6
        } else {
            13
        }
    }

    /// Whether `pit_number` is one of the six playable pits of `player_id`.
    pub open spec fn owns_pit(&self, player_id: u8, pit_number: int) -> bool {
        (self.player1.id == player_id && pit_number < 6) || (self.player2.id == player_id && 7
            <= pit_number < 13)
    }

    /// Whether a last stone in `last_pit` earns the current player another turn:
    /// it landed in that player's own store.
    pub open spec fn free_move(&self, last_pit: int) -> bool {
        (self.current_player_id == self.player1.id && self.score_pit(self.player1.id) == last_pit)
            || (self.current_player_id == self.player2.id && self.score_pit(self.player2.id)
            == last_pit)
    }

    /// Player two's moves pass over the store at 6.
    pub open spec fn skips6(&self) -> bool {
        self.current_player_id == self.player2.id
    }

    /// Player one's moves pass over the store at 13.
    pub open spec fn skips13(&self) -> bool {
        self.current_player_id == self.player1.id
    }

    /// The board after the stones of `pit` are picked up and sown, and the
    /// pit that got the last stone.
    pub open spec fn sown(&self, pit: int) -> (Seq<u8>, int) {
        sow(
            self.skips6(),
            self.skips13(),
            self.board@.update(pit, 0),
            pit,
            self.board@[pit] as nat,
        )
    }

    /// Whether playing `pit` ends with a capture: the last stone fell into an
    /// empty pit (not a free move) facing a non-empty pit, and `pit` belongs
    /// to the current player.
    pub open spec fn captures(&self, pit: int) -> bool {
        let (b, last) = self.sown(pit);
        &&& !self.free_move(last)
        &&& b[last] == 1
        &&& b[pit_across(last)] != 0
        &&& self.owns_pit(self.current_player_id, pit)
    }

    /// The board after the capture step: the last stone and the stones
    /// across from it go to the current player's store.
    pub open spec fn captured_board(&self, pit: int) -> Seq<u8> {
        let (b, last) = self.sown(pit);
        let across = pit_across(last);
        let store = self.score_pit(self.current_player_id);
        let b1 = b.update(store, (b[store] + 1) as u8);
        let b2 = b1.update(last, 0);
        let b3 = b2.update(store, (b2[store] + b2[across]) as u8);
        b3.update(across, 0)
    }

    /// The board after the current player plays `pit`.
    pub open spec fn board_after_move(&self, pit: int) -> Seq<u8> {
        if self.captures(pit) {
            self.captured_board(pit)
        } else {
            self.sown(pit).0
        }
    }

    /// Whether the current player plays again after playing `pit`.
    pub open spec fn free_turn_after_move(&self, pit: int) -> bool {
        let last = self.sown(pit).1;
        if self.free_move(last) {
            true
        } else if self.captures(pit) {
            self.is_free_turn
        } else {
            false
        }
    }

    /// Playing `pit` never pushes a pit past 255 stones.
    pub open spec fn move_fits(&self, pit: int) -> bool {
        let (b, last) = self.sown(pit);
        let across = pit_across(last);
        let store = self.score_pit(self.current_player_id);
        let b2 = b.update(store, (b[store] + 1) as u8).update(last, 0);
        &&& sow_fits(
            self.skips6(),
            self.skips13(),
            self.board@.update(pit, 0),
            pit,
            self.board@[pit] as nat,
        )
        &&& self.captures(pit) ==> b[store] < 255 && b2[store] + b2[across] <= 255
    }

    /// Returns the store of `player_id`.
    pub fn get_player_score_pit_position(&self, player_id: u8) -> (r: u8)
        ensures
            r == self.score_pit(player_id),
    {
        if self.player1.id == player_id {
            6
        } else {
            13
        }
    }

    /// Returns the pit across from `pit_numb`; a store is its own opposite.
    pub fn get_pit_across(&self, pit_numb: u8) -> (r: usize)
        requires
            pit_numb <= 13,
        ensures
            r == pit_across(pit_numb as int),
    {
        if pit_numb == 6 || pit_numb == 13 {
            pit_numb as usize
        } else {
            (12u8 - pit_numb) as usize
        }
    }

    /// Whether `pit_number` is a playable pit of `player_id`.
    pub fn is_players_pit(&self, player_id: u8, pit_number: usize) -> (r: bool)
        ensures
            r == self.owns_pit(player_id, pit_number as int),
    {
        (self.player1.id == player_id && pit_number < 6) || (self.player2.id == player_id && 7
            <= pit_number && pit_number < 13)
    }

    /// Hands the turn to the other player.
    pub fn switch_current_player(&mut self)
        ensures
            final(self).current_player_id == (if old(self).player1.id == old(
                self,
            ).current_player_id {
                old(self).player2.id
            } else {
                old(self).player1.id
            }),
            final(self).player1 == old(self).player1,
            final(self).player2 == old(self).player2,
            final(self).board == old(self).board,
            final(self).turn == old(self).turn,
            final(self).status == old(self).status,
            final(self).is_free_turn == old(self).is_free_turn,
            final(self).selected_pit_number == old(self).selected_pit_number,
    {
        if self.player1.id == self.current_player_id {
            self.current_player_id = self.player2.id;
        } else {
            self.current_player_id = self.player1.id;
        }
    }

    /// Whether a last stone in `last_pit` lands in the current player's store.
    pub fn is_free_move(&self, last_pit: u8) -> (r: bool)
        ensures
            r == self.free_move(last_pit as int),
    {
        (self.current_player_id == self.player1.id && self.get_player_score_pit_position(
            self.player1.id,
        ) == last_pit) || (self.current_player_id == self.player2.id
            && self.get_player_score_pit_position(self.player2.id) == last_pit)
    }

    /// A new game on `board`, between "player1" (id 1) and "player2" (id 2),
    /// with player one to move.
    pub fn from_board(board: [u8; 14]) -> (g: Game)
        ensures
            g.board@ == board@,
            is_new_game(g),
    {
        Game {
            player1: Player { id: 1, name: String::from_str("player1") },
            player2: Player { id: 2, name: String::from_str("player2") },
            turn: 1,
            current_player_id: 1,
            board,
            status: GameStatus::Running,
            is_free_turn: false,
            selected_pit_number: 0,
        }
    }

    /// A new game with four stones in each of the twelve pits.
    pub fn standard_game() -> (g: Game)
        ensures
            g.board@ == standard_board(),
            is_new_game(g),
    {
        let g = Game::from_board([4, 4, 4, 4, 4, 4, 0, 4, 4, 4, 4, 4, 4, 0]);
        assert(g.board@ =~= standard_board());
        g
    }

    /// A new game where each pit of player one gets a random number of
    /// stones from 1 to 7 and the pit across from it gets the same number.
    pub fn random_game() -> (g: Game)
        ensures
            is_new_game(g),
            forall|n: int| 0 <= n < 6 ==> 1 <= #[trigger] g.board@[n] <= 7,
            forall|n: int| 0 <= n < 6 ==> g.board@[n + 7] == #[trigger] g.board@[n],
            g.board@[6] == 0,
            g.board@[13] == 0,
    {
        let mut draws: [u8; 6] = [0; 6];
        let mut rng = thread_rng();
        for n in 0..6usize
            invariant
                draws@.len() == 6,
                forall|j: int| 0 <= j < n ==> 1 <= #[trigger] draws@[j] <= 7,
        {
            draws[n] = random_in_range(&mut rng, 1, 7);
        }
        let g = Game::game_from_draws(draws);
        assert forall|n: int| 0 <= n < 6 implies 1 <= #[trigger] g.board@[n] <= 7 && g.board@[n + 7]
            == g.board@[n] by {
            assert(1 <= draws@[n] <= 7);
        }
        g
    }

    /// A new game whose pits 0..=5 hold the drawn counts, each mirrored in
    /// the pit across from it (pit `n + 7`), with empty stores.
    pub fn game_from_draws(draws: [u8; 6]) -> (g: Game)
        requires
            forall|n: int| 0 <= n < 6 ==> 1 <= #[trigger] draws@[n] <= 7,
        ensures
            is_new_game(g),
            forall|n: int|
                #![trigger draws@[n]]
                0 <= n < 6 ==> g.board@[n] == draws@[n] && g.board@[n + 7] == draws@[n],
            g.board@[6] == 0,
            g.board@[13] == 0,
    {
        let mut board: [u8; 14] = [0; 14];
        for n in 0..6usize
            invariant
                board@.len() == 14,
                draws@.len() == 6,
                forall|j: int|
                    #![trigger draws@[j]]
                    0 <= j < n ==> board@[j] == draws@[j] && board@[j + 7] == draws@[j],
                forall|j: int| n <= j < 7 ==> board@[j] == 0,
                board@[13] == 0,
        {
            let x = draws[n];
            board[n] = x;
            board[n + 7] = x;
        }
        Game::from_board(board)
    }

    /// Moves the selected pit one up.
    pub fn move_selected_pit_up(&mut self)
        ensures
            final(self).selected_pit_number == pit_above(old(self).selected_pit_number as int),
            same_but_selection(*old(self), *final(self)),
    {
        if 1 <= self.selected_pit_number && self.selected_pit_number < 6 {
            self.selected_pit_number -= 1;
        } else if 7 <= self.selected_pit_number && self.selected_pit_number < 12 {
            self.selected_pit_number += 1;
        }
    }

    /// Moves the selected pit one to the left.
    pub fn move_selected_pit_left(&mut self)
        ensures
            final(self).selected_pit_number == pit_left_of(old(self).selected_pit_number as int),
            same_but_selection(*old(self), *final(self)),
    {
        let n = self.selected_pit_number;

        if 1 <= n && n < 6 {
            self.selected_pit_number = 13 - n
        } else if 7 <= n && n < 13 {
            self.selected_pit_number = 12 - n
        }
    }

    /// Moves the selected pit one down.
    pub fn move_selected_pit_down(&mut self)
        ensures
            final(self).selected_pit_number == pit_below(old(self).selected_pit_number as int),
            same_but_selection(*old(self), *final(self)),
    {
        if self.selected_pit_number < 5 {
            self.selected_pit_number += 1;
        } else if 8 <= self.selected_pit_number && self.selected_pit_number < 13 {
            self.selected_pit_number -= 1;
        }
    }

    /// Moves the selected pit one to the right.
    pub fn move_selected_pit_right(&mut self)
        ensures
            final(self).selected_pit_number == pit_right_of(old(self).selected_pit_number as int),
            same_but_selection(*old(self), *final(self)),
    {
        let n = self.selected_pit_number;

        if n < 6 {
            self.selected_pit_number = 12 - n;
        } else if 8 <= n && n < 13 {
            self.selected_pit_number = 13 - n;
        }
    }

    /// The name of the player to move: player one's when the current id is
    /// player one's, player two's otherwise.
    pub fn current_player_name(&self) -> (r: String)
        ensures
            r@ == (if self.current_player_id == self.player1.id {
                self.player1.name@
            } else {
                self.player2.name@
            }),
    {
        if self.current_player_id == self.player1.id {
            self.player1.name.clone()
        } else {
            self.player2.name.clone()
        }
    }

    /// The number of stones on the whole board.
    pub fn total_stones(&self) -> (r: u16)
        ensures
            r == stones(self.board@),
    {
        let mut total: u16 = 0;
        for i in 0..14usize
            invariant
                total == stones_in(self.board@, 0, i as int),
                total <= 255 * i,
        {
            proof {
                lemma_stones_in_step(self.board@, 0, i as int);
            }
            total += self.board[i] as u16;
        }
        assert(self.board@.subrange(0, 14) =~= self.board@);
        total
    }

    /// Handles one terminal event of the game loop and says what the loop
    /// has to do next.
    pub fn handle_event(&mut self, event: &Event) -> (r: LoopAction)
        requires
            event_fits(*old(self), *event),
        ensures
            event_handled(*old(self), *event, *final(self), r),
    {
        match event {
            Event::Key(key_event) => {
                if key_event.is_press() {
                    if key_event.code == KeyCode::Char('c') && key_event.modifiers == CONTROL {
                        return LoopAction::Quit;
                    } else if key_event.code == KeyCode::Enter {
                        let move_number = self.selected_pit_number;
                        if self.is_players_pit(self.current_player_id, move_number as usize)
                            && self.board[move_number as usize] != 0 {
                            self.play_move(move_number);
                            if self.no_valid_moves_for_eather_player() {
                                let message = self.end_game();
                                return LoopAction::GameOver(message);
                            }
                            if self.is_free_turn {
                                LoopAction::FreeMove
                            } else {
                                self.switch_current_player();
                                LoopAction::NextPlayer
                            }
                        } else {
                            LoopAction::InvalidMove
                        }
                    } else if key_event.code == KeyCode::Up {
                        self.move_selected_pit_up();
                        LoopAction::Redraw
                    } else if key_event.code == KeyCode::Down {
                        self.move_selected_pit_down();
                        LoopAction::Redraw
                    } else if key_event.code == KeyCode::Left {
                        self.move_selected_pit_left();
                        LoopAction::Redraw
                    } else if key_event.code == KeyCode::Right {
                        self.move_selected_pit_right();
                        LoopAction::Redraw
                    } else {
                        LoopAction::Ignore
                    }
                } else {
                    LoopAction::Redraw
                }
            },
            Event::Other => LoopAction::Ignore,
        }
    }

    /// Whether either player has run out of stones in their six pits.
    pub fn no_valid_moves_for_eather_player(&self) -> (r: bool)
        ensures
            r == no_moves_left(self.board@),
            r == ((self.board[0] == 0 && self.board[1] == 0 && self.board[2] == 0 && self.board[3]
                == 0 && self.board[4] == 0 && self.board[5] == 0) || (self.board[7] == 0
                && self.board[8] == 0 && self.board[9] == 0 && self.board[10] == 0
                && self.board[11] == 0 && self.board[12] == 0)),
    {
        let mut player1_valid_pits: u8 = 0;
        let mut player2_valid_pits: u8 = 0;
        for n in 0..6usize
            invariant
                player1_valid_pits <= n,
                player2_valid_pits <= n,
                (player1_valid_pits == 0) == (forall|i: int| 0 <= i < n ==> self.board@[i] == 0),
                (player2_valid_pits == 0) == (forall|i: int|
                    7 <= i < 7 + n ==> self.board@[i] == 0),
        {
            if self.board[n] != 0 {
                player1_valid_pits += 1;
            }
            if self.board[n + 7] != 0 {
                player2_valid_pits += 1;
            }
        }
        proof {
            lemma_game_over_rows(self.board@);
        }
        if player1_valid_pits == 0 || player2_valid_pits == 0 {
            return true;
        }
        false
    }

    /// Ends the game: each row is swept into a store (player one's row into
    /// the store of the player with id 1, player two's row into the store of
    /// the player with id 2), the status becomes `End`, and the returned text
    /// names the winner.
    pub fn end_game(&mut self) -> (message: String)
        requires
            sweep_fits(old(self).player1.id, old(self).board@),
        ensures
            final(self).board@ == swept_board(old(self).player1.id, old(self).board@),
            final(self).status == GameStatus::End,
            message@ == result_message(old(self).player1, old(self).player2, final(self).board@),
            final(self).player1 == old(self).player1,
            final(self).player2 == old(self).player2,
            final(self).current_player_id == old(self).current_player_id,
            final(self).turn == old(self).turn,
            final(self).is_free_turn == old(self).is_free_turn,
            final(self).selected_pit_number == old(self).selected_pit_number,
    {
        let ghost b = self.board@;
        let mut board = self.board;
        let s1 = self.get_player_score_pit_position(1) as usize;
        let s2 = self.get_player_score_pit_position(2) as usize;
        proof {
            lemma_stones_in_mono(b, 0, 0, 6);
            lemma_stones_in_mono(b, 7, 7, 13);
        }
        for i in 0..6usize
            invariant
                s1 == first_sweep_store(self.player1.id),
                s2 == second_sweep_store(self.player1.id),
                b == self.board@,
                sweep_fits(self.player1.id, b),
                0 <= stones_in(b, 7, 13),
                forall|j: int| 0 <= j < i ==> board@[j] == 0,
                forall|j: int| i <= j < 14 && j != s1 ==> board@[j] == b[j],
                board@[s1 as int] == b[s1 as int] + stones_in(b, 0, i as int),
        {
            proof {
                lemma_stones_in_step(b, 0, i as int);
                lemma_stones_in_mono(b, 0, i + 1, 6);
            }
            board[self.get_player_score_pit_position(1) as usize] += board[i];
            board[i] = 0;
        }
        let ghost mid = board@;
        proof {
            lemma_stones_in_mono(b, 0, 0, 6);
        }
        for i in 7..13usize
            invariant
                s1 == first_sweep_store(self.player1.id),
                s2 == second_sweep_store(self.player1.id),
                b == self.board@,
                sweep_fits(self.player1.id, b),
                0 <= stones_in(b, 0, 6),
                mid.len() == 14,
                forall|j: int| (j == 6 || j == 13) && j != s1 && j != s2 ==> board@[j] == b[j],
                mid[s2 as int] == (if s1 == s2 {
                    b[s2 as int] + stones_in(b, 0, 6)
                } else {
                    b[s2 as int] as int
                }),
                forall|j: int| 0 <= j < 6 ==> board@[j] == 0,
                forall|j: int| 7 <= j < i ==> board@[j] == 0,
                forall|j: int| i <= j < 14 && j != s1 && j != s2 ==> board@[j] == b[j],
                s1 != s2 ==> board@[s1 as int] == b[s1 as int] + stones_in(b, 0, 6),
                board@[s2 as int] == mid[s2 as int] + stones_in(b, 7, i as int),
        {
            proof {
                lemma_stones_in_step(b, 7, i as int);
                lemma_stones_in_mono(b, 7, i + 1, 13);
                assert(stones_in(b, 7, 7) == 0) by {
                    assert(b.subrange(7, 7) =~= Seq::<u8>::empty());
                }
            }
            board[self.get_player_score_pit_position(2) as usize] += board[i];
            board[i] = 0;
        }
        assert(board@ =~= swept_board(self.player1.id, b));

        let player1_point = board[s1];
        let player2_point = board[s2];
        let mut end_string: String;
        if player1_point > player2_point {
            end_string = String::from_str("The winner is ").concat(self.player1.name.as_str());
        } else if player2_point > player1_point {
            end_string = String::from_str("The winner is ").concat(self.player2.name.as_str());
        } else {
            end_string = String::from_str("It is a draw");
        }
        end_string = end_string.concat("\nPress enter to exit.");
        self.board = board;
        self.status = GameStatus::End;
        end_string
    }

    /// Plays the stones of `pit_number` for the current player: they are sown
    /// one per pit, passing over the opponent's store; a last stone in the
    /// player's own store earns a free turn, and, when the played pit is the
    /// player's own, a last stone in an empty pit facing stones captures both
    /// into the player's store.
    pub fn play_move(&mut self, pit_number: u8)
        requires
            pit_number < 14,
            old(self).turn < 255,
            old(self).move_fits(pit_number as int),
        ensures
            final(self).turn == old(self).turn + 1,
            final(self).board@ == old(self).board_after_move(pit_number as int),
            final(self).is_free_turn == old(self).free_turn_after_move(pit_number as int),
            final(self).player1 == old(self).player1,
            final(self).player2 == old(self).player2,
            final(self).current_player_id == old(self).current_player_id,
            final(self).status == old(self).status,
            final(self).selected_pit_number == old(self).selected_pit_number,
    {
        self.turn += 1;
        let mut board = self.board;
        let mut gems_number = board[pit_number as usize];
        let mut current_pit = pit_number;
        board[pit_number as usize] = 0;
        let ghost s6 = self.skips6();
        let ghost s13 = self.skips13();
        let ghost target = old(self).sown(pit_number as int);
        while gems_number > 0
            invariant
                current_pit < 14,
                s6 == (self.current_player_id == self.player2.id),
                s13 == (self.current_player_id == self.player1.id),
                sow(s6, s13, board@, current_pit as int, gems_number as nat) == target,
                sow_fits(s6, s13, board@, current_pit as int, gems_number as nat),
            decreases 2 * gems_number + (if (((current_pit + 1) % 14 == 6 && s6) || ((current_pit
                + 1) % 14 == 13 && s13)) {
                1int
            } else {
                0int
            }),
        {
            let ghost prev = current_pit;
            current_pit += 1;
            current_pit = current_pit % 14;
            if current_pit == 6 && self.current_player_id == self.player2.id {
                assert(next_sow_pit(s6, s13, prev as int) == next_sow_pit(
                    s6,
                    s13,
                    current_pit as int,
                ));
                continue ;
            } else if current_pit == 13 && self.current_player_id == self.player1.id {
                assert(next_sow_pit(s6, s13, prev as int) == next_sow_pit(
                    s6,
                    s13,
                    current_pit as int,
                ));
                continue ;
            } else {
                board[current_pit as usize] += 1;
                gems_number -= 1;
            }
        }
        self.board = board;
        let pit_across_numb = self.get_pit_across(current_pit);
        if self.is_free_move(current_pit) {
            self.is_free_turn = true;
        } else if self.board[current_pit as usize] == 1 && self.board[pit_across_numb] != 0
            && self.is_players_pit(self.current_player_id, pit_number as usize) {
            let current_player = self.current_player_id;
            let player_pit_number = self.get_player_score_pit_position(current_player);

            self.board[player_pit_number as usize] += 1;
            self.board[current_pit as usize] = 0;

            self.board[player_pit_number as usize] += self.board[pit_across_numb];
            self.board[pit_across_numb] = 0;
        } else {
            self.is_free_turn = false;
        }
    }
}

} // verus!
