use mancala::game::{Game, GameStatus, LoopAction};
use mancala::keys::{Event, KeyCode, KeyEvent, KeyEventKind, CONTROL, NO_MODIFIERS};

fn press(code: KeyCode) -> Event {
    Event::Key(KeyEvent::new(code, NO_MODIFIERS))
}

fn total(board: &[u8; 14]) -> u32 {
    board.iter().map(|&x| x as u32).sum()
}

#[test]
fn standard_game_starts_with_four_stones_per_pit() {
    let g = Game::standard_game();
    assert_eq!(g.board, [4, 4, 4, 4, 4, 4, 0, 4, 4, 4, 4, 4, 4, 0]);
    assert_eq!(g.player1.id, 1);
    assert_eq!(g.player1.name, "player1");
    assert_eq!(g.player2.id, 2);
    assert_eq!(g.player2.name, "player2");
    assert_eq!(g.turn, 1);
    assert_eq!(g.current_player_id, 1);
    assert!(g.status == GameStatus::Running);
    assert!(!g.is_free_turn);
    assert_eq!(g.selected_pit_number, 0);
    assert_eq!(g.total_stones(), 48);
}

#[test]
fn random_game_mirrors_pits_between_one_and_seven() {
    let mut seen = [false; 8];
    for _ in 0..50 {
        let g = Game::random_game();
        for n in 0..6 {
            assert!(g.board[n] >= 1 && g.board[n] <= 7);
            assert_eq!(g.board[n + 7], g.board[n]);
            seen[g.board[n] as usize] = true;
        }
        assert_eq!(g.board[6], 0);
        assert_eq!(g.board[13], 0);
        assert!(g.total_stones() <= 84);
        assert_eq!(g.current_player_id, 1);
    }
    // Three hundred draws do not all give the same count.
    assert!(seen.iter().filter(|&&s| s).count() > 1);
}

#[test]
fn score_pits_and_pits_across() {
    let g = Game::standard_game();
    assert_eq!(g.get_player_score_pit_position(1), 6);
    assert_eq!(g.get_player_score_pit_position(2), 13);
    assert_eq!(g.get_pit_across(0), 12);
    assert_eq!(g.get_pit_across(5), 7);
    assert_eq!(g.get_pit_across(12), 0);
    assert_eq!(g.get_pit_across(6), 6);
    assert_eq!(g.get_pit_across(13), 13);
}

#[test]
fn players_own_their_rows() {
    let g = Game::standard_game();
    assert!(g.is_players_pit(1, 0));
    assert!(g.is_players_pit(1, 5));
    assert!(!g.is_players_pit(1, 6));
    assert!(!g.is_players_pit(1, 7));
    assert!(g.is_players_pit(2, 7));
    assert!(g.is_players_pit(2, 12));
    assert!(!g.is_players_pit(2, 13));
    assert!(!g.is_players_pit(2, 3));
    assert!(!g.is_players_pit(3, 3));
}

#[test]
fn switching_player_alternates() {
    let mut g = Game::standard_game();
    g.switch_current_player();
    assert_eq!(g.current_player_id, 2);
    g.switch_current_player();
    assert_eq!(g.current_player_id, 1);
}

#[test]
fn free_move_is_the_own_store() {
    let mut g = Game::standard_game();
    assert!(g.is_free_move(6));
    assert!(!g.is_free_move(13));
    g.current_player_id = 2;
    assert!(g.is_free_move(13));
    assert!(!g.is_free_move(6));
}

#[test]
fn last_stone_in_own_store_gives_free_turn() {
    let mut g = Game::standard_game();
    g.play_move(2);
    assert_eq!(g.board, [4, 4, 0, 5, 5, 5, 1, 4, 4, 4, 4, 4, 4, 0]);
    assert!(g.is_free_turn);
    assert_eq!(g.turn, 2);
    assert_eq!(g.total_stones(), 48);
}

#[test]
fn plain_move_ends_free_turn() {
    let mut g = Game::standard_game();
    g.is_free_turn = true;
    g.play_move(0);
    assert_eq!(g.board, [0, 5, 5, 5, 5, 4, 0, 4, 4, 4, 4, 4, 4, 0]);
    assert!(!g.is_free_turn);
}

#[test]
fn sowing_passes_over_the_opponent_store() {
    let mut g = Game::from_board([0, 0, 0, 0, 0, 10, 0, 1, 1, 1, 1, 1, 1, 0]);
    g.play_move(5);
    // 6, 7..12 get one each, 13 is passed over, then 0, 1, 2; the last stone
    // falls into the empty pit 2 and takes pit 10 with it.
    assert_eq!(g.board, [1, 1, 0, 0, 0, 0, 4, 2, 2, 2, 0, 2, 2, 0]);
    assert_eq!(g.board[13], 0);
    assert!(!g.is_free_turn);

    let mut g2 = Game::from_board([1, 1, 1, 1, 1, 1, 0, 0, 0, 0, 0, 0, 10, 0]);
    g2.current_player_id = 2;
    g2.play_move(12);
    // 13, 0..5 get one each, 6 is passed over, then 7, 8, 9; the last stone
    // falls into the empty pit 9 and takes pit 3 with it.
    assert_eq!(g2.board, [2, 2, 2, 0, 2, 2, 0, 1, 1, 0, 0, 0, 0, 4]);
    assert_eq!(g2.board[6], 0);
}

#[test]
fn last_stone_in_empty_pit_captures_across() {
    let mut g = Game::from_board([0, 1, 0, 4, 4, 4, 0, 4, 4, 4, 4, 4, 4, 0]);
    g.play_move(1);
    // The stone lands in the empty pit 2; pit 10 across holds 4.
    assert_eq!(g.board, [0, 0, 0, 4, 4, 4, 5, 4, 4, 4, 0, 4, 4, 0]);
    assert!(!g.is_free_turn);
    assert_eq!(g.total_stones(), 37);
}

#[test]
fn capture_keeps_a_pending_free_turn() {
    let mut g = Game::from_board([0, 1, 0, 4, 4, 4, 0, 4, 4, 4, 4, 4, 4, 0]);
    g.is_free_turn = true;
    g.play_move(1);
    assert!(g.is_free_turn);
}

#[test]
fn no_valid_moves_when_a_row_is_empty() {
    let g = Game::from_board([0, 0, 0, 0, 0, 0, 20, 1, 0, 0, 0, 0, 0, 3]);
    assert!(g.no_valid_moves_for_eather_player());
    let g = Game::from_board([1, 0, 0, 0, 0, 0, 20, 0, 0, 0, 0, 0, 0, 3]);
    assert!(g.no_valid_moves_for_eather_player());
    let g = Game::standard_game();
    assert!(!g.no_valid_moves_for_eather_player());
}

#[test]
fn end_game_sweeps_rows_and_names_winner() {
    let mut g = Game::from_board([1, 2, 0, 0, 0, 0, 20, 0, 0, 0, 3, 0, 0, 10]);
    let before = g.total_stones();
    let message = g.end_game();
    assert_eq!(g.total_stones(), before);
    assert_eq!(g.board, [0, 0, 0, 0, 0, 0, 23, 0, 0, 0, 0, 0, 0, 13]);
    assert!(g.status == GameStatus::End);
    assert_eq!(message, "The winner is player1\nPress enter to exit.");

    let mut g = Game::from_board([0, 0, 0, 0, 0, 0, 5, 4, 0, 0, 0, 0, 0, 10]);
    assert_eq!(g.end_game(), "The winner is player2\nPress enter to exit.");

    let mut g = Game::from_board([0, 0, 0, 0, 0, 3, 7, 0, 0, 0, 0, 0, 0, 10]);
    assert_eq!(g.end_game(), "It is a draw\nPress enter to exit.");
}

#[test]
fn selection_moves_on_the_board() {
    let mut g = Game::standard_game();
    g.move_selected_pit_down();
    assert_eq!(g.selected_pit_number, 1);
    g.move_selected_pit_right();
    assert_eq!(g.selected_pit_number, 11);
    g.move_selected_pit_up();
    assert_eq!(g.selected_pit_number, 12);
    g.move_selected_pit_left();
    assert_eq!(g.selected_pit_number, 0);
    g.move_selected_pit_up();
    assert_eq!(g.selected_pit_number, 0);
}

#[test]
fn current_player_name_follows_the_turn() {
    let mut g = Game::standard_game();
    assert_eq!(g.current_player_name(), "player1");
    g.switch_current_player();
    assert_eq!(g.current_player_name(), "player2");
}

#[test]
fn loop_plays_the_selected_pit_on_enter() {
    let mut g = Game::standard_game();
    g.selected_pit_number = 2;
    assert!(matches!(g.handle_event(&press(KeyCode::Enter)), LoopAction::FreeMove));
    assert_eq!(g.current_player_id, 1);
    g.selected_pit_number = 0;
    assert!(matches!(g.handle_event(&press(KeyCode::Enter)), LoopAction::NextPlayer));
    assert_eq!(g.current_player_id, 2);
    assert_eq!(g.total_stones(), 48);
}

#[test]
fn loop_refuses_invalid_moves() {
    let mut g = Game::standard_game();
    g.selected_pit_number = 8;
    let before = g.board;
    assert!(matches!(g.handle_event(&press(KeyCode::Enter)), LoopAction::InvalidMove));
    assert_eq!(g.board, before);
    g.board[3] = 0;
    g.selected_pit_number = 3;
    assert!(matches!(g.handle_event(&press(KeyCode::Enter)), LoopAction::InvalidMove));
}

#[test]
fn loop_moves_selection_and_quits() {
    let mut g = Game::standard_game();
    assert!(matches!(g.handle_event(&press(KeyCode::Down)), LoopAction::Redraw));
    assert_eq!(g.selected_pit_number, 1);
    assert!(matches!(g.handle_event(&press(KeyCode::Char('x'))), LoopAction::Ignore));
    let release = Event::Key(KeyEvent {
        code: KeyCode::Down,
        modifiers: NO_MODIFIERS,
        kind: KeyEventKind::Release,
        state: 0,
    });
    assert!(matches!(g.handle_event(&release), LoopAction::Redraw));
    assert_eq!(g.selected_pit_number, 1);
    assert!(matches!(g.handle_event(&Event::Other), LoopAction::Ignore));
    let quit = Event::Key(KeyEvent::new(KeyCode::Char('c'), CONTROL));
    assert!(matches!(g.handle_event(&quit), LoopAction::Quit));
}

#[test]
fn loop_ends_the_game_when_a_row_runs_empty() {
    let mut g = Game::from_board([0, 0, 0, 0, 0, 1, 20, 2, 0, 0, 0, 0, 0, 3]);
    g.selected_pit_number = 5;
    match g.handle_event(&press(KeyCode::Enter)) {
        LoopAction::GameOver(message) => {
            assert_eq!(message, "The winner is player1\nPress enter to exit.");
        }
        _ => panic!("the game should be over"),
    }
    assert_eq!(g.board, [0, 0, 0, 0, 0, 0, 21, 0, 0, 0, 0, 0, 0, 5]);
    assert!(g.status == GameStatus::End);
    assert_eq!(g.total_stones(), 26);
}

#[test]
fn stones_are_conserved_over_a_whole_game() {
    let mut g = Game::standard_game();
    let start = total(&g.board);
    let mut steps = 0;
    while g.status == GameStatus::Running && steps < 200 {
        // Play the first non-empty pit of the player to move.
        let pits: Vec<u8> = if g.current_player_id == 1 { (0..6).collect() } else { (7..13).collect() };
        let pit = pits.into_iter().find(|&p| g.board[p as usize] != 0).unwrap();
        g.selected_pit_number = pit;
        let _ = g.handle_event(&press(KeyCode::Enter));
        assert_eq!(total(&g.board), start);
        steps += 1;
    }
    assert!(g.status == GameStatus::End);
    for i in [0, 1, 2, 3, 4, 5, 7, 8, 9, 10, 11, 12] {
        assert_eq!(g.board[i], 0);
    }
}

#[test]
fn game_from_draws_mirrors_the_draws() {
    let g = Game::game_from_draws([1, 7, 3, 2, 5, 6]);
    assert_eq!(g.board, [1, 7, 3, 2, 5, 6, 0, 1, 7, 3, 2, 5, 6, 0]);
    assert_eq!(g.current_player_id, 1);
    assert_eq!(g.turn, 1);
}

#[test]
fn a_move_never_takes_from_the_own_store() {
    let mut g = Game::from_board([0, 1, 0, 4, 4, 4, 9, 4, 4, 4, 4, 4, 4, 2]);
    g.play_move(1);
    assert!(g.board[6] >= 9);
    let mut g = Game::from_board([1, 1, 1, 1, 1, 1, 0, 0, 0, 0, 0, 0, 10, 7]);
    g.current_player_id = 2;
    g.play_move(12);
    assert!(g.board[13] >= 7);
}
