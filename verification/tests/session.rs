use tictactoe::{BoardContext, BoardGridCell};

const E: BoardGridCell = BoardGridCell::Empty;
const O: BoardGridCell = BoardGridCell::Circle;
const X: BoardGridCell = BoardGridCell::Cross;

#[test]
fn session_starts_with_the_player() {
    let board = BoardContext::default();
    assert_eq!(board.grid(), [E; 9]);
    assert!(board.player_step());
    assert_eq!(board.winner(), None);
    assert_eq!(board.info(), "Your turn");
}

#[test]
fn click_places_a_circle_and_passes_the_turn() {
    let mut board = BoardContext::default();
    assert!(board.click(4));
    assert_eq!(board.grid(), [E, E, E, E, O, E, E, E, E]);
    assert!(!board.player_step());
    assert_eq!(board.winner(), None);
    assert_eq!(board.info(), "Opponents turn");
}

#[test]
fn click_out_of_turn_is_ignored() {
    let mut board = BoardContext::default();
    assert!(board.click(4));
    assert!(!board.click(0));
    assert_eq!(board.grid(), [E, E, E, E, O, E, E, E, E]);
    assert!(!board.player_step());
}

#[test]
fn click_off_the_board_is_ignored() {
    let mut board = BoardContext::default();
    assert!(!board.click(9));
    assert!(!board.click(usize::MAX));
    assert_eq!(board.grid(), [E; 9]);
    assert!(board.player_step());
}

#[test]
fn click_on_a_mark_is_ignored() {
    let mut board = BoardContext::default();
    assert!(board.click(4));
    let cross = board.opponent_move().unwrap();
    let before = board.grid();
    assert!(!board.click(4));
    assert!(!board.click(cross));
    assert_eq!(board.grid(), before);
    assert!(board.player_step());
}

#[test]
fn opponent_waits_for_the_player() {
    let mut board = BoardContext::default();
    assert_eq!(board.opponent_move(), None);
    assert_eq!(board.grid(), [E; 9]);
    assert!(board.player_step());
}

#[test]
fn opponent_answers_a_click() {
    let mut board = BoardContext::default();
    assert!(board.click(0));
    let cross = board.opponent_move().unwrap();
    assert!(cross > 0 && cross < 9);
    let mut expected = [E; 9];
    expected[0] = O;
    expected[cross] = X;
    assert_eq!(board.grid(), expected);
    assert!(board.player_step());
    assert_eq!(board.opponent_move(), None);
}

#[test]
fn session_runs_to_an_end_and_stops() {
    for _ in 0..50 {
        let mut board = BoardContext::default();
        let mut moves = 0;
        while board.winner().is_none() {
            if board.player_step() {
                let cell = board.grid().iter().position(|c| *c == E).unwrap();
                let due = board.click(cell);
                assert_eq!(due, board.winner().is_none());
            } else {
                assert!(board.opponent_move().is_some());
            }
            moves += 1;
            assert!(moves <= 9);
        }
        assert_eq!(board.winner(), tictactoe::check_winner(&board.grid()));
        let decided = board.grid();
        for cell in 0..9 {
            assert!(!board.click(cell));
        }
        assert_eq!(board.opponent_move(), None);
        assert_eq!(board.grid(), decided);
        let line = match board.winner() {
            Some(BoardGridCell::Empty) => "Draw",
            Some(BoardGridCell::Circle) => "You win",
            _ => "Opponent win",
        };
        assert_eq!(board.info(), line);
    }
}

#[test]
fn replay_starts_over() {
    let mut board = BoardContext::default();
    assert!(board.click(8));
    board.opponent_move();
    board.replay();
    assert_eq!(board.grid(), [E; 9]);
    assert!(board.player_step());
    assert_eq!(board.winner(), None);
}

#[test]
fn clone_of_a_session_is_equal_and_apart() {
    let mut board = BoardContext::default();
    assert!(board.click(2));
    let copy = board.clone();
    assert!(copy == board);
    board.opponent_move();
    assert!(copy != board);
    assert_eq!(copy.grid(), [E, E, O, E, E, E, E, E, E]);
    assert!(!copy.player_step());
}

#[test]
fn player_can_win_a_session() {
    let mut won = false;
    for _ in 0..10000 {
        let mut board = BoardContext::default();
        for cell in [0, 1, 2] {
            if board.grid()[cell] == E && board.winner().is_none() {
                board.click(cell);
                board.opponent_move();
            }
        }
        if board.winner() == Some(O) {
            assert_eq!(board.grid()[0..3], [O, O, O]);
            assert_eq!(board.info(), "You win");
            assert!(!board.player_step());
            assert_eq!(board.opponent_move(), None);
            won = true;
            break;
        }
    }
    assert!(won);
}
