use tictactoe::{BoardGridCell, Grid, TicTacToe, TicTacToeErrors};

const E: BoardGridCell = BoardGridCell::Empty;
const O: BoardGridCell = BoardGridCell::Circle;
const X: BoardGridCell = BoardGridCell::Cross;

#[test]
fn new_game_is_empty() {
    assert_eq!(TicTacToe::default().cells(), [E; 9]);
}

#[test]
fn from_cells_keeps_the_grid() {
    let field: Grid = [O, X, E, E, O, E, X, E, E];
    assert_eq!(TicTacToe::from_cells(field).cells(), field);
}

#[test]
fn player_step_marks_the_cell() {
    for i in 0..9 {
        let mut game = TicTacToe::default();
        assert_eq!(game.player_step(i as i32), Ok(()));
        let mut expected = [E; 9];
        expected[i] = O;
        assert_eq!(game.cells(), expected);
    }
}

#[test]
fn player_step_on_occupied_cell_is_refused() {
    let field: Grid = [O, X, E, E, E, E, E, E, E];
    let mut game = TicTacToe::from_cells(field);
    assert_eq!(game.player_step(0), Err(TicTacToeErrors::CellAlreadyOccupied));
    assert_eq!(game.cells(), field);
    assert_eq!(game.player_step(1), Err(TicTacToeErrors::CellAlreadyOccupied));
    assert_eq!(game.cells(), field);
}

#[test]
fn player_step_out_of_bounds_is_refused() {
    let field: Grid = [O, X, E, E, E, E, E, E, E];
    let mut game = TicTacToe::from_cells(field);
    assert_eq!(game.player_step(-1), Err(TicTacToeErrors::StepOutOfBounds));
    assert_eq!(game.cells(), field);
    assert_eq!(game.player_step(9), Err(TicTacToeErrors::StepOutOfBounds));
    assert_eq!(game.cells(), field);
    assert_eq!(game.player_step(i32::MIN), Err(TicTacToeErrors::StepOutOfBounds));
    assert_eq!(game.player_step(i32::MAX), Err(TicTacToeErrors::StepOutOfBounds));
    assert_eq!(game.cells(), field);
}

#[test]
fn out_of_bounds_comes_before_occupied() {
    let mut game = TicTacToe::from_cells([X; 9]);
    assert_eq!(game.player_step(9), Err(TicTacToeErrors::StepOutOfBounds));
    assert_eq!(game.player_step(8), Err(TicTacToeErrors::CellAlreadyOccupied));
}

#[test]
fn enemy_step_with_takes_the_ranked_empty_cell() {
    let field: Grid = [O, E, X, E, O, E, E, X, E];
    let empty: [usize; 5] = [1, 3, 5, 6, 8];
    for (pick, index) in empty.iter().enumerate() {
        let mut game = TicTacToe::from_cells(field);
        assert_eq!(game.enemy_step_with(pick), Ok(*index));
        let mut expected = field;
        expected[*index] = X;
        assert_eq!(game.cells(), expected);
    }
}

#[test]
fn enemy_step_with_rank_too_high_is_refused() {
    let field: Grid = [O, E, X, E, O, E, E, X, E];
    let mut game = TicTacToe::from_cells(field);
    assert_eq!(game.enemy_step_with(5), Err(TicTacToeErrors::StepOutOfBounds));
    assert_eq!(game.enemy_step_with(usize::MAX), Err(TicTacToeErrors::StepOutOfBounds));
    assert_eq!(game.cells(), field);
}

#[test]
fn enemy_step_with_on_full_grid_is_refused() {
    let field: Grid = [O, X, O, O, X, X, X, O, O];
    let mut game = TicTacToe::from_cells(field);
    assert_eq!(game.enemy_step_with(0), Err(TicTacToeErrors::NoEmptyCell));
    assert_eq!(game.enemy_step_with(3), Err(TicTacToeErrors::NoEmptyCell));
    assert_eq!(game.cells(), field);
}

#[test]
fn enemy_step_on_full_grid_is_refused() {
    let field: Grid = [O, X, O, O, X, X, X, O, O];
    let mut game = TicTacToe::from_cells(field);
    assert_eq!(game.enemy_step(), Err(TicTacToeErrors::NoEmptyCell));
    assert_eq!(game.cells(), field);
}

#[test]
fn enemy_step_fills_the_single_empty_cell() {
    for hole in 0..9 {
        for _ in 0..20 {
            let mut field: Grid = [O; 9];
            field[hole] = E;
            let mut game = TicTacToe::from_cells(field);
            assert_eq!(game.enemy_step(), Ok(hole));
            field[hole] = X;
            assert_eq!(game.cells(), field);
        }
    }
}

#[test]
fn enemy_step_never_overwrites_a_mark() {
    for _ in 0..50 {
        let mut game = TicTacToe::from_cells([O, E, E, E, O, E, E, E, X]);
        for round in 0..6 {
            let before = game.cells();
            let index = game.enemy_step().unwrap();
            let after = game.cells();
            assert!(index < 9);
            assert_eq!(before[index], E);
            assert_eq!(after[index], X);
            for i in 0..9 {
                if i != index {
                    assert_eq!(after[i], before[i]);
                }
            }
            assert_eq!(after.iter().filter(|c| **c == E).count(), 5 - round);
        }
        assert_eq!(game.enemy_step(), Err(TicTacToeErrors::NoEmptyCell));
    }
}

#[test]
fn enemy_step_always_moves_while_a_cell_is_empty() {
    for _ in 0..200 {
        let mut game = TicTacToe::from_cells([E, E, X, O, O, X, X, O, O]);
        let first = game.enemy_step();
        assert!(first == Ok(0) || first == Ok(1));
        let second = game.enemy_step();
        assert!(second == Ok(0) || second == Ok(1));
        assert_ne!(first, second);
    }
}

#[test]
fn enemy_step_reaches_every_empty_cell() {
    let mut seen = [false; 9];
    for _ in 0..2000 {
        let mut game = TicTacToe::from_cells([E, O, E, E, X, E, O, E, E]);
        seen[game.enemy_step().unwrap()] = true;
    }
    assert_eq!(seen, [true, false, true, true, false, true, false, true, true]);
}

#[test]
fn error_messages() {
    assert_eq!(
        TicTacToeErrors::StepOutOfBounds.to_string(),
        "Given cell index is out of bounds!"
    );
    assert_eq!(
        TicTacToeErrors::CellAlreadyOccupied.to_string(),
        "Cell at given index is already occupied!"
    );
    assert_eq!(
        TicTacToeErrors::NoEmptyCell.to_string(),
        "No empty cell is left on the board!"
    );
}

#[test]
fn empty_cells_are_counted() {
    assert_eq!(TicTacToe::default().empty_cells(), 9);
    assert_eq!(TicTacToe::from_cells([O, E, X, E, O, E, E, X, E]).empty_cells(), 5);
    assert_eq!(TicTacToe::from_cells([X; 9]).empty_cells(), 0);
    let mut game = TicTacToe::default();
    for left in (0..9).rev() {
        assert_eq!(game.enemy_step_with(0), Ok(8 - left));
        assert_eq!(game.empty_cells(), left);
    }
}

#[test]
fn clone_is_a_game_of_its_own() {
    let mut game = TicTacToe::from_cells([O, E, X, E, O, E, E, X, E]);
    let copy = game.clone();
    assert_eq!(copy, game);
    assert_eq!(game.player_step(1), Ok(()));
    assert_eq!(copy.cells(), [O, E, X, E, O, E, E, X, E]);
    assert_eq!(game.cells(), [O, O, X, E, O, E, E, X, E]);
}

#[test]
fn a_mark_once_set_stays() {
    let mut game = TicTacToe::default();
    let mut turn = 0;
    while game.check_winner().is_none() {
        let before = game.cells();
        if turn % 2 == 0 {
            let cell = before.iter().position(|c| *c == E).unwrap();
            assert_eq!(game.player_step(cell as i32), Ok(()));
        } else {
            assert!(game.enemy_step().is_ok());
        }
        let after = game.cells();
        for i in 0..9 {
            if before[i] != E {
                assert_eq!(after[i], before[i]);
            }
        }
        turn += 1;
    }
    assert!(turn <= 9);
}
