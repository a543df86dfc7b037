//! A session at the board: whose turn it is, whether the game is decided,
//! and what a click, the opponent's turn and a replay make of that.

use crate::grid::{is_full, marks_kept, outcome, BoardGridCell, Grid};
use crate::tictactoe::TicTacToe;
use vstd::prelude::*;

verus! {

/// What a session is, as plain values: the nine cells, whether the player
/// is to move, and the outcome of the grid.
pub ghost struct BoardState {
    pub grid: Seq<BoardGridCell>,
    pub player_step: bool,
    pub winner: Option<BoardGridCell>,
}

/// A session. Its view is a [`BoardState`].
#[derive(PartialEq, Eq, Debug)]
pub struct BoardContext {
    game: TicTacToe,
    player_step: bool,
    winner: Option<BoardGridCell>,
}

impl View for BoardContext {
    type V = BoardState;

    closed spec fn view(&self) -> BoardState {
        BoardState { grid: self.game@, player_step: self.player_step, winner: self.winner }
    }
}

/// The state in which every session starts: an empty grid, the player to
/// move, nothing decided.
pub open spec fn initial_state() -> BoardState {
    BoardState {
        grid: Seq::new(9, |i: int| BoardGridCell::Empty),
        player_step: true,
        winner: None,
    }
}

/// The recorded outcome is the outcome of the grid.
pub open spec fn consistent(state: BoardState) -> bool {
    &&& state.grid.len() == 9
    &&& state.winner == outcome(state.grid)
}

/// A click on `cell` counts: the player is to move, nothing is decided, and
/// the cell is on the board and empty.
pub open spec fn click_accepted(state: BoardState, cell: int) -> bool {
    &&& state.player_step
    &&& state.winner is None
    &&& 0 <= cell < 9
    &&& state.grid[cell] == BoardGridCell::Empty
}

/// The state after `mark` was placed on `cell`: the grid is judged anew, and
/// the turn passes to the player when the opponent moved and away from the
/// player when the player did.
pub open spec fn after_move(state: BoardState, cell: int, mark: BoardGridCell) -> BoardState {
    BoardState {
        grid: state.grid.update(cell, mark),
        player_step: mark == BoardGridCell::Cross,
        winner: outcome(state.grid.update(cell, mark)),
    }
}

/// The state after a click on `cell`: the player's move where the click
/// counts, the same state where it does not.
pub open spec fn after_click(state: BoardState, cell: int) -> BoardState {
    if click_accepted(state, cell) {
        after_move(state, cell, BoardGridCell::Circle)
    } else {
        state
    }
}

/// The opponent is to move: the player has moved and nothing is decided.
pub open spec fn opponent_due(state: BoardState) -> bool {
    !state.player_step && state.winner is None
}

/// The line that tells the person at the board where the game stands.
pub open spec fn info_text(state: BoardState) -> Seq<char> {
    match state.winner {
        Some(BoardGridCell::Empty) => "Draw"@,
        Some(BoardGridCell::Circle) => "You win"@,
        Some(BoardGridCell::Cross) => "Opponent win"@,
        None => if state.player_step {
            "Your turn"@
        } else {
            "Opponents turn"@
        },
    }
}

/// A decided game stays as it is: no click counts and the opponent is not
/// to move. Only a replay leads on.
pub proof fn lemma_decided_is_terminal(state: BoardState, cell: int)
    requires
        state.winner is Some,
    ensures
        after_click(state, cell) == state,
        !opponent_due(state),
{
}

/// While the opponent is to move, a cell is empty: the move can be made.
pub proof fn lemma_opponent_has_a_cell(state: BoardState)
    requires
        consistent(state),
        opponent_due(state),
    ensures
        !is_full(state.grid),
{
    crate::laws::lemma_draw_and_undecided(state.grid);
}

/// A move by click or by the opponent keeps every mark on the grid.
pub proof fn lemma_session_keeps_marks(state: BoardState, cell: int)
    requires
        consistent(state),
    ensures
        marks_kept(state.grid, after_click(state, cell).grid),
        0 <= cell < 9 && state.grid[cell] == BoardGridCell::Empty ==> marks_kept(
            state.grid,
            after_move(state, cell, BoardGridCell::Cross).grid,
        ),
{
}

impl Default for BoardContext {
    /// A session at its start.
    fn default() -> (r: Self)
        ensures
            r@ == initial_state(),
            consistent(r@),
    {
        let game = TicTacToe::default();
        let winner = game.check_winner();
        proof {
            crate::laws::lemma_empty_grid_goes_on(game@);
        }
        BoardContext { game, player_step: true, winner }
    }
}

impl Clone for BoardContext {
    /// A session in the same state.
    fn clone(&self) -> (r: Self)
        ensures
            r@ == self@,
    {
        proof {
            use_type_invariant(self);
        }
        BoardContext { game: self.game.clone(), player_step: self.player_step, winner: self.winner }
    }
}

impl BoardContext {
    /// What every session keeps: the recorded outcome is that of its grid.
    #[verifier::type_invariant]
    spec fn kept(self) -> bool {
        consistent(self@)
    }

    /// A copy of the grid.
    pub fn grid(&self) -> (r: Grid)
        ensures
            r@ == self@.grid,
    {
        self.game.cells()
    }

    /// Whether the player is to move.
    pub fn player_step(&self) -> (r: bool)
        ensures
            r == self@.player_step,
    {
        self.player_step
    }

    /// Where the game stands: `Some(mark)` when `mark` has won,
    /// `Some(BoardGridCell::Empty)` for a draw, `None` while the game goes
    /// on.
    pub fn winner(&self) -> (r: Option<BoardGridCell>)
        ensures
            r == self@.winner,
    {
        self.winner
    }

    /// The player clicks on `cell`. A click that counts places a circle,
    /// judges the grid and ends the player's turn; any other click changes
    /// nothing. Returns whether the opponent is to move next.
    pub fn click(&mut self, cell: usize) -> (due: bool)
        ensures
            final(self)@ == after_click(old(self)@, cell as int),
            consistent(final(self)@),
            due == (click_accepted(old(self)@, cell as int) && opponent_due(final(self)@)),
    {
        proof {
            use_type_invariant(&*self);
        }
        if !self.player_step || self.winner.is_some() || cell >= 9 {
            return false;
        }
        let mut game = self.game.clone();
        match game.player_step(cell as i32) {
            Ok(()) => {
                let winner = game.check_winner();
                proof {
                    game.lemma_nine_cells();
                }
                *self = BoardContext { game, player_step: false, winner };
                winner.is_none()
            },
            Err(_) => false,
        }
    }

    /// The opponent's turn. When the opponent is to move, a cross goes to
    /// an empty cell drawn by chance, the grid is judged and the turn
    /// passes to the player; the cell's index is returned. Otherwise
    /// nothing changes.
    pub fn opponent_move(&mut self) -> (r: Option<usize>)
        ensures
            consistent(final(self)@),
            r is Some <==> opponent_due(old(self)@),
            match r {
                Some(i) => {
                    &&& i < 9
                    &&& old(self)@.grid[i as int] == BoardGridCell::Empty
                    &&& final(self)@ == after_move(old(self)@, i as int, BoardGridCell::Cross)
                },
                None => final(self)@ == old(self)@,
            },
    {
        proof {
            use_type_invariant(&*self);
            crate::laws::lemma_draw_and_undecided(self.game@);
        }
        if self.player_step || self.winner.is_some() {
            return None;
        }
        let mut game = self.game.clone();
        match game.enemy_step() {
            Ok(i) => {
                let winner = game.check_winner();
                proof {
                    game.lemma_nine_cells();
                }
                *self = BoardContext { game, player_step: true, winner };
                Some(i)
            },
            Err(_) => None,
        }
    }

    /// Starts over: an empty grid, the player to move, nothing decided.
    pub fn replay(&mut self)
        ensures
            final(self)@ == initial_state(),
            consistent(final(self)@),
    {
        *self = Self::default();
    }

    /// The line that tells the person at the board where the game stands.
    pub fn info(&self) -> (s: String)
        ensures
            s@ == info_text(self@),
    {
        match self.winner {
            Some(BoardGridCell::Empty) => "Draw".to_owned(),
            Some(BoardGridCell::Circle) => "You win".to_owned(),
            Some(BoardGridCell::Cross) => "Opponent win".to_owned(),
            None => if self.player_step {
                "Your turn".to_owned()
            } else {
                "Opponents turn".to_owned()
            },
        }
    }
}

} // verus!
