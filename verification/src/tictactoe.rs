//! One game: a grid that only the two kinds of move can change.

use crate::grid::{
    empties_before, empty_count, is_full, is_nth_empty, is_sole_empty, marks_kept, outcome,
    BoardGridCell, Grid,
};
use crate::random::gen_below;
use vstd::prelude::*;

verus! {

/// Why a move was refused. A refused move leaves the grid as it was.
#[derive(Clone, Copy, PartialEq, Eq, Debug, Structural)]
pub enum TicTacToeErrors {
    /// The index names no cell, or the rank no empty cell.
    StepOutOfBounds,
    /// The cell already holds a mark.
    CellAlreadyOccupied,
    /// The opponent was asked to move on a grid without an empty cell.
    NoEmptyCell,
}

/// What an error says to the person at the board.
pub open spec fn error_text(error: TicTacToeErrors) -> Seq<char> {
    match error {
        TicTacToeErrors::StepOutOfBounds => "Given cell index is out of bounds!"@,
        TicTacToeErrors::CellAlreadyOccupied => "Cell at given index is already occupied!"@,
        TicTacToeErrors::NoEmptyCell => "No empty cell is left on the board!"@,
    }
}

impl TicTacToeErrors {
    /// The error as a sentence.
    pub fn to_string(&self) -> (s: String)
        ensures
            s@ == error_text(*self),
    {
        match self {
            TicTacToeErrors::StepOutOfBounds => "Given cell index is out of bounds!".to_owned(),
            TicTacToeErrors::CellAlreadyOccupied => {
                "Cell at given index is already occupied!".to_owned()
            },
            TicTacToeErrors::NoEmptyCell => "No empty cell is left on the board!".to_owned(),
        }
    }
}

/// A game in progress. The view is the sequence of its nine cells.
#[derive(PartialEq, Eq, Debug)]
pub struct TicTacToe {
    cells: Grid,
}

impl View for TicTacToe {
    type V = Seq<BoardGridCell>;

    closed spec fn view(&self) -> Seq<BoardGridCell> {
        self.cells@
    }
}

/// What the player's move to `cell` returns on the grid `cells`.
pub open spec fn player_step_result(cells: Seq<BoardGridCell>, cell: int) -> Result<
    (),
    TicTacToeErrors,
> {
    if cell < 0 || cell >= 9 {
        Err(TicTacToeErrors::StepOutOfBounds)
    } else if cells[cell] != BoardGridCell::Empty {
        Err(TicTacToeErrors::CellAlreadyOccupied)
    } else {
        Ok(())
    }
}

/// How many cells are empty.
fn count_empty(cells: &Grid) -> (n: usize)
    ensures
        n == empty_count(cells@),
        n <= 9,
{
    let mut n: usize = 0;
    let mut i: usize = 0;
    while i < 9
        invariant
            i <= 9,
            n <= i,
            n == empties_before(cells@, i as nat),
        decreases 9 - i,
    {
        if cells[i] == BoardGridCell::Empty {
            n += 1;
        }
        i += 1;
    }
    n
}

/// The index of the empty cell with `pick` empty cells before it, or, when
/// there are not that many, how many empty cells there are.
fn find_empty(cells: &Grid, pick: usize) -> (r: Result<usize, usize>)
    ensures
        match r {
            Ok(i) => is_nth_empty(cells@, pick as nat, i as int),
            Err(n) => n == empty_count(cells@) && n <= pick,
        },
{
    let mut seen: usize = 0;
    let mut i: usize = 0;
    while i < 9
        invariant
            i <= 9,
            seen <= i,
            seen <= pick,
            seen == empties_before(cells@, i as nat),
        decreases 9 - i,
    {
        if cells[i] == BoardGridCell::Empty {
            if seen == pick {
                return Ok(i);
            }
            seen += 1;
        }
        i += 1;
    }
    Err(seen)
}

impl Clone for TicTacToe {
    /// A game that stands as this one does.
    fn clone(&self) -> (r: Self)
        ensures
            r@ == self@,
    {
        Self { cells: self.cells }
    }
}

impl Default for TicTacToe {
    /// A new game: every cell is empty.
    fn default() -> (r: Self)
        ensures
            r@ == Seq::new(9, |i: int| BoardGridCell::Empty),
    {
        let r = Self { cells: [BoardGridCell::Empty;9] };
        assert(r@ =~= Seq::new(9, |i: int| BoardGridCell::Empty));
        r
    }
}

impl TicTacToe {
    /// Every game has nine cells.
    pub proof fn lemma_nine_cells(&self)
        ensures
            self@.len() == 9,
    {
    }

    /// A game that stands as `cells` says.
    pub fn from_cells(cells: Grid) -> (r: Self)
        ensures
            r@ == cells@,
    {
        Self { cells }
    }

    /// How many cells are empty: the ranks that [`TicTacToe::enemy_step_with`]
    /// takes lie below this number.
    pub fn empty_cells(&self) -> (n: usize)
        ensures
            n == empty_count(self@),
            n <= 9,
    {
        count_empty(&self.cells)
    }

    /// The player marks `cell` with a circle. The move is refused, and the
    /// grid kept, when `cell` is not an index from 0 to 8 or the cell is
    /// taken.
    pub fn player_step(&mut self, cell: i32) -> (r: Result<(), TicTacToeErrors>)
        ensures
            r == player_step_result(old(self)@, cell as int),
            r is Ok ==> final(self)@ == old(self)@.update(cell as int, BoardGridCell::Circle),
            r is Err ==> final(self)@ == old(self)@,
            marks_kept(old(self)@, final(self)@),
    {
        if cell < 0 || cell >= 9 {
            return Err(TicTacToeErrors::StepOutOfBounds);
        }
        let cell = cell as usize;
        match self.cells[cell] {
            BoardGridCell::Empty => {
                self.cells[cell] = BoardGridCell::Circle;
                Ok(())
            },
            _ => Err(TicTacToeErrors::CellAlreadyOccupied),
        }
    }

    /// The opponent marks with a cross the empty cell that has `pick` empty
    /// cells before it. With no empty cell the move is refused as
    /// `NoEmptyCell`; with some, but no more than `pick`, as
    /// `StepOutOfBounds`.
    pub fn enemy_step_with(&mut self, pick: usize) -> (r: Result<usize, TicTacToeErrors>)
        ensures
            r is Ok <==> pick < empty_count(old(self)@),
            marks_kept(old(self)@, final(self)@),
            match r {
                Ok(i) => {
                    &&& is_nth_empty(old(self)@, pick as nat, i as int)
                    &&& final(self)@ == old(self)@.update(i as int, BoardGridCell::Cross)
                },
                Err(e) => final(self)@ == old(self)@ && e == (if is_full(old(self)@) {
                    TicTacToeErrors::NoEmptyCell
                } else {
                    TicTacToeErrors::StepOutOfBounds
                }),
            },
    {
        proof {
            crate::laws::lemma_full_iff_no_empty(self@);
        }
        match find_empty(&self.cells, pick) {
            Ok(i) => {
                proof {
                    crate::laws::lemma_empties_grow(self@, (i + 1) as nat, 9);
                }
                self.cells[i] = BoardGridCell::Cross;
                Ok(i)
            },
            Err(n) => {
                if n == 0 {
                    Err(TicTacToeErrors::NoEmptyCell)
                } else {
                    Err(TicTacToeErrors::StepOutOfBounds)
                }
            },
        }
    }

    /// The opponent marks an empty cell, drawn with equal chance from those
    /// there are, and the cell's index is returned. On a full grid the move
    /// is refused as `NoEmptyCell`. A cell that holds a mark is never
    /// touched, and a single empty cell is always the one chosen.
    pub fn enemy_step(&mut self) -> (r: Result<usize, TicTacToeErrors>)
        ensures
            r is Ok <==> !is_full(old(self)@),
            marks_kept(old(self)@, final(self)@),
            match r {
                Ok(i) => {
                    &&& i < 9
                    &&& old(self)@[i as int] == BoardGridCell::Empty
                    &&& final(self)@ == old(self)@.update(i as int, BoardGridCell::Cross)
                },
                Err(e) => e == TicTacToeErrors::NoEmptyCell && final(self)@ == old(self)@,
            },
            forall|j: int| is_sole_empty(old(self)@, j) ==> r == Ok::<usize, TicTacToeErrors>(j as usize),
    {
        proof {
            crate::laws::lemma_full_iff_no_empty(self@);
        }
        let free = count_empty(&self.cells);
        if free == 0 {
            assert forall|j: int| is_sole_empty(self@, j) implies false by {
                assert(self@[j] == BoardGridCell::Empty);
            }
            return Err(TicTacToeErrors::NoEmptyCell);
        }
        let mut rng = rand::thread_rng();
        let pick = gen_below(&mut rng, free);
        self.enemy_step_with(pick)
    }

    /// Judges the game as [`crate::grid::check_winner`] judges its grid.
    pub fn check_winner(&self) -> (r: Option<BoardGridCell>)
        ensures
            r == outcome(self@),
    {
        crate::grid::check_winner(&self.cells)
    }

    /// A copy of the grid.
    pub fn cells(&self) -> (r: Grid)
        ensures
            r@ == self@,
    {
        self.cells
    }
}

} // verus!
