//! The board: what a cell holds, the eight lines, and how a grid is judged.

use vstd::prelude::*;

verus! {

/// What one cell of the board holds. `Circle` is the player's mark, `Cross`
/// the opponent's, `Empty` a free cell.
#[derive(Clone, Copy, PartialEq, Eq, Debug, Structural)]
pub enum BoardGridCell {
    Empty,
    Circle,
    Cross,
}

/// The nine cells, row by row: the cell in row `r` and column `c` has index
/// `3 * r + c`.
pub type Grid = [BoardGridCell; 9];

/// The eight lines in the order in which they are examined, each as the
/// index of its first cell and the distance between neighbouring cells:
/// three rows, three columns, the main diagonal, the other diagonal.
pub open spec fn lines() -> Seq<(int, int)> {
    seq![(0, 1), (3, 1), (6, 1), (0, 3), (1, 3), (2, 3), (0, 4), (2, 2)]
}

/// The three cells that start at `start` and lie `stride` apart hold the same
/// mark, and the cells are not empty.
pub open spec fn series_held(cells: Seq<BoardGridCell>, start: int, stride: int) -> bool {
    &&& cells[start] != BoardGridCell::Empty
    &&& cells[start + stride] == cells[start]
    &&& cells[start + 2 * stride] == cells[start]
}

/// Line number `k` is held by one mark.
pub open spec fn line_held(cells: Seq<BoardGridCell>, k: int) -> bool {
    series_held(cells, lines()[k].0, lines()[k].1)
}

/// The mark on the first cell of line number `k`.
pub open spec fn line_mark(cells: Seq<BoardGridCell>, k: int) -> BoardGridCell {
    cells[lines()[k].0]
}

/// No cell is empty.
pub open spec fn is_full(cells: Seq<BoardGridCell>) -> bool {
    forall|i: int| 0 <= i < cells.len() ==> cells[i] != BoardGridCell::Empty
}

/// How many of the first `i` cells are empty.
pub open spec fn empties_before(cells: Seq<BoardGridCell>, i: nat) -> nat
    decreases i,
{
    if i == 0 {
        0
    } else if cells[i - 1] == BoardGridCell::Empty {
        empties_before(cells, (i - 1) as nat) + 1
    } else {
        empties_before(cells, (i - 1) as nat)
    }
}

/// How many cells are empty.
pub open spec fn empty_count(cells: Seq<BoardGridCell>) -> nat {
    empties_before(cells, cells.len())
}

/// Cell `i` is empty and exactly `n` empty cells come before it: counting
/// from zero, it is the `n`-th empty cell.
pub open spec fn is_nth_empty(cells: Seq<BoardGridCell>, n: nat, i: int) -> bool {
    &&& 0 <= i < cells.len()
    &&& cells[i] == BoardGridCell::Empty
    &&& empties_before(cells, i as nat) == n
}

/// Cell `i` is the only empty cell.
pub open spec fn is_sole_empty(cells: Seq<BoardGridCell>, i: int) -> bool {
    &&& 0 <= i < cells.len()
    &&& forall|j: int| 0 <= j < cells.len() ==> (cells[j] == BoardGridCell::Empty <==> j == i)
}

/// No line is held.
pub open spec fn no_line_held(cells: Seq<BoardGridCell>) -> bool {
    forall|k: int| 0 <= k < 8 ==> !line_held(cells, k)
}

/// Every held line is held by `mark`.
pub open spec fn only_mark_holds(cells: Seq<BoardGridCell>, mark: BoardGridCell) -> bool {
    forall|k: int| 0 <= k < 8 && line_held(cells, k) ==> line_mark(cells, k) == mark
}

/// Every mark of `before` still stands in `after`: a move may fill an empty
/// cell and changes nothing else.
pub open spec fn marks_kept(before: Seq<BoardGridCell>, after: Seq<BoardGridCell>) -> bool {
    &&& after.len() == before.len()
    &&& forall|i: int|
        0 <= i < before.len() && before[i] != BoardGridCell::Empty ==> after[i] == before[i]
}

/// The outcome of a grid when the lines before number `k` are known not to be
/// held: the mark of the first held line from `k` on; failing that,
/// `Some(BoardGridCell::Empty)`, a draw, when the grid is full, and `None`
/// while the game goes on.
pub open spec fn outcome_from(cells: Seq<BoardGridCell>, k: nat) -> Option<BoardGridCell>
    decreases 8 - k,
{
    if k >= 8 {
        if is_full(cells) {
            Some(BoardGridCell::Empty)
        } else {
            None
        }
    } else if line_held(cells, k as int) {
        Some(line_mark(cells, k as int))
    } else {
        outcome_from(cells, k + 1)
    }
}

/// The outcome of a grid. A held line decides even on a full grid.
pub open spec fn outcome(cells: Seq<BoardGridCell>) -> Option<BoardGridCell> {
    outcome_from(cells, 0)
}

/// The mark that holds the three cells from `starting_pos` on, `offset`
/// apart, if one does.
fn check_series(cells: &Grid, starting_pos: usize, offset: usize) -> (r: Option<BoardGridCell>)
    requires
        starting_pos + 2 * offset < 9,
    ensures
        r == (if series_held(cells@, starting_pos as int, offset as int) {
            Some(cells@[starting_pos as int])
        } else {
            None
        }),
{
    let value = cells[starting_pos];
    if value == BoardGridCell::Empty {
        return None;
    }
    if cells[starting_pos + offset] != value {
        return None;
    }
    if cells[starting_pos + 2 * offset] != value {
        return None;
    }
    Some(value)
}

/// Whether every cell holds a mark.
fn all_marked(cells: &Grid) -> (r: bool)
    ensures
        r == is_full(cells@),
{
    let mut i: usize = 0;
    while i < 9
        invariant
            i <= 9,
            forall|j: int| 0 <= j < i ==> cells@[j] != BoardGridCell::Empty,
        decreases 9 - i,
    {
        if cells[i] == BoardGridCell::Empty {
            return false;
        }
        i += 1;
    }
    true
}

/// Judges a grid: `Some(mark)` when `mark` holds a line (the first held line
/// in the order of [`lines`] decides), `Some(BoardGridCell::Empty)` for a
/// draw, `None` while the game goes on.
pub fn check_winner(cells: &Grid) -> (r: Option<BoardGridCell>)
    ensures
        r == outcome(cells@),
{
    let starts_and_offsets: [(usize, usize); 8] = [
        (0, 1),
        (3, 1),
        (6, 1),
        (0, 3),
        (1, 3),
        (2, 3),
        (0, 4),
        (2, 2),
    ];
    let mut k: usize = 0;
    while k < 8
        invariant
            k <= 8,
            forall|j: int|
                0 <= j < 8 ==> #[trigger] starts_and_offsets@[j].0 == lines()[j].0
                    && starts_and_offsets@[j].1 == lines()[j].1,
            outcome_from(cells@, k as nat) == outcome(cells@),
        decreases 8 - k,
    {
        let (start, offset) = starts_and_offsets[k];
        if let Some(mark) = check_series(cells, start, offset) {
            return Some(mark);
        }
        k += 1;
    }
    if all_marked(cells) {
        Some(BoardGridCell::Empty)
    } else {
        None
    }
}

} // verus!
