//! What holds of every grid: facts about counting empty cells and about the
//! outcome, stated over the same spec functions as the contracts.

use crate::grid::{
    empties_before, empty_count, is_full, is_nth_empty, is_sole_empty, line_held, line_mark,
    marks_kept, no_line_held, only_mark_holds, outcome, outcome_from, BoardGridCell,
};
use vstd::prelude::*;

verus! {

/// Counting further never lowers the count, and the count is at most the
/// number of cells counted.
pub proof fn lemma_empties_grow(cells: Seq<BoardGridCell>, i: nat, j: nat)
    requires
        i <= j,
    ensures
        empties_before(cells, i) <= empties_before(cells, j),
        empties_before(cells, j) <= j,
    decreases j,
{
    if j > 0 {
        if i < j {
            lemma_empties_grow(cells, i, (j - 1) as nat);
        } else {
            lemma_empties_grow(cells, (j - 1) as nat, (j - 1) as nat);
        }
    }
}

/// Among the first `j` cells none is empty exactly when their count of
/// empty cells is zero.
pub proof fn lemma_no_empty_before(cells: Seq<BoardGridCell>, j: nat)
    ensures
        empties_before(cells, j) == 0 <==> (forall|i: int|
            0 <= i < j ==> cells[i] != BoardGridCell::Empty),
    decreases j,
{
    if j > 0 {
        lemma_no_empty_before(cells, (j - 1) as nat);
    }
}

/// A grid is full exactly when it counts no empty cell.
pub proof fn lemma_full_iff_no_empty(cells: Seq<BoardGridCell>)
    ensures
        is_full(cells) <==> empty_count(cells) == 0,
{
    lemma_no_empty_before(cells, cells.len());
}

/// An empty cell is counted: past it the count is higher than before it.
pub proof fn lemma_empty_cell_counts(cells: Seq<BoardGridCell>, i: int, j: nat)
    requires
        0 <= i < j,
        cells[i] == BoardGridCell::Empty,
    ensures
        empties_before(cells, i as nat) < empties_before(cells, j),
{
    assert(empties_before(cells, (i + 1) as nat) == empties_before(cells, i as nat) + 1);
    lemma_empties_grow(cells, (i + 1) as nat, j);
}

/// A rank names at most one cell: the `n`-th empty cell is unique.
pub proof fn lemma_nth_empty_unique(cells: Seq<BoardGridCell>, n: nat, i: int, j: int)
    requires
        is_nth_empty(cells, n, i),
        is_nth_empty(cells, n, j),
    ensures
        i == j,
{
    if i < j {
        lemma_empty_cell_counts(cells, i, j as nat);
    } else if j < i {
        lemma_empty_cell_counts(cells, j, i as nat);
    }
}

/// Every rank below the count of empty cells names a cell.
pub proof fn lemma_nth_empty_exists(cells: Seq<BoardGridCell>, n: nat, upto: nat)
    requires
        upto <= cells.len(),
        n < empties_before(cells, upto),
    ensures
        exists|i: int| i < upto && is_nth_empty(cells, n, i),
    decreases upto,
{
    if upto > 0 {
        let before = empties_before(cells, (upto - 1) as nat);
        if n < before {
            lemma_nth_empty_exists(cells, n, (upto - 1) as nat);
            let i = choose|i: int| i < upto - 1 && is_nth_empty(cells, n, i);
            assert(i < upto && is_nth_empty(cells, n, i));
        } else {
            assert(is_nth_empty(cells, n, upto - 1));
        }
    }
}

/// On a grid with a single empty cell, every empty cell is that one and its
/// rank is zero: a move to an empty cell can only go there.
pub proof fn lemma_sole_empty_is_chosen(cells: Seq<BoardGridCell>, sole: int, i: int)
    requires
        is_sole_empty(cells, sole),
        0 <= i < cells.len(),
        cells[i] == BoardGridCell::Empty,
    ensures
        i == sole,
        is_nth_empty(cells, 0, sole),
        empty_count(cells) == 1,
{
    lemma_no_empty_before(cells, sole as nat);
    lemma_count_after_sole(cells, sole, cells.len());
}

/// Past a single empty cell the count stays at one.
proof fn lemma_count_after_sole(cells: Seq<BoardGridCell>, sole: int, j: nat)
    requires
        is_sole_empty(cells, sole),
        sole < j <= cells.len(),
    ensures
        empties_before(cells, j) == 1,
    decreases j,
{
    if j - 1 == sole {
        lemma_no_empty_before(cells, sole as nat);
    } else {
        lemma_count_after_sole(cells, sole, (j - 1) as nat);
    }
}

/// Scanning from line `from`, the first held line decides.
proof fn lemma_scan_finds(cells: Seq<BoardGridCell>, from: nat, k: int)
    requires
        from <= k < 8,
        line_held(cells, k),
        forall|j: int| from <= j < k ==> !line_held(cells, j),
    ensures
        outcome_from(cells, from) == Some(line_mark(cells, k)),
    decreases k - from,
{
    if from < k {
        lemma_scan_finds(cells, from + 1, k);
    }
}

/// Scanning from line `from` with no held line left, fullness decides.
proof fn lemma_scan_misses(cells: Seq<BoardGridCell>, from: nat)
    requires
        forall|j: int| from <= j < 8 ==> !line_held(cells, j),
    ensures
        outcome_from(cells, from) == (if is_full(cells) {
            Some(BoardGridCell::Empty)
        } else {
            None
        }),
    decreases 8 - from,
{
    if from < 8 {
        lemma_scan_misses(cells, from + 1);
    }
}

/// Whatever scanning from line `from` finds is the mark of a held line, a
/// draw on a full grid without one, or nothing.
proof fn lemma_scan_result(cells: Seq<BoardGridCell>, from: nat)
    ensures
        match outcome_from(cells, from) {
            Some(mark) => if mark == BoardGridCell::Empty {
                is_full(cells) && forall|j: int| from <= j < 8 ==> !line_held(cells, j)
            } else {
                exists|k: int|
                    from <= k < 8 && line_held(cells, k) && line_mark(cells, k) == mark && (
                    forall|j: int| from <= j < k ==> !line_held(cells, j))
            },
            None => !is_full(cells) && forall|j: int| from <= j < 8 ==> !line_held(cells, j),
        },
    decreases 8 - from,
{
    if from < 8 {
        if line_held(cells, from as int) {
            let k = from as int;
            assert(from <= k < 8 && line_held(cells, k) && (forall|j: int|
                from <= j < k ==> !line_held(cells, j)));
        } else {
            lemma_scan_result(cells, from + 1);
            match outcome_from(cells, from + 1) {
                Some(mark) => {
                    if mark != BoardGridCell::Empty {
                        let k = choose|k: int|
                            from + 1 <= k < 8 && line_held(cells, k) && line_mark(cells, k)
                                == mark && (forall|j: int|
                                from + 1 <= j < k ==> !line_held(cells, j));
                        assert(from <= k < 8 && line_held(cells, k) && line_mark(cells, k)
                            == mark && (forall|j: int| from <= j < k ==> !line_held(cells, j)));
                    }
                },
                None => {},
            }
        }
    }
}

/// The first held line, in the order of examination, gives the outcome.
pub proof fn lemma_first_held_line_decides(cells: Seq<BoardGridCell>, k: int)
    requires
        0 <= k < 8,
        line_held(cells, k),
        forall|j: int| 0 <= j < k ==> !line_held(cells, j),
    ensures
        outcome(cells) == Some(line_mark(cells, k)),
{
    lemma_scan_finds(cells, 0, k);
}

/// A mark that holds a line wins, unless the other mark holds one too.
pub proof fn lemma_held_line_wins(cells: Seq<BoardGridCell>, k: int, mark: BoardGridCell)
    requires
        0 <= k < 8,
        line_held(cells, k),
        line_mark(cells, k) == mark,
        only_mark_holds(cells, mark),
    ensures
        outcome(cells) == Some(mark),
{
    lemma_scan_result(cells, 0);
}

/// A row filled with one mark is a win for it: row `row` is cells `3 * row`
/// to `3 * row + 2`.
pub proof fn lemma_row_wins(cells: Seq<BoardGridCell>, row: int, mark: BoardGridCell)
    requires
        cells.len() == 9,
        0 <= row < 3,
        mark != BoardGridCell::Empty,
        cells[3 * row] == mark,
        cells[3 * row + 1] == mark,
        cells[3 * row + 2] == mark,
        only_mark_holds(cells, mark),
    ensures
        outcome(cells) == Some(mark),
{
    assert(line_held(cells, row));
    lemma_held_line_wins(cells, row, mark);
}

/// A column filled with one mark is a win for it: column `column` is cells
/// `column`, `column + 3` and `column + 6`.
pub proof fn lemma_column_wins(cells: Seq<BoardGridCell>, column: int, mark: BoardGridCell)
    requires
        cells.len() == 9,
        0 <= column < 3,
        mark != BoardGridCell::Empty,
        cells[column] == mark,
        cells[column + 3] == mark,
        cells[column + 6] == mark,
        only_mark_holds(cells, mark),
    ensures
        outcome(cells) == Some(mark),
{
    assert(line_held(cells, 3 + column));
    lemma_held_line_wins(cells, 3 + column, mark);
}

/// A diagonal filled with one mark is a win for it: cells 0, 4, 8 or cells
/// 2, 4, 6.
pub proof fn lemma_diagonal_wins(cells: Seq<BoardGridCell>, mark: BoardGridCell)
    requires
        cells.len() == 9,
        mark != BoardGridCell::Empty,
        cells[4] == mark,
        (cells[0] == mark && cells[8] == mark) || (cells[2] == mark && cells[6] == mark),
        only_mark_holds(cells, mark),
    ensures
        outcome(cells) == Some(mark),
{
    if cells[0] == mark && cells[8] == mark {
        assert(line_held(cells, 6));
        lemma_held_line_wins(cells, 6, mark);
    } else {
        assert(line_held(cells, 7));
        lemma_held_line_wins(cells, 7, mark);
    }
}

/// On a grid that holds no mark but `mark`, no line is held by another.
pub proof fn lemma_single_mark_grid(cells: Seq<BoardGridCell>, mark: BoardGridCell)
    requires
        cells.len() == 9,
        forall|i: int| 0 <= i < 9 ==> cells[i] == mark || cells[i] == BoardGridCell::Empty,
    ensures
        only_mark_holds(cells, mark),
{
}

/// A mark wins only by a line that it holds.
pub proof fn lemma_win_needs_line(cells: Seq<BoardGridCell>, mark: BoardGridCell)
    requires
        mark != BoardGridCell::Empty,
        outcome(cells) == Some(mark),
    ensures
        exists|k: int| 0 <= k < 8 && line_held(cells, k) && line_mark(cells, k) == mark,
{
    lemma_scan_result(cells, 0);
    let k = choose|k: int|
        0 <= k < 8 && line_held(cells, k) && line_mark(cells, k) == mark && (forall|j: int|
            0 <= j < k ==> !line_held(cells, j));
    assert(0 <= k < 8 && line_held(cells, k) && line_mark(cells, k) == mark);
}

/// The outcome is a draw exactly on a full grid without a held line, and
/// the game goes on exactly while no line is held and a cell is empty.
pub proof fn lemma_draw_and_undecided(cells: Seq<BoardGridCell>)
    ensures
        outcome(cells) == Some(BoardGridCell::Empty) <==> is_full(cells) && no_line_held(cells),
        outcome(cells) is None <==> !is_full(cells) && no_line_held(cells),
{
    lemma_scan_result(cells, 0);
    if no_line_held(cells) {
        lemma_scan_misses(cells, 0);
    }
}

/// On an empty grid the game goes on.
pub proof fn lemma_empty_grid_goes_on(cells: Seq<BoardGridCell>)
    requires
        cells.len() == 9,
        forall|i: int| 0 <= i < 9 ==> cells[i] == BoardGridCell::Empty,
    ensures
        outcome(cells) is None,
{
    assert(cells[0] == BoardGridCell::Empty);
    lemma_draw_and_undecided(cells);
}

/// A mark placed on an empty cell keeps every mark that stood before.
pub proof fn lemma_move_keeps_marks(cells: Seq<BoardGridCell>, i: int, mark: BoardGridCell)
    requires
        0 <= i < cells.len(),
        cells[i] == BoardGridCell::Empty,
    ensures
        marks_kept(cells, cells.update(i, mark)),
{
}

/// An outcome that names a winner stands: while every mark is kept and the
/// other mark gains no line, the winner stays the winner.
pub proof fn lemma_win_is_final(
    before: Seq<BoardGridCell>,
    after: Seq<BoardGridCell>,
    mark: BoardGridCell,
)
    requires
        before.len() == 9,
        mark != BoardGridCell::Empty,
        outcome(before) == Some(mark),
        marks_kept(before, after),
        only_mark_holds(after, mark),
    ensures
        outcome(after) == Some(mark),
{
    lemma_win_needs_line(before, mark);
    let k = choose|k: int| 0 <= k < 8 && line_held(before, k) && line_mark(before, k) == mark;
    assert(line_held(after, k));
    lemma_held_line_wins(after, k, mark);
}

} // verus!
