//! How a cell is written: its glyph, and the number that stands in for an
//! empty cell on a board that shows where a move can go.

use crate::grid::{BoardGridCell, Grid};
use vstd::prelude::*;

verus! {

/// The character for the digit `d`.
pub open spec fn digit_char(d: int) -> char {
    if d == 0 {
        '0'
    } else if d == 1 {
        '1'
    } else if d == 2 {
        '2'
    } else if d == 3 {
        '3'
    } else if d == 4 {
        '4'
    } else if d == 5 {
        '5'
    } else if d == 6 {
        '6'
    } else if d == 7 {
        '7'
    } else if d == 8 {
        '8'
    } else {
        '9'
    }
}

/// The decimal digits of `n`, most significant first, without leading zeros.
pub open spec fn decimal_digits(n: nat) -> Seq<char>
    decreases n,
{
    if n < 10 {
        seq![digit_char(n as int)]
    } else {
        decimal_digits(n / 10).push(digit_char((n % 10) as int))
    }
}

/// The decimal text of `n`, with a minus sign before a negative number.
pub open spec fn decimal(n: int) -> Seq<char> {
    if n < 0 {
        seq!['-'] + decimal_digits((-n) as nat)
    } else {
        decimal_digits(n as nat)
    }
}

/// The glyph of a cell: a space, `O` or `X`.
pub open spec fn glyph(cell: BoardGridCell) -> Seq<char> {
    match cell {
        BoardGridCell::Empty => seq![' '],
        BoardGridCell::Circle => seq!['O'],
        BoardGridCell::Cross => seq!['X'],
    }
}

/// A cell as the board shows it: a mark by its glyph, an empty cell by the
/// number `tile`.
pub open spec fn board_text(cell: BoardGridCell, tile: int) -> Seq<char> {
    match cell {
        BoardGridCell::Empty => decimal(tile),
        _ => glyph(cell),
    }
}

/// The digit `d` as text.
fn digit_str(d: u128) -> (s: &'static str)
    requires
        d < 10,
    ensures
        s@ == seq![digit_char(d as int)],
{
    proof {
        reveal_strlit("0");
        reveal_strlit("1");
        reveal_strlit("2");
        reveal_strlit("3");
        reveal_strlit("4");
        reveal_strlit("5");
        reveal_strlit("6");
        reveal_strlit("7");
        reveal_strlit("8");
        reveal_strlit("9");
    }
    let s = match d {
        0 => "0",
        1 => "1",
        2 => "2",
        3 => "3",
        4 => "4",
        5 => "5",
        6 => "6",
        7 => "7",
        8 => "8",
        _ => "9",
    };
    assert(s@ =~= seq![digit_char(d as int)]);
    s
}

/// Appends the decimal digits of `n` to `out`.
fn push_decimal(out: &mut String, n: u128)
    ensures
        final(out)@ == old(out)@ + decimal_digits(n as nat),
    decreases n,
{
    if n >= 10 {
        push_decimal(out, n / 10);
    }
    out.append(digit_str(n % 10));
    assert(final(out)@ =~= old(out)@ + decimal_digits(n as nat));
}

/// The glyph of `cell` as text.
fn glyph_string(cell: BoardGridCell) -> (s: String)
    ensures
        s@ == glyph(cell),
{
    proof {
        reveal_strlit(" ");
        reveal_strlit("O");
        reveal_strlit("X");
    }
    let s = match cell {
        BoardGridCell::Empty => " ".to_owned(),
        BoardGridCell::Cross => "X".to_owned(),
        BoardGridCell::Circle => "O".to_owned(),
    };
    assert(s@ =~= glyph(cell));
    s
}

impl BoardGridCell {
    /// The cell as text: a space for an empty cell, `O` for a circle, `X`
    /// for a cross.
    pub fn to_string(&self) -> (s: String)
        ensures
            s@ == glyph(*self),
    {
        glyph_string(*self)
    }

    /// The cell as the board shows it: a mark by its glyph, an empty cell by
    /// the number `tile` in decimal.
    pub fn to_board_string(&self, tile: i32) -> (s: String)
        ensures
            s@ == board_text(*self, tile as int),
    {
        match self {
            BoardGridCell::Empty => {
                let mut s = String::new();
                if tile < 0 {
                    s.append("-");
                    proof {
                        reveal_strlit("-");
                        assert("-"@ =~= seq!['-']);
                    }
                    push_decimal(&mut s, (-(tile as i64)) as u128);
                } else {
                    push_decimal(&mut s, tile as u128);
                }
                assert(s@ =~= decimal(tile as int));
                s
            },
            _ => glyph_string(*self),
        }
    }
}

/// The cell with index `index` as the board shows it: a mark by its glyph,
/// an empty cell by its number, which is one more than its index.
pub fn to_board_string(cell: &BoardGridCell, index: usize) -> (s: String)
    ensures
        s@ == board_text(*cell, index + 1),
{
    match cell {
        BoardGridCell::Empty => {
            let mut s = String::new();
            push_decimal(&mut s, index as u128 + 1);
            assert(s@ =~= decimal(index + 1));
            s
        },
        _ => glyph_string(*cell),
    }
}

/// Row `row` of the board as a line of text: its three cells between
/// vertical bars, each with a space on either side.
pub open spec fn row_text(cells: Seq<BoardGridCell>, row: int) -> Seq<char> {
    "│ "@ + board_text(cells[3 * row], 3 * row + 1) + " │ "@ + board_text(
        cells[3 * row + 1],
        3 * row + 2,
    ) + " │ "@ + board_text(cells[3 * row + 2], 3 * row + 3) + " │\n"@
}

/// The board as seven lines of text: three rows of cells inside a frame,
/// with a rule between rows. Empty cells show their numbers, 1 to 9.
pub open spec fn field_text(cells: Seq<BoardGridCell>) -> Seq<char> {
    "┌───┬───┬───┐\n"@ + row_text(cells, 0) + "├───┼───┼───┤\n"@ + row_text(cells, 1)
        + "├───┼───┼───┤\n"@ + row_text(cells, 2) + "└───┴───┴───┘"@
}

/// Appends row `row` of the board to `out`.
fn push_row(out: &mut String, cells: &Grid, row: usize)
    requires
        row < 3,
    ensures
        final(out)@ == old(out)@ + row_text(cells@, row as int),
{
    out.append("│ ");
    out.append(to_board_string(&cells[3 * row], 3 * row).as_str());
    out.append(" │ ");
    out.append(to_board_string(&cells[3 * row + 1], 3 * row + 1).as_str());
    out.append(" │ ");
    out.append(to_board_string(&cells[3 * row + 2], 3 * row + 2).as_str());
    out.append(" │\n");
    assert(final(out)@ =~= old(out)@ + row_text(cells@, row as int));
}

/// The board as text, framed, with the numbers 1 to 9 on the empty cells.
pub fn field_string(cells: &Grid) -> (s: String)
    ensures
        s@ == field_text(cells@),
{
    let mut s = String::new();
    s.append("┌───┬───┬───┐\n");
    push_row(&mut s, cells, 0);
    s.append("├───┼───┼───┤\n");
    push_row(&mut s, cells, 1);
    s.append("├───┼───┼───┤\n");
    push_row(&mut s, cells, 2);
    s.append("└───┴───┴───┘");
    assert(s@ =~= field_text(cells@));
    s
}

} // verus!
