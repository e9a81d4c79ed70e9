//! The tile cursor: the next grid cell to fill in the atlas under
//! construction.

use vstd::prelude::*;
use vstd::arithmetic::div_mod::lemma_fundamental_div_mod;
use vstd::arithmetic::div_mod::lemma_fundamental_div_mod_converse;

verus! {

/// Points at the next empty cell of a `columns` x `rows` grid.
///
/// Cells are filled column by column: a column is filled from its top row to
/// its bottom row before the cursor moves one column to the right.
#[derive(Clone, Copy, Debug, PartialEq, Eq)]
pub struct TileCursor {
    /// Columns of the grid.
    pub columns: u32,
    /// Rows of the grid.
    pub rows: u32,
    /// Column of the next empty cell.
    pub column: u32,
    /// Row of the next empty cell.
    pub row: u32,
}

/// What one call of [`TileCursor::advance`] reports: the cell that was handed
/// out, and whether it was the last cell of the grid.
#[derive(Clone, Copy, Debug, PartialEq, Eq)]
pub struct Placement {
    /// Column of the cell to fill.
    pub column: u32,
    /// Row of the cell to fill.
    pub row: u32,
    /// Whether the cell is the last of the grid, so that filling it
    /// completes the atlas.
    pub atlas_complete: bool,
}

/// The column of the cell that is filled `filled`-th in a grid of `rows` rows.
pub open spec fn column_of(filled: nat, rows: nat) -> nat {
    filled / rows
}

/// The row of the cell that is filled `filled`-th in a grid of `rows` rows.
pub open spec fn row_of(filled: nat, rows: nat) -> nat {
    filled % rows
}

impl TileCursor {
    /// The cursor names a cell inside a non-empty grid.
    pub open spec fn wf(&self) -> bool {
        &&& self.column < self.columns
        &&& self.row < self.rows
    }

    /// How many cells of the current atlas lie before the cursor.
    pub open spec fn filled(&self) -> nat {
        (self.column * self.rows + self.row) as nat
    }

    /// How many cells the grid has.
    pub open spec fn cells(&self) -> nat {
        (self.columns * self.rows) as nat
    }

    /// The cursor points at the last cell of the grid.
    pub open spec fn at_last_cell(&self) -> bool {
        self.column == self.columns - 1 && self.row == self.rows - 1
    }

    /// The cursor after one placement.
    pub open spec fn next(&self) -> TileCursor {
        if self.row == self.rows - 1 {
            if self.column == self.columns - 1 {
                TileCursor { column: 0, row: 0, ..*self }
            } else {
                TileCursor { column: (self.column + 1) as u32, row: 0, ..*self }
            }
        } else {
            TileCursor { row: (self.row + 1) as u32, ..*self }
        }
    }

    /// The cursor after `steps` placements.
    pub open spec fn after(&self, steps: nat) -> TileCursor
        decreases steps,
    {
        if steps == 0 {
            *self
        } else {
            self.after((steps - 1) as nat).next()
        }
    }

    /// A cursor at the first cell of a grid of the given shape.
    pub fn new(columns: u32, rows: u32) -> (cursor: TileCursor)
        ensures
            cursor == (TileCursor { columns, rows, column: 0, row: 0 }),
            cursor.wf() <==> columns > 0 && rows > 0,
    {
        TileCursor { columns, rows, column: 0, row: 0 }
    }

    /// Hands out the cell to fill and moves to the one after it.
    pub fn advance(&mut self) -> (placement: Placement)
        requires
            old(self).wf(),
        ensures
            placement.column == old(self).column,
            placement.row == old(self).row,
            placement.atlas_complete == old(self).at_last_cell(),
            *final(self) == old(self).next(),
            final(self).wf(),
    {
        let placement = Placement {
            column: self.column,
            row: self.row,
            atlas_complete: self.row == self.rows - 1 && self.column == self.columns - 1,
        };
        if self.row == self.rows - 1 {
            if self.column == self.columns - 1 {
                self.column = 0;
            } else {
                self.column = self.column + 1;
            }
            self.row = 0;
        } else {
            self.row = self.row + 1;
        }
        placement
    }
}

/// One placement moves the count of filled cells on by one, and back to
/// zero when the grid is full.
pub proof fn lemma_next_counts(cursor: TileCursor)
    requires
        cursor.wf(),
    ensures
        cursor.next().wf(),
        cursor.filled() < cursor.cells(),
        cursor.at_last_cell() <==> cursor.filled() + 1 == cursor.cells(),
        cursor.at_last_cell() ==> cursor.next().filled() == 0,
        !cursor.at_last_cell() ==> cursor.next().filled() == cursor.filled() + 1,
{
    let columns = cursor.columns as int;
    let rows = cursor.rows as int;
    let column = cursor.column as int;
    let row = cursor.row as int;
    assert(column * rows + rows <= columns * rows) by (nonlinear_arith)
        requires
            column + 1 <= columns,
            rows > 0,
    ;
    assert((column + 1) * rows == column * rows + rows) by (nonlinear_arith);
    assert(0 * rows == 0) by (nonlinear_arith);
    if column < columns - 1 {
        assert((column + 1) * rows + rows <= columns * rows) by (nonlinear_arith)
            requires
                column + 2 <= columns,
                rows > 0,
        ;
    }
}

/// The cursor formula: a cursor with `filled` cells behind it stands in
/// column `filled / rows` and row `filled % rows`.
pub proof fn lemma_cursor_formula(cursor: TileCursor)
    requires
        cursor.wf(),
    ensures
        cursor.column == column_of(cursor.filled(), cursor.rows as nat),
        cursor.row == row_of(cursor.filled(), cursor.rows as nat),
{
    lemma_fundamental_div_mod_converse(
        cursor.filled() as int,
        cursor.rows as int,
        cursor.column as int,
        cursor.row as int,
    );
}

/// After `steps` placements the cursor has gone round the grid as often as
/// the grid was filled, and has as many cells behind it as are left over.
pub proof fn lemma_cursor_after(cursor: TileCursor, steps: nat)
    requires
        cursor.wf(),
    ensures
        cursor.after(steps).wf(),
        cursor.after(steps).columns == cursor.columns,
        cursor.after(steps).rows == cursor.rows,
        cursor.after(steps).filled() == (cursor.filled() + steps) % cursor.cells(),
    decreases steps,
{
    let cells = cursor.cells() as int;
    lemma_next_counts(cursor);
    if steps == 0 {
        lemma_fundamental_div_mod_converse(cursor.filled() as int, cells, 0, cursor.filled() as int);
    } else {
        let before = cursor.after((steps - 1) as nat);
        lemma_cursor_after(cursor, (steps - 1) as nat);
        lemma_next_counts(before);
        let count = cursor.filled() + steps - 1;
        lemma_fundamental_div_mod(count, cells);
        let rounds = count / cells;
        assert(cells * rounds == rounds * cells) by (nonlinear_arith);
        if before.at_last_cell() {
            assert(count + 1 == (rounds + 1) * cells + 0) by (nonlinear_arith)
                requires
                    count == rounds * cells + (cells - 1),
            ;
            lemma_fundamental_div_mod_converse(count + 1, cells, rounds + 1, 0);
        } else {
            lemma_fundamental_div_mod_converse(
                count + 1,
                cells,
                rounds,
                (before.filled() + 1) as int,
            );
        }
    }
}

} // verus!
