//! The shape of an atlas: a grid of equal tiles on one canvas.

use vstd::prelude::*;
use crate::raster::blank_samples;
use crate::raster::lemma_sample_coordinates;
use crate::raster::lemma_sample_index_bound;
use crate::raster::lemma_sample_index_inverts;
use crate::raster::overlaid;
use crate::raster::sample_at;
use crate::raster::sample_index;

verus! {

/// Grid and tile size of the atlases of a run.
pub struct Layout {
    /// Grid columns.
    pub columns: nat,
    /// Grid rows.
    pub rows: nat,
    /// Width of a tile, that is of a frame, in pixels.
    pub tile_width: nat,
    /// Height of a tile in pixels.
    pub tile_height: nat,
}

impl Layout {
    /// The grid has a cell and a tile has a pixel.
    pub open spec fn valid(self) -> bool {
        self.columns > 0 && self.rows > 0 && self.tile_width > 0 && self.tile_height > 0
    }

    /// Width of the canvas in pixels.
    pub open spec fn canvas_width(self) -> nat {
        self.columns * self.tile_width
    }

    /// Height of the canvas in pixels.
    pub open spec fn canvas_height(self) -> nat {
        self.rows * self.tile_height
    }

    /// How many samples the canvas has.
    pub open spec fn canvas_len(self) -> nat {
        4 * self.canvas_width() * self.canvas_height()
    }

    /// How many samples a tile has.
    pub open spec fn tile_len(self) -> nat {
        4 * self.tile_width * self.tile_height
    }

    /// How many cells the grid has.
    pub open spec fn cells(self) -> nat {
        self.columns * self.rows
    }

    /// The canvas on which nothing was placed yet.
    pub open spec fn blank_canvas(self) -> Seq<u8> {
        blank_samples(self.canvas_width() as int, self.canvas_height() as int)
    }

    /// What a cell holds on which nothing was placed yet.
    pub open spec fn blank_tile(self) -> Seq<u8> {
        blank_samples(self.tile_width as int, self.tile_height as int)
    }

    /// The canvas after `tile` was placed in the cell `(column, row)`: the
    /// tile's upper left corner comes to lie at the pixel
    /// `(column * tile_width, row * tile_height)`.
    pub open spec fn with_tile(self, canvas: Seq<u8>, column: nat, row: nat, tile: Seq<u8>) -> Seq<
        u8,
    > {
        overlaid(
            canvas,
            self.canvas_width() as int,
            tile,
            self.tile_width as int,
            self.tile_height as int,
            (column * self.tile_width) as int,
            (row * self.tile_height) as int,
        )
    }

    /// What the canvas holds in the cell `(column, row)`, as the samples of
    /// a tile.
    pub open spec fn cell(self, canvas: Seq<u8>, column: nat, row: nat) -> Seq<u8> {
        Seq::new(
            self.tile_len(),
            |i: int|
                sample_at(
                    canvas,
                    self.canvas_width() as int,
                    column * self.tile_width + (i / 4) % (self.tile_width as int),
                    row * self.tile_height + (i / 4) / (self.tile_width as int),
                    i % 4,
                ),
        )
    }
}

/// A pixel lies in the band of cell `a` exactly when `a` is the cell it was
/// counted from.
proof fn lemma_band(size: int, a: int, b: int, offset: int)
    requires
        0 < size,
        0 <= offset < size,
        0 <= a,
        0 <= b,
    ensures
        (a * size <= b * size + offset < a * size + size) <==> a == b,
{
    if b < a {
        assert(b * size + size <= a * size) by (nonlinear_arith)
            requires
                b + 1 <= a,
                0 < size,
        ;
    }
    if b > a {
        assert(a * size + size <= b * size) by (nonlinear_arith)
            requires
                a + 1 <= b,
                0 < size,
        ;
    }
}

/// A pixel of a cell is a pixel of the canvas.
proof fn lemma_cell_pixel_on_canvas(layout: Layout, column: nat, row: nat, x: int, y: int)
    requires
        layout.valid(),
        column < layout.columns,
        row < layout.rows,
        0 <= x < layout.tile_width,
        0 <= y < layout.tile_height,
    ensures
        0 <= column * layout.tile_width + x < layout.canvas_width(),
        0 <= row * layout.tile_height + y < layout.canvas_height(),
{
    let tw = layout.tile_width as int;
    let th = layout.tile_height as int;
    assert(0 <= column * tw && column * tw + tw <= layout.columns * tw) by (nonlinear_arith)
        requires
            0 <= column,
            column + 1 <= layout.columns,
            0 < tw,
    ;
    assert(0 <= row * th && row * th + th <= layout.rows * th) by (nonlinear_arith)
        requires
            0 <= row,
            row + 1 <= layout.rows,
            0 < th,
    ;
}

/// Every cell of the blank canvas is blank.
pub proof fn lemma_cell_of_blank(layout: Layout, column: nat, row: nat)
    requires
        layout.valid(),
        column < layout.columns,
        row < layout.rows,
    ensures
        layout.cell(layout.blank_canvas(), column, row) == layout.blank_tile(),
{
    let tw = layout.tile_width as int;
    let th = layout.tile_height as int;
    let cw = layout.canvas_width() as int;
    let ch = layout.canvas_height() as int;
    let cell = layout.cell(layout.blank_canvas(), column, row);
    assert(cell.len() == layout.blank_tile().len());
    assert forall|i: int| 0 <= i < cell.len() implies cell[i] == layout.blank_tile()[i] by {
        lemma_sample_coordinates(i, tw, th);
        let x = (i / 4) % tw;
        let y = (i / 4) / tw;
        lemma_cell_pixel_on_canvas(layout, column, row, x, y);
        lemma_sample_index_bound(cw, ch, column * tw + x, row * th + y, i % 4);
    }
    assert(cell =~= layout.blank_tile());
}

/// Placing a tile in a cell puts the tile there and leaves every other cell
/// as it was.
pub proof fn lemma_cell_after_placing(
    layout: Layout,
    canvas: Seq<u8>,
    column: nat,
    row: nat,
    tile: Seq<u8>,
    other_column: nat,
    other_row: nat,
)
    requires
        layout.valid(),
        canvas.len() == layout.canvas_len(),
        tile.len() == layout.tile_len(),
        column < layout.columns,
        row < layout.rows,
        other_column < layout.columns,
        other_row < layout.rows,
    ensures
        layout.with_tile(canvas, column, row, tile).len() == canvas.len(),
        layout.cell(layout.with_tile(canvas, column, row, tile), other_column, other_row) == (if other_column
            == column && other_row == row {
            tile
        } else {
            layout.cell(canvas, other_column, other_row)
        }),
{
    let tw = layout.tile_width as int;
    let th = layout.tile_height as int;
    let cw = layout.canvas_width() as int;
    let ch = layout.canvas_height() as int;
    let placed = layout.with_tile(canvas, column, row, tile);
    let seen = layout.cell(placed, other_column, other_row);
    let expected = if other_column == column && other_row == row {
        tile
    } else {
        layout.cell(canvas, other_column, other_row)
    };
    assert(seen.len() == expected.len());
    assert forall|i: int| 0 <= i < seen.len() implies seen[i] == expected[i] by {
        lemma_sample_coordinates(i, tw, th);
        let x = (i / 4) % tw;
        let y = (i / 4) / tw;
        let c = i % 4;
        let px = other_column * tw + x;
        let py = other_row * th + y;
        lemma_cell_pixel_on_canvas(layout, other_column, other_row, x, y);
        lemma_sample_index_bound(cw, ch, px, py, c);
        lemma_sample_index_inverts(cw, px, py, c);
        lemma_band(tw, column as int, other_column as int, x);
        lemma_band(th, row as int, other_row as int, y);
        let at = sample_index(cw, px, py, c);
        assert(seen[i] == placed[at]);
        if other_column == column && other_row == row {
            assert(px - column * tw == x);
            assert(py - row * th == y);
            assert(placed[at] == sample_at(tile, tw, x, y, c));
        } else {
            assert(placed[at] == canvas[at]);
        }
    }
    assert(seen =~= expected);
}

} // verus!
