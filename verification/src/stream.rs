//! What a whole stream of frames leaves behind: which atlases are handed
//! out on the way, and what the canvas holds at the end.

use vstd::prelude::*;
use crate::cursor::column_of;
use crate::cursor::lemma_cursor_formula;
use crate::cursor::lemma_next_counts;
use crate::cursor::row_of;
use crate::frame::VideoInfo;
use crate::layout::lemma_cell_after_placing;
use crate::layout::lemma_cell_of_blank;
use crate::layout::Layout;
use crate::settings::SettingsView;
use crate::state::configuration_fault;
use crate::state::AtlasView;
use crate::state::Builder;

verus! {

/// The builder after the frames came in, one after the other.
pub open spec fn run(builder: Builder, frames: Seq<Seq<u8>>) -> Builder
    decreases frames.len(),
{
    if frames.len() == 0 {
        builder
    } else {
        run(builder, frames.drop_last()).ingest(frames.last())
    }
}

/// The atlases that were handed out while the frames came in, in the order
/// in which they were handed out.
pub open spec fn handed_out(builder: Builder, frames: Seq<Seq<u8>>) -> Seq<AtlasView>
    decreases frames.len(),
{
    if frames.len() == 0 {
        Seq::empty()
    } else {
        let earlier = handed_out(builder, frames.drop_last());
        match run(builder, frames.drop_last()).completed(frames.last()) {
            Some(atlas) => earlier.push(atlas),
            None => earlier,
        }
    }
}

/// Every frame has the samples of one tile.
pub open spec fn frames_fit(layout: Layout, frames: Seq<Seq<u8>>) -> bool {
    forall|i: int| 0 <= i < frames.len() ==> (#[trigger] frames[i]).len() == layout.tile_len()
}

/// The pixels show, in every cell of the grid, the frame that the cell
/// stands for: the cell `(column, row)` shows the frame number
/// `first + column * rows + row`.
pub open spec fn shows_frames(layout: Layout, pixels: Seq<u8>, frames: Seq<Seq<u8>>, first: int)
    -> bool {
    forall|column: nat, row: nat|
        column < layout.columns && row < layout.rows ==> #[trigger] layout.cell(
            pixels,
            column,
            row,
        ) == frames[first + column * layout.rows + row]
}

/// The pixels show the first `count` frames from `first` on in the cells
/// that they stand for, and nothing in the other cells.
pub open spec fn shows_first_frames(
    layout: Layout,
    pixels: Seq<u8>,
    frames: Seq<Seq<u8>>,
    first: int,
    count: int,
) -> bool {
    forall|column: nat, row: nat|
        column < layout.columns && row < layout.rows ==> #[trigger] layout.cell(
            pixels,
            column,
            row,
        ) == (if column * layout.rows + row < count {
            frames[first + column * layout.rows + row]
        } else {
            layout.blank_tile()
        })
}

/// A cell is found again from its number.
proof fn lemma_cell_number(rows: nat, column: nat, row: nat, other_column: nat, other_row: nat)
    requires
        row < rows,
        other_row < rows,
    ensures
        (column * rows + row == other_column * rows + other_row) <==> (column == other_column
            && row == other_row),
        column < other_column ==> column * rows + row < other_column * rows + other_row,
{
    if column < other_column {
        assert(column * rows + rows <= other_column * rows) by (nonlinear_arith)
            requires
                column + 1 <= other_column,
        ;
    }
    if other_column < column {
        assert(other_column * rows + rows <= column * rows) by (nonlinear_arith)
            requires
                other_column + 1 <= column,
        ;
    }
}

/// The number of a cell of the grid is below the number of cells.
proof fn lemma_cell_number_bound(columns: nat, rows: nat, column: nat, row: nat)
    requires
        column < columns,
        row < rows,
    ensures
        column * rows + row < columns * rows,
{
    assert(column * rows + rows <= columns * rows) by (nonlinear_arith)
        requires
            column + 1 <= columns,
    ;
}

/// What one frame does to a well-formed builder.
pub proof fn lemma_ingest(builder: Builder, tile: Seq<u8>)
    requires
        builder.wf(),
        tile.len() == builder.layout().tile_len(),
    ensures
        builder.ingest(tile).wf(),
        builder.ingest(tile).settings == builder.settings,
        builder.ingest(tile).frame == builder.frame,
        builder.filled() < builder.layout().cells(),
        builder.completes() <==> builder.filled() + 1 == builder.layout().cells(),
        builder.completes() ==> builder.ingest(tile).filled() == 0 && builder.ingest(tile).index
            == builder.index + 1 && builder.ingest(tile).canvas
            == builder.layout().blank_canvas(),
        !builder.completes() ==> builder.ingest(tile).filled() == builder.filled() + 1
            && builder.ingest(tile).index == builder.index && builder.ingest(tile).canvas
            == builder.painted(tile),
{
    lemma_next_counts(builder.cursor);
}

/// What a stream of `atlases` times the cells of the grid and `rest` more
/// frames leaves behind, when it came in on the builder at its start:
///
/// - `atlases` atlases were handed out, with the indices from zero on in
///   their order, each complete and showing its frames cell by cell;
/// - the builder stands at the index `atlases` with `rest` cells filled,
///   and its canvas shows the `rest` last frames in their cells and nothing
///   in the other cells.
pub proof fn lemma_stream(
    settings: SettingsView,
    frame: VideoInfo,
    frames: Seq<Seq<u8>>,
    atlases: nat,
    rest: nat,
)
    requires
        configuration_fault(settings, frame) is None,
        frames_fit(Builder::start(settings, frame).layout(), frames),
        rest < settings.width * settings.height,
        frames.len() == atlases * (settings.width * settings.height) + rest,
    ensures
        run(Builder::start(settings, frame), frames).wf(),
        run(Builder::start(settings, frame), frames).settings == settings,
        run(Builder::start(settings, frame), frames).frame == frame,
        run(Builder::start(settings, frame), frames).index == atlases,
        run(Builder::start(settings, frame), frames).filled() == rest,
        rest == 0 ==> run(Builder::start(settings, frame), frames).canvas == Builder::start(
            settings,
            frame,
        ).canvas,
        shows_first_frames(
            Builder::start(settings, frame).layout(),
            run(Builder::start(settings, frame), frames).canvas,
            frames,
            atlases * (settings.width * settings.height),
            rest as int,
        ),
        handed_out(Builder::start(settings, frame), frames).len() == atlases,
        forall|a: int|
            0 <= a < atlases ==> {
                let atlas = #[trigger] handed_out(Builder::start(settings, frame), frames)[a];
                &&& atlas == Builder { index: a as nat, ..Builder::start(settings, frame) }.atlas(
                    atlas.pixels,
                    true,
                )
                &&& shows_frames(
                    Builder::start(settings, frame).layout(),
                    atlas.pixels,
                    frames,
                    a * (settings.width * settings.height),
                )
            },
    decreases frames.len(),
{
    let start = Builder::start(settings, frame);
    let layout = start.layout();
    let cells = (settings.width * settings.height) as nat;
    assert(cells == layout.cells());
    assert(layout.valid());
    if frames.len() == 0 {
        assert(atlases * cells == 0 && rest == 0) by (nonlinear_arith)
            requires
                atlases * cells + rest == 0,
                cells > 0,
        ;
        assert(atlases == 0) by (nonlinear_arith)
            requires
                atlases * cells == 0,
                cells > 0,
        ;
        assert(start.filled() == 0) by (nonlinear_arith)
            requires
                start.filled() == 0 * settings.height + 0,
        ;
        assert forall|column: nat, row: nat|
            column < layout.columns && row < layout.rows implies #[trigger] layout.cell(
            start.canvas,
            column,
            row,
        ) == layout.blank_tile() by {
            lemma_cell_of_blank(layout, column, row);
        }
    } else {
        let earlier = frames.drop_last();
        let tile = frames.last();
        let before_atlases: nat = if rest == 0 {
            (atlases - 1) as nat
        } else {
            atlases
        };
        let before_rest: nat = if rest == 0 {
            (cells - 1) as nat
        } else {
            (rest - 1) as nat
        };
        if rest == 0 {
            assert(atlases > 0) by (nonlinear_arith)
                requires
                    atlases * cells + rest > 0,
                    rest == 0,
            ;
            assert(atlases * cells == (atlases - 1) * cells + cells) by (nonlinear_arith);
        }
        assert(earlier.len() == before_atlases * cells + before_rest);
        assert(frames_fit(layout, earlier));
        lemma_stream(settings, frame, earlier, before_atlases, before_rest);
        let before = run(start, earlier);
        let after = run(start, frames);
        assert(after == before.ingest(tile));
        assert(tile == frames[frames.len() - 1]);
        lemma_ingest(before, tile);
        let first: int = (before_atlases * cells) as int;
        assert(frames.len() - 1 == first + before.filled());
        assert forall|column: nat, row: nat|
            column < layout.columns && row < layout.rows implies #[trigger] layout.cell(
            before.painted(tile),
            column,
            row,
        ) == (if column * layout.rows + row < before.filled() + 1 {
            frames[first + column * layout.rows + row]
        } else {
            layout.blank_tile()
        }) by {
            lemma_cell_after_placing(
                layout,
                before.canvas,
                before.cursor.column as nat,
                before.cursor.row as nat,
                tile,
                column,
                row,
            );
            lemma_cell_number(
                layout.rows,
                before.cursor.column as nat,
                before.cursor.row as nat,
                column,
                row,
            );
            assert(layout.cell(before.canvas, column, row) == (if column * layout.rows + row
                < before.filled() {
                earlier[first + column * layout.rows + row]
            } else {
                layout.blank_tile()
            }));
        }
        if before.completes() {
            assert(rest == 0);
            assert forall|column: nat, row: nat|
                column < layout.columns && row < layout.rows implies #[trigger] layout.cell(
                after.canvas,
                column,
                row,
            ) == layout.blank_tile() by {
                lemma_cell_of_blank(layout, column, row);
            }
            let atlas = before.atlas(before.painted(tile), true);
            assert(handed_out(start, frames) == handed_out(start, earlier).push(atlas));
            assert forall|column: nat, row: nat|
                column < layout.columns && row < layout.rows implies #[trigger] layout.cell(
                atlas.pixels,
                column,
                row,
            ) == frames[first + column * layout.rows + row] by {
                lemma_cell_number_bound(layout.columns, layout.rows, column, row);
            }
            assert(before == Builder { index: before_atlases, ..before });
        } else {
            assert(rest == before_rest + 1);
            assert(handed_out(start, frames) == handed_out(start, earlier));
        }
        assert forall|a: int| 0 <= a < atlases implies {
            let atlas = #[trigger] handed_out(start, frames)[a];
            &&& atlas == Builder { index: a as nat, ..start }.atlas(atlas.pixels, true)
            &&& shows_frames(layout, atlas.pixels, frames, a * (settings.width * settings.height))
        } by {
            let atlas = handed_out(start, frames)[a];
            if a < before_atlases {
                let old_atlas = handed_out(start, earlier)[a];
                assert(atlas == old_atlas);
                assert(shows_frames(layout, old_atlas.pixels, earlier, a * cells));
                assert forall|column: nat, row: nat|
                    column < layout.columns && row < layout.rows implies #[trigger] layout.cell(
                    atlas.pixels,
                    column,
                    row,
                ) == frames[a * cells + column * layout.rows + row] by {
                    lemma_cell_number_bound(layout.columns, layout.rows, column, row);
                    assert(a * cells + cells <= before_atlases * cells) by (nonlinear_arith)
                        requires
                            a + 1 <= before_atlases,
                    ;
                    assert(layout.cell(old_atlas.pixels, column, row) == earlier[a * cells + column
                        * layout.rows + row]);
                }
            } else {
                assert(before.completes());
                assert(a == before_atlases);
            }
        }
    }
}

/// Fewer frames than the grid has cells: no atlas is handed out, the
/// cursor stands where the cursor formula puts it, and the canvas shows
/// each frame in the cell that the formula gives it, with nothing in the
/// cells that are left.
pub proof fn lemma_partial_atlas(settings: SettingsView, frame: VideoInfo, frames: Seq<Seq<u8>>)
    requires
        configuration_fault(settings, frame) is None,
        frames_fit(Builder::start(settings, frame).layout(), frames),
        frames.len() < settings.width * settings.height,
    ensures
        handed_out(Builder::start(settings, frame), frames).len() == 0,
        run(Builder::start(settings, frame), frames).index == 0,
        run(Builder::start(settings, frame), frames).cursor.column == column_of(
            frames.len(),
            settings.height as nat,
        ),
        run(Builder::start(settings, frame), frames).cursor.row == row_of(
            frames.len(),
            settings.height as nat,
        ),
        shows_first_frames(
            Builder::start(settings, frame).layout(),
            run(Builder::start(settings, frame), frames).canvas,
            frames,
            0,
            frames.len() as int,
        ),
{
    assert(0 * (settings.width * settings.height) == 0) by (nonlinear_arith);
    lemma_stream(settings, frame, frames, 0, frames.len());
    lemma_cursor_formula(run(Builder::start(settings, frame), frames).cursor);
}

/// As many frames as the grid has cells: exactly one atlas is handed out.
/// It has the index zero, is complete and shows every frame in its cell.
/// The cursor is back at the first cell, on a blank canvas with the index
/// one.
pub proof fn lemma_full_atlas(settings: SettingsView, frame: VideoInfo, frames: Seq<Seq<u8>>)
    requires
        configuration_fault(settings, frame) is None,
        frames_fit(Builder::start(settings, frame).layout(), frames),
        frames.len() == settings.width * settings.height,
    ensures
        handed_out(Builder::start(settings, frame), frames).len() == 1,
        handed_out(Builder::start(settings, frame), frames)[0] == Builder::start(
            settings,
            frame,
        ).atlas(handed_out(Builder::start(settings, frame), frames)[0].pixels, true),
        handed_out(Builder::start(settings, frame), frames)[0].index == 0,
        shows_frames(
            Builder::start(settings, frame).layout(),
            handed_out(Builder::start(settings, frame), frames)[0].pixels,
            frames,
            0,
        ),
        run(Builder::start(settings, frame), frames).cursor.column == 0,
        run(Builder::start(settings, frame), frames).cursor.row == 0,
        run(Builder::start(settings, frame), frames).index == 1,
        run(Builder::start(settings, frame), frames).canvas == Builder::start(
            settings,
            frame,
        ).layout().blank_canvas(),
{
    let start = Builder::start(settings, frame);
    assert(1 * (settings.width * settings.height) == settings.width * settings.height)
        by (nonlinear_arith);
    assert(0 * (settings.width * settings.height) == 0) by (nonlinear_arith);
    assert(settings.width * settings.height > 0) by (nonlinear_arith)
        requires
            settings.width >= 1,
            settings.height >= 1,
    ;
    lemma_stream(settings, frame, frames, 1, 0);
    lemma_cursor_formula(run(start, frames).cursor);
    assert(start == Builder { index: 0, ..start });
}

/// `atlases` full grids of frames and `rest` more, with `rest` below the
/// cells of the grid: `atlases` atlases are handed out on the way, each
/// complete, with the indices from zero on and its own frames in its
/// cells. The atlas that closes the run has the index `atlases`, is not
/// complete, and shows the `rest` last frames in their cells, with nothing
/// in the cells that are left.
pub proof fn lemma_closing_atlas(
    settings: SettingsView,
    frame: VideoInfo,
    frames: Seq<Seq<u8>>,
    atlases: nat,
    rest: nat,
)
    requires
        configuration_fault(settings, frame) is None,
        frames_fit(Builder::start(settings, frame).layout(), frames),
        rest < settings.width * settings.height,
        frames.len() == atlases * (settings.width * settings.height) + rest,
    ensures
        handed_out(Builder::start(settings, frame), frames).len() == atlases,
        forall|a: int|
            0 <= a < atlases ==> {
                let atlas = #[trigger] handed_out(Builder::start(settings, frame), frames)[a];
                &&& atlas.index == a
                &&& atlas.complete
                &&& shows_frames(
                    Builder::start(settings, frame).layout(),
                    atlas.pixels,
                    frames,
                    a * (settings.width * settings.height),
                )
            },
        run(Builder::start(settings, frame), frames).closing().index == atlases,
        !run(Builder::start(settings, frame), frames).closing().complete,
        shows_first_frames(
            Builder::start(settings, frame).layout(),
            run(Builder::start(settings, frame), frames).closing().pixels,
            frames,
            atlases * (settings.width * settings.height),
            rest as int,
        ),
{
    lemma_stream(settings, frame, frames, atlases, rest);
}

} // verus!
