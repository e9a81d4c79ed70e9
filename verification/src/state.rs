//! The atlas builder: one canvas under construction, filled tile by tile
//! and handed out when its last cell is filled.

use vstd::prelude::*;
use vstd::slice::slice_to_vec;
use vstd::string::*;
use crate::cursor::TileCursor;
use crate::descriptor::describe;
use crate::descriptor::descriptor_of;
use crate::descriptor::EffectDescriptor;
use crate::error::ConfigError;
use crate::frame::VideoInfo;
use crate::layout::Layout;
use crate::raster::raster_dimensions;
use crate::raster::raster_samples;
use crate::raster::Raster;
use crate::settings::Settings;
use crate::settings::SettingsView;
use crate::text::atlas_file_name;
use crate::text::frames_directory;
use crate::text::make_atlas_file_name;
use crate::text::make_frames_directory;

verus! {

/// One atlas as it is handed out: the image and the name of the file that
/// is to receive it.
#[derive(Debug)]
pub struct Atlas {
    /// Index of the atlas in the run, counted from zero.
    pub index: u32,
    /// Width of the image in pixels.
    pub width: u32,
    /// Height of the image in pixels.
    pub height: u32,
    /// The samples of the image: four for each pixel, the pixels row by row.
    pub pixels: Vec<u8>,
    /// Whether every cell of the grid received a frame.
    pub complete: bool,
    /// The file that is to receive the image.
    pub file_name: String,
}

/// An atlas as mathematical values.
pub struct AtlasView {
    pub index: nat,
    pub width: nat,
    pub height: nat,
    pub pixels: Seq<u8>,
    pub complete: bool,
    pub file_name: Seq<char>,
}

impl View for Atlas {
    type V = AtlasView;

    open spec fn view(&self) -> AtlasView {
        AtlasView {
            index: self.index as nat,
            width: self.width as nat,
            height: self.height as nat,
            pixels: self.pixels@,
            complete: self.complete,
            file_name: self.file_name@,
        }
    }
}

/// What the builder hands out when a frame fills the last cell: the atlas
/// for the sink, and the descriptor of the effect that plays it.
#[derive(Debug)]
pub struct CompletedAtlas {
    /// The atlas, with every cell filled.
    pub atlas: Atlas,
    /// The descriptor of the effect that plays the atlas.
    pub descriptor: EffectDescriptor,
}

/// Why the settings cannot be used with frames of the given format, if they
/// cannot.
pub open spec fn configuration_fault(settings: SettingsView, frame: VideoInfo) -> Option<
    ConfigError,
> {
    if settings.width == 0 || settings.height == 0 {
        Some(ConfigError::EmptyGrid)
    } else if settings.scale == 0 {
        Some(ConfigError::ZeroScale)
    } else if frame.width == 0 || frame.height == 0 {
        Some(ConfigError::EmptyFrame)
    } else if settings.width * frame.width > u32::MAX || settings.height * frame.height > u32::MAX
        || 4 * (settings.width * frame.width) * (settings.height * frame.height) > usize::MAX {
        Some(ConfigError::CanvasTooLarge)
    } else {
        None
    }
}

/// The builder as mathematical values.
pub struct Builder {
    /// The settings of the run.
    pub settings: SettingsView,
    /// The format of the frames.
    pub frame: VideoInfo,
    /// The cell that the next frame goes to.
    pub cursor: TileCursor,
    /// The index of the atlas under construction: how many atlases were
    /// handed out.
    pub index: nat,
    /// The samples of the canvas.
    pub canvas: Seq<u8>,
}

impl Builder {
    /// Grid and tile size of the atlases.
    pub open spec fn layout(self) -> Layout {
        Layout {
            columns: self.settings.width as nat,
            rows: self.settings.height as nat,
            tile_width: self.frame.width as nat,
            tile_height: self.frame.height as nat,
        }
    }

    /// The configuration can be encoded with, the cursor stands on a cell
    /// of the grid and the canvas has the size of the grid.
    pub open spec fn wf(self) -> bool {
        &&& configuration_fault(self.settings, self.frame) is None
        &&& self.cursor.columns == self.settings.width
        &&& self.cursor.rows == self.settings.height
        &&& self.cursor.wf()
        &&& self.canvas.len() == self.layout().canvas_len()
    }

    /// The builder before the first frame of a run.
    pub open spec fn start(settings: SettingsView, frame: VideoInfo) -> Builder {
        let layout = Layout {
            columns: settings.width as nat,
            rows: settings.height as nat,
            tile_width: frame.width as nat,
            tile_height: frame.height as nat,
        };
        Builder {
            settings,
            frame,
            cursor: TileCursor {
                columns: settings.width,
                rows: settings.height,
                column: 0,
                row: 0,
            },
            index: 0,
            canvas: layout.blank_canvas(),
        }
    }

    /// How many cells of the canvas received a frame: the cells of the
    /// columns left of the cursor, and the cells above it in its column.
    pub open spec fn filled(self) -> nat {
        self.cursor.filled()
    }

    /// The next frame fills the last cell of the grid.
    pub open spec fn completes(self) -> bool {
        self.cursor.at_last_cell()
    }

    /// The canvas with `tile` placed in the cell under the cursor.
    pub open spec fn painted(self, tile: Seq<u8>) -> Seq<u8> {
        self.layout().with_tile(
            self.canvas,
            self.cursor.column as nat,
            self.cursor.row as nat,
            tile,
        )
    }

    /// The atlas with the builder's current index that shows `pixels`.
    pub open spec fn atlas(self, pixels: Seq<u8>, complete: bool) -> AtlasView {
        AtlasView {
            index: self.index,
            width: self.layout().canvas_width(),
            height: self.layout().canvas_height(),
            pixels,
            complete,
            file_name: atlas_file_name(
                frames_directory(self.settings.name),
                self.settings.name,
                self.index,
            ),
        }
    }

    /// What is handed out when `tile` comes in: the finished atlas, if the
    /// tile fills the last cell.
    pub open spec fn completed(self, tile: Seq<u8>) -> Option<AtlasView> {
        if self.completes() {
            Some(self.atlas(self.painted(tile), true))
        } else {
            None
        }
    }

    /// The builder after `tile` came in. The tile goes to the cell under
    /// the cursor, and the cursor moves on. When the tile fills the last
    /// cell, a blank canvas with the next index takes the place of the
    /// full one.
    pub open spec fn ingest(self, tile: Seq<u8>) -> Builder {
        if self.completes() {
            Builder {
                cursor: self.cursor.next(),
                index: self.index + 1,
                canvas: self.layout().blank_canvas(),
                ..self
            }
        } else {
            Builder { cursor: self.cursor.next(), canvas: self.painted(tile), ..self }
        }
    }

    /// The atlas that closes the run: the canvas as it stands.
    pub open spec fn closing(self) -> AtlasView {
        self.atlas(self.canvas, false)
    }
}

/// The state of one encoding run.
pub struct State {
    video_info: VideoInfo,
    context: Option<Raster>,
    settings: Settings,
    path: String,
    ptr: TileCursor,
    index: u32,
}

impl State {
    /// The builder that this state stands for.
    pub closed spec fn model(&self) -> Builder {
        Builder {
            settings: self.settings@,
            frame: self.video_info,
            cursor: self.ptr,
            index: self.index as nat,
            canvas: match self.context {
                Some(canvas) => raster_samples(canvas),
                None => Seq::empty(),
            },
        }
    }

    /// The directory that receives the atlas images.
    pub closed spec fn path(&self) -> Seq<char> {
        self.path@
    }

    /// The state was reset with settings that fit its frames, and holds a
    /// canvas of the size of its grid.
    pub closed spec fn configured(&self) -> bool {
        &&& self.context matches Some(canvas)
        &&& raster_dimensions(canvas) == (
            (self.settings.width * self.video_info.width) as u32,
            (self.settings.height * self.video_info.height) as u32,
        )
        &&& self.model().wf()
        &&& self.path@ == frames_directory(self.settings.name@)
    }

    /// A configured state stands for a well-formed builder.
    pub proof fn lemma_configured(&self)
        requires
            self.configured(),
        ensures
            self.model().wf(),
            self.path() == frames_directory(self.model().settings.name),
    {
    }

    /// The settings of a state that was not reset yet.
    pub open spec fn unset() -> SettingsView {
        SettingsView {
            width: 0,
            height: 0,
            scale: 1,
            looping: false,
            facing_camera_mode: "direction_z"@,
            name: "pristine"@,
            description: Seq::empty(),
        }
    }

    /// A state for frames of the given format, without settings and
    /// without a canvas.
    pub fn new(video_info: VideoInfo) -> (state: State)
        ensures
            !state.configured(),
            state.path() == "tmp"@,
            state.model() == (Builder {
                settings: State::unset(),
                frame: video_info,
                cursor: TileCursor { columns: 0, rows: 0, column: 0, row: 0 },
                index: 0,
                canvas: Seq::empty(),
            }),
    {
        State {
            video_info,
            context: None,
            settings: Settings {
                width: 0,
                height: 0,
                scale: 1,
                looping: false,
                facing_camera_mode: String::from_str("direction_z"),
                name: String::from_str("pristine"),
                description: String::new(),
            },
            path: String::from_str("tmp"),
            ptr: TileCursor::new(0, 0),
            index: 0,
        }
    }

    /// The negotiated format of the frames.
    pub fn video_info(&self) -> (video_info: VideoInfo)
        ensures
            video_info == self.model().frame,
    {
        self.video_info
    }

    /// Column and row of the cell that the next frame goes to.
    pub fn ptr(&self) -> (ptr: (u32, u32))
        ensures
            ptr == (self.model().cursor.column, self.model().cursor.row),
    {
        (self.ptr.column, self.ptr.row)
    }

    /// Index of the atlas under construction.
    pub fn index(&self) -> (index: u32)
        ensures
            index == self.model().index,
    {
        self.index
    }

    /// Whether the next frame fills the last cell of the grid.
    pub fn at_last_cell(&self) -> (last: bool)
        requires
            self.configured(),
        ensures
            last == self.model().completes(),
    {
        self.ptr.column == self.settings.width - 1 && self.ptr.row == self.settings.height - 1
    }

    /// The settings that the state was last reset with.
    pub fn settings(&self) -> (settings: &Settings)
        ensures
            settings@ == self.model().settings,
    {
        &self.settings
    }

    /// Starts a run over with the given settings: checks them against the
    /// format of the frames, and allocates a blank canvas of the size of
    /// the grid. A fault leaves the state as it was.
    pub fn reset(&mut self, settings: Settings) -> (result: Result<(), ConfigError>)
        ensures
            match result {
                Ok(()) => {
                    &&& configuration_fault(settings@, old(self).model().frame) is None
                    &&& final(self).configured()
                    &&& final(self).model() == Builder::start(settings@, old(self).model().frame)
                    &&& final(self).path() == frames_directory(settings@.name)
                },
                Err(fault) => {
                    &&& configuration_fault(settings@, old(self).model().frame) == Some(fault)
                    &&& *final(self) == *old(self)
                },
            },
    {
        if settings.width == 0 || settings.height == 0 {
            return Err(ConfigError::EmptyGrid);
        }
        if settings.scale == 0 {
            return Err(ConfigError::ZeroScale);
        }
        let frame_width = self.video_info.width;
        let frame_height = self.video_info.height;
        if frame_width == 0 || frame_height == 0 {
            return Err(ConfigError::EmptyFrame);
        }
        assert(settings.width * frame_width <= u64::MAX) by (nonlinear_arith)
            requires
                settings.width <= u32::MAX,
                frame_width <= u32::MAX,
        ;
        assert(settings.height * frame_height <= u64::MAX) by (nonlinear_arith)
            requires
                settings.height <= u32::MAX,
                frame_height <= u32::MAX,
        ;
        let canvas_width: u64 = settings.width as u64 * frame_width as u64;
        let canvas_height: u64 = settings.height as u64 * frame_height as u64;
        if canvas_width > u32::MAX as u64 || canvas_height > u32::MAX as u64 {
            return Err(ConfigError::CanvasTooLarge);
        }
        assert(4 * canvas_width * canvas_height <= u128::MAX) by (nonlinear_arith)
            requires
                canvas_width <= u32::MAX,
                canvas_height <= u32::MAX,
        ;
        assert(4 * canvas_width <= u128::MAX);
        let samples: u128 = 4 * (canvas_width as u128) * (canvas_height as u128);
        if samples > usize::MAX as u128 {
            return Err(ConfigError::CanvasTooLarge);
        }
        assert(canvas_height >= 1) by (nonlinear_arith)
            requires
                canvas_height == settings.height * frame_height,
                settings.height >= 1,
                frame_height >= 1,
        ;
        assert(4 * canvas_width <= 4 * canvas_width * canvas_height) by (nonlinear_arith)
            requires
                canvas_height >= 1,
        ;
        let canvas = Raster::blank(canvas_width as u32, canvas_height as u32);
        self.path = make_frames_directory(settings.name.as_str());
        self.ptr = TileCursor::new(settings.width, settings.height);
        self.index = 0;
        self.settings = settings;
        self.context = Some(canvas);
        Ok(())
    }

    /// Places one frame in the cell under the cursor and moves the cursor
    /// on. When the frame fills the last cell, the atlas and its descriptor
    /// are handed out and a blank canvas takes the place of the full one.
    pub fn write_data(&mut self, data: &[u8]) -> (completed: Option<CompletedAtlas>)
        requires
            old(self).configured(),
            data@.len() == old(self).model().frame.sample_count(),
            old(self).model().completes() ==> old(self).model().index < u32::MAX,
        ensures
            final(self).configured(),
            final(self).model() == old(self).model().ingest(data@),
            final(self).path() == old(self).path(),
            match completed {
                Some(done) => {
                    &&& old(self).model().completed(data@) == Some(done.atlas@)
                    &&& done.descriptor@ == descriptor_of(
                        old(self).model().settings,
                        old(self).model().frame,
                        old(self).model().index as u32,
                    )
                },
                None => old(self).model().completed(data@) is None,
            },
    {
        let frame_width = self.video_info.width;
        let frame_height = self.video_info.height;
        proof {
            assert(self.ptr.column * frame_width + frame_width <= self.settings.width * frame_width)
                by (nonlinear_arith)
                requires
                    self.ptr.column + 1 <= self.settings.width,
                    0 <= frame_width,
            ;
            assert(self.ptr.row * frame_height + frame_height <= self.settings.height
                * frame_height) by (nonlinear_arith)
                requires
                    self.ptr.row + 1 <= self.settings.height,
                    0 <= frame_height,
            ;
        }
        proof {
            assert(4 * frame_width <= 4 * frame_width * frame_height) by (nonlinear_arith)
                requires
                    frame_height >= 1,
            ;
            let canvas_width = self.settings.width * frame_width;
            let canvas_height = self.settings.height * frame_height;
            assert(canvas_height >= 1) by (nonlinear_arith)
                requires
                    canvas_height == self.settings.height * frame_height,
                    self.settings.height >= 1,
                    frame_height >= 1,
            ;
            assert(4 * canvas_width <= 4 * canvas_width * canvas_height) by (nonlinear_arith)
                requires
                    canvas_width >= 0,
                    canvas_height >= 1,
            ;
        }
        let tile = Raster::from_raw(frame_width, frame_height, slice_to_vec(data)).unwrap();
        let mut canvas = self.context.take().unwrap();
        let x = self.ptr.column * frame_width;
        let y = self.ptr.row * frame_height;
        canvas.place(&tile, x, y);
        let placement = self.ptr.advance();
        if placement.atlas_complete {
            let canvas_width = self.settings.width * frame_width;
            let canvas_height = self.settings.height * frame_height;
            let atlas = Atlas {
                index: self.index,
                width: canvas_width,
                height: canvas_height,
                pixels: canvas.to_raw(),
                complete: true,
                file_name: make_atlas_file_name(
                    self.path.as_str(),
                    self.settings.name.as_str(),
                    self.index,
                ),
            };
            let descriptor = describe(&self.settings, self.video_info, self.index);
            self.index = self.index + 1;
            self.context = Some(Raster::blank(canvas_width, canvas_height));
            Some(CompletedAtlas { atlas, descriptor })
        } else {
            self.context = Some(canvas);
            None
        }
    }

    /// The atlas that closes the run: a copy of the canvas as it stands,
    /// under the index of the atlas in progress.
    pub fn closing_atlas(&self) -> (atlas: Atlas)
        requires
            self.configured(),
        ensures
            atlas@ == self.model().closing(),
    {
        let canvas = self.context.as_ref().unwrap();
        Atlas {
            index: self.index,
            width: self.settings.width * self.video_info.width,
            height: self.settings.height * self.video_info.height,
            pixels: canvas.to_raw(),
            complete: false,
            file_name: make_atlas_file_name(
                self.path.as_str(),
                self.settings.name.as_str(),
                self.index,
            ),
        }
    }
}

} // verus!
