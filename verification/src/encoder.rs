//! The encoder: settings that can be changed between runs, and the state
//! of the run in progress, if a format was negotiated.

use vstd::prelude::*;
use crate::descriptor::descriptor_of;
use crate::error::ConfigError;
use crate::error::EncodeError;
use crate::frame::Frame;
use crate::frame::VideoInfo;
use crate::script::generate_script;
use crate::script::lines;
use crate::script::repeating_block;
use crate::script::setup_block;
use crate::script::Script;
use crate::settings::Settings;
use crate::settings::SettingsView;
use crate::state::configuration_fault;
use crate::state::Atlas;
use crate::state::Builder;
use crate::state::CompletedAtlas;
use crate::state::State;
use crate::text::frames_directory;

verus! {

/// Every how many frames the caller is asked to report progress.
pub const PROGRESS_INTERVAL: u32 = 40;

/// The number of the property that holds the grid columns.
pub const PROPERTY_WIDTH: usize = 0;

/// The number of the property that holds the grid rows.
pub const PROPERTY_HEIGHT: usize = 1;

/// The number of the property that holds the scale of the particle.
pub const PROPERTY_SCALE: usize = 2;

/// The number of the property that says whether the animation loops.
pub const PROPERTY_LOOP: usize = 3;

/// The value of a property.
#[derive(Clone, Copy, Debug, PartialEq, Eq, Structural)]
pub enum PropertyValue {
    /// The value of a property that holds a number.
    UInt(u32),
    /// The value of a property that holds a flag.
    Bool(bool),
}

/// The property with the number `id` takes the value `value`.
pub open spec fn property_accepts(id: usize, value: PropertyValue) -> bool {
    if id == PROPERTY_LOOP {
        value is Bool
    } else {
        id < PROPERTY_LOOP && value is UInt
    }
}

/// The value of the property with the number `id`.
pub open spec fn property_of(settings: SettingsView, id: usize) -> PropertyValue {
    if id == PROPERTY_WIDTH {
        PropertyValue::UInt(settings.width)
    } else if id == PROPERTY_HEIGHT {
        PropertyValue::UInt(settings.height)
    } else if id == PROPERTY_SCALE {
        PropertyValue::UInt(settings.scale)
    } else {
        PropertyValue::Bool(settings.looping)
    }
}

/// The settings after the property with the number `id` was given the
/// value `value`.
pub open spec fn with_property(settings: SettingsView, id: usize, value: PropertyValue)
    -> SettingsView {
    match value {
        PropertyValue::UInt(number) => if id == PROPERTY_WIDTH {
            SettingsView { width: number, ..settings }
        } else if id == PROPERTY_HEIGHT {
            SettingsView { height: number, ..settings }
        } else {
            SettingsView { scale: number, ..settings }
        },
        PropertyValue::Bool(flag) => SettingsView { looping: flag, ..settings },
    }
}

/// What the encoder reports when it has taken a frame.
#[derive(Debug)]
pub struct FrameOutcome {
    /// Whether the caller is to report progress at this frame.
    pub progress: bool,
    /// The atlas that the frame completed, if it completed one.
    pub completed: Option<CompletedAtlas>,
}

/// What the encoder reports at the end of the stream.
#[derive(Debug)]
pub struct Finished {
    /// The atlas that closes the run: the canvas as the last frame left it.
    pub atlas: Atlas,
    /// The script that plays the atlases of the run.
    pub script: Script,
}

/// Why the frame cannot be taken in the given state, if it cannot.
pub open spec fn frame_fault(state: Option<State>, frame: Frame) -> Option<EncodeError> {
    match state {
        None => Some(EncodeError::NotNegotiated),
        Some(state) => if !frame.fits(state.model().frame) {
            Some(EncodeError::Configuration(ConfigError::DimensionMismatch))
        } else if state.model().completes() && state.model().index >= u32::MAX {
            Some(EncodeError::AtlasIndexExhausted)
        } else {
            None
        },
    }
}

/// The encoder: it takes the frames of a stream one by one, hands out
/// each atlas as soon as it is complete, and at the end of the stream the
/// closing atlas and the script.
pub struct Encoder {
    state: Option<State>,
    settings: Settings,
}

impl Encoder {
    /// The state of the run in progress.
    pub closed spec fn state(&self) -> Option<State> {
        self.state
    }

    /// The settings that the next run starts with.
    pub closed spec fn settings(&self) -> SettingsView {
        self.settings@
    }

    /// A run in progress has a canvas.
    pub closed spec fn wf(&self) -> bool {
        self.state matches Some(state) ==> state.configured()
    }

    /// An encoder with the default settings and no run in progress.
    pub fn new() -> (encoder: Encoder)
        ensures
            encoder.wf(),
            encoder.state() is None,
            encoder.settings() == SettingsView::initial(),
    {
        Encoder { state: None, settings: Settings::default() }
    }

    /// The state of the run in progress, if a format was negotiated.
    pub fn negotiated(&self) -> (state: Option<&State>)
        ensures
            match state {
                Some(state) => self.state() == Some(*state),
                None => self.state() is None,
            },
    {
        self.state.as_ref()
    }

    /// Names the pack that the next run encodes for, and says how its
    /// particles face the camera. The run in progress keeps the settings
    /// it was started with.
    pub fn set_pack(&mut self, name: String, facing_camera_mode: String, description: String)
        requires
            old(self).wf(),
        ensures
            final(self).wf(),
            final(self).state() == old(self).state(),
            final(self).settings() == (SettingsView {
                name: name@,
                facing_camera_mode: facing_camera_mode@,
                description: description@,
                ..old(self).settings()
            }),
    {
        self.settings.name = name;
        self.settings.facing_camera_mode = facing_camera_mode;
        self.settings.description = description;
    }

    /// Gives the property with the number `id` the value `value`. The run
    /// in progress keeps the settings it was started with.
    pub fn set_property(&mut self, id: usize, value: PropertyValue)
        requires
            old(self).wf(),
            property_accepts(id, value),
        ensures
            final(self).wf(),
            final(self).state() == old(self).state(),
            final(self).settings() == with_property(old(self).settings(), id, value),
    {
        match value {
            PropertyValue::UInt(number) => {
                if id == PROPERTY_WIDTH {
                    self.settings.width = number;
                } else if id == PROPERTY_HEIGHT {
                    self.settings.height = number;
                } else {
                    self.settings.scale = number;
                }
            },
            PropertyValue::Bool(flag) => {
                self.settings.looping = flag;
            },
        }
    }

    /// The value of the property with the number `id`.
    pub fn get_property(&self, id: usize) -> (value: PropertyValue)
        requires
            id <= PROPERTY_LOOP,
        ensures
            value == property_of(self.settings(), id),
    {
        if id == PROPERTY_WIDTH {
            PropertyValue::UInt(self.settings.width)
        } else if id == PROPERTY_HEIGHT {
            PropertyValue::UInt(self.settings.height)
        } else if id == PROPERTY_SCALE {
            PropertyValue::UInt(self.settings.scale)
        } else {
            PropertyValue::Bool(self.settings.looping)
        }
    }

    /// Ends the run in progress, if there is one.
    pub fn stop(&mut self)
        ensures
            final(self).wf(),
            final(self).state() is None,
            final(self).settings() == old(self).settings(),
    {
        self.state = None;
    }

    /// Starts a run for frames of the negotiated format, with the settings
    /// as they stand. A fault leaves the encoder as it was.
    pub fn set_format(&mut self, video_info: VideoInfo) -> (result: Result<(), EncodeError>)
        requires
            old(self).wf(),
        ensures
            final(self).wf(),
            final(self).settings() == old(self).settings(),
            match result {
                Ok(()) => {
                    &&& configuration_fault(old(self).settings(), video_info) is None
                    &&& final(self).state() matches Some(state)
                    &&& state.model() == Builder::start(old(self).settings(), video_info)
                    &&& state.path() == frames_directory(old(self).settings().name)
                },
                Err(error) => {
                    &&& configuration_fault(old(self).settings(), video_info) matches Some(fault)
                    &&& error == EncodeError::Configuration(fault)
                    &&& final(self).state() == old(self).state()
                },
            },
    {
        let mut state = State::new(video_info);
        match state.reset(self.settings.clone()) {
            Ok(()) => {
                self.state = Some(state);
                Ok(())
            },
            Err(fault) => Err(EncodeError::Configuration(fault)),
        }
    }

    /// Takes the next frame of the stream: places it on the canvas and
    /// hands out the atlas, if the frame completed one. A fault leaves the
    /// encoder as it was.
    pub fn handle_frame(&mut self, frame: &Frame) -> (result: Result<FrameOutcome, EncodeError>)
        requires
            old(self).wf(),
        ensures
            final(self).wf(),
            final(self).settings() == old(self).settings(),
            match result {
                Ok(outcome) => {
                    &&& frame_fault(old(self).state(), *frame) is None
                    &&& old(self).state() matches Some(before)
                    &&& final(self).state() matches Some(after)
                    &&& after.model() == before.model().ingest(frame.pixels@)
                    &&& after.path() == before.path()
                    &&& outcome.progress == (frame.sequence % PROGRESS_INTERVAL == 0)
                    &&& match outcome.completed {
                        Some(done) => {
                            &&& before.model().completed(frame.pixels@) == Some(done.atlas@)
                            &&& done.descriptor@ == descriptor_of(
                                before.model().settings,
                                before.model().frame,
                                before.model().index as u32,
                            )
                        },
                        None => before.model().completed(frame.pixels@) is None,
                    }
                },
                Err(error) => {
                    &&& frame_fault(old(self).state(), *frame) == Some(error)
                    &&& final(self).state() == old(self).state()
                },
            },
    {
        match self.state.take() {
            None => Err(EncodeError::NotNegotiated),
            Some(mut state) => {
                let format = state.video_info();
                proof {
                    state.lemma_configured();
                    assert(4 * format.width * format.height <= usize::MAX) by (nonlinear_arith)
                        requires
                            4 * (state.model().settings.width * format.width) * (
                            state.model().settings.height * format.height) <= usize::MAX,
                            state.model().settings.width >= 1,
                            state.model().settings.height >= 1,
                            format.width >= 0,
                            format.height >= 0,
                    ;
                    assert(4 * format.width <= 4 * format.width * format.height)
                        by (nonlinear_arith)
                        requires
                            format.width >= 0,
                            format.height >= 1,
                    ;
                }
                let fits = frame.width == format.width && frame.height == format.height
                    && frame.pixels.len() == 4 * (format.width as usize) * (format.height as usize);
                if !fits {
                    self.state = Some(state);
                    return Err(EncodeError::Configuration(ConfigError::DimensionMismatch));
                }
                if state.at_last_cell() && state.index() == u32::MAX {
                    self.state = Some(state);
                    return Err(EncodeError::AtlasIndexExhausted);
                }
                let completed = state.write_data(frame.pixels.as_slice());
                self.state = Some(state);
                Ok(FrameOutcome { progress: frame.sequence % PROGRESS_INTERVAL == 0, completed })
            },
        }
    }

    /// Ends the stream: hands out the canvas as it stands as the closing
    /// atlas, and the script that plays every atlas of the run, the
    /// closing one included.
    pub fn finish(&self) -> (result: Result<Finished, EncodeError>)
        requires
            self.wf(),
        ensures
            match result {
                Ok(finished) => {
                    &&& self.state() matches Some(state)
                    &&& finished.atlas@ == state.model().closing()
                    &&& lines(finished.script.setup) == setup_block(state.model().settings.name)
                    &&& lines(finished.script.repeating) == repeating_block(
                        state.model().settings.name,
                        state.model().index + 1,
                    )
                },
                Err(error) => error == EncodeError::NotNegotiated && self.state() is None,
            },
    {
        match &self.state {
            None => Err(EncodeError::NotNegotiated),
            Some(state) => {
                let atlas = state.closing_atlas();
                let script = generate_script(state.settings().name.as_str(), state.index());
                Ok(Finished { atlas, script })
            },
        }
    }
}

} // verus!
