//! Effect descriptors: how the runtime animates through one atlas.

use vstd::prelude::*;
use vstd::string::*;
use crate::frame::VideoInfo;
use crate::settings::Settings;
use crate::settings::SettingsView;
use crate::text::effect_id;
use crate::text::make_effect_id;
use crate::text::make_texture_path;
use crate::text::texture_path;

verus! {

/// Width of the billboard that shows the particle.
pub const BILLBOARD_WIDTH: u32 = 16;

/// Height of the billboard that shows the particle.
pub const BILLBOARD_HEIGHT: u32 = 9;

/// How far the flipbook moves down the texture from one frame to the next.
pub const FLIPBOOK_STEP_V: u32 = 270;

/// The flipbook of a descriptor: how the runtime steps through the tiles.
#[derive(Clone, Copy, Debug, PartialEq, Eq)]
pub struct Flipbook {
    /// Where on the texture the first tile begins.
    pub base_uv: (u32, u32),
    /// Tiles shown per second: the rows of the grid.
    pub frames_per_second: u32,
    /// Whether the animation starts over when it has ended.
    pub looping: bool,
    /// How many tiles there are: the cells of the grid.
    pub max_frame: u64,
    /// Width and height of one tile.
    pub size_uv: (u32, u32),
    /// The step from one tile to the next.
    pub step_uv: (u32, u32),
    /// Whether the animation is stretched over the particle's lifetime.
    pub stretch_to_lifetime: bool,
}

/// The descriptor of the effect that plays one atlas.
#[derive(Debug)]
pub struct EffectDescriptor {
    /// Index of the atlas.
    pub atlas_index: u32,
    /// Id of the effect.
    pub id: String,
    /// Material that the particle is drawn with.
    pub material: String,
    /// Path of the atlas image inside the pack.
    pub texture: String,
    /// Seconds that the emitter is active and that a particle lives: the
    /// columns of the grid.
    pub lifetime: u32,
    /// Particles emitted at once.
    pub particles: u32,
    /// Where the emitter stands.
    pub emitter_offset: (u32, u32, u32),
    /// Where the emitter points.
    pub emitter_direction: (u32, u32, u32),
    /// How the particle faces the camera.
    pub facing_camera_mode: String,
    /// Width and height of the billboard.
    pub size: (u32, u32),
    /// Width of the atlas image in pixels.
    pub texture_width: u64,
    /// Height of the atlas image in pixels.
    pub texture_height: u64,
    /// The animation through the tiles.
    pub flipbook: Flipbook,
}

/// A descriptor as mathematical values.
pub struct EffectDescriptorView {
    pub atlas_index: u32,
    pub id: Seq<char>,
    pub material: Seq<char>,
    pub texture: Seq<char>,
    pub lifetime: u32,
    pub particles: u32,
    pub emitter_offset: (u32, u32, u32),
    pub emitter_direction: (u32, u32, u32),
    pub facing_camera_mode: Seq<char>,
    pub size: (u32, u32),
    pub texture_width: u64,
    pub texture_height: u64,
    pub flipbook: Flipbook,
}

impl View for EffectDescriptor {
    type V = EffectDescriptorView;

    open spec fn view(&self) -> EffectDescriptorView {
        EffectDescriptorView {
            atlas_index: self.atlas_index,
            id: self.id@,
            material: self.material@,
            texture: self.texture@,
            lifetime: self.lifetime,
            particles: self.particles,
            emitter_offset: self.emitter_offset,
            emitter_direction: self.emitter_direction,
            facing_camera_mode: self.facing_camera_mode@,
            size: self.size,
            texture_width: self.texture_width,
            texture_height: self.texture_height,
            flipbook: self.flipbook,
        }
    }
}

/// The flipbook of every atlas of a run.
pub open spec fn flipbook_of(settings: SettingsView, frame: VideoInfo) -> Flipbook {
    Flipbook {
        base_uv: (0, 0),
        frames_per_second: settings.height,
        looping: settings.looping,
        max_frame: (settings.width * settings.height) as u64,
        size_uv: (frame.width, frame.height),
        step_uv: (0, FLIPBOOK_STEP_V),
        stretch_to_lifetime: false,
    }
}

/// The descriptor of atlas `index` in a run with the given settings and
/// frame format.
pub open spec fn descriptor_of(settings: SettingsView, frame: VideoInfo, index: u32)
    -> EffectDescriptorView {
    EffectDescriptorView {
        atlas_index: index,
        id: effect_id(settings.name, index as nat),
        material: "particles_alpha"@,
        texture: texture_path(settings.name, index as nat),
        lifetime: settings.width,
        particles: 1,
        emitter_offset: (0, 0, 0),
        emitter_direction: (1, 0, 0),
        facing_camera_mode: settings.facing_camera_mode,
        size: (BILLBOARD_WIDTH, BILLBOARD_HEIGHT),
        texture_width: (settings.width * frame.width) as u64,
        texture_height: (settings.height * frame.height) as u64,
        flipbook: flipbook_of(settings, frame),
    }
}

/// Builds the descriptor of atlas `index`.
pub fn describe(settings: &Settings, frame: VideoInfo, index: u32) -> (descriptor:
    EffectDescriptor)
    ensures
        descriptor@ == descriptor_of(settings@, frame, index),
{
    assert(settings.width * settings.height <= u64::MAX) by (nonlinear_arith)
        requires
            settings.width <= u32::MAX,
            settings.height <= u32::MAX,
    ;
    assert(settings.width * frame.width <= u64::MAX) by (nonlinear_arith)
        requires
            settings.width <= u32::MAX,
            frame.width <= u32::MAX,
    ;
    assert(settings.height * frame.height <= u64::MAX) by (nonlinear_arith)
        requires
            settings.height <= u32::MAX,
            frame.height <= u32::MAX,
    ;
    EffectDescriptor {
        atlas_index: index,
        id: make_effect_id(settings.name.as_str(), index),
        material: String::from_str("particles_alpha"),
        texture: make_texture_path(settings.name.as_str(), index),
        lifetime: settings.width,
        particles: 1,
        emitter_offset: (0, 0, 0),
        emitter_direction: (1, 0, 0),
        facing_camera_mode: settings.facing_camera_mode.clone(),
        size: (BILLBOARD_WIDTH, BILLBOARD_HEIGHT),
        texture_width: settings.width as u64 * frame.width as u64,
        texture_height: settings.height as u64 * frame.height as u64,
        flipbook: Flipbook {
            base_uv: (0, 0),
            frames_per_second: settings.height,
            looping: settings.looping,
            max_frame: settings.width as u64 * settings.height as u64,
            size_uv: (frame.width, frame.height),
            step_uv: (0, FLIPBOOK_STEP_V),
            stretch_to_lifetime: false,
        },
    }
}

/// The flipbook counts the cells of the grid and runs at as many tiles per
/// second as the grid has rows, whichever atlas the descriptor is for.
pub proof fn lemma_flipbook_same_for_every_atlas(
    settings: SettingsView,
    frame: VideoInfo,
    index: u32,
)
    ensures
        descriptor_of(settings, frame, index).flipbook.max_frame == settings.width
            * settings.height,
        descriptor_of(settings, frame, index).flipbook.frames_per_second == settings.height,
        descriptor_of(settings, frame, index).flipbook == flipbook_of(settings, frame),
{
    assert(settings.width * settings.height <= u64::MAX) by (nonlinear_arith)
        requires
            settings.width <= u32::MAX,
            settings.height <= u32::MAX,
    ;
}

} // verus!
