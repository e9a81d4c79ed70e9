//! The configuration of an encoding run.

use vstd::prelude::*;
use vstd::string::*;

verus! {

/// How a run is configured. The settings are read once, when the format of
/// the frames is negotiated, and hold for the whole run.
#[derive(Debug)]
pub struct Settings {
    /// Grid columns of one atlas.
    pub width: u32,
    /// Grid rows of one atlas.
    pub height: u32,
    /// Scale of the particle.
    pub scale: u32,
    /// Whether the animation of an atlas starts over when it has ended.
    pub looping: bool,
    /// How the particle faces the camera.
    pub facing_camera_mode: String,
    /// Name of the pack.
    pub name: String,
    /// Description of the pack.
    pub description: String,
}

/// The settings as mathematical values.
pub struct SettingsView {
    pub width: u32,
    pub height: u32,
    pub scale: u32,
    pub looping: bool,
    pub facing_camera_mode: Seq<char>,
    pub name: Seq<char>,
    pub description: Seq<char>,
}

impl View for Settings {
    type V = SettingsView;

    open spec fn view(&self) -> SettingsView {
        SettingsView {
            width: self.width,
            height: self.height,
            scale: self.scale,
            looping: self.looping,
            facing_camera_mode: self.facing_camera_mode@,
            name: self.name@,
            description: self.description@,
        }
    }
}

impl SettingsView {
    /// The settings a run starts from when nothing else is asked for.
    pub open spec fn initial() -> SettingsView {
        SettingsView {
            width: 2,
            height: 20,
            scale: 1,
            looping: false,
            facing_camera_mode: "lookat_xyz"@,
            name: "pristine"@,
            description: "Pristine Video Pack.Powered by CAIMEO. LICENSE MIT."@,
        }
    }

    /// The grid has a cell and the scale is not zero.
    pub open spec fn valid(self) -> bool {
        self.width >= 1 && self.height >= 1 && self.scale >= 1
    }
}

impl Default for Settings {
    fn default() -> (settings: Settings)
        ensures
            settings@ == SettingsView::initial(),
    {
        Settings {
            width: 2,
            height: 20,
            scale: 1,
            looping: false,
            facing_camera_mode: String::from_str("lookat_xyz"),
            name: String::from_str("pristine"),
            description: String::from_str("Pristine Video Pack.Powered by CAIMEO. LICENSE MIT."),
        }
    }
}

impl Clone for Settings {
    fn clone(&self) -> (copy: Settings)
        ensures
            copy@ == self@,
    {
        Settings {
            width: self.width,
            height: self.height,
            scale: self.scale,
            looping: self.looping,
            facing_camera_mode: self.facing_camera_mode.clone(),
            name: self.name.clone(),
            description: self.description.clone(),
        }
    }
}

} // verus!
