//! Packs a stream of decoded RGBA video frames into fixed-grid texture
//! atlases and generates the effect descriptors and the playback script that
//! step through them.

pub mod cursor;
pub mod descriptor;
pub mod encoder;
pub mod error;
pub mod frame;
pub mod layout;
pub mod raster;
pub mod script;
pub mod settings;
pub mod state;
pub mod stream;
pub mod text;
