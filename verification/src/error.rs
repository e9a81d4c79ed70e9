//! The errors of an encoding run.

use vstd::prelude::*;

verus! {

/// Why a configuration cannot be encoded with. Each of these ends the run.
#[derive(Clone, Copy, Debug, PartialEq, Eq, Structural)]
pub enum ConfigError {
    /// The grid has no column or no row.
    EmptyGrid,
    /// The scale of the particle is zero.
    ZeroScale,
    /// The negotiated frames have no width or no height.
    EmptyFrame,
    /// The canvas of one atlas would be wider or higher than an image can
    /// be, or hold more samples than memory can address.
    CanvasTooLarge,
    /// A frame does not have the negotiated width, height and sample count.
    DimensionMismatch,
}

/// What the encoder reports in place of a result.
#[derive(Clone, Copy, Debug, PartialEq, Eq, Structural)]
pub enum EncodeError {
    /// No format was negotiated yet: the caller may try again once it was.
    NotNegotiated,
    /// The configuration of the run is wrong.
    Configuration(ConfigError),
    /// The atlas that this frame completes has the highest index there is.
    AtlasIndexExhausted,
}

} // verus!
