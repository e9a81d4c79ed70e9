//! The pixel raster that atlases are painted on.
//!
//! The pixels are kept by the `image` crate. Everything this module says of
//! that crate is believed, not proved: the struct [`Raster`], the two names
//! for what a raster holds, and the four functions that call into the
//! crate. The rest of the module is proved from those.

use vstd::prelude::*;
use vstd::arithmetic::div_mod::lemma_fundamental_div_mod;
use vstd::arithmetic::div_mod::lemma_fundamental_div_mod_converse;

verus! {

/// An 8-bit RGBA image in an `image::ImageBuffer`.
///
/// The buffer type is generic over `image::Pixel`, which the verifier does
/// not take in a type declaration, so the buffer is kept behind this struct
/// and reached through the functions below only.
#[verifier::external_body]
pub struct Raster {
    image: image::RgbaImage,
}

/// The samples of a raster as `image::ImageBuffer::as_raw` gives them: four
/// per pixel, in the order red, green, blue, alpha, the pixels row by row.
pub uninterp spec fn raster_samples(raster: Raster) -> Seq<u8>;

/// Width and height of a raster in pixels, as
/// `image::ImageBuffer::dimensions` gives them.
pub uninterp spec fn raster_dimensions(raster: Raster) -> (u32, u32);

/// Where channel `c` of pixel `(x, y)` lies among the samples of an image
/// that is `width` pixels wide.
pub open spec fn sample_index(width: int, x: int, y: int, c: int) -> int {
    (y * width + x) * 4 + c
}

/// Channel `c` of pixel `(x, y)` of an image that is `width` pixels wide.
pub open spec fn sample_at(samples: Seq<u8>, width: int, x: int, y: int, c: int) -> u8 {
    samples[sample_index(width, x, y, c)]
}

/// The samples of a `width` x `height` image in which every sample is zero.
pub open spec fn blank_samples(width: int, height: int) -> Seq<u8> {
    Seq::new((4 * width * height) as nat, |i: int| 0u8)
}

/// The samples of `bottom` after the image `top` was copied over it with its
/// upper left corner at pixel `(x, y)`.
pub open spec fn overlaid(
    bottom: Seq<u8>,
    bottom_width: int,
    top: Seq<u8>,
    top_width: int,
    top_height: int,
    x: int,
    y: int,
) -> Seq<u8> {
    Seq::new(
        bottom.len(),
        |i: int|
            {
                let px = (i / 4) % bottom_width;
                let py = (i / 4) / bottom_width;
                if x <= px < x + top_width && y <= py < y + top_height {
                    sample_at(top, top_width, px - x, py - y, i % 4)
                } else {
                    bottom[i]
                }
            },
    )
}

impl Raster {
    /// The raster holds exactly the samples of its pixels.
    pub open spec fn wf(&self) -> bool {
        raster_samples(*self).len() == 4 * raster_dimensions(*self).0 * raster_dimensions(*self).1
    }

    /// Calls `image::ImageBuffer::new`, which allocates `4 * width * height`
    /// zero samples. It multiplies four by the width and then by the height,
    /// and panics when one of the two products does not fit in `usize`.
    #[verifier::external_body]
    pub(crate) fn blank(width: u32, height: u32) -> (raster: Raster)
        requires
            4 * width <= usize::MAX,
            4 * width * height <= usize::MAX,
        ensures
            raster_dimensions(raster) == (width, height),
            raster_samples(raster) == blank_samples(width as int, height as int),
    {
        Raster { image: image::ImageBuffer::new(width, height) }
    }

    /// Calls `image::ImageBuffer::from_raw`, which takes the samples as they
    /// are when there are at least `4 * width * height` of them, and gives
    /// `None` otherwise, also when four times the width does not fit in
    /// `usize`.
    #[verifier::external_body]
    pub(crate) fn from_raw(width: u32, height: u32, samples: Vec<u8>) -> (raster: Option<Raster>)
        ensures
            raster is Some <==> (usize::MAX >= 4 * width && samples@.len() >= 4 * width * height),
            raster matches Some(r) ==> raster_dimensions(r) == (width, height) && raster_samples(r)
                == samples@,
    {
        image::ImageBuffer::from_raw(width, height, samples).map(|image| Raster { image })
    }

    /// Calls `image::imageops::replace`, which copies each pixel of `top`
    /// to the pixel of `self` that lies `(x, y)` further right and down, as
    /// far as that pixel exists, and touches nothing else.
    #[verifier::external_body]
    pub(crate) fn replace(&mut self, top: &Raster, x: u32, y: u32)
        ensures
            raster_dimensions(*final(self)) == raster_dimensions(*old(self)),
            raster_samples(*final(self)).len() == raster_samples(*old(self)).len(),
            forall|px: int, py: int, c: int|
                0 <= px < raster_dimensions(*old(self)).0 && 0 <= py < raster_dimensions(
                    *old(self),
                ).1 && 0 <= c < 4 ==> #[trigger] sample_at(
                    raster_samples(*final(self)),
                    raster_dimensions(*old(self)).0 as int,
                    px,
                    py,
                    c,
                ) == (if x <= px < x + raster_dimensions(*top).0 && y <= py < y + raster_dimensions(
                    *top,
                ).1 {
                    sample_at(
                        raster_samples(*top),
                        raster_dimensions(*top).0 as int,
                        px - x,
                        py - y,
                        c,
                    )
                } else {
                    sample_at(
                        raster_samples(*old(self)),
                        raster_dimensions(*old(self)).0 as int,
                        px,
                        py,
                        c,
                    )
                }),
            forall|i: int|
                4 * raster_dimensions(*old(self)).0 * raster_dimensions(*old(self)).1 <= i
                    < raster_samples(*old(self)).len() ==> #[trigger] raster_samples(
                    *final(self),
                )[i] == raster_samples(*old(self))[i],
    {
        image::imageops::replace(&mut self.image, &top.image, x, y)
    }

    /// Calls `image::ImageBuffer::as_raw` and copies the samples it shows.
    #[verifier::external_body]
    pub(crate) fn to_raw(&self) -> (samples: Vec<u8>)
        ensures
            samples@ == raster_samples(*self),
    {
        self.image.as_raw().clone()
    }

    /// Copies `top` over this raster with its upper left corner at `(x, y)`.
    pub(crate) fn place(&mut self, top: &Raster, x: u32, y: u32)
        requires
            old(self).wf(),
            raster_dimensions(*old(self)).0 > 0,
        ensures
            final(self).wf(),
            raster_dimensions(*final(self)) == raster_dimensions(*old(self)),
            raster_samples(*final(self)) == overlaid(
                raster_samples(*old(self)),
                raster_dimensions(*old(self)).0 as int,
                raster_samples(*top),
                raster_dimensions(*top).0 as int,
                raster_dimensions(*top).1 as int,
                x as int,
                y as int,
            ),
    {
        self.replace(top, x, y);
        proof {
            let width = raster_dimensions(*old(self)).0 as int;
            let height = raster_dimensions(*old(self)).1 as int;
            let before = raster_samples(*old(self));
            let after = raster_samples(*self);
            let expected = overlaid(
                before,
                width,
                raster_samples(*top),
                raster_dimensions(*top).0 as int,
                raster_dimensions(*top).1 as int,
                x as int,
                y as int,
            );
            assert forall|i: int| 0 <= i < before.len() implies after[i] == expected[i] by {
                lemma_sample_coordinates(i, width, height);
                let px = (i / 4) % width;
                let py = (i / 4) / width;
                assert(after[i] == sample_at(after, width, px, py, i % 4));
            }
            assert(after =~= expected);
        }
    }
}

/// Every sample of a `width` x `height` image belongs to one channel of one
/// pixel inside the image.
pub proof fn lemma_sample_coordinates(i: int, width: int, height: int)
    requires
        0 < width,
        0 <= i < 4 * width * height,
    ensures
        0 <= (i / 4) % width < width,
        0 <= (i / 4) / width < height,
        0 <= i % 4 < 4,
        sample_index(width, (i / 4) % width, (i / 4) / width, i % 4) == i,
{
    let p = i / 4;
    assert(4 * width * height == 4 * (width * height)) by (nonlinear_arith);
    assert(0 <= p < width * height);
    lemma_fundamental_div_mod(p, width);
    let x = p % width;
    let y = p / width;
    assert(0 <= x < width);
    assert(0 <= y < height) by (nonlinear_arith)
        requires
            0 <= p < width * height,
            p == width * y + x,
            0 <= x < width,
            0 < width,
    ;
    assert(y * width == width * y) by (nonlinear_arith);
}

/// The channel and the pixel are found again from the place of a sample.
pub proof fn lemma_sample_index_inverts(width: int, x: int, y: int, c: int)
    requires
        0 <= x < width,
        0 <= y,
        0 <= c < 4,
    ensures
        0 <= sample_index(width, x, y, c),
        sample_index(width, x, y, c) % 4 == c,
        (sample_index(width, x, y, c) / 4) % width == x,
        (sample_index(width, x, y, c) / 4) / width == y,
{
    let p = y * width + x;
    assert(0 <= y * width) by (nonlinear_arith)
        requires
            0 <= y,
            0 < width,
    ;
    lemma_fundamental_div_mod_converse(p, width, y, x);
}

/// A pixel inside a `width` x `height` image has its samples inside the
/// image's samples.
pub proof fn lemma_sample_index_bound(width: int, height: int, x: int, y: int, c: int)
    requires
        0 <= x < width,
        0 <= y < height,
        0 <= c < 4,
    ensures
        0 <= sample_index(width, x, y, c) < 4 * width * height,
{
    assert(0 <= y * width && y * width + width <= height * width) by (nonlinear_arith)
        requires
            0 <= y < height,
            0 < width,
    ;
    assert(4 * width * height == 4 * (height * width)) by (nonlinear_arith);
}

} // verus!
