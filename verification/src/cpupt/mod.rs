//! CPU path tracer: image tiling and the integer bookkeeping around it.
use vstd::prelude::*;

pub mod bsdf;
pub mod bvh;
pub mod bxdfs;
pub mod intersection;
pub mod progress;
pub mod sampling;
pub mod tiles;

verus! {

/// Settings of a rendering run.
#[derive(Clone, Copy, Debug, PartialEq, Eq, Structural)]
pub struct Params {
    pub samples_per_pixel: u32,
    pub max_bounce_count: u32,
    pub seed: u64,
}

impl Default for Params {
    fn default() -> (p: Self)
        ensures
            p.samples_per_pixel == 64,
            p.max_bounce_count == 5,
            p.seed == 0,
    {
        Params { samples_per_pixel: 64, max_bounce_count: 5, seed: 0 }
    }
}

/// A rendering input can only be rendered when its image has pixels in both
/// directions.
pub fn image_size_is_valid(image_size: (u32, u32)) -> (valid: bool)
    ensures
        valid == (image_size.0 != 0 && image_size.1 != 0),
{
    if image_size.0 == 0 {
        return false;
    }
    if image_size.1 == 0 {
        return false;
    }
    true
}

/// The seed of a pixel in a sample: the sample index in the high 32 bits,
/// the pixel's index in the image in the low 32 bits, so that every pixel
/// gets its own seed in every sample.
pub open spec fn seed_of(pixel_index: int, sample_index: int) -> int {
    sample_index * 0x1_0000_0000 + pixel_index
}

/// The seed of the random sequence used for a pixel in a given sample,
/// unique for every pixel over all samples.
pub fn pixel_seed(pixel: (u32, u32), image_size: (u32, u32), sample_index: u32) -> (seed: u64)
    requires
        pixel.0 + pixel.1 * image_size.0 <= u32::MAX,
    ensures
        seed == seed_of(pixel.0 + pixel.1 * image_size.0, sample_index as int),
{
    let pixel_index = pixel.0 + pixel.1 * image_size.0;
    assert(sample_index as int * 0x1_0000_0000 + pixel_index as int <= u64::MAX) by (nonlinear_arith)
        requires sample_index <= u32::MAX, pixel_index <= u32::MAX;
    (sample_index as u64) * 0x1_0000_0000 + (pixel_index as u64)
}

/// Law: the seed is unique for every pixel over all samples: two seeds are
/// equal only for the same pixel in the same sample.
pub proof fn lemma_pixel_seeds_unique(pixel_a: int, pixel_b: int, sample_a: int, sample_b: int)
    requires
        0 <= pixel_a <= u32::MAX,
        0 <= pixel_b <= u32::MAX,
        0 <= sample_a,
        0 <= sample_b,
        seed_of(pixel_a, sample_a) == seed_of(pixel_b, sample_b),
    ensures
        pixel_a == pixel_b,
        sample_a == sample_b,
{
    if sample_a < sample_b {
        assert(sample_a * 0x1_0000_0000 + 0x1_0000_0000 <= sample_b * 0x1_0000_0000) by (nonlinear_arith)
            requires sample_a < sample_b;
    } else if sample_b < sample_a {
        assert(sample_b * 0x1_0000_0000 + 0x1_0000_0000 <= sample_a * 0x1_0000_0000) by (nonlinear_arith)
            requires sample_b < sample_a;
    }
}

/// Index into an image stored row by row, `image_w` pixels wide, of the pixel
/// `(pixel_x, pixel_y)`.
pub fn image_pixel_index(pixel_x: u32, pixel_y: u32, image_w: u32) -> (index: usize)
    requires
        pixel_x + pixel_y * image_w <= u32::MAX,
    ensures
        index == pixel_x + pixel_y * image_w,
{
    (pixel_x + pixel_y * image_w) as usize
}

} // verus!
