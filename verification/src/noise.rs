//! A picture of noise, for a host to show while the machine has not drawn
//! its first frame.

use rand::Rng;
use vstd::prelude::*;
use crate::gpu::{Framebuffer, Rgba, SCREEN_PIXELS};

verus! {

/// The random number generator of the `rand` crate that belongs to the
/// calling thread. Nothing of its state is known here.
#[verifier::external_type_specification]
#[verifier::external_body]
pub struct ExThreadRng(rand::rngs::ThreadRng);

/// `rand::thread_rng`, which hands out the calling thread's generator.
/// Nothing is claimed of it. It panics where the operating system cannot
/// seed the generator.
pub assume_specification[ rand::thread_rng ]() -> (rng: rand::rngs::ThreadRng);

/// Draws one byte with `Rng::gen_range` over the whole range of a byte,
/// which is not empty, so that the call does not panic. Nothing is claimed
/// of the byte: it is random.
#[verifier::external_body]
fn random_level(rng: &mut rand::rngs::ThreadRng) -> (level: u8) {
    rng.gen_range(0..=255)
}

/// The pixel of noise with the given brightness: an opaque green.
pub open spec fn spec_noise_pixel(level: u8) -> Rgba {
    Rgba { r: 0, g: level, b: 0, a: 255 }
}

/// Whether a pixel is a pixel of noise.
pub open spec fn is_noise_pixel(pixel: Rgba) -> bool {
    pixel.r == 0 && pixel.b == 0 && pixel.a == 255
}

/// The pixel of noise with the given brightness.
pub fn noise_pixel(level: u8) -> (pixel: Rgba)
    ensures
        pixel == spec_noise_pixel(level),
{
    Rgba { r: 0, g: level, b: 0, a: 255 }
}

/// A picture of the size of the screen in which every pixel is an opaque
/// green of random brightness.
pub fn gen_random_framebuffer() -> (framebuffer: Framebuffer)
    ensures
        framebuffer@.len() == SCREEN_PIXELS,
        forall|i: int| 0 <= i < SCREEN_PIXELS ==> is_noise_pixel(#[trigger] framebuffer@[i]),
{
    let mut rng = rand::thread_rng();
    let mut pixels: Vec<Rgba> = Vec::new();
    let mut count: usize = 0;
    while count < SCREEN_PIXELS
        invariant
            count <= SCREEN_PIXELS,
            pixels@.len() == count,
            forall|i: int| 0 <= i < count ==> is_noise_pixel(#[trigger] pixels@[i]),
        decreases SCREEN_PIXELS - count,
    {
        let level: u8 = random_level(&mut rng);
        pixels.push(noise_pixel(level));
        count += 1;
    }
    Framebuffer(pixels)
}

} // verus!
