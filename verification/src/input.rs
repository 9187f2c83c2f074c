//! The raw-input shape contract.
//!
//! A classification request carries a flat array of pixel intensities that
//! the tensor engine reshapes to `(1, 28, 28)`. The reshape must fail, never
//! silently truncate or pad, when the element count is not exactly
//! `INPUT_LEN`. Pixel values are carried as the bit patterns of the engine's
//! 32-bit values; this module never interprets them, so the element-wise
//! normalization `((v / 255) - 0.1307) / 0.3081` that the engine applies is
//! a pure function of exactly these bits.

use vstd::prelude::*;

use crate::errors::ClassifyError;

verus! {

/// Side length of an input image.
pub const IMAGE_SIDE: usize = 28;

/// Number of pixels of a well-formed raw input: one 28 x 28 image, 784.
pub const INPUT_LEN: usize = IMAGE_SIDE * IMAGE_SIDE;

/// A shape-checked raw input: exactly `INPUT_LEN` pixel intensities.
#[derive(Debug)]
pub struct RawInput {
    pixels: Vec<u32>,
}

impl View for RawInput {
    type V = Seq<u32>;

    closed spec fn view(&self) -> Seq<u32> {
        self.pixels@
    }
}

impl RawInput {
    /// A well-formed input holds exactly one 28 x 28 image.
    pub open spec fn wf(self) -> bool {
        self@.len() == INPUT_LEN
    }

    /// Accepts exactly `INPUT_LEN` pixels, kept in order and unchanged;
    /// any other element count is rejected as `MalformedInput`.
    pub fn new(pixels: Vec<u32>) -> (r: Result<RawInput, ClassifyError>)
        ensures
            pixels@.len() == INPUT_LEN ==> (r matches Ok(inp) && inp@ == pixels@ && inp.wf()),
            pixels@.len() != INPUT_LEN ==> r == Err::<RawInput, ClassifyError>(
                ClassifyError::MalformedInput,
            ),
    {
        if pixels.len() == INPUT_LEN {
            Ok(RawInput { pixels })
        } else {
            Err(ClassifyError::MalformedInput)
        }
    }

    /// Number of pixels held; `INPUT_LEN` on every well-formed input.
    pub fn len(&self) -> (n: usize)
        ensures
            n == self@.len(),
    {
        self.pixels.len()
    }

    /// The pixels, in request order, for the tensor engine to consume.
    pub fn pixels(&self) -> (p: &Vec<u32>)
        ensures
            p@ == self@,
    {
        &self.pixels
    }
}

} // verus!
