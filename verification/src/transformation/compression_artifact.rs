//! Per-pixel random colour noise at a fixed intensity chosen when the step
//! is built, in contrast to the range-configured variant.

use vstd::prelude::*;

use crate::canvas::Canvas;
use crate::transformation::distortion::distort_in_place;
use crate::transformation::distortion::distorted;
use crate::transformation::ImageTransformation;
use crate::transformation::RasterOp;

verus! {

/// A distortion step with a fixed noise intensity.
#[derive(Clone, Copy, PartialEq, Eq, Structural, Debug)]
pub struct Distortion {
    pub intensity: u32,
}

impl Distortion {
    pub fn new(intensity: u32) -> (r: Distortion)
        ensures
            r.intensity == intensity,
    {
        Distortion { intensity }
    }

}

impl ImageTransformation for Distortion {
    /// Any fixed intensity is a valid configuration.
    open spec fn ok(&self) -> bool {
        true
    }

    /// Every colour channel of every pixel moves by an independent offset in
    /// `[-15, 15]` scaled by the fixed intensity and clamped; alpha channels
    /// are untouched, no raster operation is emitted, and intensity zero
    /// leaves the image identical.
    open spec fn post(&self, pre: Canvas, cur: Canvas, ops: Seq<RasterOp>) -> bool {
        &&& ops.len() == 0
        &&& distorted(pre@, cur@, self.intensity as int)
        &&& forall|j: int| 0 <= j < pre@.len() && j % 4 == 3 ==> #[trigger] cur@[j] == pre@[j]
        &&& (self.intensity == 0 ==> cur@ == pre@)
    }

    /// Adds independent noise at the fixed intensity to every colour channel
    /// of every pixel.
    fn transform(&self, image: &mut Canvas) -> (ops: Vec<RasterOp>) {
        distort_in_place(image, self.intensity);
        Vec::new()
    }
}

} // verus!
