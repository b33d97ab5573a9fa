//! Per-pixel random colour noise.  Every red, green and blue channel gets an
//! independent random offset in `[-15, 15]`, scaled by the run's intensity,
//! added and clamped back into the channel range; alpha passes through.

use vstd::prelude::*;

use crate::canvas::Canvas;
use crate::rng::random_i32_inclusive;
use crate::rng::random_u32_inclusive;
use crate::transformation::ImageTransformation;
use crate::transformation::RasterOp;

verus! {

/// A channel value clamped back into the unsigned 8-bit range.
pub open spec fn clamped_channel(v: int) -> u8 {
    if v < 0 {
        0
    } else if v > 255 {
        255
    } else {
        v as u8
    }
}

/// The channel value after one noise draw: the offset scaled by the
/// intensity, added, and clamped.
pub open spec fn noisy_channel(value: u8, offset: int, intensity: int) -> u8 {
    clamped_channel(value + offset * intensity)
}

/// Channel `j` of `post` is channel `j` of `pre` moved by some offset in
/// `[-15, 15]` scaled by the intensity and clamped.
pub open spec fn channel_noisy(pre: Seq<u8>, post: Seq<u8>, j: int, intensity: int) -> bool {
    exists|off: int|
        -15 <= off <= 15 && post[j] == #[trigger] noisy_channel(pre[j], off, intensity)
}

/// `post` is `pre` with noise of the given intensity: alpha channels are
/// untouched, every colour channel moved by some offset in `[-15, 15]`
/// scaled by the intensity and clamped.
pub open spec fn distorted(pre: Seq<u8>, post: Seq<u8>, intensity: int) -> bool {
    &&& post.len() == pre.len()
    &&& forall|j: int| 0 <= j < pre.len() && j % 4 == 3 ==> #[trigger] post[j] == pre[j]
    &&& forall|j: int|
        0 <= j < pre.len() && j % 4 != 3 ==> #[trigger] channel_noisy(pre, post, j, intensity)
}

/// One channel after one noise draw, computed exactly as `noisy_channel`
/// states it.
pub fn distort_channel(value: u8, offset: i32, intensity: u32) -> (r: u8)
    requires
        -15 <= offset <= 15,
    ensures
        r == noisy_channel(value, offset as int, intensity as int),
{
    proof {
        assert(-15 * 0xffff_ffff <= (offset as int) * (intensity as int) <= 15 * 0xffff_ffff)
            by (nonlinear_arith)
            requires
                -15 <= offset <= 15,
                0 <= intensity <= 0xffff_ffffu32,
        ;
    }
    let d: i64 = (offset as i64) * (intensity as i64);
    let x: i64 = (value as i64) + d;
    if x < 0 {
        0
    } else if x > 255 {
        255
    } else {
        x as u8
    }
}

/// Adds one run of noise at the given intensity to every pixel of the image.
pub(crate) fn distort_in_place(image: &mut Canvas, intensity: u32)
    requires
        old(image).wf(),
    ensures
        final(image).wf(),
        final(image).spec_width() == old(image).spec_width(),
        final(image).spec_height() == old(image).spec_height(),
        distorted(old(image)@, final(image)@, intensity as int),
        intensity == 0 ==> final(image)@ == old(image)@,
{
    let ghost orig = image@;
    let ghost mut offs: Seq<int> = Seq::empty();
    let n = image.byte_len();
    let mut i: usize = 0;
    while i < n
        invariant
            image.wf(),
            image.spec_width() == old(image).spec_width(),
            image.spec_height() == old(image).spec_height(),
            orig == old(image)@,
            n == orig.len(),
            image@.len() == n,
            i <= n,
            offs.len() == i,
            forall|j: int| i <= j < n ==> #[trigger] image@[j] == orig[j],
            forall|j: int| 0 <= j < i && j % 4 == 3 ==> #[trigger] image@[j] == orig[j],
            forall|j: int|
                0 <= j < i && j % 4 != 3 ==> -15 <= #[trigger] offs[j] <= 15 && image@[j]
                    == noisy_channel(orig[j], offs[j], intensity as int),
        decreases n - i,
    {
        if i % 4 != 3 {
            let off = random_i32_inclusive(-15, 15);
            let v = image.get_channel(i);
            let nv = distort_channel(v, off, intensity);
            image.set_channel(i, nv);
            proof {
                offs = offs.push(off as int);
            }
        } else {
            proof {
                offs = offs.push(0);
            }
        }
        i = i + 1;
    }
    proof {
        assert forall|j: int| 0 <= j < orig.len() && j % 4 != 3 implies #[trigger] channel_noisy(
            orig,
            image@,
            j,
            intensity as int,
        ) by {
            assert(image@[j] == noisy_channel(orig[j], offs[j], intensity as int));
        }
        assert(distorted(orig, image@, intensity as int));
        if intensity == 0 {
            assert forall|j: int| 0 <= j < n implies image@[j] == orig[j] by {
                if j % 4 != 3 {
                    assert(offs[j] * 0 == 0);
                    assert(image@[j] == noisy_channel(orig[j], offs[j], 0));
                }
            }
            assert(image@ =~= orig);
        }
    }
}

/// A distortion step whose run intensity is drawn uniformly from an
/// inclusive integer range at transform time.
#[derive(Clone, Copy, PartialEq, Eq, Structural, Debug)]
pub struct Distortion {
    pub intensity_lo: u32,
    pub intensity_hi: u32,
}

impl Distortion {
    /// The configured range must be a real range.
    pub open spec fn wf(&self) -> bool {
        self.intensity_lo <= self.intensity_hi
    }

    pub fn new(intensity_lo: u32, intensity_hi: u32) -> (r: Distortion)
        requires
            intensity_lo <= intensity_hi,
        ensures
            r.intensity_lo == intensity_lo,
            r.intensity_hi == intensity_hi,
            r.wf(),
    {
        Distortion { intensity_lo, intensity_hi }
    }

}

impl ImageTransformation for Distortion {
    /// The configured range is a real range.
    open spec fn ok(&self) -> bool {
        self.wf()
    }

    /// One intensity from the configured range governs the whole run: every
    /// colour channel of every pixel moves by an independent offset in
    /// `[-15, 15]` scaled by it and clamped; alpha channels are untouched, no
    /// raster operation is emitted, and a zero range leaves the image
    /// identical.
    open spec fn post(&self, pre: Canvas, cur: Canvas, ops: Seq<RasterOp>) -> bool {
        &&& ops.len() == 0
        &&& exists|ii: int|
            self.intensity_lo <= ii <= self.intensity_hi && #[trigger] distorted(pre@, cur@, ii)
        &&& forall|j: int| 0 <= j < pre@.len() && j % 4 == 3 ==> #[trigger] cur@[j] == pre@[j]
        &&& (self.intensity_lo == 0 && self.intensity_hi == 0 ==> cur@ == pre@)
    }

    /// Draws one intensity for the whole run and adds independent noise to
    /// every colour channel of every pixel.
    fn transform(&self, image: &mut Canvas) -> (ops: Vec<RasterOp>) {
        let intensity = random_u32_inclusive(self.intensity_lo, self.intensity_hi);
        distort_in_place(image, intensity);
        proof {
            assert(distorted(old(image)@, image@, intensity as int));
        }
        Vec::new()
    }
}

} // verus!
