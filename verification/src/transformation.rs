//! The transformation pipeline: an ordered sequence of steps applied to one
//! square canvas.  A step either mutates the canvas pixels directly (noise
//! distortion) or emits raster operations — sticker composites and text
//! draws — whose geometry is computed and checked here while the rasteriser
//! itself (rescaling, rotation, glyph rendering) runs outside the library.

pub mod compression_artifact;
pub mod distortion;
pub mod eyes;
pub mod text;

use vstd::prelude::*;

use crate::canvas::Canvas;
use crate::canvas::Px;

verus! {

/// A fatal construction-time error: a step refuses to be built against an
/// unusable configuration (this is never a per-run condition).
#[derive(Clone, Copy, PartialEq, Eq, Structural, Debug)]
pub enum ConfigError {
    /// The eyeball sticker pool holds no image.
    EmptyEyeballPool,
    /// Wing mode was selected but the wing sticker pool holds no image.
    EmptyWingPool,
    /// The font pool holds no font.
    EmptyFontPool,
    /// A font's metric table is out of the range the layout engine accepts.
    InvalidFontMetrics,
}

/// Which sticker pool an operation draws from, and the index of the sticker
/// in that pool.
#[derive(Clone, Copy, PartialEq, Eq, Structural, Debug)]
pub enum StickerSource {
    Ball(usize),
    Wing(usize),
}

/// One sticker composite: rescale the source sticker to `base_w x base_h`
/// (the canvas-relative size), rescale again by `factor_pct` per cent to
/// `scaled_w x scaled_h` (the random per-placement factor), rotate about its
/// centre by `angle_deg` degrees (zero means no rotation), then alpha-blend
/// it onto the canvas with its top-left corner at `(x, y)`.
#[derive(Clone, Copy, PartialEq, Eq, Structural, Debug)]
pub struct StickerOp {
    pub source: StickerSource,
    pub base_w: u32,
    pub base_h: u32,
    pub factor_pct: u32,
    pub scaled_w: u32,
    pub scaled_h: u32,
    pub angle_deg: i32,
    pub x: u32,
    pub y: u32,
}

/// One text draw: burn the phrase at index `text`, in the font at index
/// `font` at `scale` pixels, onto the canvas with the text origin at
/// `(x, y)` and the given colour.
#[derive(Clone, Copy, PartialEq, Eq, Structural, Debug)]
pub struct TextOp {
    pub font: usize,
    pub text: usize,
    pub scale: u32,
    pub x: i64,
    pub y: i64,
    pub color: Px,
}

/// A raster operation emitted by a step, to be performed on the canvas in
/// emission order before the next step runs.
#[derive(Clone, Copy, PartialEq, Eq, Structural, Debug)]
pub enum RasterOp {
    Sticker(StickerOp),
    Text(TextOp),
}

/// A placement along one axis keeps the sticker inside the canvas whenever
/// it fits; a sticker larger than the canvas is clamped to the origin.
pub open spec fn axis_in_bounds(pos: u32, extent: u32, limit: u32) -> bool {
    if extent <= limit {
        pos + extent <= limit
    } else {
        pos == 0
    }
}

/// The whole bounding box of a sticker composite respects both axes of the
/// canvas.
pub open spec fn sticker_in_bounds(op: StickerOp, width: u32, height: u32) -> bool {
    axis_in_bounds(op.x, op.scaled_w, width) && axis_in_bounds(op.y, op.scaled_h, height)
}


/// One transformation step applied to a square canvas: it may mutate the
/// pixels in place and it may emit raster operations, to be performed on the
/// canvas in order before the next step runs.  `ok` is the step's
/// construction-time invariant; `post` says how the canvas after the call
/// and the emitted operations relate to the canvas before it.
pub trait ImageTransformation {
    spec fn ok(&self) -> bool;

    spec fn post(&self, pre: Canvas, cur: Canvas, ops: Seq<RasterOp>) -> bool;

    /// Applies the step: the image stays well formed and keeps its
    /// dimensions, and the step's own contract holds of the outcome.
    fn transform(&self, image: &mut Canvas) -> (ops: Vec<RasterOp>)
        requires
            self.ok(),
            old(image).wf(),
        ensures
            final(image).wf(),
            final(image).spec_width() == old(image).spec_width(),
            final(image).spec_height() == old(image).spec_height(),
            self.post(*old(image), *final(image), ops@),
    ;
}

/// One step of a pipeline: the closed set of transformation kinds.
pub enum Step {
    /// Noise at a fixed intensity.
    Artifact(compression_artifact::Distortion),
    /// Noise at an intensity drawn from a range each run.
    Noise(distortion::Distortion),
    /// Sticker compositing.
    Eyes(eyes::Eyeballs),
    /// Text overlay.
    Text(text::AddTextTransformer),
}

impl ImageTransformation for Step {
    open spec fn ok(&self) -> bool {
        match self {
            Step::Artifact(t) => t.ok(),
            Step::Noise(t) => t.ok(),
            Step::Eyes(t) => t.ok(),
            Step::Text(t) => t.ok(),
        }
    }

    open spec fn post(&self, pre: Canvas, cur: Canvas, ops: Seq<RasterOp>) -> bool {
        match self {
            Step::Artifact(t) => t.post(pre, cur, ops),
            Step::Noise(t) => t.post(pre, cur, ops),
            Step::Eyes(t) => t.post(pre, cur, ops),
            Step::Text(t) => t.post(pre, cur, ops),
        }
    }

    fn transform(&self, image: &mut Canvas) -> (ops: Vec<RasterOp>) {
        match self {
            Step::Artifact(t) => t.transform(image),
            Step::Noise(t) => t.transform(image),
            Step::Eyes(t) => t.transform(image),
            Step::Text(t) => t.transform(image),
        }
    }
}

/// An ordered sequence of transformation steps; insertion order is render
/// order, and the empty pipeline is the identity transform.
pub struct Pipeline {
    pub steps: Vec<Step>,
}

impl Default for Pipeline {
    /// The empty pipeline.
    fn default() -> (r: Pipeline)
        ensures
            r.steps@.len() == 0,
            r.wf(),
    {
        Pipeline { steps: Vec::new() }
    }
}

impl Pipeline {
    /// Every step of the pipeline satisfies its construction-time invariant.
    pub open spec fn wf(&self) -> bool {
        forall|i: int| 0 <= i < self.steps@.len() ==> #[trigger] self.steps@[i].ok()
    }

    /// Appends a step; insertion order is render order.
    pub fn add(self, step: Step) -> (r: Pipeline)
        ensures
            r.steps@ == self.steps@.push(step),
            self.wf() && step.ok() ==> r.wf(),
    {
        let mut steps = self.steps;
        steps.push(step);
        proof {
            if self.wf() && step.ok() {
                assert forall|i: int| 0 <= i < steps@.len() implies #[trigger] steps@[i].ok() by {
                    if i < steps@.len() - 1 {
                        assert(steps@[i] == self.steps@[i]);
                    }
                }
            }
        }
        Pipeline { steps }
    }

    /// The number of steps.
    pub fn len(&self) -> (n: usize)
        ensures
            n == self.steps@.len(),
    {
        self.steps.len()
    }

    /// Applies the step at index `i` to the image: the surrounding runtime
    /// walks the steps in order, performing each step's emitted raster
    /// operations on the canvas before applying the next step.  The image
    /// must be square and no step ever changes its dimensions.
    pub fn apply_step(&self, i: usize, image: &mut Canvas) -> (ops: Vec<RasterOp>)
        requires
            self.wf(),
            i < self.steps@.len(),
            old(image).wf(),
            old(image).spec_width() == old(image).spec_height(),
        ensures
            final(image).wf(),
            final(image).spec_width() == old(image).spec_width(),
            final(image).spec_height() == old(image).spec_height(),
            self.steps@[i as int].post(*old(image), *final(image), ops@),
    {
        let step = &self.steps[i];
        step.transform(image)
    }
}

} // verus!
