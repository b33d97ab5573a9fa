//! Procedural sticker compositing: a number of eyeball stickers — bare, or
//! riding a wing sticker — placed on the canvas with randomized scale,
//! rotation and in-bounds translation.  The step computes and checks all of
//! the placement geometry; the emitted operations carry it to the rasteriser.

use vstd::prelude::*;

use crate::canvas::Canvas;
use crate::rng::random_i32_inclusive;
use crate::rng::random_u32_inclusive;
use crate::rng::random_usize_inclusive;
use crate::transformation::sticker_in_bounds;
use crate::transformation::ConfigError;
use crate::transformation::ImageTransformation;
use crate::transformation::RasterOp;
use crate::transformation::StickerOp;
use crate::transformation::StickerSource;

verus! {

/// Which sticker arrangement an `Eyeballs` step composites.
#[derive(Clone, Copy, PartialEq, Eq, Structural, Debug)]
pub enum Eyeball {
    SimpleEye,
    EyeWithWings,
}

/// The native width and height of one pre-decoded sticker image: the only
/// facts about a pool entry that the placement geometry reads.
#[derive(Clone, Copy, PartialEq, Eq, Structural, Debug)]
pub struct Dims {
    pub width: u32,
    pub height: u32,
}

/// `a - b`, floored at zero.
pub open spec fn sat_sub(a: int, b: int) -> int {
    if a >= b {
        a - b
    } else {
        0
    }
}

/// A length rescaled by a percentage, saturating at the largest
/// representable extent (mirroring a saturating cast from a wider value).
pub open spec fn scale_pct(v: int, pct: int) -> int {
    if v * pct / 100 > u32::MAX {
        u32::MAX as int
    } else {
        v * pct / 100
    }
}

/// The anchored extent of a rescaled sticker: the given percentage of the
/// canvas extent that corresponds to the sticker's larger dimension.
pub open spec fn bg_extent(canvas_extent: int, pct: int) -> int {
    canvas_extent * pct / 100
}

/// The sticker's other extent once its larger dimension is anchored: the
/// anchor shrunk by the source's aspect ratio, saturating on degenerate
/// input.
pub open spec fn aspect_other(anchor: int, src_larger: int, src_other: int) -> int {
    if src_larger == 0 {
        u32::MAX as int
    } else if anchor * src_other / src_larger > u32::MAX {
        u32::MAX as int
    } else {
        anchor * src_other / src_larger
    }
}

/// The width of a sticker rescaled relative to the canvas: its larger
/// dimension becomes `pct` per cent of the corresponding canvas extent and
/// the other dimension follows the source's aspect ratio.
pub open spec fn base_w_of(cw: int, ch: int, pct: int, src: Dims) -> int {
    if src.height > src.width {
        aspect_other(bg_extent(ch, pct), src.height as int, src.width as int)
    } else {
        bg_extent(cw, pct)
    }
}

/// The height of a sticker rescaled relative to the canvas (the counterpart
/// of `base_w_of`).
pub open spec fn base_h_of(cw: int, ch: int, pct: int, src: Dims) -> int {
    if src.height > src.width {
        bg_extent(ch, pct)
    } else {
        aspect_other(bg_extent(cw, pct), src.width as int, src.height as int)
    }
}

/// Rescales a sticker of native size `src` so that its larger dimension
/// becomes `pct` per cent of the corresponding canvas extent, preserving the
/// aspect ratio.
pub fn background_scale_dims(canvas_w: u32, canvas_h: u32, pct: u32, src: Dims) -> (r: (u32, u32))
    requires
        pct <= 100,
    ensures
        r.0 == base_w_of(canvas_w as int, canvas_h as int, pct as int, src),
        r.1 == base_h_of(canvas_w as int, canvas_h as int, pct as int, src),
{
    if src.height > src.width {
        proof {
            assert((canvas_h as int) * (pct as int) / 100 <= canvas_h as int
                && 0 <= (canvas_h as int) * (pct as int)) by (nonlinear_arith)
                requires
                    0 <= canvas_h as int,
                    0 <= pct <= 100,
            ;
        }
        let anchor64: u64 = (canvas_h as u64) * (pct as u64) / 100;
        let anchor: u32 = anchor64 as u32;
        proof {
            assert((anchor64 as int) * (src.width as int) <= 0xffff_ffff * 0xffff_ffff)
                by (nonlinear_arith)
                requires
                    0 <= anchor64 <= 0xffff_ffffu64,
                    0 <= src.width <= 0xffff_ffffu32,
            ;
        }
        let t: u128 = (anchor64 as u128) * (src.width as u128) / (src.height as u128);
        let other: u32 = if t > 0xffff_ffff {
            u32::MAX
        } else {
            t as u32
        };
        (other, anchor)
    } else {
        proof {
            assert((canvas_w as int) * (pct as int) / 100 <= canvas_w as int
                && 0 <= (canvas_w as int) * (pct as int)) by (nonlinear_arith)
                requires
                    0 <= canvas_w as int,
                    0 <= pct <= 100,
            ;
        }
        let anchor64: u64 = (canvas_w as u64) * (pct as u64) / 100;
        let anchor: u32 = anchor64 as u32;
        let other: u32 = if src.width == 0 {
            u32::MAX
        } else {
            proof {
                assert((anchor64 as int) * (src.height as int) <= 0xffff_ffff * 0xffff_ffff)
                    by (nonlinear_arith)
                    requires
                        0 <= anchor64 <= 0xffff_ffffu64,
                        0 <= src.height <= 0xffff_ffffu32,
                ;
            }
            let t: u128 = (anchor64 as u128) * (src.height as u128) / (src.width as u128);
            if t > 0xffff_ffff {
                u32::MAX
            } else {
                t as u32
            }
        };
        (anchor, other)
    }
}

/// Rescales both extents by `factor_pct` per cent, saturating at the
/// largest representable extent.
pub fn scaled_dims(w: u32, h: u32, factor_pct: u32) -> (r: (u32, u32))
    ensures
        r.0 == scale_pct(w as int, factor_pct as int),
        r.1 == scale_pct(h as int, factor_pct as int),
{
    proof {
        assert(0 <= (w as int) * (factor_pct as int) <= 0xffff_ffff * 0xffff_ffff && 0 <= (
        h as int) * (factor_pct as int) <= 0xffff_ffff * 0xffff_ffff) by (nonlinear_arith)
            requires
                0 <= w <= 0xffff_ffffu32 && 0 <= h <= 0xffff_ffffu32 && 0 <= factor_pct
                    <= 0xffff_ffffu32,
        ;
    }
    let sw: u128 = (w as u128) * (factor_pct as u128) / 100;
    let sh: u128 = (h as u128) * (factor_pct as u128) / 100;
    (
        if sw > 0xffff_ffff {
            u32::MAX
        } else {
            sw as u32
        },
        if sh > 0xffff_ffff {
            u32::MAX
        } else {
            sh as u32
        },
    )
}

/// A bare eyeball placement: random scale in `[90, 120]` per cent, random
/// rotation in `[-40, 40]` degrees, and a position drawn uniformly so that
/// the whole sticker stays on the canvas (clamped to the origin on an axis
/// where it cannot fit).
pub fn place_simple_ball(ball_idx: usize, ball_w: u32, ball_h: u32, canvas_w: u32, canvas_h: u32)
    -> (op: StickerOp)
    ensures
        op.source == StickerSource::Ball(ball_idx),
        op.base_w == ball_w,
        op.base_h == ball_h,
        90 <= op.factor_pct <= 120,
        op.scaled_w == scale_pct(ball_w as int, op.factor_pct as int),
        op.scaled_h == scale_pct(ball_h as int, op.factor_pct as int),
        -40 <= op.angle_deg <= 40,
        op.x <= sat_sub(canvas_w as int, op.scaled_w as int),
        op.y <= sat_sub(canvas_h as int, op.scaled_h as int),
        sticker_in_bounds(op, canvas_w, canvas_h),
{
    let factor = random_u32_inclusive(90, 120);
    let (sw, sh) = scaled_dims(ball_w, ball_h, factor);
    let angle = random_i32_inclusive(-40, 40);
    let max_x: u32 = if sw <= canvas_w {
        canvas_w - sw
    } else {
        0
    };
    let max_y: u32 = if sh <= canvas_h {
        canvas_h - sh
    } else {
        0
    };
    let x = random_u32_inclusive(0, max_x);
    let y = random_u32_inclusive(0, max_y);
    StickerOp {
        source: StickerSource::Ball(ball_idx),
        base_w: ball_w,
        base_h: ball_h,
        factor_pct: factor,
        scaled_w: sw,
        scaled_h: sh,
        angle_deg: angle,
        x,
        y,
    }
}

/// A winged eyeball placement: the wing is randomly rescaled by `[90, 120]`
/// per cent, not rotated, and placed uniformly in bounds; the eyeball is
/// rescaled by `[50, 80]` per cent, rotated by `[-10, 10]` degrees, and
/// centred on the wing's bounding box, each axis floored at zero.
pub fn place_ball_with_wing(
    wing_idx: usize,
    wing_w: u32,
    wing_h: u32,
    ball_idx: usize,
    ball_w: u32,
    ball_h: u32,
    canvas_w: u32,
    canvas_h: u32,
) -> (ops: (StickerOp, StickerOp))
    ensures
        ops.0.source == StickerSource::Wing(wing_idx),
        ops.0.base_w == wing_w,
        ops.0.base_h == wing_h,
        90 <= ops.0.factor_pct <= 120,
        ops.0.scaled_w == scale_pct(wing_w as int, ops.0.factor_pct as int),
        ops.0.scaled_h == scale_pct(wing_h as int, ops.0.factor_pct as int),
        ops.0.angle_deg == 0,
        ops.0.x <= sat_sub(canvas_w as int, ops.0.scaled_w as int),
        ops.0.y <= sat_sub(canvas_h as int, ops.0.scaled_h as int),
        sticker_in_bounds(ops.0, canvas_w, canvas_h),
        ops.1.source == StickerSource::Ball(ball_idx),
        ops.1.base_w == ball_w,
        ops.1.base_h == ball_h,
        50 <= ops.1.factor_pct <= 80,
        ops.1.scaled_w == scale_pct(ball_w as int, ops.1.factor_pct as int),
        ops.1.scaled_h == scale_pct(ball_h as int, ops.1.factor_pct as int),
        -10 <= ops.1.angle_deg <= 10,
        ops.1.x == ops.0.x + sat_sub(ops.0.scaled_w as int / 2, ops.1.scaled_w as int / 2),
        ops.1.y == ops.0.y + sat_sub(ops.0.scaled_h as int / 2, ops.1.scaled_h as int / 2),
{
    let wing_factor = random_u32_inclusive(90, 120);
    let (wsw, wsh) = scaled_dims(wing_w, wing_h, wing_factor);
    let max_x: u32 = if wsw <= canvas_w {
        canvas_w - wsw
    } else {
        0
    };
    let max_y: u32 = if wsh <= canvas_h {
        canvas_h - wsh
    } else {
        0
    };
    let wing_x = random_u32_inclusive(0, max_x);
    let wing_y = random_u32_inclusive(0, max_y);
    let wing_op = StickerOp {
        source: StickerSource::Wing(wing_idx),
        base_w: wing_w,
        base_h: wing_h,
        factor_pct: wing_factor,
        scaled_w: wsw,
        scaled_h: wsh,
        angle_deg: 0,
        x: wing_x,
        y: wing_y,
    };
    let ball_factor = random_u32_inclusive(50, 80);
    let (bsw, bsh) = scaled_dims(ball_w, ball_h, ball_factor);
    let angle = random_i32_inclusive(-10, 10);
    let half_w: u32 = wsw / 2;
    let half_h: u32 = wsh / 2;
    let off_x: u32 = if bsw / 2 <= half_w {
        half_w - bsw / 2
    } else {
        0
    };
    let off_y: u32 = if bsh / 2 <= half_h {
        half_h - bsh / 2
    } else {
        0
    };
    let center_x: u32 = wing_x + off_x;
    let center_y: u32 = wing_y + off_y;
    let ball_op = StickerOp {
        source: StickerSource::Ball(ball_idx),
        base_w: ball_w,
        base_h: ball_h,
        factor_pct: ball_factor,
        scaled_w: bsw,
        scaled_h: bsh,
        angle_deg: angle,
        x: center_x,
        y: center_y,
    };
    (wing_op, ball_op)
}

/// An emitted bare-eyeball composite is consistent with the step's pool and
/// stays on the canvas.
pub open spec fn simple_op_valid(op: StickerOp, balls: Seq<Dims>, cw: u32, ch: u32) -> bool {
    &&& op.source is Ball
    &&& (op.source->Ball_0 as int) < balls.len()
    &&& op.base_w == base_w_of(cw as int, ch as int, 20, balls[op.source->Ball_0 as int])
    &&& op.base_h == base_h_of(cw as int, ch as int, 20, balls[op.source->Ball_0 as int])
    &&& 90 <= op.factor_pct <= 120
    &&& op.scaled_w == scale_pct(op.base_w as int, op.factor_pct as int)
    &&& op.scaled_h == scale_pct(op.base_h as int, op.factor_pct as int)
    &&& -40 <= op.angle_deg <= 40
    &&& sticker_in_bounds(op, cw, ch)
}

/// An emitted wing composite is consistent with the step's wing pool, is not
/// rotated, and stays on the canvas.
pub open spec fn wing_op_valid(op: StickerOp, wings: Seq<Dims>, cw: u32, ch: u32) -> bool {
    &&& op.source is Wing
    &&& (op.source->Wing_0 as int) < wings.len()
    &&& op.base_w == base_w_of(cw as int, ch as int, 30, wings[op.source->Wing_0 as int])
    &&& op.base_h == base_h_of(cw as int, ch as int, 30, wings[op.source->Wing_0 as int])
    &&& 90 <= op.factor_pct <= 120
    &&& op.scaled_w == scale_pct(op.base_w as int, op.factor_pct as int)
    &&& op.scaled_h == scale_pct(op.base_h as int, op.factor_pct as int)
    &&& op.angle_deg == 0
    &&& sticker_in_bounds(op, cw, ch)
}

/// An emitted riding-eyeball composite is consistent with the step's pool
/// and is centred on its wing's bounding box.
pub open spec fn riding_op_valid(op: StickerOp, wing: StickerOp, balls: Seq<Dims>, cw: u32, ch: u32) -> bool {
    &&& op.source is Ball
    &&& (op.source->Ball_0 as int) < balls.len()
    &&& op.base_w == base_w_of(cw as int, ch as int, 20, balls[op.source->Ball_0 as int])
    &&& op.base_h == base_h_of(cw as int, ch as int, 20, balls[op.source->Ball_0 as int])
    &&& 50 <= op.factor_pct <= 80
    &&& op.scaled_w == scale_pct(op.base_w as int, op.factor_pct as int)
    &&& op.scaled_h == scale_pct(op.base_h as int, op.factor_pct as int)
    &&& -10 <= op.angle_deg <= 10
    &&& op.x == wing.x + sat_sub(wing.scaled_w as int / 2, op.scaled_w as int / 2)
    &&& op.y == wing.y + sat_sub(wing.scaled_h as int / 2, op.scaled_h as int / 2)
}

/// `a * b / c` cannot exceed a bound whose product with `c` dominates
/// `a * b`.
proof fn lemma_mul_div_le(a: int, b: int, c: int, bound: int)
    requires
        0 <= a,
        0 <= b,
        0 < c,
        0 <= bound,
        a * b <= bound * c,
    ensures
        a * b / c <= bound,
{
    vstd::arithmetic::div_mod::lemma_div_is_ordered(a * b, bound * c, c);
    vstd::arithmetic::div_mod::lemma_div_by_multiple(bound, c);
}

/// A base extent at most `pct` per cent of the canvas side, rescaled by at
/// most 120 per cent, stays within the side itself.
proof fn lemma_scale_pct_le_canvas(c: int, pct: int, base: int, f: int)
    requires
        0 <= c <= u32::MAX,
        0 <= pct <= 80,
        0 <= base <= c * pct / 100,
        90 <= f <= 120,
    ensures
        scale_pct(base, f) <= c,
{
    let q = c * pct / 100;
    vstd::arithmetic::div_mod::lemma_fundamental_div_mod(c * pct, 100);
    vstd::arithmetic::div_mod::lemma_remainder(c * pct, 100);
    vstd::arithmetic::mul::lemma_mul_nonnegative(c, pct);
    vstd::arithmetic::mul::lemma_mul_inequality(pct, 80, c);
    vstd::arithmetic::mul::lemma_mul_is_commutative(c, pct);
    vstd::arithmetic::mul::lemma_mul_inequality(f, 120, base);
    vstd::arithmetic::mul::lemma_mul_is_commutative(f, base);
    vstd::arithmetic::mul::lemma_mul_inequality(base, q, 120);
    vstd::arithmetic::mul::lemma_mul_is_commutative(base, 120);
    vstd::arithmetic::mul::lemma_mul_is_commutative(q, 120);
    assert(base * f <= c * 100) by {
        assert(100 * q <= 80 * c);
        assert(120 * base <= 120 * q);
        assert(120 * q <= 96 * c);
    }
    lemma_mul_div_le(base, f, 100, c);
    assert(base * f / 100 <= c);
}

/// The non-anchored extent at the source's aspect ratio is at most the
/// anchor.
proof fn lemma_aspect_other_le(anchor: int, src_larger: int, src_other: int)
    requires
        0 <= anchor <= u32::MAX,
        0 < src_larger,
        0 <= src_other <= src_larger,
    ensures
        aspect_other(anchor, src_larger, src_other) <= anchor,
{
    vstd::arithmetic::mul::lemma_mul_inequality(src_other, src_larger, anchor);
    vstd::arithmetic::mul::lemma_mul_is_commutative(src_other, anchor);
    vstd::arithmetic::mul::lemma_mul_is_commutative(src_larger, anchor);
    lemma_mul_div_le(anchor, src_other, src_larger, anchor);
}

/// Both base extents of a rescaled sticker are at most `pct` per cent of the
/// side of a square canvas: the larger dimension is anchored there and the
/// other follows the aspect ratio downward.
proof fn lemma_base_dims_le_anchor(c: int, pct: int, src: Dims)
    requires
        0 <= c <= u32::MAX,
        0 <= pct <= 100,
        src.width > 0 || src.height > 0,
    ensures
        0 <= base_w_of(c, c, pct, src) <= c * pct / 100,
        0 <= base_h_of(c, c, pct, src) <= c * pct / 100,
{
    let anchor = bg_extent(c, pct);
    vstd::arithmetic::div_mod::lemma_fundamental_div_mod(c * pct, 100);
    vstd::arithmetic::div_mod::lemma_remainder(c * pct, 100);
    vstd::arithmetic::div_mod::lemma_div_pos_is_pos(c * pct, 100);
    vstd::arithmetic::mul::lemma_mul_nonnegative(c, pct);
    vstd::arithmetic::mul::lemma_mul_inequality(pct, 100, c);
    vstd::arithmetic::mul::lemma_mul_is_commutative(c, pct);
    assert(0 <= anchor <= c) by {
        assert(100 * anchor <= 100 * c);
    }
    if src.height > src.width {
        lemma_aspect_other_le(anchor, src.height as int, src.width as int);
        vstd::arithmetic::mul::lemma_mul_nonnegative(anchor, src.width as int);
        vstd::arithmetic::div_mod::lemma_div_pos_is_pos(
            anchor * (src.width as int),
            src.height as int,
        );
    } else {
        lemma_aspect_other_le(anchor, src.width as int, src.height as int);
        vstd::arithmetic::mul::lemma_mul_nonnegative(anchor, src.height as int);
        vstd::arithmetic::div_mod::lemma_div_pos_is_pos(
            anchor * (src.height as int),
            src.width as int,
        );
    }
}

/// Every bare-eyeball composite emitted against a square canvas has its
/// whole bounding box inside the canvas: the sticker's larger dimension is
/// anchored to a fifth of the canvas side, so both rescaled extents fit and
/// the clamped placement never leaves the image.
pub proof fn lemma_simple_composite_within_canvas(
    op: StickerOp,
    balls: Seq<Dims>,
    cw: u32,
    ch: u32,
)
    requires
        simple_op_valid(op, balls, cw, ch),
        cw == ch,
        balls[op.source->Ball_0 as int].width > 0 || balls[op.source->Ball_0 as int].height > 0,
    ensures
        op.x + op.scaled_w <= cw,
        op.y + op.scaled_h <= ch,
        op.scaled_w <= cw,
        op.scaled_h <= ch,
{
    let c = cw as int;
    let src = balls[op.source->Ball_0 as int];
    let f = op.factor_pct as int;
    lemma_base_dims_le_anchor(c, 20, src);
    lemma_scale_pct_le_canvas(c, 20, op.base_w as int, f);
    lemma_scale_pct_le_canvas(c, 20, op.base_h as int, f);
}

/// Every wing composite emitted against a square canvas has its whole
/// bounding box inside the canvas.
pub proof fn lemma_wing_composite_within_canvas(op: StickerOp, wings: Seq<Dims>, cw: u32, ch: u32)
    requires
        wing_op_valid(op, wings, cw, ch),
        cw == ch,
        wings[op.source->Wing_0 as int].width > 0 || wings[op.source->Wing_0 as int].height > 0,
    ensures
        op.x + op.scaled_w <= cw,
        op.y + op.scaled_h <= ch,
        op.scaled_w <= cw,
        op.scaled_h <= ch,
{
    let c = cw as int;
    let src = wings[op.source->Wing_0 as int];
    let f = op.factor_pct as int;
    lemma_base_dims_le_anchor(c, 30, src);
    lemma_scale_pct_le_canvas(c, 30, op.base_w as int, f);
    lemma_scale_pct_le_canvas(c, 30, op.base_h as int, f);
}

/// A riding eyeball no larger than its wing on either axis stays within the
/// canvas: centring it on an in-bounds wing keeps its whole bounding box
/// inside the wing's own box.
pub proof fn lemma_riding_composite_within_canvas(
    op: StickerOp,
    wing: StickerOp,
    balls: Seq<Dims>,
    cw: u32,
    ch: u32,
)
    requires
        riding_op_valid(op, wing, balls, cw, ch),
        sticker_in_bounds(wing, cw, ch),
        wing.scaled_w <= cw,
        wing.scaled_h <= ch,
        op.scaled_w <= wing.scaled_w,
        op.scaled_h <= wing.scaled_h,
    ensures
        op.x + op.scaled_w <= cw,
        op.y + op.scaled_h <= ch,
{
    let ww = wing.scaled_w as int;
    let wh = wing.scaled_h as int;
    let bw = op.scaled_w as int;
    let bh = op.scaled_h as int;
    assert(op.x + bw <= wing.x + ww / 2 - bw / 2 + bw);
    assert(bw - bw / 2 <= ww - ww / 2);
    assert(op.x + bw <= wing.x + ww);
    assert(op.y + bh <= wing.y + wh);
}

/// A sticker-compositing step: composites a random number of eyeballs —
/// bare or riding wings — drawn from immutable sticker pools.
pub struct Eyeballs {
    pub kind: Eyeball,
    pub count_lo: u32,
    pub count_hi: u32,
    pub balls: Vec<Dims>,
    pub wings: Option<Vec<Dims>>,
}

impl Eyeballs {
    /// The construction-time invariant: a non-empty eyeball pool, and a
    /// non-empty wing pool whenever wings are composited.
    pub open spec fn wf(&self) -> bool {
        &&& self.balls@.len() > 0
        &&& self.kind == Eyeball::EyeWithWings ==> self.wings is Some
            && self.wings->Some_0@.len() > 0
    }

    /// Builds the step, or refuses: an empty eyeball pool — or an absent or
    /// empty wing pool in wing mode — is a fatal configuration error.
    pub fn new(kind: Eyeball, count_lo: u32, count_hi: u32, balls: Vec<Dims>, wings: Option<
        Vec<Dims>,
    >) -> (r: Result<Eyeballs, ConfigError>)
        ensures
            balls@.len() == 0 ==> r == Err::<Eyeballs, ConfigError>(ConfigError::EmptyEyeballPool),
            balls@.len() > 0 && kind == Eyeball::EyeWithWings && (wings is None
                || wings->Some_0@.len() == 0) ==> r == Err::<Eyeballs, ConfigError>(
                ConfigError::EmptyWingPool,
            ),
            r is Ok <==> balls@.len() > 0 && (kind == Eyeball::SimpleEye || (wings is Some
                && wings->Some_0@.len() > 0)),
            r is Ok ==> {
                &&& r->Ok_0.wf()
                &&& r->Ok_0.kind == kind
                &&& r->Ok_0.count_lo == count_lo
                &&& r->Ok_0.count_hi == count_hi
                &&& r->Ok_0.balls@ == balls@
                &&& r->Ok_0.wings == wings
            },
    {
        if balls.is_empty() {
            return Err(ConfigError::EmptyEyeballPool);
        }
        if matches!(kind, Eyeball::EyeWithWings) {
            match &wings {
                None => {
                    return Err(ConfigError::EmptyWingPool);
                },
                Some(w) => {
                    if w.is_empty() {
                        return Err(ConfigError::EmptyWingPool);
                    }
                },
            }
        }
        Ok(Eyeballs { kind, count_lo, count_hi, balls, wings })
    }

}

impl ImageTransformation for Eyeballs {
    /// The construction-time invariant of the step.
    open spec fn ok(&self) -> bool {
        self.wf()
    }

    /// The canvas pixels are untouched — the geometry travels in the
    /// operations.  An empty count range emits nothing; otherwise some count
    /// in the range is drawn, and each composite is either a bare eyeball or
    /// a wing followed by its riding eyeball, every one consistent with the
    /// step's pools and the clamped in-bounds placement.
    open spec fn post(&self, pre: Canvas, cur: Canvas, ops: Seq<RasterOp>) -> bool {
        &&& cur == pre
        &&& (self.count_lo > self.count_hi ==> ops.len() == 0)
        &&& (self.count_hi == 0 ==> ops.len() == 0)
        &&& (self.kind == Eyeball::SimpleEye ==> {
            &&& (self.count_lo <= self.count_hi ==> self.count_lo <= ops.len() <= self.count_hi)
            &&& forall|k: int|
                0 <= k < ops.len() ==> #[trigger] ops[k] is Sticker && simple_op_valid(
                    ops[k]->Sticker_0,
                    self.balls@,
                    pre.spec_width(),
                    pre.spec_height(),
                )
        })
        &&& (self.kind == Eyeball::EyeWithWings ==> {
            &&& ops.len() % 2 == 0
            &&& (self.count_lo <= self.count_hi ==> 2 * self.count_lo <= ops.len() <= 2
                * self.count_hi)
            &&& forall|p: int|
                0 <= p && 2 * p < ops.len() ==> #[trigger] ops[2 * p] is Sticker && ops[2 * p
                    + 1] is Sticker && wing_op_valid(
                    ops[2 * p]->Sticker_0,
                    self.wings->Some_0@,
                    pre.spec_width(),
                    pre.spec_height(),
                ) && riding_op_valid(
                    ops[2 * p + 1]->Sticker_0,
                    ops[2 * p]->Sticker_0,
                    self.balls@,
                    pre.spec_width(),
                    pre.spec_height(),
                )
        })
    }

    /// Draws a count from the configured range (an empty range is a no-op)
    /// and emits that many composites — one operation per bare eyeball, or a
    /// wing followed by its riding eyeball.
    fn transform(&self, image: &mut Canvas) -> (ops: Vec<RasterOp>) {
        let mut ops: Vec<RasterOp> = Vec::new();
        if self.count_lo > self.count_hi {
            return ops;
        }
        let n = random_u32_inclusive(self.count_lo, self.count_hi);
        let cw = image.width();
        let ch = image.height();
        let mut it: u32 = 0;
        while it < n
            invariant
                self.wf(),
                self.count_lo <= n <= self.count_hi,
                it <= n,
                cw == old(image).spec_width(),
                ch == old(image).spec_height(),
                *image == *old(image),
                self.kind == Eyeball::SimpleEye ==> {
                    &&& ops@.len() == it
                    &&& forall|k: int|
                        0 <= k < ops@.len() ==> #[trigger] ops@[k] is Sticker && simple_op_valid(
                            ops@[k]->Sticker_0,
                            self.balls@,
                            cw,
                            ch,
                        )
                },
                self.kind == Eyeball::EyeWithWings ==> {
                    &&& ops@.len() == 2 * it
                    &&& forall|p: int|
                        0 <= p && 2 * p < ops@.len() ==> #[trigger] ops@[2 * p] is Sticker
                            && ops@[2 * p + 1] is Sticker && wing_op_valid(
                            ops@[2 * p]->Sticker_0,
                            self.wings->Some_0@,
                            cw,
                            ch,
                        ) && riding_op_valid(
                            ops@[2 * p + 1]->Sticker_0,
                            ops@[2 * p]->Sticker_0,
                            self.balls@,
                            cw,
                            ch,
                        )
                },
            decreases n - it,
        {
            let bi = random_usize_inclusive(0, self.balls.len() - 1);
            let ball = self.balls[bi];
            let (base_w, base_h) = background_scale_dims(cw, ch, 20, ball);
            match self.kind {
                Eyeball::SimpleEye => {
                    let op = place_simple_ball(bi, base_w, base_h, cw, ch);
                    ops.push(RasterOp::Sticker(op));
                },
                Eyeball::EyeWithWings => {
                    let wing_pool = self.wings.as_ref().unwrap();
                    let wi = random_usize_inclusive(0, wing_pool.len() - 1);
                    let wing = wing_pool[wi];
                    let (wing_w, wing_h) = background_scale_dims(cw, ch, 30, wing);
                    let (wing_op, ball_op) = place_ball_with_wing(
                        wi,
                        wing_w,
                        wing_h,
                        bi,
                        base_w,
                        base_h,
                        cw,
                        ch,
                    );
                    ops.push(RasterOp::Sticker(wing_op));
                    ops.push(RasterOp::Sticker(ball_op));
                },
            }
            it = it + 1;
        }
        ops
    }
}

} // verus!
