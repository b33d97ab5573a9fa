//! The text overlay step: picks a font, a phrase, a placement style and a
//! reddish colour at random, measures the phrase with the glyph layout
//! engine, and emits the text draws with their geometry checked here.

use vstd::prelude::*;

use crate::canvas::Canvas;
use crate::canvas::Px;
use crate::layout::layout_paragraph;
use crate::layout::measured_width;
use crate::layout::scale_len_px_of;
use crate::layout::FontMetrics;
use crate::layout::Glyph;
use crate::layout::TEXT_LIMIT;
use crate::rng::random_ratio;
use crate::rng::random_u32_inclusive;
use crate::rng::random_usize_inclusive;
use crate::transformation::ConfigError;
use crate::transformation::ImageTransformation;
use crate::transformation::RasterOp;
use crate::transformation::TextOp;

verus! {

/// Where repeated copies of a phrase march across the canvas.
#[derive(Clone, Copy, PartialEq, Eq, Structural, Debug)]
pub enum RepeatedDirection {
    Top,
    TopLeft,
    TopRight,
    Bottom,
    BottomLeft,
    BottomRight,
}

/// How one text-placement round draws its phrase: once, or repeated a small
/// number of further times marching toward a direction.
#[derive(Clone, Copy, PartialEq, Eq, Structural, Debug)]
pub enum PlacementStyle {
    Single,
    Repeated { times: u32, direction: RepeatedDirection },
}

/// Single placement with probability 0.8; otherwise repeated, with the
/// repeat count uniform in `[2, 4]` and the direction uniform over the six
/// directions.
pub fn get_random_placement_style() -> (r: PlacementStyle)
    ensures
        r matches PlacementStyle::Repeated { times, .. } ==> 2 <= times <= 4,
{
    if random_ratio(4, 5) {
        PlacementStyle::Single
    } else {
        let times = random_u32_inclusive(2, 4);
        let direction = match random_u32_inclusive(0, 5) {
            0 => RepeatedDirection::Top,
            1 => RepeatedDirection::TopLeft,
            2 => RepeatedDirection::TopRight,
            3 => RepeatedDirection::Bottom,
            4 => RepeatedDirection::BottomLeft,
            _ => RepeatedDirection::BottomRight,
        };
        PlacementStyle::Repeated { times, direction }
    }
}

/// The largest legal top-left origin along one axis: the canvas extent less
/// the text extent, degenerating to zero when the text cannot fit and to
/// the whole extent when the text extent is not positive.
pub open spec fn max_origin(limit: int, extent: int) -> int {
    if extent >= limit {
        0
    } else if extent <= 0 {
        limit
    } else {
        limit - extent
    }
}

/// The randomized parameters of one text placement round.
#[derive(Clone, Copy, PartialEq, Eq, Structural, Debug)]
pub struct TextParams {
    pub scale: u32,
    pub width: i64,
    pub height: i64,
    pub x: i64,
    pub y: i64,
    pub color: Px,
}

/// The reddish colour palette of the overlay: high red, low green, no blue,
/// high but random alpha.
pub open spec fn reddish(c: Px) -> bool {
    &&& 200 <= c.r <= 254
    &&& c.g <= 29
    &&& c.b == 0
    &&& 200 <= c.a <= 254
}

/// Draws the randomized parameters of one placement round: a font scale in
/// `[28, 33]` pixels, the phrase's measured width at that scale, a reddish
/// colour, and an origin uniform over the legal range that keeps the text
/// box on the canvas (zero where it cannot fit).
pub fn random_text_params(font: &FontMetrics, text: &str, canvas_w: u32, canvas_h: u32) -> (r:
    TextParams)
    requires
        font.wf(),
        text@.len() <= TEXT_LIMIT,
    ensures
        28 <= r.scale <= 33,
        r.width == measured_width(*font, r.scale as int, canvas_w as int, text@),
        r.height == r.scale,
        0 <= r.x <= max_origin(canvas_w as int, r.width as int),
        0 <= r.y <= max_origin(canvas_h as int, r.height as int),
        reddish(r.color),
{
    let scale = random_u32_inclusive(28, 33);
    let mut glyphs: Vec<Glyph> = Vec::new();
    layout_paragraph(font, scale, 0, 0, canvas_w as i64, text, &mut glyphs);
    let ghost laid = crate::layout::spec_layout_from(
        *font,
        scale as int,
        0,
        0,
        canvas_w as int,
        text@,
    );
    proof {
        assert(glyphs@.len() == laid.len());
        if laid.len() > 0 {
            let k = laid.len() - 1;
            assert(glyphs@[0 + k].ch == laid[k].0 && glyphs@[0 + k].x == laid[k].1);
            assert(-0x20_0000_0000_0000 <= laid[k].1 <= 0x20_0000_0000_0000);
        }
    }
    let width: i64 = if glyphs.len() == 0 {
        0
    } else {
        let g = glyphs[glyphs.len() - 1];
        let adv = scale_len_px_of(font, scale, g.ch);
        proof {
            assert(g.ch == laid.last().0 && g.x == laid.last().1);
        }
        g.x + adv
    };
    let max_x: i64 = if width >= canvas_w as i64 {
        0
    } else if width <= 0 {
        canvas_w as i64
    } else {
        canvas_w as i64 - width
    };
    let height: i64 = scale as i64;
    let max_y: i64 = if height >= canvas_h as i64 {
        0
    } else {
        canvas_h as i64 - height
    };
    let x = random_u32_inclusive(0, max_x as u32) as i64;
    let y = random_u32_inclusive(0, max_y as u32) as i64;
    let color = Px {
        r: random_u32_inclusive(200, 254) as u8,
        g: random_u32_inclusive(0, 29) as u8,
        b: 0,
        a: random_u32_inclusive(200, 254) as u8,
    };
    TextParams { scale, width, height, x, y, color }
}

/// One text draw placed by `random_text_params`.
pub fn draw_random_text(
    font_idx: usize,
    text_idx: usize,
    font: &FontMetrics,
    text: &str,
    canvas_w: u32,
    canvas_h: u32,
) -> (op: TextOp)
    requires
        font.wf(),
        text@.len() <= TEXT_LIMIT,
    ensures
        op.font == font_idx,
        op.text == text_idx,
        28 <= op.scale <= 33,
        0 <= op.x <= max_origin(
            canvas_w as int,
            measured_width(*font, op.scale as int, canvas_w as int, text@),
        ),
        0 <= op.y <= max_origin(canvas_h as int, op.scale as int),
        reddish(op.color),
{
    let p = random_text_params(font, text, canvas_w, canvas_h);
    TextOp { font: font_idx, text: text_idx, scale: p.scale, x: p.x, y: p.y, color: p.color }
}

/// The horizontal step of one repeat toward a direction: a fixed 10 pixels
/// for the diagonal directions, none for pure vertical ones.
pub open spec fn repeat_dx(d: RepeatedDirection) -> int {
    match d {
        RepeatedDirection::Top => 0,
        RepeatedDirection::Bottom => 0,
        RepeatedDirection::TopLeft => -10,
        RepeatedDirection::BottomLeft => -10,
        RepeatedDirection::TopRight => 10,
        RepeatedDirection::BottomRight => 10,
    }
}

/// The vertical step of one repeat toward a direction: one text height up
/// for the top directions, down for the bottom ones.
pub open spec fn repeat_dy(d: RepeatedDirection, height: int) -> int {
    match d {
        RepeatedDirection::Top => -height,
        RepeatedDirection::TopLeft => -height,
        RepeatedDirection::TopRight => -height,
        RepeatedDirection::Bottom => height,
        RepeatedDirection::BottomLeft => height,
        RepeatedDirection::BottomRight => height,
    }
}

/// One initial placement as in the single style, then `times` further draws
/// of the same phrase, font and colour, each shifted one text height toward
/// the direction's vertical component and a fixed horizontal step for
/// diagonal directions.
pub fn apply_repeated_text(
    font_idx: usize,
    text_idx: usize,
    font: &FontMetrics,
    text: &str,
    canvas_w: u32,
    canvas_h: u32,
    times: u32,
    direction: RepeatedDirection,
) -> (ops: Vec<TextOp>)
    requires
        font.wf(),
        text@.len() <= TEXT_LIMIT,
        2 <= times <= 4,
    ensures
        ops@.len() == times + 1,
        28 <= ops@[0].scale <= 33,
        0 <= ops@[0].x <= max_origin(
            canvas_w as int,
            measured_width(*font, ops@[0].scale as int, canvas_w as int, text@),
        ),
        0 <= ops@[0].y <= max_origin(canvas_h as int, ops@[0].scale as int),
        reddish(ops@[0].color),
        forall|k: int|
            #![trigger ops@[k]]
            0 <= k < ops@.len() ==> ops@[k].font == font_idx && ops@[k].text == text_idx
                && ops@[k].scale == ops@[0].scale && ops@[k].color == ops@[0].color,
        forall|k: int|
            #![trigger ops@[k]]
            0 <= k < ops@.len() - 1 ==> ops@[k + 1].x == ops@[k].x + repeat_dx(direction)
                && ops@[k + 1].y == ops@[k].y + repeat_dy(direction, ops@[0].scale as int),
{
    let p = random_text_params(font, text, canvas_w, canvas_h);
    let mut ops: Vec<TextOp> = Vec::new();
    let mut x: i64 = p.x;
    let mut y: i64 = p.y;
    ops.push(TextOp { font: font_idx, text: text_idx, scale: p.scale, x, y, color: p.color });
    let mut k: u32 = 0;
    while k < times
        invariant
            2 <= times <= 4,
            k <= times,
            ops@.len() == k + 1,
            ops@[0].scale == p.scale,
            ops@[0].x == p.x,
            ops@[0].y == p.y,
            ops@[0].color == p.color,
            28 <= p.scale <= 33,
            0 <= p.x <= max_origin(canvas_w as int, p.width as int),
            0 <= p.y <= max_origin(canvas_h as int, p.height as int),
            x == ops@[ops@.len() - 1].x,
            y == ops@[ops@.len() - 1].y,
            p.x - 10 * k <= x <= p.x + 10 * k,
            p.y - 33 * k <= y <= p.y + 33 * k,
            forall|j: int|
                #![trigger ops@[j]]
                0 <= j < ops@.len() ==> ops@[j].font == font_idx && ops@[j].text
                    == text_idx && ops@[j].scale == p.scale && ops@[j].color == p.color,
            forall|j: int|
                #![trigger ops@[j]]
                0 <= j < ops@.len() - 1 ==> ops@[j + 1].x == ops@[j].x + repeat_dx(
                    direction,
                ) && ops@[j + 1].y == ops@[j].y + repeat_dy(direction, p.scale as int),
        decreases times - k,
    {
        let height: i64 = p.scale as i64;
        match direction {
            RepeatedDirection::Top => {
                y = y - height;
            },
            RepeatedDirection::Bottom => {
                y = y + height;
            },
            RepeatedDirection::TopLeft => {
                y = y - height;
                x = x - 10;
            },
            RepeatedDirection::TopRight => {
                y = y - height;
                x = x + 10;
            },
            RepeatedDirection::BottomLeft => {
                y = y + height;
                x = x - 10;
            },
            RepeatedDirection::BottomRight => {
                y = y + height;
                x = x + 10;
            },
        }
        ops.push(TextOp { font: font_idx, text: text_idx, scale: p.scale, x, y, color: p.color });
        k = k + 1;
    }
    ops
}

/// The text overlay step: a non-empty pool of font metric tables and the
/// fixed list of phrases it burns onto images.
pub struct AddTextTransformer {
    pub fonts: Vec<FontMetrics>,
    pub texts: Vec<&'static str>,
}

/// An emitted text draw names a real font and phrase of the step, at the
/// overlay's scale and palette.
pub open spec fn text_op_valid(op: TextOp, t: AddTextTransformer) -> bool {
    &&& (op.font as int) < t.fonts@.len()
    &&& (op.text as int) < t.texts@.len()
    &&& 28 <= op.scale <= 33
    &&& reddish(op.color)
}

/// One placement round as it stands in the emitted operations: every draw is
/// a valid text draw sharing the first draw's font, phrase, scale and
/// colour; the first draw's origin lies in the legal range that keeps its
/// measured text box on the canvas; and the repeats, if any, march from it
/// by one direction's fixed offsets — a whole text height vertically and
/// nothing or ten pixels horizontally per copy.
pub open spec fn round_valid(t: AddTextTransformer, ops: Seq<RasterOp>, cw: u32, ch: u32) -> bool {
    &&& 1 <= ops.len() <= 5
    &&& (ops.len() > 1 ==> 3 <= ops.len())
    &&& forall|k: int|
        #![trigger ops[k]]
        0 <= k < ops.len() ==> ops[k] is Text && text_op_valid(ops[k]->Text_0, t)
    &&& ({
        let first = ops[0]->Text_0;
        &&& 0 <= first.x <= max_origin(
            cw as int,
            measured_width(
                t.fonts@[first.font as int],
                first.scale as int,
                cw as int,
                t.texts@[first.text as int]@,
            ),
        )
        &&& 0 <= first.y <= max_origin(ch as int, first.scale as int)
        &&& forall|k: int|
            #![trigger ops[k]]
            0 <= k < ops.len() ==> ops[k]->Text_0.font == first.font && ops[k]->Text_0.text
                == first.text && ops[k]->Text_0.scale == first.scale && ops[k]->Text_0.color
                == first.color
        &&& (ops.len() > 1 ==> {
            let dx = ops[1]->Text_0.x - ops[0]->Text_0.x;
            let dy = ops[1]->Text_0.y - ops[0]->Text_0.y;
            &&& (dx == -10 || dx == 0 || dx == 10)
            &&& (dy == first.scale || dy == -(first.scale as int))
            &&& forall|k: int|
                #![trigger ops[k]]
                0 <= k < ops.len() - 1 ==> ops[k + 1]->Text_0.x == ops[k]->Text_0.x + dx && ops[k
                    + 1]->Text_0.y == ops[k]->Text_0.y + dy
        })
    })
}

impl AddTextTransformer {
    /// The construction-time invariant: at least one font, every metric
    /// table in range, and the fixed non-empty phrase list.
    pub open spec fn wf(&self) -> bool {
        &&& self.fonts@.len() > 0
        &&& forall|k: int| 0 <= k < self.fonts@.len() ==> #[trigger] self.fonts@[k].wf()
        &&& self.texts@.len() > 0
        &&& forall|k: int| 0 <= k < self.texts@.len() ==> #[trigger] self.texts@[k]@.len()
            <= TEXT_LIMIT
    }

    /// Builds the step over the given font pool and the built-in phrases, or
    /// refuses: an empty font pool — or a metric table out of range — is a
    /// fatal configuration error.
    pub fn new(fonts: Vec<FontMetrics>) -> (r: Result<AddTextTransformer, ConfigError>)
        ensures
            fonts@.len() == 0 ==> r == Err::<AddTextTransformer, ConfigError>(
                ConfigError::EmptyFontPool,
            ),
            r is Ok <==> fonts@.len() > 0 && (forall|k: int|
                0 <= k < fonts@.len() ==> #[trigger] fonts@[k].wf()),
            r is Ok ==> {
                &&& r->Ok_0.wf()
                &&& r->Ok_0.fonts@ == fonts@
                &&& r->Ok_0.texts@.len() == 12
            },
    {
        if fonts.is_empty() {
            return Err(ConfigError::EmptyFontPool);
        }
        let mut k: usize = 0;
        while k < fonts.len()
            invariant
                k <= fonts@.len(),
                forall|j: int| 0 <= j < k ==> #[trigger] fonts@[j].wf(),
            decreases fonts@.len() - k,
        {
            if !fonts[k].is_well_formed() {
                return Err(ConfigError::InvalidFontMetrics);
            }
            k = k + 1;
        }
        let mut texts: Vec<&'static str> = Vec::new();
        texts.push("Why do you keep coming back?");
        texts.push("The walls remember you.");
        texts.push("I dreamt of you last night.");
        texts.push("Why do you always return?");
        texts.push("Exit?");
        texts.push("WAKE UP");
        texts.push("This is a Dream");
        texts.push("come with me, dear");
        texts.push("i want to go back");
        texts.push("he is watching!");
        texts.push("It's time to go home");
        texts.push("It's funny!");
        proof {
            reveal_strlit("Why do you keep coming back?");
            reveal_strlit("The walls remember you.");
            reveal_strlit("I dreamt of you last night.");
            reveal_strlit("Why do you always return?");
            reveal_strlit("Exit?");
            reveal_strlit("WAKE UP");
            reveal_strlit("This is a Dream");
            reveal_strlit("come with me, dear");
            reveal_strlit("i want to go back");
            reveal_strlit("he is watching!");
            reveal_strlit("It's time to go home");
            reveal_strlit("It's funny!");
        }
        Ok(AddTextTransformer { fonts, texts })
    }

    /// The phrase at an index, for the rasteriser executing a text draw.
    pub fn text_at(&self, i: usize) -> (r: &'static str)
        requires
            i < self.texts@.len(),
        ensures
            r == self.texts@[i as int],
    {
        self.texts[i]
    }

    /// One placement round: picks a random font, phrase and placement style
    /// and emits one legally placed draw, or that draw plus its marching
    /// repeats.
    fn emit_round(&self, cw: u32, ch: u32) -> (ops: Vec<RasterOp>)
        requires
            self.wf(),
        ensures
            round_valid(*self, ops@, cw, ch),
    {
        let font_i = random_usize_inclusive(0, self.fonts.len() - 1);
        let text_i = random_usize_inclusive(0, self.texts.len() - 1);
        let font = &self.fonts[font_i];
        let text = self.texts[text_i];
        match get_random_placement_style() {
            PlacementStyle::Single => {
                let op = draw_random_text(font_i, text_i, font, text, cw, ch);
                let mut ops: Vec<RasterOp> = Vec::new();
                ops.push(RasterOp::Text(op));
                proof {
                    assert(self.fonts@[font_i as int] == *font);
                    assert(self.texts@[text_i as int] == text);
                    assert(ops@[0]->Text_0 == op);
                }
                ops
            },
            PlacementStyle::Repeated { times, direction } => {
                let drawn = apply_repeated_text(
                    font_i,
                    text_i,
                    font,
                    text,
                    cw,
                    ch,
                    times,
                    direction,
                );
                let mut ops: Vec<RasterOp> = Vec::new();
                let mut j: usize = 0;
                while j < drawn.len()
                    invariant
                        j <= drawn@.len(),
                        ops@.len() == j,
                        forall|k: int|
                            0 <= k < j ==> #[trigger] ops@[k] is Text && ops@[k]->Text_0
                                == drawn@[k],
                    decreases drawn@.len() - j,
                {
                    ops.push(RasterOp::Text(drawn[j]));
                    j = j + 1;
                }
                proof {
                    assert(self.fonts@[font_i as int] == *font);
                    assert(self.texts@[text_i as int] == text);
                    assert forall|k: int| #![trigger ops@[k]] 0 <= k < ops@.len() implies ops@[k]
                        is Text && text_op_valid(ops@[k]->Text_0, *self) && ops@[k]->Text_0.font
                        == ops@[0]->Text_0.font && ops@[k]->Text_0.text == ops@[0]->Text_0.text
                        && ops@[k]->Text_0.scale == ops@[0]->Text_0.scale && ops@[k]->Text_0.color
                        == ops@[0]->Text_0.color by {
                        assert(ops@[k]->Text_0 == drawn@[k]);
                        assert(drawn@[k].font == font_i && drawn@[k].text == text_i && drawn@[
                        k].scale == drawn@[0].scale && drawn@[k].color == drawn@[0].color);
                    }
                    assert(drawn@[1].x == drawn@[0].x + repeat_dx(direction) && drawn@[1].y
                        == drawn@[0].y + repeat_dy(direction, drawn@[0].scale as int));
                    assert(repeat_dx(direction) == -10 || repeat_dx(direction) == 0 || repeat_dx(
                        direction,
                    ) == 10);
                    assert forall|k: int|
                        #![trigger ops@[k]]
                        0 <= k < ops@.len() - 1 implies ops@[k + 1]->Text_0.x == ops@[k]->Text_0.x
                        + repeat_dx(direction) && ops@[k + 1]->Text_0.y == ops@[k]->Text_0.y
                        + repeat_dy(direction, ops@[0]->Text_0.scale as int) by {
                        assert(ops@[k]->Text_0 == drawn@[k] && ops@[k + 1]->Text_0 == drawn@[k
                            + 1]);
                        assert(drawn@[k + 1].x == drawn@[k].x + repeat_dx(direction) && drawn@[k
                            + 1].y == drawn@[k].y + repeat_dy(direction, drawn@[0].scale as int));
                    }
                }
                ops
            },
        }
    }

}

impl ImageTransformation for AddTextTransformer {
    /// The construction-time invariant of the step.
    open spec fn ok(&self) -> bool {
        self.wf()
    }

    /// The canvas pixels are untouched — the geometry travels in the
    /// operations.  The emitted draws form one or two placement rounds: each
    /// round starts with a legally placed draw of one font and phrase of the
    /// step and, when repeated, marches by one direction's fixed offsets.
    open spec fn post(&self, pre: Canvas, cur: Canvas, ops: Seq<RasterOp>) -> bool {
        &&& cur == pre
        &&& 1 <= ops.len() <= 10
        &&& forall|k: int|
            0 <= k < ops.len() ==> #[trigger] ops[k] is Text && text_op_valid(
                ops[k]->Text_0,
                *self,
            )
        &&& (round_valid(*self, ops, pre.spec_width(), pre.spec_height()) || exists|m: int|
            0 < m < ops.len() && round_valid(
                *self,
                #[trigger] ops.subrange(0, m),
                pre.spec_width(),
                pre.spec_height(),
            ) && round_valid(
                *self,
                ops.subrange(m, ops.len() as int),
                pre.spec_width(),
                pre.spec_height(),
            ))
    }

    /// Performs one to two independent placement rounds; each picks a random
    /// font and phrase and a placement style, and emits one draw (single
    /// style) or an initial draw plus its marching repeats.
    fn transform(&self, image: &mut Canvas) -> (ops: Vec<RasterOp>) {
        let rounds = random_u32_inclusive(1, 2);
        let cw = image.width();
        let ch = image.height();
        let mut ops = self.emit_round(cw, ch);
        if rounds == 2 {
            let ghost first = ops@;
            let second = self.emit_round(cw, ch);
            let mut j: usize = 0;
            proof {
                assert(first + second@.subrange(0, 0) =~= first);
            }
            while j < second.len()
                invariant
                    j <= second@.len(),
                    ops@ == first + second@.subrange(0, j as int),
                decreases second@.len() - j,
            {
                ops.push(second[j]);
                proof {
                    assert(first + second@.subrange(0, j as int + 1) =~= (first
                        + second@.subrange(0, j as int)).push(second@[j as int]));
                }
                j = j + 1;
            }
            proof {
                let m = first.len() as int;
                assert(second@.subrange(0, second@.len() as int) =~= second@);
                assert(ops@.subrange(0, m) =~= first);
                assert(ops@.subrange(m, ops@.len() as int) =~= second@);
                assert forall|k: int| 0 <= k < ops@.len() implies #[trigger] ops@[k] is Text
                    && text_op_valid(ops@[k]->Text_0, *self) by {
                    if k < m {
                        assert(ops@[k] == first[k]);
                    } else {
                        assert(ops@[k] == second@[k - m]);
                    }
                }
            }
        }
        ops
    }
}

} // verus!
