//! The glyph layout engine: turns a phrase and a scaled font metric into a
//! sequence of positioned glyphs, wrapping lines at a maximum width.  Fonts
//! are modelled by integer metric tables in font units; a metric scaled to
//! pixels is `metric * scale / units_per_em`.

use vstd::prelude::*;

verus! {

/// The largest font-unit metric the layout engine accepts.
pub const FONT_METRIC_LIMIT: u32 = 65536;

/// The largest pixel scale the layout engine accepts.
pub const SCALE_LIMIT: u32 = 65536;

/// The longest text the layout engine accepts.
pub const TEXT_LIMIT: usize = 100000;

/// The largest magnitude of a starting position or maximum width.
pub const POS_LIMIT: i64 = 0x100_0000_0000;

/// The advance width of one character, in font units.
#[derive(Clone, Copy, PartialEq, Eq, Structural, Debug)]
pub struct GlyphMetric {
    pub ch: char,
    pub advance: u32,
}

/// The kerning adjustment applied between a pair of adjacent characters, in
/// font units.
#[derive(Clone, Copy, PartialEq, Eq, Structural, Debug)]
pub struct KernPair {
    pub left: char,
    pub right: char,
    pub kern: i32,
}

/// An integer model of one parsed font: vertical metrics, per-character
/// advance widths and kerning, all in font units relative to `units_per_em`.
pub struct FontMetrics {
    pub units_per_em: u32,
    pub ascent: u32,
    pub descent: u32,
    pub line_gap: u32,
    pub default_advance: u32,
    pub glyphs: Vec<GlyphMetric>,
    pub kerns: Vec<KernPair>,
}

/// One positioned glyph: a character and the pixel position of its origin
/// (`x` ascends left to right, `y` top to bottom).
#[derive(Clone, Copy, PartialEq, Eq, Structural, Debug)]
pub struct Glyph {
    pub ch: char,
    pub x: i64,
    pub y: i64,
}

impl FontMetrics {
    /// Every metric of the table lies in the range the layout engine's
    /// arithmetic accepts.
    pub open spec fn wf(&self) -> bool {
        &&& 1 <= self.units_per_em
        &&& self.ascent <= FONT_METRIC_LIMIT
        &&& self.descent <= FONT_METRIC_LIMIT
        &&& self.line_gap <= FONT_METRIC_LIMIT
        &&& self.default_advance <= FONT_METRIC_LIMIT
        &&& forall|k: int|
            0 <= k < self.glyphs@.len() ==> #[trigger] self.glyphs@[k].advance <= FONT_METRIC_LIMIT
        &&& forall|k: int|
            0 <= k < self.kerns@.len() ==> -(FONT_METRIC_LIMIT as int) <= #[trigger] self.kerns@[
                k
            ].kern <= FONT_METRIC_LIMIT
    }

    /// Checks the construction-time invariant of the metric table.
    pub fn is_well_formed(&self) -> (b: bool)
        ensures
            b == self.wf(),
    {
        if self.units_per_em < 1 || self.ascent > FONT_METRIC_LIMIT || self.descent
            > FONT_METRIC_LIMIT || self.line_gap > FONT_METRIC_LIMIT || self.default_advance
            > FONT_METRIC_LIMIT {
            return false;
        }
        let mut k: usize = 0;
        while k < self.glyphs.len()
            invariant
                k <= self.glyphs@.len(),
                forall|j: int|
                    0 <= j < k ==> #[trigger] self.glyphs@[j].advance <= FONT_METRIC_LIMIT,
            decreases self.glyphs@.len() - k,
        {
            if self.glyphs[k].advance > FONT_METRIC_LIMIT {
                return false;
            }
            k = k + 1;
        }
        let mut k: usize = 0;
        while k < self.kerns.len()
            invariant
                k <= self.kerns@.len(),
                forall|j: int|
                    0 <= j < k ==> -(FONT_METRIC_LIMIT as int) <= #[trigger] self.kerns@[j].kern
                        <= FONT_METRIC_LIMIT,
            decreases self.kerns@.len() - k,
        {
            if self.kerns[k].kern > FONT_METRIC_LIMIT as i32 || self.kerns[k].kern < -(
            FONT_METRIC_LIMIT as i32) {
                return false;
            }
            k = k + 1;
        }
        true
    }
}

/// A control character: the C0 or C1 range.
pub open spec fn is_ctrl_char(c: char) -> bool {
    (c as u32) < 32 || (127 <= (c as u32) && (c as u32) < 160)
}

fn is_ctrl(c: char) -> (b: bool)
    ensures
        b == is_ctrl_char(c),
{
    let u = c as u32;
    u < 32 || (127 <= u && u < 160)
}

/// A whitespace character: the characters with the Unicode `White_Space`
/// property.
pub open spec fn is_space_char(c: char) -> bool {
    c == ' ' || c == '\t' || c == '\n' || c == '\u{0B}' || c == '\u{0C}' || c == '\r' || c
        == '\u{85}' || c == '\u{A0}' || c == '\u{1680}' || c == '\u{2000}' || c == '\u{2001}' || c
        == '\u{2002}' || c == '\u{2003}' || c == '\u{2004}' || c == '\u{2005}' || c == '\u{2006}'
        || c == '\u{2007}' || c == '\u{2008}' || c == '\u{2009}' || c == '\u{200A}' || c
        == '\u{2028}' || c == '\u{2029}' || c == '\u{202F}' || c == '\u{205F}' || c == '\u{3000}'
}

fn is_space(c: char) -> (b: bool)
    ensures
        b == is_space_char(c),
{
    c == ' ' || c == '\t' || c == '\n' || c == '\u{0B}' || c == '\u{0C}' || c == '\r' || c
        == '\u{85}' || c == '\u{A0}' || c == '\u{1680}' || c == '\u{2000}' || c == '\u{2001}' || c
        == '\u{2002}' || c == '\u{2003}' || c == '\u{2004}' || c == '\u{2005}' || c == '\u{2006}'
        || c == '\u{2007}' || c == '\u{2008}' || c == '\u{2009}' || c == '\u{200A}' || c
        == '\u{2028}' || c == '\u{2029}' || c == '\u{202F}' || c == '\u{205F}' || c == '\u{3000}'
}

/// The advance width of `c` in font units: the first matching table entry,
/// or the font's default.
pub open spec fn advance_units(glyphs: Seq<GlyphMetric>, default: u32, c: char) -> u32
    decreases glyphs.len(),
{
    if glyphs.len() == 0 {
        default
    } else if glyphs[0].ch == c {
        glyphs[0].advance
    } else {
        advance_units(glyphs.drop_first(), default, c)
    }
}

/// The kerning between `l` and `r` in font units: the first matching table
/// entry, or zero.
pub open spec fn kern_units(kerns: Seq<KernPair>, l: char, r: char) -> i32
    decreases kerns.len(),
{
    if kerns.len() == 0 {
        0
    } else if kerns[0].left == l && kerns[0].right == r {
        kerns[0].kern
    } else {
        kern_units(kerns.drop_first(), l, r)
    }
}

/// A non-negative font-unit length scaled to pixels.
pub open spec fn scaled_len(v: int, scale: int, upm: int) -> int {
    v * scale / upm
}

/// A signed font-unit length scaled to pixels, truncating toward zero.
pub open spec fn scaled_kern(v: int, scale: int, upm: int) -> int {
    if v >= 0 {
        v * scale / upm
    } else {
        -((-v) * scale / upm)
    }
}

/// The pixel advance of `c` under a font and scale.
pub open spec fn sp_advance(f: FontMetrics, scale: int, c: char) -> int {
    scaled_len(advance_units(f.glyphs@, f.default_advance, c) as int, scale, f.units_per_em as int)
}

/// The pixel kerning between `l` and `r` under a font and scale.
pub open spec fn sp_kern(f: FontMetrics, scale: int, l: char, r: char) -> int {
    scaled_kern(kern_units(f.kerns@, l, r) as int, scale, f.units_per_em as int)
}

/// The pixel ascent of a font at a scale.
pub open spec fn sp_ascent(f: FontMetrics, scale: int) -> int {
    scaled_len(f.ascent as int, scale, f.units_per_em as int)
}

/// The pixel line height of a font at a scale: ascent, descent and line gap.
pub open spec fn sp_v_advance(f: FontMetrics, scale: int) -> int {
    scaled_len((f.ascent + f.descent + f.line_gap) as int, scale, f.units_per_em as int)
}

/// Every adjacent pair of characters moves the caret forward: the advance of
/// the left character dominates any negative kerning.  This holds of real
/// text faces and is what makes glyph positions monotone within a line.
pub open spec fn pairs_monotone(f: FontMetrics, scale: int) -> bool {
    forall|l: char, r: char| sp_advance(f, scale, l) + #[trigger] sp_kern(f, scale, l, r) >= 0
}

/// The glyphs laid out for `text` starting from caret `(cx, cy)` with
/// `last` the previous glyph's character (kerning applies against it): each
/// character advances the caret by its advance plus kerning; a newline
/// resets the caret to the line start one line height down; a non-
/// whitespace character whose placement would overrun `pos_x + max_w` wraps
/// first and sits at the new line start; other control characters are
/// skipped.
pub open spec fn spec_layout(
    f: FontMetrics,
    scale: int,
    pos_x: int,
    max_w: int,
    cx: int,
    cy: int,
    last: Option<char>,
    text: Seq<char>,
) -> Seq<(char, int, int)>
    decreases text.len(),
{
    if text.len() == 0 {
        Seq::empty()
    } else {
        let c = text[0];
        let rest = text.drop_first();
        if is_ctrl_char(c) {
            if c == '\n' {
                spec_layout(f, scale, pos_x, max_w, pos_x, cy + sp_v_advance(f, scale), None, rest)
            } else {
                spec_layout(f, scale, pos_x, max_w, cx, cy, last, rest)
            }
        } else {
            let kx = match last {
                Some(p) => sp_kern(f, scale, p, c),
                None => 0,
            };
            let gx = cx + kx;
            let after = gx + sp_advance(f, scale, c);
            if !is_space_char(c) && after > pos_x + max_w {
                seq![(c, pos_x, cy + sp_v_advance(f, scale))] + spec_layout(
                    f,
                    scale,
                    pos_x,
                    max_w,
                    pos_x,
                    cy + sp_v_advance(f, scale),
                    None,
                    rest,
                )
            } else {
                seq![(c, gx, cy)] + spec_layout(f, scale, pos_x, max_w, after, cy, Some(c), rest)
            }
        }
    }
}

/// The glyphs of `text` laid out from origin `(pos_x, pos_y)`: the caret
/// starts one ascent below the origin with no previous glyph.
pub open spec fn spec_layout_from(
    f: FontMetrics,
    scale: int,
    pos_x: int,
    pos_y: int,
    max_w: int,
    text: Seq<char>,
) -> Seq<(char, int, int)> {
    spec_layout(f, scale, pos_x, max_w, pos_x, pos_y + sp_ascent(f, scale), None, text)
}

/// A non-negative font-unit length scaled to pixels, with its range.
fn scale_len_px(v: u32, scale: u32, upm: u32) -> (r: i64)
    requires
        1 <= upm,
        v <= 3 * FONT_METRIC_LIMIT,
        scale <= SCALE_LIMIT,
    ensures
        r == scaled_len(v as int, scale as int, upm as int),
        0 <= r <= 0xC_0000_0000,
{
    proof {
        vstd::arithmetic::mul::lemma_mul_upper_bound(v as int, 3 * 65536int, scale as int, 65536int);
        vstd::arithmetic::mul::lemma_mul_nonnegative(v as int, scale as int);
        vstd::arithmetic::div_mod::lemma_div_pos_is_pos((v as int) * (scale as int), upm as int);
        vstd::arithmetic::div_mod::lemma_div_nonincreasing((v as int) * (scale as int), upm as int);
    }
    (((v as u64) * (scale as u64)) / (upm as u64)) as i64
}

/// A signed font-unit length scaled to pixels, truncating toward zero.
fn scale_kern_px(v: i32, scale: u32, upm: u32) -> (r: i64)
    requires
        1 <= upm,
        -(FONT_METRIC_LIMIT as i32) <= v <= FONT_METRIC_LIMIT as i32,
        scale <= SCALE_LIMIT,
    ensures
        r == scaled_kern(v as int, scale as int, upm as int),
        -0x1_0000_0000 <= r <= 0x1_0000_0000,
{
    if v >= 0 {
        proof {
            vstd::arithmetic::mul::lemma_mul_upper_bound(v as int, 65536int, scale as int, 65536int);
            vstd::arithmetic::mul::lemma_mul_nonnegative(v as int, scale as int);
            vstd::arithmetic::div_mod::lemma_div_pos_is_pos((v as int) * (scale as int),
                upm as int);
            vstd::arithmetic::div_mod::lemma_div_nonincreasing((v as int) * (scale as int),
                upm as int);
        }
        (((v as u64) * (scale as u64)) / (upm as u64)) as i64
    } else {
        let m: u32 = (-v) as u32;
        proof {
            vstd::arithmetic::mul::lemma_mul_upper_bound(m as int, 65536int, scale as int, 65536int);
            vstd::arithmetic::mul::lemma_mul_nonnegative(m as int, scale as int);
            vstd::arithmetic::div_mod::lemma_div_pos_is_pos((m as int) * (scale as int),
                upm as int);
            vstd::arithmetic::div_mod::lemma_div_nonincreasing((m as int) * (scale as int),
                upm as int);
        }
        -((((m as u64) * (scale as u64)) / (upm as u64)) as i64)
    }
}

/// The advance width of `c` in font units, looked up in the table.
fn advance_units_of(font: &FontMetrics, c: char) -> (r: u32)
    requires
        font.wf(),
    ensures
        r == advance_units(font.glyphs@, font.default_advance, c),
        r <= FONT_METRIC_LIMIT,
{
    let mut k: usize = 0;
    proof {
        assert(font.glyphs@.skip(0) =~= font.glyphs@);
    }
    while k < font.glyphs.len()
        invariant
            font.wf(),
            k <= font.glyphs@.len(),
            advance_units(font.glyphs@.skip(k as int), font.default_advance, c) == advance_units(
                font.glyphs@,
                font.default_advance,
                c,
            ),
        decreases font.glyphs@.len() - k,
    {
        let g = font.glyphs[k];
        proof {
            assert(font.glyphs@.skip(k as int)[0] == font.glyphs@[k as int]);
            assert(font.glyphs@.skip(k as int).drop_first() =~= font.glyphs@.skip(k as int + 1));
        }
        if g.ch == c {
            return g.advance;
        }
        k = k + 1;
    }
    proof {
        assert(font.glyphs@.skip(k as int).len() == 0);
    }
    font.default_advance
}

/// The kerning between `l` and `r` in font units, looked up in the table.
fn kern_units_of(font: &FontMetrics, l: char, r: char) -> (k: i32)
    requires
        font.wf(),
    ensures
        k == kern_units(font.kerns@, l, r),
        -(FONT_METRIC_LIMIT as i32) <= k <= FONT_METRIC_LIMIT as i32,
{
    let mut i: usize = 0;
    proof {
        assert(font.kerns@.skip(0) =~= font.kerns@);
    }
    while i < font.kerns.len()
        invariant
            font.wf(),
            i <= font.kerns@.len(),
            kern_units(font.kerns@.skip(i as int), l, r) == kern_units(font.kerns@, l, r),
        decreases font.kerns@.len() - i,
    {
        let p = font.kerns[i];
        proof {
            assert(font.kerns@.skip(i as int)[0] == font.kerns@[i as int]);
            assert(font.kerns@.skip(i as int).drop_first() =~= font.kerns@.skip(i as int + 1));
        }
        if p.left == l && p.right == r {
            return p.kern;
        }
        i = i + 1;
    }
    proof {
        assert(font.kerns@.skip(i as int).len() == 0);
    }
    0
}


/// Lays out `text` from origin `(pos_x, pos_y)` with line wrapping at
/// `max_width`, appending one positioned glyph per printable character to
/// `target`.  The appended glyphs are exactly `spec_layout_from` of the
/// inputs; in addition, within one line glyph x-positions never decrease
/// (for a font whose advances dominate its kerning and whose line height is
/// positive), every glyph that opens a new line sits exactly at `pos_x`,
/// and no non-whitespace glyph both starts past `pos_x` and overruns
/// `pos_x + max_width` by its own advance.
#[verifier::rlimit(60)]
pub fn layout_paragraph(
    font: &FontMetrics,
    scale: u32,
    pos_x: i64,
    pos_y: i64,
    max_width: i64,
    text: &str,
    target: &mut Vec<Glyph>,
)
    requires
        font.wf(),
        scale <= SCALE_LIMIT,
        -POS_LIMIT <= pos_x <= POS_LIMIT,
        -POS_LIMIT <= pos_y <= POS_LIMIT,
        -POS_LIMIT <= max_width <= POS_LIMIT,
        text@.len() <= TEXT_LIMIT,
    ensures
        ({
            let laid = spec_layout_from(
                *font,
                scale as int,
                pos_x as int,
                pos_y as int,
                max_width as int,
                text@,
            );
            let base = old(target)@.len() as int;
            &&& final(target)@.len() == old(target)@.len() + laid.len()
            &&& forall|k: int| 0 <= k < base ==> #[trigger] final(target)@[k] == old(target)@[k]
            &&& forall|k: int|
                0 <= k < laid.len() ==> #[trigger] final(target)@[base + k].ch == laid[k].0
                    && final(target)@[base + k].x == laid[k].1 && final(target)@[base + k].y
                    == laid[k].2
            &&& laid.len() > 0 ==> laid[0].1 == pos_x as int
            &&& forall|k: int| 0 <= k < laid.len() - 1 ==> #[trigger] laid[k].2 <= laid[k + 1].2
            &&& forall|k: int|
                0 <= k < laid.len() - 1 && laid[k + 1].2 != laid[k].2 ==> #[trigger] laid[k
                    + 1].1 == pos_x as int
            &&& (sp_v_advance(*font, scale as int) >= 1 && pairs_monotone(*font, scale as int))
                ==> forall|k: int|
                0 <= k < laid.len() - 1 && laid[k + 1].2 == laid[k].2 ==> #[trigger] laid[k].1
                    <= laid[k + 1].1
            &&& forall|k: int|
                0 <= k < laid.len() && !is_space_char(laid[k].0) ==> #[trigger] laid[k].1
                    == pos_x as int || laid[k].1 + sp_advance(*font, scale as int, laid[k].0)
                    <= pos_x as int + max_width as int
            &&& forall|k: int|
                0 <= k < laid.len() ==> -0x20_0000_0000_0000 <= #[trigger] laid[k].1
                    <= 0x20_0000_0000_0000 && -0x20_0000_0000_0000 <= laid[k].2
                    <= 0x20_0000_0000_0000
        }),
{
    let ghost total = spec_layout_from(
        *font,
        scale as int,
        pos_x as int,
        pos_y as int,
        max_width as int,
        text@,
    );
    let ghost base = old(target)@.len() as int;
    let n = text.unicode_len();
    let asc: i64 = scale_len_px(font.ascent, scale, font.units_per_em);
    let vsum: u32 = font.ascent + font.descent + font.line_gap;
    let vadv: i64 = scale_len_px(vsum, scale, font.units_per_em);
    let mut cx: i64 = pos_x;
    let mut cy: i64 = pos_y + asc;
    let mut last: Option<char> = None;
    let ghost mut emitted: Seq<(char, int, int)> = Seq::empty();
    let mut i: usize = 0;
    proof {
        assert(text@.skip(0) =~= text@);
    }
    while i < n
        invariant
            font.wf(),
            scale <= SCALE_LIMIT,
            -POS_LIMIT <= pos_x <= POS_LIMIT,
            -POS_LIMIT <= pos_y <= POS_LIMIT,
            -POS_LIMIT <= max_width <= POS_LIMIT,
            n == text@.len(),
            n <= TEXT_LIMIT,
            i <= n,
            asc == sp_ascent(*font, scale as int),
            0 <= asc <= 0xC_0000_0000,
            vadv == sp_v_advance(*font, scale as int),
            0 <= vadv <= 0xC_0000_0000,
            base == old(target)@.len(),
            total == emitted + spec_layout(
                *font,
                scale as int,
                pos_x as int,
                max_width as int,
                cx as int,
                cy as int,
                last,
                text@.skip(i as int),
            ),
            pos_x - (i as int) * 0x10_0000_0000 <= cx <= pos_x + (i as int) * 0x10_0000_0000,
            pos_y <= cy <= pos_y + 0xC_0000_0000 + (i as int) * 0xC_0000_0000,
            target@.len() == old(target)@.len() + emitted.len(),
            forall|k: int| 0 <= k < base ==> #[trigger] target@[k] == old(target)@[k],
            forall|k: int|
                0 <= k < emitted.len() ==> #[trigger] target@[base + k].ch == emitted[k].0
                    && target@[base + k].x == emitted[k].1 && target@[base + k].y == emitted[k].2,
            last is None ==> cx == pos_x,
            last is Some ==> emitted.len() > 0 && emitted.last().0 == last->0 && emitted.last().2
                == cy as int && cx as int == emitted.last().1 + sp_advance(
                *font,
                scale as int,
                last->0,
            ),
            emitted.len() > 0 ==> emitted.last().2 <= cy as int,
            vadv >= 1 ==> ((last is None && emitted.len() > 0 && emitted.last().2 == cy as int)
                ==> emitted.last().1 == pos_x as int),
            emitted.len() > 0 ==> emitted[0].1 == pos_x as int,
            forall|k: int| 0 <= k < emitted.len() - 1 ==> #[trigger] emitted[k].2 <= emitted[k
                + 1].2,
            forall|k: int|
                0 <= k < emitted.len() - 1 && emitted[k + 1].2 != emitted[k].2
                    ==> #[trigger] emitted[k + 1].1 == pos_x as int,
            (vadv >= 1 && pairs_monotone(*font, scale as int)) ==> forall|k: int|
                0 <= k < emitted.len() - 1 && emitted[k + 1].2 == emitted[k].2
                    ==> #[trigger] emitted[k].1 <= emitted[k + 1].1,
            forall|k: int|
                0 <= k < emitted.len() && !is_space_char(emitted[k].0) ==> #[trigger] emitted[k].1
                    == pos_x as int || emitted[k].1 + sp_advance(*font, scale as int, emitted[k].0)
                    <= pos_x as int + max_width as int,
            forall|k: int|
                0 <= k < emitted.len() ==> -0x20_0000_0000_0000 <= #[trigger] emitted[k].1
                    <= 0x20_0000_0000_0000 && -0x20_0000_0000_0000 <= emitted[k].2
                    <= 0x20_0000_0000_0000,
        decreases n - i,
    {
        let c = text.get_char(i);
        proof {
            assert(text@.skip(i as int)[0] == text@[i as int]);
            assert(text@.skip(i as int).drop_first() =~= text@.skip(i as int + 1));
            vstd::arithmetic::mul::lemma_mul_inequality(i as int, 100000, 0x10_0000_0000);
            vstd::arithmetic::mul::lemma_mul_inequality(i as int, 100000, 0xC_0000_0000);
            vstd::arithmetic::mul::lemma_mul_inequality(i as int + 1, 100000, 0x10_0000_0000);
            vstd::arithmetic::mul::lemma_mul_inequality(i as int + 1, 100000, 0xC_0000_0000);
        }
        if is_ctrl(c) {
            if c == '\n' {
                cx = pos_x;
                cy = cy + vadv;
                last = None;
            }
        } else {
            let au = advance_units_of(font, c);
            let adv: i64 = scale_len_px(au, scale, font.units_per_em);
            proof {
                assert(adv == sp_advance(*font, scale as int, c));
            }
            let kx: i64 = match last {
                Some(p) => {
                    let ku = kern_units_of(font, p, c);
                    let k = scale_kern_px(ku, scale, font.units_per_em);
                    proof {
                        assert(k == sp_kern(*font, scale as int, p, c));
                    }
                    k
                },
                None => 0,
            };
            let gx: i64 = cx + kx;
            let after: i64 = gx + adv;
            if !is_space(c) && after > pos_x + max_width {
                cx = pos_x;
                cy = cy + vadv;
                last = None;
                target.push(Glyph { ch: c, x: cx, y: cy });
                proof {
                    emitted = emitted + seq![(c, pos_x as int, cy as int)];
                }
            } else {
                target.push(Glyph { ch: c, x: gx, y: cy });
                proof {
                    emitted = emitted + seq![(c, gx as int, cy as int)];
                }
                cx = after;
                last = Some(c);
            }
        }
        i = i + 1;
    }
    proof {
        assert(text@.skip(n as int).len() == 0);
        assert(total == emitted);
    }
}


/// The rendered width of `text` at a scale under a wrap width: the last
/// glyph's x-position plus its advance, or zero for no glyphs.
pub open spec fn measured_width(f: FontMetrics, scale: int, max_w: int, text: Seq<char>) -> int {
    let laid = spec_layout_from(f, scale, 0, 0, max_w, text);
    if laid.len() == 0 {
        0
    } else {
        laid.last().1 + sp_advance(f, scale, laid.last().0)
    }
}

/// The pixel advance of one character under a font and scale.
pub fn scale_len_px_of(font: &FontMetrics, scale: u32, c: char) -> (r: i64)
    requires
        font.wf(),
        scale <= SCALE_LIMIT,
    ensures
        r == sp_advance(*font, scale as int, c),
        0 <= r <= 0xC_0000_0000,
{
    let au = advance_units_of(font, c);
    scale_len_px(au, scale, font.units_per_em)
}

} // verus!
