use dreamcore_image_processor::layout::{FontMetrics, Glyph, GlyphMetric, KernPair};
use dreamcore_image_processor::layout_paragraph;

// A font in 100-unit em squares so that a scale of 100 pixels maps font
// units one to one: 'a' advances 100, 'b' advances 200, every other
// character 50, and 'b' kerns 50 units back against a preceding 'a'.
fn tiny_font() -> FontMetrics {
    FontMetrics {
        units_per_em: 100,
        ascent: 80,
        descent: 20,
        line_gap: 0,
        default_advance: 50,
        glyphs: vec![
            GlyphMetric { ch: 'a', advance: 100 },
            GlyphMetric { ch: 'b', advance: 200 },
        ],
        kerns: vec![KernPair { left: 'a', right: 'b', kern: -50 }],
    }
}

fn layout(text: &str, max_width: i64) -> Vec<Glyph> {
    let font = tiny_font();
    let mut target = Vec::new();
    layout_paragraph(&font, 100, 0, 0, max_width, text, &mut target);
    target
}

#[test]
fn layout_applies_advances_and_kerning() {
    let glyphs = layout("ab", 1000);
    assert_eq!(
        glyphs,
        vec![
            Glyph { ch: 'a', x: 0, y: 80 },
            Glyph { ch: 'b', x: 50, y: 80 },
        ]
    );
}

#[test]
fn layout_wraps_at_max_width() {
    // The caret starts a new line (one line height of 100 further down) as
    // soon as a placed non-whitespace glyph overruns the wrap width; the
    // wrapped glyph moves to the line start without advancing the caret, so
    // the glyph after it opens from the same spot.
    let glyphs = layout("aaa", 150);
    assert_eq!(
        glyphs,
        vec![
            Glyph { ch: 'a', x: 0, y: 80 },
            Glyph { ch: 'a', x: 0, y: 180 },
            Glyph { ch: 'a', x: 0, y: 180 },
        ]
    );
}

#[test]
fn layout_newline_resets_the_caret() {
    let glyphs = layout("a\nb", 1000);
    assert_eq!(
        glyphs,
        vec![
            Glyph { ch: 'a', x: 0, y: 80 },
            Glyph { ch: 'b', x: 0, y: 180 },
        ]
    );
}

#[test]
fn layout_skips_other_control_characters() {
    // A bell is skipped without consuming a glyph slot, advancing the
    // caret, or breaking the kerning pair around it.
    let glyphs = layout("a\u{7}b", 1000);
    assert_eq!(
        glyphs,
        vec![
            Glyph { ch: 'a', x: 0, y: 80 },
            Glyph { ch: 'b', x: 50, y: 80 },
        ]
    );
}

#[test]
fn layout_whitespace_never_wraps() {
    let glyphs = layout("a b", 1000);
    assert_eq!(
        glyphs,
        vec![
            Glyph { ch: 'a', x: 0, y: 80 },
            Glyph { ch: ' ', x: 100, y: 80 },
            Glyph { ch: 'b', x: 150, y: 80 },
        ]
    );
}

#[test]
fn layout_empty_text_emits_nothing() {
    assert!(layout("", 1000).is_empty());
}

#[test]
fn layout_positions_monotone_within_lines() {
    let glyphs = layout("bab abba ab", 420);
    for pair in glyphs.windows(2) {
        assert!(pair[0].y <= pair[1].y);
        if pair[1].y == pair[0].y {
            assert!(pair[0].x <= pair[1].x);
        } else {
            assert_eq!(pair[1].x, 0);
        }
    }
}

#[test]
fn layout_respects_starting_position() {
    let font = tiny_font();
    let mut target = Vec::new();
    layout_paragraph(&font, 100, 30, 10, 1000, "a", &mut target);
    assert_eq!(target, vec![Glyph { ch: 'a', x: 30, y: 90 }]);
}

#[test]
fn layout_appends_after_existing_glyphs() {
    let font = tiny_font();
    let sentinel = Glyph { ch: 'z', x: -7, y: -9 };
    let mut target = vec![sentinel];
    layout_paragraph(&font, 100, 0, 0, 1000, "a", &mut target);
    assert_eq!(target.len(), 2);
    assert_eq!(target[0], sentinel);
    assert_eq!(target[1], Glyph { ch: 'a', x: 0, y: 80 });
}

#[test]
fn layout_halves_metrics_at_half_scale() {
    let font = tiny_font();
    let mut target = Vec::new();
    layout_paragraph(&font, 50, 0, 0, 1000, "ab", &mut target);
    assert_eq!(
        target,
        vec![
            Glyph { ch: 'a', x: 0, y: 40 },
            Glyph { ch: 'b', x: 25, y: 40 },
        ]
    );
}
