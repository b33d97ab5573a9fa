use dreamcore_image_processor::canvas::{Canvas, Px};
use dreamcore_image_processor::transformation::compression_artifact;
use dreamcore_image_processor::transformation::distortion;
use dreamcore_image_processor::transformation::eyes::{Dims, Eyeball, Eyeballs};
use dreamcore_image_processor::transformation::text::AddTextTransformer;
use dreamcore_image_processor::transformation::{
    ConfigError, ImageTransformation, Pipeline, RasterOp, Step, StickerSource,
};
use dreamcore_image_processor::layout::FontMetrics;
use dreamcore_image_processor::crop_and_resize;

fn solid(width: u32, height: u32, px: Px) -> Canvas {
    Canvas::filled(width, height, px)
}

const BASE: Px = Px { r: 40, g: 90, b: 200, a: 255 };

#[test]
fn canvas_from_rgba8_checks_length() {
    assert!(Canvas::from_rgba8(2, 2, vec![0u8; 16]).is_some());
    assert!(Canvas::from_rgba8(2, 2, vec![0u8; 15]).is_none());
    assert!(Canvas::from_rgba8(2, 2, vec![0u8; 17]).is_none());
}

#[test]
fn canvas_pixel_roundtrip() {
    let mut c = solid(3, 2, BASE);
    assert_eq!(c.get_pixel(2, 1), BASE);
    let red = Px { r: 255, g: 0, b: 0, a: 128 };
    c.put_pixel(1, 0, red);
    assert_eq!(c.get_pixel(1, 0), red);
    assert_eq!(c.get_pixel(0, 0), BASE);
    assert_eq!(c.get_pixel(2, 1), BASE);
}

#[test]
fn distort_channel_exact_values() {
    assert_eq!(distortion::distort_channel(100, 10, 2), 120);
    assert_eq!(distortion::distort_channel(250, 10, 1), 255);
    assert_eq!(distortion::distort_channel(5, -10, 1), 0);
    assert_eq!(distortion::distort_channel(100, -15, 0), 100);
    assert_eq!(distortion::distort_channel(0, -15, 7), 0);
    assert_eq!(distortion::distort_channel(255, 15, 1000000), 255);
}

#[test]
fn distortion_order_sensitive() {
    // The same two noise draws applied in opposite orders give different
    // channels once clamping has bitten: order of steps matters.
    let a = distortion::distort_channel(distortion::distort_channel(250, 10, 1), -10, 1);
    let b = distortion::distort_channel(distortion::distort_channel(250, -10, 1), 10, 1);
    assert_eq!(a, 245);
    assert_eq!(b, 250);
    assert_ne!(a, b);
}

#[test]
fn zero_intensity_distortion_is_identity() {
    let mut c = solid(512, 512, BASE);
    let before = c.as_bytes().clone();
    let step = compression_artifact::Distortion::new(0);
    let ops = step.transform(&mut c);
    assert!(ops.is_empty());
    assert_eq!(c.width(), 512);
    assert_eq!(c.height(), 512);
    assert_eq!(c.as_bytes(), &before);
}

#[test]
fn zero_range_distortion_is_identity() {
    let mut c = solid(64, 64, BASE);
    let before = c.as_bytes().clone();
    let step = distortion::Distortion::new(0, 0);
    let ops = step.transform(&mut c);
    assert!(ops.is_empty());
    assert_eq!(c.as_bytes(), &before);
}

#[test]
fn distortion_preserves_alpha_and_dimensions() {
    let mut c = solid(33, 33, BASE);
    let step = compression_artifact::Distortion::new(5);
    let ops = step.transform(&mut c);
    assert!(ops.is_empty());
    assert_eq!(c.width(), 33);
    assert_eq!(c.height(), 33);
    let bytes = c.as_bytes();
    for p in 0..(33 * 33) {
        assert_eq!(bytes[4 * p + 3], BASE.a);
    }
}

#[test]
fn distortion_moves_channels_at_most_scaled_offset() {
    let mut c = solid(16, 16, BASE);
    let step = compression_artifact::Distortion::new(2);
    step.transform(&mut c);
    let bytes = c.as_bytes();
    for p in 0..(16 * 16) {
        let dr = (bytes[4 * p] as i32 - BASE.r as i32).abs();
        let dg = (bytes[4 * p + 1] as i32 - BASE.g as i32).abs();
        let db = (bytes[4 * p + 2] as i32 - BASE.b as i32).abs();
        assert!(dr <= 30 && dg <= 30 && db <= 30);
    }
}

#[test]
fn empty_pipeline_is_identity() {
    let mut c = solid(512, 512, BASE);
    let before = c.as_bytes().clone();
    let p = Pipeline::default();
    assert_eq!(p.len(), 0);
    for i in 0..p.len() {
        let _ = p.apply_step(i, &mut c);
    }
    assert_eq!(c.width(), 512);
    assert_eq!(c.height(), 512);
    assert_eq!(c.as_bytes(), &before);
}

#[test]
fn pipeline_with_zero_distortion_is_identity() {
    let mut c = solid(512, 512, BASE);
    let before = c.as_bytes().clone();
    let p = Pipeline::default().add(Step::Artifact(compression_artifact::Distortion::new(0)));
    assert_eq!(p.len(), 1);
    for i in 0..p.len() {
        let ops = p.apply_step(i, &mut c);
        assert!(ops.is_empty());
    }
    assert_eq!(c.width(), 512);
    assert_eq!(c.height(), 512);
    assert_eq!(c.as_bytes(), &before);
}

#[test]
fn pipeline_steps_keep_dimensions() {
    let balls = vec![Dims { width: 64, height: 64 }];
    let eyes = Eyeballs::new(Eyeball::SimpleEye, 1, 3, balls, None).unwrap();
    let p = Pipeline::default()
        .add(Step::Noise(distortion::Distortion::new(1, 3)))
        .add(Step::Eyes(eyes));
    let mut c = solid(128, 128, BASE);
    for i in 0..p.len() {
        let _ = p.apply_step(i, &mut c);
        assert_eq!(c.width(), 128);
        assert_eq!(c.height(), 128);
    }
}

#[test]
fn eyeballs_empty_ball_pool_fails_construction() {
    let r = Eyeballs::new(Eyeball::SimpleEye, 1, 3, vec![], None);
    assert!(matches!(r, Err(ConfigError::EmptyEyeballPool)));
}

#[test]
fn eyeballs_wing_mode_without_wing_pool_fails_construction() {
    let balls = vec![Dims { width: 10, height: 10 }];
    let r = Eyeballs::new(Eyeball::EyeWithWings, 0, 2, balls.clone(), None);
    assert!(matches!(r, Err(ConfigError::EmptyWingPool)));
    let r = Eyeballs::new(Eyeball::EyeWithWings, 0, 2, balls, Some(vec![]));
    assert!(matches!(r, Err(ConfigError::EmptyWingPool)));
}

#[test]
fn eyeballs_zero_count_is_identity() {
    let balls = vec![Dims { width: 10, height: 10 }];
    let step = Eyeballs::new(Eyeball::SimpleEye, 0, 0, balls, None).unwrap();
    let mut c = solid(512, 512, BASE);
    let before = c.as_bytes().clone();
    let ops = step.transform(&mut c);
    assert!(ops.is_empty());
    assert_eq!(c.as_bytes(), &before);
}

#[test]
fn eyeballs_empty_range_is_identity() {
    let balls = vec![Dims { width: 10, height: 10 }];
    let step = Eyeballs::new(Eyeball::SimpleEye, 3, 1, balls, None).unwrap();
    let mut c = solid(64, 64, BASE);
    let before = c.as_bytes().clone();
    let ops = step.transform(&mut c);
    assert!(ops.is_empty());
    assert_eq!(c.as_bytes(), &before);
}

#[test]
fn simple_eye_composite_geometry() {
    let balls = vec![Dims { width: 100, height: 50 }];
    let step = Eyeballs::new(Eyeball::SimpleEye, 1, 1, balls, None).unwrap();
    let mut c = solid(512, 512, BASE);
    let ops = step.transform(&mut c);
    assert_eq!(ops.len(), 1);
    match &ops[0] {
        RasterOp::Sticker(op) => {
            assert_eq!(op.source, StickerSource::Ball(0));
            // The larger source dimension (the width) becomes 20 per cent of
            // the canvas width; the height follows the aspect ratio.
            assert_eq!(op.base_w, 102);
            assert_eq!(op.base_h, 51);
            assert!((90..=120).contains(&op.factor_pct));
            assert_eq!(op.scaled_w, op.base_w * op.factor_pct / 100);
            assert_eq!(op.scaled_h, op.base_h * op.factor_pct / 100);
            assert!((-40..=40).contains(&op.angle_deg));
            assert!(op.x + op.scaled_w <= 512);
            assert!(op.y + op.scaled_h <= 512);
        }
        RasterOp::Text(_) => panic!("an eyeball step emitted a text draw"),
    }
}

#[test]
fn tall_sticker_anchors_its_height() {
    // A sticker taller than wide anchors its height to 20 per cent of the
    // canvas height; the width follows the aspect ratio, so the whole box
    // fits however skewed the source is.
    let balls = vec![Dims { width: 50, height: 100 }];
    let step = Eyeballs::new(Eyeball::SimpleEye, 1, 1, balls, None).unwrap();
    let mut c = solid(512, 512, BASE);
    let ops = step.transform(&mut c);
    assert_eq!(ops.len(), 1);
    match &ops[0] {
        RasterOp::Sticker(op) => {
            assert_eq!(op.base_h, 102);
            assert_eq!(op.base_w, 51);
            assert!(op.x + op.scaled_w <= 512);
            assert!(op.y + op.scaled_h <= 512);
        }
        RasterOp::Text(_) => panic!("an eyeball step emitted a text draw"),
    }
}

#[test]
fn extreme_aspect_sticker_stays_on_canvas() {
    // The input the width-anchored rule would push off the canvas: a 100x300
    // source on a 100x100 canvas must come out with its larger dimension at
    // 20, not 60.
    let balls = vec![Dims { width: 100, height: 300 }];
    let step = Eyeballs::new(Eyeball::SimpleEye, 1, 1, balls, None).unwrap();
    let mut c = solid(100, 100, BASE);
    let ops = step.transform(&mut c);
    assert_eq!(ops.len(), 1);
    match &ops[0] {
        RasterOp::Sticker(op) => {
            assert_eq!(op.base_h, 20);
            assert_eq!(op.base_w, 6);
            assert!(op.x + op.scaled_w <= 100);
            assert!(op.y + op.scaled_h <= 100);
        }
        RasterOp::Text(_) => panic!("an eyeball step emitted a text draw"),
    }
}

#[test]
fn winged_eye_composites_come_in_centred_pairs() {
    let balls = vec![Dims { width: 80, height: 80 }];
    let wings = vec![Dims { width: 200, height: 100 }];
    let step = Eyeballs::new(Eyeball::EyeWithWings, 2, 2, balls, Some(wings)).unwrap();
    let mut c = solid(512, 512, BASE);
    let ops = step.transform(&mut c);
    assert_eq!(ops.len(), 4);
    for pair in ops.chunks(2) {
        let (wing, ball) = match (&pair[0], &pair[1]) {
            (RasterOp::Sticker(w), RasterOp::Sticker(b)) => (w, b),
            _ => panic!("an eyeball step emitted a text draw"),
        };
        assert_eq!(wing.source, StickerSource::Wing(0));
        assert_eq!(wing.angle_deg, 0);
        assert_eq!(wing.base_w, 512 * 30 / 100);
        assert!((90..=120).contains(&wing.factor_pct));
        assert!(wing.x + wing.scaled_w <= 512);
        assert!(wing.y + wing.scaled_h <= 512);
        assert_eq!(ball.source, StickerSource::Ball(0));
        assert!((50..=80).contains(&ball.factor_pct));
        assert!((-10..=10).contains(&ball.angle_deg));
        assert_eq!(
            ball.x,
            wing.x + (wing.scaled_w / 2).saturating_sub(ball.scaled_w / 2)
        );
        assert_eq!(
            ball.y,
            wing.y + (wing.scaled_h / 2).saturating_sub(ball.scaled_h / 2)
        );
    }
}

fn tiny_font() -> FontMetrics {
    FontMetrics {
        units_per_em: 100,
        ascent: 80,
        descent: 20,
        line_gap: 0,
        default_advance: 50,
        glyphs: vec![],
        kerns: vec![],
    }
}

#[test]
fn text_transformer_requires_fonts() {
    let r = AddTextTransformer::new(vec![]);
    assert!(matches!(r, Err(ConfigError::EmptyFontPool)));
}

#[test]
fn text_transformer_rejects_degenerate_metrics() {
    let mut bad = tiny_font();
    bad.units_per_em = 0;
    let r = AddTextTransformer::new(vec![bad]);
    assert!(matches!(r, Err(ConfigError::InvalidFontMetrics)));
}

#[test]
fn text_transformer_emits_valid_draws() {
    let step = AddTextTransformer::new(vec![tiny_font()]).unwrap();
    assert_eq!(step.texts.len(), 12);
    let mut c = solid(256, 256, BASE);
    let before = c.as_bytes().clone();
    let ops = step.transform(&mut c);
    assert_eq!(c.as_bytes(), &before);
    assert!(!ops.is_empty() && ops.len() <= 10);
    for op in &ops {
        match op {
            RasterOp::Text(t) => {
                assert_eq!(t.font, 0);
                assert!(t.text < 12);
                assert!((28..=33).contains(&t.scale));
                assert!((200..=254).contains(&t.color.r));
                assert!(t.color.g <= 29);
                assert_eq!(t.color.b, 0);
                assert!((200..=254).contains(&t.color.a));
            }
            RasterOp::Sticker(_) => panic!("a text step emitted a sticker composite"),
        }
    }
}

#[test]
fn crop_and_resize_squares_the_image() {
    let mut wide = solid(100, 50, BASE);
    crop_and_resize(&mut wide, 64);
    assert_eq!(wide.width(), 64);
    assert_eq!(wide.height(), 64);
    assert_eq!(wide.as_bytes().len(), 4 * 64 * 64);

    let mut tall = solid(30, 90, BASE);
    crop_and_resize(&mut tall, 128);
    assert_eq!(tall.width(), 128);
    assert_eq!(tall.height(), 128);

    let mut square = solid(512, 512, BASE);
    crop_and_resize(&mut square, 512);
    assert_eq!(square.width(), 512);
    assert_eq!(square.height(), 512);
}
