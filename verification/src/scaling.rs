//! Rescaling and cropping of the canvas through the `image` crate: the
//! preprocessing step that squares an arbitrary source image before it
//! enters the pipeline.

use vstd::prelude::*;

use crate::canvas::Canvas;
use crate::rng::random_u32_inclusive;

verus! {

/// The channel buffer of the `w x h` subrectangle of `c` whose top-left
/// corner is `(x, y)`.
pub open spec fn sub_rect(c: Canvas, x: int, y: int, w: int, h: int) -> Seq<u8> {
    Seq::new(
        (4 * (w * h)) as nat,
        |i: int|
            c@[4 * ((y + (i / 4) / w) * (c.spec_width() as int) + (x + (i / 4) % w)) + (i % 4)],
    )
}

/// The side of the largest square crop of a canvas: its smaller dimension.
pub open spec fn crop_side(c: Canvas) -> int {
    if c.spec_width() <= c.spec_height() {
        c.spec_width() as int
    } else {
        c.spec_height() as int
    }
}

/// The channel buffer produced by resampling a `width x height` RGBA buffer
/// to `new_width x new_height` with the Lanczos filter — a fixed function of
/// the source pixels and the dimensions, named here and computed only by the
/// `image` crate.
pub uninterp spec fn resized(
    data: Seq<u8>,
    width: int,
    height: int,
    new_width: int,
    new_height: int,
) -> Seq<u8>;

/// Relies on `image::imageops::resize`: the returned buffer has exactly the
/// requested dimensions, and its pixels are the Lanczos3 resampling of the
/// source, a function of the source buffer and the dimensions alone.
#[verifier::external_body]
fn resize_canvas(img: &Canvas, new_width: u32, new_height: u32) -> (r: Canvas)
    requires
        img.wf(),
    ensures
        r.wf(),
        r.spec_width() == new_width,
        r.spec_height() == new_height,
        r@ == resized(
            img@,
            img.spec_width() as int,
            img.spec_height() as int,
            new_width as int,
            new_height as int,
        ),
{
    let buf = image::RgbaImage::from_raw(img.width, img.height, img.data.clone()).unwrap();
    let out = image::imageops::resize(
        &buf,
        new_width,
        new_height,
        image::imageops::FilterType::Lanczos3,
    );
    Canvas { width: new_width, height: new_height, data: out.into_raw() }
}

/// Relies on `image::imageops::crop_imm`: for a rectangle that lies inside
/// the image the returned view — copied out with `to_image` — is exactly the
/// `w x h` subrectangle at `(x, y)`.
#[verifier::external_body]
fn crop_canvas(img: &Canvas, x: u32, y: u32, w: u32, h: u32) -> (r: Canvas)
    requires
        img.wf(),
        x + w <= img.spec_width(),
        y + h <= img.spec_height(),
    ensures
        r.wf(),
        r.spec_width() == w,
        r.spec_height() == h,
        r@ == sub_rect(*img, x as int, y as int, w as int, h as int),
{
    let buf = image::RgbaImage::from_raw(img.width, img.height, img.data.clone()).unwrap();
    let out = image::imageops::crop_imm(&buf, x, y, w, h).to_image();
    Canvas { width: w, height: h, data: out.into_raw() }
}

/// Crops the image to its largest square, at an offset drawn uniformly along
/// the longer axis, then resamples the square to `final_size x final_size`:
/// the image that comes out is square at the requested side length and is
/// the Lanczos resampling of some in-bounds square crop of the input.
pub fn crop_and_resize(img: &mut Canvas, final_size: u32)
    requires
        old(img).wf(),
    ensures
        final(img).wf(),
        final(img).spec_width() == final_size,
        final(img).spec_height() == final_size,
        exists|left: int, top: int|
            0 <= left && 0 <= top && left + crop_side(*old(img)) <= old(img).spec_width() && top
                + crop_side(*old(img)) <= old(img).spec_height() && final(img)@ == resized(
                #[trigger] sub_rect(
                    *old(img),
                    left,
                    top,
                    crop_side(*old(img)),
                    crop_side(*old(img)),
                ),
                crop_side(*old(img)),
                crop_side(*old(img)),
                final_size as int,
                final_size as int,
            ),
{
    let width = img.width();
    let height = img.height();
    let crop_size = if width <= height {
        width
    } else {
        height
    };
    let left = if width > crop_size {
        random_u32_inclusive(0, width - crop_size)
    } else {
        0
    };
    let top = if height > crop_size {
        random_u32_inclusive(0, height - crop_size)
    } else {
        0
    };
    let cropped = crop_canvas(img, left, top, crop_size, crop_size);
    let result = resize_canvas(&cropped, final_size, final_size);
    proof {
        let cs: int = crop_side(*old(img));
        assert(crop_size as int == cs);
        assert(0 <= left as int && 0 <= top as int && left as int + cs <= old(img).spec_width()
            && top as int + cs <= old(img).spec_height());
        assert(result@ == resized(
            sub_rect(*old(img), left as int, top as int, cs, cs),
            cs,
            cs,
            final_size as int,
            final_size as int,
        ));
    }
    *img = result;
}

} // verus!
