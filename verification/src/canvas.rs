//! The square raster canvas that the transformation pipeline mutates:
//! an RGBA pixel buffer addressed row by row, four channels per pixel.

use vstd::prelude::*;

verus! {

/// One RGBA value: a pixel of the canvas, or a colour handed to a raster
/// operation.
#[derive(Clone, Copy, PartialEq, Eq, Structural, Debug)]
pub struct Px {
    pub r: u8,
    pub g: u8,
    pub b: u8,
    pub a: u8,
}

/// Channel index of the first byte of pixel `(x, y)` in a buffer of the
/// given width.
pub open spec fn pix_index(width: int, x: int, y: int) -> int {
    4 * (y * width + x)
}

/// The pixel of `c` at `(x, y)`, read out of the channel sequence.
pub open spec fn spec_pixel(c: Canvas, x: int, y: int) -> Px {
    Px {
        r: c@[pix_index(c.spec_width() as int, x, y)],
        g: c@[pix_index(c.spec_width() as int, x, y) + 1],
        b: c@[pix_index(c.spec_width() as int, x, y) + 2],
        a: c@[pix_index(c.spec_width() as int, x, y) + 3],
    }
}

pub proof fn lemma_pix_index_bounds(width: int, height: int, x: int, y: int)
    requires
        0 <= x < width,
        0 <= y < height,
    ensures
        0 <= pix_index(width, x, y),
        pix_index(width, x, y) + 3 < 4 * (width * height),
{
    assert(0 <= y * width + x && y * width + x < width * height) by (nonlinear_arith)
        requires
            0 <= x < width,
            0 <= y < height,
    ;
}

/// A width x height RGBA image owned by one pipeline run.  The buffer holds
/// exactly four bytes per pixel; transformation steps change channel values
/// but never the dimensions.
pub struct Canvas {
    pub(crate) width: u32,
    pub(crate) height: u32,
    pub(crate) data: Vec<u8>,
}

impl View for Canvas {
    type V = Seq<u8>;

    closed spec fn view(&self) -> Seq<u8> {
        self.data@
    }
}

impl Canvas {
    pub closed spec fn spec_width(&self) -> u32 {
        self.width
    }

    pub closed spec fn spec_height(&self) -> u32 {
        self.height
    }

    /// The buffer holds exactly four channel bytes for each pixel.
    pub open spec fn wf(&self) -> bool {
        self@.len() == 4 * ((self.spec_width() as int) * (self.spec_height() as int))
    }

    pub fn width(&self) -> (w: u32)
        ensures
            w == self.spec_width(),
    {
        self.width
    }

    pub fn height(&self) -> (h: u32)
        ensures
            h == self.spec_height(),
    {
        self.height
    }

    /// Builds a canvas from a raw RGBA byte buffer; refuses a buffer whose
    /// length does not match the dimensions.
    pub fn from_rgba8(width: u32, height: u32, data: Vec<u8>) -> (r: Option<Canvas>)
        ensures
            r is Some <==> data@.len() == 4 * ((width as int) * (height as int)),
            r is Some ==> {
                &&& r->Some_0.wf()
                &&& r->Some_0.spec_width() == width
                &&& r->Some_0.spec_height() == height
                &&& r->Some_0@ == data@
            },
    {
        proof {
            assert((width as int) * (height as int) <= 0xffff_ffff_ffff_ffff) by (nonlinear_arith)
                requires
                    width <= 0xffff_ffffu32,
                    height <= 0xffff_ffffu32,
            ;
        }
        let wh: u128 = (width as u128) * (height as u128);
        let expected: u128 = 4u128 * wh;
        if (data.len() as u128) == expected {
            Some(Canvas { width, height, data })
        } else {
            None
        }
    }

    /// The raw channel buffer, row by row, four bytes per pixel.
    pub fn as_bytes(&self) -> (r: &Vec<u8>)
        ensures
            r@ == self@,
    {
        &self.data
    }

    /// A canvas of one solid colour.
    pub fn filled(width: u32, height: u32, px: Px) -> (r: Canvas)
        requires
            4 * ((width as int) * (height as int)) <= usize::MAX,
        ensures
            r.wf(),
            r.spec_width() == width,
            r.spec_height() == height,
            forall|x: int, y: int|
                0 <= x < width && 0 <= y < height ==> spec_pixel(r, x, y) == px,
    {
        let total: usize = (width as usize) * (height as usize);
        let mut data: Vec<u8> = Vec::new();
        let mut i: usize = 0;
        while i < total
            invariant
                i <= total,
                total == (width as int) * (height as int),
                data@.len() == 4 * i,
                forall|j: int|
                    0 <= j < 4 * i ==> data@[j] == (if j % 4 == 0 {
                        px.r
                    } else if j % 4 == 1 {
                        px.g
                    } else if j % 4 == 2 {
                        px.b
                    } else {
                        px.a
                    }),
            decreases total - i,
        {
            data.push(px.r);
            data.push(px.g);
            data.push(px.b);
            data.push(px.a);
            i = i + 1;
        }
        let r = Canvas { width, height, data };
        proof {
            assert forall|x: int, y: int|
                0 <= x < width && 0 <= y < height implies spec_pixel(r, x, y) == px by {
                lemma_pix_index_bounds(width as int, height as int, x, y);
                let base = pix_index(width as int, x, y);
                assert(base % 4 == 0);
                assert((base + 1) % 4 == 1);
                assert((base + 2) % 4 == 2);
                assert((base + 3) % 4 == 3);
            }
        }
        r
    }

    /// One channel byte of the buffer.
    pub fn get_channel(&self, i: usize) -> (v: u8)
        requires
            i < self@.len(),
        ensures
            v == self@[i as int],
    {
        self.data[i]
    }

    /// Overwrites one channel byte; everything else is untouched.
    pub fn set_channel(&mut self, i: usize, v: u8)
        requires
            i < old(self)@.len(),
        ensures
            final(self)@ == old(self)@.update(i as int, v),
            final(self).spec_width() == old(self).spec_width(),
            final(self).spec_height() == old(self).spec_height(),
            old(self).wf() ==> final(self).wf(),
    {
        self.data[i] = v;
    }

    /// Number of channel bytes in the buffer.
    pub fn byte_len(&self) -> (n: usize)
        ensures
            n == self@.len(),
    {
        self.data.len()
    }

    /// The pixel at `(x, y)`.
    pub fn get_pixel(&self, x: u32, y: u32) -> (p: Px)
        requires
            self.wf(),
            x < self.spec_width(),
            y < self.spec_height(),
        ensures
            p == spec_pixel(*self, x as int, y as int),
    {
        let n: usize = self.data.len();
        proof {
            lemma_pix_index_bounds(
                self.spec_width() as int,
                self.spec_height() as int,
                x as int,
                y as int,
            );
        }
        let base: usize = 4 * ((y as usize) * (self.width as usize) + (x as usize));
        Px {
            r: self.data[base],
            g: self.data[base + 1],
            b: self.data[base + 2],
            a: self.data[base + 3],
        }
    }

    /// Overwrites the pixel at `(x, y)`; every other pixel is untouched.
    pub fn put_pixel(&mut self, x: u32, y: u32, px: Px)
        requires
            old(self).wf(),
            x < old(self).spec_width(),
            y < old(self).spec_height(),
        ensures
            final(self).wf(),
            final(self).spec_width() == old(self).spec_width(),
            final(self).spec_height() == old(self).spec_height(),
            spec_pixel(*final(self), x as int, y as int) == px,
            forall|i: int|
                0 <= i < old(self)@.len() && !(pix_index(
                    old(self).spec_width() as int,
                    x as int,
                    y as int,
                ) <= i < pix_index(old(self).spec_width() as int, x as int, y as int) + 4)
                    ==> final(self)@[i] == old(self)@[i],
    {
        let n: usize = self.data.len();
        proof {
            lemma_pix_index_bounds(
                self.spec_width() as int,
                self.spec_height() as int,
                x as int,
                y as int,
            );
        }
        let base: usize = 4 * ((y as usize) * (self.width as usize) + (x as usize));
        self.data[base] = px.r;
        self.data[base + 1] = px.g;
        self.data[base + 2] = px.b;
        self.data[base + 3] = px.a;
    }
}

} // verus!
