//! Pixel-addressable drawing surfaces: the `RenderSurface` capability and
//! a concrete surface backed by an in-memory byte buffer of
//! `width * height * 4` bytes in row-major (R, G, B, A) order.

use vstd::arithmetic::mul::{
    lemma_mul_inequality, lemma_mul_is_commutative, lemma_mul_is_distributive_add_other_way,
};
use vstd::prelude::*;

use crate::color::Color;
use crate::errors::EngineError;

verus! {

/// The 4 bytes of the pixel at linear index `p` of a packed frame buffer.
pub open spec fn pixel_of(frame: Seq<u8>, p: int) -> Seq<u8> {
    frame.subrange(4 * p, 4 * p + 4)
}

/// A pixel coordinate `(x, y)` with `0 <= x < w` and `0 <= y < h` maps to a
/// linear pixel index `y * w + x` that lies inside the surface area.
pub proof fn lemma_pixel_index_bound(x: int, y: int, w: int, h: int)
    requires
        0 <= x < w,
        0 <= y < h,
    ensures
        0 <= y * w + x < w * h,
{
    lemma_mul_inequality(y, h - 1, w);
    lemma_mul_is_distributive_add_other_way(w, h - 1, 1);
    assert((h - 1) * w + 1 * w == h * w);
    assert(h * w == w * h) by { lemma_mul_is_commutative(h, w) };
}

/// Distinct in-bounds pixel coordinates map to distinct linear indices.
pub proof fn lemma_pixel_index_injective(x1: int, y1: int, x2: int, y2: int, w: int)
    requires
        0 <= x1 < w,
        0 <= x2 < w,
        0 <= y1,
        0 <= y2,
        y1 * w + x1 == y2 * w + x2,
    ensures
        x1 == x2,
        y1 == y2,
{
    if y1 < y2 {
        lemma_mul_inequality(y1 + 1, y2, w);
        lemma_mul_is_distributive_add_other_way(w, y1, 1);
        assert(y1 * w + x1 < y2 * w + x2);
    }
    if y2 < y1 {
        lemma_mul_inequality(y2 + 1, y1, w);
        lemma_mul_is_distributive_add_other_way(w, y2, 1);
        assert(y2 * w + x2 < y1 * w + x1);
    }
}

/// The abstract drawing-target capability: size query, bounds checking,
/// pixel-range fill, rectangle fill, full clear, and presentation. The
/// engine loop and application code depend only on this capability set,
/// never on a concrete surface type, so render backends can be swapped
/// without touching the scheduler.
pub trait RenderSurface: Sized {
    /// Well-formedness of the surface.
    spec fn inv(&self) -> bool;

    /// The surface width in pixels.
    spec fn width_spec(&self) -> int;

    /// The surface height in pixels.
    spec fn height_spec(&self) -> int;

    /// The 4 bytes of the pixel at linear index `p` (row-major order).
    spec fn pixel_spec(&self, p: int) -> Seq<u8>;

    /// The 4 bytes of the pixel at coordinate `(x, y)`.
    spec fn pixel_at(&self, x: int, y: int) -> Seq<u8>;

    /// The pixel at coordinate `(x, y)` is the pixel at linear index
    /// `y * width + x`.
    proof fn pixel_at_is_linear(&self, x: int, y: int)
        requires
            self.inv(),
            0 <= x < self.width_spec(),
            0 <= y < self.height_spec(),
        ensures
            self.pixel_at(x, y) == self.pixel_spec(y * self.width_spec() + x),
    ;

    /// The surface width in pixels, fixed for the surface's lifetime.
    fn width(&self) -> (w: u32)
        ensures
            w == self.width_spec(),
    ;

    /// The surface height in pixels, fixed for the surface's lifetime.
    fn height(&self) -> (h: u32)
        ensures
            h == self.height_spec(),
    ;

    /// Maps a signed coordinate into the surface: `Some((x, y))` exactly when
    /// `0 <= x < width` and `0 <= y < height`, `None` otherwise. Never panics,
    /// whatever the inputs.
    fn in_bounds(&self, x: i64, y: i64) -> (r: Option<(u32, u32)>)
        ensures
            r is Some <==> (0 <= x < self.width_spec() && 0 <= y < self.height_spec()),
            r is Some ==> r->0 == (x as u32, y as u32),
    ;

    /// Fills every pixel with linear index in `[start, end)` with `color`,
    /// leaving all other pixels unchanged.
    fn set_range(&mut self, start: usize, end: usize, color: &Color)
        requires
            old(self).inv(),
            start <= end,
            end <= old(self).width_spec() * old(self).height_spec(),
        ensures
            final(self).inv(),
            final(self).width_spec() == old(self).width_spec(),
            final(self).height_spec() == old(self).height_spec(),
            forall|p: int| start <= p < end ==> final(self).pixel_spec(p) == color@,
            forall|p: int|
                0 <= p < start || end <= p < old(self).width_spec() * old(self).height_spec()
                    ==> final(self).pixel_spec(p) == old(self).pixel_spec(p),
    ;

    /// Sets every pixel of the surface to `color`.
    fn clear_screen(&mut self, color: &Color)
        requires
            old(self).inv(),
        ensures
            final(self).inv(),
            final(self).width_spec() == old(self).width_spec(),
            final(self).height_spec() == old(self).height_spec(),
            forall|p: int|
                0 <= p < old(self).width_spec() * old(self).height_spec()
                    ==> final(self).pixel_spec(p) == color@,
    ;

    /// Fills the axis-aligned rectangle `[sx, sx + rw) x [sy, sy + rh)` with
    /// `color`, leaving every pixel outside the rectangle unchanged. The
    /// caller guarantees the rectangle lies fully inside the surface.
    fn filled_rect(&mut self, sx: u32, sy: u32, rw: u32, rh: u32, color: &Color)
        requires
            old(self).inv(),
            sx + rw <= old(self).width_spec(),
            sy + rh <= old(self).height_spec(),
        ensures
            final(self).inv(),
            final(self).width_spec() == old(self).width_spec(),
            final(self).height_spec() == old(self).height_spec(),
            forall|xx: int, yy: int|
                0 <= xx < old(self).width_spec() && 0 <= yy < old(self).height_spec()
                    ==> #[trigger] final(self).pixel_at(xx, yy) == (if sx <= xx < sx + rw && sy
                    <= yy < sy + rh {
                    color@
                } else {
                    old(self).pixel_at(xx, yy)
                }),
    ;

    /// Presents the pixel buffer to the screen. Whether presentation
    /// succeeds is up to the backend; the buffer itself is left unchanged.
    fn blit(&mut self) -> (r: Result<(), EngineError>)
        requires
            old(self).inv(),
        ensures
            final(self).inv(),
            final(self).width_spec() == old(self).width_spec(),
            final(self).height_spec() == old(self).height_spec(),
            forall|p: int|
                0 <= p < old(self).width_spec() * old(self).height_spec()
                    ==> final(self).pixel_spec(p) == old(self).pixel_spec(p),
    ;
}

/// Clearing the screen and then reading any in-range pixel yields the
/// cleared color: on a surface whose every linear pixel holds the bytes
/// of `c` — exactly what `clear_screen` establishes — the pixel at any
/// in-range coordinate `(x, y)` — exactly what `get` returns — is `c`.
pub proof fn lemma_clear_then_get<S: RenderSurface>(s: &S, c: Color, x: int, y: int)
    requires
        s.inv(),
        0 <= x < s.width_spec(),
        0 <= y < s.height_spec(),
        forall|p: int| 0 <= p < s.width_spec() * s.height_spec() ==> s.pixel_spec(p) == c@,
    ensures
        s.pixel_at(x, y) == c@,
{
    lemma_pixel_index_bound(x, y, s.width_spec(), s.height_spec());
    s.pixel_at_is_linear(x, y);
}

/// A concrete pixel-buffer surface: a mutable byte buffer of length
/// `width * height * 4`, with `width` and `height` fixed at construction.
pub struct PixelBufferSurface {
    width: u32,
    height: u32,
    frame: Vec<u8>,
}

impl RenderSurface for PixelBufferSurface {
    /// Well-formedness: the buffer holds exactly `width * height` packed
    /// 4-byte pixels, and the byte length fits in a `u32` so that pixel
    /// index arithmetic cannot overflow.
    open spec fn inv(&self) -> bool {
        &&& self.frame_spec().len() == self.width_spec() * self.height_spec() * 4
        &&& self.width_spec() * self.height_spec() * 4 <= u32::MAX
    }

    closed spec fn width_spec(&self) -> int {
        self.width as int
    }

    closed spec fn height_spec(&self) -> int {
        self.height as int
    }

    open spec fn pixel_spec(&self, p: int) -> Seq<u8> {
        pixel_of(self.frame_spec(), p)
    }

    open spec fn pixel_at(&self, x: int, y: int) -> Seq<u8> {
        pixel_of(self.frame_spec(), y * self.width_spec() + x)
    }

    proof fn pixel_at_is_linear(&self, x: int, y: int) {
    }

    fn width(&self) -> (w: u32) {
        self.width
    }

    fn height(&self) -> (h: u32) {
        self.height
    }

    fn in_bounds(&self, x: i64, y: i64) -> (r: Option<(u32, u32)>) {
        if x < 0 || x >= self.width as i64 || y < 0 || y >= self.height as i64 {
            None
        } else {
            Some((x as u32, y as u32))
        }
    }

    /// The present step of the in-memory surface: there is no attached
    /// display, so there is nothing to push and nothing that can fail.
    fn blit(&mut self) -> (r: Result<(), EngineError>)
        ensures
            r is Ok,
    {
        Ok(())
    }

    fn set_range(&mut self, start: usize, end: usize, color: &Color) {
        let cb: [u8; 4] = *color.as_bytes();
        let ghost frame0: Seq<u8> = self.frame@;
        proof {
            lemma_mul_inequality(end as int, self.width_spec() * self.height_spec(), 4);
        }
        let mut p: usize = start;
        while p < end
            invariant
                start <= p <= end,
                self.width == old(self).width,
                self.height == old(self).height,
                old(self).inv(),
                self.frame@.len() == frame0.len(),
                frame0 == old(self).frame_spec(),
                4 * end <= frame0.len(),
                cb@ == color@,
                forall|j: int| 0 <= j < 4 * start ==> self.frame@[j] == frame0[j],
                forall|j: int| 4 * p <= j < frame0.len() ==> self.frame@[j] == frame0[j],
                forall|pp: int| start <= pp < p ==> pixel_of(self.frame@, pp) == cb@,
            decreases end - p,
        {
            let ghost prev: Seq<u8> = self.frame@;
            let i: usize = p * 4;
            self.frame[i] = cb[0];
            self.frame[i + 1] = cb[1];
            self.frame[i + 2] = cb[2];
            self.frame[i + 3] = cb[3];
            proof {
                assert(pixel_of(self.frame@, p as int) =~= cb@);
                assert forall|pp: int| start <= pp < p implies pixel_of(self.frame@, pp) == cb@ by {
                    assert(pixel_of(prev, pp) == cb@);
                    assert(pixel_of(self.frame@, pp) =~= pixel_of(prev, pp));
                }
            }
            p = p + 1;
        }
        proof {
            assert forall|pp: int| start <= pp < end implies final(self).pixel_spec(pp) == color@ by {
                assert(pixel_of(self.frame@, pp) == cb@);
            }
            assert forall|pp: int|
                0 <= pp < start || end <= pp < old(self).width_spec() * old(self).height_spec()
                implies final(self).pixel_spec(pp) == old(self).pixel_spec(pp) by {
                assert(pixel_of(self.frame@, pp) =~= pixel_of(frame0, pp));
            }
        }
    }

    /// Sets every pixel by one full-range row fill.
    fn clear_screen(&mut self, color: &Color) {
        let area: usize = (self.width as usize) * (self.height as usize);
        self.set_range(0, area, color);
    }

    /// Fills the rectangle by issuing one `set_range` call per scanline.
    fn filled_rect(&mut self, sx: u32, sy: u32, rw: u32, rh: u32, color: &Color) {
        let ghost w = old(self).width_spec();
        let ghost h = old(self).height_spec();
        let mut y: u32 = sy;
        while y < sy + rh
            invariant
                sy <= y <= sy + rh,
                sx + rw <= w,
                sy + rh <= h,
                self.inv(),
                self.width_spec() == w,
                self.height_spec() == h,
                forall|xx: int, yy: int|
                    0 <= xx < w && 0 <= yy < h ==> #[trigger] self.pixel_at(xx, yy) == (if sx <= xx
                        < sx + rw && sy <= yy < y {
                        color@
                    } else {
                        old(self).pixel_at(xx, yy)
                    }),
            decreases sy + rh - y,
        {
            proof {
                lemma_mul_inequality(y as int, h - 1, w);
                lemma_mul_is_distributive_add_other_way(w, h - 1, 1);
                assert((h - 1) * w + 1 * w == h * w);
                lemma_mul_is_commutative(h, w);
                assert(y * w + sx + rw <= w * h);
            }
            let row_start: usize = (y as usize) * (self.width as usize) + (sx as usize);
            let ghost prev: PixelBufferSurface = *self;
            self.set_range(row_start, row_start + (rw as usize), color);
            proof {
                assert forall|xx: int, yy: int| 0 <= xx < w && 0 <= yy < h implies #[trigger] self.pixel_at(xx, yy) == (if sx <= xx < sx + rw && sy <= yy < y + 1 {
                    color@
                } else {
                    old(self).pixel_at(xx, yy)
                }) by {
                    lemma_pixel_index_bound(xx, yy, w, h);
                    let q = yy * w + xx;
                    assert(self.pixel_at(xx, yy) == self.pixel_spec(q));
                    assert(prev.pixel_at(xx, yy) == prev.pixel_spec(q));
                    assert(old(self).pixel_at(xx, yy) == prev.pixel_at(xx, yy) || prev.pixel_at(
                        xx,
                        yy,
                    ) == color@);
                    if yy == y {
                        if sx <= xx < sx + rw {
                            assert(row_start <= q < row_start + rw);
                            assert(self.pixel_spec(q) == color@);
                        } else {
                            assert(q < row_start || row_start + rw <= q);
                            assert(self.pixel_spec(q) == prev.pixel_spec(q));
                        }
                    } else {
                        if yy < y {
                            lemma_mul_inequality(yy + 1, y as int, w);
                            lemma_mul_is_distributive_add_other_way(w, yy, 1);
                            assert(q < row_start);
                        } else {
                            lemma_mul_inequality(y as int + 1, yy, w);
                            lemma_mul_is_distributive_add_other_way(w, y as int, 1);
                            assert(row_start + rw <= q);
                        }
                        assert(self.pixel_spec(q) == prev.pixel_spec(q));
                    }
                }
            }
            y = y + 1;
        }
    }
}

impl PixelBufferSurface {
    /// The backing frame buffer, as a byte sequence.
    pub closed spec fn frame_spec(&self) -> Seq<u8> {
        self.frame@
    }

    /// Creates a surface of the requested dimensions with every pixel
    /// initialized to all-zero bytes.
    pub fn new(width: u32, height: u32) -> (s: Self)
        requires
            width * height * 4 <= u32::MAX,
        ensures
            s.inv(),
            s.width_spec() == width,
            s.height_spec() == height,
            forall|p: int|
                0 <= p < width * height ==> s.pixel_spec(p) == seq![0u8, 0u8, 0u8, 0u8],
    {
        let len: usize = (width as usize) * (height as usize) * 4;
        let frame: Vec<u8> = vec![0u8; len];
        let s = PixelBufferSurface { width, height, frame };
        proof {
            assert forall|p: int| 0 <= p < width * height implies s.pixel_spec(p) == seq![
                0u8,
                0u8,
                0u8,
                0u8,
            ] by {
                assert(s.pixel_spec(p) =~= seq![0u8, 0u8, 0u8, 0u8]);
            }
        }
        s
    }

    /// Reads the color of the pixel at `(x, y)`; the caller guarantees the
    /// coordinate is in range.
    pub fn get(&self, x: u32, y: u32) -> (c: Color)
        requires
            self.inv(),
            x < self.width_spec(),
            y < self.height_spec(),
        ensures
            c@ == self.pixel_at(x as int, y as int),
    {
        proof {
            lemma_pixel_index_bound(x as int, y as int, self.width_spec(), self.height_spec());
            lemma_mul_inequality(
                y as int * self.width_spec() + x as int + 1,
                self.width_spec() * self.height_spec(),
                4,
            );
        }
        let i: usize = ((y as usize) * (self.width as usize) + (x as usize)) * 4;
        let c = Color::from_rgba(
            self.frame[i],
            self.frame[i + 1],
            self.frame[i + 2],
            self.frame[i + 3],
        );
        proof {
            assert(c@ =~= self.pixel_at(x as int, y as int));
        }
        c
    }

    /// Writes `color` into the pixel at `(x, y)`, leaving every other pixel
    /// unchanged; the caller guarantees the coordinate is in range.
    pub fn set(&mut self, x: u32, y: u32, color: &Color)
        requires
            old(self).inv(),
            x < old(self).width_spec(),
            y < old(self).height_spec(),
        ensures
            final(self).inv(),
            final(self).width_spec() == old(self).width_spec(),
            final(self).height_spec() == old(self).height_spec(),
            forall|xx: int, yy: int|
                0 <= xx < old(self).width_spec() && 0 <= yy < old(self).height_spec()
                    ==> #[trigger] final(self).pixel_at(xx, yy) == (if xx == x && yy == y {
                    color@
                } else {
                    old(self).pixel_at(xx, yy)
                }),
    {
        proof {
            lemma_pixel_index_bound(x as int, y as int, self.width_spec(), self.height_spec());
        }
        let q: usize = (y as usize) * (self.width as usize) + (x as usize);
        self.set_range(q, q + 1, color);
        proof {
            let w = old(self).width_spec();
            let h = old(self).height_spec();
            assert forall|xx: int, yy: int| 0 <= xx < w && 0 <= yy < h implies #[trigger] final(self).pixel_at(xx, yy) == (if xx == x && yy == y {
                color@
            } else {
                old(self).pixel_at(xx, yy)
            }) by {
                lemma_pixel_index_bound(xx, yy, w, h);
                if xx == x && yy == y {
                    assert(final(self).pixel_spec(q as int) == color@);
                } else {
                    if yy * w + xx == q {
                        lemma_pixel_index_injective(xx, yy, x as int, y as int, w);
                        assert(false);
                    }
                    assert(final(self).pixel_spec(yy * w + xx) == old(self).pixel_spec(
                        yy * w + xx,
                    ));
                }
            }
        }
    }
}

} // verus!
