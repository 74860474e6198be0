//! A 32-bit-per-pixel view onto a frame buffer, optionally narrowed to a
//! rectangle of it.
use vstd::prelude::*;

use crate::color::{is_native_encoding, native_bytes};

verus! {

/// A position or a size: `(x, y)` or `(width, height)`, in pixels.
pub type Vect = (u32, u32);

/// A rectangle: `(x, y, width, height)`, in pixels.
pub type Rect = (u32, u32, u32, u32);

/// Why a buffer operation was refused.
#[derive(Debug, Clone, Copy, PartialEq, Eq)]
pub enum BufferError {
    /// The requested rectangle does not fit inside the current bounds.
    SubdimensionsTooLarge { subdimensions: Rect, bounds: Rect },
    /// The requested offset lies outside the current bounds.
    OffsetOutOfBounds { offset: Vect, bounds: Rect },
    /// A pixel outside the rectangle that the buffer is narrowed to.
    PixelOutOfSubdimBounds { pos: Vect, subdim: Rect },
    /// A pixel outside the whole buffer.
    PixelOutOfBounds { pos: Vect, dim: Vect },
}

/// Pixels of `dimensions.0` by `dimensions.1`, four bytes each, row by row,
/// held in `buf`; `subdimensions`, where present, is the rectangle that
/// every operation is confined to.
pub struct Buffer<'a> {
    pub buf: &'a mut [u8],
    pub dimensions: Vect,
    pub subdimensions: Option<Rect>,
}

/// The rectangle `r` lies inside a screen of size `d`.
pub open spec fn rect_within(r: Rect, d: Vect) -> bool {
    &&& r.0 + r.2 <= d.0
    &&& r.1 + r.3 <= d.1
}

/// The pixel `(x, y)` lies inside the rectangle `r`.
pub open spec fn in_rect(r: Rect, x: int, y: int) -> bool {
    &&& r.0 <= x < r.0 + r.2
    &&& r.1 <= y < r.1 + r.3
}

/// The first byte of pixel `(x, y)` in rows of `width` pixels.
pub open spec fn pixel_index(width: u32, x: int, y: int) -> int {
    4 * (x + y * width)
}

/// The four bytes of pixel `(x, y)`.
pub open spec fn pixel_bytes(bytes: Seq<u8>, width: u32, x: int, y: int) -> Seq<u8> {
    bytes.subrange(pixel_index(width, x, y), pixel_index(width, x, y) + 4)
}

/// Byte `i` belongs to pixel `(x, y)`.
pub open spec fn byte_of_pixel(width: u32, x: int, y: int, i: int) -> bool {
    pixel_index(width, x, y) <= i < pixel_index(width, x, y) + 4
}

/// Byte `i` belongs to some pixel of the rectangle `r`.
pub open spec fn byte_in_rect(r: Rect, width: u32, i: int) -> bool {
    exists|x: int, y: int| in_rect(r, x, y) && #[trigger] byte_of_pixel(width, x, y, i)
}

/// The bounds that a buffer with these fields works in.
pub open spec fn bounds_of(dimensions: Vect, subdimensions: Option<Rect>) -> Rect {
    match subdimensions {
        Some(s) => s,
        None => (0, 0, dimensions.0, dimensions.1),
    }
}

/// `subdimensions` of `s` is accepted within bounds `b`: the rectangle,
/// taken relative to them, is no larger than they are.
pub open spec fn subdimensions_fit(b: Rect, s: Rect) -> bool {
    s.0 + s.2 <= b.2 && s.1 + s.3 <= b.3
}

/// The bounds of the buffer that `subdimensions` of `s` gives within bounds
/// `b`: `s` moved by the origin of `b`.
pub open spec fn subdimensions_rect(b: Rect, s: Rect) -> Rect {
    ((s.0 + b.0) as u32, (s.1 + b.1) as u32, s.2, s.3)
}

/// `offset` of `o` is accepted within bounds `b`.
pub open spec fn offset_fits(b: Rect, o: Vect) -> bool {
    o.0 <= b.2 && o.1 <= b.3
}

/// The bounds of the buffer that `offset` of `o` gives within bounds `b`:
/// what of `b` lies right of and below `o`.
pub open spec fn offset_rect(b: Rect, o: Vect) -> Rect {
    ((o.0 + b.0) as u32, (o.1 + b.1) as u32, (b.2 - o.0) as u32, (b.3 - o.1) as u32)
}

/// What `put` of `argb` at `pos` does, on a buffer with these dimensions
/// and bounds, to the bytes `before`, giving `after` and `result`.
pub open spec fn put_effect(
    dimensions: Vect,
    subdimensions: Option<Rect>,
    pos: Vect,
    argb: u32,
    before: Seq<u8>,
    after: Seq<u8>,
    result: Result<(), BufferError>,
) -> bool {
    let b = bounds_of(dimensions, subdimensions);
    if pos.0 >= b.2 || pos.1 >= b.3 {
        &&& after == before
        &&& result == match subdimensions {
            Some(s) => Err::<(), BufferError>(BufferError::PixelOutOfSubdimBounds { pos, subdim: s }),
            None => Err(BufferError::PixelOutOfBounds { pos, dim: dimensions }),
        }
    } else {
        let x = pos.0 + b.0;
        let y = pos.1 + b.1;
        &&& result == Ok::<(), BufferError>(())
        &&& after.len() == before.len()
        &&& is_native_encoding(pixel_bytes(after, dimensions.0, x, y), argb)
        &&& forall|i: int|
            0 <= i < before.len() && !byte_of_pixel(dimensions.0, x, y, i) ==> after[i] == before[i]
    }
}

/// Pixel `(x, y)` of a `w`-wide grid of `h` rows lies inside it.
proof fn lemma_pixel_in_grid(w: int, h: int, x: int, y: int)
    requires
        0 <= x < w,
        0 <= y < h,
    ensures
        0 <= x + y * w < w * h,
        0 <= y * w <= w * h,
{
    assert(x + y * w < w * h && 0 <= y * w <= w * h) by (nonlinear_arith)
        requires
            0 <= x < w,
            0 <= y < h,
    ;
}

/// Pixels of earlier rows come first.
proof fn lemma_row_major_order(w: int, xa: int, ya: int, xb: int, yb: int)
    requires
        0 <= xa < w,
        0 <= xb,
        0 <= ya < yb,
    ensures
        xa + ya * w < xb + yb * w,
{
    assert(xa + ya * w < xb + yb * w) by (nonlinear_arith)
        requires
            0 <= xa < w,
            0 <= xb,
            0 <= ya < yb,
    ;
}

impl<'a> Buffer<'a> {
    /// The rectangle that this buffer is confined to.
    pub open spec fn bounds(&self) -> Rect {
        bounds_of(self.dimensions, self.subdimensions)
    }

    /// The bytes hold every pixel of the dimensions, and the bounds lie
    /// inside them.
    pub open spec fn wf(&self) -> bool {
        &&& 4 * (self.dimensions.0 * self.dimensions.1) <= self.buf@.len()
        &&& rect_within(self.bounds(), self.dimensions)
    }

    /// Wraps `buf`, which holds `dimensions.0 * dimensions.1` pixels of
    /// four bytes each, as a buffer over the whole screen.
    pub fn new(buf: &'a mut [u8], dimensions: Vect) -> (r: Self)
        requires
            4 * (dimensions.0 * dimensions.1) <= old(buf)@.len(),
        ensures
            r.wf(),
            r.buf@ == old(buf)@,
            final(buf)@ == final(r.buf)@,
            r.dimensions == dimensions,
            r.subdimensions == None::<Rect>,
            r.bounds() == (0u32, 0u32, dimensions.0, dimensions.1),
    {
        Self { buf, dimensions, subdimensions: None }
    }

    /// The rectangle that this buffer is confined to: its subdimensions,
    /// or else the whole screen.
    pub fn get_bounds(&self) -> (r: Rect)
        ensures
            r == self.bounds(),
    {
        if let Some(subdim) = self.subdimensions {
            subdim
        } else {
            (0, 0, self.dimensions.0, self.dimensions.1)
        }
    }

    /// A buffer over the rectangle `subdimensions`, given relative to the
    /// current bounds, which it must not exceed.
    pub fn subdimensions(&mut self, subdimensions: Rect) -> (r: Result<Buffer<'_>, BufferError>)
        requires
            old(self).wf(),
        ensures
            final(self).dimensions == old(self).dimensions,
            final(self).subdimensions == old(self).subdimensions,
            final(final(self).buf)@ == final(old(self).buf)@,
            ({
                let b = old(self).bounds();
                let s = subdimensions;
                if !subdimensions_fit(b, s) {
                    &&& r == Err::<Buffer<'_>, BufferError>(
                        BufferError::SubdimensionsTooLarge { subdimensions: s, bounds: b },
                    )
                    &&& final(self).buf@ == old(self).buf@
                } else {
                    &&& r is Ok
                    &&& r->Ok_0.wf()
                    &&& r->Ok_0.buf@ == old(self).buf@
                    &&& final(self).buf@ == final(r->Ok_0.buf)@
                    &&& r->Ok_0.dimensions == old(self).dimensions
                    &&& r->Ok_0.subdimensions == Some(subdimensions_rect(b, s))
                }
            }),
    {
        let bounds = self.get_bounds();
        if subdimensions.0 as u64 + subdimensions.2 as u64 > bounds.2 as u64
            || subdimensions.1 as u64 + subdimensions.3 as u64 > bounds.3 as u64 {
            return Err(BufferError::SubdimensionsTooLarge { subdimensions, bounds });
        }
        Ok(
            Buffer {
                buf: self.buf,
                dimensions: self.dimensions,
                subdimensions: Some(
                    (
                        subdimensions.0 + bounds.0,
                        subdimensions.1 + bounds.1,
                        subdimensions.2,
                        subdimensions.3,
                    ),
                ),
            },
        )
    }

    /// A buffer over the part of the current bounds that lies right of and
    /// below `offset`, given relative to the current bounds.
    pub fn offset(&mut self, offset: Vect) -> (r: Result<Buffer<'_>, BufferError>)
        requires
            old(self).wf(),
        ensures
            final(self).dimensions == old(self).dimensions,
            final(self).subdimensions == old(self).subdimensions,
            final(final(self).buf)@ == final(old(self).buf)@,
            ({
                let b = old(self).bounds();
                if !offset_fits(b, offset) {
                    &&& r == Err::<Buffer<'_>, BufferError>(
                        BufferError::OffsetOutOfBounds { offset, bounds: b },
                    )
                    &&& final(self).buf@ == old(self).buf@
                } else {
                    &&& r is Ok
                    &&& r->Ok_0.wf()
                    &&& r->Ok_0.buf@ == old(self).buf@
                    &&& final(self).buf@ == final(r->Ok_0.buf)@
                    &&& r->Ok_0.dimensions == old(self).dimensions
                    &&& r->Ok_0.subdimensions == Some(offset_rect(b, offset))
                }
            }),
    {
        let bounds = self.get_bounds();
        if offset.0 > bounds.2 || offset.1 > bounds.3 {
            return Err(BufferError::OffsetOutOfBounds { offset, bounds });
        }
        Ok(
            Buffer {
                buf: self.buf,
                dimensions: self.dimensions,
                subdimensions: Some(
                    (
                        offset.0 + bounds.0,
                        offset.1 + bounds.1,
                        bounds.2 - offset.0,
                        bounds.3 - offset.1,
                    ),
                ),
            },
        )
    }

    /// Writes `bytes` into pixel `(x, y)` of the screen.
    fn write_pixel(&mut self, x: u32, y: u32, bytes: [u8; 4])
        requires
            old(self).wf(),
            x < old(self).dimensions.0,
            y < old(self).dimensions.1,
        ensures
            final(self).dimensions == old(self).dimensions,
            final(self).subdimensions == old(self).subdimensions,
            final(final(self).buf)@ == final(old(self).buf)@,
            final(self).buf@.len() == old(self).buf@.len(),
            pixel_bytes(final(self).buf@, old(self).dimensions.0, x as int, y as int) == bytes@,
            forall|i: int|
                0 <= i < old(self).buf@.len() && !byte_of_pixel(
                    old(self).dimensions.0,
                    x as int,
                    y as int,
                    i,
                ) ==> final(self).buf@[i] == old(self).buf@[i],
    {
        let w = self.dimensions.0;
        let len = self.buf.len();
        proof {
            lemma_pixel_in_grid(w as int, self.dimensions.1 as int, x as int, y as int);
            assert(pixel_index(w, x as int, y as int) + 4 <= len);
        }
        let idx: usize = 4 * (x as usize + (y as usize) * (w as usize));
        self.buf[idx] = bytes[0];
        self.buf[idx + 1] = bytes[1];
        self.buf[idx + 2] = bytes[2];
        self.buf[idx + 3] = bytes[3];
        assert(pixel_bytes(self.buf@, w, x as int, y as int) =~= bytes@);
    }

    /// Sets pixel `pos`, given relative to the bounds, to `argb`.
    pub fn put(&mut self, pos: Vect, argb: u32) -> (r: Result<(), BufferError>)
        requires
            old(self).wf(),
        ensures
            final(self).dimensions == old(self).dimensions,
            final(self).subdimensions == old(self).subdimensions,
            final(final(self).buf)@ == final(old(self).buf)@,
            put_effect(
                old(self).dimensions,
                old(self).subdimensions,
                pos,
                argb,
                old(self).buf@,
                final(self).buf@,
                r,
            ),
    {
        let true_pos = if let Some(subdim) = self.subdimensions {
            if pos.0 >= subdim.2 || pos.1 >= subdim.3 {
                return Err(BufferError::PixelOutOfSubdimBounds { pos, subdim });
            }
            (pos.0 + subdim.0, pos.1 + subdim.1)
        } else {
            if pos.0 >= self.dimensions.0 || pos.1 >= self.dimensions.1 {
                return Err(BufferError::PixelOutOfBounds { pos, dim: self.dimensions });
            }
            pos
        };
        let bytes = native_bytes(argb);
        self.write_pixel(true_pos.0, true_pos.1, bytes);
        Ok(())
    }

    /// Sets every pixel inside the bounds to `argb`.
    pub fn memset(&mut self, argb: u32)
        requires
            old(self).wf(),
        ensures
            final(self).dimensions == old(self).dimensions,
            final(self).subdimensions == old(self).subdimensions,
            final(final(self).buf)@ == final(old(self).buf)@,
            final(self).buf@.len() == old(self).buf@.len(),
            forall|x: int, y: int|
                in_rect(old(self).bounds(), x, y) ==> is_native_encoding(
                    #[trigger] pixel_bytes(final(self).buf@, old(self).dimensions.0, x, y),
                    argb,
                ),
            forall|x1: int, y1: int, x2: int, y2: int|
                in_rect(old(self).bounds(), x1, y1) && in_rect(old(self).bounds(), x2, y2)
                    ==> #[trigger] pixel_bytes(final(self).buf@, old(self).dimensions.0, x1, y1)
                    == #[trigger] pixel_bytes(final(self).buf@, old(self).dimensions.0, x2, y2),
            forall|i: int|
                0 <= i < old(self).buf@.len() && !byte_in_rect(
                    old(self).bounds(),
                    old(self).dimensions.0,
                    i,
                ) ==> final(self).buf@[i] == old(self).buf@[i],
    {
        let b = self.get_bounds();
        let w = self.dimensions.0;
        let bytes = native_bytes(argb);
        let ghost orig = self.buf@;
        let x_end = b.0 + b.2;
        let y_end = b.1 + b.3;
        let mut y = b.1;
        while y < y_end
            invariant
                self.wf(),
                self.dimensions == old(self).dimensions,
                self.subdimensions == old(self).subdimensions,
                b == old(self).bounds(),
                w == self.dimensions.0,
                x_end == b.0 + b.2,
                y_end == b.1 + b.3,
                b.1 <= y <= y_end,
                self.buf@.len() == orig.len(),
                orig == old(self).buf@,
                final(self.buf)@ == final(old(self).buf)@,
                is_native_encoding(bytes@, argb),
                forall|xx: int, yy: int|
                    b.0 <= xx < x_end && b.1 <= yy < y ==> #[trigger] pixel_bytes(
                        self.buf@,
                        w,
                        xx,
                        yy,
                    ) == bytes@,
                forall|i: int|
                    0 <= i < orig.len() && !byte_in_rect(b, w, i) ==> self.buf@[i] == orig[i],
            decreases y_end - y,
        {
            let mut x = b.0;
            while x < x_end
                invariant
                    self.wf(),
                    self.dimensions == old(self).dimensions,
                    self.subdimensions == old(self).subdimensions,
                    b == old(self).bounds(),
                    w == self.dimensions.0,
                    x_end == b.0 + b.2,
                    y_end == b.1 + b.3,
                    b.1 <= y < y_end,
                    b.0 <= x <= x_end,
                    self.buf@.len() == orig.len(),
                    orig == old(self).buf@,
                    final(self.buf)@ == final(old(self).buf)@,
                    is_native_encoding(bytes@, argb),
                    forall|xx: int, yy: int|
                        b.0 <= xx < x_end && b.1 <= yy < y || yy == y && b.0 <= xx < x
                            ==> #[trigger] pixel_bytes(self.buf@, w, xx, yy) == bytes@,
                    forall|i: int|
                        0 <= i < orig.len() && !byte_in_rect(b, w, i) ==> self.buf@[i] == orig[i],
                decreases x_end - x,
            {
                let ghost before = self.buf@;
                self.write_pixel(x, y, bytes);
                proof {
                    assert forall|xx: int, yy: int|
                        b.0 <= xx < x_end && b.1 <= yy < y || yy == y && b.0 <= xx < x + 1
                        implies #[trigger] pixel_bytes(self.buf@, w, xx, yy) == bytes@ by {
                        if xx != x || yy != y {
                            if yy < y {
                                lemma_row_major_order(w as int, xx, yy, x as int, y as int);
                            }
                            lemma_pixel_in_grid(
                                w as int,
                                self.dimensions.1 as int,
                                x as int,
                                y as int,
                            );
                            assert(pixel_bytes(before, w, xx, yy) == bytes@);
                            assert(pixel_bytes(self.buf@, w, xx, yy) =~= pixel_bytes(
                                before,
                                w,
                                xx,
                                yy,
                            ));
                        }
                    }
                    assert forall|i: int|
                        0 <= i < orig.len() && !byte_in_rect(b, w, i) implies self.buf@[i]
                        == orig[i] by {
                        if byte_of_pixel(w, x as int, y as int, i) {
                            assert(in_rect(b, x as int, y as int));
                        }
                    }
                }
                x = x + 1;
            }
            y = y + 1;
        }
    }
}

/// Narrowing nests: the bounds that `subdimensions` gives lie inside the
/// bounds it was given.
pub proof fn subdimensions_nest(b: Rect, s: Rect)
    requires
        b.0 + b.2 <= u32::MAX,
        b.1 + b.3 <= u32::MAX,
        subdimensions_fit(b, s),
    ensures
        forall|x: int, y: int|
            #[trigger] in_rect(subdimensions_rect(b, s), x, y) ==> in_rect(b, x, y),
        subdimensions_rect(b, s).0 + subdimensions_rect(b, s).2 <= b.0 + b.2,
        subdimensions_rect(b, s).1 + subdimensions_rect(b, s).3 <= b.1 + b.3,
{
}

/// Offsetting nests: the bounds that `offset` gives lie inside the bounds
/// it was given and share their far corner.
pub proof fn offset_nests(b: Rect, o: Vect)
    requires
        b.0 + b.2 <= u32::MAX,
        b.1 + b.3 <= u32::MAX,
        offset_fits(b, o),
    ensures
        forall|x: int, y: int| #[trigger] in_rect(offset_rect(b, o), x, y) ==> in_rect(b, x, y),
        offset_rect(b, o).0 + offset_rect(b, o).2 == b.0 + b.2,
        offset_rect(b, o).1 + offset_rect(b, o).3 == b.1 + b.3,
{
}

/// A pixel put through a buffer that `subdimensions` of `s` gave is the
/// pixel `pos + (s.0, s.1)` put through the buffer it came from: the same
/// result and the same bytes.
pub proof fn put_through_subdimensions(
    dimensions: Vect,
    subdims: Option<Rect>,
    s: Rect,
    pos: Vect,
    argb: u32,
    before: Seq<u8>,
    after: Seq<u8>,
    r: Result<(), BufferError>,
)
    requires
        rect_within(bounds_of(dimensions, subdims), dimensions),
        subdimensions_fit(bounds_of(dimensions, subdims), s),
        pos.0 < s.2,
        pos.1 < s.3,
    ensures
        put_effect(
            dimensions,
            Some(subdimensions_rect(bounds_of(dimensions, subdims), s)),
            pos,
            argb,
            before,
            after,
            r,
        ) == put_effect(
            dimensions,
            subdims,
            ((pos.0 + s.0) as u32, (pos.1 + s.1) as u32),
            argb,
            before,
            after,
            r,
        ),
{
}

/// A pixel put through a buffer that `offset` of `o` gave is the pixel
/// `pos + o` put through the buffer it came from, wherever the former
/// accepts it.
pub proof fn put_through_offset(
    dimensions: Vect,
    subdims: Option<Rect>,
    o: Vect,
    pos: Vect,
    argb: u32,
    before: Seq<u8>,
    after: Seq<u8>,
    r: Result<(), BufferError>,
)
    requires
        rect_within(bounds_of(dimensions, subdims), dimensions),
        offset_fits(bounds_of(dimensions, subdims), o),
        pos.0 < offset_rect(bounds_of(dimensions, subdims), o).2,
        pos.1 < offset_rect(bounds_of(dimensions, subdims), o).3,
    ensures
        put_effect(
            dimensions,
            Some(offset_rect(bounds_of(dimensions, subdims), o)),
            pos,
            argb,
            before,
            after,
            r,
        ) == put_effect(
            dimensions,
            subdims,
            ((pos.0 + o.0) as u32, (pos.1 + o.1) as u32),
            argb,
            before,
            after,
            r,
        ),
{
}

/// `put` writes only inside the bounds: at a position outside them it
/// fails and changes no byte, and every byte it changes belongs to a pixel
/// inside them, the pixel `pos` counted from their origin.
pub proof fn put_writes_only_inside_bounds(
    dimensions: Vect,
    subdims: Option<Rect>,
    pos: Vect,
    argb: u32,
    before: Seq<u8>,
    after: Seq<u8>,
    r: Result<(), BufferError>,
)
    requires
        put_effect(dimensions, subdims, pos, argb, before, after, r),
    ensures
        ({
            let b = bounds_of(dimensions, subdims);
            &&& pos.0 >= b.2 || pos.1 >= b.3 ==> r is Err && after == before
            &&& pos.0 < b.2 && pos.1 < b.3 ==> r is Ok
            &&& r is Err ==> after == before
            &&& after.len() == before.len()
            &&& forall|i: int|
                0 <= i < before.len() && after[i] != before[i] ==> byte_in_rect(
                    b,
                    dimensions.0,
                    i,
                ) && byte_of_pixel(dimensions.0, b.0 + pos.0, b.1 + pos.1, i)
        }),
{
    let b = bounds_of(dimensions, subdims);
    assert forall|i: int|
        0 <= i < before.len() && after[i] != before[i] implies byte_in_rect(
        b,
        dimensions.0,
        i,
    ) && byte_of_pixel(dimensions.0, b.0 + pos.0, b.1 + pos.1, i) by {
        assert(in_rect(b, b.0 + pos.0, b.1 + pos.1));
    }
}

/// A refused `put` reports the pixel asked for, and the rectangle it
/// missed: the buffer's rectangle where it has one, else the screen.
pub proof fn put_error_names_the_bounds(
    dimensions: Vect,
    subdims: Option<Rect>,
    pos: Vect,
    argb: u32,
    before: Seq<u8>,
    after: Seq<u8>,
    r: Result<(), BufferError>,
)
    requires
        put_effect(dimensions, subdims, pos, argb, before, after, r),
        r is Err,
    ensures
        subdims matches Some(s) ==> r == Err::<(), BufferError>(
            BufferError::PixelOutOfSubdimBounds { pos, subdim: s },
        ) && (pos.0 >= s.2 || pos.1 >= s.3),
        subdims is None ==> r == Err::<(), BufferError>(
            BufferError::PixelOutOfBounds { pos, dim: dimensions },
        ) && (pos.0 >= dimensions.0 || pos.1 >= dimensions.1),
{
}

/// `subdimensions` accepts exactly the rectangles that, taken relative to
/// the bounds, lie within them, and `offset` exactly the points that lie
/// within them, edges included.
pub proof fn narrowing_accepts_what_lies_within(b: Rect, s: Rect, o: Vect)
    ensures
        subdimensions_fit(b, s) <==> rect_within(s, (b.2, b.3)),
        offset_fits(b, o) <==> rect_within((o.0, o.1, 0, 0), (b.2, b.3)),
{
}

} // verus!
