use vstd::prelude::*;

verus! {

/// Why an indexed access was refused.
#[derive(Debug, Clone, Copy, PartialEq, Eq, Structural)]
pub enum AccessError {
    /// The coordinates lie outside the addressed block.
    OutOfBounds,
}

/// The linear offset of the cell in column `x` of row `y`, in a row-major
/// buffer whose rows are `width` cells long.
pub open spec fn row_major(x: int, y: int, width: int) -> int {
    y * width + x
}

/// A two-dimensional buffer of `width * height` pixels, stored row by row:
/// the pixel at `(x, y)` lives at offset `y * width + x`.
#[derive(Debug)]
pub struct Canvas<P> {
    pixels: Vec<P>,
    width: i32,
    height: i32,
    length: i32,
}

impl<P> View for Canvas<P> {
    type V = Seq<P>;

    /// The pixels in storage order.
    closed spec fn view(&self) -> Seq<P> {
        self.pixels@
    }
}

impl<P: Copy> Canvas<P> {
    /// Number of pixels per row.
    pub closed spec fn spec_width(&self) -> int {
        self.width as int
    }

    /// Number of rows.
    pub closed spec fn spec_height(&self) -> int {
        self.height as int
    }

    /// The buffer holds exactly one pixel per `(x, y)` with
    /// `0 <= x < width` and `0 <= y < height`.
    pub closed spec fn wf(&self) -> bool {
        &&& self.width >= 0
        &&& self.height >= 0
        &&& self.length == self.width * self.height
        &&& self.pixels@.len() == self.length
    }

    /// `(x, y)` addresses a pixel of this canvas.
    pub open spec fn in_bounds(&self, x: int, y: int) -> bool {
        0 <= x < self.spec_width() && 0 <= y < self.spec_height()
    }

    /// The pixel at column `x` of row `y`.
    pub open spec fn pixel(&self, x: int, y: int) -> P {
        self@[row_major(x, y, self.spec_width())]
    }

    proof fn lemma_offset_in_range(&self, x: int, y: int)
        requires
            self.wf(),
            self.in_bounds(x, y),
        ensures
            0 <= row_major(x, y, self.spec_width()) < self@.len(),
    {
        let w = self.spec_width();
        let h = self.spec_height();
        assert(0 <= y * w + x < h * w) by (nonlinear_arith)
            requires
                0 <= x < w,
                0 <= y < h,
        ;
        assert(h * w == self@.len());
    }

    /// A canvas of `height` rows of `width` pixels, each set to `background`.
    pub fn new(height: i32, width: i32, background: P) -> (c: Self)
        requires
            height >= 0,
            width >= 0,
            height * width <= i32::MAX,
        ensures
            c.wf(),
            c.spec_width() == width,
            c.spec_height() == height,
            c@ == Seq::new((height * width) as nat, |i: int| background),
    {
        let length = height * width;
        let mut pixels: Vec<P> = Vec::new();
        let mut i: i32 = 0;
        while i < length
            invariant
                0 <= i <= length,
                pixels@ == Seq::new(i as nat, |j: int| background),
            decreases length - i,
        {
            pixels.push(background);
            i = i + 1;
            assert(pixels@ =~= Seq::new(i as nat, |j: int| background));
        }
        assert(width * height == height * width) by (nonlinear_arith);
        Canvas { pixels, width, height, length }
    }

    /// Number of pixels per row.
    pub fn width(&self) -> (w: i32)
        ensures
            w == self.spec_width(),
    {
        self.width
    }

    /// Number of rows.
    pub fn height(&self) -> (h: i32)
        ensures
            h == self.spec_height(),
    {
        self.height
    }

    /// Number of pixels, `width * height`.
    pub fn length(&self) -> (n: i32)
        requires
            self.wf(),
        ensures
            n == self.spec_width() * self.spec_height(),
            n == self@.len(),
    {
        self.length
    }

    /// The pixels in storage order: row by row, each from left to right.
    pub fn pixels(&self) -> (p: &Vec<P>)
        ensures
            p@ == self@,
    {
        &self.pixels
    }

    /// The pixel at column `x` of row `y`, which must lie on the canvas.
    pub fn get_pixel(&self, x: i32, y: i32) -> (p: &P)
        requires
            self.wf(),
            self.in_bounds(x as int, y as int),
        ensures
            *p == self.pixel(x as int, y as int),
    {
        proof {
            self.lemma_offset_in_range(x as int, y as int);
        }
        let pos = y * self.width + x;
        &self.pixels[pos as usize]
    }

    /// Replaces the pixel at column `x` of row `y`, which must lie on the
    /// canvas; every other pixel is kept.
    pub fn set_pixel(&mut self, x: i32, y: i32, pixel: P)
        requires
            old(self).wf(),
            old(self).in_bounds(x as int, y as int),
        ensures
            final(self).wf(),
            final(self).spec_width() == old(self).spec_width(),
            final(self).spec_height() == old(self).spec_height(),
            final(self)@ == old(self)@.update(row_major(x as int, y as int, old(self).spec_width()), pixel),
    {
        proof {
            self.lemma_offset_in_range(x as int, y as int);
        }
        let pos = y * self.width + x;
        self.pixels.set(pos as usize, pixel);
    }

    /// The pixel at column `x` of row `y`, or `OutOfBounds` where that is off
    /// the canvas.
    pub fn try_get_pixel(&self, x: i32, y: i32) -> (r: Result<P, AccessError>)
        requires
            self.wf(),
        ensures
            self.in_bounds(x as int, y as int) ==> r == Ok::<P, AccessError>(self.pixel(x as int, y as int)),
            !self.in_bounds(x as int, y as int) ==> r == Err::<P, AccessError>(AccessError::OutOfBounds),
    {
        if 0 <= x && x < self.width && 0 <= y && y < self.height {
            Ok(*self.get_pixel(x, y))
        } else {
            Err(AccessError::OutOfBounds)
        }
    }

    /// Replaces the pixel at column `x` of row `y`, or leaves the canvas as
    /// it is and returns `OutOfBounds` where that is off the canvas.
    pub fn try_set_pixel(&mut self, x: i32, y: i32, pixel: P) -> (r: Result<(), AccessError>)
        requires
            old(self).wf(),
        ensures
            final(self).wf(),
            final(self).spec_width() == old(self).spec_width(),
            final(self).spec_height() == old(self).spec_height(),
            old(self).in_bounds(x as int, y as int) ==> r is Ok && final(self)@ == old(self)@.update(
                row_major(x as int, y as int, old(self).spec_width()),
                pixel,
            ),
            !old(self).in_bounds(x as int, y as int) ==> r == Err::<(), AccessError>(
                AccessError::OutOfBounds,
            ) && final(self)@ == old(self)@,
    {
        if 0 <= x && x < self.width && 0 <= y && y < self.height {
            self.set_pixel(x, y, pixel);
            Ok(())
        } else {
            Err(AccessError::OutOfBounds)
        }
    }
}

/// Writing a pixel and then reading the same coordinates gives back the
/// pixel written, for every `(x, y)` on the canvas; every other pixel of the
/// canvas reads as before the write.
pub proof fn lemma_set_then_get<P: Copy>(before: Canvas<P>, x: int, y: int, pixel: P, after: Canvas<P>)
    requires
        before.wf(),
        before.in_bounds(x, y),
        after.spec_width() == before.spec_width(),
        after.spec_height() == before.spec_height(),
        after@ == before@.update(row_major(x, y, before.spec_width()), pixel),
    ensures
        after.pixel(x, y) == pixel,
        forall|x2: int, y2: int|
            before.in_bounds(x2, y2) && (x2 != x || y2 != y) ==> #[trigger] after.pixel(x2, y2)
                == before.pixel(x2, y2),
{
    before.lemma_offset_in_range(x, y);
    assert forall|x2: int, y2: int|
        before.in_bounds(x2, y2) && (x2 != x || y2 != y) implies #[trigger] after.pixel(x2, y2)
        == before.pixel(x2, y2) by {
        let w = before.spec_width();
        before.lemma_offset_in_range(x2, y2);
        if y2 == y {
            assert(row_major(x2, y2, w) != row_major(x, y, w));
        } else if y2 < y {
            assert(y2 * w + w <= y * w) by (nonlinear_arith)
                requires
                    y2 < y,
                    w >= 0,
            ;
        } else {
            assert(y * w + w <= y2 * w) by (nonlinear_arith)
                requires
                    y < y2,
                    w >= 0,
            ;
        }
    }
}

} // verus!
