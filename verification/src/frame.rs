//! Planar 4:2:0 images: a luma plane at full resolution and two chroma
//! planes at half resolution in both directions.
//!
//! A plane is a buffer of rows.  Each row holds `stride` bytes, of which the
//! first `width` are samples and the rest is padding.

use vstd::prelude::*;

verus! {

/// One plane of an image.
#[derive(Clone, Debug, PartialEq, Eq)]
pub struct Plane {
    pub width: usize,
    pub height: usize,
    pub stride: usize,
    pub data: Vec<u8>,
}

/// A 4:2:0 image with an optional presentation timestamp.
#[derive(Clone, Debug, PartialEq, Eq)]
pub struct CanvasFrame {
    pub width: u32,
    pub height: u32,
    pub luma: Plane,
    pub chroma_u: Plane,
    pub chroma_v: Plane,
    pub pts: Option<i64>,
}

/// The number of chroma samples along a side of `length` luma samples.
pub open spec fn chroma_length(length: int) -> int {
    (length + 1) / 2
}

/// A position inside a plane of `height` rows of `stride` bytes lies inside
/// its buffer.
pub proof fn lemma_position_in_buffer(x: int, y: int, stride: int, height: int)
    requires
        0 <= x < stride,
        0 <= y < height,
    ensures
        0 <= y * stride + x < stride * height,
        y * stride + stride <= stride * height,
{
    assert(y * stride + stride <= stride * height && 0 <= y * stride) by (nonlinear_arith)
        requires
            0 <= y < height,
            0 < stride,
    ;
}

/// Two different positions of a plane have different places in its buffer.
pub proof fn lemma_positions_differ(x1: int, y1: int, x2: int, y2: int, stride: int)
    requires
        0 <= x1 < stride,
        0 <= x2 < stride,
        0 <= y1,
        0 <= y2,
        x1 != x2 || y1 != y2,
    ensures
        y1 * stride + x1 != y2 * stride + x2,
{
    if y1 < y2 {
        assert(y1 * stride + stride <= y2 * stride) by (nonlinear_arith)
            requires
                y1 + 1 <= y2,
                0 < stride,
        ;
    } else if y2 < y1 {
        assert(y2 * stride + stride <= y1 * stride) by (nonlinear_arith)
            requires
                y2 + 1 <= y1,
                0 < stride,
        ;
    }
}

impl Plane {
    /// The buffer holds exactly `height` rows of `stride` bytes, and a row
    /// has room for `width` samples.
    pub open spec fn wf(&self) -> bool {
        &&& self.width <= self.stride
        &&& self.data@.len() == self.stride * self.height
    }

    /// The byte at column `x` of row `y`, padding included.
    pub open spec fn sample(&self, x: int, y: int) -> u8 {
        self.data@[y * self.stride + x]
    }

    /// `(x, y)` is the position of a sample.
    pub open spec fn holds(&self, x: int, y: int) -> bool {
        0 <= x < self.width && 0 <= y < self.height
    }

    /// `(x, y)` is the position of a byte, sample or padding.
    pub open spec fn covers(&self, x: int, y: int) -> bool {
        0 <= x < self.stride && 0 <= y < self.height
    }

    /// The two planes have the same size and the same samples.
    pub open spec fn same_samples(&self, other: &Plane) -> bool {
        &&& self.width == other.width
        &&& self.height == other.height
        &&& forall|x: int, y: int|
            self.holds(x, y) ==> #[trigger] self.sample(x, y) == other.sample(x, y)
    }

    /// The two planes have the same layout.
    pub open spec fn same_layout(&self, other: &Plane) -> bool {
        &&& self.width == other.width
        &&& self.height == other.height
        &&& self.stride == other.stride
    }

    /// A plane with every byte set to `fill`.
    ///
    /// There is no such plane if a row has no room for `width` samples or
    /// if the buffer would not fit in memory.
    pub fn new(width: usize, height: usize, stride: usize, fill: u8) -> (made: Option<Plane>)
        ensures
            made is Some <==> width <= stride && stride * height <= usize::MAX,
            made matches Some(plane) ==> {
                &&& plane.wf()
                &&& plane.width == width
                &&& plane.height == height
                &&& plane.stride == stride
                &&& forall|i: int| 0 <= i < plane.data@.len() ==> plane.data@[i] == fill
            },
    {
        if stride < width {
            return None;
        }
        match stride.checked_mul(height) {
            None => None,
            Some(size) => {
                let mut data: Vec<u8> = Vec::new();
                let mut i: usize = 0;
                while i < size
                    invariant
                        i <= size,
                        data@.len() == i,
                        forall|k: int| 0 <= k < i ==> data@[k] == fill,
                    decreases size - i,
                {
                    data.push(fill);
                    i += 1;
                }
                Some(Plane { width, height, stride, data })
            },
        }
    }

    /// Decides [`Plane::wf`].
    pub fn is_well_formed(&self) -> (ok: bool)
        ensures
            ok == self.wf(),
    {
        let length: usize = self.data.len();
        if self.width > self.stride {
            return false;
        }
        match self.stride.checked_mul(self.height) {
            None => false,
            Some(size) => length == size,
        }
    }

    /// The place of the position `(x, y)` in the buffer: `y * stride + x`.
    pub fn offset(&self, x: usize, y: usize) -> (at: usize)
        requires
            self.wf(),
            self.covers(x as int, y as int),
        ensures
            at == y * self.stride + x,
            at < self.data@.len(),
    {
        let length: usize = self.data.len();
        proof {
            lemma_position_in_buffer(x as int, y as int, self.stride as int, self.height as int);
            assert(0 <= y * self.stride <= y * self.stride + x) by (nonlinear_arith)
                requires
                    0 <= y,
                    0 <= self.stride,
                    0 <= x,
            ;
        }
        y * self.stride + x
    }

    /// Reads the byte at `(x, y)`.
    pub fn get(&self, x: usize, y: usize) -> (value: u8)
        requires
            self.wf(),
            self.covers(x as int, y as int),
        ensures
            value == self.sample(x as int, y as int),
    {
        let at: usize = self.offset(x, y);
        self.data[at]
    }

    /// Writes the byte at `(x, y)` and leaves every other byte alone.
    pub fn set(&mut self, x: usize, y: usize, value: u8)
        requires
            old(self).wf(),
            old(self).covers(x as int, y as int),
        ensures
            final(self).wf(),
            final(self).same_layout(old(self)),
            final(self).sample(x as int, y as int) == value,
            forall|i: int, j: int|
                old(self).covers(i, j) && (i != x || j != y) ==> #[trigger] final(self).sample(i, j)
                    == old(self).sample(i, j),
    {
        let at: usize = self.offset(x, y);
        let ghost before = *self;
        self.data[at] = value;
        proof {
            assert forall|i: int, j: int| before.covers(i, j) && (i != x || j != y) implies (
            #[trigger] self.sample(i, j)) == before.sample(i, j) by {
                lemma_positions_differ(i, j, x as int, y as int, self.stride as int);
                lemma_position_in_buffer(i, j, self.stride as int, self.height as int);
            }
        }
    }

    /// Copies a rectangle of `width` by `height` samples from `source`,
    /// where it begins at `(from_x, from_y)`, to `(to_x, to_y)` in this
    /// plane.  Every byte outside the rectangle stays as it is.
    pub fn copy_from(
        &mut self,
        source: &Plane,
        from_x: usize,
        from_y: usize,
        to_x: usize,
        to_y: usize,
        width: usize,
        height: usize,
    )
        requires
            old(self).wf(),
            source.wf(),
            from_x + width <= source.width,
            from_y + height <= source.height,
            to_x + width <= old(self).width,
            to_y + height <= old(self).height,
        ensures
            final(self).wf(),
            final(self).same_layout(old(self)),
            forall|i: int, j: int|
                old(self).covers(i, j) ==> #[trigger] final(self).sample(i, j) == if to_x <= i < to_x
                    + width && to_y <= j < to_y + height {
                    source.sample(i - to_x + from_x, j - to_y + from_y)
                } else {
                    old(self).sample(i, j)
                },
    {
        let ghost before = *self;
        let mut row: usize = 0;
        while row < height
            invariant
                row <= height,
                self.wf(),
                source.wf(),
                before.wf(),
                self.same_layout(&before),
                from_x + width <= source.width,
                from_y + height <= source.height,
                to_x + width <= self.width,
                to_y + height <= self.height,
                forall|i: int, j: int|
                    before.covers(i, j) ==> #[trigger] self.sample(i, j) == if to_x <= i < to_x + width
                        && to_y <= j < to_y + row {
                        source.sample(i - to_x + from_x, j - to_y + from_y)
                    } else {
                        before.sample(i, j)
                    },
            decreases height - row,
        {
            let mut column: usize = 0;
            while column < width
                invariant
                    row < height,
                    column <= width,
                    self.wf(),
                    source.wf(),
                    before.wf(),
                    self.same_layout(&before),
                    from_x + width <= source.width,
                    from_y + height <= source.height,
                    to_x + width <= self.width,
                    to_y + height <= self.height,
                    forall|i: int, j: int|
                        before.covers(i, j) ==> #[trigger] self.sample(i, j) == if to_x <= i < to_x
                            + width && to_y <= j < to_y + row {
                            source.sample(i - to_x + from_x, j - to_y + from_y)
                        } else if j == to_y + row && to_x <= i < to_x + column {
                            source.sample(i - to_x + from_x, j - to_y + from_y)
                        } else {
                            before.sample(i, j)
                        },
                decreases width - column,
            {
                let value: u8 = source.get(from_x + column, from_y + row);
                self.set(to_x + column, to_y + row, value);
                column += 1;
            }
            row += 1;
        }
    }

    /// Writes `values[x]` to every sample of column `x`, for every column.
    /// The padding stays as it is.
    pub fn paint_columns(&mut self, values: &Vec<u8>)
        requires
            old(self).wf(),
            values@.len() >= old(self).width,
        ensures
            final(self).wf(),
            final(self).same_layout(old(self)),
            forall|i: int, j: int|
                old(self).covers(i, j) ==> #[trigger] final(self).sample(i, j) == if i < old(
                    self,
                ).width {
                    values@[i]
                } else {
                    old(self).sample(i, j)
                },
    {
        let ghost before = *self;
        let width: usize = self.width;
        let height: usize = self.height;
        let mut row: usize = 0;
        while row < height
            invariant
                row <= height,
                self.wf(),
                before.wf(),
                self.same_layout(&before),
                width == self.width,
                height == self.height,
                values@.len() >= width,
                forall|i: int, j: int|
                    before.covers(i, j) ==> #[trigger] self.sample(i, j) == if i < width && j < row {
                        values@[i]
                    } else {
                        before.sample(i, j)
                    },
            decreases height - row,
        {
            let mut column: usize = 0;
            while column < width
                invariant
                    row < height,
                    column <= width,
                    self.wf(),
                    before.wf(),
                    self.same_layout(&before),
                    width == self.width,
                    height == self.height,
                    values@.len() >= width,
                    forall|i: int, j: int|
                        before.covers(i, j) ==> #[trigger] self.sample(i, j) == if i < width && j
                            < row {
                            values@[i]
                        } else if j == row && i < column {
                            values@[i]
                        } else {
                            before.sample(i, j)
                        },
                decreases width - column,
            {
                self.set(column, row, values[column]);
                column += 1;
            }
            row += 1;
        }
    }

    /// A new plane that holds the rectangle of `width` by `height` samples
    /// which begins at `(x, y)`, without padding.
    pub fn region(&self, x: usize, y: usize, width: usize, height: usize) -> (cut: Plane)
        requires
            self.wf(),
            x + width <= self.width,
            y + height <= self.height,
        ensures
            cut.wf(),
            cut.width == width,
            cut.height == height,
            cut.stride == width,
            forall|i: int, j: int|
                cut.holds(i, j) ==> #[trigger] cut.sample(i, j) == self.sample(x + i, y + j),
    {
        proof {
            assert(width * height <= self.stride * self.height) by (nonlinear_arith)
                requires
                    0 <= width <= self.stride,
                    0 <= height <= self.height,
            ;
            assert(self.stride * self.height == self.data@.len());
        }
        let length: usize = self.data.len();
        let mut cut: Plane = Plane::new(width, height, width, 0).unwrap();
        cut.copy_from(self, x, y, 0, 0, width, height);
        cut
    }
}

impl CanvasFrame {
    /// The planes are well formed and have the sizes that go with the
    /// frame's size: the luma plane the frame's own, the chroma planes half
    /// of it, rounded up.
    pub open spec fn wf(&self) -> bool {
        &&& self.luma.wf()
        &&& self.chroma_u.wf()
        &&& self.chroma_v.wf()
        &&& self.luma.width == self.width
        &&& self.luma.height == self.height
        &&& self.chroma_u.width == chroma_length(self.width as int)
        &&& self.chroma_u.height == chroma_length(self.height as int)
        &&& self.chroma_v.width == chroma_length(self.width as int)
        &&& self.chroma_v.height == chroma_length(self.height as int)
    }

    /// The two frames have the same size and the same samples.
    pub open spec fn same_picture(&self, other: &CanvasFrame) -> bool {
        &&& self.width == other.width
        &&& self.height == other.height
        &&& self.luma.same_samples(&other.luma)
        &&& self.chroma_u.same_samples(&other.chroma_u)
        &&& self.chroma_v.same_samples(&other.chroma_v)
    }

    /// A frame of the given size without padding: black luma, neutral
    /// chroma, no timestamp.
    pub fn new(width: u32, height: u32) -> (made: Option<CanvasFrame>)
        ensures
            made is Some <==> width * height <= usize::MAX,
            made matches Some(frame) ==> {
                &&& frame.wf()
                &&& frame.width == width
                &&& frame.height == height
                &&& frame.luma.stride == width
                &&& frame.chroma_u.stride == chroma_length(width as int)
                &&& frame.chroma_v.stride == chroma_length(width as int)
                &&& frame.pts is None
                &&& forall|x: int, y: int| frame.luma.holds(x, y) ==> frame.luma.sample(x, y) == 0
                &&& forall|x: int, y: int|
                    frame.chroma_u.holds(x, y) ==> frame.chroma_u.sample(x, y) == 128
                &&& forall|x: int, y: int|
                    frame.chroma_v.holds(x, y) ==> frame.chroma_v.sample(x, y) == 128
            },
    {
        let w: usize = width as usize;
        let h: usize = height as usize;
        let half_w: usize = w / 2 + w % 2;
        let half_h: usize = h / 2 + h % 2;
        let luma: Plane = match Plane::new(w, h, w, 0) {
            Some(p) => p,
            None => {
                return None;
            },
        };
        proof {
            assert(half_w * half_h <= w * h) by (nonlinear_arith)
                requires
                    0 <= half_w <= w,
                    0 <= half_h <= h,
            ;
        }
        let chroma_u: Plane = Plane::new(half_w, half_h, half_w, 128).unwrap();
        let chroma_v: Plane = Plane::new(half_w, half_h, half_w, 128).unwrap();
        proof {
            assert forall|x: int, y: int| luma.holds(x, y) implies luma.sample(x, y) == 0 by {
                lemma_position_in_buffer(x, y, luma.stride as int, luma.height as int);
            }
            assert forall|x: int, y: int| chroma_u.holds(x, y) implies chroma_u.sample(x, y)
                == 128 by {
                lemma_position_in_buffer(x, y, chroma_u.stride as int, chroma_u.height as int);
            }
            assert forall|x: int, y: int| chroma_v.holds(x, y) implies chroma_v.sample(x, y)
                == 128 by {
                lemma_position_in_buffer(x, y, chroma_v.stride as int, chroma_v.height as int);
            }
        }
        Some(CanvasFrame { width, height, luma, chroma_u, chroma_v, pts: None })
    }

    /// Decides [`CanvasFrame::wf`].
    pub fn is_well_formed(&self) -> (ok: bool)
        ensures
            ok == self.wf(),
    {
        let w: usize = self.width as usize;
        let h: usize = self.height as usize;
        let half_w: usize = w / 2 + w % 2;
        let half_h: usize = h / 2 + h % 2;
        self.luma.is_well_formed() && self.chroma_u.is_well_formed()
            && self.chroma_v.is_well_formed() && self.luma.width == w && self.luma.height == h
            && self.chroma_u.width == half_w && self.chroma_u.height == half_h
            && self.chroma_v.width == half_w && self.chroma_v.height == half_h
    }
}

} // verus!
