//! The finished image: one pixel for every position, in row-major order.

use crate::pixel::Pixel;
use vstd::prelude::*;

verus! {

/// Why no image is made.
#[derive(Clone, Copy, Debug, PartialEq, Eq, Structural)]
pub enum FrameError {
    /// The width or the height is zero.
    Empty,
    /// The number of pixels does not fit the machine's address range.
    TooLarge,
}

/// Where the pixel in column `col` of row `row` lies in an image of the given
/// width: rows follow one another, each from left to right.
pub open spec fn slot(width: nat, col: nat, row: nat) -> nat {
    row * width + col
}

/// What a [`Frame`] holds.
pub struct FrameView {
    /// The number of columns.
    pub width: nat,
    /// The number of rows.
    pub height: nat,
    /// The pixels, in row-major order.
    pub pixels: Seq<Pixel>,
}

impl FrameView {
    /// The pixel in column `col` of row `row`.
    pub open spec fn at(self, col: nat, row: nat) -> Pixel {
        self.pixels[slot(self.width, col, row) as int]
    }

    /// The image is not empty and has one pixel for every position.
    pub open spec fn complete(self) -> bool {
        &&& self.width > 0
        &&& self.height > 0
        &&& self.pixels.len() == self.width * self.height
    }
}

/// An image. It is never empty and holds a pixel for every position.
#[derive(Debug)]
pub struct Frame {
    width: usize,
    height: usize,
    pixels: Vec<Pixel>,
}

impl View for Frame {
    type V = FrameView;

    closed spec fn view(&self) -> FrameView {
        FrameView {
            width: self.width as nat,
            height: self.height as nat,
            pixels: self.pixels@,
        }
    }
}

/// In row-major order a position comes before another exactly when its row
/// does, or when they share the row and its column does. So no two positions
/// share a slot.
pub proof fn lemma_slot_order(width: nat, col_a: nat, row_a: nat, col_b: nat, row_b: nat)
    requires
        col_a < width,
        col_b < width,
    ensures
        slot(width, col_a, row_a) < slot(width, col_b, row_b) <==> (row_a < row_b || (row_a
            == row_b && col_a < col_b)),
        slot(width, col_a, row_a) == slot(width, col_b, row_b) <==> (row_a == row_b && col_a
            == col_b),
{
    let w = width as int;
    let ra = row_a as int;
    let rb = row_b as int;
    if ra < rb {
        assert(ra * w + w <= rb * w) by (nonlinear_arith)
            requires
                ra + 1 <= rb,
                w >= 0,
        ;
    } else if rb < ra {
        assert(rb * w + w <= ra * w) by (nonlinear_arith)
            requires
                rb + 1 <= ra,
                w >= 0,
        ;
    }
}

/// Every position of an image has a slot among its pixels.
pub proof fn lemma_slot_in_range(width: nat, height: nat, col: nat, row: nat)
    requires
        col < width,
        row < height,
    ensures
        slot(width, col, row) < width * height,
{
    let w = width as int;
    let h = height as int;
    let r = row as int;
    assert(r * w + w <= w * h) by (nonlinear_arith)
        requires
            r + 1 <= h,
            w >= 0,
    ;
}

/// Every slot of an image belongs to the position that division by the width
/// gives: the quotient is the row and the remainder is the column.
pub proof fn lemma_slot_position(width: nat, height: nat, index: nat)
    requires
        index < width * height,
    ensures
        index % width < width,
        index / width < height,
        slot(width, index % width, index / width) == index,
{
    let w = width as int;
    let h = height as int;
    let i = index as int;
    assert(w > 0) by (nonlinear_arith)
        requires
            i < w * h,
            i >= 0,
            w >= 0,
    ;
    assert(0 <= i % w < w && i == (i / w) * w + i % w && 0 <= i / w < h) by (nonlinear_arith)
        requires
            w > 0,
            0 <= i < w * h,
    ;
}

impl Frame {
    #[verifier::type_invariant]
    spec fn sound(self) -> bool {
        self@.complete()
    }

    /// The number of columns.
    pub fn width(&self) -> (w: usize)
        ensures
            w == self@.width,
            self@.complete(),
    {
        proof {
            use_type_invariant(self);
        }
        self.width
    }

    /// The number of rows.
    pub fn height(&self) -> (h: usize)
        ensures
            h == self@.height,
            self@.complete(),
    {
        proof {
            use_type_invariant(self);
        }
        self.height
    }

    /// The pixel in column `col` of row `row`, if the image has that position.
    pub fn get(&self, col: usize, row: usize) -> (pixel: Option<Pixel>)
        ensures
            self@.complete(),
            pixel == if col < self@.width && row < self@.height {
                Some(self@.at(col as nat, row as nat))
            } else {
                None
            },
    {
        proof {
            use_type_invariant(self);
        }
        if col < self.width && row < self.height {
            let count: usize = self.pixels.len();
            proof {
                lemma_slot_in_range(self@.width, self@.height, col as nat, row as nat);
                assert(row * self.width + col < count);
                assert(0 <= row * self.width) by (nonlinear_arith);
            }
            Some(self.pixels[row * self.width + col])
        } else {
            None
        }
    }
}

/// Makes the image of the given size whose pixels `paint` gives, called with
/// the column and the row of each position, row by row and from left to right
/// in a row.
pub fn render<F: Fn(usize, usize) -> Pixel>(width: usize, height: usize, paint: F) -> (res: Result<
    Frame,
    FrameError,
>)
    requires
        forall|col: usize, row: usize|
            col < width && row < height ==> call_requires(paint, (col, row)),
    ensures
        match res {
            Err(FrameError::Empty) => width == 0 || height == 0,
            Err(FrameError::TooLarge) => width > 0 && height > 0 && width * height > usize::MAX,
            Ok(frame) => {
                &&& width * height <= usize::MAX
                &&& frame@.complete()
                &&& frame@.width == width
                &&& frame@.height == height
                &&& forall|col: usize, row: usize|
                    col < width && row < height ==> call_ensures(
                        paint,
                        (col, row),
                        #[trigger] frame@.at(col as nat, row as nat),
                    )
            },
        },
{
    if width == 0 || height == 0 {
        return Err(FrameError::Empty);
    }
    if width.checked_mul(height).is_none() {
        return Err(FrameError::TooLarge);
    }
    let mut pixels: Vec<Pixel> = Vec::new();
    let mut row: usize = 0;
    while row < height
        invariant
            0 < width,
            row <= height,
            width * height <= usize::MAX,
            pixels@.len() == row * width,
            forall|c: usize, r: usize|
                c < width && r < row ==> call_ensures(
                    paint,
                    (c, r),
                    #[trigger] pixels@[slot(width as nat, c as nat, r as nat) as int],
                ),
            forall|c: usize, r: usize| c < width && r < height ==> call_requires(paint, (c, r)),
        decreases height - row,
    {
        let mut col: usize = 0;
        while col < width
            invariant
                0 < width,
                row < height,
                col <= width,
                width * height <= usize::MAX,
                pixels@.len() == row * width + col,
                forall|c: usize, r: usize|
                    c < width && (r < row || (r == row && c < col)) ==> call_ensures(
                        paint,
                        (c, r),
                        #[trigger] pixels@[slot(width as nat, c as nat, r as nat) as int],
                    ),
                forall|c: usize, r: usize|
                    c < width && r < height ==> call_requires(paint, (c, r)),
            decreases width - col,
        {
            let pixel: Pixel = paint(col, row);
            let ghost before = pixels@;
            pixels.push(pixel);
            proof {
                assert forall|c: usize, r: usize|
                    c < width && (r < row || (r == row && c < col + 1)) implies call_ensures(
                    paint,
                    (c, r),
                    #[trigger] pixels@[slot(width as nat, c as nat, r as nat) as int],
                ) by {
                    lemma_slot_order(width as nat, c as nat, r as nat, col as nat, row as nat);
                    if r == row && c == col {
                    } else {
                        assert(pixels@[slot(width as nat, c as nat, r as nat) as int]
                            == before[slot(width as nat, c as nat, r as nat) as int]);
                    }
                }
            }
            col = col + 1;
        }
        proof {
            assert(row * width + width == (row + 1) * width) by (nonlinear_arith);
        }
        row = row + 1;
    }
    proof {
        assert(height * width == width * height) by (nonlinear_arith);
    }
    let frame = Frame { width, height, pixels };
    assert forall|c: usize, r: usize| c < width && r < height implies call_ensures(
        paint,
        (c, r),
        #[trigger] frame@.at(c as nat, r as nat),
    ) by {
        assert(frame@.at(c as nat, r as nat) == frame@.pixels[slot(
            width as nat,
            c as nat,
            r as nat,
        ) as int]);
    }
    Ok(frame)
}

} // verus!
