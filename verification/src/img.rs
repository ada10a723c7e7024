//! Images and animations written by the renderer's tools.
use vstd::prelude::*;

pub use crate::debug::animation::create_boomerang;

verus! {

/// The delay between the frames of an animation, `delay_num / delay_den`
/// seconds.
#[derive(Clone, Copy, Debug, PartialEq, Eq)]
pub struct AnimationParams {
    pub delay_num: u16,
    pub delay_den: u16,
}

/// Whether cell `(x, y)` of a checkerboard is a dark one: those whose
/// coordinates add up to an even number.
pub open spec fn checkerboard_dark(x: int, y: int) -> bool {
    (x + y) % 2 == 0
}

/// Law: the first cell is dark, and cells next to each other, across or
/// down, always differ.
pub proof fn lemma_checkerboard_alternates(x: int, y: int)
    requires
        0 <= x,
        0 <= y,
    ensures
        checkerboard_dark(0, 0),
        checkerboard_dark(x, y) != checkerboard_dark(x + 1, y),
        checkerboard_dark(x, y) != checkerboard_dark(x, y + 1),
{
}

proof fn lemma_row_major_index(yy: int, xx: int, y: int, width: int)
    by (nonlinear_arith)
    requires
        0 <= yy < y,
        0 <= xx < width,
    ensures
        0 <= yy * width + xx < y * width,
{
}

/// The cells of a `width` by `height` checkerboard in row order, `true` for
/// the dark ones.
pub fn checkerboard_pattern(width: u32, height: u32) -> (cells: Vec<bool>)
    requires
        width * height <= usize::MAX,
    ensures
        cells.len() == width * height,
        forall|y: int, x: int|
            0 <= y < height && 0 <= x < width ==> #[trigger] cells[y * width + x] == checkerboard_dark(
                x,
                y,
            ),
{
    let mut cells: Vec<bool> = Vec::new();
    let mut y: u32 = 0;
    while y < height
        invariant
            y <= height,
            width * height <= usize::MAX,
            cells.len() == y * width,
            forall|yy: int, x: int|
                0 <= yy < y && 0 <= x < width ==> #[trigger] cells[yy * width + x] == checkerboard_dark(
                    x,
                    yy,
                ),
        decreases height - y,
    {
        let mut x: u32 = 0;
        while x < width
            invariant
                y < height,
                x <= width,
                width * height <= usize::MAX,
                cells.len() == y * width + x,
                forall|yy: int, xx: int|
                    0 <= yy < y && 0 <= xx < width ==> #[trigger] cells[yy * width + xx]
                        == checkerboard_dark(xx, yy),
                forall|xx: int| 0 <= xx < x ==> #[trigger] cells[y * width + xx] == checkerboard_dark(xx, y as int),
            decreases width - x,
        {
            proof {
                assert(y * width + x < height * width) by (nonlinear_arith)
                    requires y < height, x < width;
            }
            let dark = (x as u64 + y as u64) % 2 == 0;
            let ghost before = cells@;
            cells.push(dark);
            proof {
                assert forall|yy: int, xx: int| 0 <= yy < y && 0 <= xx < width implies #[trigger] cells[yy
                    * width + xx] == checkerboard_dark(xx, yy) by {
                    lemma_row_major_index(yy, xx, y as int, width as int);
                    assert(cells@[yy * width + xx] == before[yy * width + xx]);
                }
            }
            x += 1;
        }
        proof {
            assert((y + 1) * width == y * width + width) by (nonlinear_arith);
            assert forall|yy: int, xx: int| 0 <= yy < y + 1 && 0 <= xx < width implies #[trigger] cells[yy * width + xx]
                == checkerboard_dark(xx, yy) by {
                if yy < y {
                } else {
                    assert(yy == y);
                }
            }
        }
        y += 1;
    }
    assert(height * width == width * height) by (nonlinear_arith);
    cells
}

} // verus!
