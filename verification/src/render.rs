//! The renderer: a frame laid out as a row of rectangles across a canvas.
//!
//! Rendering produces a display list. Carrying the list out on a drawing
//! surface is left to the caller. Positions are exact: a rectangle's
//! horizontal extent is given as numerators over a common divisor, the
//! number of pixels, so that no rounding happens before the surface's own
//! arithmetic.

use vstd::prelude::*;
use crate::color::{Color, Frame};

verus! {

/// The number of drawing operations issued for each pixel.
pub const OPS_PER_PIXEL: usize = 4;

/// An upright rectangle on the canvas, as tall as the canvas.
///
/// In canvas units its left edge lies at `left_numerator / divisor`, it is
/// `width_numerator / divisor` wide, its top edge lies at zero and it is
/// `height` tall.
#[derive(Clone, Copy, Debug, PartialEq, Eq, Structural)]
pub struct PixelRect {
    pub left_numerator: i128,
    pub width_numerator: i32,
    pub divisor: usize,
    pub height: i32,
}

impl PixelRect {
    /// The left edge, in units of one `divisor`-th of a canvas unit.
    pub open spec fn left_edge(self) -> int {
        self.left_numerator as int
    }

    /// The right edge, in units of one `divisor`-th of a canvas unit.
    pub open spec fn right_edge(self) -> int {
        self.left_numerator + self.width_numerator
    }
}

/// One step of drawing.
#[derive(Clone, Copy, Debug, PartialEq, Eq, Structural)]
pub enum DrawOp {
    /// Make this colour the source for what follows.
    SetSource(Color),
    /// Add this rectangle to the current path.
    Rectangle(PixelRect),
    /// Outline the current path and keep it.
    StrokePreserve,
    /// Fill the current path and clear it.
    Fill,
}

/// The rectangle of the pixel at `position` in a frame of `pixel_count`
/// pixels, on a canvas of the given size: the canvas is cut into
/// `pixel_count` columns of equal width, and the pixel gets the column at
/// its position.
pub open spec fn rect_at(position: int, pixel_count: int, canvas_width: i32, canvas_height: i32)
    -> PixelRect {
    PixelRect {
        left_numerator: (position * canvas_width) as i128,
        width_numerator: canvas_width,
        divisor: pixel_count as usize,
        height: canvas_height,
    }
}

/// The operation at place `k` of the display list: pixel by pixel from left
/// to right, and for each pixel its colour, its rectangle, an outline and a
/// fill, in this order.
pub open spec fn op_at(frame: Seq<Color>, canvas_width: i32, canvas_height: i32, k: int)
    -> DrawOp {
    let position = k / (OPS_PER_PIXEL as int);
    let step = k % (OPS_PER_PIXEL as int);
    if step == 0 {
        DrawOp::SetSource(frame[position])
    } else if step == 1 {
        DrawOp::Rectangle(rect_at(position, frame.len() as int, canvas_width, canvas_height))
    } else if step == 2 {
        DrawOp::StrokePreserve
    } else {
        DrawOp::Fill
    }
}

/// The display list of a frame on a canvas of the given size.
pub open spec fn display_list(frame: Seq<Color>, canvas_width: i32, canvas_height: i32) -> Seq<
    DrawOp,
> {
    Seq::new(
        OPS_PER_PIXEL as nat * frame.len(),
        |k: int| op_at(frame, canvas_width, canvas_height, k),
    )
}

/// A position times a canvas width fits the numerator's type.
proof fn lemma_numerator_fits(position: int, canvas_width: i32)
    requires
        0 <= position <= usize::MAX,
    ensures
        i128::MIN <= position * canvas_width <= i128::MAX,
{
    assert(-0x8000_0000_0000_0000_0000_0000 <= position * canvas_width
        <= 0x8000_0000_0000_0000_0000_0000) by (nonlinear_arith)
        requires
            0 <= position <= 0xffff_ffff_ffff_ffff,
            -0x8000_0000 <= canvas_width <= 0x8000_0000,
    ;
}

/// The rectangle of the pixel at `position` in a frame of `pixel_count`
/// pixels.
pub fn pixel_rect(
    position: usize,
    pixel_count: usize,
    canvas_width: i32,
    canvas_height: i32,
) -> (rect: PixelRect)
    ensures
        rect == rect_at(position as int, pixel_count as int, canvas_width, canvas_height),
        rect.left_edge() == position * canvas_width,
        rect.right_edge() == (position + 1) * canvas_width,
{
    proof {
        lemma_numerator_fits(position as int, canvas_width);
        assert((position + 1) * canvas_width == position * canvas_width + canvas_width)
            by (nonlinear_arith);
    }
    PixelRect {
        left_numerator: (position as i128) * (canvas_width as i128),
        width_numerator: canvas_width,
        divisor: pixel_count,
        height: canvas_height,
    }
}

/// Projects a frame onto a canvas of the given size.
///
/// The result is the frame's display list: for each pixel, from left to
/// right, its colour is made the source, its rectangle is added, and the
/// rectangle is outlined and filled. A frame without pixels draws nothing.
pub fn render(frame: &Frame, canvas_width: i32, canvas_height: i32) -> (ops: Vec<DrawOp>)
    requires
        OPS_PER_PIXEL * frame@.len() <= usize::MAX,
    ensures
        ops@ == display_list(frame@, canvas_width, canvas_height),
{
    let pixel_count = frame.len();
    let mut ops: Vec<DrawOp> = Vec::new();
    let mut position: usize = 0;
    while position < pixel_count
        invariant
            position <= pixel_count,
            pixel_count == frame@.len(),
            ops@.len() == OPS_PER_PIXEL * position,
            forall|k: int|
                0 <= k < ops@.len() ==> ops@[k] == op_at(frame@, canvas_width, canvas_height, k),
        decreases pixel_count - position,
    {
        ops.push(DrawOp::SetSource(frame[position]));
        ops.push(DrawOp::Rectangle(pixel_rect(position, pixel_count, canvas_width, canvas_height)));
        ops.push(DrawOp::StrokePreserve);
        ops.push(DrawOp::Fill);
        position = position + 1;
    }
    assert(ops@ =~= display_list(frame@, canvas_width, canvas_height));
    ops
}

/// Geometry law: the rectangle of the pixel at `position` spans from
/// `position * canvas_width / pixel_count` to
/// `(position + 1) * canvas_width / pixel_count`, over the whole height of
/// the canvas.
pub proof fn lemma_rect_spans_its_column(
    position: usize,
    pixel_count: usize,
    canvas_width: i32,
    canvas_height: i32,
)
    requires
        position < pixel_count,
    ensures
        ({
            let rect = rect_at(position as int, pixel_count as int, canvas_width, canvas_height);
            &&& rect.divisor == pixel_count
            &&& rect.left_edge() == position * canvas_width
            &&& rect.right_edge() == (position + 1) * canvas_width
            &&& rect.width_numerator == canvas_width
            &&& rect.height == canvas_height
        }),
{
    lemma_numerator_fits(position as int, canvas_width);
    assert((position + 1) * canvas_width == position * canvas_width + canvas_width)
        by (nonlinear_arith);
}

/// Geometry law: the rectangles tile the canvas. The first one starts at
/// zero, each one ends where the next one starts, and the last one ends at
/// the canvas width.
pub proof fn lemma_rects_tile_canvas(
    position: usize,
    pixel_count: usize,
    canvas_width: i32,
    canvas_height: i32,
)
    requires
        position < pixel_count,
    ensures
        rect_at(0, pixel_count as int, canvas_width, canvas_height).left_edge() == 0,
        position + 1 < pixel_count ==> rect_at(
            position as int,
            pixel_count as int,
            canvas_width,
            canvas_height,
        ).right_edge() == rect_at(
            position + 1,
            pixel_count as int,
            canvas_width,
            canvas_height,
        ).left_edge(),
        rect_at(pixel_count - 1, pixel_count as int, canvas_width, canvas_height).right_edge()
            == pixel_count * canvas_width,
{
    lemma_rect_spans_its_column(position, pixel_count, canvas_width, canvas_height);
    lemma_rect_spans_its_column(0, pixel_count, canvas_width, canvas_height);
    let last = (pixel_count - 1) as usize;
    lemma_rect_spans_its_column(last, pixel_count, canvas_width, canvas_height);
    if position + 1 < pixel_count {
        let next = (position + 1) as usize;
        lemma_rect_spans_its_column(next, pixel_count, canvas_width, canvas_height);
    }
    assert(0 * canvas_width == 0) by (nonlinear_arith);
}

/// Layout law: the display list holds four operations for each pixel, and
/// the four of the pixel at `position` are its colour, its rectangle, an
/// outline and a fill.
pub proof fn lemma_display_list_layout(
    frame: Seq<Color>,
    canvas_width: i32,
    canvas_height: i32,
    position: int,
)
    requires
        0 <= position < frame.len(),
    ensures
        ({
            let ops = display_list(frame, canvas_width, canvas_height);
            let first = OPS_PER_PIXEL * position;
            &&& ops.len() == OPS_PER_PIXEL * frame.len()
            &&& ops[first] == DrawOp::SetSource(frame[position])
            &&& ops[first + 1] == DrawOp::Rectangle(
                rect_at(position, frame.len() as int, canvas_width, canvas_height),
            )
            &&& ops[first + 2] == DrawOp::StrokePreserve
            &&& ops[first + 3] == DrawOp::Fill
        }),
{
}

/// Determinism law: the same frame on a canvas of the same size gives the
/// same display list, whenever and however often it is rendered.
pub proof fn lemma_rendering_is_deterministic(
    frame: Seq<Color>,
    canvas_width: i32,
    canvas_height: i32,
    other_frame: Seq<Color>,
    other_width: i32,
    other_height: i32,
)
    requires
        frame == other_frame,
        canvas_width == other_width,
        canvas_height == other_height,
    ensures
        display_list(frame, canvas_width, canvas_height) == display_list(
            other_frame,
            other_width,
            other_height,
        ),
{
}

} // verus!
