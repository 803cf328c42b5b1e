//! Points, rectangles and the two ways a layout combines rectangles.
//!
//! A rectangle covers the pixels from its top-left corner up to, but not
//! including, its bottom-right corner, so that two rectangles that share an
//! edge do not share a pixel.

use vstd::prelude::*;

verus! {

/// A position on the screen, in device pixels.
#[derive(Debug, Clone, Copy, PartialEq, Eq, Structural)]
pub struct Point {
    pub x: i16,
    pub y: i16,
}

impl Point {
    pub fn new(x: i16, y: i16) -> (p: Point)
        ensures
            p == (Point { x, y }),
    {
        Point { x, y }
    }
}

/// The two colours of the display.
#[derive(Debug, Clone, Copy, PartialEq, Eq, Structural)]
pub enum PixelColor {
    Dark,
    Light,
}

/// An axis-aligned rectangle, given by its top-left and bottom-right corners.
#[derive(Debug, Clone, Copy, PartialEq, Eq, Structural)]
pub struct Rectangle {
    pub tl: Point,
    pub br: Point,
}

/// A request to paint a rectangle in one colour.
#[derive(Debug, Clone, Copy, PartialEq, Eq, Structural)]
pub struct FillCommand {
    pub rect: Rectangle,
    pub color: PixelColor,
}

/// Whether `v` can be stored in a coordinate.
pub open spec fn fits_coord(v: int) -> bool {
    i16::MIN <= v <= i16::MAX
}

/// The rectangle of the given height that touches `reference` from below
/// (`height >= 0`) or from above (`height < 0`), with the same left and right
/// edges.
pub open spec fn v_stack(reference: Rectangle, height: int) -> Rectangle {
    if height >= 0 {
        Rectangle {
            tl: Point { x: reference.tl.x, y: reference.br.y },
            br: Point { x: reference.br.x, y: (reference.br.y + height) as i16 },
        }
    } else {
        Rectangle {
            tl: Point { x: reference.tl.x, y: (reference.tl.y + height) as i16 },
            br: Point { x: reference.br.x, y: reference.tl.y },
        }
    }
}

/// The rectangle that fills the gap between the bottom edge of `above` and the
/// top edge of `below`, from the left edge of `above` to the right edge of
/// `below`.
pub open spec fn v_span(above: Rectangle, below: Rectangle) -> Rectangle {
    Rectangle {
        tl: Point { x: above.tl.x, y: above.br.y },
        br: Point { x: below.br.x, y: below.tl.y },
    }
}

impl Rectangle {
    pub open spec fn width(self) -> int {
        self.br.x - self.tl.x
    }

    pub open spec fn height(self) -> int {
        self.br.y - self.tl.y
    }

    /// A rectangle is proper when it covers at least one pixel.
    pub open spec fn is_proper(self) -> bool {
        self.width() > 0 && self.height() > 0
    }

    /// Whether the pixel at (`x`, `y`) lies in the rectangle.
    pub open spec fn covers(self, x: int, y: int) -> bool {
        self.tl.x <= x < self.br.x && self.tl.y <= y < self.br.y
    }

    /// Whether the two rectangles have a pixel in common.
    pub open spec fn overlaps(self, other: Rectangle) -> bool {
        exists|x: int, y: int| self.covers(x, y) && other.covers(x, y)
    }

    pub fn new(tl: Point, br: Point) -> (r: Rectangle)
        ensures
            r == (Rectangle { tl, br }),
    {
        Rectangle { tl, br }
    }

    pub fn new_coords(x0: i16, y0: i16, x1: i16, y1: i16) -> (r: Rectangle)
        ensures
            r == (Rectangle { tl: Point { x: x0, y: y0 }, br: Point { x: x1, y: y1 } }),
    {
        Rectangle { tl: Point { x: x0, y: y0 }, br: Point { x: x1, y: y1 } }
    }

    /// Stacks a rectangle of `|height|` rows against `reference`: below it for
    /// a height that is not negative, above it for a negative one.
    pub fn new_v_stack(reference: Rectangle, height: i16) -> (r: Rectangle)
        requires
            height >= 0 ==> fits_coord(reference.br.y + height),
            height < 0 ==> fits_coord(reference.tl.y + height),
        ensures
            r == v_stack(reference, height as int),
            r.width() == reference.width(),
            height >= 0 ==> r.tl.y == reference.br.y && r.height() == height,
            height < 0 ==> r.br.y == reference.tl.y && r.height() == -height,
    {
        if height >= 0 {
            Rectangle::new_coords(
                reference.tl.x,
                reference.br.y,
                reference.br.x,
                reference.br.y + height,
            )
        } else {
            Rectangle::new_coords(
                reference.tl.x,
                reference.tl.y + height,
                reference.br.x,
                reference.tl.y,
            )
        }
    }

    /// Spans the gap between `above` and `below`.
    pub fn new_v_span(above: Rectangle, below: Rectangle) -> (r: Rectangle)
        ensures
            r == v_span(above, below),
            r.tl.y == above.br.y,
            r.br.y == below.tl.y,
    {
        Rectangle::new_coords(above.tl.x, above.br.y, below.br.x, below.tl.y)
    }

    /// Whether the rectangle covers at least one pixel.
    pub fn proper(&self) -> (b: bool)
        ensures
            b == self.is_proper(),
    {
        self.br.x > self.tl.x && self.br.y > self.tl.y
    }
}

/// Two rectangles of which one ends where the other begins, in either
/// direction, have no pixel in common.
pub proof fn lemma_adjacent_rectangles_disjoint(a: Rectangle, b: Rectangle)
    requires
        a.br.y <= b.tl.y || b.br.y <= a.tl.y || a.br.x <= b.tl.x || b.br.x <= a.tl.x,
    ensures
        !a.overlaps(b),
{
}

/// A rectangle stacked against another has no pixel in common with it.
pub proof fn lemma_v_stack_disjoint(reference: Rectangle, height: int)
    requires
        height >= 0 ==> fits_coord(reference.br.y + height),
        height < 0 ==> fits_coord(reference.tl.y + height),
    ensures
        !v_stack(reference, height).overlaps(reference),
{
    lemma_adjacent_rectangles_disjoint(v_stack(reference, height), reference);
}

/// A rectangle that spans the gap between two others has no pixel in common
/// with either.
pub proof fn lemma_v_span_disjoint(above: Rectangle, below: Rectangle)
    ensures
        !v_span(above, below).overlaps(above),
        !v_span(above, below).overlaps(below),
{
    lemma_adjacent_rectangles_disjoint(v_span(above, below), above);
    lemma_adjacent_rectangles_disjoint(v_span(above, below), below);
}

} // verus!
