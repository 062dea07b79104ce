//! The abstract drawing surface that a `Ui` paints on.

use vstd::prelude::*;

use crate::common::{Color, Point, Rect, Vector};
use crate::layout::Alignment;

verus! {

/// The type of line cap to use when rendering.
#[derive(Copy, Clone, Debug, PartialEq, Eq, Structural)]
pub enum LineCap {
    /// The ends are not extended.
    Butt,
    /// The ends are extended by the line's thickness divided by two.
    Square,
    /// The ends are extended by rounding them off with semicircles.
    Round,
}

/// The renderer trait, used for all things drawing-related.
///
/// A renderer keeps a current transform and a current clip region, and a stack
/// on which both can be saved. The layout engine promises nothing about what a
/// renderer paints, and a renderer promises nothing to the layout engine: the
/// methods carry no contract.
pub trait Renderer {
    /// The font type used for rendering text. May be `()` if text rendering isn't supported.
    type Font;

    /// Pushes the current transform matrix and clip region onto a stack.
    fn push(&mut self);

    /// Pops the topmost transform matrix and clip region off the stack and
    /// overwrites the current transform matrix with it.
    fn pop(&mut self);

    /// Translates the transform matrix by the given vector.
    fn translate(&mut self, vec: Vector);

    /// Updates the clip region to the intersection of the current clip region
    /// and the provided rectangle. Initially, the clip region spans the whole
    /// window. This only allows for shrinking the clip region in size. The only
    /// way to increase its size is to use `push()` and `pop()`.
    ///
    /// The rectangle should be subject to translation.
    fn clip(&mut self, rect: Rect);

    /// Draws a fill for the provided rectangle, with the given color and corner radius.
    fn fill(&mut self, rect: Rect, color: Color, radius: i32);

    /// Draws an outline for the provided rectangle, with the given color,
    /// corner radius, and thickness.
    fn outline(&mut self, rect: Rect, color: Color, radius: i32, thickness: i32);

    /// Draws a line from point A to point B, with the given color, cap type, and thickness.
    fn line(&mut self, a: Point, b: Point, color: Color, cap: LineCap, thickness: i32);

    /// Draws text aligned inside of the provided rectangle, with the given color.
    ///
    /// Returns the horizontal advance of the text.
    fn text(
        &mut self,
        rect: Rect,
        font: &Self::Font,
        text: &str,
        color: Color,
        alignment: Alignment,
    ) -> i32;
}

/// A dummy renderer. This can be used for executing graphics commands without
/// a graphical backend available: every command leaves it as it was, and text
/// has no advance.
pub struct NoRenderer;

/// A dummy font used by the `NoRenderer` backend.
pub struct NoRendererFont;

impl Renderer for NoRenderer {
    type Font = NoRendererFont;

    fn push(&mut self)
        ensures
            *final(self) == *old(self),
    {
    }

    fn pop(&mut self)
        ensures
            *final(self) == *old(self),
    {
    }

    fn translate(&mut self, _vec: Vector)
        ensures
            *final(self) == *old(self),
    {
    }

    fn clip(&mut self, _rect: Rect)
        ensures
            *final(self) == *old(self),
    {
    }

    fn fill(&mut self, _rect: Rect, _color: Color, _radius: i32)
        ensures
            *final(self) == *old(self),
    {
    }

    fn outline(&mut self, _rect: Rect, _color: Color, _radius: i32, _thickness: i32)
        ensures
            *final(self) == *old(self),
    {
    }

    fn line(&mut self, _a: Point, _b: Point, _color: Color, _cap: LineCap, _thickness: i32)
        ensures
            *final(self) == *old(self),
    {
    }

    fn text(
        &mut self,
        _rect: Rect,
        _font: &Self::Font,
        _text: &str,
        _color: Color,
        _alignment: Alignment,
    ) -> (advance: i32)
        ensures
            advance == 0,
            *final(self) == *old(self),
    {
        0
    }
}

} // verus!
