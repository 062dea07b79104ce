//! The mathematical model of the group stack.
//!
//! A stack is a `Seq<GroupView>` with the root group first and the current
//! group last. Every operation of the engine is a function from stacks to
//! stacks, written here over unbounded integers; the executable operations
//! promise to compute exactly these functions.

use vstd::prelude::*;

use crate::common::{half, RectView, VectorView};
use crate::layout::{AlignH, AlignV, Alignment, Layout, PaddingView};
use crate::renderer::LineCap;

verus! {

/// The mathematical model of one group: a rectangular layout region with its
/// own cursor and inherited style.
pub struct GroupView {
    /// The group's bounds, in absolute (screen) coordinates.
    pub rect: RectView,
    /// How the group arranges its subgroups.
    pub layout: Layout,
    /// The space that subgroups have consumed so far, relative to the group's
    /// position. It grows negative in the reversed layouts.
    pub cursor: VectorView,
    /// The line cap that lines drawn in this group end with.
    pub line_cap: LineCap,
}

impl GroupView {
    /// The same group with another cursor.
    pub open spec fn with_cursor(self, cursor: VectorView) -> GroupView {
        GroupView { cursor, ..self }
    }

    /// The same group with another rectangle.
    pub open spec fn with_rect(self, rect: RectView) -> GroupView {
        GroupView { rect, ..self }
    }

    /// The same group with another line cap.
    pub open spec fn with_line_cap(self, line_cap: LineCap) -> GroupView {
        GroupView { line_cap, ..self }
    }

    /// The root group of a frame of the given size.
    pub open spec fn root(size: VectorView, layout: Layout) -> GroupView {
        GroupView {
            rect: RectView { position: VectorView::zero(), size },
            layout,
            cursor: VectorView::zero(),
            line_cap: LineCap::Butt,
        }
    }

    /// Where a subgroup of the given size is placed in this group: at the
    /// cursor, measured from the upper-left corner in the forward layouts, and
    /// from the far edge, less the subgroup's own extent, in the reversed ones.
    pub open spec fn anchor(self, size: VectorView) -> VectorView {
        match self.layout {
            Layout::Freeform | Layout::Horizontal | Layout::Vertical => self.rect.position.plus(
                self.cursor,
            ),
            Layout::HorizontalRev => self.rect.top_right().plus(self.cursor).minus(
                VectorView { x: size.x, y: 0 },
            ),
            Layout::VerticalRev => self.rect.bottom_left().plus(self.cursor).minus(
                VectorView { x: 0, y: size.y },
            ),
        }
    }

    /// The subgroup of the given size and layout that is pushed into this
    /// group: placed at the anchor, with a zero cursor and this group's line cap.
    pub open spec fn child(self, size: VectorView, layout: Layout) -> GroupView {
        GroupView {
            rect: RectView { position: self.anchor(size), size },
            layout,
            cursor: VectorView::zero(),
            line_cap: self.line_cap,
        }
    }

    /// The cursor after the given extent has been consumed: moved by the width
    /// in the horizontal layouts and by the height in the vertical ones, away
    /// from the origin in the forward layouts and toward it in the reversed
    /// ones; not moved at all in the freeform layout.
    pub open spec fn advanced(self, extent: VectorView) -> VectorView {
        match self.layout {
            Layout::Freeform => self.cursor,
            Layout::Horizontal => VectorView { x: self.cursor.x + extent.x, y: self.cursor.y },
            Layout::Vertical => VectorView { x: self.cursor.x, y: self.cursor.y + extent.y },
            Layout::HorizontalRev => VectorView { x: self.cursor.x - extent.x, y: self.cursor.y },
            Layout::VerticalRev => VectorView { x: self.cursor.x, y: self.cursor.y - extent.y },
        }
    }

    /// The width that subgroups have not claimed yet.
    pub open spec fn remaining_width(self) -> int {
        match self.layout {
            Layout::Freeform => 0,
            Layout::Horizontal => self.rect.size.x - self.cursor.x,
            Layout::Vertical => self.rect.size.x,
            Layout::HorizontalRev => self.rect.size.x + self.cursor.x,
            Layout::VerticalRev => self.rect.size.x,
        }
    }

    /// The height that subgroups have not claimed yet.
    pub open spec fn remaining_height(self) -> int {
        match self.layout {
            Layout::Freeform => 0,
            Layout::Horizontal => self.rect.size.y,
            Layout::Vertical => self.rect.size.y - self.cursor.y,
            Layout::HorizontalRev => self.rect.size.y,
            Layout::VerticalRev => self.rect.size.y + self.cursor.y,
        }
    }

    /// The size less the cursor in the forward layouts, the size plus the
    /// cursor in the reversed ones, and zero in the freeform layout.
    pub open spec fn remaining_size(self) -> VectorView {
        match self.layout {
            Layout::Freeform => VectorView::zero(),
            Layout::Horizontal | Layout::Vertical => self.rect.size.minus(self.cursor),
            Layout::HorizontalRev | Layout::VerticalRev => self.rect.size.plus(self.cursor),
        }
    }

    /// The rectangle shrunk by the padding: the position moves inward by the
    /// left and top amounts, the size shrinks by the sum of the opposite
    /// amounts. Nothing is clamped.
    pub open spec fn padded(self, padding: PaddingView) -> RectView {
        RectView {
            position: VectorView {
                x: self.rect.position.x + padding.left,
                y: self.rect.position.y + padding.top,
            },
            size: VectorView {
                x: self.rect.size.x - (padding.left + padding.right),
                y: self.rect.size.y - (padding.top + padding.bottom),
            },
        }
    }

    /// The size that fits the consumed space: the cursor in the freeform
    /// layout, the cursor's X for the width in the horizontal layout, the
    /// cursor's Y for the height in the vertical layout. The reversed layouts
    /// have no fitted size; there the size stays.
    pub open spec fn fitted_size(self) -> VectorView {
        match self.layout {
            Layout::Freeform => self.cursor,
            Layout::Horizontal => VectorView { x: self.cursor.x, y: self.rect.size.y },
            Layout::Vertical => VectorView { x: self.rect.size.x, y: self.cursor.y },
            Layout::HorizontalRev | Layout::VerticalRev => self.rect.size,
        }
    }
}

/// The X coordinate at which a region of the given width is aligned in `parent`.
pub open spec fn aligned_x(parent: RectView, width: int, align: AlignH) -> int {
    match align {
        AlignH::Left => parent.left(),
        AlignH::Center => parent.center_x() - half(width),
        AlignH::Right => parent.right() - width,
    }
}

/// The Y coordinate at which a region of the given height is aligned in `parent`.
pub open spec fn aligned_y(parent: RectView, height: int, align: AlignV) -> int {
    match align {
        AlignV::Top => parent.top(),
        AlignV::Middle => parent.center_y() - half(height),
        AlignV::Bottom => parent.bottom() - height,
    }
}

/// The rectangle of the given size aligned in `parent`.
pub open spec fn aligned(parent: RectView, size: VectorView, alignment: Alignment) -> RectView {
    RectView {
        position: VectorView {
            x: aligned_x(parent, size.x, alignment.0),
            y: aligned_y(parent, size.y, alignment.1),
        },
        size,
    }
}

/// The stack with its current group replaced.
pub open spec fn with_top(stack: Seq<GroupView>, group: GroupView) -> Seq<GroupView>
    recommends
        stack.len() > 0,
{
    stack.update(stack.len() - 1, group)
}

/// The stack that holds the root group of a frame and nothing else.
pub open spec fn rooted(size: VectorView, layout: Layout) -> Seq<GroupView> {
    seq![GroupView::root(size, layout)]
}

/// Whether a subgroup of the given size can be pushed: there is a current
/// group, and the place of the subgroup can be stored in coordinates.
pub open spec fn pushable(stack: Seq<GroupView>, size: VectorView) -> bool {
    stack.len() > 0 && stack.last().anchor(size).fits()
}

/// Whether the current group can be popped: it is not the root group, and the
/// advanced cursor of the group below it can be stored in coordinates.
pub open spec fn poppable(stack: Seq<GroupView>) -> bool {
    stack.len() > 1 && stack[stack.len() - 2].advanced(stack.last().rect.size).fits()
}

/// Whether the current group can be aligned: there is a group below it, and
/// the aligned rectangle can be stored in coordinates.
pub open spec fn alignable(stack: Seq<GroupView>, alignment: Alignment) -> bool {
    stack.len() > 1 && aligned(
        stack[stack.len() - 2].rect,
        stack.last().rect.size,
        alignment,
    ).fits()
}

/// The stack after a subgroup of the given size and layout has been pushed
/// into the current group.
pub open spec fn pushed(stack: Seq<GroupView>, size: VectorView, layout: Layout) -> Seq<GroupView>
    recommends
        stack.len() > 0,
{
    stack.push(stack.last().child(size, layout))
}

/// The stack after the current group has been popped: the group is gone, and
/// the cursor of the group below has advanced by the size it had.
pub open spec fn popped(stack: Seq<GroupView>) -> Seq<GroupView>
    recommends
        stack.len() > 1,
{
    let child = stack.last();
    let rest = stack.drop_last();
    with_top(rest, rest.last().with_cursor(rest.last().advanced(child.rect.size)))
}

/// The stack after the current group has been aligned in the group below it.
pub open spec fn realigned(stack: Seq<GroupView>, alignment: Alignment) -> Seq<GroupView>
    recommends
        stack.len() > 1,
{
    let parent = stack[stack.len() - 2];
    let subject = stack.last();
    with_top(stack, subject.with_rect(aligned(parent.rect, subject.rect.size, alignment)))
}

/// The stack after the current group has been resized to fit the space that
/// its subgroups have consumed. Its position stays.
pub open spec fn fitted(stack: Seq<GroupView>) -> Seq<GroupView>
    recommends
        stack.len() > 0,
{
    let top = stack.last();
    with_top(stack, top.with_rect(RectView { position: top.rect.position, size: top.fitted_size() }))
}

} // verus!
