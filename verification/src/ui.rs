//! The core and state for laying out groups.

use vstd::prelude::*;

use crate::common::{fits, point, vector, Color, Point, Rect, Vector, VectorView};
use crate::layout::{AlignH, AlignV, Alignment, Layout, Padding};
use crate::model::{
    alignable, fitted, poppable, popped, pushable, pushed, realigned, rooted, with_top, GroupView,
};
use crate::renderer::{LineCap, Renderer};

verus! {

/// One entry of the group stack.
#[derive(Copy, Clone)]
struct Group {
    //
    // layout info
    //
    rect: Rect,
    layout: Layout,
    cursor: Vector,
    //
    // rendering info
    //
    line_cap: LineCap,
}

impl View for Group {
    type V = GroupView;

    closed spec fn view(&self) -> GroupView {
        GroupView {
            rect: self.rect@,
            layout: self.layout,
            cursor: self.cursor@,
            line_cap: self.line_cap,
        }
    }
}

/// Stores a value that is known to be in range in a coordinate.
fn narrow(v: i64) -> (r: i32)
    requires
        fits(v as int),
    ensures
        r == v,
{
    v as i32
}

/// Whether `v` can be stored in a coordinate.
fn in_range(v: i64) -> (r: bool)
    ensures
        r == fits(v as int),
{
    -0x8000_0000 <= v && v <= 0x7fff_ffff
}

/// UI state. This is what's used for laying out groups and drawing to the screen.
///
/// # The group stack
///
/// The group stack is what controls positioning at a given moment. There is no
/// intermediate state with nodes: everything is placed on the screen directly,
/// and the stack holds only the groups that are open right now.
///
/// A group is a rectangle with some extra layouting and rendering data. When a
/// new group is pushed, it is placed relative to the current group, at a vector
/// called the _cursor_. When it is popped off the stack again, the cursor of the
/// group below is offset by the size of the group that was popped. This cascades
/// elements without holding a tree of nodes. The stack grows as groups are
/// nested inside each other, and a group is not preserved after it is popped.
///
/// The view of a `Ui` is its stack as a `Seq<GroupView>`, root first.
///
/// # Initialization
///
/// All functions that mention the "current group" require at least one group
/// on the stack. [`Ui::new`] makes an empty stack; [`Ui::root`] starts a frame
/// by replacing whatever the stack holds with the root group, so that a
/// forgotten pop cannot make the stack grow from frame to frame.
///
/// # Rendering
///
/// A `Ui` owns a _renderer_, the drawing surface. It can be retrieved as an
/// immutable reference using [`Ui::renderer`], and as a mutable reference
/// using [`Ui::render`]; a `Ui` also dereferences to it. No drawing function
/// changes the group stack.
pub struct Ui<T: Renderer> {
    stack: Vec<Group>,
    renderer: T,
}

impl<T: Renderer> View for Ui<T> {
    type V = Seq<GroupView>;

    closed spec fn view(&self) -> Seq<GroupView> {
        self.stack@.map_values(|group: Group| group@)
    }
}

impl<T: Renderer> Ui<T> {
    /// The renderer that this `Ui` owns.
    pub closed spec fn spec_renderer(&self) -> &T {
        &self.renderer
    }

    /// Creates a new UI state with the given renderer. Its stack is empty.
    pub fn new(renderer: T) -> (ui: Self)
        ensures
            ui@ == Seq::<GroupView>::empty(),
            ui.renderer() == renderer,
    {
        let ui = Self { stack: Vec::new(), renderer };
        assert(ui@ =~= Seq::<GroupView>::empty());
        ui
    }

    //
    // getters
    //
    /// Returns an immutable reference to the renderer.
    #[verifier::when_used_as_spec(spec_renderer)]
    pub fn renderer(&self) -> (renderer: &T)
        ensures
            renderer == self.spec_renderer(),
    {
        &self.renderer
    }

    /// Returns a mutable reference to the renderer. Whatever is done through
    /// it, the group stack stays as it is.
    pub fn render(&mut self) -> (renderer: &mut T)
        ensures
            *renderer == *old(self).renderer(),
            *final(self).renderer() == *final(renderer),
            final(self)@ == old(self)@,
    {
        &mut self.renderer
    }

    //
    // stack getters
    //
    /// The number of groups on the stack.
    pub fn depth(&self) -> (depth: usize)
        ensures
            depth == self@.len(),
    {
        self.stack.len()
    }

    /// Returns the position of the topmost group, in absolute (screen) coordinates.
    pub fn position(&self) -> (position: Point)
        requires
            self@.len() > 0,
        ensures
            position@ == self@.last().rect.position,
    {
        self.top().rect.position
    }

    /// Returns the size of the topmost group.
    pub fn size(&self) -> (size: Vector)
        requires
            self@.len() > 0,
        ensures
            size@ == self@.last().rect.size,
    {
        self.top().rect.size
    }

    /// Returns the width of the topmost group.
    pub fn width(&self) -> (width: i32)
        requires
            self@.len() > 0,
        ensures
            width == self@.last().rect.size.x,
    {
        self.top().rect.width()
    }

    /// Returns the height of the topmost group.
    pub fn height(&self) -> (height: i32)
        requires
            self@.len() > 0,
        ensures
            height == self@.last().rect.size.y,
    {
        self.top().rect.height()
    }

    /// Returns the "remaining size" of the current group. This is measured by
    /// subtracting the group's cursor from its size, effectively giving the
    /// size that remains in the group. In reversed layouts, the cursor is added
    /// instead, as it goes into the negative. On the freeform layout, this
    /// always returns (0, 0).
    ///
    /// The remaining size must be representable.
    pub fn remaining_size(&self) -> (remaining: Vector)
        requires
            self@.len() > 0,
            self@.last().remaining_size().fits(),
        ensures
            remaining@ == self@.last().remaining_size(),
    {
        let top = self.top();
        match top.layout {
            Layout::Freeform => vector(0, 0),
            Layout::Horizontal | Layout::Vertical => vector(
                narrow(top.rect.size.x as i64 - top.cursor.x as i64),
                narrow(top.rect.size.y as i64 - top.cursor.y as i64),
            ),
            Layout::HorizontalRev | Layout::VerticalRev => vector(
                narrow(top.rect.size.x as i64 + top.cursor.x as i64),
                narrow(top.rect.size.y as i64 + top.cursor.y as i64),
            ),
        }
    }

    /// Returns the "remaining width" of the current group, as per the
    /// convention described in [`Ui::remaining_size`]'s documentation. In the
    /// vertical layouts, which do not consume width, this is the full width.
    ///
    /// The remaining width must be representable.
    pub fn remaining_width(&self) -> (remaining: i32)
        requires
            self@.len() > 0,
            fits(self@.last().remaining_width()),
        ensures
            remaining == self@.last().remaining_width(),
    {
        let top = self.top();
        match top.layout {
            Layout::Freeform => 0,
            Layout::Horizontal => narrow(top.rect.width() as i64 - top.cursor.x as i64),
            Layout::Vertical => top.rect.width(),
            Layout::HorizontalRev => narrow(top.rect.width() as i64 + top.cursor.x as i64),
            Layout::VerticalRev => top.rect.width(),
        }
    }

    /// Returns the "remaining height" of the current group, as per the
    /// convention described in [`Ui::remaining_size`]'s documentation. In the
    /// horizontal layouts, which do not consume height, this is the full height.
    ///
    /// The remaining height must be representable.
    pub fn remaining_height(&self) -> (remaining: i32)
        requires
            self@.len() > 0,
            fits(self@.last().remaining_height()),
        ensures
            remaining == self@.last().remaining_height(),
    {
        let top = self.top();
        match top.layout {
            Layout::Freeform => 0,
            Layout::Horizontal => top.rect.height(),
            Layout::Vertical => narrow(top.rect.height() as i64 - top.cursor.y as i64),
            Layout::HorizontalRev => top.rect.height(),
            Layout::VerticalRev => narrow(top.rect.height() as i64 + top.cursor.y as i64),
        }
    }

    //
    // stack manipulation
    //
    /// Clears the group stack and pushes the root group onto the stack, with
    /// the given size and layout. The root group is the first group of a
    /// frame. It defines the size of the window, and the initial layout to be
    /// used.
    ///
    /// The root group is never popped: the next call of this function discards
    /// it, with whatever else the stack holds.
    pub fn root(&mut self, size: Vector, layout: Layout)
        ensures
            final(self)@ == rooted(size@, layout),
            final(self).renderer() == old(self).renderer(),
    {
        self.stack.clear();
        self.stack.push(
            Group {
                rect: Rect::new(point(0, 0), size),
                layout,
                cursor: vector(0, 0),
                line_cap: LineCap::Butt,
            },
        );
        assert(self@ =~= rooted(size@, layout));
    }

    /// Pushes a group onto the group stack, with the given size and layout.
    ///
    /// The new group is placed at the cursor of the current group; see
    /// [`GroupView::anchor`]. The place must be representable.
    pub fn push(&mut self, size: Vector, layout: Layout)
        requires
            pushable(old(self)@, size@),
        ensures
            final(self)@ == pushed(old(self)@, size@, layout),
            final(self).renderer() == old(self).renderer(),
    {
        let top = *self.top();
        let px = top.rect.position.x as i64;
        let py = top.rect.position.y as i64;
        let cx = top.cursor.x as i64;
        let cy = top.cursor.y as i64;
        let position = match top.layout {
            Layout::Freeform | Layout::Horizontal | Layout::Vertical => Point {
                x: narrow(px + cx),
                y: narrow(py + cy),
            },
            Layout::HorizontalRev => Point {
                x: narrow(px + top.rect.size.x as i64 + cx - size.x as i64),
                y: narrow(py + cy),
            },
            Layout::VerticalRev => Point {
                x: narrow(px + cx),
                y: narrow(py + top.rect.size.y as i64 + cy - size.y as i64),
            },
        };
        let group = Group {
            rect: Rect::new(position, size),
            layout,
            cursor: Point { x: 0, y: 0 },
            line_cap: top.line_cap,
        };
        assert(group@ == old(self)@.last().child(size@, layout));
        self.stack.push(group);
        assert(self@ =~= pushed(old(self)@, size@, layout));
    }

    /// Pops a group off the group stack, updating the cursor of the group under it.
    ///
    /// The root group cannot be popped, and the advanced cursor must be
    /// representable.
    pub fn pop(&mut self)
        requires
            poppable(old(self)@),
        ensures
            final(self)@ == popped(old(self)@),
            final(self).renderer() == old(self).renderer(),
    {
        let group = self.stack.pop().unwrap();
        assert(self@ =~= old(self)@.drop_last());
        let top = self.top_mut();
        match top.layout {
            Layout::Freeform => (),
            Layout::Horizontal => top.cursor.x = narrow(top.cursor.x as i64 + group.rect.size.x as i64),
            Layout::Vertical => top.cursor.y = narrow(top.cursor.y as i64 + group.rect.size.y as i64),
            Layout::HorizontalRev => top.cursor.x = narrow(top.cursor.x as i64 - group.rect.size.x as i64),
            Layout::VerticalRev => top.cursor.y = narrow(top.cursor.y as i64 - group.rect.size.y as i64),
        }
    }

    /// Whether a group of the given size can be pushed: there is a current
    /// group, and the place of the new group is representable.
    pub fn can_push(&self, size: Vector) -> (allowed: bool)
        ensures
            allowed == pushable(self@, size@),
    {
        if self.stack.len() == 0 {
            return false;
        }
        let top = self.top();
        let x = top.rect.position.x as i64 + top.cursor.x as i64;
        let y = top.rect.position.y as i64 + top.cursor.y as i64;
        match top.layout {
            Layout::Freeform | Layout::Horizontal | Layout::Vertical => in_range(x) && in_range(y),
            Layout::HorizontalRev => in_range(x + top.rect.size.x as i64 - size.x as i64)
                && in_range(y),
            Layout::VerticalRev => in_range(x) && in_range(
                y + top.rect.size.y as i64 - size.y as i64,
            ),
        }
    }

    /// Whether the current group can be popped: it is not the root group, and
    /// the advanced cursor of the group below it is representable.
    pub fn can_pop(&self) -> (allowed: bool)
        ensures
            allowed == poppable(self@),
    {
        let n = self.stack.len();
        if n < 2 {
            return false;
        }
        let group = &self.stack[n - 1];
        let below = &self.stack[n - 2];
        assert(group@ == self@.last());
        assert(below@ == self@[self@.len() - 2]);
        match below.layout {
            Layout::Freeform => true,
            Layout::Horizontal => in_range(below.cursor.x as i64 + group.rect.size.x as i64),
            Layout::Vertical => in_range(below.cursor.y as i64 + group.rect.size.y as i64),
            Layout::HorizontalRev => in_range(below.cursor.x as i64 - group.rect.size.x as i64),
            Layout::VerticalRev => in_range(below.cursor.y as i64 - group.rect.size.y as i64),
        }
    }

    /// Runs `body` inside a new group: pushes a group with the given size and
    /// layout, invokes `body`, and pops the group that is then current. This
    /// pairs every push with its pop.
    ///
    /// `body` must accept the `Ui` with the new group pushed, and must leave
    /// the stack such that its current group can be popped; it does so if it
    /// leaves the stack as deep as it found it and the size of the new group
    /// alone, and the cursor of the group below then fits.
    pub fn group<F>(&mut self, size: Vector, layout: Layout, body: F) where F: FnOnce(&mut Self)
        requires
            pushable(old(self)@, size@),
            forall|ui: &mut Self|
                (*ui)@ == pushed(old(self)@, size@, layout) && *ui.renderer() == *old(
                    self,
                ).renderer() ==> call_requires(body, (ui,)),
            forall|ui: &mut Self|
                (*ui)@ == pushed(old(self)@, size@, layout) && *ui.renderer() == *old(
                    self,
                ).renderer() && #[trigger] call_ensures(body, (ui,), ()) ==> poppable(
                    (*final(ui))@,
                ),
        ensures
            exists|ui: &mut Self|
                {
                    &&& (*ui)@ == pushed(old(self)@, size@, layout)
                    &&& *ui.renderer() == *old(self).renderer()
                    &&& #[trigger] call_ensures(body, (ui,), ())
                    &&& final(self)@ == popped((*final(ui))@)
                    &&& *final(self).renderer() == *final(ui).renderer()
                },
    {
        self.push(size, layout);
        let ui: &mut Self = &mut *self;
        assert((*ui)@ == pushed(old(self)@, size@, layout));
        body(ui);
        self.pop();
    }

    /// Aligns the current group in the parent group, with the provided alignment.
    ///
    /// There must be a parent group, that is, at least two groups on the stack,
    /// and the aligned position must be representable.
    pub fn align(&mut self, alignment: Alignment)
        requires
            alignable(old(self)@, alignment),
        ensures
            final(self)@ == realigned(old(self)@, alignment),
            final(self).renderer() == old(self).renderer(),
    {
        let n = self.stack.len();
        let parent = self.stack[n - 2].rect;
        assert(parent@ == old(self)@[old(self)@.len() - 2].rect);
        let left = parent.position.x as i64;
        let top = parent.position.y as i64;
        let subject = self.top_mut();
        let width = subject.rect.size.x as i64;
        let height = subject.rect.size.y as i64;
        subject.rect.position.x = match alignment.0 {
            AlignH::Left => narrow(left),
            AlignH::Center => narrow(left + (parent.size.x / 2) as i64 - width / 2),
            AlignH::Right => narrow(left + parent.size.x as i64 - width),
        };
        subject.rect.position.y = match alignment.1 {
            AlignV::Top => narrow(top),
            AlignV::Middle => narrow(top + (parent.size.y / 2) as i64 - height / 2),
            AlignV::Bottom => narrow(top + parent.size.y as i64 - height),
        };
    }

    /// Returns the cursor position of the current group.
    pub fn cursor(&self) -> (cursor: Vector)
        requires
            self@.len() > 0,
        ensures
            cursor@ == self@.last().cursor,
    {
        self.top().cursor
    }

    /// Sets the cursor position of the current group. This is most useful with
    /// freeform layouts.
    pub fn set_cursor(&mut self, new_cursor: Vector)
        requires
            old(self)@.len() > 0,
        ensures
            final(self)@ == with_top(old(self)@, old(self)@.last().with_cursor(new_cursor@)),
            final(self).renderer() == old(self).renderer(),
    {
        self.top_mut().cursor = new_cursor;
    }

    /// Offsets the cursor by the given amount. The new cursor must be
    /// representable.
    pub fn offset(&mut self, by: Vector)
        requires
            old(self)@.len() > 0,
            old(self)@.last().cursor.plus(by@).fits(),
        ensures
            final(self)@ == with_top(
                old(self)@,
                old(self)@.last().with_cursor(old(self)@.last().cursor.plus(by@)),
            ),
            final(self).renderer() == old(self).renderer(),
    {
        let top = self.top_mut();
        top.cursor.x = narrow(top.cursor.x as i64 + by.x as i64);
        top.cursor.y = narrow(top.cursor.y as i64 + by.y as i64);
    }

    /// Pads the current group with some amount of padding: the position moves
    /// inward by the left and top amounts, and the size shrinks by the sum of
    /// the amounts on opposite sides. Nothing is clamped: padding that exceeds
    /// the size leaves a negative size.
    ///
    /// The padded rectangle must be representable.
    pub fn pad(&mut self, padding: Padding)
        requires
            old(self)@.len() > 0,
            old(self)@.last().padded(padding@).fits(),
        ensures
            final(self)@ == with_top(
                old(self)@,
                old(self)@.last().with_rect(old(self)@.last().padded(padding@)),
            ),
            final(self).renderer() == old(self).renderer(),
    {
        let top = self.top_mut();
        top.rect.position.x = narrow(top.rect.position.x as i64 + padding.left as i64);
        top.rect.position.y = narrow(top.rect.position.y as i64 + padding.top as i64);
        top.rect.size.x = narrow(
            top.rect.size.x as i64 - (padding.left as i64 + padding.right as i64),
        );
        top.rect.size.y = narrow(
            top.rect.size.y as i64 - (padding.top as i64 + padding.bottom as i64),
        );
    }

    /// Inserts empty space between subgroups, by moving the cursor by the
    /// given amount in the direction of the current group's layout.
    ///
    /// The freeform layout has no direction, so the current group must not be
    /// freeform; and the new cursor must be representable.
    pub fn space(&mut self, amount: i32)
        requires
            old(self)@.len() > 0,
            old(self)@.last().layout != Layout::Freeform,
            old(self)@.last().advanced(VectorView { x: amount as int, y: amount as int }).fits(),
        ensures
            final(self)@ == with_top(
                old(self)@,
                old(self)@.last().with_cursor(
                    old(self)@.last().advanced(VectorView { x: amount as int, y: amount as int }),
                ),
            ),
            final(self).renderer() == old(self).renderer(),
    {
        let top = self.top_mut();
        match top.layout {
            Layout::Freeform => (),
            Layout::Horizontal => top.cursor.x = narrow(top.cursor.x as i64 + amount as i64),
            Layout::Vertical => top.cursor.y = narrow(top.cursor.y as i64 + amount as i64),
            Layout::HorizontalRev => top.cursor.x = narrow(top.cursor.x as i64 - amount as i64),
            Layout::VerticalRev => top.cursor.y = narrow(top.cursor.y as i64 - amount as i64),
        }
    }

    /// Resizes the current group to fit its children:
    ///  - on `Freeform` layout, the width and height become the cursor,
    ///  - on `Horizontal` layout, the width becomes the cursor's X position,
    ///  - on `Vertical` layout, the height becomes the cursor's Y position.
    ///
    /// The reversed layouts cannot be fitted: the anchor corner of the
    /// rectangle would have to move, and this function moves no corner. So the
    /// current group must not be reversed.
    pub fn fit(&mut self)
        requires
            old(self)@.len() > 0,
            !old(self)@.last().layout.is_reversed(),
        ensures
            final(self)@ == fitted(old(self)@),
            final(self).renderer() == old(self).renderer(),
    {
        let top = self.top_mut();
        match top.layout {
            Layout::Freeform => top.rect.size = top.cursor,
            Layout::Horizontal => top.rect.size.x = top.cursor.x,
            Layout::Vertical => top.rect.size.y = top.cursor.y,
            Layout::HorizontalRev | Layout::VerticalRev => (),
        }
    }

    //
    // internal getters
    //
    fn top(&self) -> (group: &Group)
        requires
            self@.len() > 0,
        ensures
            group@ == self@.last(),
    {
        let n = self.stack.len();
        &self.stack[n - 1]
    }

    fn top_mut(&mut self) -> (group: &mut Group)
        requires
            old(self)@.len() > 0,
        ensures
            (*group)@ == old(self)@.last(),
            final(self)@ == with_top(old(self)@, (*final(group))@),
            final(self).renderer() == old(self).renderer(),
    {
        let n = self.stack.len();
        &mut self.stack[n - 1]
    }
}

impl<T: Renderer> Ui<T> {
    /// Allows one to draw in the current group by translating the renderer's
    /// matrix to the group's position. The renderer can be obtained inside of
    /// the callback by using [`Ui::render`].
    ///
    /// This performs exactly four steps: it pushes the renderer's transform,
    /// translates it to the current group's position, invokes `do_draw`, and
    /// pops the transform. The group stack is left as `do_draw` left it.
    ///
    /// `do_draw` must accept the `Ui` as the first two steps leave it: with
    /// the group stack of now, and a renderer that has pushed and translated.
    pub fn draw<F>(&mut self, do_draw: F) where F: FnOnce(&mut Self)
        requires
            old(self)@.len() > 0,
            forall|saved: &mut T, moved: &mut T, ui: &mut Self, position: Point|
                {
                    &&& *saved == *old(self).renderer()
                    &&& #[trigger] call_ensures(T::push, (saved,), ())
                    &&& *moved == *final(saved)
                    &&& position@ == old(self)@.last().rect.position
                    &&& #[trigger] call_ensures(T::translate, (moved, position), ())
                    &&& *ui.renderer() == *final(moved)
                    &&& (*ui)@ == old(self)@
                } ==> #[trigger] call_requires(do_draw, (ui,)),
        ensures
            exists|saved: &mut T, moved: &mut T, ui: &mut Self, restored: &mut T, position: Point|
                {
                    &&& *saved == *old(self).renderer()
                    &&& #[trigger] call_ensures(T::push, (saved,), ())
                    &&& *moved == *final(saved)
                    &&& position@ == old(self)@.last().rect.position
                    &&& #[trigger] call_ensures(T::translate, (moved, position), ())
                    &&& *ui.renderer() == *final(moved)
                    &&& (*ui)@ == old(self)@
                    &&& #[trigger] call_ensures(do_draw, (ui,), ())
                    &&& *restored == *final(ui).renderer()
                    &&& #[trigger] call_ensures(T::pop, (restored,), ())
                    &&& *final(self).renderer() == *final(restored)
                    &&& final(self)@ == (*final(ui))@
                },
    {
        let translation = self.top().rect.position;
        let push = T::push;
        let translate = T::translate;
        let pop = T::pop;
        push(&mut self.renderer);
        translate(&mut self.renderer, translation);
        let ui: &mut Self = &mut *self;
        assert((*ui)@ == old(self)@);
        do_draw(ui);
        pop(&mut self.renderer);
    }

    /// Clips drawing to only occur inside of the current group: the renderer
    /// is asked to clip to the group's rectangle.
    ///
    /// Any pixels outside of the group are discarded. Note that to undo the
    /// clip, the renderer's `push()` and `pop()` must be used.
    pub fn clip(&mut self)
        requires
            old(self)@.len() > 0,
        ensures
            final(self)@ == old(self)@,
            exists|renderer: &mut T, rect: Rect|
                {
                    &&& *renderer == *old(self).renderer()
                    &&& rect@ == old(self)@.last().rect
                    &&& #[trigger] call_ensures(T::clip, (renderer, rect), ())
                    &&& *final(self).renderer() == *final(renderer)
                },
    {
        let rect = self.top().rect;
        let clip = T::clip;
        clip(&mut self.renderer, rect);
    }

    /// Draws a rectangle that fills the current group with the given color.
    pub fn fill(&mut self, color: Color)
        requires
            old(self)@.len() > 0,
        ensures
            final(self)@ == old(self)@,
            exists|renderer: &mut T, rect: Rect|
                {
                    &&& *renderer == *old(self).renderer()
                    &&& rect@ == old(self)@.last().rect
                    &&& #[trigger] call_ensures(T::fill, (renderer, rect, color, 0i32), ())
                    &&& *final(self).renderer() == *final(renderer)
                },
    {
        self.fill_rounded(color, 0);
    }

    /// Draws a rounded rectangle that fills the current group, with the given
    /// color and corner radius.
    pub fn fill_rounded(&mut self, color: Color, radius: i32)
        requires
            old(self)@.len() > 0,
        ensures
            final(self)@ == old(self)@,
            exists|renderer: &mut T, rect: Rect|
                {
                    &&& *renderer == *old(self).renderer()
                    &&& rect@ == old(self)@.last().rect
                    &&& #[trigger] call_ensures(T::fill, (renderer, rect, color, radius), ())
                    &&& *final(self).renderer() == *final(renderer)
                },
    {
        let rect = self.top().rect;
        let fill = T::fill;
        fill(&mut self.renderer, rect, color, radius);
    }

    /// Draws a rectangle outline that creates a border around the current
    /// group, with the given color and line thickness.
    pub fn outline(&mut self, color: Color, thickness: i32)
        requires
            old(self)@.len() > 0,
        ensures
            final(self)@ == old(self)@,
            exists|renderer: &mut T, rect: Rect|
                {
                    &&& *renderer == *old(self).renderer()
                    &&& rect@ == old(self)@.last().rect
                    &&& #[trigger] call_ensures(
                        T::outline,
                        (renderer, rect, color, 0i32, thickness),
                        (),
                    )
                    &&& *final(self).renderer() == *final(renderer)
                },
    {
        self.outline_rounded(color, 0, thickness);
    }

    /// Draws a rounded rectangle outline that creates a border around the
    /// current group, with the given color, corner radius, and line thickness.
    pub fn outline_rounded(&mut self, color: Color, radius: i32, thickness: i32)
        requires
            old(self)@.len() > 0,
        ensures
            final(self)@ == old(self)@,
            exists|renderer: &mut T, rect: Rect|
                {
                    &&& *renderer == *old(self).renderer()
                    &&& rect@ == old(self)@.last().rect
                    &&& #[trigger] call_ensures(
                        T::outline,
                        (renderer, rect, color, radius, thickness),
                        (),
                    )
                    &&& *final(self).renderer() == *final(renderer)
                },
    {
        let rect = self.top().rect;
        let outline = T::outline;
        outline(&mut self.renderer, rect, color, radius, thickness);
    }

    /// Returns the current group's line cap.
    pub fn line_cap(&self) -> (line_cap: LineCap)
        requires
            self@.len() > 0,
        ensures
            line_cap == self@.last().line_cap,
    {
        self.top().line_cap
    }

    /// Sets the current group's line cap for rendering lines. The groups below
    /// keep theirs; groups pushed into the current group from now on inherit
    /// the new one. The root group's default line cap is [`LineCap::Butt`].
    pub fn set_line_cap(&mut self, new_line_cap: LineCap)
        requires
            old(self)@.len() > 0,
        ensures
            final(self)@ == with_top(old(self)@, old(self)@.last().with_line_cap(new_line_cap)),
            final(self).renderer() == old(self).renderer(),
    {
        self.top_mut().line_cap = new_line_cap;
    }

    /// Helper function for drawing borders around the current group: a line
    /// from `a` to `b` that ends with the current group's line cap.
    fn border(&mut self, a: Point, b: Point, color: Color, thickness: i32)
        requires
            old(self)@.len() > 0,
        ensures
            final(self)@ == old(self)@,
            exists|renderer: &mut T|
                {
                    &&& *renderer == *old(self).renderer()
                    &&& #[trigger] call_ensures(
                        T::line,
                        (renderer, a, b, color, old(self)@.last().line_cap, thickness),
                        (),
                    )
                    &&& *final(self).renderer() == *final(renderer)
                },
    {
        let line_cap = self.top().line_cap;
        let line = T::line;
        line(&mut self.renderer, a, b, color, line_cap, thickness);
    }

    /// Draws a line spanning the left side of the current group, with the
    /// given color and line thickness. The ends of that side must be
    /// representable.
    pub fn border_left(&mut self, color: Color, thickness: i32)
        requires
            old(self)@.len() > 0,
            old(self)@.last().rect.bottom_left().fits(),
        ensures
            final(self)@ == old(self)@,
            exists|renderer: &mut T, a: Point, b: Point|
                {
                    &&& *renderer == *old(self).renderer()
                    &&& a@ == old(self)@.last().rect.top_left()
                    &&& b@ == old(self)@.last().rect.bottom_left()
                    &&& #[trigger] call_ensures(
                        T::line,
                        (renderer, a, b, color, old(self)@.last().line_cap, thickness),
                        (),
                    )
                    &&& *final(self).renderer() == *final(renderer)
                },
    {
        let rect = self.top().rect;
        self.border(rect.top_left(), rect.bottom_left(), color, thickness);
    }

    /// Draws a line spanning the top side of the current group, with the given
    /// color and line thickness. The ends of that side must be representable.
    pub fn border_top(&mut self, color: Color, thickness: i32)
        requires
            old(self)@.len() > 0,
            old(self)@.last().rect.top_right().fits(),
        ensures
            final(self)@ == old(self)@,
            exists|renderer: &mut T, a: Point, b: Point|
                {
                    &&& *renderer == *old(self).renderer()
                    &&& a@ == old(self)@.last().rect.top_left()
                    &&& b@ == old(self)@.last().rect.top_right()
                    &&& #[trigger] call_ensures(
                        T::line,
                        (renderer, a, b, color, old(self)@.last().line_cap, thickness),
                        (),
                    )
                    &&& *final(self).renderer() == *final(renderer)
                },
    {
        let rect = self.top().rect;
        self.border(rect.top_left(), rect.top_right(), color, thickness);
    }

    /// Draws a line spanning the right side of the current group, with the
    /// given color and line thickness. The ends of that side must be
    /// representable.
    pub fn border_right(&mut self, color: Color, thickness: i32)
        requires
            old(self)@.len() > 0,
            old(self)@.last().rect.bottom_right().fits(),
        ensures
            final(self)@ == old(self)@,
            exists|renderer: &mut T, a: Point, b: Point|
                {
                    &&& *renderer == *old(self).renderer()
                    &&& a@ == old(self)@.last().rect.top_right()
                    &&& b@ == old(self)@.last().rect.bottom_right()
                    &&& #[trigger] call_ensures(
                        T::line,
                        (renderer, a, b, color, old(self)@.last().line_cap, thickness),
                        (),
                    )
                    &&& *final(self).renderer() == *final(renderer)
                },
    {
        let rect = self.top().rect;
        self.border(rect.top_right(), rect.bottom_right(), color, thickness);
    }

    /// Draws a line spanning the bottom side of the current group, with the
    /// given color and line thickness. The ends of that side must be
    /// representable.
    pub fn border_bottom(&mut self, color: Color, thickness: i32)
        requires
            old(self)@.len() > 0,
            old(self)@.last().rect.bottom_right().fits(),
        ensures
            final(self)@ == old(self)@,
            exists|renderer: &mut T, a: Point, b: Point|
                {
                    &&& *renderer == *old(self).renderer()
                    &&& a@ == old(self)@.last().rect.bottom_left()
                    &&& b@ == old(self)@.last().rect.bottom_right()
                    &&& #[trigger] call_ensures(
                        T::line,
                        (renderer, a, b, color, old(self)@.last().line_cap, thickness),
                        (),
                    )
                    &&& *final(self).renderer() == *final(renderer)
                },
    {
        let rect = self.top().rect;
        self.border(rect.bottom_left(), rect.bottom_right(), color, thickness);
    }

    /// Draws text inside of the current group, with the given color and
    /// alignment inside of the group's rectangle. The advance that the
    /// renderer reports is dropped.
    pub fn text(&mut self, font: &T::Font, text: &str, color: Color, alignment: Alignment)
        requires
            old(self)@.len() > 0,
        ensures
            final(self)@ == old(self)@,
            exists|renderer: &mut T, rect: Rect, advance: i32|
                {
                    &&& *renderer == *old(self).renderer()
                    &&& rect@ == old(self)@.last().rect
                    &&& #[trigger] call_ensures(
                        T::text,
                        (renderer, rect, font, text, color, alignment),
                        advance,
                    )
                    &&& *final(self).renderer() == *final(renderer)
                },
    {
        let rect = self.top().rect;
        let draw_text = T::text;
        draw_text(&mut self.renderer, rect, font, text, color, alignment);
    }
}

/// Any `Ui` instance acts as if it were the underlying renderer. Where a name
/// is defined by both, such as `text`, [`Ui::renderer`] reaches the renderer's.
impl<T: Renderer> core::ops::Deref for Ui<T> {
    /// The renderer type.
    type Target = T;

    fn deref(&self) -> (renderer: &T)
        ensures
            renderer == self.renderer(),
    {
        &self.renderer
    }
}

/// Any mutable `Ui` instance acts as if it were the underlying renderer. Where
/// a name is defined by both, such as `text`, [`Ui::render`] reaches the
/// renderer's.
impl<T: Renderer> core::ops::DerefMut for Ui<T> {
    fn deref_mut(&mut self) -> (renderer: &mut T)
        ensures
            *renderer == *old(self).renderer(),
            *final(self).renderer() == *final(renderer),
            final(self)@ == old(self)@,
    {
        &mut self.renderer
    }
}

} // verus!
