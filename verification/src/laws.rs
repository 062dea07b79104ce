//! Laws of the group stack: what holds of every stack and every sequence of
//! operations. Each is stated over the model that the contracts of the
//! executable operations are stated over, so it holds of every run of them.

use vstd::prelude::*;

use crate::common::{RectView, VectorView};
use crate::layout::{Alignment, Layout};
use crate::model::{fitted, popped, pushed, realigned, rooted, with_top, GroupView};
use crate::renderer::LineCap;

verus! {

/// One step of a frame: a group is pushed, or the current group is popped.
pub enum Step {
    Push { size: VectorView, layout: Layout },
    Pop,
}

/// The stack after one step, or `None` where the step is not allowed: a push
/// needs a current group, and a pop must leave the root group on the stack.
pub open spec fn step(stack: Seq<GroupView>, step: Step) -> Option<Seq<GroupView>> {
    match step {
        Step::Push { size, layout } => if stack.len() > 0 {
            Some(pushed(stack, size, layout))
        } else {
            None
        },
        Step::Pop => if stack.len() > 1 {
            Some(popped(stack))
        } else {
            None
        },
    }
}

/// The stack after the steps have been taken in order, or `None` where one of
/// them is not allowed.
pub open spec fn replay(stack: Seq<GroupView>, steps: Seq<Step>) -> Option<Seq<GroupView>>
    decreases steps.len(),
{
    if steps.len() == 0 {
        Some(stack)
    } else {
        match replay(stack, steps.drop_last()) {
            Some(before) => step(before, steps.last()),
            None => None,
        }
    }
}

/// The number of pushes among the steps less the number of pops.
pub open spec fn net_pushes(steps: Seq<Step>) -> int
    decreases steps.len(),
{
    if steps.len() == 0 {
        0
    } else {
        net_pushes(steps.drop_last()) + if steps.last() is Push {
            1int
        } else {
            -1int
        }
    }
}

/// A subgroup to be: the size and the layout that it is pushed with.
pub struct Subgroup {
    pub size: VectorView,
    pub layout: Layout,
}

/// The componentwise sum of the sizes of the subgroups.
pub open spec fn total(children: Seq<Subgroup>) -> VectorView
    decreases children.len(),
{
    if children.len() == 0 {
        VectorView::zero()
    } else {
        total(children.drop_last()).plus(children.last().size)
    }
}

/// The stack after the subgroups have been pushed into the current group and
/// popped again, one after the other.
pub open spec fn consumed(stack: Seq<GroupView>, children: Seq<Subgroup>) -> Seq<GroupView>
    decreases children.len(),
{
    if children.len() == 0 {
        stack
    } else {
        popped(
            pushed(
                consumed(stack, children.drop_last()),
                children.last().size,
                children.last().layout,
            ),
        )
    }
}

/// The group that the subgroup of index `k` is while it is the current group:
/// the subgroups before it have been pushed and popped, and it has been pushed.
pub open spec fn placed(stack: Seq<GroupView>, children: Seq<Subgroup>, k: int) -> GroupView
    recommends
        stack.len() > 0,
        0 <= k < children.len(),
{
    pushed(consumed(stack, children.take(k)), children[k].size, children[k].layout).last()
}

/// Starting a frame leaves exactly one group, whatever the stack held before:
/// its rectangle lies at the origin with the given size, and its cursor is zero.
pub proof fn law_root_reset(size: VectorView, layout: Layout)
    ensures
        rooted(size, layout).len() == 1,
        rooted(size, layout)[0].rect == (RectView { position: VectorView::zero(), size }),
        rooted(size, layout)[0].cursor == VectorView::zero(),
        rooted(size, layout)[0].layout == layout,
        rooted(size, layout)[0].line_cap == LineCap::Butt,
{
}

/// A push makes the stack one group deeper and a pop one group shallower, and
/// neither touches a group below the one that was current before.
pub proof fn law_push_pop_depth(stack: Seq<GroupView>, size: VectorView, layout: Layout)
    requires
        stack.len() > 0,
    ensures
        pushed(stack, size, layout).len() == stack.len() + 1,
        pushed(stack, size, layout).drop_last() == stack,
        stack.len() > 1 ==> popped(stack).len() == stack.len() - 1,
        stack.len() > 1 ==> popped(stack).drop_last() == stack.drop_last().drop_last(),
{
    assert(pushed(stack, size, layout).drop_last() =~= stack);
    if stack.len() > 1 {
        assert(popped(stack).drop_last() =~= stack.drop_last().drop_last());
    }
}

/// Replacing the current group keeps the depth of the stack and every group
/// below the current one. Setting or moving the cursor, padding, aligning,
/// fitting and setting the line cap all replace the current group, so none of
/// them changes the depth.
pub proof fn law_current_group_only(stack: Seq<GroupView>, group: GroupView, alignment: Alignment)
    requires
        stack.len() > 0,
    ensures
        with_top(stack, group).len() == stack.len(),
        with_top(stack, group).last() == group,
        with_top(stack, group).drop_last() == stack.drop_last(),
        fitted(stack).len() == stack.len(),
        fitted(stack).drop_last() == stack.drop_last(),
        realigned(stack, alignment).len() == stack.len(),
        realigned(stack, alignment).drop_last() == stack.drop_last(),
{
    assert(with_top(stack, group).drop_last() =~= stack.drop_last());
    assert(fitted(stack).drop_last() =~= stack.drop_last());
    assert(realigned(stack, alignment).drop_last() =~= stack.drop_last());
}

/// A group that is pushed takes the line cap of the group it is pushed into.
/// Whatever line cap it is given afterwards, the group below has its own line
/// cap again once the group is popped: style is handed down the stack and
/// never up.
pub proof fn law_line_cap_is_inherited(
    stack: Seq<GroupView>,
    size: VectorView,
    layout: Layout,
    line_cap: LineCap,
)
    requires
        stack.len() > 0,
    ensures
        pushed(stack, size, layout).last().line_cap == stack.last().line_cap,
        popped(
            with_top(
                pushed(stack, size, layout),
                pushed(stack, size, layout).last().with_line_cap(line_cap),
            ),
        ) == popped(pushed(stack, size, layout)),
        popped(pushed(stack, size, layout)).last().line_cap == stack.last().line_cap,
{
    let inside = pushed(stack, size, layout);
    let restyled = with_top(inside, inside.last().with_line_cap(line_cap));
    assert(restyled.drop_last() =~= inside.drop_last());
    assert(inside.drop_last() =~= stack);
}

/// For any sequence of pushes and pops that never pops the root group, the
/// depth of the stack afterwards is the depth before, plus the number of
/// pushes, less the number of pops.
pub proof fn law_depth_balance(stack: Seq<GroupView>, steps: Seq<Step>)
    requires
        replay(stack, steps) is Some,
    ensures
        replay(stack, steps).unwrap().len() == stack.len() + net_pushes(steps),
    decreases steps.len(),
{
    if steps.len() > 0 {
        law_depth_balance(stack, steps.drop_last());
    }
}

/// From a stack that holds a group, a sequence of pushes and pops can be taken
/// to its end if and only if the depth never falls below one on the way, that
/// is, if and only if it never pops the root group.
pub proof fn law_replay_allowed(stack: Seq<GroupView>, steps: Seq<Step>)
    requires
        stack.len() > 0,
    ensures
        replay(stack, steps) is Some <==> forall|k: int|
            0 <= k <= steps.len() ==> stack.len() + #[trigger] net_pushes(steps.take(k)) >= 1,
    decreases steps.len(),
{
    if steps.len() == 0 {
        assert forall|k: int| 0 <= k <= steps.len() implies stack.len() + #[trigger] net_pushes(
            steps.take(k),
        ) >= 1 by {
            assert(steps.take(k).len() == 0);
        }
    } else {
        let init = steps.drop_last();
        law_replay_allowed(stack, init);
        assert(steps.take(steps.len() as int) =~= steps);
        assert(steps.take(steps.len() - 1) =~= init);
        assert forall|k: int| 0 <= k <= init.len() implies #[trigger] init.take(k) == steps.take(
            k,
        ) by {
            assert(init.take(k) =~= steps.take(k));
        }
        if replay(stack, init) is Some {
            law_depth_balance(stack, init);
            if replay(stack, steps) is Some {
                law_depth_balance(stack, steps);
                assert forall|k: int| 0 <= k <= steps.len() implies stack.len()
                    + #[trigger] net_pushes(steps.take(k)) >= 1 by {
                    if k < steps.len() {
                        assert(init.take(k) == steps.take(k));
                    }
                }
            } else {
                assert(steps.last() is Pop);
                assert(stack.len() + net_pushes(steps.take(steps.len() as int)) < 1);
            }
        } else {
            let k = choose|k: int|
                0 <= k <= init.len() && !(stack.len() + #[trigger] net_pushes(init.take(k)) >= 1);
            assert(init.take(k) == steps.take(k));
        }
    }
}

/// A push that is followed at once by its pop changes nothing but the cursor
/// of the current group, which advances by the size of the group that came
/// and went.
pub proof fn law_push_then_pop(stack: Seq<GroupView>, size: VectorView, layout: Layout)
    requires
        stack.len() > 0,
    ensures
        popped(pushed(stack, size, layout)) == with_top(
            stack,
            stack.last().with_cursor(stack.last().advanced(size)),
        ),
{
    assert(pushed(stack, size, layout).drop_last() =~= stack);
}

/// Subgroups that are pushed and popped one after the other advance the cursor
/// of the current group by the total of their sizes, and change nothing else.
/// The layouts that they are pushed with make no difference.
pub proof fn law_cursor_accumulates(stack: Seq<GroupView>, children: Seq<Subgroup>)
    requires
        stack.len() > 0,
    ensures
        consumed(stack, children) == with_top(
            stack,
            stack.last().with_cursor(stack.last().advanced(total(children))),
        ),
    decreases children.len(),
{
    let top = stack.last();
    if children.len() == 0 {
        assert(top.advanced(total(children)) == top.cursor);
        assert(stack =~= with_top(stack, top.with_cursor(top.cursor)));
    } else {
        let before = consumed(stack, children.drop_last());
        law_cursor_accumulates(stack, children.drop_last());
        law_push_then_pop(before, children.last().size, children.last().layout);
        assert(consumed(stack, children) =~= with_top(
            stack,
            top.with_cursor(top.advanced(total(children))),
        ));
    }
}

/// Each of the subgroups that are pushed and popped one after the other is
/// placed where the current group, with its cursor advanced by the total of the
/// sizes of the subgroups before it, anchors a subgroup of its size. It starts
/// with a zero cursor and the line cap of the current group.
pub proof fn law_child_placement(stack: Seq<GroupView>, children: Seq<Subgroup>, k: int)
    requires
        stack.len() > 0,
        0 <= k < children.len(),
    ensures
        placed(stack, children, k) == stack.last().with_cursor(
            stack.last().advanced(total(children.take(k))),
        ).child(children[k].size, children[k].layout),
{
    law_cursor_accumulates(stack, children.take(k));
}

/// In a vertical group, subgroups that are pushed and popped one after the
/// other leave the cursor advanced by the sum of their heights, and each of
/// them is placed below the cursor by the sum of the heights of those before it.
pub proof fn law_vertical_accumulation(stack: Seq<GroupView>, children: Seq<Subgroup>)
    requires
        stack.len() > 0,
        stack.last().layout == Layout::Vertical,
    ensures
        consumed(stack, children).last().cursor == (VectorView {
            x: stack.last().cursor.x,
            y: stack.last().cursor.y + total(children).y,
        }),
        forall|k: int|
            0 <= k < children.len() ==> (#[trigger] placed(stack, children, k)).rect.position == (
            VectorView {
                x: stack.last().rect.position.x + stack.last().cursor.x,
                y: stack.last().rect.position.y + stack.last().cursor.y + total(
                    children.take(k),
                ).y,
            }),
{
    law_cursor_accumulates(stack, children);
    assert forall|k: int| 0 <= k < children.len() implies (#[trigger] placed(
        stack,
        children,
        k,
    )).rect.position == (VectorView {
        x: stack.last().rect.position.x + stack.last().cursor.x,
        y: stack.last().rect.position.y + stack.last().cursor.y + total(children.take(k)).y,
    }) by {
        law_child_placement(stack, children, k);
    }
}

/// In a horizontal group, subgroups that are pushed and popped one after the
/// other leave the cursor advanced by the sum of their widths, and each of them
/// is placed right of the cursor by the sum of the widths of those before it.
pub proof fn law_horizontal_accumulation(stack: Seq<GroupView>, children: Seq<Subgroup>)
    requires
        stack.len() > 0,
        stack.last().layout == Layout::Horizontal,
    ensures
        consumed(stack, children).last().cursor == (VectorView {
            x: stack.last().cursor.x + total(children).x,
            y: stack.last().cursor.y,
        }),
        forall|k: int|
            0 <= k < children.len() ==> (#[trigger] placed(stack, children, k)).rect.position == (
            VectorView {
                x: stack.last().rect.position.x + stack.last().cursor.x + total(
                    children.take(k),
                ).x,
                y: stack.last().rect.position.y + stack.last().cursor.y,
            }),
{
    law_cursor_accumulates(stack, children);
    assert forall|k: int| 0 <= k < children.len() implies (#[trigger] placed(
        stack,
        children,
        k,
    )).rect.position == (VectorView {
        x: stack.last().rect.position.x + stack.last().cursor.x + total(children.take(k)).x,
        y: stack.last().rect.position.y + stack.last().cursor.y,
    }) by {
        law_child_placement(stack, children, k);
    }
}

/// Three subgroups of heights `h1`, `h2` and `h3`, pushed into a vertical group
/// with a zero cursor and popped each in turn, are placed at the group's own
/// Y coordinate, `h1` below it and `h1 + h2` below it, and leave the cursor
/// at `(0, h1 + h2 + h3)`.
pub proof fn law_three_children(
    stack: Seq<GroupView>,
    first: Subgroup,
    second: Subgroup,
    third: Subgroup,
)
    requires
        stack.len() > 0,
        stack.last().layout == Layout::Vertical,
        stack.last().cursor == VectorView::zero(),
    ensures
        ({
            let y = stack.last().rect.position.y;
            let one = pushed(stack, first.size, first.layout);
            let two = pushed(popped(one), second.size, second.layout);
            let three = pushed(popped(two), third.size, third.layout);
            &&& one.last().rect.position.y == y
            &&& two.last().rect.position.y == y + first.size.y
            &&& three.last().rect.position.y == y + first.size.y + second.size.y
            &&& popped(three).last().cursor == (VectorView {
                x: 0,
                y: first.size.y + second.size.y + third.size.y,
            })
            &&& popped(three).len() == stack.len()
        }),
{
    let one = pushed(stack, first.size, first.layout);
    law_push_then_pop(stack, first.size, first.layout);
    let two = pushed(popped(one), second.size, second.layout);
    law_push_then_pop(popped(one), second.size, second.layout);
    law_push_then_pop(popped(two), third.size, third.layout);
}

/// In a group that is laid out from right to left, a subgroup is placed with
/// its right side at the group's right side plus the cursor; with a zero
/// cursor, a subgroup of width `w` in a group of width `W` at `x0` lies at
/// `x0 + W - w`. Once it is popped, the remaining width is less by `w`.
pub proof fn law_reversed_symmetry(stack: Seq<GroupView>, size: VectorView, layout: Layout)
    requires
        stack.len() > 0,
        stack.last().layout == Layout::HorizontalRev,
    ensures
        pushed(stack, size, layout).last().rect.position.x == stack.last().rect.position.x
            + stack.last().rect.size.x + stack.last().cursor.x - size.x,
        pushed(stack, size, layout).last().rect.right() == stack.last().rect.right()
            + stack.last().cursor.x,
        stack.last().cursor.x == 0 ==> stack.last().remaining_width() == stack.last().rect.size.x,
        popped(pushed(stack, size, layout)).last().remaining_width()
            == stack.last().remaining_width() - size.x,
{
    law_push_then_pop(stack, size, layout);
}

/// A push that is followed at once by its pop takes the width of the subgroup
/// from the remaining width where the current group is laid out horizontally,
/// and its height from the remaining height where it is laid out vertically.
/// Otherwise what remains is as it was: the remaining width is invariant
/// exactly where the layout consumes no width or the subgroup has none.
pub proof fn law_remaining_space(stack: Seq<GroupView>, size: VectorView, layout: Layout)
    requires
        stack.len() > 0,
    ensures
        popped(pushed(stack, size, layout)).last().remaining_width()
            == stack.last().remaining_width() - if stack.last().layout.is_horizontal() {
            size.x
        } else {
            0
        },
        popped(pushed(stack, size, layout)).last().remaining_height()
            == stack.last().remaining_height() - if stack.last().layout.is_vertical() {
            size.y
        } else {
            0
        },
        !stack.last().layout.is_horizontal() || size.x == 0 <==> popped(
            pushed(stack, size, layout),
        ).last().remaining_width() == stack.last().remaining_width(),
{
    law_push_then_pop(stack, size, layout);
}

/// Aligning the current group twice in a row, with the same alignment, gives
/// what aligning it once gives: the place is computed from the parent's
/// rectangle and the group's size, and alignment changes neither.
pub proof fn law_align_idempotent(stack: Seq<GroupView>, alignment: Alignment)
    requires
        stack.len() > 1,
    ensures
        realigned(realigned(stack, alignment), alignment) == realigned(stack, alignment),
{
    assert(realigned(realigned(stack, alignment), alignment) =~= realigned(stack, alignment));
}

/// Alignment moves the current group and nothing else: its size, layout,
/// cursor and line cap stay, and so does every group below it.
pub proof fn law_align_moves_only(stack: Seq<GroupView>, alignment: Alignment)
    requires
        stack.len() > 1,
    ensures
        realigned(stack, alignment).len() == stack.len(),
        realigned(stack, alignment).drop_last() == stack.drop_last(),
        realigned(stack, alignment).last() == stack.last().with_rect(
            RectView {
                position: realigned(stack, alignment).last().rect.position,
                size: stack.last().rect.size,
            },
        ),
{
    assert(realigned(stack, alignment).drop_last() =~= stack.drop_last());
}

/// After subgroups have been pushed into a vertical or horizontal group and
/// popped again, fitting the group makes its size along the layout's axis the
/// cursor it had before them plus their total extent along that axis: exactly
/// their total extent where that cursor was zero. The size along the other
/// axis and the position are untouched.
pub proof fn law_fit_exact(stack: Seq<GroupView>, children: Seq<Subgroup>)
    requires
        stack.len() > 0,
        stack.last().layout == Layout::Vertical || stack.last().layout == Layout::Horizontal,
    ensures
        fitted(consumed(stack, children)).len() == stack.len(),
        fitted(consumed(stack, children)).last().rect.position == stack.last().rect.position,
        stack.last().layout == Layout::Vertical ==> fitted(
            consumed(stack, children),
        ).last().rect.size == (VectorView {
            x: stack.last().rect.size.x,
            y: stack.last().cursor.y + total(children).y,
        }),
        stack.last().layout == Layout::Horizontal ==> fitted(
            consumed(stack, children),
        ).last().rect.size == (VectorView {
            x: stack.last().cursor.x + total(children).x,
            y: stack.last().rect.size.y,
        }),
{
    law_cursor_accumulates(stack, children);
}

} // verus!
