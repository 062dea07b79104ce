//! Layouting types.

use vstd::prelude::*;

verus! {

/// Group layout type. This defines how subgroups are arranged inside of a group.
#[derive(Copy, Clone, Debug, PartialEq, Eq, Structural)]
pub enum Layout {
    /// The position of each subgroup is chosen by the caller, by setting the
    /// cursor before pushing it.
    Freeform,
    /// Subgroups are laid out horizontally, from left to right, starting at the
    /// upper-left corner of the group.
    Horizontal,
    /// Subgroups are laid out vertically, from top to bottom, starting at the
    /// upper-left corner of the group.
    Vertical,
    /// Subgroups are laid out horizontally, from right to left, starting at the
    /// upper-right corner of the group.
    HorizontalRev,
    /// Subgroups are laid out vertically, from bottom to top, starting at the
    /// lower-left corner of the group.
    VerticalRev,
}

impl Layout {
    /// Whether subgroups consume the group's width.
    pub open spec fn is_horizontal(self) -> bool {
        self == Layout::Horizontal || self == Layout::HorizontalRev
    }

    /// Whether subgroups consume the group's height.
    pub open spec fn is_vertical(self) -> bool {
        self == Layout::Vertical || self == Layout::VerticalRev
    }

    /// Whether the cursor grows toward the origin.
    pub open spec fn is_reversed(self) -> bool {
        self == Layout::HorizontalRev || self == Layout::VerticalRev
    }
}

/// Horizontal alignment position.
#[derive(Copy, Clone, Debug, PartialEq, Eq, Structural)]
pub enum AlignH {
    Left,
    Center,
    Right,
}

/// Vertical alignment position.
#[derive(Copy, Clone, Debug, PartialEq, Eq, Structural)]
pub enum AlignV {
    Top,
    Middle,
    Bottom,
}

/// Alignment type. This is used in `ui.align(alignment)` and text rendering.
pub type Alignment = (AlignH, AlignV);

/// Convenience const for `(Center, Middle)` alignment.
pub const CENTER: Alignment = (AlignH::Center, AlignV::Middle);

/// The mathematical model of a [`Padding`]: four unbounded integers.
pub struct PaddingView {
    pub right: int,
    pub bottom: int,
    pub left: int,
    pub top: int,
}

/// Padding amounts.
#[derive(Copy, Clone, Debug, PartialEq, Eq, Structural)]
pub struct Padding {
    pub right: i32,
    pub bottom: i32,
    pub left: i32,
    pub top: i32,
}

impl Padding {
    /// Creates padding from horizontal and vertical amounts. This is
    /// equivalent to constructing the padding where `right` and `left` are set
    /// to `horizontal`, and `bottom` and `top` are set to `vertical`.
    pub fn hv(horizontal: i32, vertical: i32) -> (padding: Self)
        ensures
            padding == (Padding {
                right: horizontal,
                bottom: vertical,
                left: horizontal,
                top: vertical,
            }),
    {
        Self { right: horizontal, bottom: vertical, left: horizontal, top: vertical }
    }

    /// Creates an even amount of padding for all sides.
    pub fn even(amount: i32) -> (padding: Self)
        ensures
            padding == (Padding { right: amount, bottom: amount, left: amount, top: amount }),
    {
        Self { right: amount, bottom: amount, left: amount, top: amount }
    }

    /// Creates the given amount of right padding. All other sides are set to `0`.
    pub fn right(amount: i32) -> (padding: Self)
        ensures
            padding == (Padding { right: amount, bottom: 0, left: 0, top: 0 }),
    {
        Self { right: amount, bottom: 0, left: 0, top: 0 }
    }

    /// Creates the given amount of bottom padding. All other sides are set to `0`.
    pub fn bottom(amount: i32) -> (padding: Self)
        ensures
            padding == (Padding { right: 0, bottom: amount, left: 0, top: 0 }),
    {
        Self { right: 0, bottom: amount, left: 0, top: 0 }
    }

    /// Creates the given amount of left padding. All other sides are set to `0`.
    pub fn left(amount: i32) -> (padding: Self)
        ensures
            padding == (Padding { right: 0, bottom: 0, left: amount, top: 0 }),
    {
        Self { right: 0, bottom: 0, left: amount, top: 0 }
    }

    /// Creates the given amount of top padding. All other sides are set to `0`.
    pub fn top(amount: i32) -> (padding: Self)
        ensures
            padding == (Padding { right: 0, bottom: 0, left: 0, top: amount }),
    {
        Self { right: 0, bottom: 0, left: 0, top: amount }
    }
}

impl Default for Padding {
    /// The default amount of padding is `0` for all sides.
    fn default() -> (padding: Self)
        ensures
            padding == (Padding { right: 0, bottom: 0, left: 0, top: 0 }),
    {
        Self { right: 0, bottom: 0, left: 0, top: 0 }
    }
}

impl vstd::std_specs::convert::FromSpecImpl<(i32, i32)> for Padding {
    open spec fn obeys_from_spec() -> bool {
        true
    }

    open spec fn from_spec(amounts: (i32, i32)) -> Padding {
        Padding { right: amounts.0, bottom: amounts.1, left: amounts.0, top: amounts.1 }
    }
}

impl From<(i32, i32)> for Padding {
    /// Creates padding from horizontal and vertical amounts. This is the same
    /// as calling `Padding::hv(horizontal, vertical)`.
    fn from(amounts: (i32, i32)) -> (padding: Self) {
        Self::hv(amounts.0, amounts.1)
    }
}

impl vstd::std_specs::convert::FromSpecImpl<i32> for Padding {
    open spec fn obeys_from_spec() -> bool {
        true
    }

    open spec fn from_spec(amount: i32) -> Padding {
        Padding { right: amount, bottom: amount, left: amount, top: amount }
    }
}

impl From<i32> for Padding {
    /// Creates the given amount of padding for all sides. This is the same as
    /// calling `Padding::even(amount)`.
    fn from(amount: i32) -> (padding: Self) {
        Self::even(amount)
    }
}

impl View for Padding {
    type V = PaddingView;

    open spec fn view(&self) -> PaddingView {
        PaddingView {
            right: self.right as int,
            bottom: self.bottom as int,
            left: self.left as int,
            top: self.top as int,
        }
    }
}

} // verus!
