//! **paws** is a small immediate-mode layout engine: a stack of rectangular
//! groups that places nested interface elements anew on every frame, with no
//! retained widget tree. Coordinates are whole numbers of layout units.
//!
//! Every operation carries a contract over a mathematical model of the group
//! stack (see [`GroupView`]); the laws that relate the operations to each other
//! are proved in the `laws` module. Start at [`Ui`].

pub mod common;
pub mod laws;
pub mod layout;
pub mod model;
pub mod renderer;
pub mod ui;

pub use crate::common::{
    fits, half, is_floor_sqrt, point, quotient, rgb, rgba, vector, Color, Point, Rect, RectView,
    Vector, VectorView,
};
pub use crate::layout::AlignH::{Center, Left, Right};
pub use crate::layout::AlignV::{Bottom, Middle, Top};
pub use crate::layout::{AlignH, AlignV, Alignment, Layout, Padding, PaddingView, CENTER};
pub use crate::model::{
    alignable, aligned, aligned_x, aligned_y, fitted, poppable, popped, pushable, pushed,
    realigned, rooted, with_top, GroupView,
};
pub use crate::renderer::{LineCap, NoRenderer, NoRendererFont, Renderer};
pub use crate::ui::Ui;
