//! Geometric value types and colors.

use vstd::prelude::*;

verus! {

/// Whether the integer `v` can be stored in a coordinate.
pub open spec fn fits(v: int) -> bool {
    i32::MIN <= v <= i32::MAX
}

/// The quotient of `a` by `b`, rounded toward zero.
pub open spec fn quotient(a: int, b: int) -> int {
    if a >= 0 {
        a / b
    } else {
        -((-a) / b)
    }
}

/// Half of `v`, rounded toward zero.
pub open spec fn half(v: int) -> int {
    quotient(v, 2)
}

/// Whether `root` is the square root of `n`, rounded down.
pub open spec fn is_floor_sqrt(root: int, n: int) -> bool {
    &&& 0 <= root
    &&& root * root <= n
    &&& n < (root + 1) * (root + 1)
}

/// A number has one square root rounded down, and no other.
pub proof fn law_floor_sqrt_unique(a: int, b: int, n: int)
    requires
        is_floor_sqrt(a, n),
        is_floor_sqrt(b, n),
    ensures
        a == b,
{
    if a < b {
        assert((a + 1) * (a + 1) <= b * b) by (nonlinear_arith)
            requires
                0 <= a,
                a + 1 <= b,
        ;
    } else if b < a {
        assert((b + 1) * (b + 1) <= a * a) by (nonlinear_arith)
            requires
                0 <= b,
                b + 1 <= a,
        ;
    }
}

/// The square root of `n`, rounded down.
fn floor_sqrt(n: u128) -> (root: u64)
    ensures
        is_floor_sqrt(root as int, n as int),
{
    let mut low: u128 = 0;
    let mut high: u128 = 0x1_0000_0000_0000_0000;
    assert(high * high > n) by (nonlinear_arith)
        requires
            high == 0x1_0000_0000_0000_0000,
            n <= u128::MAX,
    ;
    while high - low > 1
        invariant
            low < high <= 0x1_0000_0000_0000_0000,
            low * low <= n < high * high,
        decreases high - low,
    {
        let mid = low + (high - low) / 2;
        assert(mid * mid <= 0xffff_ffff_ffff_ffff * 0xffff_ffff_ffff_ffff) by (nonlinear_arith)
            requires
                0 <= mid <= 0xffff_ffff_ffff_ffff,
        ;
        if mid * mid <= n {
            low = mid;
        } else {
            high = mid;
        }
    }
    low as u64
}

/// The mathematical model of a [`Vector`]: a pair of unbounded integers.
pub struct VectorView {
    pub x: int,
    pub y: int,
}

impl VectorView {
    /// The vector `(0, 0)`.
    pub open spec fn zero() -> VectorView {
        VectorView { x: 0, y: 0 }
    }

    /// Componentwise sum.
    pub open spec fn plus(self, other: VectorView) -> VectorView {
        VectorView { x: self.x + other.x, y: self.y + other.y }
    }

    /// Componentwise difference.
    pub open spec fn minus(self, other: VectorView) -> VectorView {
        VectorView { x: self.x - other.x, y: self.y - other.y }
    }

    /// Componentwise product.
    pub open spec fn times(self, other: VectorView) -> VectorView {
        VectorView { x: self.x * other.x, y: self.y * other.y }
    }

    /// Componentwise quotient, rounded toward zero.
    pub open spec fn over(self, other: VectorView) -> VectorView {
        VectorView { x: quotient(self.x, other.x), y: quotient(self.y, other.y) }
    }

    /// Both components multiplied by `s`.
    pub open spec fn scaled(self, s: int) -> VectorView {
        VectorView { x: self.x * s, y: self.y * s }
    }

    /// Both components divided by `s`, rounded toward zero.
    pub open spec fn shrunk(self, s: int) -> VectorView {
        VectorView { x: quotient(self.x, s), y: quotient(self.y, s) }
    }

    /// Both components negated.
    pub open spec fn negated(self) -> VectorView {
        VectorView { x: -self.x, y: -self.y }
    }

    /// The square of the Euclidean length.
    pub open spec fn length_sq(self) -> int {
        self.x * self.x + self.y * self.y
    }

    /// Whether both components can be stored in coordinates.
    pub open spec fn fits(self) -> bool {
        fits(self.x) && fits(self.y)
    }
}

/// A two-dimensional vector with integer coordinates.
#[derive(Copy, Clone, Debug, PartialEq, Eq, Structural)]
pub struct Vector {
    pub x: i32,
    pub y: i32,
}

/// Alias for vectors, used to better state intent in certain places.
pub type Point = Vector;

impl View for Vector {
    type V = VectorView;

    open spec fn view(&self) -> VectorView {
        VectorView { x: self.x as int, y: self.y as int }
    }
}

impl Vector {
    /// Creates a new vector from X/Y coordinates.
    pub fn new(x: i32, y: i32) -> (v: Self)
        ensures
            v.x == x,
            v.y == y,
    {
        Self { x, y }
    }

    /// Returns the length² of a vector.
    pub fn length_sq(self) -> (length_sq: u64)
        ensures
            length_sq == self@.length_sq(),
    {
        let x = self.x as i64;
        let y = self.y as i64;
        assert(0 <= x * x <= 0x8000_0000 * 0x8000_0000) by (nonlinear_arith)
            requires
                -0x8000_0000 <= x <= 0x8000_0000,
        ;
        assert(0 <= y * y <= 0x8000_0000 * 0x8000_0000) by (nonlinear_arith)
            requires
                -0x8000_0000 <= y <= 0x8000_0000,
        ;
        (x * x) as u64 + (y * y) as u64
    }

    /// Returns the length of a vector, rounded down to a whole number.
    pub fn length(self) -> (length: u64)
        ensures
            is_floor_sqrt(length as int, self@.length_sq()),
    {
        floor_sqrt(self.length_sq() as u128)
    }

    /// Returns the distance between this point and another point, rounded
    /// down to a whole number.
    pub fn distance(self, other: Vector) -> (distance: u64)
        ensures
            is_floor_sqrt(distance as int, other@.minus(self@).length_sq()),
    {
        let dx = other.x as i64 - self.x as i64;
        let dy = other.y as i64 - self.y as i64;
        assert(0 <= dx * dx <= 0x1_0000_0000 * 0x1_0000_0000) by (nonlinear_arith)
            requires
                -0x1_0000_0000 <= dx <= 0x1_0000_0000,
        ;
        assert(0 <= dy * dy <= 0x1_0000_0000 * 0x1_0000_0000) by (nonlinear_arith)
            requires
                -0x1_0000_0000 <= dy <= 0x1_0000_0000,
        ;
        floor_sqrt((dx as i128 * dx as i128) as u128 + (dy as i128 * dy as i128) as u128)
    }
}

impl Default for Vector {
    /// The default vector is `[0, 0]`.
    fn default() -> (v: Self)
        ensures
            v@ == VectorView::zero(),
    {
        vector(0, 0)
    }
}

impl vstd::std_specs::convert::FromSpecImpl<(i32, i32)> for Vector {
    open spec fn obeys_from_spec() -> bool {
        true
    }

    open spec fn from_spec(tuple: (i32, i32)) -> Vector {
        Vector { x: tuple.0, y: tuple.1 }
    }
}

impl From<(i32, i32)> for Vector {
    fn from(tuple: (i32, i32)) -> (v: Self) {
        vector(tuple.0, tuple.1)
    }
}

impl vstd::std_specs::convert::FromSpecImpl<[i32; 2]> for Vector {
    open spec fn obeys_from_spec() -> bool {
        true
    }

    open spec fn from_spec(array: [i32; 2]) -> Vector {
        Vector { x: array[0], y: array[1] }
    }
}

impl From<[i32; 2]> for Vector {
    fn from(array: [i32; 2]) -> (v: Self) {
        vector(array[0], array[1])
    }
}

impl vstd::std_specs::ops::NegSpecImpl for Vector {
    open spec fn obeys_neg_spec() -> bool {
        true
    }

    open spec fn neg_req(self) -> bool {
        self@.negated().fits()
    }

    open spec fn neg_spec(self) -> Vector {
        Vector { x: (-self.x) as i32, y: (-self.y) as i32 }
    }
}

impl core::ops::Neg for Vector {
    type Output = Self;

    /// Both components negated; the result must be representable.
    fn neg(self) -> (v: Self)
        ensures
            v@ == self@.negated(),
    {
        vector(-self.x, -self.y)
    }
}

impl vstd::std_specs::ops::AddSpecImpl for Vector {
    open spec fn obeys_add_spec() -> bool {
        true
    }

    open spec fn add_req(self, rhs: Vector) -> bool {
        self@.plus(rhs@).fits()
    }

    open spec fn add_spec(self, rhs: Vector) -> Vector {
        Vector { x: (self.x + rhs.x) as i32, y: (self.y + rhs.y) as i32 }
    }
}

impl core::ops::Add for Vector {
    type Output = Self;

    /// Componentwise sum; the result must be representable.
    fn add(self, rhs: Vector) -> (v: Self)
        ensures
            v@ == self@.plus(rhs@),
    {
        vector(self.x + rhs.x, self.y + rhs.y)
    }
}

impl vstd::std_specs::ops::SubSpecImpl for Vector {
    open spec fn obeys_sub_spec() -> bool {
        true
    }

    open spec fn sub_req(self, rhs: Vector) -> bool {
        self@.minus(rhs@).fits()
    }

    open spec fn sub_spec(self, rhs: Vector) -> Vector {
        Vector { x: (self.x - rhs.x) as i32, y: (self.y - rhs.y) as i32 }
    }
}

impl core::ops::Sub for Vector {
    type Output = Self;

    /// Componentwise difference; the result must be representable.
    fn sub(self, rhs: Vector) -> (v: Self)
        ensures
            v@ == self@.minus(rhs@),
    {
        vector(self.x - rhs.x, self.y - rhs.y)
    }
}

impl vstd::std_specs::ops::MulSpecImpl for Vector {
    open spec fn obeys_mul_spec() -> bool {
        true
    }

    open spec fn mul_req(self, rhs: Vector) -> bool {
        self@.times(rhs@).fits()
    }

    open spec fn mul_spec(self, rhs: Vector) -> Vector {
        Vector { x: (self.x * rhs.x) as i32, y: (self.y * rhs.y) as i32 }
    }
}

impl core::ops::Mul for Vector {
    type Output = Self;

    /// Componentwise product; the result must be representable.
    fn mul(self, rhs: Vector) -> (v: Self)
        ensures
            v@ == self@.times(rhs@),
    {
        vector(self.x * rhs.x, self.y * rhs.y)
    }
}

impl vstd::std_specs::ops::DivSpecImpl for Vector {
    open spec fn obeys_div_spec() -> bool {
        true
    }

    open spec fn div_req(self, rhs: Vector) -> bool {
        rhs.x != 0 && rhs.y != 0 && self@.over(rhs@).fits()
    }

    open spec fn div_spec(self, rhs: Vector) -> Vector {
        Vector {
            x: quotient(self.x as int, rhs.x as int) as i32,
            y: quotient(self.y as int, rhs.y as int) as i32,
        }
    }
}

impl core::ops::Div for Vector {
    type Output = Self;

    /// Componentwise quotient, rounded toward zero; no component of the
    /// divisor may be zero, and the result must be representable.
    fn div(self, rhs: Vector) -> (v: Self)
        ensures
            v@ == self@.over(rhs@),
    {
        vector(self.x / rhs.x, self.y / rhs.y)
    }
}

impl vstd::std_specs::ops::MulSpecImpl<i32> for Vector {
    open spec fn obeys_mul_spec() -> bool {
        true
    }

    open spec fn mul_req(self, s: i32) -> bool {
        self@.scaled(s as int).fits()
    }

    open spec fn mul_spec(self, s: i32) -> Vector {
        Vector { x: (self.x * s) as i32, y: (self.y * s) as i32 }
    }
}

impl core::ops::Mul<i32> for Vector {
    type Output = Self;

    /// Both components multiplied by `s`; the result must be representable.
    fn mul(self, s: i32) -> (v: Self)
        ensures
            v@ == self@.scaled(s as int),
    {
        vector(self.x * s, self.y * s)
    }
}

impl vstd::std_specs::ops::DivSpecImpl<i32> for Vector {
    open spec fn obeys_div_spec() -> bool {
        true
    }

    open spec fn div_req(self, s: i32) -> bool {
        s != 0 && self@.shrunk(s as int).fits()
    }

    open spec fn div_spec(self, s: i32) -> Vector {
        Vector {
            x: quotient(self.x as int, s as int) as i32,
            y: quotient(self.y as int, s as int) as i32,
        }
    }
}

impl core::ops::Div<i32> for Vector {
    type Output = Self;

    /// Both components divided by `s`, rounded toward zero; `s` must not be
    /// zero, and the result must be representable.
    fn div(self, s: i32) -> (v: Self)
        ensures
            v@ == self@.shrunk(s as int),
    {
        vector(self.x / s, self.y / s)
    }
}

/// Shorthand for `Vector::new(x, y)`.
pub fn vector(x: i32, y: i32) -> (v: Vector)
    ensures
        v.x == x,
        v.y == y,
{
    Vector::new(x, y)
}

/// Shorthand for `Point::new(x, y)`, which is equivalent to `Vector::new(x, y)`.
pub fn point(x: i32, y: i32) -> (p: Point)
    ensures
        p.x == x,
        p.y == y,
{
    Point::new(x, y)
}

/// The mathematical model of a [`Rect`]: a position and a size, either of
/// which may have any sign.
pub struct RectView {
    pub position: VectorView,
    pub size: VectorView,
}

impl RectView {
    /// The X coordinate of the left side.
    pub open spec fn left(self) -> int {
        self.position.x
    }

    /// The Y coordinate of the top side.
    pub open spec fn top(self) -> int {
        self.position.y
    }

    /// The X coordinate of the right side.
    pub open spec fn right(self) -> int {
        self.position.x + self.size.x
    }

    /// The Y coordinate of the bottom side.
    pub open spec fn bottom(self) -> int {
        self.position.y + self.size.y
    }

    /// The top left corner.
    pub open spec fn top_left(self) -> VectorView {
        self.position
    }

    /// The top right corner.
    pub open spec fn top_right(self) -> VectorView {
        VectorView { x: self.right(), y: self.top() }
    }

    /// The bottom left corner.
    pub open spec fn bottom_left(self) -> VectorView {
        VectorView { x: self.left(), y: self.bottom() }
    }

    /// The bottom right corner.
    pub open spec fn bottom_right(self) -> VectorView {
        VectorView { x: self.right(), y: self.bottom() }
    }

    /// The horizontal center: the left side plus half the width.
    pub open spec fn center_x(self) -> int {
        self.position.x + half(self.size.x)
    }

    /// The vertical center: the top side plus half the height.
    pub open spec fn center_y(self) -> int {
        self.position.y + half(self.size.y)
    }

    /// The center point.
    pub open spec fn center(self) -> VectorView {
        VectorView { x: self.center_x(), y: self.center_y() }
    }

    /// The same region with a width and a height that are not negative.
    pub open spec fn sorted(self) -> RectView {
        RectView {
            position: VectorView {
                x: if self.size.x >= 0 { self.left() } else { self.right() },
                y: if self.size.y >= 0 { self.top() } else { self.bottom() },
            },
            size: VectorView {
                x: if self.size.x >= 0 { self.size.x } else { -self.size.x },
                y: if self.size.y >= 0 { self.size.y } else { -self.size.y },
            },
        }
    }

    /// Whether the position and the size can be stored in coordinates.
    pub open spec fn fits(self) -> bool {
        self.position.fits() && self.size.fits()
    }
}

/// An axis-aligned rectangle.
#[derive(Copy, Clone, Debug, PartialEq, Eq, Structural)]
pub struct Rect {
    pub position: Point,
    pub size: Vector,
}

impl View for Rect {
    type V = RectView;

    open spec fn view(&self) -> RectView {
        RectView { position: self.position@, size: self.size@ }
    }
}

impl Rect {
    /// Creates a new rectangle from a position and a size.
    pub fn new(position: Point, size: Vector) -> (rect: Self)
        ensures
            rect.position == position,
            rect.size == size,
    {
        Self { position, size }
    }

    /// Returns the X coordinate of the rectangle's position.
    pub fn x(&self) -> (x: i32)
        ensures
            x == self@.position.x,
    {
        self.position.x
    }

    /// Returns the Y coordinate of the rectangle's position.
    pub fn y(&self) -> (y: i32)
        ensures
            y == self@.position.y,
    {
        self.position.y
    }

    /// Returns the width of the rectangle.
    pub fn width(&self) -> (width: i32)
        ensures
            width == self@.size.x,
    {
        self.size.x
    }

    /// Returns the height of the rectangle.
    pub fn height(&self) -> (height: i32)
        ensures
            height == self@.size.y,
    {
        self.size.y
    }

    /// Returns the left side of the rectangle.
    pub fn left(&self) -> (left: i32)
        ensures
            left == self@.left(),
    {
        self.position.x
    }

    /// Returns the top side of the rectangle.
    pub fn top(&self) -> (top: i32)
        ensures
            top == self@.top(),
    {
        self.position.y
    }

    /// Returns the right side of the rectangle, which must be representable.
    pub fn right(&self) -> (right: i32)
        requires
            fits(self@.right()),
        ensures
            right == self@.right(),
    {
        self.position.x + self.size.x
    }

    /// Returns the bottom side of the rectangle, which must be representable.
    pub fn bottom(&self) -> (bottom: i32)
        requires
            fits(self@.bottom()),
        ensures
            bottom == self@.bottom(),
    {
        self.position.y + self.size.y
    }

    /// Returns the top left corner of the rectangle.
    pub fn top_left(&self) -> (corner: Point)
        ensures
            corner@ == self@.top_left(),
    {
        self.position
    }

    /// Returns the top right corner of the rectangle, which must be representable.
    pub fn top_right(&self) -> (corner: Point)
        requires
            self@.top_right().fits(),
        ensures
            corner@ == self@.top_right(),
    {
        vector(self.position.x + self.size.x, self.position.y)
    }

    /// Returns the bottom left corner of the rectangle, which must be representable.
    pub fn bottom_left(&self) -> (corner: Point)
        requires
            self@.bottom_left().fits(),
        ensures
            corner@ == self@.bottom_left(),
    {
        vector(self.position.x, self.position.y + self.size.y)
    }

    /// Returns the bottom right corner of the rectangle, which must be representable.
    pub fn bottom_right(&self) -> (corner: Point)
        requires
            self@.bottom_right().fits(),
        ensures
            corner@ == self@.bottom_right(),
    {
        vector(self.position.x + self.size.x, self.position.y + self.size.y)
    }

    /// Returns the center point of the rectangle: the position plus half the
    /// size, each half rounded toward zero.
    pub fn center(&self) -> (center: Point)
        requires
            self@.center().fits(),
        ensures
            center@ == self@.center(),
    {
        vector(self.position.x + self.size.x / 2, self.position.y + self.size.y / 2)
    }

    /// Returns the horizontal (X) center of the rectangle: the left side plus
    /// half the width, rounded toward zero.
    pub fn center_x(&self) -> (center: i32)
        requires
            fits(self@.center_x()),
        ensures
            center == self@.center_x(),
    {
        self.position.x + self.size.x / 2
    }

    /// Returns the vertical (Y) center of the rectangle: the top side plus half
    /// the height, rounded toward zero.
    pub fn center_y(&self) -> (center: i32)
        requires
            fits(self@.center_y()),
        ensures
            center == self@.center_y(),
    {
        self.position.y + self.size.y / 2
    }

    /// Returns a _sorted_ rectangle - that is, the same rectangle, but with the
    /// width and height guaranteed not to be negative. Where the width is
    /// negative the left and right sides are swapped, and where the height is
    /// negative the top and bottom sides.
    ///
    /// The sorted rectangle must be representable.
    pub fn sort(self) -> (sorted: Self)
        requires
            self@.sorted().fits(),
        ensures
            sorted@ == self@.sorted(),
            sorted@.size.x >= 0,
            sorted@.size.y >= 0,
    {
        let x = self.position.x as i64;
        let y = self.position.y as i64;
        let w = self.size.x as i64;
        let h = self.size.y as i64;
        let left = if w >= 0 { x } else { x + w };
        let right = if w >= 0 { x + w } else { x };
        let top = if h >= 0 { y } else { y + h };
        let bottom = if h >= 0 { y + h } else { y };
        Self::new(
            point(left as i32, top as i32),
            vector((right - left) as i32, (bottom - top) as i32),
        )
    }
}

/// An 8-bit RGBA color.
#[derive(Copy, Clone, Debug, PartialEq, Eq, Structural)]
pub struct Color {
    pub r: u8,
    pub g: u8,
    pub b: u8,
    pub a: u8,
}

impl Color {
    /// Solid black.
    pub fn black() -> (color: Self)
        ensures
            color == (Color { r: 0, g: 0, b: 0, a: 255 }),
    {
        rgb(0, 0, 0)
    }

    /// Solid white.
    pub fn white() -> (color: Self)
        ensures
            color == (Color { r: 255, g: 255, b: 255, a: 255 }),
    {
        rgb(255, 255, 255)
    }

    /// Fully transparent black.
    pub fn transparent() -> (color: Self)
        ensures
            color == (Color { r: 0, g: 0, b: 0, a: 0 }),
    {
        rgba(0, 0, 0, 0)
    }

    /// The color whose channels are the four bytes of `hex`, from the most
    /// significant to the least significant: alpha, red, green, blue.
    pub open spec fn spec_argb(hex: u32) -> Color {
        Color {
            r: ((hex / 0x1_0000) % 0x100) as u8,
            g: ((hex / 0x100) % 0x100) as u8,
            b: (hex % 0x100) as u8,
            a: (hex / 0x100_0000) as u8,
        }
    }

    /// The number whose four bytes are the channels of this color, from the
    /// most significant to the least significant: alpha, red, green, blue.
    pub open spec fn spec_to_argb(&self) -> u32 {
        (self.a * 0x100_0000 + self.r * 0x1_0000 + self.g * 0x100 + self.b) as u32
    }

    /// Creates a new color from channels.
    pub fn new(r: u8, g: u8, b: u8, a: u8) -> (color: Self)
        ensures
            color == (Color { r, g, b, a }),
    {
        Self { r, g, b, a }
    }

    /// Creates a new color from an ARGB hex literal.
    #[verifier::when_used_as_spec(spec_argb)]
    pub fn argb(hex: u32) -> (color: Self)
        ensures
            color == Self::spec_argb(hex),
            color.spec_to_argb() == hex,
    {
        let a = (hex >> 24) & 0xFF;
        let r = (hex >> 16) & 0xFF;
        let g = (hex >> 8) & 0xFF;
        let b = hex & 0xFF;
        assert(a == hex / 0x100_0000 && a < 0x100) by (bit_vector)
            requires
                a == (hex >> 24) & 0xFF,
        ;
        assert(r == (hex / 0x1_0000) % 0x100 && r < 0x100) by (bit_vector)
            requires
                r == (hex >> 16) & 0xFF,
        ;
        assert(g == (hex / 0x100) % 0x100 && g < 0x100) by (bit_vector)
            requires
                g == (hex >> 8) & 0xFF,
        ;
        assert(b == hex % 0x100 && b < 0x100) by (bit_vector)
            requires
                b == hex & 0xFF,
        ;
        assert(a * 0x100_0000 + r * 0x1_0000 + g * 0x100 + b == hex) by (bit_vector)
            requires
                a == (hex >> 24) & 0xFF,
                r == (hex >> 16) & 0xFF,
                g == (hex >> 8) & 0xFF,
                b == hex & 0xFF,
        ;
        Self { r: r as u8, g: g as u8, b: b as u8, a: a as u8 }
    }

    /// Converts a color to a u32 holding ARGB in its bits, from most significant to least significant.
    #[verifier::when_used_as_spec(spec_to_argb)]
    pub fn to_argb(&self) -> (hex: u32)
        ensures
            hex == self.spec_to_argb(),
            Self::spec_argb(hex) == *self,
    {
        let a = self.a as u32;
        let r = self.r as u32;
        let g = self.g as u32;
        let b = self.b as u32;
        let hex = (a << 24) | (r << 16) | (g << 8) | b;
        assert(hex == a * 0x100_0000 + r * 0x1_0000 + g * 0x100 + b) by (bit_vector)
            requires
                a < 0x100,
                r < 0x100,
                g < 0x100,
                b < 0x100,
                hex == (a << 24) | (r << 16) | (g << 8) | b,
        ;
        assert(hex / 0x100_0000 == a && (hex / 0x1_0000) % 0x100 == r && (hex / 0x100) % 0x100 == g
            && hex % 0x100 == b) by (bit_vector)
            requires
                a < 0x100,
                r < 0x100,
                g < 0x100,
                b < 0x100,
                hex == (a << 24) | (r << 16) | (g << 8) | b,
        ;
        hex
    }

    /// Creates a new color from an RGB hex literal.
    pub fn rgb(hex: u32) -> (color: Self)
        ensures
            color == Self::spec_argb(hex).with_alpha(255),
    {
        let opaque = hex | 0xFF000000;
        assert(opaque / 0x100_0000 == 255 && (opaque / 0x1_0000) % 0x100 == (hex / 0x1_0000) % 0x100
            && (opaque / 0x100) % 0x100 == (hex / 0x100) % 0x100 && opaque % 0x100 == hex % 0x100)
            by (bit_vector)
            requires
                opaque == hex | 0xFF000000,
        ;
        Self::argb(opaque)
    }

    /// The same color with its alpha channel replaced by `a`.
    pub open spec fn spec_with_alpha(self, a: u8) -> Color {
        Color { r: self.r, g: self.g, b: self.b, a }
    }

    /// Returns a color with the same RGB channels, but with the alpha channel altered.
    #[verifier::when_used_as_spec(spec_with_alpha)]
    pub fn with_alpha(self, a: u8) -> (color: Self)
        ensures
            color == self.spec_with_alpha(a),
    {
        Self::new(self.r, self.g, self.b, a)
    }
}

/// Creates a new color from RGB channels.
pub fn rgb(r: u8, g: u8, b: u8) -> (color: Color)
    ensures
        color == (Color { r, g, b, a: 255 }),
{
    Color::new(r, g, b, 255)
}

/// Creates a new color from RGBA channels. Shorthand for `Color::new(r, g, b, a)`.
pub fn rgba(r: u8, g: u8, b: u8, a: u8) -> (color: Color)
    ensures
        color == (Color { r, g, b, a }),
{
    Color::new(r, g, b, a)
}

} // verus!
