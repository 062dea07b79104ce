use paws::{point, rgb, rgba, vector, Color, Point, Rect, Vector};

#[test]
fn vector_constructors_agree() {
    assert_eq!(Vector::new(1, -2), Vector { x: 1, y: -2 });
    assert_eq!(vector(1, -2), Vector { x: 1, y: -2 });
    assert_eq!(point(1, -2), Point { x: 1, y: -2 });
    assert_eq!(Vector::default(), vector(0, 0));
    assert_eq!(Vector::from((3, 4)), vector(3, 4));
    assert_eq!(Vector::from([5, 6]), vector(5, 6));
    let converted: Vector = (7, 8).into();
    assert_eq!(converted, vector(7, 8));
}

#[test]
fn vector_arithmetic() {
    assert_eq!(vector(1, 2) + vector(10, 20), vector(11, 22));
    assert_eq!(vector(1, 2) - vector(10, 20), vector(-9, -18));
    assert_eq!(vector(3, -4) * vector(5, 6), vector(15, -24));
    assert_eq!(vector(7, -7) / vector(2, 2), vector(3, -3));
    assert_eq!(vector(7, -7) / vector(-2, -2), vector(-3, 3));
    assert_eq!(vector(3, -4) * 3, vector(9, -12));
    assert_eq!(vector(9, -9) / 2, vector(4, -4));
    assert_eq!(-vector(3, -4), vector(-3, 4));
}

#[test]
fn vector_arithmetic_at_the_limits() {
    assert_eq!(vector(i32::MAX, i32::MIN) + vector(0, 0), vector(i32::MAX, i32::MIN));
    assert_eq!(vector(i32::MAX - 1, i32::MIN + 1) + vector(1, -1), vector(i32::MAX, i32::MIN));
    assert_eq!(vector(-1, 0) - vector(i32::MAX, i32::MAX), vector(i32::MIN, -i32::MAX));
    assert_eq!(-vector(i32::MAX, -i32::MAX), vector(-i32::MAX, i32::MAX));
    assert_eq!(vector(i32::MIN, i32::MAX) / 1, vector(i32::MIN, i32::MAX));
    assert_eq!(vector(i32::MIN, i32::MAX) / -2, vector(1 << 30, -((1 << 30) - 1)));
}

#[test]
fn vector_length() {
    assert_eq!(vector(3, 4).length_sq(), 25);
    assert_eq!(vector(3, 4).length(), 5);
    assert_eq!(vector(-3, -4).length(), 5);
    assert_eq!(vector(0, 0).length(), 0);
    assert_eq!(vector(1, 1).length_sq(), 2);
    assert_eq!(vector(1, 1).length(), 1);
    assert_eq!(vector(2, 2).length(), 2);
    assert_eq!(vector(0, 99).length(), 99);
    assert_eq!(vector(i32::MIN, i32::MIN).length_sq(), 1u64 << 63);
    assert_eq!(vector(i32::MIN, i32::MIN).length(), 3037000499);
    assert_eq!(vector(i32::MAX, 0).length(), 2147483647);
}

#[test]
fn vector_distance() {
    assert_eq!(vector(0, 0).distance(vector(3, 4)), 5);
    assert_eq!(vector(10, 10).distance(vector(7, 6)), 5);
    assert_eq!(vector(5, 5).distance(vector(5, 5)), 0);
    assert_eq!(vector(i32::MIN, 0).distance(vector(i32::MAX, 0)), 4294967295);
    assert_eq!(vector(i32::MIN, i32::MIN).distance(vector(i32::MAX, i32::MAX)), 6074000998);
}

#[test]
fn rect_sides_and_corners() {
    let rect = Rect::new(point(10, 20), vector(30, 40));
    assert_eq!(rect.position, point(10, 20));
    assert_eq!(rect.size, vector(30, 40));
    assert_eq!(rect.x(), 10);
    assert_eq!(rect.y(), 20);
    assert_eq!(rect.width(), 30);
    assert_eq!(rect.height(), 40);
    assert_eq!(rect.left(), 10);
    assert_eq!(rect.top(), 20);
    assert_eq!(rect.right(), 40);
    assert_eq!(rect.bottom(), 60);
    assert_eq!(rect.top_left(), point(10, 20));
    assert_eq!(rect.top_right(), point(40, 20));
    assert_eq!(rect.bottom_left(), point(10, 60));
    assert_eq!(rect.bottom_right(), point(40, 60));
}

#[test]
fn rect_center_rounds_each_half_toward_zero() {
    let rect = Rect::new(point(1, 2), vector(5, 7));
    assert_eq!(rect.center_x(), 3);
    assert_eq!(rect.center_y(), 5);
    assert_eq!(rect.center(), point(3, 5));

    let rect = Rect::new(point(1, 2), vector(-5, -7));
    assert_eq!(rect.center_x(), -1);
    assert_eq!(rect.center_y(), -1);
    assert_eq!(rect.center(), point(-1, -1));

    let rect = Rect::new(point(-10, -10), vector(4, 6));
    assert_eq!(rect.center(), point(-8, -7));
}

#[test]
fn rect_sort() {
    let rect = Rect::new(point(10, 10), vector(-4, 6));
    assert_eq!(rect.sort(), Rect::new(point(6, 10), vector(4, 6)));

    let rect = Rect::new(point(10, 10), vector(4, -6));
    assert_eq!(rect.sort(), Rect::new(point(10, 4), vector(4, 6)));

    let rect = Rect::new(point(10, 10), vector(-4, -6));
    assert_eq!(rect.sort(), Rect::new(point(6, 4), vector(4, 6)));

    let rect = Rect::new(point(10, 10), vector(4, 6));
    assert_eq!(rect.sort(), rect);

    let rect = Rect::new(point(0, 0), vector(-i32::MAX, 0));
    assert_eq!(rect.sort(), Rect::new(point(-i32::MAX, 0), vector(i32::MAX, 0)));
}

#[test]
fn color_from_channels() {
    assert_eq!(Color::new(1, 2, 3, 4), Color { r: 1, g: 2, b: 3, a: 4 });
    assert_eq!(rgb(1, 2, 3), Color { r: 1, g: 2, b: 3, a: 255 });
    assert_eq!(rgba(1, 2, 3, 4), Color { r: 1, g: 2, b: 3, a: 4 });
    assert_eq!(Color::black(), Color { r: 0, g: 0, b: 0, a: 255 });
    assert_eq!(Color::white(), Color { r: 255, g: 255, b: 255, a: 255 });
    assert_eq!(Color::transparent(), Color { r: 0, g: 0, b: 0, a: 0 });
}

#[test]
fn color_from_hex() {
    assert_eq!(Color::argb(0x11223344), Color { r: 0x22, g: 0x33, b: 0x44, a: 0x11 });
    assert_eq!(Color::argb(0), Color { r: 0, g: 0, b: 0, a: 0 });
    assert_eq!(Color::argb(0xFFFFFFFF), Color { r: 255, g: 255, b: 255, a: 255 });
    assert_eq!(Color::argb(0x80FF0001), Color { r: 255, g: 0, b: 1, a: 128 });
    assert_eq!(Color::rgb(0x223344), Color { r: 0x22, g: 0x33, b: 0x44, a: 255 });
    assert_eq!(Color::rgb(0x11223344), Color { r: 0x22, g: 0x33, b: 0x44, a: 255 });
}

#[test]
fn color_to_hex() {
    assert_eq!(Color { r: 0x22, g: 0x33, b: 0x44, a: 0x11 }.to_argb(), 0x11223344);
    assert_eq!(Color::white().to_argb(), 0xFFFFFFFF);
    assert_eq!(Color::transparent().to_argb(), 0);
    assert_eq!(Color::black().to_argb(), 0xFF000000);
}

#[test]
fn color_hex_round_trip() {
    for hex in [0u32, 1, 0xFF, 0x100, 0xDEADBEEF, 0x00FF00FF, 0x7FFFFFFF, 0x80000000, u32::MAX] {
        assert_eq!(Color::argb(hex).to_argb(), hex);
    }
    let color = Color { r: 9, g: 8, b: 7, a: 6 };
    assert_eq!(Color::argb(color.to_argb()), color);
}

#[test]
fn color_with_alpha() {
    assert_eq!(
        Color { r: 1, g: 2, b: 3, a: 4 }.with_alpha(200),
        Color { r: 1, g: 2, b: 3, a: 200 }
    );
}
