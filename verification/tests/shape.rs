use paws::{
    vector, AlignH, AlignV, Bottom, Center, Layout, Left, Middle, NoRenderer, Padding, Right, Top,
    Ui, CENTER,
};

fn frame(width: i32, height: i32, layout: Layout) -> Ui<NoRenderer> {
    let mut ui = Ui::new(NoRenderer);
    ui.root(vector(width, height), layout);
    ui
}

#[test]
fn pad_moves_the_position_inward_and_shrinks_the_size() {
    let mut ui = frame(100, 80, Layout::Vertical);
    ui.pad(Padding { left: 5, top: 7, right: 11, bottom: 13 });
    assert_eq!(ui.position(), vector(5, 7));
    assert_eq!(ui.size(), vector(84, 60));
    assert_eq!(ui.cursor(), vector(0, 0));
}

#[test]
fn pad_does_not_clamp() {
    let mut ui = frame(100, 80, Layout::Vertical);
    ui.pad(Padding::even(60));
    assert_eq!(ui.position(), vector(60, 60));
    assert_eq!(ui.size(), vector(-20, -40));
}

#[test]
fn pad_takes_the_conversions_of_padding() {
    let mut ui = frame(100, 80, Layout::Vertical);
    ui.pad((10, 20).into());
    assert_eq!(ui.position(), vector(10, 20));
    assert_eq!(ui.size(), vector(80, 40));
    ui.pad(3.into());
    assert_eq!(ui.position(), vector(13, 23));
    assert_eq!(ui.size(), vector(74, 34));
}

#[test]
fn children_of_a_padded_group_start_at_its_new_corner() {
    let mut ui = frame(100, 80, Layout::Vertical);
    ui.pad(Padding::hv(4, 6));
    ui.push(vector(10, 10), Layout::Freeform);
    assert_eq!(ui.position(), vector(4, 6));
}

#[test]
fn align_center_middle() {
    let mut ui = frame(800, 600, Layout::Freeform);
    ui.push(vector(101, 51), Layout::Freeform);
    ui.align(CENTER);
    assert_eq!(ui.position(), vector(350, 275));
    assert_eq!(ui.size(), vector(101, 51));
}

#[test]
fn align_twice_is_align_once() {
    let mut ui = frame(800, 600, Layout::Vertical);
    ui.space(100);
    ui.push(vector(101, 51), Layout::Horizontal);
    ui.set_cursor(vector(3, 4));
    ui.align((Center, Middle));
    let once = (ui.position(), ui.size(), ui.cursor());
    ui.align((Center, Middle));
    let twice = (ui.position(), ui.size(), ui.cursor());
    assert_eq!(once, twice);
    assert_eq!(once, (vector(350, 275), vector(101, 51), vector(3, 4)));
}

#[test]
fn align_to_each_side() {
    let mut ui = frame(800, 600, Layout::Vertical);
    ui.pad(Padding { left: 10, top: 20, right: 30, bottom: 40 });
    // the parent now spans (10, 20) to (770, 560)
    ui.push(vector(100, 50), Layout::Freeform);

    ui.align((Left, Top));
    assert_eq!(ui.position(), vector(10, 20));
    ui.align((Right, Bottom));
    assert_eq!(ui.position(), vector(670, 510));
    ui.align((Center, Top));
    assert_eq!(ui.position(), vector(340, 20));
    ui.align((Left, Middle));
    assert_eq!(ui.position(), vector(10, 265));
    ui.align((AlignH::Right, AlignV::Middle));
    assert_eq!(ui.position(), vector(670, 265));
    ui.align((AlignH::Center, AlignV::Bottom));
    assert_eq!(ui.position(), vector(340, 510));
}

#[test]
fn align_halves_round_toward_zero() {
    let mut ui = frame(-7, -9, Layout::Freeform);
    ui.push(vector(3, 5), Layout::Freeform);
    ui.align(CENTER);
    // half of -7 is -3 and half of 3 is 1; half of -9 is -4 and half of 5 is 2
    assert_eq!(ui.position(), vector(-4, -6));

    let mut ui = frame(7, 9, Layout::Freeform);
    ui.push(vector(-3, -5), Layout::Freeform);
    ui.align(CENTER);
    assert_eq!(ui.position(), vector(4, 6));
}

#[test]
fn align_leaves_the_parent_alone() {
    let mut ui = frame(800, 600, Layout::Vertical);
    ui.push(vector(100, 50), Layout::Freeform);
    ui.align((Right, Bottom));
    ui.pop();
    assert_eq!(ui.position(), vector(0, 0));
    assert_eq!(ui.size(), vector(800, 600));
    assert_eq!(ui.cursor(), vector(0, 50));
}

#[test]
fn fit_vertical_sets_the_height_only() {
    let mut ui = frame(800, 600, Layout::Vertical);
    ui.push(vector(700, 500), Layout::Vertical);
    ui.push(vector(10, 30), Layout::Freeform);
    ui.pop();
    ui.push(vector(20, 50), Layout::Freeform);
    ui.pop();
    ui.push(vector(30, 70), Layout::Freeform);
    ui.pop();
    ui.fit();
    assert_eq!(ui.size(), vector(700, 150));
    assert_eq!(ui.position(), vector(0, 0));
    assert_eq!(ui.cursor(), vector(0, 150));
}

#[test]
fn fit_horizontal_sets_the_width_only() {
    let mut ui = frame(800, 600, Layout::Vertical);
    ui.push(vector(700, 500), Layout::Horizontal);
    ui.push(vector(10, 30), Layout::Freeform);
    ui.pop();
    ui.push(vector(20, 50), Layout::Freeform);
    ui.pop();
    ui.fit();
    assert_eq!(ui.size(), vector(30, 500));
}

#[test]
fn fit_freeform_sets_both() {
    let mut ui = frame(800, 600, Layout::Freeform);
    ui.set_cursor(vector(12, 34));
    ui.fit();
    assert_eq!(ui.size(), vector(12, 34));
    assert_eq!(ui.position(), vector(0, 0));
}

#[test]
fn fit_of_an_empty_group_is_zero_along_the_axis() {
    let mut ui = frame(800, 600, Layout::Vertical);
    ui.fit();
    assert_eq!(ui.size(), vector(800, 0));
}

#[test]
fn a_fitted_group_advances_its_parent_by_its_new_size() {
    let mut ui = frame(800, 600, Layout::Vertical);
    ui.push(vector(800, 600), Layout::Vertical);
    ui.push(vector(800, 20), Layout::Freeform);
    ui.pop();
    ui.fit();
    ui.pop();
    assert_eq!(ui.cursor(), vector(0, 20));
}
