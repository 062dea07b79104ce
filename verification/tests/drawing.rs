use paws::{
    point, rgb, vector, Alignment, Color, Layout, LineCap, NoRenderer, NoRendererFont, Point, Rect,
    Renderer, Ui, Vector, CENTER,
};

#[derive(Debug, Clone, PartialEq)]
enum Command {
    Push,
    Pop,
    Translate(Vector),
    Clip(Rect),
    Fill(Rect, Color, i32),
    Outline(Rect, Color, i32, i32),
    Line(Point, Point, Color, LineCap, i32),
    Text(Rect, String, String, Color, Alignment),
}

/// A renderer that writes down what it is asked to do.
struct Recorder {
    log: Vec<Command>,
}

impl Renderer for Recorder {
    type Font = String;

    fn push(&mut self) {
        self.log.push(Command::Push);
    }

    fn pop(&mut self) {
        self.log.push(Command::Pop);
    }

    fn translate(&mut self, vec: Vector) {
        self.log.push(Command::Translate(vec));
    }

    fn clip(&mut self, rect: Rect) {
        self.log.push(Command::Clip(rect));
    }

    fn fill(&mut self, rect: Rect, color: Color, radius: i32) {
        self.log.push(Command::Fill(rect, color, radius));
    }

    fn outline(&mut self, rect: Rect, color: Color, radius: i32, thickness: i32) {
        self.log.push(Command::Outline(rect, color, radius, thickness));
    }

    fn line(&mut self, a: Point, b: Point, color: Color, cap: LineCap, thickness: i32) {
        self.log.push(Command::Line(a, b, color, cap, thickness));
    }

    fn text(
        &mut self,
        rect: Rect,
        font: &Self::Font,
        text: &str,
        color: Color,
        alignment: Alignment,
    ) -> i32 {
        self.log.push(Command::Text(rect, font.clone(), text.to_string(), color, alignment));
        text.len() as i32
    }
}

/// A recorder with a group of size (100, 50) at (20, 30) on top of the root.
fn recording() -> Ui<Recorder> {
    let mut ui = Ui::new(Recorder { log: Vec::new() });
    ui.root(vector(800, 600), Layout::Freeform);
    ui.set_cursor(vector(20, 30));
    ui.push(vector(100, 50), Layout::Vertical);
    ui
}

fn group_rect() -> Rect {
    Rect::new(point(20, 30), vector(100, 50))
}

#[test]
fn layout_draws_nothing() {
    let mut ui = recording();
    ui.push(vector(1, 1), Layout::Horizontal);
    ui.pad(2.into());
    ui.align(CENTER);
    ui.space(3);
    ui.fit();
    ui.pop();
    assert_eq!(ui.renderer().log, vec![]);
}

#[test]
fn draw_wraps_the_callback_in_push_translate_pop() {
    let mut ui = recording();
    ui.draw(|ui| {
        ui.render().fill(Rect::new(point(0, 0), vector(1, 1)), rgb(1, 2, 3), 0);
    });
    assert_eq!(
        ui.renderer().log,
        vec![
            Command::Push,
            Command::Translate(vector(20, 30)),
            Command::Fill(Rect::new(point(0, 0), vector(1, 1)), rgb(1, 2, 3), 0),
            Command::Pop,
        ]
    );
    assert_eq!(ui.depth(), 2);
}

#[test]
fn draw_leaves_the_stack_as_the_callback_left_it() {
    let mut ui = recording();
    ui.draw(|ui| {
        ui.push(vector(10, 10), Layout::Freeform);
        ui.pop();
        ui.set_line_cap(LineCap::Square);
    });
    assert_eq!(ui.depth(), 2);
    assert_eq!(ui.cursor(), vector(0, 10));
    assert!(ui.line_cap() == LineCap::Square);
    assert_eq!(
        ui.renderer().log,
        vec![Command::Push, Command::Translate(vector(20, 30)), Command::Pop]
    );
}

#[test]
fn clip_hands_over_the_group_rectangle() {
    let mut ui = recording();
    ui.clip();
    assert_eq!(ui.renderer().log, vec![Command::Clip(group_rect())]);
}

#[test]
fn fill_is_fill_rounded_with_no_radius() {
    let mut ui = recording();
    ui.fill(rgb(10, 20, 30));
    ui.fill_rounded(rgb(1, 2, 3), 8);
    assert_eq!(
        ui.renderer().log,
        vec![
            Command::Fill(group_rect(), rgb(10, 20, 30), 0),
            Command::Fill(group_rect(), rgb(1, 2, 3), 8),
        ]
    );
}

#[test]
fn outline_is_outline_rounded_with_no_radius() {
    let mut ui = recording();
    ui.outline(rgb(10, 20, 30), 2);
    ui.outline_rounded(rgb(1, 2, 3), 8, 3);
    assert_eq!(
        ui.renderer().log,
        vec![
            Command::Outline(group_rect(), rgb(10, 20, 30), 0, 2),
            Command::Outline(group_rect(), rgb(1, 2, 3), 8, 3),
        ]
    );
}

#[test]
fn borders_span_the_sides_of_the_group() {
    let mut ui = recording();
    let color = Color::white();
    ui.border_left(color, 1);
    ui.border_top(color, 2);
    ui.border_right(color, 3);
    ui.border_bottom(color, 4);
    assert_eq!(
        ui.renderer().log,
        vec![
            Command::Line(point(20, 30), point(20, 80), color, LineCap::Butt, 1),
            Command::Line(point(20, 30), point(120, 30), color, LineCap::Butt, 2),
            Command::Line(point(120, 30), point(120, 80), color, LineCap::Butt, 3),
            Command::Line(point(20, 80), point(120, 80), color, LineCap::Butt, 4),
        ]
    );
}

#[test]
fn borders_end_with_the_line_cap_of_the_group() {
    let mut ui = recording();
    ui.set_line_cap(LineCap::Round);
    ui.border_top(Color::black(), 5);
    ui.pop();
    ui.set_cursor(vector(0, 0));
    ui.border_left(Color::black(), 6);
    assert_eq!(
        ui.renderer().log,
        vec![
            Command::Line(point(20, 30), point(120, 30), Color::black(), LineCap::Round, 5),
            Command::Line(point(0, 0), point(0, 600), Color::black(), LineCap::Butt, 6),
        ]
    );
}

#[test]
fn text_hands_over_the_group_rectangle() {
    let mut ui = recording();
    let font = String::from("serif");
    ui.text(&font, "hello", rgb(9, 9, 9), CENTER);
    assert_eq!(
        ui.renderer().log,
        vec![Command::Text(
            group_rect(),
            String::from("serif"),
            String::from("hello"),
            rgb(9, 9, 9),
            CENTER
        )]
    );
    assert_eq!(ui.depth(), 2);
}

#[test]
fn a_ui_acts_as_its_renderer() {
    let mut ui = recording();
    ui.translate(vector(1, 2));
    ui.render().translate(vector(3, 4));
    assert_eq!(ui.log.len(), 2);
    assert_eq!(
        ui.renderer().log,
        vec![Command::Translate(vector(1, 2)), Command::Translate(vector(3, 4))]
    );
    assert_eq!(ui.depth(), 2);
}

#[test]
fn the_dummy_renderer_does_nothing() {
    let mut renderer = NoRenderer;
    renderer.push();
    renderer.translate(vector(1, 2));
    renderer.clip(group_rect());
    renderer.fill(group_rect(), rgb(1, 2, 3), 4);
    renderer.outline(group_rect(), rgb(1, 2, 3), 4, 5);
    renderer.line(point(0, 0), point(1, 1), rgb(1, 2, 3), LineCap::Square, 6);
    assert_eq!(renderer.text(group_rect(), &NoRendererFont, "hello", rgb(1, 2, 3), CENTER), 0);
    renderer.pop();
}

#[test]
fn drawing_with_the_dummy_renderer() {
    let mut ui = Ui::new(NoRenderer);
    ui.root(vector(800, 600), Layout::Vertical);
    ui.push(vector(100, 50), Layout::Horizontal);
    ui.draw(|ui| {
        ui.clip();
        ui.fill(Color::black());
        ui.outline_rounded(Color::white(), 2, 1);
        ui.border_bottom(Color::white(), 1);
        ui.text(&NoRendererFont, "hello", Color::white(), CENTER);
    });
    ui.pop();
    assert_eq!(ui.cursor(), vector(0, 50));
}
