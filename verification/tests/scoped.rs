use paws::{vector, Layout, NoRenderer, Ui, Vector};

#[test]
fn empty() {
    let mut ui = Ui::new(NoRenderer);

    ui.root(vector(800, 600), Layout::Vertical);
    assert_eq!(ui.depth(), 1);
}

#[test]
fn just_statements() {
    let mut ui = Ui::new(NoRenderer);

    ui.root(vector(800, 600), Layout::Vertical);
    println!("hello");
    println!("world");
    println!("my name jeff");
    assert_eq!(ui.depth(), 1);
}

#[test]
fn group() {
    let mut ui = Ui::new(NoRenderer);

    ui.root(vector(800, 600), Layout::Vertical);
    println!("in build!");
    ui.group(ui.size(), Layout::Freeform, |ui| {
        println!("in group");
        assert_eq!(ui.depth(), 2);
        assert_eq!(ui.size(), vector(800, 600));
    });
    println!("after group");
    assert_eq!(ui.depth(), 1);
    assert_eq!(ui.cursor(), vector(0, 600));
}

#[test]
fn nested_group() {
    let mut ui = Ui::new(NoRenderer);
    ui.root(vector(800, 600), Layout::Freeform);
    ui.group(ui.size(), Layout::Vertical, |ui| {
        println!("before nest");
        ui.group(ui.size(), Layout::Horizontal, |ui| {
            println!("nesting tested!");
            assert_eq!(ui.depth(), 3);
        });
        println!("after nest");
        assert_eq!(ui.depth(), 2);
        assert_eq!(ui.cursor(), vector(0, 600));
    });
    assert_eq!(ui.depth(), 1);
    assert_eq!(ui.cursor(), vector(0, 0));
}

struct Window;

impl Window {
    fn begin(&mut self, _ui: &mut Ui<NoRenderer>, _size: Vector, _title: &str) {}

    fn end(&mut self) {}
}

#[test]
fn process() {
    let mut ui = Ui::new(NoRenderer);
    let mut window = Window;
    ui.root(vector(800, 600), Layout::Freeform);
    let size = ui.size();
    window.begin(&mut ui, size, "Hello");
    println!("inside of window");
    ui.group(size / 2, Layout::Vertical, |ui| {
        println!("group inside of window");
        assert_eq!(ui.size(), vector(400, 300));
    });
    window.end();
    assert_eq!(ui.depth(), 1);
}

#[test]
fn group_by_hand() {
    let mut ui = Ui::new(NoRenderer);
    ui.root(vector(800, 600), Layout::Horizontal);
    ui.push(vector(300, 300), Layout::Freeform);
    println!("hi!");
    ui.pop();
    let mut scoped = Ui::new(NoRenderer);
    scoped.root(vector(800, 600), Layout::Horizontal);
    scoped.group(vector(300, 300), Layout::Freeform, |_| println!("hi!"));
    assert_eq!(ui.cursor(), scoped.cursor());
    assert_eq!(ui.cursor(), vector(300, 0));
    assert_eq!(ui.depth(), scoped.depth());
}
