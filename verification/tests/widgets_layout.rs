use miniui::button::Button;
use miniui::geometry::Rect;
use miniui::label::Label;
use miniui::layout::{HBox, LayoutItem, VBox, Widget};

fn rect100() -> Rect {
    Rect::new(0, 0, 100, 100)
}

fn three_labels(container: &mut VBox) {
    for i in 0..3 {
        container.add_child(Widget::Label(Label::new(
            Rect::new(0, 0, 0, 0),
            format!("l{}", i),
        )));
    }
}

#[test]
fn vbox_divides_height_equally_without_spacing() {
    let mut v = VBox::new(Rect::new(0, 0, 0, 0));
    three_labels(&mut v);
    v.layout(rect100());
    assert_eq!(v.rect, rect100());
    // 100 / 3 = 33 in integer coordinates; children stack top to bottom
    assert_eq!(v.children[0].get_rect(), Rect::new(0, 0, 100, 33));
    assert_eq!(v.children[1].get_rect(), Rect::new(0, 33, 100, 33));
    assert_eq!(v.children[2].get_rect(), Rect::new(0, 66, 100, 33));
}

#[test]
fn vbox_divides_evenly_when_height_is_a_multiple() {
    let mut v = VBox::new(Rect::new(0, 0, 0, 0));
    three_labels(&mut v);
    v.layout(Rect::new(0, 0, 100, 99));
    assert_eq!(v.children[0].get_rect(), Rect::new(0, 0, 100, 33));
    assert_eq!(v.children[1].get_rect(), Rect::new(0, 33, 100, 33));
    assert_eq!(v.children[2].get_rect(), Rect::new(0, 66, 100, 33));
}

#[test]
fn vbox_reserves_spacing_between_children() {
    let mut v = VBox::new(Rect::new(0, 0, 0, 0));
    v.set_spacing(10);
    three_labels(&mut v);
    v.layout(rect100());
    // reserved = 10 * 2 = 20; per child = (100 - 20) / 3 = 26;
    // origins advance by 26 + 10 = 36
    assert_eq!(v.children[0].get_rect(), Rect::new(0, 0, 100, 26));
    assert_eq!(v.children[1].get_rect(), Rect::new(0, 36, 100, 26));
    assert_eq!(v.children[2].get_rect(), Rect::new(0, 72, 100, 26));
}

#[test]
fn hbox_divides_width_equally() {
    let mut h = HBox::new(Rect::new(0, 0, 0, 0));
    for i in 0..3 {
        h.add_child(Widget::Label(Label::new(Rect::new(0, 0, 0, 0), format!("l{}", i))));
    }
    h.set_spacing(10);
    h.layout(Rect::new(5, 7, 100, 50));
    assert_eq!(h.rect, Rect::new(5, 7, 100, 50));
    assert_eq!(h.children[0].get_rect(), Rect::new(5, 7, 26, 50));
    assert_eq!(h.children[1].get_rect(), Rect::new(41, 7, 26, 50));
    assert_eq!(h.children[2].get_rect(), Rect::new(77, 7, 26, 50));
}

#[test]
fn layout_is_idempotent() {
    let mut v = VBox::new(Rect::new(0, 0, 0, 0));
    v.set_spacing(7);
    v.add_child(Widget::Button(Button::new(Rect::new(0, 0, 0, 0), String::from("a"))));
    v.add_child(Widget::Label(Label::new(Rect::new(0, 0, 0, 0), String::from("b"))));
    let avail = Rect::new(3, 4, 60, 91);
    v.layout(avail);
    let first: Vec<Rect> = v.children.iter().map(|c| c.get_rect()).collect();
    let rect_after_first = v.rect;
    v.layout(avail);
    let second: Vec<Rect> = v.children.iter().map(|c| c.get_rect()).collect();
    assert_eq!(first, second);
    assert_eq!(v.rect, rect_after_first);
}

#[test]
fn layout_with_no_children_only_adopts_the_rect() {
    let mut v = VBox::new(Rect::new(0, 0, 0, 0));
    v.layout(rect100());
    assert_eq!(v.rect, rect100());
    assert_eq!(v.children.len(), 0);

    let mut h = HBox::new(Rect::new(0, 0, 0, 0));
    h.layout(rect100());
    assert_eq!(h.rect, rect100());
    assert_eq!(h.children.len(), 0);
}

#[test]
fn layout_handles_a_single_child() {
    let mut v = VBox::new(Rect::new(0, 0, 0, 0));
    v.set_spacing(25);
    v.add_child(Widget::Label(Label::new(Rect::new(0, 0, 0, 0), String::from("solo"))));
    v.layout(rect100());
    // no gap is reserved for a single child
    assert_eq!(v.children[0].get_rect(), rect100());
}

#[test]
fn layout_keeps_everything_but_the_rect() {
    let mut v = VBox::new(Rect::new(0, 0, 0, 0));
    let mut b = Button::new(Rect::new(0, 0, 0, 0), String::from("keep"));
    b.set_background_color(miniui::graphics::Color::red());
    v.add_child(Widget::Button(b));
    v.layout(rect100());
    match &v.children[0] {
        Widget::Button(inner) => {
            assert_eq!(inner.label, "keep");
            assert_eq!(inner.background_color, miniui::graphics::Color::new(255, 0, 0, 255));
            assert_eq!(inner.rect, rect100());
        }
        Widget::Label(_) => panic!("child changed kind"),
    }
}

#[test]
fn set_rect_get_rect_round_trip() {
    let r = Rect::new(9, 8, 7, 6);

    let mut b = Button::new(Rect::new(0, 0, 0, 0), String::from("a"));
    b.set_rect(r);
    assert_eq!(b.get_rect(), r);

    let mut l = Label::new(Rect::new(0, 0, 0, 0), String::from("b"));
    l.set_rect(r);
    assert_eq!(l.get_rect(), r);

    let mut w = Widget::Label(Label::new(Rect::new(0, 0, 0, 0), String::from("c")));
    w.set_rect(r);
    assert_eq!(w.get_rect(), r);
}

#[test]
fn heterogeneous_children_in_one_container() {
    let mut h = HBox::new(Rect::new(0, 0, 0, 0));
    h.add_child(Widget::Button(Button::new(Rect::new(0, 0, 0, 0), String::from("b"))));
    h.add_child(Widget::Label(Label::new(Rect::new(0, 0, 0, 0), String::from("l"))));
    h.layout(Rect::new(0, 0, 80, 20));
    assert_eq!(h.children[0].get_rect(), Rect::new(0, 0, 40, 20));
    assert_eq!(h.children[1].get_rect(), Rect::new(40, 0, 40, 20));
}
