use continuum::client::api::{
    assets_url, camera_instance_url, camera_instances_url, disks_url, events_url, roots_url, server_url,
};
use continuum::client::elements::{BaseElement, Button, HBox, Rect, Rgb8, Text, Widget};
use continuum::client::rect::{RedrawKind, Rect as QuadRect};
use continuum::client::ui::Ui;

#[test]
fn client_addresses() {
    assert_eq!(server_url(), "http://127.0.0.1:9090");
    assert_eq!(disks_url(), "http://127.0.0.1:9090/api/admin/disks");
    assert_eq!(roots_url("d1"), "http://127.0.0.1:9090/api/admin/roots?disk_id=d1");
    assert_eq!(events_url("r1"), "http://127.0.0.1:9090/api/admin/roots/r1/events");
    assert_eq!(assets_url("e1"), "http://127.0.0.1:9090/api/admin/events/e1/assets");
    assert_eq!(camera_instance_url("c1"), "http://127.0.0.1:9090/api/admin/camera-instances/c1");
    assert_eq!(camera_instances_url("e1"), "http://127.0.0.1:9090/api/admin/events/e1/camera-instances");
}

fn rgb(c: Rgb8) -> (u8, u8, u8) {
    (c.r, c.g, c.b)
}

#[test]
fn default_colour_is_the_light_blue() {
    let c = Rgb8::default_color();
    assert_eq!(rgb(c), (51, 153, 255));
    assert_eq!(c.r as f32 / 255.0, 0.2f32);
    assert_eq!(c.g as f32 / 255.0, 0.6f32);
    assert_eq!(c.b as f32 / 255.0, 1.0f32);
}

#[test]
fn moving_an_element_moves_its_absolute_place() {
    let mut b = BaseElement::new(10, 20, 100, 50);
    b.abs_x = 110;
    b.abs_y = 220;
    b.set_position(5, 6);
    assert_eq!((b.abs_x, b.abs_y, b.x, b.y), (105, 206, 5, 6));
    b.set_rect(0, 0, 7, 8);
    assert_eq!((b.abs_x, b.abs_y, b.width, b.height), (100, 200, 7, 8));
}

#[test]
fn diff_takes_changes_and_reports_resizing() {
    let mut a = BaseElement::new(0, 0, 10, 10);
    a.dirty = false;
    let same = BaseElement::new(0, 0, 10, 10);
    assert!(!a.diff(&same));
    assert!(!a.dirty);
    let mut bigger = BaseElement::new(1, 0, 20, 10);
    bigger.set_color(1, 2, 3);
    assert!(a.diff(&bigger));
    assert!(a.dirty);
    assert_eq!((a.x, a.width, rgb(a.color())), (1, 20, (1, 2, 3)));
}

#[test]
fn colour_change_marks_dirty_only_when_different() {
    let mut a = BaseElement::new(0, 0, 1, 1);
    a.dirty = false;
    a.set_color(51, 153, 255);
    assert!(!a.dirty);
    a.set_color(0, 0, 0);
    assert!(a.dirty);
}

fn child_at(w: &Widget, k: usize) -> &Widget {
    match w {
        Widget::HBox(h) => &h.children[k],
        Widget::Rect(r) => &r.children[k],
        _ => panic!("no children"),
    }
}

#[test]
fn row_places_children_left_to_right_centred() {
    let mut row = Widget::HBox(HBox::new(0, 0, 300, 40));
    row.push_child(Widget::Rect(Rect::new(0, 0, 100, 20)));
    row.push_child(Widget::Rect(Rect::new(0, 0, 50, 40)));
    row.push_child(Widget::Rect(Rect::new(0, 0, 30, 10)));
    assert!(!row.layout());
    let places: Vec<(u32, u32)> = (0..3).map(|k| (child_at(&row, k).base().x, child_at(&row, k).base().y)).collect();
    assert_eq!(places, vec![(0, 10), (100, 0), (150, 15)]);
}

#[test]
fn button_grows_to_its_child_and_centres_it() {
    let mut b = Widget::Button(Button::new(0, 0, 40, 20));
    b.push_child(Widget::Rect(Rect::new(0, 0, 60, 10)));
    if let Widget::Button(x) = &mut b {
        x.base.dirty = false;
    }
    assert!(b.layout());
    assert_eq!((b.base().width, b.base().height, b.base().dirty), (60, 20, true));
    if let Widget::Button(x) = &b {
        let c = x.child.as_ref().unwrap();
        assert_eq!((c.base().x, c.base().y), (0, 5));
    }
    assert!(!b.layout());
}

#[test]
fn prepared_child_takes_parent_colour_depth_and_place() {
    let mut parent = BaseElement::new(10, 10, 100, 100);
    parent.set_color(1, 1, 1);
    parent.z = 3;
    let mut child = Widget::Rect(Rect::new(5, 7, 10, 10));
    child.prepare_default(&parent);
    let b = child.base();
    assert_eq!((rgb(b.color), b.z, b.abs_x, b.abs_y), ((1, 1, 1), 4, 15, 17));
}

#[test]
fn text_size_follows_its_bytes() {
    let t = Text::new("abc");
    assert_eq!((t.base.width, t.base.height, rgb(t.base.color), rgb(t.text_color)), (48, 32, (255, 255, 255), (255, 255, 255)));
    let u = Text::new("ж");
    assert_eq!(u.base.width, 32);
}

fn all_dirty(w: &Widget) -> bool {
    match w {
        Widget::Rect(r) => r.base.dirty && r.children.iter().all(all_dirty),
        Widget::HBox(h) => h.base.dirty && h.children.iter().all(all_dirty),
        Widget::Button(b) => b.base.dirty && b.child.as_ref().map_or(true, |c| all_dirty(c)),
        Widget::Text(t) => t.base.dirty,
    }
}

fn clean(w: &mut Widget) {
    match w {
        Widget::Rect(r) => {
            r.base.dirty = false;
            r.children.iter_mut().for_each(clean)
        }
        Widget::HBox(h) => {
            h.base.dirty = false;
            h.children.iter_mut().for_each(clean)
        }
        Widget::Button(b) => {
            b.base.dirty = false;
            if let Some(c) = b.child.as_mut() {
                clean(c)
            }
        }
        Widget::Text(t) => t.base.dirty = false,
    }
}

#[test]
fn resize_marks_the_whole_tree() {
    let mut ui = Ui::new(800, 600);
    let mut r = Widget::Rect(Rect::new(0, 0, 10, 10));
    r.push_child(Widget::Text(Text::new("x")));
    let mut btn = Widget::Button(Button::new(0, 0, 5, 5));
    btn.push_child(Widget::Rect(Rect::new(0, 0, 1, 1)));
    r.push_child(btn);
    ui.push_child(r);
    ui.draw_all();
    ui.elements.iter_mut().for_each(clean);
    assert!(!all_dirty(&ui.elements[0]));
    ui.resize(1024, 768);
    assert_eq!((ui.client_width(), ui.client_height()), (1024, 768));
    assert!(all_dirty(&ui.elements[0]));
}

#[test]
fn merging_frames_keeps_matching_elements_and_drops_the_rest() {
    let mut ui = Ui::new(800, 600);
    ui.push_child(Widget::Rect(Rect::new(0, 0, 10, 10)));
    ui.push_child(Widget::Text(Text::new("a")));
    ui.push_child(Widget::Rect(Rect::new(0, 0, 5, 5)));
    let first = ui.draw_all();
    assert_eq!(first.recreate, Vec::<usize>::new());
    assert!(first.dropped.is_empty());
    assert_eq!(ui.elements.len(), 3);
    if let Widget::Rect(r) = &mut ui.elements[0] {
        r.base.fbo = Some(7);
    }

    ui.push_child(Widget::Rect(Rect::new(1, 0, 20, 10)));
    ui.push_child(Widget::Rect(Rect::new(0, 0, 3, 3)));
    let second = ui.draw_all();
    assert_eq!(second.recreate, vec![0]);
    assert_eq!(second.dropped.len(), 2);
    assert!(matches!(second.dropped[0], Widget::Text(_)));
    assert!(matches!(second.dropped[1], Widget::Rect(_)));
    assert!(ui.new_elements.is_empty());
    assert_eq!(ui.elements.len(), 2);
    let kept = ui.elements[0].base();
    assert_eq!((kept.x, kept.width, kept.fbo), (1, 20, Some(7)));
    assert!(matches!(ui.elements[1], Widget::Rect(_)));
}

#[test]
fn text_content_change_is_taken_over() {
    let mut ui = Ui::new(100, 100);
    ui.push_child(Widget::Text(Text::new("old")));
    ui.draw_all();
    clean(&mut ui.elements[0]);
    ui.push_child(Widget::Text(Text::new("new")));
    let out = ui.draw_all();
    assert!(out.recreate.is_empty());
    match &ui.elements[0] {
        Widget::Text(t) => {
            assert_eq!(t.content, "new");
            assert!(t.base.dirty);
        }
        _ => panic!("expected text"),
    }
}

#[test]
fn window_colour_and_size() {
    let mut ui = Ui::new(10, 20);
    ui.set_client_color(0x17, 0x1a, 0x21);
    assert_eq!(rgb(ui.base.color), (0x17, 0x1a, 0x21));
    ui.update_size(30, 40);
    assert_eq!((ui.client_width(), ui.client_height()), (30, 40));
}

#[test]
fn quad_rect_tracks_what_to_redraw() {
    let mut r = QuadRect::new(0, 0, 10, 10);
    assert!(matches!(r.draw_step(), RedrawKind::Full));
    assert!(matches!(r.draw_step(), RedrawKind::Present));
    r.set_position(1, 1);
    assert!(matches!(r.draw_step(), RedrawKind::Position));
    r.set_position(1, 1);
    assert!(matches!(r.draw_step(), RedrawKind::Present));
    assert!(r.set_size(5, 5));
    assert!(!r.set_size(5, 5));
    assert!(matches!(r.draw_step(), RedrawKind::Full));
    r.set_color(51, 153, 255);
    assert!(matches!(r.draw_step(), RedrawKind::Present));
    r.set_color(0, 0, 0);
    assert_eq!(rgb(r.color()), (0, 0, 0));
    assert!(matches!(r.draw_step(), RedrawKind::Full));
}

#[test]
fn quad_rect_equality_ignores_drawing_state() {
    let mut a = QuadRect::new(1, 2, 3, 4);
    let b = QuadRect::new(1, 2, 3, 4);
    a.draw_step();
    a.fbo = Some(3);
    assert!(a == b);
    let c = QuadRect::new(1, 2, 3, 5);
    assert!(a != c);
    let mut d = QuadRect::new(0, 0, 3, 4);
    d.mark_quad_dirty();
    d.draw_step();
    assert!(d.update_from(QuadRect::new(0, 0, 9, 4)));
    assert!(matches!(d.draw_step(), RedrawKind::Full));
}
