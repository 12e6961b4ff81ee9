use kibodo::geometry::{Point, Rect};
use kibodo::key::{reset_key_id, Key, KeyIdAllocator, KeyState, DEFAULT_GLYPH};
use kibodo::klayout::{position_in, Event, KLayout, MouseButton, MouseEvent, Status};
use kibodo::render::{DrawCmd, FillRule, HAlign, PathCmd, Rgb, VAlign};
use kibodo::{Kibodo, Message};

fn default_key_at(x: i64, y: i64) -> Key {
    let mut ids = KeyIdAllocator::new();
    Key::new(&mut ids, Point { x, y })
}

#[test]
fn new_key_geometry() {
    let mut ids = KeyIdAllocator::new();
    let k = Key::new(&mut ids, Point { x: 100, y: 100 });
    assert_eq!(k.id, 1);
    assert_eq!(ids.next_id, 2);
    assert_eq!(k.pos, Point { x: 100, y: 100 });
    assert_eq!(k.base_rect, Rect { x: 75, y: 75, width: 50, height: 50 });
    assert_eq!(k.deform_rect, Rect { x: 75, y: 75, width: 50, height: 50 });
    assert!(!k.selected);
    assert_eq!(k.labels.len(), 9);
    assert_eq!(k.labels[4], DEFAULT_GLYPH);
    for (i, label) in k.labels.iter().enumerate() {
        if i != 4 {
            assert!(label.is_empty());
        }
    }
}

#[test]
fn containment_center_and_boundary() {
    let k = default_key_at(100, 100);
    assert!(matches!(k.state(Some(Point { x: 100, y: 100 })), KeyState::Hover));
    assert!(matches!(k.state(Some(Point { x: 125, y: 100 })), KeyState::Hover));
    assert!(matches!(k.state(Some(Point { x: 75, y: 125 })), KeyState::Hover));
}

#[test]
fn containment_excludes_points_past_the_edges() {
    let k = default_key_at(100, 100);
    assert!(matches!(k.state(Some(Point { x: 151, y: 100 })), KeyState::Idle));
    assert!(matches!(k.state(Some(Point { x: 49, y: 100 })), KeyState::Idle));
    assert!(matches!(k.state(Some(Point { x: 100, y: 151 })), KeyState::Idle));
    assert!(matches!(k.state(Some(Point { x: 100, y: 49 })), KeyState::Idle));
}

#[test]
fn selected_wins_over_cursor() {
    let mut k = default_key_at(100, 100);
    k.selected = true;
    assert!(matches!(k.state(None), KeyState::Selected));
    assert!(matches!(k.state(Some(Point { x: 100, y: 100 })), KeyState::Selected));
    assert!(matches!(k.state(Some(Point { x: 9999, y: -9999 })), KeyState::Selected));
}

#[test]
fn no_cursor_means_idle() {
    let k = default_key_at(100, 100);
    assert!(matches!(k.state(None), KeyState::Idle));
}

#[test]
fn outline_path_has_both_rectangles() {
    let k = default_key_at(100, 100);
    let mut path: Vec<PathCmd> = Vec::new();
    k.draw(&mut path);
    assert_eq!(path.len(), 10);
    let expected = [
        PathCmd::MoveTo(Point { x: 75, y: 75 }),
        PathCmd::LineTo(Point { x: 125, y: 75 }),
        PathCmd::LineTo(Point { x: 125, y: 125 }),
        PathCmd::LineTo(Point { x: 75, y: 125 }),
        PathCmd::LineTo(Point { x: 75, y: 75 }),
    ];
    assert_eq!(path[0..5].to_vec(), expected.to_vec());
    assert_eq!(path[5..10].to_vec(), expected.to_vec());
}

#[test]
fn default_labels_draw_one_centered_glyph() {
    let k = default_key_at(100, 100);
    let mut frame: Vec<DrawCmd> = Vec::new();
    k.draw_text(&mut frame);
    assert_eq!(frame.len(), 1);
    match &frame[0] {
        DrawCmd::Text(t) => {
            assert_eq!(t.content, DEFAULT_GLYPH);
            assert_eq!(t.position, Point { x: 100, y: 100 });
            assert!(matches!(t.h, HAlign::Center));
            assert!(matches!(t.v, VAlign::Center));
            assert_eq!(t.color, Rgb { r: 255, g: 255, b: 255 });
        }
        _ => panic!("expected a text command"),
    }
}

#[test]
fn empty_labels_are_skipped_and_anchors_are_inset() {
    let mut k = default_key_at(100, 100);
    k.labels[4] = String::new();
    k.labels[0] = String::from("A");
    k.labels[8] = String::from("B");
    let mut frame: Vec<DrawCmd> = Vec::new();
    k.draw_text(&mut frame);
    assert_eq!(frame.len(), 2);
    match &frame[0] {
        DrawCmd::Text(t) => {
            assert_eq!(t.content, "A");
            assert_eq!(t.position, Point { x: 80, y: 75 });
            assert!(matches!(t.h, HAlign::Left));
            assert!(matches!(t.v, VAlign::Top));
        }
        _ => panic!("expected a text command"),
    }
    match &frame[1] {
        DrawCmd::Text(t) => {
            assert_eq!(t.content, "B");
            assert_eq!(t.position, Point { x: 120, y: 125 });
            assert!(matches!(t.h, HAlign::Right));
            assert!(matches!(t.v, VAlign::Bottom));
        }
        _ => panic!("expected a text command"),
    }
}

#[test]
fn draw_all_strokes_fills_and_labels_each_key() {
    let mut layout = KLayout::default();
    layout.add_key(default_key_at(100, 100));
    let mut frame: Vec<DrawCmd> = Vec::new();
    layout.draw_all(&mut frame, None);
    assert_eq!(frame.len(), 3);
    match &frame[0] {
        DrawCmd::Stroke { path, color, width } => {
            assert_eq!(path.len(), 10);
            assert_eq!(*color, Rgb { r: 0, g: 0, b: 0 });
            assert_eq!(*width, 2);
        }
        _ => panic!("expected the outline stroke"),
    }
    match &frame[1] {
        DrawCmd::Fill { path, color, rule } => {
            assert_eq!(path.len(), 10);
            assert_eq!(*color, Rgb { r: 111, g: 111, b: 186 });
            assert!(matches!(rule, FillRule::NonZero));
        }
        _ => panic!("expected the interior fill"),
    }
    assert!(matches!(&frame[2], DrawCmd::Text(_)));
}

#[test]
fn hovered_key_strokes_green_selected_red() {
    let mut layout = KLayout::default();
    layout.add_key(default_key_at(100, 100));
    let mut frame: Vec<DrawCmd> = Vec::new();
    layout.draw_all(&mut frame, Some(Point { x: 100, y: 100 }));
    match &frame[0] {
        DrawCmd::Stroke { color, .. } => assert_eq!(*color, Rgb { r: 0, g: 255, b: 0 }),
        _ => panic!("expected the outline stroke"),
    }

    let mut selected = KLayout::default();
    let mut key = default_key_at(100, 100);
    key.selected = true;
    selected.add_key(key);
    let mut frame2: Vec<DrawCmd> = Vec::new();
    selected.draw_all(&mut frame2, None);
    match &frame2[0] {
        DrawCmd::Stroke { color, .. } => assert_eq!(*color, Rgb { r: 255, g: 0, b: 0 }),
        _ => panic!("expected the outline stroke"),
    }
}

#[test]
fn frame_ends_with_the_border() {
    let layout = KLayout::default();
    let frame = layout.draw(
        kibodo::geometry::Size { width: 300, height: 200 },
        None,
    );
    assert_eq!(frame.len(), 1);
    match &frame[0] {
        DrawCmd::Stroke { path, color, width } => {
            assert_eq!(
                path.to_vec(),
                vec![
                    PathCmd::MoveTo(Point { x: 0, y: 0 }),
                    PathCmd::LineTo(Point { x: 300, y: 0 }),
                    PathCmd::LineTo(Point { x: 300, y: 200 }),
                    PathCmd::LineTo(Point { x: 0, y: 200 }),
                    PathCmd::Close,
                ]
            );
            assert_eq!(*color, Rgb { r: 0, g: 0, b: 0 });
            assert_eq!(*width, 2);
        }
        _ => panic!("expected the border stroke"),
    }
}

fn click(
    app: &mut Kibodo,
    ids: &mut KeyIdAllocator,
    bounds: Rect,
    at: Point,
) -> (Status, Option<Message>) {
    let (status, msg) = app.layout.update(
        ids,
        Event::Mouse(MouseEvent::ButtonPressed(MouseButton::Left)),
        bounds,
        Some(at),
    );
    if let Some(m) = msg.clone() {
        app.update(ids, m);
    }
    (status, msg)
}

#[test]
fn clicks_append_keys_in_order_with_increasing_ids() {
    let mut app = Kibodo::new();
    let mut ids = KeyIdAllocator::new();
    let bounds = Rect { x: 0, y: 0, width: 800, height: 600 };
    let positions = [
        Point { x: 100, y: 100 },
        Point { x: 200, y: 100 },
        Point { x: 300, y: 400 },
    ];
    for p in positions {
        let (status, msg) = click(&mut app, &mut ids, bounds, p);
        assert!(matches!(status, Status::Captured));
        assert!(matches!(msg, Some(Message::AddKey(_))));
    }
    assert_eq!(app.layout.keys.len(), 3);
    for (i, key) in app.layout.keys.iter().enumerate() {
        assert_eq!(key.id, i as u64 + 1);
        assert_eq!(key.pos, positions[i]);
    }
    assert_eq!(ids.next_id, 4);
    assert!(!app.layout.cache_valid);
}

#[test]
fn click_then_clear_then_click_restarts_at_one() {
    let mut app = Kibodo::new();
    let mut ids = KeyIdAllocator::new();
    let bounds = Rect { x: 0, y: 0, width: 800, height: 600 };

    click(&mut app, &mut ids, bounds, Point { x: 100, y: 100 });
    click(&mut app, &mut ids, bounds, Point { x: 200, y: 100 });
    assert_eq!(app.layout.keys.len(), 2);

    app.update(&mut ids, Message::Clear);
    assert_eq!(app.layout.keys.len(), 0);
    assert_eq!(ids.next_id, 1);

    click(&mut app, &mut ids, bounds, Point { x: 50, y: 50 });
    assert_eq!(app.layout.keys.len(), 1);
    assert_eq!(app.layout.keys[0].id, 1);
    assert_eq!(app.layout.keys[0].pos, Point { x: 50, y: 50 });
}

#[test]
fn events_outside_the_bounds_are_ignored() {
    let app = Kibodo::new();
    let mut ids = KeyIdAllocator::new();
    let bounds = Rect { x: 0, y: 0, width: 800, height: 600 };
    let (status, msg) = app.layout.update(
        &mut ids,
        Event::Mouse(MouseEvent::ButtonPressed(MouseButton::Left)),
        bounds,
        Some(Point { x: 900, y: 700 }),
    );
    assert!(matches!(status, Status::Ignored));
    assert!(msg.is_none());
    assert_eq!(ids.next_id, 1);

    let (status, msg) = app.layout.update(
        &mut ids,
        Event::Mouse(MouseEvent::ButtonPressed(MouseButton::Left)),
        bounds,
        None,
    );
    assert!(matches!(status, Status::Ignored));
    assert!(msg.is_none());
}

#[test]
fn cursor_moves_ask_for_a_redraw_with_the_absolute_position() {
    let app = Kibodo::new();
    let mut ids = KeyIdAllocator::new();
    let bounds = Rect { x: 0, y: 0, width: 800, height: 600 };
    let (status, msg) = app.layout.update(
        &mut ids,
        Event::Mouse(MouseEvent::CursorMoved { position: Point { x: 500, y: 400 } }),
        bounds,
        Some(Point { x: 30, y: 40 }),
    );
    assert!(matches!(status, Status::Captured));
    match msg {
        Some(Message::Redraw(p)) => assert_eq!(p, Point { x: 500, y: 400 }),
        _ => panic!("expected a redraw message"),
    }
    assert_eq!(ids.next_id, 1);
}

#[test]
fn other_events_capture_or_pass_as_the_toolkit_expects() {
    let app = Kibodo::new();
    let mut ids = KeyIdAllocator::new();
    let bounds = Rect { x: 0, y: 0, width: 800, height: 600 };
    let cursor = Some(Point { x: 10, y: 10 });

    let (status, msg) = app.layout.update(
        &mut ids,
        Event::Mouse(MouseEvent::ButtonPressed(MouseButton::Right)),
        bounds,
        cursor,
    );
    assert!(matches!(status, Status::Captured));
    assert!(msg.is_none());

    let (status, msg) = app.layout.update(&mut ids, Event::Other, bounds, cursor);
    assert!(matches!(status, Status::Ignored));
    assert!(msg.is_none());
}

#[test]
fn clicks_use_the_position_relative_to_the_bounds() {
    let mut app = Kibodo::new();
    let mut ids = KeyIdAllocator::new();
    let bounds = Rect { x: 10, y: 20, width: 100, height: 100 };
    assert_eq!(
        position_in(Some(Point { x: 50, y: 60 }), bounds),
        Some(Point { x: 40, y: 40 })
    );
    click(&mut app, &mut ids, bounds, Point { x: 50, y: 60 });
    assert_eq!(app.layout.keys[0].pos, Point { x: 40, y: 40 });
}

#[test]
fn every_message_invalidates_the_render_cache() {
    let mut app = Kibodo::new();
    let mut ids = KeyIdAllocator::new();
    assert!(!app.layout.cache_valid);
    app.layout.cache_valid = true;
    app.update(&mut ids, Message::Redraw(Point { x: 1, y: 2 }));
    assert!(!app.layout.cache_valid);
    assert_eq!(app.layout.keys.len(), 0);
}

#[test]
fn reset_key_id_puts_the_counter_back_to_one() {
    let mut ids = KeyIdAllocator::new();
    ids.next_id = 17;
    reset_key_id(&mut ids);
    assert_eq!(ids.next_id, 1);
}

#[test]
fn the_window_title_is_kibodo() {
    let app = Kibodo::new();
    assert_eq!(app.title(), "Kibodo");
}
