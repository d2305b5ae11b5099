use vizia::context::Context;
use vizia::entity::Entity;
use vizia::events::{MouseButton, WindowEvent};
use vizia::geometry::BoundingBox;
use vizia::lens::{Lens, LensStep, LensValue, ModelKind};
use vizia::models::{ModelSlot, ScrollModel};
use vizia::scrollbar::{Orientation, Scrollbar};

fn build_scroll_ui(cx: &mut Context) -> (Entity, Entity, Entity) {
    let root = Entity { index: 0, generation: 0 };
    let data = cx.create_entity(root).unwrap();
    cx.set_model(data, ModelSlot::Scroll(ScrollModel { value: 0, ratio: 250_000 }));
    let value_lens = Lens::new(ModelKind::ScrollModel, LensStep::ValueField);
    let ratio_lens = Lens::new(ModelKind::ScrollModel, LensStep::RatioField);
    let handle = Scrollbar::new(
        cx,
        data,
        value_lens,
        ratio_lens,
        Orientation::Horizontal,
        Some(data),
    )
    .unwrap();
    let bar = handle.entity;
    // The thumb is the bar's first child.
    let thumb_index = cx.tree.slots[bar.index as usize].children[0];
    let thumb = Entity {
        index: thumb_index,
        generation: cx.tree.slots[thumb_index as usize].generation,
    };
    (data, bar, thumb)
}

#[test]
fn scrollbar_drag_moves_value_by_crossed_negative_space() {
    let mut cx = Context::new();
    let (data, bar, thumb) = build_scroll_ui(&mut cx);
    // Container is 200 pixels, the thumb 50: 150 pixels of negative space.
    cx.set_bounds(bar, BoundingBox { x: 0, y: 0, w: 200, h: 20 });
    cx.set_bounds(thumb, BoundingBox { x: 0, y: 0, w: 50, h: 20 });

    // Press inside the thumb: the reference point is (cursor_x, value).
    cx.process_window_event(WindowEvent::MouseMove(40, 10));
    assert_eq!(cx.input.hovered, thumb);
    cx.process_window_event(WindowEvent::MouseDown(MouseButton::Left));
    cx.flush();
    match &cx.models[bar.index as usize] {
        ModelSlot::ScrollbarView(sb) => {
            assert!(sb.dragging);
            assert_eq!(sb.reference_points, Some((40, 0)));
        }
        _ => panic!("scrollbar expected"),
    }
    // The drag captured the pointer on the bar.
    assert_eq!(cx.input.captured, Some(bar));

    // Move 20 pixels: the logical delta is 20/150 of the unit interval.
    cx.process_window_event(WindowEvent::MouseMove(60, 10));
    cx.flush();
    match &cx.models[data.index as usize] {
        ModelSlot::Scroll(s) => assert_eq!(s.value, 20_000_000 / 150),
        _ => panic!("scroll model expected"),
    }

    // Release: capture gone, drag ended.
    cx.process_window_event(WindowEvent::MouseUp(MouseButton::Left));
    cx.flush();
    assert_eq!(cx.input.captured, None);
    match &cx.models[bar.index as usize] {
        ModelSlot::ScrollbarView(sb) => {
            assert!(!sb.dragging);
            assert_eq!(sb.reference_points, None);
        }
        _ => panic!("scrollbar expected"),
    }
}

#[test]
fn scrollbar_drag_value_is_clamped_to_unit_interval() {
    let mut cx = Context::new();
    let (data, bar, thumb) = build_scroll_ui(&mut cx);
    cx.set_bounds(bar, BoundingBox { x: 0, y: 0, w: 200, h: 20 });
    cx.set_bounds(thumb, BoundingBox { x: 0, y: 0, w: 50, h: 20 });

    cx.process_window_event(WindowEvent::MouseMove(40, 10));
    cx.process_window_event(WindowEvent::MouseDown(MouseButton::Left));
    cx.flush();
    // A move far past the end of the track clamps at one.
    cx.process_window_event(WindowEvent::MouseMove(10_000, 10));
    cx.flush();
    match &cx.models[data.index as usize] {
        ModelSlot::Scroll(s) => assert_eq!(s.value, 1_000_000),
        _ => panic!("scroll model expected"),
    }
    // And far before the start clamps at zero.
    cx.process_window_event(WindowEvent::MouseMove(-10_000, 10));
    cx.flush();
    match &cx.models[data.index as usize] {
        ModelSlot::Scroll(s) => assert_eq!(s.value, 0),
        _ => panic!("scroll model expected"),
    }
}

#[test]
fn thumb_wider_than_container_divides_by_the_negative_space() {
    let root = Entity { index: 0, generation: 0 };
    let sb = Scrollbar::with_config(
        Lens::new(ModelKind::ScrollModel, LensStep::ValueField),
        Orientation::Horizontal,
        None,
    );
    let cx = vizia::scrollbar::ScrollbarCx {
        current: root,
        target: root,
        cursor_x: 0,
        cursor_y: 0,
        bounds: BoundingBox { x: 0, y: 0, w: 50, h: 20 },
        thumb_bounds: BoundingBox { x: 0, y: 0, w: 200, h: 20 },
        value: 500_000,
    };
    // Negative space is 50 - 200 = -150: a move of 15 shifts the value by
    // 15/-150 of the unit interval.
    assert_eq!(sb.compute_new_value(&cx, 15, 500_000), 400_000);
    // No negative space at all leaves the value as it was.
    let cx_flat = vizia::scrollbar::ScrollbarCx {
        thumb_bounds: BoundingBox { x: 0, y: 0, w: 50, h: 20 },
        ..cx
    };
    assert_eq!(sb.compute_new_value(&cx_flat, 15, 500_000), 500_000);
}

#[test]
fn thumb_binding_updates_layout_on_change() {
    let mut cx = Context::new();
    let (data, bar, thumb) = build_scroll_ui(&mut cx);
    cx.set_bounds(bar, BoundingBox { x: 0, y: 0, w: 200, h: 20 });
    cx.set_bounds(thumb, BoundingBox { x: 0, y: 0, w: 50, h: 20 });

    cx.process_window_event(WindowEvent::MouseMove(40, 10));
    cx.process_window_event(WindowEvent::MouseDown(MouseButton::Left));
    cx.flush();
    cx.process_window_event(WindowEvent::MouseMove(60, 10));
    cx.flush();
    cx.update_bindings();
    // The thumb-position binding fired with the new value.
    assert_eq!(cx.rebuilds.len(), 1);
    assert_eq!(cx.rebuilds[0].owner, thumb.index);
    match cx.rebuilds[0].value {
        LensValue::Micro(v) => assert_eq!(v, 133_333),
        _ => panic!("micro value expected"),
    }
    let rect = cx.layout[thumb.index as usize];
    assert_eq!(rect.left, vizia::units::Units::Stretch(133_333));
    assert_eq!(rect.right, vizia::units::Units::Stretch(1_000_000 - 133_333));
    // The rebuild joined the thumb's bounds into the dirty region.
    assert_eq!(cx.take_dirty(), Some(BoundingBox { x: 0, y: 0, w: 50, h: 20 }));
    assert_eq!(cx.take_dirty(), None);
    // A second update with no further change rebuilds nothing.
    cx.update_bindings();
    assert_eq!(cx.rebuilds.len(), 1);
}

#[test]
fn scroll_to_cursor_configures_via_event() {
    let mut cx = Context::new();
    let (_, bar, _) = build_scroll_ui(&mut cx);
    let handle = vizia::context::Handle { entity: bar };
    handle.scroll_to_cursor(&mut cx, true);
    cx.flush();
    match &cx.models[bar.index as usize] {
        ModelSlot::ScrollbarView(sb) => assert!(sb.scroll_to_cursor),
        _ => panic!("scrollbar expected"),
    }
}
