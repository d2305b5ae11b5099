use vizia::context::{BindingAction, Context};
use vizia::entity::Entity;
use vizia::events::{
    Event, EventMeta, EventPayload, FlagEvent, MouseButton, Propagation, WindowEvent,
};
use vizia::geometry::BoundingBox;
use vizia::lens::{Lens, LensStep, LensValue, ModelKind};
use vizia::models::{FlagModel, ModelSlot};

fn direct(payload: EventPayload, target: Entity) -> Event {
    Event {
        payload,
        meta: EventMeta {
            origin: Entity { index: 0, generation: 0 },
            target,
            propagation: Propagation::Direct,
            consumed: false,
        },
    }
}

fn ascending(payload: EventPayload, target: Entity) -> Event {
    Event {
        payload,
        meta: EventMeta {
            origin: Entity { index: 0, generation: 0 },
            target,
            propagation: Propagation::Ascending,
            consumed: false,
        },
    }
}

#[test]
fn noop_event_causes_zero_rebuilds() {
    let mut cx = Context::new();
    let root = Entity { index: 0, generation: 0 };
    let owner = cx.create_entity(root).unwrap();
    cx.set_model(owner, ModelSlot::Flag(FlagModel { checked: false }));
    let lens = Lens::new(ModelKind::FlagModel, LensStep::CheckedField);
    cx.bind(owner, lens, BindingAction::Record).unwrap();
    // A key press reaches no take handler and mutates no model.
    cx.process_window_event(WindowEvent::KeyDown(7));
    cx.flush();
    cx.update_bindings();
    assert_eq!(cx.rebuilds.len(), 0);
}

#[test]
fn toggle_scenario_rebuilds_exactly_once_per_emission() {
    let mut cx = Context::new();
    let root = Entity { index: 0, generation: 0 };
    let owner = cx.create_entity(root).unwrap();
    cx.set_model(owner, ModelSlot::Flag(FlagModel { checked: false }));
    let lens = Lens::new(ModelKind::FlagModel, LensStep::CheckedField);
    cx.bind(owner, lens, BindingAction::Record).unwrap();

    cx.emit(direct(EventPayload::Flag(FlagEvent::Toggle), owner));
    cx.flush();
    cx.update_bindings();
    assert_eq!(cx.rebuilds.len(), 1);
    assert!(matches!(cx.rebuilds[0].value, LensValue::Bool(true)));

    cx.emit(direct(EventPayload::Flag(FlagEvent::Toggle), owner));
    cx.flush();
    cx.update_bindings();
    assert_eq!(cx.rebuilds.len(), 2);
    assert!(matches!(cx.rebuilds[1].value, LensValue::Bool(false)));
    match &cx.models[owner.index as usize] {
        ModelSlot::Flag(f) => assert!(!f.checked),
        _ => panic!("flag model expected"),
    }
}

#[test]
fn ascending_take_consumes_at_most_once() {
    let mut cx = Context::new();
    let root = Entity { index: 0, generation: 0 };
    let mid = cx.create_entity(root).unwrap();
    let leaf = cx.create_entity(mid).unwrap();
    // Two flag models on the path; only the nearest may consume.
    cx.set_model(root, ModelSlot::Flag(FlagModel { checked: false }));
    cx.set_model(mid, ModelSlot::Flag(FlagModel { checked: false }));

    cx.emit(ascending(EventPayload::Flag(FlagEvent::Toggle), leaf));
    cx.flush();

    let takes: usize = cx.trace.iter().filter(|r| r.took).count();
    assert_eq!(takes, 1);
    // The walk visited the leaf (no handler) and stopped at the consumer.
    assert_eq!(cx.trace.len(), 2);
    assert_eq!(cx.trace[0].slot, leaf.index);
    // Slots visited before the consumer still received the event.
    assert!(cx.trace[0].delivered);
    assert!(!cx.trace[0].took);
    assert_eq!(cx.trace[1].slot, mid.index);
    assert!(cx.trace[1].took);
    match &cx.models[mid.index as usize] {
        ModelSlot::Flag(f) => assert!(f.checked),
        _ => panic!("flag model expected"),
    }
    match &cx.models[0] {
        ModelSlot::Flag(f) => assert!(!f.checked),
        _ => panic!("flag model expected"),
    }
}

#[test]
fn capture_overrides_hit_test() {
    let mut cx = Context::new();
    let root = Entity { index: 0, generation: 0 };
    let grabbed = cx.create_entity(root).unwrap();
    cx.set_bounds(grabbed, BoundingBox { x: 0, y: 0, w: 10, h: 10 });
    cx.input.captured = Some(grabbed);
    // The cursor is far outside the captured entity's bounding box.
    cx.process_window_event(WindowEvent::MouseMove(500, 500));
    let ev = cx.queue.last().unwrap();
    assert_eq!(ev.meta.target, grabbed);
    cx.flush();
    // The move was walked starting at the captured entity.
    assert_eq!(cx.trace[0].slot, grabbed.index);
    assert!(cx.trace[0].delivered);
}

#[test]
fn lens_get_is_pure_and_triggers_no_rebuild() {
    let mut cx = Context::new();
    let root = Entity { index: 0, generation: 0 };
    let owner = cx.create_entity(root).unwrap();
    cx.set_model(owner, ModelSlot::Flag(FlagModel { checked: true }));
    let lens = Lens::new(ModelKind::FlagModel, LensStep::CheckedField);
    let first = cx.eval_lens(&lens, owner.index);
    let second = cx.eval_lens(&lens, owner.index);
    assert!(matches!(first, LensValue::Bool(true)));
    assert!(matches!(second, LensValue::Bool(true)));
    cx.bind(owner, lens, BindingAction::Record).unwrap();
    cx.update_bindings();
    cx.update_bindings();
    assert_eq!(cx.rebuilds.len(), 0);
}

#[test]
fn stale_entity_dispatch_is_dropped() {
    let mut cx = Context::new();
    let root = Entity { index: 0, generation: 0 };
    let owner = cx.create_entity(root).unwrap();
    cx.set_model(owner, ModelSlot::Flag(FlagModel { checked: false }));
    cx.remove_entity(owner);
    cx.emit(direct(EventPayload::Flag(FlagEvent::Toggle), owner));
    cx.flush();
    assert_eq!(cx.trace.len(), 0);
    match &cx.models[owner.index as usize] {
        ModelSlot::Flag(f) => assert!(!f.checked),
        _ => panic!("flag model expected"),
    }
}

#[test]
fn subtree_dispatch_visits_preorder() {
    let mut cx = Context::new();
    let root = Entity { index: 0, generation: 0 };
    let a = cx.create_entity(root).unwrap();
    let b = cx.create_entity(root).unwrap();
    let a_child = cx.create_entity(a).unwrap();
    let ev = Event {
        payload: EventPayload::Window(WindowEvent::ThemeChanged(
            vizia::environment::ThemeMode::DarkMode,
        )),
        meta: EventMeta {
            origin: root,
            target: root,
            propagation: Propagation::Subtree,
            consumed: false,
        },
    };
    cx.emit(ev);
    cx.flush();
    let visited: Vec<u32> = cx.trace.iter().map(|r| r.slot).collect();
    assert_eq!(visited, vec![root.index, a.index, a_child.index, b.index]);
}

#[test]
fn focus_change_emits_blur_then_focus() {
    let mut cx = Context::new();
    let root = Entity { index: 0, generation: 0 };
    let field = cx.create_entity(root).unwrap();
    cx.set_focus(field);
    assert_eq!(cx.queue.len(), 2);
    assert!(matches!(
        cx.queue[0].payload,
        EventPayload::Window(WindowEvent::FocusOut)
    ));
    assert_eq!(cx.queue[0].meta.target, root);
    assert!(matches!(
        cx.queue[1].payload,
        EventPayload::Window(WindowEvent::FocusIn)
    ));
    assert_eq!(cx.queue[1].meta.target, field);
    assert_eq!(cx.input.focused, field);
}

#[test]
fn mouse_down_routes_to_hovered_when_uncaptured() {
    let mut cx = Context::new();
    let root = Entity { index: 0, generation: 0 };
    let pane = cx.create_entity(root).unwrap();
    cx.set_bounds(pane, BoundingBox { x: 0, y: 0, w: 100, h: 100 });
    cx.process_window_event(WindowEvent::MouseMove(50, 50));
    assert_eq!(cx.input.hovered, pane);
    cx.process_window_event(WindowEvent::MouseDown(MouseButton::Left));
    let ev = cx.queue.last().unwrap();
    assert_eq!(ev.meta.target, pane);
    assert!(matches!(cx.input.pressed, Some(MouseButton::Left)));
}
