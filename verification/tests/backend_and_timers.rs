use vizia::backend::{backend_order, BackendSelection, GraphicsBackend};
use vizia::context::{Context, TimerAction};
use vizia::entity::Entity;

#[test]
fn backend_order_puts_preference_first_and_keeps_the_rest_stable() {
    assert_eq!(
        backend_order(None),
        vec![
            GraphicsBackend::Dx12,
            GraphicsBackend::Metal,
            GraphicsBackend::Vulkan,
            GraphicsBackend::Gl,
        ]
    );
    assert_eq!(
        backend_order(Some(GraphicsBackend::Vulkan)),
        vec![
            GraphicsBackend::Vulkan,
            GraphicsBackend::Dx12,
            GraphicsBackend::Metal,
            GraphicsBackend::Gl,
        ]
    );
}

#[test]
fn failed_selection_collects_one_error_per_backend() {
    let mut sel = BackendSelection::start(Some(GraphicsBackend::Gl));
    let mut attempts: Vec<GraphicsBackend> = Vec::new();
    while let Some(candidate) = sel.next_candidate() {
        attempts.push(candidate);
        sel.fail(String::from("context creation failed"));
    }
    assert_eq!(
        attempts,
        vec![
            GraphicsBackend::Gl,
            GraphicsBackend::Dx12,
            GraphicsBackend::Metal,
            GraphicsBackend::Vulkan,
        ]
    );
    let err = sel.into_error();
    assert_eq!(err.errors.len(), 4);
    assert_eq!(err.errors[0].0, GraphicsBackend::Gl);
    assert_eq!(err.errors[3].0, GraphicsBackend::Vulkan);
}

#[test]
fn timers_fire_on_the_flush_clock_and_repeat() {
    let mut cx = Context::new();
    let root = Entity { index: 0, generation: 0 };
    let id = cx.add_timer(530, true, root, TimerAction::ToggleCaret);
    assert_eq!(cx.queue.len(), 0);
    cx.advance_time(100);
    assert_eq!(cx.queue.len(), 0);
    cx.advance_time(530);
    assert_eq!(cx.queue.len(), 1);
    // A repeating timer reschedules one interval later.
    cx.advance_time(1060);
    assert_eq!(cx.queue.len(), 2);
    // Cancellation is idempotent: twice, and once more after firing.
    cx.cancel_timer(id);
    cx.cancel_timer(id);
    cx.advance_time(2000);
    assert_eq!(cx.queue.len(), 2);
}

#[test]
fn one_shot_timer_fires_once() {
    let mut cx = Context::new();
    let root = Entity { index: 0, generation: 0 };
    let _id = cx.add_timer(10, false, root, TimerAction::ToggleCaret);
    cx.advance_time(50);
    cx.advance_time(100);
    assert_eq!(cx.queue.len(), 1);
    assert!(!cx.timers[0].active);
}

#[test]
fn cancelling_an_unknown_timer_is_a_noop() {
    let mut cx = Context::new();
    cx.cancel_timer(42);
    assert_eq!(cx.timers.len(), 0);
}
