//! A view representing a draggable bar that manipulates a scroll position.
//!
//! The geometry is integer pixels and the scroll value a unit-interval
//! fixed-point number in millionths. The view owns no scroll state itself:
//! it reads the value through a lens and reports changes by emitting a
//! scroll event to a configured receiver, routed through the dispatcher.
use vstd::prelude::*;
use crate::SCALE;
use crate::clamp_unit;
use crate::clamp_unit_spec;
use crate::entity::Entity;
use crate::events::Effect;
use crate::events::Event;
use crate::events::EventMeta;
use crate::events::EventPayload;
use crate::events::MouseButton;
use crate::events::Propagation;
use crate::events::ScrollBarEvent;
use crate::events::ScrollEvent;
use crate::events::WindowEvent;
use crate::geometry::BoundingBox;
use crate::geometry::COORD_MAX;
use crate::lens::Lens;
use crate::lens::lens_wf;

verus! {

/// The axis a scrollbar moves along.
#[derive(Clone, Copy, PartialEq, Eq, Structural, Debug)]
pub enum Orientation {
    Horizontal,
    Vertical,
}

/// The bar itself: configuration plus the transient drag state.
#[derive(Debug)]
pub struct Scrollbar {
    /// Lens to the current scroll position.
    pub value: Lens,
    pub orientation: Orientation,
    /// While a drag is in progress: the cursor position and scroll value at
    /// the moment the drag began.
    pub reference_points: Option<(i64, i64)>,
    pub dragging: bool,
    /// The entity that receives the changed value, if any.
    pub on_changing: Option<Entity>,
    /// Whether pressing the track jumps the thumb to the cursor.
    pub scroll_to_cursor: bool,
}

/// The read-only snapshot a scrollbar handler works on: the dispatcher
/// gathers it before invoking the handler, so the handler is a function of
/// its own state and this snapshot alone.
#[derive(Clone, Copy, PartialEq, Eq, Structural, Debug)]
pub struct ScrollbarCx {
    /// The entity the handler runs on.
    pub current: Entity,
    /// The entity the event was aimed at.
    pub target: Entity,
    pub cursor_x: i64,
    pub cursor_y: i64,
    /// The scrollbar's own bounds.
    pub bounds: BoundingBox,
    /// The bounds of its thumb (the first child).
    pub thumb_bounds: BoundingBox,
    /// The scroll value read through the scrollbar's lens.
    pub value: i64,
}

impl ScrollbarCx {
    pub open spec fn wf(self) -> bool {
        &&& self.bounds.wf()
        &&& self.thumb_bounds.wf()
        &&& -COORD_MAX <= self.cursor_x <= COORD_MAX
        &&& -COORD_MAX <= self.cursor_y <= COORD_MAX
        &&& 0 <= self.value <= SCALE
    }
}

impl Scrollbar {
    /// Drag state is well formed when the stored reference stays within the
    /// cursor and value ranges.
    pub open spec fn wf(self) -> bool {
        &&& lens_wf(self.value)
        &&& match self.reference_points {
            Option::Some((m, v)) => -COORD_MAX <= m <= COORD_MAX && 0 <= v <= SCALE,
            Option::None => true,
        }
    }
}

/// The cursor coordinate along the scrollbar's axis.
pub open spec fn axis_pos_spec(o: Orientation, cx: ScrollbarCx) -> int {
    match o {
        Orientation::Horizontal => cx.cursor_x as int,
        Orientation::Vertical => cx.cursor_y as int,
    }
}

/// Container and thumb extent along the scrollbar's axis.
pub open spec fn container_and_thumb_spec(o: Orientation, cx: ScrollbarCx) -> (int, int) {
    match o {
        Orientation::Horizontal => (cx.bounds.w as int, cx.thumb_bounds.w as int),
        Orientation::Vertical => (cx.bounds.h as int, cx.thumb_bounds.h as int),
    }
}

/// A physical delta scaled into the unit interval over a nonzero space:
/// `delta / space` in millionths, truncated toward zero. A negative space
/// flips the sign, as real division would.
pub open spec fn scaled_ratio_spec(delta: int, space: int) -> int
    recommends
        space != 0,
{
    if space > 0 {
        if delta >= 0 {
            (delta * SCALE) / space
        } else {
            -(((-delta) * SCALE) / space)
        }
    } else {
        if delta >= 0 {
            -((delta * SCALE) / (-space))
        } else {
            ((-delta) * SCALE) / (-space)
        }
    }
}

/// What share of the negative space a physical delta crosses, added to the
/// reference value. With no negative space at all the value stays as it
/// was; a thumb wider than its container yields a negative space and flips
/// the direction, as dividing by it does.
pub open spec fn compute_new_value_spec(o: Orientation, cx: ScrollbarCx, delta: int, value_ref: int) -> int {
    let (size, thumb) = container_and_thumb_spec(o, cx);
    let ns = size - thumb;
    if ns == 0 {
        value_ref
    } else {
        value_ref + scaled_ratio_spec(delta, ns)
    }
}

/// The value the thumb centre jumps to when the track is pressed at the
/// cursor: the cursor offset over the track's free space, clamped to the
/// unit interval. With no free space the jump target is pinned to zero, a
/// deliberate choice: real division would yield no finite position there,
/// and a jump, unlike a relative drag, needs an absolute one.
pub open spec fn jump_value_spec(o: Orientation, cx: ScrollbarCx) -> int {
    let (size, thumb) = container_and_thumb_spec(o, cx);
    let s = size - thumb;
    let origin = match o {
        Orientation::Horizontal => cx.bounds.x as int,
        Orientation::Vertical => cx.bounds.y as int,
    };
    let p = axis_pos_spec(o, cx) - origin - thumb / 2;
    if s <= 0 {
        0
    } else {
        clamp_unit_spec(scaled_ratio_spec(p, s))
    }
}

/// The change event a scrollbar emits for a new value: the clamped value,
/// sent directly to the receiver, if one is configured.
pub open spec fn change_fx_spec(sb: Scrollbar, cx: ScrollbarCx, new_val: int) -> Seq<Effect> {
    match sb.on_changing {
        Option::Some(rcv) => seq![
            Effect::Emit(
                Event {
                    payload: EventPayload::Scroll(
                        ScrollEvent::SetValue(clamp_unit_spec(new_val) as i64),
                    ),
                    meta: EventMeta {
                        origin: cx.current,
                        target: rcv,
                        propagation: Propagation::Direct,
                        consumed: false,
                    },
                },
            ),
        ],
        Option::None => Seq::empty(),
    }
}

/// Whatever value a scrollbar computes, the change it reports carries that
/// value clamped to the unit interval: a configured receiver is sent
/// exactly one scroll event whose payload lies in `[0, SCALE]`, and with no
/// receiver nothing is emitted at all.
pub proof fn lemma_change_is_clamped(sb: Scrollbar, cx: ScrollbarCx, new_val: int)
    ensures
        match sb.on_changing {
            Option::Some(rcv) => {
                &&& change_fx_spec(sb, cx, new_val).len() == 1
                &&& change_fx_spec(sb, cx, new_val)[0] matches Effect::Emit(e) && e.meta.target
                    == rcv && (e.payload matches EventPayload::Scroll(ScrollEvent::SetValue(v)) && 0
                    <= v <= SCALE && v == clamp_unit_spec(new_val))
            },
            Option::None => change_fx_spec(sb, cx, new_val).len() == 0,
        },
{
}

/// The state and effects after a left press: pressing the thumb starts a
/// drag and captures the pointer; pressing the track either jumps to the
/// cursor (when configured) or moves the value by one thumb-length toward
/// the cursor.
pub open spec fn mouse_down_spec(sb: Scrollbar, cx: ScrollbarCx) -> (Scrollbar, Seq<Effect>) {
    let grab = seq![
        Effect::Capture,
        Effect::SetActive(true),
        Effect::SetRootPointerEvents(false),
    ];
    if cx.target != cx.current {
        (
            Scrollbar {
                reference_points: Option::Some(
                    (axis_pos_spec(sb.orientation, cx) as i64, cx.value),
                ),
                dragging: true,
                ..sb
            },
            grab,
        )
    } else if sb.scroll_to_cursor {
        (
            Scrollbar { dragging: true, ..sb },
            grab + change_fx_spec(sb, cx, jump_value_spec(sb.orientation, cx)),
        )
    } else {
        let (size, jump) = container_and_thumb_spec(sb.orientation, cx);
        let t = cx.thumb_bounds;
        let pos = axis_pos_spec(sb.orientation, cx);
        let (lo, extent) = match sb.orientation {
            Orientation::Horizontal => (t.x as int, t.w as int),
            Orientation::Vertical => (t.y as int, t.h as int),
        };
        if pos < lo {
            (sb, change_fx_spec(sb, cx, compute_new_value_spec(sb.orientation, cx, -jump, cx.value as int)))
        } else if pos >= lo + extent {
            (sb, change_fx_spec(sb, cx, compute_new_value_spec(sb.orientation, cx, jump, cx.value as int)))
        } else {
            (sb, Seq::empty())
        }
    }
}

/// The state and effects after a left release: the drag ends, capture and
/// activity are released, and pointer events on the root are restored.
pub open spec fn mouse_up_spec(sb: Scrollbar) -> (Scrollbar, Seq<Effect>) {
    (
        Scrollbar { reference_points: Option::None, dragging: false, ..sb },
        seq![
            Effect::FocusWithVisibility(false),
            Effect::Release,
            Effect::SetActive(false),
            Effect::SetRootPointerEvents(true),
        ],
    )
}

/// The state and effects after a cursor move: while dragging with a
/// reference point, the value follows the cursor relative to that
/// reference; while dragging in jump-to-cursor mode, it follows the cursor
/// directly.
pub open spec fn mouse_move_spec(sb: Scrollbar, cx: ScrollbarCx) -> (Scrollbar, Seq<Effect>) {
    if !sb.dragging {
        (sb, Seq::empty())
    } else {
        match sb.reference_points {
            Option::Some((mouse_ref, value_ref)) => (
                sb,
                change_fx_spec(
                    sb,
                    cx,
                    compute_new_value_spec(
                        sb.orientation,
                        cx,
                        axis_pos_spec(sb.orientation, cx) - mouse_ref,
                        value_ref as int,
                    ),
                ),
            ),
            Option::None => if sb.scroll_to_cursor {
                (sb, change_fx_spec(sb, cx, jump_value_spec(sb.orientation, cx)))
            } else {
                (sb, Seq::empty())
            },
        }
    }
}

/// A delta over a nonzero space, in millionths, truncated toward zero.
fn scaled_ratio(delta: i64, space: i64) -> (r: i64)
    requires
        -4 * COORD_MAX <= delta <= 4 * COORD_MAX,
        space != 0,
        -2 * COORD_MAX <= space <= 2 * COORD_MAX,
    ensures
        r == scaled_ratio_spec(delta as int, space as int),
        -4 * COORD_MAX * SCALE <= r <= 4 * COORD_MAX * SCALE,
{
    let dmag: u64 = if delta >= 0 {
        delta as u64
    } else {
        (-delta) as u64
    };
    let smag: u64 = if space > 0 {
        space as u64
    } else {
        (-space) as u64
    };
    let q = (dmag * 1_000_000u64) / smag;
    let qi = q as i64;
    if (delta >= 0) == (space > 0) {
        qi
    } else {
        -qi
    }
}

impl Scrollbar {
    /// Creates the bar's state; the drag state starts idle.
    pub fn with_config(
        value: Lens,
        orientation: Orientation,
        on_changing: Option<Entity>,
    ) -> (r: Scrollbar)
        requires
            lens_wf(value),
        ensures
            r == (Scrollbar {
                value,
                orientation,
                reference_points: Option::<(i64, i64)>::None,
                dragging: false,
                on_changing,
                scroll_to_cursor: false,
            }),
            r.wf(),
    {
        Scrollbar {
            value,
            orientation,
            reference_points: Option::None,
            dragging: false,
            on_changing,
            scroll_to_cursor: false,
        }
    }

    /// The element name of the view.
    pub fn element(&self) -> (r: &'static str)
        ensures
            r@ == "scrollbar"@,
    {
        "scrollbar"
    }

    /// Computes the value after crossing `physical_delta` pixels of the
    /// negative space, starting from `value_ref`.
    pub fn compute_new_value(&self, cx: &ScrollbarCx, physical_delta: i64, value_ref: i64) -> (r:
        i64)
        requires
            cx.wf(),
            -4 * COORD_MAX <= physical_delta <= 4 * COORD_MAX,
            0 <= value_ref <= SCALE,
        ensures
            r == compute_new_value_spec(
                self.orientation,
                *cx,
                physical_delta as int,
                value_ref as int,
            ),
    {
        let (size, thumb) = match self.orientation {
            Orientation::Horizontal => (cx.bounds.w, cx.thumb_bounds.w),
            Orientation::Vertical => (cx.bounds.h, cx.thumb_bounds.h),
        };
        let ns = size - thumb;
        if ns == 0 {
            value_ref
        } else {
            value_ref + scaled_ratio(physical_delta, ns)
        }
    }

    /// Appends the change event for a new value, clamped to the unit
    /// interval, aimed at the configured receiver.
    fn change(&self, cx: &ScrollbarCx, fx: &mut Vec<Effect>, new_val: i64)
        ensures
            final(fx)@ == old(fx)@ + change_fx_spec(*self, *cx, new_val as int),
    {
        match self.on_changing {
            Option::Some(rcv) => {
                fx.push(
                    Effect::Emit(
                        Event {
                            payload: EventPayload::Scroll(ScrollEvent::SetValue(clamp_unit(new_val))),
                            meta: EventMeta {
                                origin: cx.current,
                                target: rcv,
                                propagation: Propagation::Direct,
                                consumed: false,
                            },
                        },
                    ),
                );
                proof {
                    assert(fx@ =~= old(fx)@ + change_fx_spec(*self, *cx, new_val as int));
                }
            },
            Option::None => {
                proof {
                    assert(fx@ =~= old(fx)@ + change_fx_spec(*self, *cx, new_val as int));
                }
            },
        }
    }

    /// The value the thumb jumps to when the track is pressed.
    fn jump_value(&self, cx: &ScrollbarCx) -> (r: i64)
        requires
            cx.wf(),
        ensures
            r == jump_value_spec(self.orientation, *cx),
            0 <= r <= SCALE,
    {
        let (size, thumb) = match self.orientation {
            Orientation::Horizontal => (cx.bounds.w, cx.thumb_bounds.w),
            Orientation::Vertical => (cx.bounds.h, cx.thumb_bounds.h),
        };
        let origin = match self.orientation {
            Orientation::Horizontal => cx.bounds.x,
            Orientation::Vertical => cx.bounds.y,
        };
        let pos = match self.orientation {
            Orientation::Horizontal => cx.cursor_x,
            Orientation::Vertical => cx.cursor_y,
        };
        let s = size - thumb;
        let half = ((thumb as u64) / 2) as i64;
        let p = pos - origin - half;
        if s <= 0 {
            0
        } else {
            clamp_unit(scaled_ratio(p, s))
        }
    }

    /// The `map` half of the view's event handler: scrollbars observe
    /// configuration and window events without consuming them, so sibling
    /// observers still see the same events.
    pub fn map_event(&mut self, cx: &ScrollbarCx, payload: &EventPayload, fx: &mut Vec<Effect>)
        requires
            cx.wf(),
            old(self).wf(),
        ensures
            final(self).wf(),
            match payload {
                EventPayload::ScrollBar(ScrollBarEvent::SetScrollToCursor(f)) => {
                    &&& *final(self) == (Scrollbar { scroll_to_cursor: *f, ..*old(self) })
                    &&& final(fx)@ == old(fx)@
                },
                EventPayload::Window(WindowEvent::MouseDown(MouseButton::Left)) => {
                    &&& (*final(self), final(fx)@) == (
                        mouse_down_spec(*old(self), *cx).0,
                        old(fx)@ + mouse_down_spec(*old(self), *cx).1,
                    )
                },
                EventPayload::Window(WindowEvent::MouseUp(MouseButton::Left)) => {
                    &&& (*final(self), final(fx)@) == (
                        mouse_up_spec(*old(self)).0,
                        old(fx)@ + mouse_up_spec(*old(self)).1,
                    )
                },
                EventPayload::Window(WindowEvent::MouseMove(_, _)) => {
                    &&& (*final(self), final(fx)@) == (
                        mouse_move_spec(*old(self), *cx).0,
                        old(fx)@ + mouse_move_spec(*old(self), *cx).1,
                    )
                },
                _ => *final(self) == *old(self) && final(fx)@ == old(fx)@,
            },
    {
        match payload {
            EventPayload::ScrollBar(ScrollBarEvent::SetScrollToCursor(f)) => {
                self.scroll_to_cursor = *f;
            },
            EventPayload::Window(WindowEvent::MouseDown(MouseButton::Left)) => {
                let pos = match self.orientation {
                    Orientation::Horizontal => cx.cursor_x,
                    Orientation::Vertical => cx.cursor_y,
                };
                if cx.target.index != cx.current.index || cx.target.generation
                    != cx.current.generation {
                    self.reference_points = Option::Some((pos, cx.value));
                    self.dragging = true;
                    fx.push(Effect::Capture);
                    fx.push(Effect::SetActive(true));
                    fx.push(Effect::SetRootPointerEvents(false));
                    proof {
                        assert(fx@ =~= old(fx)@ + mouse_down_spec(*old(self), *cx).1);
                    }
                } else if self.scroll_to_cursor {
                    self.dragging = true;
                    fx.push(Effect::Capture);
                    fx.push(Effect::SetActive(true));
                    fx.push(Effect::SetRootPointerEvents(false));
                    let v = self.jump_value(cx);
                    self.change(cx, fx, v);
                    proof {
                        assert(fx@ =~= old(fx)@ + mouse_down_spec(*old(self), *cx).1);
                    }
                } else {
                    let (_, jump) = match self.orientation {
                        Orientation::Horizontal => (cx.bounds.w, cx.thumb_bounds.w),
                        Orientation::Vertical => (cx.bounds.h, cx.thumb_bounds.h),
                    };
                    let (lo, extent) = match self.orientation {
                        Orientation::Horizontal => (cx.thumb_bounds.x, cx.thumb_bounds.w),
                        Orientation::Vertical => (cx.thumb_bounds.y, cx.thumb_bounds.h),
                    };
                    if pos < lo {
                        let changed = self.compute_new_value(cx, -jump, cx.value);
                        self.change(cx, fx, changed);
                    } else if pos >= lo + extent {
                        let changed = self.compute_new_value(cx, jump, cx.value);
                        self.change(cx, fx, changed);
                    }
                }
            },
            EventPayload::Window(WindowEvent::MouseUp(MouseButton::Left)) => {
                self.reference_points = Option::None;
                self.dragging = false;
                fx.push(Effect::FocusWithVisibility(false));
                fx.push(Effect::Release);
                fx.push(Effect::SetActive(false));
                fx.push(Effect::SetRootPointerEvents(true));
                proof {
                    assert(fx@ =~= old(fx)@ + mouse_up_spec(*old(self)).1);
                }
            },
            EventPayload::Window(WindowEvent::MouseMove(_, _)) => {
                if self.dragging {
                    match self.reference_points {
                        Option::Some((mouse_ref, value_ref)) => {
                            let pos = match self.orientation {
                                Orientation::Horizontal => cx.cursor_x,
                                Orientation::Vertical => cx.cursor_y,
                            };
                            let changed = self.compute_new_value(cx, pos - mouse_ref, value_ref);
                            self.change(cx, fx, changed);
                        },
                        Option::None => {
                            if self.scroll_to_cursor {
                                let v = self.jump_value(cx);
                                self.change(cx, fx, v);
                            }
                        },
                    }
                }
            },
            _ => {},
        }
    }
}

} // verus!
