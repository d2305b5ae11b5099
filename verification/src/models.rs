//! The closed set of models and views a slot of the tree can own, and the
//! `take` handlers of the plain data models.
//!
//! A model is mutated only inside its own event handler; handlers receive
//! the payload and an effect list, never the dispatcher itself.
use vstd::prelude::*;
use crate::SCALE;
use crate::clamp_unit;
use crate::clamp_unit_spec;
use crate::environment::Environment;
use crate::events::EventPayload;
use crate::events::FlagEvent;
use crate::events::ScrollEvent;
use crate::lens::ModelKind;
use crate::scrollbar::Scrollbar;

verus! {

/// The boolean-flag exemplar model: a checkbox's state.
#[derive(Debug)]
pub struct FlagModel {
    pub checked: bool,
}

/// The scroll-position model a scrollbar reads and mutates: both fields are
/// unit-interval values in millionths.
#[derive(Debug)]
pub struct ScrollModel {
    pub value: i64,
    pub ratio: i64,
}

/// What one entity of the tree owns: nothing, a model, or a view with its
/// own handler state.
#[derive(Debug)]
pub enum ModelSlot {
    NoModel,
    Env(Environment),
    Flag(FlagModel),
    Scroll(ScrollModel),
    ScrollbarView(Scrollbar),
}

/// The model kind a slot offers to lens resolution, if any.
pub open spec fn model_kind_spec(m: ModelSlot) -> Option<ModelKind> {
    match m {
        ModelSlot::Env(_) => Option::Some(ModelKind::EnvironmentModel),
        ModelSlot::Flag(_) => Option::Some(ModelKind::FlagModel),
        ModelSlot::Scroll(_) => Option::Some(ModelKind::ScrollModel),
        _ => Option::None,
    }
}

/// A scroll model is well formed when both fields lie in the unit interval.
pub open spec fn scroll_model_wf(s: ScrollModel) -> bool {
    0 <= s.value <= SCALE && 0 <= s.ratio <= SCALE
}

impl FlagModel {
    /// The `take` handler: consumes a flag event and flips the flag.
    pub fn take_event(&mut self, payload: &EventPayload) -> (took: bool)
        ensures
            took == (payload matches EventPayload::Flag(_)),
            match payload {
                EventPayload::Flag(FlagEvent::Toggle) => final(self).checked == !old(self).checked,
                _ => *final(self) == *old(self),
            },
    {
        match payload {
            EventPayload::Flag(FlagEvent::Toggle) => {
                self.checked = !self.checked;
                true
            },
            _ => false,
        }
    }
}

impl ScrollModel {
    /// The `take` handler: consumes a scroll event and stores the clamped
    /// unit-interval value.
    pub fn take_event(&mut self, payload: &EventPayload) -> (took: bool)
        ensures
            took == (payload matches EventPayload::Scroll(_)),
            match payload {
                EventPayload::Scroll(ScrollEvent::SetValue(v)) => *final(self) == (ScrollModel {
                    value: clamp_unit_spec(*v as int) as i64,
                    ..*old(self)
                }),
                EventPayload::Scroll(ScrollEvent::SetRatio(v)) => *final(self) == (ScrollModel {
                    ratio: clamp_unit_spec(*v as int) as i64,
                    ..*old(self)
                }),
                _ => *final(self) == *old(self),
            },
    {
        match payload {
            EventPayload::Scroll(ScrollEvent::SetValue(v)) => {
                self.value = clamp_unit(*v);
                true
            },
            EventPayload::Scroll(ScrollEvent::SetRatio(v)) => {
                self.ratio = clamp_unit(*v);
                true
            },
            _ => false,
        }
    }
}

} // verus!
