//! IME composition state: the multi-step text-input negotiation that produces
//! preedit text before a commit.
//!
//! Platform IME backends are not guaranteed to emit a strictly well-formed
//! sequence, so every out-of-order composition event is accepted as a no-op
//! rather than treated as a protocol violation.
use vstd::prelude::*;

verus! {

/// The composition state tracked by the input state machine.
#[derive(Debug, Clone, PartialEq)]
pub enum ImeState {
    /// No composition is in progress.
    Inactive,
    /// The platform announced that a composition is about to begin.
    StartComposition,
    /// A composition is in progress, with an optional preedit string and an
    /// optional cursor range within it.
    Composing { preedit: Option<String>, cursor_pos: Option<(usize, usize)> },
    /// The platform announced that the composition ended; the state returns
    /// to [`ImeState::Inactive`] once the machine acknowledges the commit.
    EndComposition,
}

/// A composition event reported by the platform.
#[derive(Debug, Clone, PartialEq)]
pub enum ImeEvent {
    /// A composition begins.
    StartComposition,
    /// The preedit text or cursor range changed.
    Composition { preedit: Option<String>, cursor_pos: Option<(usize, usize)> },
    /// The composition ended.
    EndComposition,
}

impl Default for ImeState {
    fn default() -> (r: Self)
        ensures
            r == ImeState::Inactive,
    {
        ImeState::Inactive
    }
}

/// What a well-formed or out-of-order composition event does to the state:
/// the in-order transitions are
/// `Inactive -> StartComposition -> Composing -> EndComposition`,
/// and every other combination leaves the state unchanged.
pub open spec fn ime_step_spec(state: ImeState, event: ImeEvent) -> ImeState {
    match event {
        ImeEvent::StartComposition => match state {
            ImeState::Inactive => ImeState::StartComposition,
            _ => state,
        },
        ImeEvent::Composition { preedit, cursor_pos } => match state {
            ImeState::StartComposition => ImeState::Composing { preedit, cursor_pos },
            ImeState::Composing { .. } => ImeState::Composing { preedit, cursor_pos },
            _ => state,
        },
        ImeEvent::EndComposition => match state {
            ImeState::StartComposition => ImeState::EndComposition,
            ImeState::Composing { .. } => ImeState::EndComposition,
            _ => state,
        },
    }
}

impl ImeState {
    /// Whether no composition is in progress.
    pub fn is_inactive(&self) -> (r: bool)
        ensures
            r == (*self matches ImeState::Inactive),
    {
        matches!(self, ImeState::Inactive)
    }

    /// Whether a composition with preedit text is in progress.
    pub fn is_composing(&self) -> (r: bool)
        ensures
            r == (*self matches ImeState::Composing { .. }),
    {
        matches!(self, ImeState::Composing { .. })
    }

    /// Advances the composition state by one platform event, accepting
    /// out-of-order events as no-ops.
    pub fn step(&mut self, event: ImeEvent)
        ensures
            *final(self) == ime_step_spec(*old(self), event),
    {
        match event {
            ImeEvent::StartComposition => {
                if matches!(*self, ImeState::Inactive) {
                    *self = ImeState::StartComposition;
                }
            },
            ImeEvent::Composition { preedit, cursor_pos } => {
                if matches!(*self, ImeState::StartComposition | ImeState::Composing { .. }) {
                    *self = ImeState::Composing { preedit, cursor_pos };
                }
            },
            ImeEvent::EndComposition => {
                if matches!(*self, ImeState::StartComposition | ImeState::Composing { .. }) {
                    *self = ImeState::EndComposition;
                }
            },
        }
    }

    /// Acknowledges a finished composition, returning the machine to
    /// [`ImeState::Inactive`]; acknowledging in any other state is a no-op.
    pub fn acknowledge(&mut self)
        ensures
            *final(self) == (if (*old(self) matches ImeState::EndComposition) {
                ImeState::Inactive
            } else {
                *old(self)
            }),
    {
        if matches!(*self, ImeState::EndComposition) {
            *self = ImeState::Inactive;
        }
    }
}

/// Feeding `EndComposition` to an inactive machine is accepted and leaves the
/// machine inactive: platform backends may report the end of a composition
/// that was never announced, and the machine must not treat that as an error.
pub proof fn lemma_ime_end_while_inactive_is_noop()
    ensures
        ime_step_spec(ImeState::Inactive, ImeEvent::EndComposition) == ImeState::Inactive,
{
}

} // verus!
