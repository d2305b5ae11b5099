//! The single-threaded core context: the entity tree, the model store, the
//! event queue and dispatcher, the bindings, the style state and the
//! cooperative timers.
//!
//! All model mutation, lens evaluation and dispatch happen here in strict
//! turns; platform callbacks enqueue events rather than mutating state, and
//! the only concurrency primitive is the queue itself.
use vstd::prelude::*;
use crate::SCALE;
use crate::entity::Entity;
use crate::entity::EntityTree;
use crate::environment::Environment;
use crate::environment::ThemeMode;
use crate::events::Effect;
use crate::events::Event;
use crate::events::EventMeta;
use crate::events::EventPayload;
use crate::events::Propagation;
use crate::events::TextEvent;
use crate::events::WindowEvent;
use crate::geometry::BoundingBox;
use crate::geometry::COORD_MAX;
use crate::ime::ImeState;
use crate::input::InputState;
use crate::input::route_pointer;
use crate::input::route_pointer_spec;
use crate::lens::Lens;
use crate::lens::LensStep;
use crate::lens::LensValue;
use crate::lens::ModelKind;
use crate::lens::eval_on_model_spec;
use crate::lens::eval_steps_spec;
use crate::lens::lens_value_eq;
use crate::lens::lens_value_eq_spec;
use crate::lens::lens_wf;
use crate::lens::root_project_spec;
use crate::models::ModelSlot;
use crate::models::model_kind_spec;
use crate::models::scroll_model_wf;
use crate::scrollbar::Orientation;
use crate::scrollbar::Scrollbar;
use crate::scrollbar::ScrollbarCx;
use crate::units::StyleError;
use crate::units::Units;
use crate::units::parse_stylesheet;
use crate::units::parse_unit_spec;

verus! {

/// The per-entity layout writes the core exposes to the layout collaborator.
#[derive(Clone, Copy, PartialEq, Eq, Structural, Debug)]
pub struct LayoutRect {
    pub left: Units,
    pub right: Units,
    pub top: Units,
    pub bottom: Units,
    pub width: Units,
    pub height: Units,
}

/// What a binding does when its value changes, besides being recorded: the
/// closed set of view-rebuilding callbacks.
#[derive(Clone, Copy, PartialEq, Eq, Structural, Debug)]
pub enum BindingAction {
    /// Only record the rebuild.
    Record,
    /// Position a scrollbar thumb: stretch before and after the value.
    ThumbPosition(Orientation),
    /// Size a scrollbar thumb: the visible ratio as a percentage.
    ThumbSize(Orientation),
}

/// A reactive subscription: a lens, the last observed value, and the
/// rebuild action to run when the projection changes.
#[derive(Debug)]
pub struct Binding {
    /// The entity whose view the binding rebuilds.
    pub owner: u32,
    pub lens: Lens,
    /// The value observed by the previous update pass.
    pub last: LensValue,
    pub action: BindingAction,
}

/// One binding rebuild, as observed by the render collaborator.
#[derive(Debug)]
pub struct RebuildRecord {
    /// Which binding fired.
    pub binding: usize,
    /// The entity it rebuilt.
    pub owner: u32,
    /// The freshly projected value.
    pub value: LensValue,
}

/// One stop of an event's walk along its delivery path.
#[derive(Clone, Copy, PartialEq, Eq, Structural, Debug)]
pub struct DeliveryRecord {
    /// The slot visited.
    pub slot: u32,
    /// Whether the slot was alive and received the event; a dead slot is
    /// silently skipped.
    pub delivered: bool,
    /// Whether a `take` handler consumed the event here.
    pub took: bool,
}

/// What a timer does when it fires.
#[derive(Clone, Copy, PartialEq, Eq, Structural, Debug)]
pub enum TimerAction {
    /// Blink a textbox caret.
    ToggleCaret,
}

/// A cooperative timer: fired as a synthetic event on the main flush cycle,
/// never from a background thread.
#[derive(Clone, Copy, PartialEq, Eq, Structural, Debug)]
pub struct TimerEntry {
    pub id: u32,
    pub interval_ms: u64,
    /// The clock reading at or after which the timer fires.
    pub deadline: u64,
    pub repeating: bool,
    /// Cleared when a one-shot timer fires or the timer is cancelled.
    pub active: bool,
    pub target: Entity,
    pub action: TimerAction,
}

/// A handle to a freshly built view, for builder-style configuration.
#[derive(Clone, Copy, PartialEq, Eq, Structural, Debug)]
pub struct Handle {
    pub entity: Entity,
}

/// The core context.
#[derive(Debug)]
pub struct Context {
    pub tree: EntityTree,
    /// What each slot owns, parallel to the tree.
    pub models: Vec<ModelSlot>,
    /// Layout-computed geometry per slot, parallel to the tree.
    pub bounds: Vec<BoundingBox>,
    /// Whether each slot takes part in hit-testing.
    pub pointer_events: Vec<bool>,
    /// The layout writes per slot.
    pub layout: Vec<LayoutRect>,
    pub input: InputState,
    /// Pending events, oldest first.
    pub queue: Vec<Event>,
    pub bindings: Vec<Binding>,
    /// The rebuilds of past update passes, oldest first.
    pub rebuilds: Vec<RebuildRecord>,
    /// The delivery log of the current flush pass.
    pub trace: Vec<DeliveryRecord>,
    /// The active stylesheet source, one declaration per entry.
    pub stylesheet: Vec<Vec<u8>>,
    /// The parsed form of the stylesheet last reloaded successfully.
    pub styles: Vec<Units>,
    /// The failure of the last reload, if it failed.
    pub style_error: Option<StyleError>,
    /// The theme mode last applied to the style system.
    pub theme_mode: ThemeMode,
    pub timers: Vec<TimerEntry>,
    pub next_timer: u32,
    /// The dispatcher's clock, in milliseconds.
    pub now_ms: u64,
    /// The bounding box of everything that changed since the renderer last
    /// took it.
    pub dirty: Option<BoundingBox>,
}

impl Context {
    /// Structural well-formedness: the parallel stores cover the tree, and
    /// every stored value respects its own invariant.
    pub open spec fn wf(self) -> bool {
        &&& self.tree.wf()
        &&& self.models@.len() == self.tree.len()
        &&& self.bounds@.len() == self.tree.len()
        &&& self.pointer_events@.len() == self.tree.len()
        &&& self.layout@.len() == self.tree.len()
        &&& (forall|i: int| 0 <= i < self.tree.len() ==> (#[trigger] self.bounds@[i]).wf())
        &&& (forall|i: int|
            0 <= i < self.tree.len() ==> match #[trigger] self.models@[i] {
                ModelSlot::ScrollbarView(sb) => sb.wf(),
                ModelSlot::Scroll(s) => scroll_model_wf(s),
                _ => true,
            })
        &&& self.input.cursor_wf()
        &&& (match self.dirty {
            Option::Some(b) => b.corners_ok(),
            Option::None => true,
        })
        &&& (forall|b: int|
            0 <= b < self.bindings@.len() ==> (#[trigger] self.bindings@[b]).owner
                < self.tree.len() && lens_wf(self.bindings@[b].lens))
    }

    /// A fresh context: one root entity, nothing else.
    pub fn new() -> (r: Context)
        ensures
            r.wf(),
            r.tree.len() == 1,
            r.queue@.len() == 0,
            r.bindings@.len() == 0,
            r.rebuilds@.len() == 0,
            r.trace@.len() == 0,
            r.timers@.len() == 0,
            (r.input.captured is None),
            r.input.ime == ImeState::Inactive,
    {
        let mut models: Vec<ModelSlot> = Vec::new();
        models.push(ModelSlot::NoModel);
        let mut bounds: Vec<BoundingBox> = Vec::new();
        bounds.push(BoundingBox::zero());
        let mut pointer_events: Vec<bool> = Vec::new();
        pointer_events.push(true);
        let mut layout: Vec<LayoutRect> = Vec::new();
        layout.push(
            LayoutRect {
                left: Units::Auto,
                right: Units::Auto,
                top: Units::Auto,
                bottom: Units::Auto,
                width: Units::Auto,
                height: Units::Auto,
            },
        );
        Context {
            tree: EntityTree::new(),
            models,
            bounds,
            pointer_events,
            layout,
            input: InputState::new(),
            queue: Vec::new(),
            bindings: Vec::new(),
            rebuilds: Vec::new(),
            trace: Vec::new(),
            stylesheet: Vec::new(),
            styles: Vec::new(),
            style_error: Option::None,
            theme_mode: ThemeMode::LightMode,
            timers: Vec::new(),
            next_timer: 0,
            now_ms: 0,
            dirty: Option::None,
        }
    }

    /// Creates a child entity of `parent` with default geometry, no model
    /// and pointer events enabled. `None` when `parent` is stale.
    pub fn create_entity(&mut self, parent: Entity) -> (r: Option<Entity>)
        requires
            old(self).wf(),
        ensures
            final(self).wf(),
            r is None ==> *final(self) == *old(self),
            old(self).tree.valid_spec(parent) && old(self).tree.len() + 1 < 0x1_0000_0000 ==> (
            r is Some),
            r matches Some(e) ==> {
                &&& old(self).tree.valid_spec(parent)
                &&& e.index == old(self).tree.len()
                &&& e.generation == 0
                &&& final(self).tree.len() == old(self).tree.len() + 1
                &&& final(self).tree.valid_spec(e)
                &&& final(self).tree.slots@[e.index as int].parent == Option::Some(parent.index)
                &&& final(self).tree.slots@[e.index as int].children@.len() == 0
                &&& final(self).tree.slots@[parent.index as int].children@ == old(
                    self,
                ).tree.slots@[parent.index as int].children@.push(e.index)
                &&& (forall|i: int|
                    0 <= i < old(self).tree.len() && i != parent.index
                        ==> #[trigger] final(self).tree.slots@[i] == old(self).tree.slots@[i])
                &&& final(self).models@ == old(self).models@.push(ModelSlot::NoModel)
                &&& final(self).timers == old(self).timers
                &&& final(self).trace == old(self).trace
                &&& final(self).queue == old(self).queue
                &&& final(self).bindings == old(self).bindings
                &&& final(self).rebuilds == old(self).rebuilds
                &&& final(self).input == old(self).input
                &&& (forall|i: int|
                    0 <= i < old(self).tree.len() ==> #[trigger] final(self).models@[i] == old(
                        self,
                    ).models@[i])
                &&& (forall|en: Entity|
                    old(self).tree.valid_spec(en) ==> #[trigger] final(self).tree.valid_spec(en))
            },
    {
        let r = self.tree.create_child(parent);
        match r {
            Option::Some(_) => {
                self.models.push(ModelSlot::NoModel);
                self.bounds.push(BoundingBox::zero());
                self.pointer_events.push(true);
                self.layout.push(
                    LayoutRect {
                        left: Units::Auto,
                        right: Units::Auto,
                        top: Units::Auto,
                        bottom: Units::Auto,
                        width: Units::Auto,
                        height: Units::Auto,
                    },
                );
            },
            Option::None => {},
        }
        r
    }

    /// Removes an entity and its subtree: every slot of the subtree is
    /// marked dead with a bumped generation, so its models receive no
    /// further events. Removing a stale entity or the root is a no-op.
    pub fn remove_entity(&mut self, e: Entity)
        requires
            old(self).wf(),
        ensures
            final(self).wf(),
            final(self).tree.len() == old(self).tree.len(),
            !old(self).tree.valid_spec(e) || e.index == 0 ==> final(self).tree == old(self).tree,
            old(self).tree.valid_spec(e) && e.index > 0 ==> {
                &&& (forall|i: int|
                    0 <= i < old(self).tree.len() && old(self).tree.is_desc_spec(i, e.index as int)
                        ==> !(#[trigger] final(self).tree.slots@[i]).alive
                        && final(self).tree.slots@[i].generation
                        != old(self).tree.slots@[i].generation)
                &&& (forall|i: int|
                    0 <= i < old(self).tree.len() && !old(self).tree.is_desc_spec(
                        i,
                        e.index as int,
                    ) ==> #[trigger] final(self).tree.slots@[i] == old(self).tree.slots@[i])
            },
            final(self).models == old(self).models,
            final(self).queue == old(self).queue,
            final(self).bindings == old(self).bindings,
            final(self).rebuilds == old(self).rebuilds,
            final(self).input == old(self).input,
    {
        self.tree.remove(e);
    }

    /// A layout write from the layout collaborator: the computed bounds of
    /// an entity. Stale entities are ignored.
    pub fn set_bounds(&mut self, e: Entity, b: BoundingBox)
        requires
            old(self).wf(),
            b.wf(),
        ensures
            final(self).wf(),
            old(self).tree.valid_spec(e) ==> final(self).bounds@ == old(self).bounds@.update(
                e.index as int,
                b,
            ),
            !old(self).tree.valid_spec(e) ==> *final(self) == *old(self),
    {
        if self.tree.is_valid(e) {
            let i = e.index as usize;
            let slot = &mut self.bounds[i];
            *slot = b;
        }
    }

    /// Enables or disables hit-testing for an entity.
    pub fn set_pointer_events(&mut self, e: Entity, on: bool)
        requires
            old(self).wf(),
        ensures
            final(self).wf(),
            old(self).tree.valid_spec(e) ==> final(self).pointer_events@ == old(
                self,
            ).pointer_events@.update(e.index as int, on),
            !old(self).tree.valid_spec(e) ==> *final(self) == *old(self),
    {
        if self.tree.is_valid(e) {
            let i = e.index as usize;
            let slot = &mut self.pointer_events[i];
            *slot = on;
        }
    }

    /// Installs a model (or view state) on an entity. Stale entities are
    /// ignored.
    pub fn set_model(&mut self, e: Entity, m: ModelSlot)
        requires
            old(self).wf(),
            (m matches ModelSlot::ScrollbarView(sb) ==> sb.wf()),
            (m matches ModelSlot::Scroll(s) ==> scroll_model_wf(s)),
        ensures
            final(self).wf(),
            old(self).tree.valid_spec(e) ==> final(self).models@ == old(self).models@.update(
                e.index as int,
                m,
            ) && final(self).tree == old(self).tree && final(self).bindings == old(self).bindings
                && final(self).queue == old(self).queue && final(self).rebuilds == old(
                self,
            ).rebuilds && final(self).timers == old(self).timers && final(self).input == old(
                self,
            ).input && final(self).trace == old(self).trace,
            !old(self).tree.valid_spec(e) ==> *final(self) == *old(self),
    {
        if self.tree.is_valid(e) {
            let i = e.index as usize;
            let slot = &mut self.models[i];
            *slot = m;
        }
    }

    /// The slot that resolves a lens root for a read starting at slot `i`:
    /// the nearest slot up the ancestor chain owning a model of that kind,
    /// or `-1` when there is none.
    pub open spec fn model_search_spec(self, i: int, root: ModelKind) -> int
        decreases i,
        when self.tree.wf() && 0 <= i < self.tree.len() && self.models@.len() == self.tree.len()
    {
        if model_kind_spec(self.models@[i]) == Option::Some(root) {
            i
        } else {
            match self.tree.slots@[i].parent {
                Option::Some(p) => if 0 <= p < i {
                    self.model_search_spec(p as int, root)
                } else {
                    -1
                },
                Option::None => -1,
            }
        }
    }

    /// What a lens projects in this context for a view at `owner`: the
    /// documented default [`LensValue::Missing`] when no model of the root
    /// kind is mounted above the owner.
    pub open spec fn eval_lens_spec(self, lens: Lens, owner: int) -> LensValue {
        let m = self.model_search_spec(owner, lens.root);
        if m < 0 {
            LensValue::Missing
        } else {
            eval_on_model_spec(self.models@[m], lens)
        }
    }

    /// Resolves the model a lens reads, walking parent links.
    fn model_search(&self, i: u32, root: ModelKind) -> (r: Option<u32>)
        requires
            self.wf(),
            i < self.tree.len(),
        ensures
            match r {
                Option::Some(m) => m < self.tree.len() && self.model_search_spec(i as int, root)
                    == m as int,
                Option::None => self.model_search_spec(i as int, root) == -1,
            },
        decreases i,
    {
        let kind_matches = match &self.models[i as usize] {
            ModelSlot::Env(_) => matches!(root, ModelKind::EnvironmentModel),
            ModelSlot::Flag(_) => matches!(root, ModelKind::FlagModel),
            ModelSlot::Scroll(_) => matches!(root, ModelKind::ScrollModel),
            _ => false,
        };
        if kind_matches {
            Option::Some(i)
        } else {
            proof {
                assert(self.tree.slot_ok(i as int));
            }
            match self.tree.slots[i as usize].parent {
                Option::Some(p) => self.model_search(p, root),
                Option::None => Option::None,
            }
        }
    }

    /// Projects a lens value out of one model.
    fn eval_on_model(m: &ModelSlot, lens: &Lens) -> (r: LensValue)
        ensures
            r == eval_on_model_spec(*m, *lens),
    {
        let n = lens.steps.len();
        if n == 0 {
            return LensValue::Missing;
        }
        let mut v: LensValue = match m {
            ModelSlot::Env(e) => match lens.steps[0] {
                LensStep::LocaleField => LensValue::Text(e.locale.clone()),
                LensStep::ThemeField => LensValue::ThemeValue(e.theme),
                LensStep::CurrentTheme => LensValue::ModeValue(e.theme.get_current_theme()),
                _ => LensValue::Missing,
            },
            ModelSlot::Flag(f) => match lens.steps[0] {
                LensStep::CheckedField => LensValue::Bool(f.checked),
                _ => LensValue::Missing,
            },
            ModelSlot::Scroll(s) => match lens.steps[0] {
                LensStep::ValueField => LensValue::Micro(s.value),
                LensStep::RatioField => LensValue::Micro(s.ratio),
                _ => LensValue::Missing,
            },
            _ => LensValue::Missing,
        };
        proof {
            assert(v == root_project_spec(*m, lens.steps@[0]));
        }
        let mut k: usize = 1;
        while k < n
            invariant
                1 <= k <= n == lens.steps@.len(),
                eval_steps_spec(v, lens.steps@, k as int) == eval_on_model_spec(*m, *lens),
            decreases n - k,
        {
            let step = lens.steps[k];
            v = match v {
                LensValue::ThemeValue(t) => match step {
                    LensStep::AppThemeField => LensValue::AppThemeValue(t.app_theme),
                    LensStep::SysThemeField => LensValue::OptModeValue(t.sys_theme),
                    LensStep::CurrentTheme => LensValue::ModeValue(t.get_current_theme()),
                    _ => LensValue::Missing,
                },
                LensValue::OptModeValue(o) => match o {
                    Option::Some(mode) => match step {
                        LensStep::UnwrapOrDefaultMode => LensValue::ModeValue(mode),
                        _ => LensValue::Missing,
                    },
                    Option::None => match step {
                        LensStep::UnwrapOrDefaultMode => LensValue::ModeValue(ThemeMode::LightMode),
                        _ => LensValue::Missing,
                    },
                },
                _ => LensValue::Missing,
            };
            k = k + 1;
        }
        v
    }

    /// A one-shot read through a lens: pure and total over the current
    /// model graph. Reading twice without a model mutation in between
    /// yields equal values, since the result is a function of the context
    /// and the lens alone.
    pub fn eval_lens(&self, lens: &Lens, owner: u32) -> (r: LensValue)
        requires
            self.wf(),
            owner < self.tree.len(),
        ensures
            r == self.eval_lens_spec(*lens, owner as int),
    {
        match self.model_search(owner, lens.root) {
            Option::None => LensValue::Missing,
            Option::Some(m) => Self::eval_on_model(&self.models[m as usize], lens),
        }
    }

    /// Whether binding `b` fires in an update pass over this context: its
    /// owner is alive and the projection differs from the last observed
    /// value.
    pub open spec fn binding_fires_spec(self, b: int) -> bool {
        let bd = self.bindings@[b];
        &&& self.tree.slots@[bd.owner as int].alive
        &&& !lens_value_eq_spec(
            self.eval_lens_spec(bd.lens, bd.owner as int),
            bd.last,
        )
    }

    /// The rebuild record binding `b` produces.
    pub open spec fn rebuild_of_spec(self, b: int) -> RebuildRecord {
        let bd = self.bindings@[b];
        RebuildRecord {
            binding: b as usize,
            owner: bd.owner,
            value: self.eval_lens_spec(bd.lens, bd.owner as int),
        }
    }

    /// The rebuilds an update pass appends, considering the first `k`
    /// bindings: one record per fired binding, in binding order.
    pub open spec fn rebuilds_upto_spec(self, k: int) -> Seq<RebuildRecord>
        decreases k,
        when 0 <= k
    {
        if k <= 0 {
            Seq::empty()
        } else {
            self.rebuilds_upto_spec(k - 1) + (if self.binding_fires_spec(k - 1) {
                seq![self.rebuild_of_spec(k - 1)]
            } else {
                Seq::empty()
            })
        }
    }

    /// Everything an update pass appends to the rebuild log.
    pub open spec fn update_rebuilds_spec(self) -> Seq<RebuildRecord> {
        self.rebuilds_upto_spec(self.bindings@.len() as int)
    }

    /// The layout store and dirty region after the rebuild actions of the
    /// first `k` bindings ran: each fired binding applies its action to its
    /// owner's layout and joins the owner's bounds into the dirty region.
    pub open spec fn layout_dirty_upto_spec(self, k: int) -> (Seq<LayoutRect>, Option<
        BoundingBox,
    >)
        decreases k,
        when 0 <= k
    {
        if k <= 0 {
            (self.layout@, self.dirty)
        } else {
            let prev = self.layout_dirty_upto_spec(k - 1);
            if self.binding_fires_spec(k - 1) {
                let bd = self.bindings@[k - 1];
                let owner = bd.owner as int;
                (
                    prev.0.update(
                        owner,
                        apply_action_layout_spec(
                            bd.action,
                            self.eval_lens_spec(bd.lens, owner),
                            prev.0[owner],
                        ),
                    ),
                    Option::Some(dirty_join_spec(prev.1, self.bounds@[owner])),
                )
            } else {
                prev
            }
        }
    }

    /// No-op idempotence: when every binding's last observed value already
    /// equals its projection — as after an event batch that mutated no
    /// model — an update pass appends no rebuild at all.
    pub proof fn lemma_noop_update_is_empty(self)
        requires
            forall|b: int|
                0 <= b < self.bindings@.len() ==> !(#[trigger] self.binding_fires_spec(b)),
        ensures
            self.update_rebuilds_spec() == Seq::<RebuildRecord>::empty(),
    {
        self.lemma_noop_update_upto(self.bindings@.len() as int);
    }

    /// Induction for [`Context::lemma_noop_update_is_empty`].
    proof fn lemma_noop_update_upto(self, k: int)
        requires
            0 <= k <= self.bindings@.len(),
            forall|b: int|
                0 <= b < self.bindings@.len() ==> !(#[trigger] self.binding_fires_spec(b)),
        ensures
            self.rebuilds_upto_spec(k) == Seq::<RebuildRecord>::empty(),
        decreases k,
    {
        if k > 0 {
            self.lemma_noop_update_upto(k - 1);
            assert(self.rebuilds_upto_spec(k) =~= Seq::<RebuildRecord>::empty());
        }
    }

    /// Lens purity, as a binding sees it: a binding whose last observed
    /// value equals its projection contributes no record to an update pass;
    /// reading without mutating triggers no rebuild.
    pub proof fn lemma_pure_read_no_rebuild(self, b: int)
        requires
            0 <= b < self.bindings@.len(),
            self.bindings@.len() <= usize::MAX,
            !self.binding_fires_spec(b),
        ensures
            forall|r: int|
                0 <= r < self.update_rebuilds_spec().len() ==> (
                #[trigger] self.update_rebuilds_spec()[r]).binding != b,
    {
        self.lemma_pure_read_no_rebuild_upto(b, self.bindings@.len() as int);
    }

    /// Induction for [`Context::lemma_pure_read_no_rebuild`].
    proof fn lemma_pure_read_no_rebuild_upto(self, b: int, k: int)
        requires
            0 <= b,
            0 <= k <= usize::MAX,
            !self.binding_fires_spec(b),
        ensures
            forall|r: int|
                0 <= r < self.rebuilds_upto_spec(k).len() ==> (#[trigger] self.rebuilds_upto_spec(
                    k,
                )[r]).binding != b,
        decreases k,
    {
        if k > 0 {
            self.lemma_pure_read_no_rebuild_upto(b, k - 1);
            let prev = self.rebuilds_upto_spec(k - 1);
            assert forall|r: int|
                0 <= r < self.rebuilds_upto_spec(k).len() implies (
            #[trigger] self.rebuilds_upto_spec(k)[r]).binding != b by {
                if r < prev.len() {
                    assert(self.rebuilds_upto_spec(k)[r] == prev[r]);
                } else {
                    assert(self.binding_fires_spec(k - 1));
                    assert(k - 1 != b);
                    assert(self.rebuilds_upto_spec(k)[r] == self.rebuild_of_spec(k - 1));
                }
            }
        }
    }

    /// At most one rebuild per binding per batch: however many intermediate
    /// mutations a flushed batch performed, one update pass appends at most
    /// one record for any binding.
    pub proof fn lemma_at_most_one_rebuild_per_binding(self)
        requires
            self.bindings@.len() <= usize::MAX,
        ensures
            forall|i: int, j: int|
                0 <= i < j < self.update_rebuilds_spec().len() ==> (
                #[trigger] self.update_rebuilds_spec()[i]).binding != (
                #[trigger] self.update_rebuilds_spec()[j]).binding,
    {
        self.lemma_rebuilds_upto_distinct(self.bindings@.len() as int);
    }

    /// Induction for [`Context::lemma_at_most_one_rebuild_per_binding`]:
    /// the records of a pass carry strictly smaller binding indices than the
    /// prefix length, each one at most once.
    proof fn lemma_rebuilds_upto_distinct(self, k: int)
        requires
            0 <= k <= usize::MAX,
        ensures
            forall|i: int|
                0 <= i < self.rebuilds_upto_spec(k).len() ==> (#[trigger] self.rebuilds_upto_spec(
                    k,
                )[i]).binding < k,
            forall|i: int, j: int|
                0 <= i < j < self.rebuilds_upto_spec(k).len() ==> (
                #[trigger] self.rebuilds_upto_spec(k)[i]).binding != (
                #[trigger] self.rebuilds_upto_spec(k)[j]).binding,
        decreases k,
    {
        if k > 0 {
            self.lemma_rebuilds_upto_distinct(k - 1);
            let prev = self.rebuilds_upto_spec(k - 1);
            assert forall|i: int|
                0 <= i < self.rebuilds_upto_spec(k).len() implies (
            #[trigger] self.rebuilds_upto_spec(k)[i]).binding < k by {
                if i < prev.len() {
                    assert(self.rebuilds_upto_spec(k)[i] == prev[i]);
                } else {
                    assert(self.binding_fires_spec(k - 1));
                    assert(self.rebuilds_upto_spec(k)[i] == self.rebuild_of_spec(k - 1));
                }
            }
            assert forall|i: int, j: int|
                0 <= i < j < self.rebuilds_upto_spec(k).len() implies (
            #[trigger] self.rebuilds_upto_spec(k)[i]).binding != (
            #[trigger] self.rebuilds_upto_spec(k)[j]).binding by {
                if j < prev.len() {
                    assert(self.rebuilds_upto_spec(k)[i] == prev[i]);
                    assert(self.rebuilds_upto_spec(k)[j] == prev[j]);
                } else {
                    assert(self.binding_fires_spec(k - 1));
                    assert(self.rebuilds_upto_spec(k)[i] == prev[i]);
                    assert(self.rebuilds_upto_spec(k)[j] == self.rebuild_of_spec(k - 1));
                    assert(prev[i].binding < k - 1);
                }
            }
        }
    }

    /// Runs one update pass: recomputes every live binding's projection,
    /// compares it with the last observed value, and rebuilds — applies the
    /// binding's action and appends a record — exactly for those whose
    /// value changed. Bindings observe at most one rebuild per pass, and a
    /// pass after a batch that changed nothing appends nothing.
    pub fn update_bindings(&mut self)
        requires
            old(self).wf(),
        ensures
            final(self).wf(),
            final(self).rebuilds@ == old(self).rebuilds@ + old(self).update_rebuilds_spec(),
            final(self).tree == old(self).tree,
            final(self).models == old(self).models,
            final(self).queue == old(self).queue,
            final(self).input == old(self).input,
            final(self).trace == old(self).trace,
            final(self).timers == old(self).timers,
            final(self).bindings@.len() == old(self).bindings@.len(),
            (final(self).layout@, final(self).dirty) == old(self).layout_dirty_upto_spec(
                old(self).bindings@.len() as int,
            ),
            forall|j: int|
                0 <= j < old(self).bindings@.len()
                    ==> !(#[trigger] final(self).binding_fires_spec(j)),
    {
        let ghost c0 = *self;
        let n = self.bindings.len();
        let mut b: usize = 0;
        while b < n
            invariant
                self.wf(),
                n == self.bindings@.len(),
                b <= n,
                self.tree == c0.tree,
                self.models == c0.models,
                self.queue == c0.queue,
                self.input == c0.input,
                self.trace == c0.trace,
                self.timers == c0.timers,
                self.bindings@.len() == c0.bindings@.len(),
                self.rebuilds@ == c0.rebuilds@ + c0.rebuilds_upto_spec(b as int),
                (self.layout@, self.dirty) == c0.layout_dirty_upto_spec(b as int),
                self.bounds == c0.bounds,
                forall|j: int|
                    0 <= j < n ==> (#[trigger] self.bindings@[j]).owner == c0.bindings@[j].owner
                        && self.bindings@[j].lens == c0.bindings@[j].lens && self.bindings@[j].action
                        == c0.bindings@[j].action,
                forall|j: int|
                    b <= j < n ==> (#[trigger] self.bindings@[j]).last == c0.bindings@[j].last,
                forall|j: int|
                    0 <= j < b ==> (c0.tree.slots@[(#[trigger] c0.bindings@[j]).owner as int].alive
                        ==> lens_value_eq_spec(
                        c0.eval_lens_spec(c0.bindings@[j].lens, c0.bindings@[j].owner as int),
                        self.bindings@[j].last,
                    )),
                c0.wf(),
            decreases n - b,
        {
            let owner = self.bindings[b].owner;
            let alive = self.tree.slots[owner as usize].alive;
            let value = self.eval_lens(&self.bindings[b].lens, owner);
            let equal = lens_value_eq(&value, &self.bindings[b].last);
            proof {
                assert(c0.eval_lens_spec(c0.bindings@[b as int].lens, owner as int)
                    == self.eval_lens_spec(self.bindings@[b as int].lens, owner as int)) by {
                    Self::lemma_eval_frame(c0, *self, c0.bindings@[b as int].lens, owner as int);
                }
            }
            if alive && !equal {
                let action = self.bindings[b].action;
                let value_again = self.eval_lens(&self.bindings[b].lens, owner);
                let slot = &mut self.bindings[b];
                slot.last = value_again;
                self.apply_action(action, owner, &value);
                self.rebuilds.push(RebuildRecord { binding: b, owner, value });
                proof {
                    assert(self.rebuilds@ =~= c0.rebuilds@ + c0.rebuilds_upto_spec(b as int + 1));
                    Self::lemma_lens_value_eq_reflexive(self.bindings@[b as int].last);
                }
            } else {
                proof {
                    assert(self.rebuilds@ =~= c0.rebuilds@ + c0.rebuilds_upto_spec(b as int + 1));
                }
            }
            b = b + 1;
        }
        proof {
            assert forall|j: int| 0 <= j < n implies !(#[trigger] self.binding_fires_spec(j)) by {
                Self::lemma_eval_frame(
                    c0,
                    *self,
                    self.bindings@[j].lens,
                    self.bindings@[j].owner as int,
                );
            }
        }
    }

    /// Lens evaluation reads only the tree's structure and the models:
    /// contexts agreeing there project every lens alike.
    pub proof fn lemma_eval_frame(c1: Context, c2: Context, lens: Lens, owner: int)
        requires
            c1.wf(),
            c2.wf(),
            c1.tree == c2.tree,
            c1.models == c2.models,
            0 <= owner < c1.tree.len(),
        ensures
            c1.eval_lens_spec(lens, owner) == c2.eval_lens_spec(lens, owner),
    {
        Self::lemma_search_frame(c1, c2, owner, lens.root);
    }

    /// Model resolution reads only the tree's structure and the models.
    proof fn lemma_search_frame(c1: Context, c2: Context, i: int, root: ModelKind)
        requires
            c1.wf(),
            c2.wf(),
            c1.tree == c2.tree,
            c1.models == c2.models,
            0 <= i < c1.tree.len(),
        ensures
            c1.model_search_spec(i, root) == c2.model_search_spec(i, root),
        decreases i,
    {
        assert(c1.tree.slot_ok(i));
        if model_kind_spec(c1.models@[i]) != Option::Some(root) {
            match c1.tree.slots@[i].parent {
                Option::Some(p) => {
                    if 0 <= p < i {
                        Self::lemma_search_frame(c1, c2, p as int, root);
                    }
                },
                Option::None => {},
            }
        }
    }

    /// Applies a binding's rebuild action: a layout write for the thumb
    /// actions, and the owner's bounds joined into the dirty region.
    fn apply_action(&mut self, action: BindingAction, owner: u32, value: &LensValue)
        requires
            old(self).wf(),
            owner < old(self).tree.len(),
        ensures
            final(self).wf(),
            final(self).tree == old(self).tree,
            final(self).models == old(self).models,
            final(self).queue == old(self).queue,
            final(self).input == old(self).input,
            final(self).trace == old(self).trace,
            final(self).timers == old(self).timers,
            final(self).bindings == old(self).bindings,
            final(self).rebuilds == old(self).rebuilds,
            final(self).layout@ == old(self).layout@.update(
                owner as int,
                apply_action_layout_spec(action, *value, old(self).layout@[owner as int]),
            ),
            final(self).dirty == Option::Some(
                dirty_join_spec(old(self).dirty, old(self).bounds@[owner as int]),
            ),
            final(self).bounds == old(self).bounds,
            final(self).styles == old(self).styles,
    {
        // Join the owner's bounds into the dirty region for the renderer.
        let owner_bounds = self.bounds[owner as usize];
        let new_dirty = match &self.dirty {
            Option::Some(d) => d.union(&owner_bounds),
            Option::None => owner_bounds,
        };
        self.dirty = Option::Some(new_dirty);
        match action {
            BindingAction::Record => {},
            BindingAction::ThumbPosition(o) => {
                match value {
                    LensValue::Micro(m) => {
                        let m = *m;
                        if 0 <= m && m <= SCALE {
                            let rect = &mut self.layout[owner as usize];
                            match o {
                                Orientation::Horizontal => {
                                    rect.left = Units::Stretch(m);
                                    rect.right = Units::Stretch(SCALE - m);
                                },
                                Orientation::Vertical => {
                                    rect.top = Units::Stretch(m);
                                    rect.bottom = Units::Stretch(SCALE - m);
                                },
                            }
                        }
                    },
                    _ => {},
                }
            },
            BindingAction::ThumbSize(o) => {
                match value {
                    LensValue::Micro(m) => {
                        let m = *m;
                        if 0 <= m && m <= SCALE {
                            let rect = &mut self.layout[owner as usize];
                            match o {
                                Orientation::Horizontal => {
                                    rect.width = Units::Percentage(m * 100);
                                },
                                Orientation::Vertical => {
                                    rect.height = Units::Percentage(m * 100);
                                },
                            }
                        }
                    },
                    _ => {},
                }
            },
        }
    }

    /// Subscribes a rebuild action to a lens: the binding starts in sync
    /// with the current projection, and fires on the first update pass
    /// after the projection changes. `None` when `owner` is stale.
    pub fn bind(&mut self, owner: Entity, lens: Lens, action: BindingAction) -> (r: Option<usize>)
        requires
            old(self).wf(),
            lens_wf(lens),
        ensures
            final(self).wf(),
            r is None ==> *final(self) == *old(self),
            old(self).tree.valid_spec(owner) ==> (r is Some),
            r matches Some(b) ==> {
                &&& old(self).tree.valid_spec(owner)
                &&& b == old(self).bindings@.len()
                &&& final(self).bindings@.len() == old(self).bindings@.len() + 1
                &&& final(self).bindings@[b as int].owner == owner.index
                &&& final(self).bindings@[b as int].lens == lens
                &&& final(self).bindings@[b as int].action == action
                &&& (forall|j: int|
                    0 <= j < old(self).bindings@.len() ==> #[trigger] final(self).bindings@[j]
                        == old(self).bindings@[j])
                &&& !final(self).binding_fires_spec(b as int)
                &&& final(self).tree == old(self).tree
                &&& final(self).models == old(self).models
                &&& final(self).queue == old(self).queue
                &&& final(self).rebuilds == old(self).rebuilds
            },
    {
        if !self.tree.is_valid(owner) {
            return Option::None;
        }
        let b = self.bindings.len();
        let last = self.eval_lens(&lens, owner.index);
        self.bindings.push(Binding { owner: owner.index, lens, last, action });
        proof {
            let bd = self.bindings@[b as int];
            assert(self.eval_lens_spec(bd.lens, bd.owner as int) == old(self).eval_lens_spec(
                bd.lens,
                bd.owner as int,
            )) by {
                Self::lemma_eval_frame(*old(self), *self, bd.lens, bd.owner as int);
            }
            Self::lemma_lens_value_eq_reflexive(bd.last);
        }
        Option::Some(b)
    }

    /// Value equality is reflexive.
    proof fn lemma_lens_value_eq_reflexive(v: LensValue)
        ensures
            lens_value_eq_spec(v, v),
    {
    }

    /// Enqueues an event; nothing is delivered until the next flush.
    pub fn emit(&mut self, event: Event)
        requires
            old(self).wf(),
        ensures
            final(self).wf(),
            final(self).queue@ == old(self).queue@.push(event),
            final(self).tree == old(self).tree,
            final(self).models == old(self).models,
            final(self).bindings == old(self).bindings,
            final(self).rebuilds == old(self).rebuilds,
            final(self).input == old(self).input,
    {
        self.queue.push(event);
    }

    /// Whether slot `i` stops the cursor at `(x, y)`: alive, taking pointer
    /// events, and containing the point.
    pub open spec fn hit_ok_spec(self, i: int, x: int, y: int) -> bool {
        &&& self.tree.slots@[i].alive
        &&& self.pointer_events@[i]
        &&& self.bounds@[i].contains_spec(x, y)
    }

    /// The topmost slot at the cursor, scanning from slot `i` downwards;
    /// the root catches everything that nothing else does. Later slots are
    /// descendants or younger siblings of earlier ones, so the scan finds a
    /// deepest hit first.
    pub open spec fn hit_from_spec(self, i: int, x: int, y: int) -> int
        decreases i + 1,
        when i >= -1
    {
        if i < 0 {
            0
        } else if self.hit_ok_spec(i, x, y) {
            i
        } else {
            self.hit_from_spec(i - 1, x, y)
        }
    }

    /// The entity a cursor position hits.
    pub open spec fn hit_entity_spec(self, x: int, y: int) -> Entity {
        let i = self.hit_from_spec(self.tree.len() - 1, x, y);
        Entity {
            index: i as u32,
            generation: self.tree.slots@[i].generation,
        }
    }

    /// Geometric hit-testing: the topmost alive slot under the cursor that
    /// takes pointer events, or the root.
    pub fn hit_test(&self, x: i64, y: i64) -> (r: u32)
        requires
            self.wf(),
            -COORD_MAX <= x <= COORD_MAX,
            -COORD_MAX <= y <= COORD_MAX,
        ensures
            r == self.hit_from_spec(self.tree.len() - 1, x as int, y as int),
            r < self.tree.len(),
    {
        let n = self.tree.slots.len();
        let mut i: usize = n;
        while i > 0
            invariant
                self.wf(),
                n == self.tree.len(),
                i <= n,
                -COORD_MAX <= x <= COORD_MAX,
                -COORD_MAX <= y <= COORD_MAX,
                self.hit_from_spec(n - 1, x as int, y as int) == self.hit_from_spec(
                    i as int - 1,
                    x as int,
                    y as int,
                ),
            decreases i,
        {
            let idx = i - 1;
            let ok = self.tree.slots[idx].alive && self.pointer_events[idx]
                && self.bounds[idx].contains(x, y);
            if ok {
                return idx as u32;
            }
            i = idx;
        }
        0
    }

    /// Moves keyboard focus: the previous holder is sent a blur and the new
    /// holder a focus, in that order, within the same flush pass. Focusing
    /// a stale entity or the current holder changes nothing.
    pub fn set_focus(&mut self, new: Entity)
        requires
            old(self).wf(),
        ensures
            final(self).wf(),
            final(self).tree == old(self).tree,
            final(self).models == old(self).models,
            final(self).bindings == old(self).bindings,
            final(self).rebuilds == old(self).rebuilds,
            final(self).trace == old(self).trace,
            if old(self).tree.valid_spec(new) && new != old(self).input.focused {
                &&& final(self).queue@ == old(self).queue@.push(
                    Event {
                        payload: EventPayload::Window(WindowEvent::FocusOut),
                        meta: EventMeta {
                            origin: new,
                            target: old(self).input.focused,
                            propagation: Propagation::Direct,
                            consumed: false,
                        },
                    },
                ).push(
                    Event {
                        payload: EventPayload::Window(WindowEvent::FocusIn),
                        meta: EventMeta {
                            origin: new,
                            target: new,
                            propagation: Propagation::Direct,
                            consumed: false,
                        },
                    },
                )
                &&& final(self).input == (InputState { focused: new, ..old(self).input })
            } else {
                *final(self) == *old(self)
            },
    {
        if self.tree.is_valid(new) && !(new.index == self.input.focused.index && new.generation
            == self.input.focused.generation) {
            let prev = self.input.focused;
            self.queue.push(
                Event {
                    payload: EventPayload::Window(WindowEvent::FocusOut),
                    meta: EventMeta {
                        origin: new,
                        target: prev,
                        propagation: Propagation::Direct,
                        consumed: false,
                    },
                },
            );
            self.queue.push(
                Event {
                    payload: EventPayload::Window(WindowEvent::FocusIn),
                    meta: EventMeta {
                        origin: new,
                        target: new,
                        propagation: Propagation::Direct,
                        consumed: false,
                    },
                },
            );
            self.input.focused = new;
        }
    }

    /// Applies a theme mode to the style system: a plain data write the
    /// frame driver reads back.
    pub fn set_theme_mode(&mut self, m: ThemeMode)
        requires
            old(self).wf(),
        ensures
            final(self).wf(),
            *final(self) == (Context { theme_mode: m, ..*old(self) }),
    {
        self.theme_mode = m;
    }

    /// Re-parses the active stylesheet source. On failure the previous
    /// parsed styles are kept and the error recorded and returned, so the
    /// application may log and continue.
    pub fn reload_styles(&mut self) -> (r: Result<(), StyleError>)
        requires
            old(self).wf(),
        ensures
            final(self).wf(),
            final(self).tree == old(self).tree,
            final(self).models == old(self).models,
            final(self).queue == old(self).queue,
            final(self).bindings == old(self).bindings,
            final(self).rebuilds == old(self).rebuilds,
            final(self).trace == old(self).trace,
            final(self).input == old(self).input,
            final(self).stylesheet == old(self).stylesheet,
            match r {
                Result::Ok(()) => {
                    &&& final(self).style_error is None
                    &&& final(self).styles@.len() == old(self).stylesheet@.len()
                    &&& (forall|j: int|
                        0 <= j < old(self).stylesheet@.len() ==> parse_unit_spec(
                            old(self).stylesheet@[j]@,
                        ) == Option::Some(#[trigger] final(self).styles@[j]))
                },
                Result::Err(e) => {
                    &&& final(self).style_error == Option::Some(e)
                    &&& final(self).styles == old(self).styles
                    &&& e.index < old(self).stylesheet@.len()
                    &&& (parse_unit_spec(old(self).stylesheet@[e.index as int]@) is None)
                },
            },
    {
        match parse_stylesheet(&self.stylesheet) {
            Result::Ok(us) => {
                self.styles = us;
                self.style_error = Option::None;
                Result::Ok(())
            },
            Result::Err(e) => {
                self.style_error = Option::Some(e);
                Result::Err(e)
            },
        }
    }

    /// Runs one handler invocation at slot `idx`: the slot's `take` handler
    /// when consumption is still allowed, then its `map` observers, then
    /// the effects the handler requested. Never touches the tree, the
    /// bindings, the rebuild log or the delivery trace, and only appends to
    /// the queue.
    /// The scroll value a handler snapshot carries for slot `idx`: the
    /// projection of a scrollbar view's own lens, clamped to the unit
    /// interval, and zero where the slot is no scrollbar or the projection
    /// no unit value.
    pub open spec fn snapshot_value_spec(self, idx: int) -> i64 {
        match self.models@[idx] {
            ModelSlot::ScrollbarView(sb) => match self.eval_lens_spec(sb.value, idx) {
                LensValue::Micro(v) => if 0 <= v <= SCALE {
                    v
                } else {
                    0
                },
                _ => 0,
            },
            _ => 0,
        }
    }

    /// The thumb bounds a handler snapshot carries for slot `idx`: the
    /// cached bounds of its first child, or the zero box when the slot has
    /// no child. (A scrollbar without a thumb sees no free space and leaves
    /// the value alone, where a missing child once meant a failure.)
    pub open spec fn snapshot_thumb_spec(self, idx: int) -> BoundingBox {
        if self.tree.slots@[idx].children@.len() > 0 {
            self.bounds@[self.tree.slots@[idx].children@[0] as int]
        } else {
            BoundingBox { x: 0, y: 0, w: 0, h: 0 }
        }
    }

    /// The whole snapshot a handler at slot `idx` works on.
    pub open spec fn snapshot_spec(self, idx: int, target: Entity) -> ScrollbarCx {
        ScrollbarCx {
            current: Entity { index: idx as u32, generation: self.tree.slots@[idx].generation },
            target,
            cursor_x: self.input.cursor_x,
            cursor_y: self.input.cursor_y,
            bounds: self.bounds@[idx],
            thumb_bounds: self.snapshot_thumb_spec(idx),
            value: self.snapshot_value_spec(idx),
        }
    }

    /// Gathers the read-only snapshot a handler at slot `idx` works on: the
    /// slot's entity and cached bounds, its first child's bounds as the
    /// thumb, the cursor position, the event's target, and the slot's own
    /// lens projection. The handler is then a function of its model and
    /// this snapshot alone.
    pub fn handler_snapshot(&self, idx: u32, target: Entity) -> (snap: ScrollbarCx)
        requires
            self.wf(),
            idx < self.tree.len(),
        ensures
            snap == self.snapshot_spec(idx as int, target),
            snap.wf(),
    {
        let current = Entity {
            index: idx,
            generation: self.tree.slots[idx as usize].generation,
        };
        let own_bounds = self.bounds[idx as usize];
        let thumb_bounds: BoundingBox;
        proof {
            assert(self.tree.slot_ok(idx as int));
        }
        if self.tree.slots[idx as usize].children.len() > 0 {
            let c = self.tree.slots[idx as usize].children[0];
            thumb_bounds = self.bounds[c as usize];
        } else {
            thumb_bounds = BoundingBox::zero();
        }
        let sb_value: i64 = match &self.models[idx as usize] {
            ModelSlot::ScrollbarView(sb) => {
                match self.eval_lens(&sb.value, idx) {
                    LensValue::Micro(v) => if 0 <= v && v <= SCALE {
                        v
                    } else {
                        0
                    },
                    _ => 0,
                }
            },
            _ => 0,
        };
        ScrollbarCx {
            current,
            target,
            cursor_x: self.input.cursor_x,
            cursor_y: self.input.cursor_y,
            bounds: own_bounds,
            thumb_bounds,
            value: sb_value,
        }
    }

    fn deliver_node(&mut self, idx: u32, payload: &EventPayload, target: Entity, allow_take: bool) -> (took: bool)
        requires
            old(self).wf(),
            idx < old(self).tree.len(),
        ensures
            final(self).wf(),
            final(self).tree == old(self).tree,
            took ==> allow_take,
            final(self).trace == old(self).trace,
            final(self).bindings == old(self).bindings,
            final(self).rebuilds == old(self).rebuilds,
            final(self).queue@.len() >= old(self).queue@.len(),
            final(self).queue@.subrange(0, old(self).queue@.len() as int) == old(self).queue@,
            final(self).models@.len() == old(self).models@.len(),
            forall|i: int|
                0 <= i < old(self).models@.len() && i != idx ==> #[trigger] final(self).models@[i]
                    == old(self).models@[i],
            slot_step_spec(
                old(self).models@[idx as int],
                final(self).models@[idx as int],
                *payload,
                old(self).snapshot_spec(idx as int, target),
                allow_take,
                took,
            ),
    {
        let snap = self.handler_snapshot(idx, target);
        let mut fx: Vec<Effect> = Vec::new();
        let took: bool;
        let ghost models0 = self.models@;
        match &mut self.models[idx as usize] {
            ModelSlot::Env(env) => {
                let t = if allow_take {
                    env.take_event(payload, &mut fx)
                } else {
                    false
                };
                env.map_event(payload, &mut fx);
                took = t;
            },
            ModelSlot::Flag(f) => {
                took = if allow_take {
                    f.take_event(payload)
                } else {
                    false
                };
            },
            ModelSlot::Scroll(s) => {
                took = if allow_take {
                    s.take_event(payload)
                } else {
                    false
                };
            },
            ModelSlot::ScrollbarView(sb) => {
                sb.map_event(&snap, payload, &mut fx);
                took = false;
            },
            ModelSlot::NoModel => {
                took = false;
            },
        }
        proof {
            assert forall|i: int|
                0 <= i < self.tree.len() implies match #[trigger] self.models@[i] {
                ModelSlot::ScrollbarView(sb) => sb.wf(),
                ModelSlot::Scroll(s) => scroll_model_wf(s),
                _ => true,
            } by {
                if i != idx {
                    assert(self.models@[i] == models0[i]);
                }
            }
        }
        self.apply_effects(fx, snap.current);
        took
    }

    /// Applies the effects a handler requested, in order. Only the queue,
    /// the input state, the style state and the root's pointer-events flag
    /// can change.
    fn apply_effects(&mut self, fx: Vec<Effect>, current: Entity)
        requires
            old(self).wf(),
        ensures
            final(self).wf(),
            final(self).tree == old(self).tree,
            final(self).models == old(self).models,
            final(self).trace == old(self).trace,
            final(self).bindings == old(self).bindings,
            final(self).rebuilds == old(self).rebuilds,
            final(self).queue@.len() >= old(self).queue@.len(),
            final(self).queue@.subrange(0, old(self).queue@.len() as int) == old(self).queue@,
    {
        let mut fx = fx;
        let ghost q0 = self.queue@;
        while fx.len() > 0
            invariant
                self.wf(),
                self.tree == old(self).tree,
                self.models == old(self).models,
                self.trace == old(self).trace,
                self.bindings == old(self).bindings,
                self.rebuilds == old(self).rebuilds,
                self.queue@.len() >= q0.len(),
                self.queue@.subrange(0, q0.len() as int) == q0,
            decreases fx.len(),
        {
            let eff = fx.remove(0);
            match eff {
                Effect::Emit(e) => {
                    self.queue.push(e);
                },
                Effect::SetThemeMode(m) => {
                    self.theme_mode = m;
                },
                Effect::ReloadStyles => {
                    let _ = self.reload_styles();
                },
                Effect::Capture => {
                    self.input.captured = Option::Some(current);
                },
                Effect::Release => {
                    self.input.captured = Option::None;
                },
                Effect::SetActive(b) => {
                    self.input.active = if b {
                        Option::Some(current)
                    } else {
                        Option::None
                    };
                },
                Effect::SetRootPointerEvents(b) => {
                    let slot = &mut self.pointer_events[0];
                    *slot = b;
                },
                Effect::FocusWithVisibility(_) => {
                    self.set_focus(current);
                },
            }
            proof {
                assert(self.queue@.subrange(0, q0.len() as int) =~= q0);
            }
        }
    }

    /// The delivery path of an event: empty for a stale target, else the
    /// target alone (direct), the ancestor chain (ascending), or the
    /// subtree pre-order (subtree).
    pub open spec fn delivery_path_spec(self, ev: Event) -> Seq<u32> {
        if !self.tree.valid_spec(ev.meta.target) {
            Seq::empty()
        } else {
            match ev.meta.propagation {
                Propagation::Direct => seq![ev.meta.target.index],
                Propagation::Ascending => self.tree.ancestors_spec(ev.meta.target.index as int),
                Propagation::Subtree => self.tree.preorder_spec(ev.meta.target.index as int),
            }
        }
    }

    /// Walks one event along its delivery path, appending one
    /// [`DeliveryRecord`] per visited slot. Dead slots are skipped
    /// silently; a stale target drops the event whole. Direct and subtree
    /// walks visit their entire path; an ascending walk visits the path up
    /// to and including the consuming slot. Along any walk at most one
    /// `take` handler consumes the event, only at a delivered slot, and an
    /// event already marked consumed is taken nowhere.
    pub fn dispatch_one(&mut self, ev: Event)
        requires
            old(self).wf(),
        ensures
            final(self).wf(),
            final(self).tree == old(self).tree,
            final(self).bindings == old(self).bindings,
            final(self).rebuilds == old(self).rebuilds,
            !old(self).tree.valid_spec(ev.meta.target) ==> *final(self) == *old(self),
            final(self).trace@.len() >= old(self).trace@.len(),
            final(self).trace@.subrange(0, old(self).trace@.len() as int) == old(self).trace@,
            final(self).trace@.len() - old(self).trace@.len() <= old(self).delivery_path_spec(
                ev,
            ).len(),
            forall|m: int|
                0 <= m < final(self).trace@.len() - old(self).trace@.len()
                    ==> (#[trigger] final(self).trace@[old(self).trace@.len() + m]).slot == old(
                    self,
                ).delivery_path_spec(ev)[m],
            old(self).tree.valid_spec(ev.meta.target) && !(ev.meta.propagation
                matches Propagation::Ascending) ==> final(self).trace@.len() == old(
                self,
            ).trace@.len() + old(self).delivery_path_spec(ev).len(),
            old(self).tree.valid_spec(ev.meta.target) && (ev.meta.propagation
                matches Propagation::Ascending) && !ev.meta.consumed ==> {
                ||| final(self).trace@.len() - old(self).trace@.len() == old(
                    self,
                ).delivery_path_spec(ev).len()
                ||| (final(self).trace@.len() > old(self).trace@.len()
                    && final(self).trace@.last().took)
            },
            ev.meta.consumed ==> (forall|i: int|
                old(self).trace@.len() <= i < final(self).trace@.len()
                    ==> !(#[trigger] final(self).trace@[i]).took),
            final(self).models@.len() == old(self).models@.len(),
            old(self).tree.valid_spec(ev.meta.target) && (ev.meta.propagation
                matches Propagation::Direct) && old(self).tree.slots@[ev.meta.target.index as int].alive
                ==> {
                &&& (forall|i: int|
                    0 <= i < old(self).models@.len() && i != ev.meta.target.index
                        ==> #[trigger] final(self).models@[i] == old(self).models@[i])
                &&& final(self).trace@.len() == old(self).trace@.len() + 1
                &&& slot_step_spec(
                    old(self).models@[ev.meta.target.index as int],
                    final(self).models@[ev.meta.target.index as int],
                    ev.payload,
                    old(self).snapshot_spec(ev.meta.target.index as int, ev.meta.target),
                    !ev.meta.consumed,
                    final(self).trace@.last().took,
                )
            },
            forall|i: int, j: int|
                old(self).trace@.len() <= i < j < final(self).trace@.len() ==> !((
                #[trigger] final(self).trace@[i]).took && (#[trigger] final(self).trace@[j]).took),
            forall|i: int|
                old(self).trace@.len() <= i < final(self).trace@.len() ==> ((
                #[trigger] final(self).trace@[i]).took ==> final(self).trace@[i].delivered),
            forall|i: int|
                old(self).trace@.len() <= i < final(self).trace@.len() ==> (
                #[trigger] final(self).trace@[i]).slot < old(self).tree.len()
                    && final(self).trace@[i].delivered
                    == old(self).tree.slots@[final(self).trace@[i].slot as int].alive,
    {
        let target = ev.meta.target;
        if !self.tree.is_valid(target) {
            // Dispatch to a stale or removed entity is silently dropped.
            return ;
        }
        if matches!(ev.meta.propagation, Propagation::Direct) {
            // A direct event is delivered once, to the target alone.
            let idx = target.index;
            let alive = self.tree.slots[idx as usize].alive;
            let took: bool;
            if alive {
                took = self.deliver_node(idx, &ev.payload, target, !ev.meta.consumed);
            } else {
                took = false;
            }
            self.trace.push(DeliveryRecord { slot: idx, delivered: alive, took });
            proof {
                assert(old(self).delivery_path_spec(ev) =~= seq![target.index]);
                assert(self.trace@.subrange(0, old(self).trace@.len() as int) =~= old(self).trace@);
            }
            return ;
        }
        let path: Vec<u32> = match ev.meta.propagation {
            Propagation::Direct => {
                // Returned above; kept for exhaustiveness.
                let mut p: Vec<u32> = Vec::new();
                p.push(target.index);
                p
            },
            Propagation::Ascending => self.tree.ancestor_path(target.index),
            Propagation::Subtree => {
                let mut p: Vec<u32> = Vec::new();
                self.tree.push_preorder(target.index, &mut p);
                proof {
                    self.tree.lemma_preorder_bounds(target.index as int);
                }
                p
            },
        };
        proof {
            assert(path@ =~= old(self).delivery_path_spec(ev));
        }
        let ascending = matches!(ev.meta.propagation, Propagation::Ascending);
        let mut consumed = ev.meta.consumed;
        let ghost tr0 = self.trace@;
        let ghost t0 = self.tree;
        let mut k: usize = 0;
        while k < path.len() && !(consumed && ascending)
            invariant
                self.wf(),
                self.tree == t0,
                self.bindings == old(self).bindings,
                self.rebuilds == old(self).rebuilds,
                k <= path.len(),
                ascending == (ev.meta.propagation matches Propagation::Ascending),
                forall|m: int| 0 <= m < path@.len() ==> #[trigger] path@[m] < t0.len(),
                self.models@.len() == old(self).models@.len(),
                !(ev.meta.propagation matches Propagation::Direct),
                self.trace@.len() == tr0.len() + k,
                self.trace@.subrange(0, tr0.len() as int) == tr0,
                forall|m: int|
                    0 <= m < k ==> (#[trigger] self.trace@[tr0.len() + m]).slot == path@[m],
                ev.meta.consumed ==> consumed,
                !consumed ==> (forall|i: int|
                    tr0.len() <= i < self.trace@.len() ==> !(#[trigger] self.trace@[i]).took),
                ev.meta.consumed ==> (forall|i: int|
                    tr0.len() <= i < self.trace@.len() ==> !(#[trigger] self.trace@[i]).took),
                ascending && consumed && !ev.meta.consumed ==> (self.trace@.len() > tr0.len()
                    && self.trace@[self.trace@.len() - 1].took),
                forall|i: int, j: int|
                    tr0.len() <= i < j < self.trace@.len() ==> !((#[trigger] self.trace@[i]).took
                        && (#[trigger] self.trace@[j]).took),
                forall|i: int|
                    tr0.len() <= i < self.trace@.len() ==> ((#[trigger] self.trace@[i]).took
                        ==> self.trace@[i].delivered),
                forall|i: int|
                    tr0.len() <= i < self.trace@.len() ==> (#[trigger] self.trace@[i]).slot
                        < t0.len() && self.trace@[i].delivered == t0.slots@[self.trace@[i].slot as int].alive,
            decreases path.len() - k,
        {
            let idx = path[k];
            let alive = self.tree.slots[idx as usize].alive;
            let took: bool;
            if alive {
                took = self.deliver_node(idx, &ev.payload, target, !consumed);
            } else {
                took = false;
            }
            let ghost trace_before = self.trace@;
            self.trace.push(DeliveryRecord { slot: idx, delivered: alive, took });
            proof {
                assert(self.trace@.subrange(0, tr0.len() as int) =~= tr0);
                assert forall|i: int, j: int|
                    tr0.len() <= i < j < self.trace@.len() implies !((
                #[trigger] self.trace@[i]).took && (#[trigger] self.trace@[j]).took) by {
                    if j < self.trace@.len() - 1 {
                        assert(self.trace@[i] == trace_before[i]);
                        assert(self.trace@[j] == trace_before[j]);
                    } else {
                        assert(self.trace@[i] == trace_before[i]);
                    }
                }
            }
            if took {
                consumed = true;
            }
            k = k + 1;
        }
        proof {
            // Non-ascending walks never set the early-stop condition's
            // ascending half, so the loop ran the whole path.
            if !(ev.meta.propagation matches Propagation::Ascending) {
                assert(k == path@.len());
            }
        }
    }

    /// How many events one flush pass processes at most: a safety valve
    /// against a handler that re-emits forever.
    pub const FLUSH_BUDGET: u64 = 1_000_000;

    /// Drains the queue in FIFO order, walking each event along its path
    /// with [`Context::dispatch_one`]; events a handler emits join the same
    /// pass (a trampoline, not a recursive call, bounding stack depth and
    /// preserving FIFO order). Returns how many events were processed: the
    /// queue is empty afterwards unless the pass hit the safety budget. The
    /// delivery trace is reset at the start of each pass and afterwards
    /// holds one record per slot visited during the pass.
    pub fn flush(&mut self) -> (drained: u64)
        requires
            old(self).wf(),
        ensures
            final(self).wf(),
            final(self).tree == old(self).tree,
            final(self).bindings == old(self).bindings,
            final(self).rebuilds == old(self).rebuilds,
            drained <= Context::FLUSH_BUDGET,
            final(self).queue@.len() == 0 || drained == Context::FLUSH_BUDGET,
            forall|i: int|
                0 <= i < final(self).trace@.len() ==> ((#[trigger] final(self).trace@[i]).took
                    ==> final(self).trace@[i].delivered),
            forall|i: int|
                0 <= i < final(self).trace@.len() ==> (#[trigger] final(self).trace@[i]).slot
                    < old(self).tree.len() && final(self).trace@[i].delivered == old(
                    self,
                ).tree.slots@[final(self).trace@[i].slot as int].alive,
    {
        self.trace.clear();
        let mut budget: u64 = Context::FLUSH_BUDGET;
        while budget > 0 && self.queue.len() > 0
            invariant
                self.wf(),
                self.tree == old(self).tree,
                self.bindings == old(self).bindings,
                self.rebuilds == old(self).rebuilds,
                budget <= Context::FLUSH_BUDGET,
                forall|i: int|
                    0 <= i < self.trace@.len() ==> ((#[trigger] self.trace@[i]).took
                        ==> self.trace@[i].delivered),
                forall|i: int|
                    0 <= i < self.trace@.len() ==> (#[trigger] self.trace@[i]).slot < old(
                        self,
                    ).tree.len() && self.trace@[i].delivered == old(self).tree.slots@[self.trace@[i].slot as int].alive,
            decreases budget,
        {
            let ev = self.queue.remove(0);
            let ghost trace_pre = self.trace@;
            self.dispatch_one(ev);
            proof {
                assert forall|i: int| 0 <= i < trace_pre.len() implies self.trace@[i]
                    == trace_pre[i] by {
                    assert(self.trace@.subrange(0, trace_pre.len() as int)[i] == self.trace@[i]);
                }
                assert forall|i: int|
                    0 <= i < self.trace@.len() implies ((#[trigger] self.trace@[i]).took
                    ==> self.trace@[i].delivered) && self.trace@[i].slot < old(self).tree.len()
                    && self.trace@[i].delivered == old(self).tree.slots@[self.trace@[i].slot as int].alive by {
                    if i < trace_pre.len() {
                        assert(self.trace@[i] == trace_pre[i]);
                    } else {
                        assert((#[trigger] self.trace@[i]).slot < old(self).tree.len());
                    }
                }
            }
            budget = budget - 1;
        }
        Context::FLUSH_BUDGET - budget
    }

    /// The routed pointer event the state machine enqueues: aimed at the
    /// captured entity when a capture holds — wherever the cursor is — and
    /// at the hit-tested entity otherwise.
    pub open spec fn pointer_event_spec(
        self,
        payload: EventPayload,
        hit: Entity,
    ) -> Event {
        Event {
            payload,
            meta: EventMeta {
                origin: Entity { index: 0u32, generation: 0u32 },
                target: route_pointer_spec(self.input.captured, hit),
                propagation: Propagation::Ascending,
                consumed: false,
            },
        }
    }

    /// Feeds one raw platform event into the input state machine: the
    /// tracked state (cursor, pressed button, hovered entity, IME state) is
    /// updated and the derived high-level event, if any, joins the queue.
    /// The machine never delivers directly; it only enqueues.
    pub fn process_window_event(&mut self, ev: WindowEvent)
        requires
            old(self).wf(),
            (ev matches WindowEvent::MouseMove(x, y) ==> -COORD_MAX <= x <= COORD_MAX && -COORD_MAX
                <= y <= COORD_MAX),
        ensures
            final(self).wf(),
            final(self).tree == old(self).tree,
            final(self).models == old(self).models,
            final(self).bindings == old(self).bindings,
            final(self).rebuilds == old(self).rebuilds,
            match ev {
                WindowEvent::MouseMove(x, y) => {
                    &&& final(self).input == (InputState {
                        cursor_x: x,
                        cursor_y: y,
                        hovered: old(self).hit_entity_spec(x as int, y as int),
                        ..old(self).input
                    })
                    &&& final(self).queue@ == old(self).queue@.push(
                        old(self).pointer_event_spec(
                            EventPayload::Window(WindowEvent::MouseMove(x, y)),
                            old(self).hit_entity_spec(x as int, y as int),
                        ),
                    )
                },
                WindowEvent::MouseDown(b) => {
                    &&& final(self).input == (InputState {
                        pressed: Option::Some(b),
                        ..old(self).input
                    })
                    &&& final(self).queue@ == old(self).queue@.push(
                        old(self).pointer_event_spec(
                            EventPayload::Window(WindowEvent::MouseDown(b)),
                            old(self).input.hovered,
                        ),
                    )
                },
                WindowEvent::MouseUp(b) => {
                    &&& final(self).input == (InputState {
                        pressed: Option::<crate::events::MouseButton>::None,
                        ..old(self).input
                    })
                    &&& final(self).queue@ == old(self).queue@.push(
                        old(self).pointer_event_spec(
                            EventPayload::Window(WindowEvent::MouseUp(b)),
                            old(self).input.hovered,
                        ),
                    )
                },
                WindowEvent::KeyDown(k) => {
                    &&& final(self).input == old(self).input
                    &&& final(self).queue@ == old(self).queue@.push(
                        Event {
                            payload: EventPayload::Window(WindowEvent::KeyDown(k)),
                            meta: EventMeta {
                                origin: Entity { index: 0u32, generation: 0u32 },
                                target: old(self).input.focused,
                                propagation: Propagation::Ascending,
                                consumed: false,
                            },
                        },
                    )
                },
                WindowEvent::KeyUp(k) => {
                    &&& final(self).input == old(self).input
                    &&& final(self).queue@ == old(self).queue@.push(
                        Event {
                            payload: EventPayload::Window(WindowEvent::KeyUp(k)),
                            meta: EventMeta {
                                origin: Entity { index: 0u32, generation: 0u32 },
                                target: old(self).input.focused,
                                propagation: Propagation::Ascending,
                                consumed: false,
                            },
                        },
                    )
                },
                WindowEvent::ThemeChanged(m) => {
                    &&& final(self).input == old(self).input
                    &&& final(self).queue@ == old(self).queue@.push(
                        Event {
                            payload: EventPayload::Window(WindowEvent::ThemeChanged(m)),
                            meta: EventMeta {
                                origin: Entity { index: 0u32, generation: 0u32 },
                                target: Entity { index: 0u32, generation: 0u32 },
                                propagation: Propagation::Subtree,
                                consumed: false,
                            },
                        },
                    )
                },
                WindowEvent::Ime(iev) => {
                    &&& final(self).input == (InputState {
                        ime: crate::ime::ime_step_spec(old(self).input.ime, iev),
                        ..old(self).input
                    })
                    &&& final(self).queue == old(self).queue
                },
                _ => *final(self) == *old(self),
            },
    {
        match ev {
            WindowEvent::MouseMove(x, y) => {
                let hit_idx = self.hit_test(x, y);
                let hit = Entity {
                    index: hit_idx,
                    generation: self.tree.slots[hit_idx as usize].generation,
                };
                self.input.cursor_x = x;
                self.input.cursor_y = y;
                self.input.hovered = hit;
                let target = route_pointer(self.input.captured, hit);
                self.queue.push(
                    Event {
                        payload: EventPayload::Window(WindowEvent::MouseMove(x, y)),
                        meta: EventMeta {
                            origin: Entity::root(),
                            target,
                            propagation: Propagation::Ascending,
                            consumed: false,
                        },
                    },
                );
            },
            WindowEvent::MouseDown(b) => {
                self.input.pressed = Option::Some(b);
                let target = route_pointer(self.input.captured, self.input.hovered);
                self.queue.push(
                    Event {
                        payload: EventPayload::Window(WindowEvent::MouseDown(b)),
                        meta: EventMeta {
                            origin: Entity::root(),
                            target,
                            propagation: Propagation::Ascending,
                            consumed: false,
                        },
                    },
                );
            },
            WindowEvent::MouseUp(b) => {
                self.input.pressed = Option::None;
                let target = route_pointer(self.input.captured, self.input.hovered);
                self.queue.push(
                    Event {
                        payload: EventPayload::Window(WindowEvent::MouseUp(b)),
                        meta: EventMeta {
                            origin: Entity::root(),
                            target,
                            propagation: Propagation::Ascending,
                            consumed: false,
                        },
                    },
                );
            },
            WindowEvent::KeyDown(k) => {
                let target = self.input.focused;
                self.queue.push(
                    Event {
                        payload: EventPayload::Window(WindowEvent::KeyDown(k)),
                        meta: EventMeta {
                            origin: Entity::root(),
                            target,
                            propagation: Propagation::Ascending,
                            consumed: false,
                        },
                    },
                );
            },
            WindowEvent::KeyUp(k) => {
                let target = self.input.focused;
                self.queue.push(
                    Event {
                        payload: EventPayload::Window(WindowEvent::KeyUp(k)),
                        meta: EventMeta {
                            origin: Entity::root(),
                            target,
                            propagation: Propagation::Ascending,
                            consumed: false,
                        },
                    },
                );
            },
            WindowEvent::ThemeChanged(m) => {
                self.queue.push(
                    Event {
                        payload: EventPayload::Window(WindowEvent::ThemeChanged(m)),
                        meta: EventMeta {
                            origin: Entity::root(),
                            target: Entity::root(),
                            propagation: Propagation::Subtree,
                            consumed: false,
                        },
                    },
                );
            },
            WindowEvent::Ime(iev) => {
                self.input.ime.step(iev);
            },
            _ => {},
        }
    }

    /// Registers a cooperative timer: single-shot or repeating, firing a
    /// synthetic event at its target on the main flush cycle once its
    /// deadline passes.
    pub fn add_timer(
        &mut self,
        interval_ms: u64,
        repeating: bool,
        target: Entity,
        action: TimerAction,
    ) -> (r: u32)
        requires
            old(self).wf(),
        ensures
            final(self).wf(),
            r == old(self).next_timer,
            final(self).timers@ == old(self).timers@.push(
                TimerEntry {
                    id: old(self).next_timer,
                    interval_ms,
                    deadline: crate::context::deadline_spec(old(self).now_ms, interval_ms),
                    repeating,
                    active: true,
                    target,
                    action,
                },
            ),
            final(self).tree == old(self).tree,
            final(self).models == old(self).models,
            final(self).queue == old(self).queue,
            final(self).bindings == old(self).bindings,
            final(self).rebuilds == old(self).rebuilds,
            final(self).input == old(self).input,
    {
        let id = self.next_timer;
        self.next_timer = if self.next_timer == 0xFFFF_FFFFu32 {
            0
        } else {
            self.next_timer + 1
        };
        let deadline = if self.now_ms > u64::MAX - interval_ms {
            u64::MAX
        } else {
            self.now_ms + interval_ms
        };
        self.timers.push(
            TimerEntry { id, interval_ms, deadline, repeating, active: true, target, action },
        );
        id
    }

    /// Cancels a timer. Cancellation is idempotent: cancelling an
    /// already-fired or already-cancelled timer — or an id that never
    /// existed — is a no-op.
    pub fn cancel_timer(&mut self, id: u32)
        requires
            old(self).wf(),
        ensures
            final(self).wf(),
            final(self).timers@.len() == old(self).timers@.len(),
            forall|i: int|
                0 <= i < old(self).timers@.len() ==> #[trigger] final(self).timers@[i] == (if old(
                    self,
                ).timers@[i].id == id {
                    TimerEntry { active: false, ..old(self).timers@[i] }
                } else {
                    old(self).timers@[i]
                }),
            final(self).tree == old(self).tree,
            final(self).models == old(self).models,
            final(self).queue == old(self).queue,
            final(self).input == old(self).input,
            final(self).bindings == old(self).bindings,
            final(self).rebuilds == old(self).rebuilds,
    {
        let n = self.timers.len();
        let ghost c0 = *self;
        let mut i: usize = 0;
        while i < n
            invariant
                self.wf(),
                n == self.timers@.len(),
                i <= n,
                self.tree == c0.tree,
                self.models == c0.models,
                self.queue == c0.queue,
                self.input == c0.input,
                self.bindings == c0.bindings,
                self.rebuilds == c0.rebuilds,
                forall|j: int|
                    0 <= j < i ==> #[trigger] self.timers@[j] == (if c0.timers@[j].id == id {
                        TimerEntry { active: false, ..c0.timers@[j] }
                    } else {
                        c0.timers@[j]
                    }),
                forall|j: int| i <= j < n ==> #[trigger] self.timers@[j] == c0.timers@[j],
            decreases n - i,
        {
            if self.timers[i].id == id {
                let t = &mut self.timers[i];
                t.active = false;
            }
            i = i + 1;
        }
    }
}

/// What one handler invocation does to its slot: the slot's kind is
/// preserved, a `take` fires only when consumption is allowed and only on
/// the slot's own payload kind, and the new state is the one the handler's
/// contract fixes — for views, as a function of the snapshot the
/// dispatcher gathered.
pub open spec fn slot_step_spec(
    m0: ModelSlot,
    m1: ModelSlot,
    payload: EventPayload,
    snap: ScrollbarCx,
    allow_take: bool,
    took: bool,
) -> bool {
    match m0 {
        ModelSlot::NoModel => m1 == m0 && !took,
        ModelSlot::Env(e0) => match m1 {
            ModelSlot::Env(e1) => crate::environment::env_step_rel(
                e0,
                e1,
                payload,
                allow_take,
                took,
            ),
            _ => false,
        },
        ModelSlot::Flag(f0) => match m1 {
            ModelSlot::Flag(f1) => {
                &&& took == (allow_take && (payload matches EventPayload::Flag(_)))
                &&& f1.checked == (match payload {
                    EventPayload::Flag(crate::events::FlagEvent::Toggle) => if allow_take {
                        !f0.checked
                    } else {
                        f0.checked
                    },
                    _ => f0.checked,
                })
            },
            _ => false,
        },
        ModelSlot::Scroll(s0) => match m1 {
            ModelSlot::Scroll(s1) => {
                &&& took == (allow_take && (payload matches EventPayload::Scroll(_)))
                &&& s1 == (if allow_take {
                    match payload {
                        EventPayload::Scroll(crate::events::ScrollEvent::SetValue(v)) => (
                        crate::models::ScrollModel {
                            value: crate::clamp_unit_spec(v as int) as i64,
                            ..s0
                        }),
                        EventPayload::Scroll(crate::events::ScrollEvent::SetRatio(v)) => (
                        crate::models::ScrollModel {
                            ratio: crate::clamp_unit_spec(v as int) as i64,
                            ..s0
                        }),
                        _ => s0,
                    }
                } else {
                    s0
                })
            },
            _ => false,
        },
        ModelSlot::ScrollbarView(s0) => match m1 {
            ModelSlot::ScrollbarView(s1) => {
                &&& !took
                &&& s1 == (match payload {
                    EventPayload::ScrollBar(
                        crate::events::ScrollBarEvent::SetScrollToCursor(f),
                    ) => (Scrollbar { scroll_to_cursor: f, ..s0 }),
                    EventPayload::Window(
                        WindowEvent::MouseDown(crate::events::MouseButton::Left),
                    ) => crate::scrollbar::mouse_down_spec(s0, snap).0,
                    EventPayload::Window(
                        WindowEvent::MouseUp(crate::events::MouseButton::Left),
                    ) => crate::scrollbar::mouse_up_spec(s0).0,
                    EventPayload::Window(WindowEvent::MouseMove(_, _)) =>
                        crate::scrollbar::mouse_move_spec(s0, snap).0,
                    _ => s0,
                })
            },
            _ => false,
        },
    }
}

/// An inert payload mutates nothing: a text payload is consumed by no
/// model slot and observed by none, so a delivery carrying one leaves the
/// slot exactly as it was and takes nothing — the premise of no-op
/// idempotence, which [`Context::lemma_noop_update_is_empty`] turns into
/// zero binding rebuilds.
pub proof fn lemma_inert_payload_leaves_slot(
    m0: ModelSlot,
    m1: ModelSlot,
    payload: EventPayload,
    snap: ScrollbarCx,
    allow_take: bool,
    took: bool,
)
    requires
        slot_step_spec(m0, m1, payload, snap, allow_take, took),
        payload matches EventPayload::Text(_),
    ensures
        m1 == m0,
        !took,
{
}

/// The layout a rebuild action writes: a thumb-position action stretches
/// before and after the unit-interval value along its axis, a thumb-size
/// action sets the extent to the value as a percentage, and a bare record
/// writes nothing. A value that is not in the unit interval writes nothing.
pub open spec fn apply_action_layout_spec(
    action: BindingAction,
    value: LensValue,
    r: LayoutRect,
) -> LayoutRect {
    match action {
        BindingAction::Record => r,
        BindingAction::ThumbPosition(o) => match value {
            LensValue::Micro(m) => if 0 <= m <= SCALE {
                match o {
                    Orientation::Horizontal => LayoutRect {
                        left: Units::Stretch(m),
                        right: Units::Stretch((SCALE - m) as i64),
                        ..r
                    },
                    Orientation::Vertical => LayoutRect {
                        top: Units::Stretch(m),
                        bottom: Units::Stretch((SCALE - m) as i64),
                        ..r
                    },
                }
            } else {
                r
            },
            _ => r,
        },
        BindingAction::ThumbSize(o) => match value {
            LensValue::Micro(m) => if 0 <= m <= SCALE {
                match o {
                    Orientation::Horizontal => LayoutRect {
                        width: Units::Percentage((m * 100) as i64),
                        ..r
                    },
                    Orientation::Vertical => LayoutRect {
                        height: Units::Percentage((m * 100) as i64),
                        ..r
                    },
                }
            } else {
                r
            },
            _ => r,
        },
    }
}

/// A rebuilt view's bounds joined into the dirty region.
pub open spec fn dirty_join_spec(dirty: Option<BoundingBox>, b: BoundingBox) -> BoundingBox {
    match dirty {
        Option::Some(d) => BoundingBox::union_spec(d, b),
        Option::None => b,
    }
}

/// A deadline on the dispatcher's clock, saturating at the clock's end.
pub open spec fn deadline_spec(now: u64, interval: u64) -> u64 {
    if now + interval > u64::MAX {
        u64::MAX
    } else {
        (now + interval) as u64
    }
}

/// Whether a timer fires when the clock reads `now`.
pub open spec fn timer_fired_spec(t: TimerEntry, now: u64) -> bool {
    t.active && t.deadline <= now
}

/// A timer's entry after the clock advanced to `now`: a fired repeating
/// timer is rescheduled one interval later; a fired one-shot timer is
/// deactivated.
pub open spec fn timer_after_spec(t: TimerEntry, now: u64) -> TimerEntry {
    if timer_fired_spec(t, now) {
        TimerEntry {
            deadline: deadline_spec(now, t.interval_ms),
            active: t.repeating,
            ..t
        }
    } else {
        t
    }
}

/// The synthetic event a fired timer enqueues.
pub open spec fn timer_event_spec(t: TimerEntry) -> Event {
    Event {
        payload: EventPayload::Text(TextEvent::ToggleCaret),
        meta: EventMeta {
            origin: t.target,
            target: t.target,
            propagation: Propagation::Direct,
            consumed: false,
        },
    }
}

/// The synthetic events of the timers among the first `k` that fire at
/// `now`, in timer order.
pub open spec fn timer_events_upto_spec(timers: Seq<TimerEntry>, now: u64, k: int) -> Seq<Event>
    decreases k,
    when 0 <= k
{
    if k <= 0 {
        Seq::empty()
    } else {
        timer_events_upto_spec(timers, now, k - 1) + (if timer_fired_spec(timers[k - 1], now) {
            seq![timer_event_spec(timers[k - 1])]
        } else {
            Seq::empty()
        })
    }
}

impl Context {
    /// Advances the dispatcher's clock: every due timer fires as a
    /// synthetic event appended to the queue in timer order, repeating
    /// timers are rescheduled, and one-shot timers deactivate.
    pub fn advance_time(&mut self, now: u64)
        requires
            old(self).wf(),
        ensures
            final(self).wf(),
            final(self).now_ms == now,
            final(self).timers@.len() == old(self).timers@.len(),
            forall|i: int|
                0 <= i < old(self).timers@.len() ==> #[trigger] final(self).timers@[i]
                    == timer_after_spec(old(self).timers@[i], now),
            final(self).queue@ == old(self).queue@ + timer_events_upto_spec(
                old(self).timers@,
                now,
                old(self).timers@.len() as int,
            ),
            final(self).tree == old(self).tree,
            final(self).models == old(self).models,
            final(self).bindings == old(self).bindings,
            final(self).rebuilds == old(self).rebuilds,
            final(self).input == old(self).input,
    {
        self.now_ms = now;
        let n = self.timers.len();
        let ghost c0 = *self;
        let mut i: usize = 0;
        while i < n
            invariant
                self.wf(),
                n == self.timers@.len(),
                i <= n,
                self.tree == c0.tree,
                self.models == c0.models,
                self.bindings == c0.bindings,
                self.rebuilds == c0.rebuilds,
                self.input == c0.input,
                self.now_ms == c0.now_ms,
                self.queue@ == c0.queue@ + timer_events_upto_spec(c0.timers@, now, i as int),
                forall|j: int|
                    0 <= j < i ==> #[trigger] self.timers@[j] == timer_after_spec(
                        c0.timers@[j],
                        now,
                    ),
                forall|j: int| i <= j < n ==> #[trigger] self.timers@[j] == c0.timers@[j],
            decreases n - i,
        {
            let fired = self.timers[i].active && self.timers[i].deadline <= now;
            if fired {
                let target = self.timers[i].target;
                let interval = self.timers[i].interval_ms;
                let repeating = self.timers[i].repeating;
                self.queue.push(
                    Event {
                        payload: EventPayload::Text(TextEvent::ToggleCaret),
                        meta: EventMeta {
                            origin: target,
                            target,
                            propagation: Propagation::Direct,
                            consumed: false,
                        },
                    },
                );
                let deadline = if now > u64::MAX - interval {
                    u64::MAX
                } else {
                    now + interval
                };
                let t = &mut self.timers[i];
                t.deadline = deadline;
                t.active = repeating;
            }
            proof {
                assert(self.queue@ =~= c0.queue@ + timer_events_upto_spec(
                    c0.timers@,
                    now,
                    i as int + 1,
                ));
            }
            i = i + 1;
        }
    }

    /// Builds the environment model on an entity, registering its caret
    /// timer; handling the environment's events is the template for any
    /// model's event contract.
    pub fn build_environment(&mut self, owner: Entity) -> (r: Option<u32>)
        requires
            old(self).wf(),
        ensures
            final(self).wf(),
            r is None ==> *final(self) == *old(self),
            old(self).tree.valid_spec(owner) ==> (r is Some),
            r matches Some(timer) ==> {
                &&& old(self).tree.valid_spec(owner)
                &&& timer == old(self).next_timer
                &&& final(self).timers@ == old(self).timers@.push(
                    TimerEntry {
                        id: timer,
                        interval_ms: 530,
                        deadline: deadline_spec(old(self).now_ms, 530),
                        repeating: true,
                        active: true,
                        target: owner,
                        action: TimerAction::ToggleCaret,
                    },
                )
                &&& final(self).models@[owner.index as int] matches ModelSlot::Env(env)
                    && env.caret_timer == timer && env.theme == crate::environment::Theme {
                    app_theme: crate::environment::AppTheme::BuiltIn(ThemeMode::LightMode),
                    sys_theme: Option::<ThemeMode>::None,
                } && (exists|sys: Option<Seq<char>>|
                    env.locale@ == crate::environment::resolve_locale_spec(sys))
                &&& (forall|i: int|
                    0 <= i < old(self).models@.len() && i != owner.index
                        ==> #[trigger] final(self).models@[i] == old(self).models@[i])
                &&& final(self).tree == old(self).tree
                &&& final(self).queue == old(self).queue
                &&& final(self).bindings == old(self).bindings
                &&& final(self).rebuilds == old(self).rebuilds
            },
    {
        if !self.tree.is_valid(owner) {
            return Option::None;
        }
        let timer = self.add_timer(530, true, owner, TimerAction::ToggleCaret);
        let env = Environment::new(timer);
        self.set_model(owner, ModelSlot::Env(env));
        Option::Some(timer)
    }

    /// Takes the dirty region accumulated since the renderer last asked,
    /// leaving it empty.
    pub fn take_dirty(&mut self) -> (r: Option<BoundingBox>)
        requires
            old(self).wf(),
        ensures
            final(self).wf(),
            r == old(self).dirty,
            *final(self) == (Context { dirty: Option::<BoundingBox>::None, ..*old(self) }),
    {
        let r = self.dirty;
        self.dirty = Option::None;
        r
    }
}

impl Scrollbar {
    /// Builds a scrollbar view under `parent`: the bar entity with its
    /// thumb child, the view state, and the two thumb bindings — position
    /// follows the value lens, size follows the ratio lens. `None` when
    /// `parent` is stale or the tree is full.
    pub fn new(
        cx: &mut Context,
        parent: Entity,
        value: Lens,
        ratio: Lens,
        orientation: Orientation,
        on_changing: Option<Entity>,
    ) -> (r: Option<Handle>)
        requires
            old(cx).wf(),
            lens_wf(value),
            lens_wf(ratio),
        ensures
            final(cx).wf(),
            r is None ==> *final(cx) == *old(cx),
            old(cx).tree.valid_spec(parent) && old(cx).tree.len() + 2 < 0x1_0000_0000 ==> (
            r is Some),
            r matches Some(h) ==> {
                &&& old(cx).tree.valid_spec(parent)
                &&& h.entity.index == old(cx).tree.len()
                &&& final(cx).tree.len() == old(cx).tree.len() + 2
                &&& final(cx).tree.valid_spec(h.entity)
                &&& final(cx).tree.valid_spec(
                    Entity { index: (h.entity.index + 1) as u32, generation: 0u32 },
                )
                &&& final(cx).tree.slots@[h.entity.index as int].children@ == seq![
                    (h.entity.index + 1) as u32,
                ]
                &&& final(cx).models@[h.entity.index as int] matches ModelSlot::ScrollbarView(sb)
                    && sb.value.root == value.root && sb.value.steps@ == value.steps@
                    && sb.orientation == orientation && sb.on_changing == on_changing && (
                sb.reference_points is None) && !sb.dragging && !sb.scroll_to_cursor
                &&& (forall|i: int|
                    0 <= i < old(cx).models@.len() ==> #[trigger] final(cx).models@[i] == old(
                        cx,
                    ).models@[i])
                &&& final(cx).bindings@.len() == old(cx).bindings@.len() + 2
                &&& (forall|j: int|
                    0 <= j < old(cx).bindings@.len() ==> #[trigger] final(cx).bindings@[j] == old(
                        cx,
                    ).bindings@[j])
                &&& final(cx).bindings@[old(cx).bindings@.len() as int].owner == h.entity.index + 1
                &&& final(cx).bindings@[old(cx).bindings@.len() as int].lens.root == value.root
                &&& final(cx).bindings@[old(cx).bindings@.len() as int].lens.steps@ == value.steps@
                &&& final(cx).bindings@[old(cx).bindings@.len() as int].action
                    == BindingAction::ThumbPosition(orientation)
                &&& final(cx).bindings@[old(cx).bindings@.len() as int + 1].owner == h.entity.index + 1
                &&& final(cx).bindings@[old(cx).bindings@.len() as int + 1].lens.root == ratio.root
                &&& final(cx).bindings@[old(cx).bindings@.len() as int + 1].lens.steps@ == ratio.steps@
                &&& final(cx).bindings@[old(cx).bindings@.len() as int + 1].action
                    == BindingAction::ThumbSize(orientation)
                &&& final(cx).queue == old(cx).queue
                &&& final(cx).rebuilds == old(cx).rebuilds
            },
    {
        if cx.tree.slots.len() >= 0xFFFF_FFFEusize {
            return Option::None;
        }
        let bar = match cx.create_entity(parent) {
            Option::Some(e) => e,
            Option::None => {
                return Option::None;
            },
        };
        let thumb = match cx.create_entity(bar) {
            Option::Some(e) => e,
            Option::None => {
                return Option::None;
            },
        };
        let sb = Scrollbar::with_config(value, orientation, on_changing);
        let value_for_binding = Lens { root: sb.value.root, steps: clone_steps(&sb.value.steps) };
        cx.set_model(bar, ModelSlot::ScrollbarView(sb));
        let _ = cx.bind(thumb, value_for_binding, BindingAction::ThumbPosition(orientation));
        let _ = cx.bind(thumb, ratio, BindingAction::ThumbSize(orientation));
        Option::Some(Handle { entity: bar })
    }
}

/// Copies a lens's projection steps; lenses are plain data.
fn clone_steps(steps: &Vec<LensStep>) -> (r: Vec<LensStep>)
    ensures
        r@ == steps@,
{
    let mut r: Vec<LensStep> = Vec::new();
    let n = steps.len();
    let mut i: usize = 0;
    while i < n
        invariant
            i <= n == steps@.len(),
            r@ == steps@.subrange(0, i as int),
        decreases n - i,
    {
        r.push(steps[i]);
        proof {
            assert(r@ =~= steps@.subrange(0, i as int + 1));
        }
        i = i + 1;
    }
    proof {
        assert(r@ =~= steps@);
    }
    r
}

impl Handle {
    /// Sets whether the scrollbar should move to the cursor when pressed,
    /// by emitting the configuration event to the view.
    pub fn scroll_to_cursor(self, cx: &mut Context, flag: bool) -> (r: Handle)
        requires
            old(cx).wf(),
        ensures
            final(cx).wf(),
            r == self,
            final(cx).queue@ == old(cx).queue@.push(
                Event {
                    payload: EventPayload::ScrollBar(
                        crate::events::ScrollBarEvent::SetScrollToCursor(flag),
                    ),
                    meta: EventMeta {
                        origin: self.entity,
                        target: self.entity,
                        propagation: Propagation::Direct,
                        consumed: false,
                    },
                },
            ),
    {
        cx.emit(
            Event {
                payload: EventPayload::ScrollBar(
                    crate::events::ScrollBarEvent::SetScrollToCursor(flag),
                ),
                meta: EventMeta {
                    origin: self.entity,
                    target: self.entity,
                    propagation: Propagation::Direct,
                    consumed: false,
                },
            },
        );
        self
    }
}

} // verus!
