//! Lenses: pure, composable read paths into model state.
//!
//! A lens is a stateless descriptor — a root model kind plus a sequence of
//! field-projection steps — with structural equality, so dependency sets can
//! be deduplicated. Projection is total: a step that does not fit the value
//! it is applied to yields [`LensValue::Missing`] instead of failing, which
//! is what a read through an absent or conditionally mounted model returns.
use vstd::prelude::*;
use crate::environment::AppTheme;
use crate::environment::Theme;
use crate::environment::ThemeMode;
use crate::environment::current_theme_spec;
use crate::models::ModelSlot;

verus! {

/// The kind of model a lens starts from.
#[derive(Clone, Copy, PartialEq, Eq, Structural, Debug)]
pub enum ModelKind {
    EnvironmentModel,
    FlagModel,
    ScrollModel,
}

/// One field-projection step of a lens.
#[derive(Clone, Copy, PartialEq, Eq, Structural, Debug)]
pub enum LensStep {
    /// Environment -> locale string.
    LocaleField,
    /// Environment -> theme.
    ThemeField,
    /// Theme -> application theme selection.
    AppThemeField,
    /// Theme -> reported system theme.
    SysThemeField,
    /// Theme -> the mode it resolves to.
    CurrentTheme,
    /// Optional mode -> mode, with the light default when absent.
    UnwrapOrDefaultMode,
    /// Flag model -> checked.
    CheckedField,
    /// Scroll model -> position.
    ValueField,
    /// Scroll model -> visible ratio.
    RatioField,
}

/// A value projected out of a model by a lens.
#[derive(Debug)]
pub enum LensValue {
    /// The documented default when the model is absent or a step does not
    /// fit the value it was applied to.
    Missing,
    Bool(bool),
    /// A unit-interval value in millionths.
    Micro(i64),
    Text(String),
    ThemeValue(Theme),
    AppThemeValue(AppTheme),
    ModeValue(ThemeMode),
    OptModeValue(Option<ThemeMode>),
}

/// A read path: a root model kind and the projection steps applied to it.
/// The first step projects a field out of the root model; later steps
/// project further.
#[derive(Debug)]
pub struct Lens {
    pub root: ModelKind,
    pub steps: Vec<LensStep>,
}

/// A lens must have at least one step: the first one picks the field read
/// out of the root model.
pub open spec fn lens_wf(l: Lens) -> bool {
    l.steps@.len() >= 1
}

/// What the first step of a lens projects out of a model.
pub open spec fn root_project_spec(m: ModelSlot, step: LensStep) -> LensValue {
    match m {
        ModelSlot::Env(e) => match step {
            LensStep::LocaleField => LensValue::Text(e.locale),
            LensStep::ThemeField => LensValue::ThemeValue(e.theme),
            LensStep::CurrentTheme => LensValue::ModeValue(current_theme_spec(e.theme)),
            _ => LensValue::Missing,
        },
        ModelSlot::Flag(f) => match step {
            LensStep::CheckedField => LensValue::Bool(f.checked),
            _ => LensValue::Missing,
        },
        ModelSlot::Scroll(s) => match step {
            LensStep::ValueField => LensValue::Micro(s.value),
            LensStep::RatioField => LensValue::Micro(s.ratio),
            _ => LensValue::Missing,
        },
        _ => LensValue::Missing,
    }
}

/// What one step projects out of an already-projected value; a step that
/// does not fit yields [`LensValue::Missing`].
pub open spec fn apply_step_spec(v: LensValue, step: LensStep) -> LensValue {
    match v {
        LensValue::ThemeValue(t) => match step {
            LensStep::AppThemeField => LensValue::AppThemeValue(t.app_theme),
            LensStep::SysThemeField => LensValue::OptModeValue(t.sys_theme),
            LensStep::CurrentTheme => LensValue::ModeValue(current_theme_spec(t)),
            _ => LensValue::Missing,
        },
        LensValue::OptModeValue(o) => match step {
            LensStep::UnwrapOrDefaultMode => match o {
                Option::Some(m) => LensValue::ModeValue(m),
                Option::None => LensValue::ModeValue(ThemeMode::LightMode),
            },
            _ => LensValue::Missing,
        },
        _ => LensValue::Missing,
    }
}

/// Folds the steps from position `i` on over a projected value.
pub open spec fn eval_steps_spec(v: LensValue, steps: Seq<LensStep>, i: int) -> LensValue
    decreases steps.len() - i,
    when 0 <= i
{
    if i >= steps.len() {
        v
    } else {
        eval_steps_spec(apply_step_spec(v, steps[i]), steps, i + 1)
    }
}

/// What a lens projects out of the model it resolved to: the first step
/// reads the root model, the rest fold over the result.
pub open spec fn eval_on_model_spec(m: ModelSlot, lens: Lens) -> LensValue {
    if lens.steps@.len() == 0 {
        LensValue::Missing
    } else {
        eval_steps_spec(root_project_spec(m, lens.steps@[0]), lens.steps@, 1)
    }
}

/// Structural equality of projected values; owned strings compare by
/// contents.
pub open spec fn lens_value_eq_spec(a: LensValue, b: LensValue) -> bool {
    match (a, b) {
        (LensValue::Missing, LensValue::Missing) => true,
        (LensValue::Bool(x), LensValue::Bool(y)) => x == y,
        (LensValue::Micro(x), LensValue::Micro(y)) => x == y,
        (LensValue::Text(x), LensValue::Text(y)) => x@ == y@,
        (LensValue::ThemeValue(x), LensValue::ThemeValue(y)) => x == y,
        (LensValue::AppThemeValue(x), LensValue::AppThemeValue(y)) => x == y,
        (LensValue::ModeValue(x), LensValue::ModeValue(y)) => x == y,
        (LensValue::OptModeValue(x), LensValue::OptModeValue(y)) => x == y,
        _ => false,
    }
}

/// Compares two projected values; a binding rebuilds only when this is
/// false for the last observed and the recomputed value.
pub fn lens_value_eq(a: &LensValue, b: &LensValue) -> (r: bool)
    ensures
        r == lens_value_eq_spec(*a, *b),
{
    match (a, b) {
        (LensValue::Missing, LensValue::Missing) => true,
        (LensValue::Bool(x), LensValue::Bool(y)) => *x == *y,
        (LensValue::Micro(x), LensValue::Micro(y)) => *x == *y,
        (LensValue::Text(x), LensValue::Text(y)) => *x == *y,
        (LensValue::ThemeValue(x), LensValue::ThemeValue(y)) => {
            x.app_theme == y.app_theme && match (x.sys_theme, y.sys_theme) {
                (Option::Some(m), Option::Some(n)) => m == n,
                (Option::None, Option::None) => true,
                _ => false,
            }
        },
        (LensValue::AppThemeValue(x), LensValue::AppThemeValue(y)) => *x == *y,
        (LensValue::ModeValue(x), LensValue::ModeValue(y)) => *x == *y,
        (LensValue::OptModeValue(x), LensValue::OptModeValue(y)) => match (x, y) {
            (Option::Some(m), Option::Some(n)) => *m == *n,
            (Option::None, Option::None) => true,
            _ => false,
        },
        _ => false,
    }
}

impl Lens {
    /// A one-step lens.
    pub fn new(root: ModelKind, step: LensStep) -> (r: Lens)
        ensures
            r.root == root,
            r.steps@ == seq![step],
            lens_wf(r),
    {
        let mut steps: Vec<LensStep> = Vec::new();
        steps.push(step);
        Lens { root, steps }
    }

    /// Composes two read paths: the result applies `self`'s steps, then
    /// `other`'s. Composition never re-enters the dispatcher: a lens is
    /// plain data.
    pub fn then(self, other: Lens) -> (r: Lens)
        ensures
            r.root == self.root,
            r.steps@ == self.steps@ + other.steps@,
    {
        let mut steps = self.steps;
        let mut more = other.steps;
        steps.append(&mut more);
        Lens { root: self.root, steps }
    }
}

/// Folding a concatenation of step sequences equals folding one after the
/// other: composing lenses composes their projections.
pub proof fn lemma_eval_steps_concat(v: LensValue, s1: Seq<LensStep>, s2: Seq<LensStep>, i: int)
    requires
        0 <= i <= s1.len(),
    ensures
        eval_steps_spec(v, s1 + s2, i) == eval_steps_spec(eval_steps_spec(v, s1, i), s2, 0),
    decreases s1.len() - i,
{
    if i < s1.len() {
        assert((s1 + s2)[i] == s1[i]);
        lemma_eval_steps_concat(apply_step_spec(v, s1[i]), s1, s2, i + 1);
    } else {
        lemma_eval_steps_shift(v, s1 + s2, s2, i);
    }
}

/// If `t` matches `s` from position `i` on, folding `s` from `i` is folding
/// `t` from its start.
proof fn lemma_eval_steps_shift(v: LensValue, s: Seq<LensStep>, t: Seq<LensStep>, i: int)
    requires
        0 <= i,
        s.len() == i + t.len(),
        forall|k: int| 0 <= k < t.len() ==> s[i + k] == t[k],
    ensures
        eval_steps_spec(v, s, i) == eval_steps_spec(v, t, 0),
    decreases t.len(),
{
    if t.len() > 0 {
        assert(s[i] == t[0]);
        lemma_eval_steps_shift(apply_step_spec(v, t[0]), s, t.drop_first(), i + 1);
        assert(eval_steps_spec(v, t, 0) == eval_steps_spec(apply_step_spec(v, t[0]), t, 1));
        lemma_eval_steps_shift(apply_step_spec(v, t[0]), t, t.drop_first(), 1);
    }
}

/// Lens composition is associative: composing the step sequences either way
/// yields the same read path, hence the same projection everywhere.
pub proof fn lemma_then_associative(s1: Seq<LensStep>, s2: Seq<LensStep>, s3: Seq<LensStep>)
    ensures
        (s1 + s2) + s3 == s1 + (s2 + s3),
{
    assert((s1 + s2) + s3 =~= s1 + (s2 + s3));
}

} // verus!
