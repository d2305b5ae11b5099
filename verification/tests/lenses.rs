use vizia::context::Context;
use vizia::entity::Entity;
use vizia::environment::{AppTheme, ThemeMode};
use vizia::lens::{Lens, LensStep, LensValue, ModelKind};

fn root() -> Entity {
    Entity { index: 0, generation: 0 }
}

#[test]
fn absent_model_projects_the_documented_default() {
    let mut cx = Context::new();
    let owner = cx.create_entity(root()).unwrap();
    // No flag model is mounted anywhere above the owner.
    let lens = Lens::new(ModelKind::FlagModel, LensStep::CheckedField);
    assert!(matches!(cx.eval_lens(&lens, owner.index), LensValue::Missing));
}

#[test]
fn lens_composition_applies_paths_in_order() {
    let mut cx = Context::new();
    let owner = cx.create_entity(root()).unwrap();
    cx.build_environment(owner).unwrap();
    let theme = Lens::new(ModelKind::EnvironmentModel, LensStep::ThemeField);
    let app_theme = Lens::new(ModelKind::EnvironmentModel, LensStep::AppThemeField);
    let composed = theme.then(app_theme);
    match cx.eval_lens(&composed, owner.index) {
        LensValue::AppThemeValue(t) => assert_eq!(t, AppTheme::BuiltIn(ThemeMode::LightMode)),
        other => panic!("unexpected projection: {:?}", other),
    }
}

#[test]
fn reading_through_an_unset_option_yields_the_default_mode() {
    let mut cx = Context::new();
    let owner = cx.create_entity(root()).unwrap();
    cx.build_environment(owner).unwrap();
    let lens = Lens::new(ModelKind::EnvironmentModel, LensStep::ThemeField)
        .then(Lens::new(ModelKind::EnvironmentModel, LensStep::SysThemeField))
        .then(Lens::new(ModelKind::EnvironmentModel, LensStep::UnwrapOrDefaultMode));
    match cx.eval_lens(&lens, owner.index) {
        LensValue::ModeValue(m) => assert_eq!(m, ThemeMode::LightMode),
        other => panic!("unexpected projection: {:?}", other),
    }
}

#[test]
fn a_step_that_does_not_fit_projects_missing_not_a_panic() {
    let mut cx = Context::new();
    let owner = cx.create_entity(root()).unwrap();
    cx.build_environment(owner).unwrap();
    let lens = Lens::new(ModelKind::EnvironmentModel, LensStep::CheckedField);
    assert!(matches!(cx.eval_lens(&lens, owner.index), LensValue::Missing));
}

#[test]
fn nearest_ancestor_model_wins() {
    let mut cx = Context::new();
    let outer = cx.create_entity(root()).unwrap();
    let inner = cx.create_entity(outer).unwrap();
    let leaf = cx.create_entity(inner).unwrap();
    cx.set_model(
        outer,
        vizia::models::ModelSlot::Flag(vizia::models::FlagModel { checked: false }),
    );
    cx.set_model(
        inner,
        vizia::models::ModelSlot::Flag(vizia::models::FlagModel { checked: true }),
    );
    let lens = Lens::new(ModelKind::FlagModel, LensStep::CheckedField);
    assert!(matches!(cx.eval_lens(&lens, leaf.index), LensValue::Bool(true)));
    assert!(matches!(cx.eval_lens(&lens, outer.index), LensValue::Bool(false)));
}
