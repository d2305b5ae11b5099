use vizia::context::Context;
use vizia::entity::Entity;
use vizia::environment::{AppTheme, EnvironmentEvent, Theme, ThemeMode};
use vizia::events::{Event, EventMeta, EventPayload, Propagation, WindowEvent};
use vizia::ime::{ImeEvent, ImeState};
use vizia::models::ModelSlot;
use vizia::units::{parse_stylesheet, parse_unit, parse_units, StyleError, Units};

fn direct(payload: EventPayload, target: Entity) -> Event {
    Event {
        payload,
        meta: EventMeta {
            origin: Entity { index: 0, generation: 0 },
            target,
            propagation: Propagation::Direct,
            consumed: false,
        },
    }
}

#[test]
fn theme_resolution_follows_selection_and_system() {
    let mut theme = Theme::default();
    assert_eq!(theme.get_current_theme(), ThemeMode::LightMode);
    theme.app_theme = AppTheme::BuiltIn(ThemeMode::DarkMode);
    assert_eq!(theme.get_current_theme(), ThemeMode::DarkMode);
    theme.app_theme = AppTheme::System;
    assert_eq!(theme.get_current_theme(), ThemeMode::LightMode);
    theme.sys_theme = Some(ThemeMode::DarkMode);
    assert_eq!(theme.get_current_theme(), ThemeMode::DarkMode);
}

#[test]
fn toggle_theme_mode_flips_and_applies() {
    let mut cx = Context::new();
    let root = Entity { index: 0, generation: 0 };
    let owner = cx.create_entity(root).unwrap();
    cx.build_environment(owner).unwrap();
    cx.emit(direct(
        EventPayload::Environment(EnvironmentEvent::ToggleThemeMode),
        owner,
    ));
    cx.flush();
    match &cx.models[owner.index as usize] {
        ModelSlot::Env(env) => {
            assert_eq!(env.theme.app_theme, AppTheme::BuiltIn(ThemeMode::DarkMode));
        }
        _ => panic!("environment expected"),
    }
    assert_eq!(cx.theme_mode, ThemeMode::DarkMode);
}

#[test]
fn system_theme_change_applies_only_when_following_system() {
    let mut cx = Context::new();
    let root = Entity { index: 0, generation: 0 };
    let owner = cx.create_entity(root).unwrap();
    cx.build_environment(owner).unwrap();
    // Not following the system: recorded but not applied.
    cx.process_window_event(WindowEvent::ThemeChanged(ThemeMode::DarkMode));
    cx.flush();
    assert_eq!(cx.theme_mode, ThemeMode::LightMode);
    match &cx.models[owner.index as usize] {
        ModelSlot::Env(env) => assert_eq!(env.theme.sys_theme, Some(ThemeMode::DarkMode)),
        _ => panic!("environment expected"),
    }
    // Following the system: the reported mode is applied.
    cx.emit(direct(
        EventPayload::Environment(EnvironmentEvent::SetThemeMode(AppTheme::System)),
        owner,
    ));
    cx.flush();
    assert_eq!(cx.theme_mode, ThemeMode::DarkMode);
}

#[test]
fn set_locale_stores_the_tag() {
    let mut cx = Context::new();
    let root = Entity { index: 0, generation: 0 };
    let owner = cx.create_entity(root).unwrap();
    cx.build_environment(owner).unwrap();
    cx.emit(direct(
        EventPayload::Environment(EnvironmentEvent::SetLocale(String::from("de-AT"))),
        owner,
    ));
    cx.flush();
    match &cx.models[owner.index as usize] {
        ModelSlot::Env(env) => assert_eq!(env.locale, "de-AT"),
        _ => panic!("environment expected"),
    }
}

#[test]
fn use_system_locale_yields_canonical_or_fallback_tag() {
    let mut cx = Context::new();
    let root = Entity { index: 0, generation: 0 };
    let owner = cx.create_entity(root).unwrap();
    cx.build_environment(owner).unwrap();
    cx.emit(direct(
        EventPayload::Environment(EnvironmentEvent::UseSystemLocale),
        owner,
    ));
    cx.flush();
    match &cx.models[owner.index as usize] {
        ModelSlot::Env(env) => {
            // Whatever the machine reports, the stored tag parses as a
            // language identifier (the fallback "und" does too).
            assert!(env.locale.parse::<unic_langid::LanguageIdentifier>().is_ok());
        }
        _ => panic!("environment expected"),
    }
}

#[test]
fn locale_resolution_canonicalizes_or_falls_back() {
    // Parsing normalizes separators and casing.
    assert_eq!(
        vizia::environment::resolve_locale(Some(String::from("eN_latn_Us"))),
        "en-Latn-US"
    );
    assert_eq!(
        vizia::environment::resolve_locale(Some(String::from("de-AT"))),
        "de-AT"
    );
    // A bogus tag and an absent report both fall back to "und".
    assert_eq!(
        vizia::environment::resolve_locale(Some(String::from("not a tag"))),
        "und"
    );
    assert_eq!(vizia::environment::resolve_locale(None), "und");
}

#[test]
fn ime_end_composition_while_inactive_is_a_noop() {
    let mut cx = Context::new();
    assert!(cx.input.ime.is_inactive());
    cx.process_window_event(WindowEvent::Ime(ImeEvent::EndComposition));
    assert!(cx.input.ime.is_inactive());
    assert_eq!(cx.input.ime, ImeState::Inactive);
}

#[test]
fn ime_well_formed_sequence_walks_the_states() {
    let mut state = ImeState::default();
    assert!(state.is_inactive());
    state.step(ImeEvent::StartComposition);
    assert_eq!(state, ImeState::StartComposition);
    state.step(ImeEvent::Composition {
        preedit: Some(String::from("ni")),
        cursor_pos: Some((0, 2)),
    });
    assert!(state.is_composing());
    state.step(ImeEvent::EndComposition);
    assert_eq!(state, ImeState::EndComposition);
    state.acknowledge();
    assert!(state.is_inactive());
}

#[test]
fn unit_tokens_parse_to_fixed_point_values() {
    assert_eq!(parse_unit(&b"auto".to_vec()), Some(Units::Auto));
    assert_eq!(parse_unit(&b"1.5px".to_vec()), Some(Units::Pixels(1_500_000)));
    assert_eq!(parse_unit(&b"50%".to_vec()), Some(Units::Percentage(50_000_000)));
    assert_eq!(parse_unit(&b"2s".to_vec()), Some(Units::Stretch(2_000_000)));
    assert_eq!(parse_unit(&b"-3px".to_vec()), Some(Units::Pixels(-3_000_000)));
    assert_eq!(parse_unit(&b"0.000001s".to_vec()), Some(Units::Stretch(1)));
    assert_eq!(parse_unit(&b"px".to_vec()), None);
    // Absolute lengths convert to pixels by their fixed ratios, truncated.
    assert_eq!(parse_unit(&b"1in".to_vec()), Some(Units::Pixels(96_000_000)));
    assert_eq!(parse_unit(&b"1cm".to_vec()), Some(Units::Pixels(37_795_275)));
    assert_eq!(parse_unit(&b"1mm".to_vec()), Some(Units::Pixels(3_779_527)));
    assert_eq!(parse_unit(&b"1q".to_vec()), Some(Units::Pixels(944_881)));
    assert_eq!(parse_unit(&b"1pt".to_vec()), Some(Units::Pixels(1_333_333)));
    assert_eq!(parse_unit(&b"1pc".to_vec()), Some(Units::Pixels(16_000_000)));
    assert_eq!(parse_unit(&b"-2in".to_vec()), Some(Units::Pixels(-192_000_000)));
    assert_eq!(parse_unit(&b"12".to_vec()), None);
    assert_eq!(parse_unit(&b"1.2.3px".to_vec()), None);
    assert_eq!(parse_unit(&b"autox".to_vec()), None);
}

#[test]
fn units_list_parses_until_first_failure() {
    let decls = vec![b"auto".to_vec(), b"10px".to_vec(), b"oops".to_vec(), b"2s".to_vec()];
    let parsed = parse_units(&decls);
    assert_eq!(parsed, vec![Units::Auto, Units::Pixels(10_000_000)]);
}

#[test]
fn stylesheet_reload_reports_first_bad_declaration() {
    let decls = vec![b"auto".to_vec(), b"10pxx".to_vec()];
    assert_eq!(parse_stylesheet(&decls), Err(StyleError { index: 1 }));

    let mut cx = Context::new();
    cx.stylesheet = vec![b"25%".to_vec(), b"1s".to_vec()];
    assert_eq!(cx.reload_styles(), Ok(()));
    assert_eq!(cx.styles, vec![Units::Percentage(25_000_000), Units::Stretch(1_000_000)]);
    // A broken edit keeps the previous styles and records the error.
    cx.stylesheet = vec![b"25%".to_vec(), b"bad".to_vec()];
    assert_eq!(cx.reload_styles(), Err(StyleError { index: 1 }));
    assert_eq!(cx.styles, vec![Units::Percentage(25_000_000), Units::Stretch(1_000_000)]);
    assert_eq!(cx.style_error, Some(StyleError { index: 1 }));
}
