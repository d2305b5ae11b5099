//! A model for system-specific state which can be read by any model or view:
//! the application locale and the current theme. Handling its events is the
//! template for any model's `event` contract.
use vstd::prelude::*;
use crate::events::Effect;
use crate::events::EventPayload;
use crate::events::WindowEvent;

verus! {

/// The current built-in theme mode.
#[derive(Debug, Clone, Copy, PartialEq, Eq, Structural)]
pub enum ThemeMode {
    /// The built-in dark theme.
    DarkMode,
    /// The built-in light theme.
    LightMode,
}

impl Default for ThemeMode {
    /// The light theme is the default.
    fn default() -> (r: Self)
        ensures
            r == ThemeMode::LightMode,
    {
        ThemeMode::LightMode
    }
}

/// The theme selection of the application.
#[derive(Debug, Clone, Copy, PartialEq, Eq, Structural)]
pub enum AppTheme {
    /// Follow the system theme where the platform reports one.
    System,
    /// One of the built-in themes.
    BuiltIn(ThemeMode),
}

/// The theme used by the application: what was selected, and what the system
/// last reported.
#[derive(Debug, Clone, Copy, PartialEq, Eq, Structural)]
pub struct Theme {
    /// The current application theme selection.
    pub app_theme: AppTheme,
    /// The current system theme, once the platform reported one.
    pub sys_theme: Option<ThemeMode>,
}

/// The theme mode a [`Theme`] resolves to: the selected built-in mode, or
/// the system mode (defaulting to light while unreported) when following the
/// system.
pub open spec fn current_theme_spec(t: Theme) -> ThemeMode {
    match t.app_theme {
        AppTheme::System => match t.sys_theme {
            Option::Some(m) => m,
            Option::None => ThemeMode::LightMode,
        },
        AppTheme::BuiltIn(m) => m,
    }
}

/// The opposite built-in mode, used when toggling.
pub open spec fn flipped_theme_spec(m: ThemeMode) -> ThemeMode {
    match m {
        ThemeMode::DarkMode => ThemeMode::LightMode,
        ThemeMode::LightMode => ThemeMode::DarkMode,
    }
}

impl Default for Theme {
    /// Starts on the built-in light theme with no system theme reported.
    fn default() -> (r: Self)
        ensures
            r == (Theme {
                app_theme: AppTheme::BuiltIn(ThemeMode::LightMode),
                sys_theme: Option::<ThemeMode>::None,
            }),
    {
        Theme { app_theme: AppTheme::BuiltIn(ThemeMode::LightMode), sys_theme: Option::None }
    }
}

impl Theme {
    /// Returns the theme mode the application currently resolves to.
    pub fn get_current_theme(&self) -> (r: ThemeMode)
        ensures
            r == current_theme_spec(*self),
    {
        match self.app_theme {
            AppTheme::System => match self.sys_theme {
                Option::Some(m) => m,
                Option::None => ThemeMode::LightMode,
            },
            AppTheme::BuiltIn(theme) => theme,
        }
    }
}

/// Events for setting the state in the [`Environment`].
#[derive(Debug)]
pub enum EnvironmentEvent {
    /// Set the locale used for the whole application.
    SetLocale(String),
    /// Set the default theme mode.
    SetThemeMode(AppTheme),
    /// Reset the locale to use the system-provided locale.
    UseSystemLocale,
    /// Alternate between dark and light theme modes.
    ToggleThemeMode,
}

/// The canonical form of a locale string, when it is a well-formed language
/// identifier: the result of parsing it and writing it back out. It depends
/// on the characters of the string alone.
pub uninterp spec fn canonical_locale_of(s: Seq<char>) -> Option<Seq<char>>;

/// Relies on `sys_locale::get_locale`: the system's preferred locale as a
/// BCP 47 language tag, or `None` when it cannot be determined. The result
/// depends on the machine's environment, so nothing further is assumed of
/// it.
#[verifier::external_body]
fn system_locale() -> (r: Option<String>) {
    sys_locale::get_locale()
}

/// Relies on `unic_langid::LanguageIdentifier`'s `FromStr` and `Display`
/// impls: parsing normalizes separators and casing of a well-formed language
/// identifier and fails on a bogus one, and both steps depend on the input
/// string alone.
#[verifier::external_body]
fn canonical_locale(s: &str) -> (r: Option<String>)
    ensures
        match r {
            Option::Some(c) => canonical_locale_of(s@) == Option::Some(c@),
            Option::None => canonical_locale_of(s@) is None,
        },
{
    s.parse::<unic_langid::LanguageIdentifier>().ok().map(|l| l.to_string())
}

/// The locale used when none is available: the undetermined language tag.
pub open spec fn default_locale_spec() -> Seq<char> {
    "und"@
}

/// The view of an optional owned string.
pub open spec fn opt_string_view(s: Option<String>) -> Option<Seq<char>> {
    match s {
        Option::Some(v) => Option::Some(v@),
        Option::None => Option::None,
    }
}

/// The locale the application settles on given what the system reported:
/// the canonical form of the reported tag, or the undetermined tag when
/// nothing was reported or the report does not parse.
pub open spec fn resolve_locale_spec(sys: Option<Seq<char>>) -> Seq<char> {
    match sys {
        Option::Some(s) => match canonical_locale_of(s) {
            Option::Some(c) => c,
            Option::None => default_locale_spec(),
        },
        Option::None => default_locale_spec(),
    }
}

/// The fallback locale as an owned string.
fn default_locale() -> (r: String)
    ensures
        r@ == default_locale_spec(),
{
    "und".to_owned()
}

/// Canonicalizes what the system reported, falling back to the undetermined
/// locale.
pub fn resolve_locale(sys: Option<String>) -> (r: String)
    ensures
        r@ == resolve_locale_spec(opt_string_view(sys)),
{
    match sys {
        Option::Some(s) => match canonical_locale(s.as_str()) {
            Option::Some(c) => c,
            Option::None => default_locale(),
        },
        Option::None => default_locale(),
    }
}

/// What one delivery does to the environment model: when consumption is
/// allowed, an environment event is taken and mutates per its kind; a
/// system theme change is observed without being consumed; any other
/// payload leaves the model untouched.
pub open spec fn env_step_rel(
    e0: Environment,
    e1: Environment,
    payload: EventPayload,
    allow_take: bool,
    took: bool,
) -> bool {
    match payload {
        EventPayload::Environment(ev) => if allow_take {
            &&& took
            &&& match ev {
                EnvironmentEvent::SetLocale(l) => e1.locale@ == l@ && e1.theme == e0.theme
                    && e1.caret_timer == e0.caret_timer,
                EnvironmentEvent::SetThemeMode(t) => e1.theme == (Theme {
                    app_theme: t,
                    ..e0.theme
                }) && e1.locale@ == e0.locale@ && e1.caret_timer == e0.caret_timer,
                EnvironmentEvent::UseSystemLocale => (exists|sys: Option<Seq<char>>|
                    e1.locale@ == resolve_locale_spec(sys)) && e1.theme == e0.theme
                    && e1.caret_timer == e0.caret_timer,
                EnvironmentEvent::ToggleThemeMode => e1.theme == (Theme {
                    app_theme: AppTheme::BuiltIn(flipped_theme_spec(current_theme_spec(e0.theme))),
                    ..e0.theme
                }) && e1.locale@ == e0.locale@ && e1.caret_timer == e0.caret_timer,
            }
        } else {
            !took && e1 == e0
        },
        EventPayload::Window(WindowEvent::ThemeChanged(m)) => !took && e1.theme == (Theme {
            sys_theme: Option::Some(m),
            ..e0.theme
        }) && e1.locale@ == e0.locale@ && e1.caret_timer == e0.caret_timer,
        _ => !took && e1 == e0,
    }
}

/// A model for system-specific state which can be read by any model or view.
#[derive(Debug)]
pub struct Environment {
    /// The locale used for localization, as a language tag: a set-locale
    /// event stores the tag as given, while system-locale resolution
    /// stores the canonical form.
    pub locale: String,
    /// Current application and system theme.
    pub theme: Theme,
    /// The timer used to blink the caret of a textbox.
    pub caret_timer: u32,
}

impl Environment {
    /// Builds the environment: the locale starts from whatever the system
    /// reports, and the theme from its default. The caret timer is
    /// registered by the owning context and handed in here.
    pub fn new(caret_timer: u32) -> (r: Environment)
        ensures
            exists|sys: Option<Seq<char>>| r.locale@ == resolve_locale_spec(sys),
            r.theme == (Theme {
                app_theme: AppTheme::BuiltIn(ThemeMode::LightMode),
                sys_theme: Option::<ThemeMode>::None,
            }),
            r.caret_timer == caret_timer,
    {
        let sys = system_locale();
        let locale = resolve_locale(sys);
        proof {
            assert(locale@ == resolve_locale_spec(opt_string_view(sys)));
        }
        Environment { locale, theme: Theme::default(), caret_timer }
    }

    /// The `take` half of the model's event handler: consumes every
    /// [`EnvironmentEvent`] and mutates the environment accordingly,
    /// requesting theme application and a style reload where the resolved
    /// theme may have changed.
    pub fn take_event(&mut self, payload: &EventPayload, fx: &mut Vec<Effect>) -> (took: bool)
        ensures
            took == (payload matches EventPayload::Environment(_)),
            match payload {
                EventPayload::Environment(ev) => match ev {
                    EnvironmentEvent::SetLocale(l) => {
                        &&& final(self).locale@ == l@
                        &&& final(self).theme == old(self).theme
                        &&& final(self).caret_timer == old(self).caret_timer
                        &&& final(fx)@ == old(fx)@
                    },
                    EnvironmentEvent::SetThemeMode(t) => {
                        &&& final(self).theme == (Theme { app_theme: *t, ..old(self).theme })
                        &&& final(self).locale@ == old(self).locale@
                        &&& final(self).caret_timer == old(self).caret_timer
                        &&& final(fx)@ == old(fx)@.push(
                            Effect::SetThemeMode(current_theme_spec(final(self).theme)),
                        ).push(Effect::ReloadStyles)
                    },
                    EnvironmentEvent::UseSystemLocale => {
                        &&& (exists|sys: Option<Seq<char>>|
                            final(self).locale@ == resolve_locale_spec(sys))
                        &&& final(self).theme == old(self).theme
                        &&& final(self).caret_timer == old(self).caret_timer
                        &&& final(fx)@ == old(fx)@
                    },
                    EnvironmentEvent::ToggleThemeMode => {
                        &&& final(self).theme == (Theme {
                            app_theme: AppTheme::BuiltIn(
                                flipped_theme_spec(current_theme_spec(old(self).theme)),
                            ),
                            ..old(self).theme
                        })
                        &&& final(self).locale@ == old(self).locale@
                        &&& final(self).caret_timer == old(self).caret_timer
                        &&& final(fx)@ == old(fx)@.push(
                            Effect::SetThemeMode(
                                flipped_theme_spec(current_theme_spec(old(self).theme)),
                            ),
                        ).push(Effect::ReloadStyles)
                    },
                },
                _ => *final(self) == *old(self) && final(fx)@ == old(fx)@,
            },
    {
        match payload {
            EventPayload::Environment(ev) => {
                match ev {
                    EnvironmentEvent::SetLocale(l) => {
                        self.locale = l.clone();
                    },
                    EnvironmentEvent::SetThemeMode(t) => {
                        self.theme.app_theme = *t;
                        fx.push(Effect::SetThemeMode(self.theme.get_current_theme()));
                        fx.push(Effect::ReloadStyles);
                    },
                    EnvironmentEvent::UseSystemLocale => {
                        let sys = system_locale();
                        self.locale = resolve_locale(sys);
                    },
                    EnvironmentEvent::ToggleThemeMode => {
                        let flipped = match self.theme.get_current_theme() {
                            ThemeMode::DarkMode => ThemeMode::LightMode,
                            ThemeMode::LightMode => ThemeMode::DarkMode,
                        };
                        self.theme.app_theme = AppTheme::BuiltIn(flipped);
                        fx.push(Effect::SetThemeMode(flipped));
                        fx.push(Effect::ReloadStyles);
                    },
                }
                true
            },
            _ => false,
        }
    }

    /// The `map` half of the model's event handler: observes window events
    /// without consuming them. A system theme change is recorded, and when
    /// the application follows the system theme it is applied and the styles
    /// reloaded.
    pub fn map_event(&mut self, payload: &EventPayload, fx: &mut Vec<Effect>)
        ensures
            match payload {
                EventPayload::Window(WindowEvent::ThemeChanged(m)) => {
                    &&& final(self).theme == (Theme {
                        sys_theme: Option::Some(*m),
                        ..old(self).theme
                    })
                    &&& final(self).locale@ == old(self).locale@
                    &&& final(self).caret_timer == old(self).caret_timer
                    &&& (old(self).theme.app_theme == AppTheme::System ==> final(fx)@ == old(
                        fx,
                    )@.push(Effect::SetThemeMode(*m)).push(Effect::ReloadStyles))
                    &&& (old(self).theme.app_theme != AppTheme::System ==> final(fx)@ == old(fx)@)
                },
                _ => *final(self) == *old(self) && final(fx)@ == old(fx)@,
            },
    {
        match payload {
            EventPayload::Window(WindowEvent::ThemeChanged(m)) => {
                self.theme.sys_theme = Option::Some(*m);
                if matches!(self.theme.app_theme, AppTheme::System) {
                    fx.push(Effect::SetThemeMode(*m));
                    fx.push(Effect::ReloadStyles);
                }
            },
            _ => {},
        }
    }
}

} // verus!
