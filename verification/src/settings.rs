//! The settings that the alert engine reads, and the build profiles that
//! decide its defaults and intervals.

use vstd::prelude::*;

verus! {

/// The configuration a build runs under: timers are short and logging is
/// chatty while developing.
#[derive(Debug, Clone, Copy, PartialEq, Eq, Structural)]
pub enum Profile {
    Development,
    Production,
}

/// What the user has chosen. The library only reads it.
#[derive(Debug, Clone, Copy, PartialEq, Eq, Structural)]
pub struct Settings {
    pub notifications: bool,
    pub debug: bool,
}

impl Settings {
    /// The settings of a profile before the user changes any: notifications
    /// are on, and debug output is on while developing only.
    pub fn for_profile(profile: Profile) -> (r: Settings)
        ensures
            r.notifications,
            r.debug == (profile == Profile::Development),
    {
        Settings { notifications: true, debug: profile == Profile::Development }
    }

    /// The settings to run with: those that were loaded, or those of the
    /// profile where none could be loaded.
    pub fn loaded_or_default(loaded: Option<Settings>, profile: Profile) -> (r: Settings)
        ensures
            r == (match loaded {
                Some(settings) => settings,
                None => Settings {
                    notifications: true,
                    debug: profile == Profile::Development,
                },
            }),
    {
        match loaded {
            Some(settings) => settings,
            None => Settings::for_profile(profile),
        }
    }
}

impl Default for Settings {
    /// The settings of a production build.
    fn default() -> (r: Settings)
        ensures
            r == (Settings { notifications: true, debug: false }),
    {
        Settings { notifications: true, debug: false }
    }
}

} // verus!
