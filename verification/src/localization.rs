//! Locale data for the shell around the player: per-locale strings and the
//! lookup between locale denominators ("en") and display names ("English").
//! The shell feeds the chosen denominator in and reads plain strings out;
//! English is the fallback on both lookups.

use vstd::prelude::*;

verus! {

/// The translatable strings of one locale; a missing entry falls back to
/// English at display time.
#[derive(Clone, Debug)]
pub struct Locale {
    /// Label of the settings view.
    pub settings: Option<String>,
    /// Label of the search box.
    pub search: Option<String>,
    /// Label of the theme chooser.
    pub theme: Option<String>,
    /// Label of the window-size option.
    pub window_size: Option<String>,
    /// Label of the music-directory option.
    pub music_path: Option<String>,
    /// Label of the language chooser.
    pub language: Option<String>,
    /// Name of the system theme choice.
    pub theme_system: Option<String>,
    /// Name of the light theme choice.
    pub theme_light: Option<String>,
    /// Name of the dark theme choice.
    pub theme_dark: Option<String>,
    /// Label of the credits entry.
    pub credits: Option<String>,
    /// Label of the license entry.
    pub license: Option<String>,
    /// Text shown when an update is available.
    pub update_text: Option<String>,
    /// Label of the check-for-updates action.
    pub check_update: Option<String>,
    /// Label of the update action.
    pub update: Option<String>,
    /// Label of the rescan action.
    pub rescan: Option<String>,
}

/// How one of a locale's strings is resolved against the English locale:
/// the locale's own entry when it has one, the English entry otherwise.
pub fn localized(value: &Option<String>, english: &String) -> (r: String)
    ensures
        value matches Some(v) ==> r@ == v@,
        value is None ==> r@ == english@,
{
    match value {
        Some(v) => v.clone(),
        None => english.clone(),
    }
}

/// The display name a denominator maps to; English for anything unknown.
pub open spec fn locale_name_spec(denominator: Option<Seq<char>>) -> Seq<char> {
    match denominator {
        Some(d) => {
            if d == "it"@ {
                "Italiano"@
            } else {
                "English"@
            }
        },
        None => "English"@,
    }
}

/// The denominator a display name maps to; English's for anything unknown.
pub open spec fn locale_denominator_spec(name: Option<Seq<char>>) -> Seq<char> {
    match name {
        Some(n) => {
            if n == "Italiano"@ {
                "it"@
            } else {
                "en"@
            }
        },
        None => "en"@,
    }
}

/// The display name of a locale denominator, with English as the fallback
/// for an unknown or missing denominator.
pub fn get_locale_name(denominator: Option<&str>) -> (r: String)
    ensures
        r@ == locale_name_spec(match denominator {
            Some(d) => Some(d@),
            None => None,
        }),
{
    match denominator {
        Some(d) => {
            let owned = String::from_str(d);
            if owned == String::from_str("it") {
                String::from_str("Italiano")
            } else {
                String::from_str("English")
            }
        },
        None => String::from_str("English"),
    }
}

/// The denominator of a locale display name, with English's as the fallback
/// for an unknown or missing name.
pub fn get_locale_denominator(name: Option<String>) -> (r: String)
    ensures
        r@ == locale_denominator_spec(match name {
            Some(n) => Some(n@),
            None => None,
        }),
{
    match name {
        Some(n) => {
            if n == String::from_str("Italiano") {
                String::from_str("it")
            } else {
                String::from_str("en")
            }
        },
        None => String::from_str("en"),
    }
}

} // verus!
