//! The plain preference values that the shell persists and feeds back into
//! the engine's constructors: the colour theme and the window size.

use vstd::prelude::*;

verus! {

/// The shell's colour theme.
#[derive(Copy, Clone, Debug, PartialEq, Eq, Structural)]
pub enum Theme {
    /// Follow the platform's theme.
    System,
    /// Always light.
    Light,
    /// Always dark.
    Dark,
}

impl Default for Theme {
    /// Following the platform is the default.
    fn default() -> (r: Self)
        ensures
            r == Theme::System,
    {
        Theme::System
    }
}

impl Theme {
    /// The theme's display label.
    pub fn to_label(&self) -> (r: String)
        ensures
            *self == Theme::System ==> r@ == "System"@,
            *self == Theme::Light ==> r@ == "Light"@,
            *self == Theme::Dark ==> r@ == "Dark"@,
    {
        match self {
            Theme::System => String::from_str("System"),
            Theme::Light => String::from_str("Light"),
            Theme::Dark => String::from_str("Dark"),
        }
    }

    /// The theme a display label names, if any.
    pub fn from_label(label: &String) -> (r: Option<Theme>)
        ensures
            label@ == "System"@ ==> r == Some(Theme::System),
            label@ == "Light"@ ==> r == Some(Theme::Light),
            label@ == "Dark"@ ==> r == Some(Theme::Dark),
            label@ != "System"@ && label@ != "Light"@ && label@ != "Dark"@ ==> r is None,
    {
        proof {
            reveal_strlit("System");
            reveal_strlit("Light");
            reveal_strlit("Dark");
            assert("System"@.len() == 6);
            assert("Light"@.len() == 5);
            assert("Dark"@.len() == 4);
        }
        if *label == String::from_str("System") {
            Some(Theme::System)
        } else if *label == String::from_str("Light") {
            Some(Theme::Light)
        } else if *label == String::from_str("Dark") {
            Some(Theme::Dark)
        } else {
            None
        }
    }

    /// The theme's stored code.
    pub fn to_code(&self) -> (r: i32)
        ensures
            *self == Theme::System ==> r == 0,
            *self == Theme::Light ==> r == 1,
            *self == Theme::Dark ==> r == 2,
    {
        match self {
            Theme::System => 0,
            Theme::Light => 1,
            Theme::Dark => 2,
        }
    }

    /// The theme a stored code names, if any.
    pub fn from_code(code: i32) -> (r: Option<Theme>)
        ensures
            code == 0 ==> r == Some(Theme::System),
            code == 1 ==> r == Some(Theme::Light),
            code == 2 ==> r == Some(Theme::Dark),
            !(0 <= code <= 2) ==> r is None,
    {
        if code == 0 {
            Some(Theme::System)
        } else if code == 1 {
            Some(Theme::Light)
        } else if code == 2 {
            Some(Theme::Dark)
        } else {
            None
        }
    }
}

/// The shell window's remembered size, in logical pixels.
#[derive(Copy, Clone, Debug, PartialEq, Eq, Structural)]
pub struct WindowSize {
    /// Window width.
    pub width: usize,
    /// Window height.
    pub height: usize,
}

impl Default for WindowSize {
    /// The size the window first opens at.
    fn default() -> (r: Self)
        ensures
            r == (WindowSize { width: 450, height: 625 }),
    {
        WindowSize { width: 450, height: 625 }
    }
}

} // verus!
