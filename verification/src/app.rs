//! The state shared by all screens of the application.
use vstd::prelude::*;
use crate::theme::{is_default_theme, Theme};

verus! {

/// Whether the application keeps running, and the theme it is drawn in.
pub struct App {
    pub running: bool,
    pub theme: Theme,
}

impl App {
    /// A running application in the default theme.
    pub fn new() -> (r: App)
        ensures
            r.running,
            is_default_theme(r.theme),
    {
        App { running: true, theme: Theme::default() }
    }
}

} // verus!
