//! The last screen: it stops the application.
use vstd::prelude::*;
use crate::app::App;
use crate::keys::Event;
use crate::screen::state::State;
use crate::screen::Screen;

verus! {

/// The screen shown while the application closes.
pub struct ExitScreen {
    pub render_next: bool,
}

impl ExitScreen {
    /// An exit screen that still has to be drawn.
    pub fn new() -> (r: ExitScreen)
        ensures
            r.render_next,
    {
        ExitScreen { render_next: true }
    }
}

impl State for ExitScreen {
    open spec fn inv(&self) -> bool {
        true
    }

    /// Drawing the exit screen changes none of its state.
    fn render(&mut self, _app: &App)
        ensures
            *final(self) == *old(self),
    {
    }

    /// Any input stops the application; the exit screen stays.
    fn handel_input(self, _event: Event, app: &mut App) -> (r: Screen)
        ensures
            r.inv(),
            !final(app).running,
            final(app).theme == old(app).theme,
            r == Screen::ExitScreen(self),
    {
        app.running = false;
        Screen::ExitScreen(self)
    }

    /// When the exit screen still has to be drawn, the application stops
    /// and the screen is drawn once more.
    fn render_next(&self, app: &mut App) -> (r: bool)
        ensures
            r == self.render_next,
            final(app).running == (old(app).running && !self.render_next),
            final(app).theme == old(app).theme,
    {
        if self.render_next {
            app.running = false;
            return true;
        }
        false
    }
}

} // verus!
