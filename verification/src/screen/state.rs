//! What every screen of the application does.
use vstd::prelude::*;
use crate::app::App;
use crate::keys::Event;
use crate::screen::Screen;

verus! {

/// A screen: it is drawn, it takes input and turns into the next screen,
/// and it tells whether it has to be drawn again.
pub trait State: Sized {
    /// What holds of the screen between two calls.
    spec fn inv(&self) -> bool;

    /// Records that the screen is drawn.
    fn render(&mut self, app: &App)
        requires
            old(self).inv(),
        ensures
            final(self).inv(),
    ;

    /// Takes one terminal event and gives the screen that follows.
    fn handel_input(self, event: Event, app: &mut App) -> (r: Screen)
        requires
            self.inv(),
    ;

    /// Whether the screen has to be drawn again.
    fn render_next(&self, app: &mut App) -> bool
        requires
            self.inv(),
    ;
}

} // verus!
