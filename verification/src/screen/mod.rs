//! The screens of the game, and what all of them can do.

pub mod game;
pub mod start;

use vstd::prelude::*;
use crate::input::Event;

pub use crate::screen::game::GameScreen;
pub use crate::screen::start::StartScreen;

verus! {

/// The names of the screens.
#[derive(Eq, PartialEq, Structural, Copy, Clone, Debug)]
pub enum ScreenName {
    Start,
    Game,
}

/// Which screen is shown. A screen that is updated or handles an event gets
/// this value and may switch to another screen through it.
#[derive(Copy, Clone, Debug)]
pub struct CurrentScreen {
    pub name: ScreenName,
}

impl CurrentScreen {
    /// Switches to `screen`.
    pub fn use_screen(&mut self, screen: ScreenName)
        ensures
            final(self).name == screen,
    {
        self.name = screen;
    }

    /// The name of the screen that is shown.
    pub fn name(&self) -> (name: &ScreenName)
        ensures
            *name == self.name,
    {
        &self.name
    }
}

/// Something that advances with the fixed-rate tick of the game.
pub trait Updatable {
    /// What must hold of the value for a tick to be taken on it.
    spec fn can_update(&self) -> bool;

    /// Advances the value by one tick.
    fn update(&mut self, screen: &mut CurrentScreen)
        requires
            old(self).can_update(),
    ;
}

/// Something that reacts to input events.
pub trait EventHandler {
    /// What must hold of the value for it to handle an event.
    spec fn can_handle(&self) -> bool;

    /// Reacts to `event`.
    fn event(&mut self, screen: &mut CurrentScreen, event: Event)
        requires
            old(self).can_handle(),
    ;
}

/// A screen advances with the ticks and reacts to events.
pub trait Screen: Updatable + EventHandler {

}

} // verus!
