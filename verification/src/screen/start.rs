//! The screen that is shown before the game starts.

use vstd::prelude::*;
use crate::input::{Event, Key, MouseButton};
use crate::screen::{CurrentScreen, EventHandler, Screen, ScreenName, Updatable};

verus! {

/// The start screen. It waits for the player to start the game.
#[derive(Clone, Copy, Debug)]
pub struct StartScreen;

/// Whether `event` starts the game: a press of space or of one of the enter
/// keys, or a click of the left mouse button.
pub open spec fn starts_game(event: Event) -> bool {
    match event {
        Event::KeyPressed { key } => key == Key::Space || key == Key::Enter || key
            == Key::NumPadEnter,
        Event::MouseButtonPressed { button } => button == MouseButton::Left,
        _ => false,
    }
}

impl Updatable for StartScreen {
    open spec fn can_update(&self) -> bool {
        true
    }

    /// Nothing moves on the start screen.
    fn update(&mut self, screen: &mut CurrentScreen)
        ensures
            *final(self) == *old(self),
            *final(screen) == *old(screen),
    {
    }
}

impl EventHandler for StartScreen {
    open spec fn can_handle(&self) -> bool {
        true
    }

    /// Switches to the game screen on an event that starts the game, and
    /// does nothing on any other.
    fn event(&mut self, screen: &mut CurrentScreen, event: Event)
        ensures
            *final(self) == *old(self),
            final(screen).name == if starts_game(event) {
                ScreenName::Game
            } else {
                old(screen).name
            },
    {
        match event {
            Event::KeyPressed { key: Key::Space | Key::Enter | Key::NumPadEnter } => {
                screen.use_screen(ScreenName::Game);
            },
            Event::MouseButtonPressed { button: MouseButton::Left } => {
                screen.use_screen(ScreenName::Game);
            },
            _ => {},
        };
    }
}

impl Screen for StartScreen {

}

} // verus!
