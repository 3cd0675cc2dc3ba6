//! The whole of the game: its screens, and which of them is shown.

use vstd::prelude::*;
use crate::config::MAX_TAIL_LEN;
use crate::input::Event;
use crate::screen::start::starts_game;
use crate::screen::{CurrentScreen, EventHandler, GameScreen, ScreenName, StartScreen, Updatable};

verus! {

/// A mutable reference to one of the screens.
pub enum ScreenRefMut<'a> {
    Start(&'a mut StartScreen),
    Game(&'a mut GameScreen),
}

impl ScreenRefMut<'_> {
    /// The name of the screen that the reference points to.
    pub fn name(&self) -> (name: ScreenName)
        ensures
            name == match self {
                ScreenRefMut::Start(_) => ScreenName::Start,
                ScreenRefMut::Game(_) => ScreenName::Game,
            },
    {
        match self {
            ScreenRefMut::Start(_) => ScreenName::Start,
            ScreenRefMut::Game(_) => ScreenName::Game,
        }
    }
}

/// The screens of the game.
pub struct Screens {
    pub start: StartScreen,
    pub game: GameScreen,
}

/// The state of the whole game.
pub struct State {
    pub current_screen: CurrentScreen,
    pub screens: Screens,
}

impl State {
    /// What holds of the state between any two operations: the game is
    /// well-formed.
    pub open spec fn wf(&self) -> bool {
        self.screens.game@.wf()
    }

    /// Whether a tick can be taken: the state is well-formed, and where the
    /// game screen is shown, a tick can be taken on it.
    pub open spec fn can_update(&self) -> bool {
        &&& self.wf()
        &&& self.current_screen.name == ScreenName::Game ==> self.screens.game@.can_tick()
    }

    /// A new game that shows the start screen. Returns `None` where the game
    /// screen cannot be made with `snake_start_size`.
    pub fn factory(snake_start_size: u32, apple_count: u32) -> (state: Option<State>)
        ensures
            snake_start_size > MAX_TAIL_LEN <==> state is None,
            state matches Some(state) ==> {
                &&& state.current_screen.name == ScreenName::Start
                &&& state.screens.game@.is_new(snake_start_size as nat, apple_count as nat)
                &&& state.wf()
            },
    {
        match GameScreen::try_new(snake_start_size, apple_count) {
            Some(game) => Some(
                State {
                    current_screen: CurrentScreen { name: ScreenName::Start },
                    screens: Screens { start: StartScreen, game },
                },
            ),
            None => None,
        }
    }

    /// The screen that is shown.
    pub fn current_screen_mut(&mut self) -> (screen: ScreenRefMut<'_>)
        ensures
            final(self).current_screen == old(self).current_screen,
            match screen {
                ScreenRefMut::Start(start) => {
                    &&& old(self).current_screen.name == ScreenName::Start
                    &&& *start == old(self).screens.start
                    &&& final(self).screens.start == *final(start)
                    &&& final(self).screens.game == old(self).screens.game
                },
                ScreenRefMut::Game(game) => {
                    &&& old(self).current_screen.name == ScreenName::Game
                    &&& *game == old(self).screens.game
                    &&& final(self).screens.game == *final(game)
                    &&& final(self).screens.start == old(self).screens.start
                },
            },
    {
        match self.current_screen.name {
            ScreenName::Start => ScreenRefMut::Start(&mut self.screens.start),
            ScreenName::Game => ScreenRefMut::Game(&mut self.screens.game),
        }
    }

    /// Takes one tick on the screen that is shown. The start screen stays as
    /// it is; the game screen takes a tick of the game.
    pub fn update(&mut self)
        requires
            old(self).can_update(),
        ensures
            final(self).wf(),
            final(self).current_screen == old(self).current_screen,
            final(self).screens.start == old(self).screens.start,
            match old(self).current_screen.name {
                ScreenName::Start => final(self).screens.game == old(self).screens.game,
                ScreenName::Game => old(self).screens.game@.ticked(final(self).screens.game@),
            },
    {
        let mut current_screen = self.current_screen;
        match self.current_screen_mut() {
            ScreenRefMut::Start(start) => start.update(&mut current_screen),
            ScreenRefMut::Game(game) => game.update(&mut current_screen),
        }
        self.current_screen = current_screen;
    }

    /// Hands `event` to the screen that is shown. The start screen switches
    /// to the game screen on an event that starts the game; the game screen
    /// reacts as the state of the game asks.
    pub fn event(&mut self, event: Event)
        requires
            old(self).wf(),
        ensures
            final(self).wf(),
            final(self).screens.start == old(self).screens.start,
            match old(self).current_screen.name {
                ScreenName::Start => {
                    &&& final(self).screens.game == old(self).screens.game
                    &&& final(self).current_screen.name == if starts_game(event) {
                        ScreenName::Game
                    } else {
                        ScreenName::Start
                    }
                },
                ScreenName::Game => {
                    &&& old(self).screens.game@.handled(event, final(self).screens.game@)
                    &&& final(self).current_screen == old(self).current_screen
                },
            },
    {
        let mut current_screen = self.current_screen;
        match self.current_screen_mut() {
            ScreenRefMut::Start(start) => start.event(&mut current_screen, event),
            ScreenRefMut::Game(game) => game.event(&mut current_screen, event),
        }
        self.current_screen = current_screen;
    }
}

} // verus!
