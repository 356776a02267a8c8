//! The program around a session: menu, run and summary.

use crate::game::{Difficulty, GameMode, LurhookGame};
use crate::keys::Key;
use vstd::prelude::*;

verus! {

/// What the host is asked to do after the program has taken a step.
#[derive(Clone, Copy, Debug, PartialEq, Eq, Structural)]
pub enum AppAction {
    /// Nothing.
    Continue,
    /// Load what a session starts from, start one at this difficulty and
    /// hand it over.
    Start(Difficulty),
    /// Leave the program.
    Quit,
}

/// Where the program is.
pub enum AppState {
    Menu,
    Running(Box<LurhookGame>),
    Summary(i32),
}

/// The program.
pub struct LurhookApp {
    pub state: AppState,
}

/// What a key asks for in the menu.
pub open spec fn menu_action(key: Option<Key>) -> AppAction {
    match key {
        Some(Key::Key1) => AppAction::Start(Difficulty::Easy),
        Some(Key::Key2) => AppAction::Start(Difficulty::Normal),
        Some(Key::Key3) => AppAction::Start(Difficulty::Hard),
        Some(Key::Q) => AppAction::Quit,
        _ => AppAction::Continue,
    }
}

impl LurhookApp {
    /// A running session is in order and has turns left to count.
    pub open spec fn wf(self) -> bool {
        self.state matches AppState::Running(game) ==> game.wf() && game.turn < u32::MAX
    }

    /// The program at its menu.
    pub fn new() -> (app: Self)
        ensures
            app.state is Menu,
            app.wf(),
    {
        Self { state: AppState::Menu }
    }

    /// Puts a freshly started session on stage.
    pub fn start(&mut self, game: LurhookGame)
        ensures
            final(self).state == AppState::Running(Box::new(game)),
    {
        self.state = AppState::Running(Box::new(game));
    }

    /// Whether `next` is `self` after a step on the given input, with
    /// `action` asked of the host. The menu starts a run or quits. A
    /// running session plays a turn and, once its run has ended, gives
    /// way to the summary of its score. The summary leads back to the
    /// menu or quits.
    pub open spec fn stepped(
        self,
        next: LurhookApp,
        action: AppAction,
        key: Option<Key>,
        click: Option<(i32, i32)>,
    ) -> bool {
        match self.state {
            AppState::Menu => next.state is Menu && action == menu_action(key),
            AppState::Running(game) => {
                &&& action == AppAction::Continue
                &&& exists|after: LurhookGame, a: LurhookGame, b: LurhookGame, c: LurhookGame|
                    {
                        &&& #[trigger] game.turn_played(after, a, b, c, key, click)
                        &&& match after.mode {
                            GameMode::End { score } => next.state == AppState::Summary(score),
                            _ => next.state == AppState::Running(Box::new(after)),
                        }
                    }
            },
            AppState::Summary(score) => match key {
                Some(Key::Return) => next.state is Menu && action == AppAction::Continue,
                Some(Key::Q) => next.state == self.state && action == AppAction::Quit,
                _ => next.state == self.state && action == AppAction::Continue,
            },
        }
    }

    /// Takes one step on the given input: the pressed key, and the cell
    /// of the screen that was clicked.
    pub fn update_state(&mut self, key: Option<Key>, click: Option<(i32, i32)>) -> (action:
        AppAction)
        requires
            old(self).wf(),
            click matches Some((mx, my)) ==> mx >= 0 && my >= 0,
        ensures
            old(self).stepped(*final(self), action, key, click),
    {
        match &mut self.state {
            AppState::Menu => match key {
                Some(Key::Key1) => AppAction::Start(Difficulty::Easy),
                Some(Key::Key2) => AppAction::Start(Difficulty::Normal),
                Some(Key::Key3) => AppAction::Start(Difficulty::Hard),
                Some(Key::Q) => AppAction::Quit,
                _ => AppAction::Continue,
            },
            AppState::Running(game) => {
                game.tick(key, click);
                if let GameMode::End { score } = game.mode() {
                    self.state = AppState::Summary(score);
                }
                AppAction::Continue
            },
            AppState::Summary(_) => match key {
                Some(Key::Return) => {
                    self.state = AppState::Menu;
                    AppAction::Continue
                },
                Some(Key::Q) => AppAction::Quit,
                _ => AppAction::Continue,
            },
        }
    }
}

impl Default for LurhookApp {
    fn default() -> (app: Self)
        ensures
            app.state is Menu,
    {
        Self::new()
    }
}

} // verus!
