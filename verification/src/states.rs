//! Top-level app flow: the app states and the sub-states of a run.

use vstd::prelude::*;

verus! {

#[derive(Clone, Copy, PartialEq, Eq, Structural, Debug, Hash)]
pub enum AppState {
    MainMenu,
    CharSelect,
    Upgrades,
    Playing,
    GameOver,
}

impl Default for AppState {
    fn default() -> (s: Self)
        ensures
            s == AppState::MainMenu,
    {
        AppState::MainMenu
    }
}

/// Sub-state of [`AppState::Playing`]. Gameplay runs only in `Running`;
/// `Paused` and `LevelUp` freeze the simulation while UI is shown.
#[derive(Clone, Copy, PartialEq, Eq, Structural, Debug, Hash)]
pub enum PlayingState {
    Running,
    Paused,
    LevelUp,
}

impl Default for PlayingState {
    fn default() -> (s: Self)
        ensures
            s == PlayingState::Running,
    {
        PlayingState::Running
    }
}

} // verus!
