//! The session state machine.
//!
//! A session moves between the main menu, the loading and world-preparation
//! phases, play, pause and the death screen. Menus exist only in their own
//! states, so each button press is handled against the state that shows the
//! button; the player's vanish animation completing is reported from any
//! state.

use vstd::prelude::*;

verus! {

/// The phases of a session.
#[derive(Clone, Copy, Debug, PartialEq, Eq, Hash, Structural)]
pub enum GameState {
    MainMenu,
    LoadingAssets,
    PreparingWorld,
    PreparingNpcs,
    InGame,
    Paused,
    Dead,
}

impl Default for GameState {
    /// A session begins at the main menu.
    fn default() -> (r: GameState)
        ensures
            r == GameState::MainMenu,
    {
        GameState::MainMenu
    }
}

/// Everything the session flow reacts to: a button press on one of the
/// menus, a phase finishing its work, or the player's vanish animation
/// completing.
#[derive(Clone, Copy, Debug, PartialEq, Eq, Structural)]
pub enum GameEvent {
    StartPressed,
    ExitPressed,
    ResumePressed,
    ContinuePressed,
    ExitToMenuPressed,
    AssetsLoaded,
    WorldPrepared,
    NpcsPlaced,
    PlayerVanished,
}

/// What an event asks of the host: possibly a new state, possibly clearing
/// every world entity, possibly quitting the program.
#[derive(Clone, Copy, Debug, PartialEq, Eq, Structural)]
pub struct Transition {
    pub next: Option<GameState>,
    pub clear_world: bool,
    pub exit: bool,
}

/// A transition that changes the state and nothing else.
pub open spec fn goto(next: GameState) -> Transition {
    Transition { next: Some(next), clear_world: false, exit: false }
}

/// The transition that asks nothing.
pub open spec fn stay() -> Transition {
    Transition { next: None, clear_world: false, exit: false }
}

/// The whole session flow. Buttons act only in the state whose menu shows
/// them; leaving for the main menu from pause or death also clears the world;
/// the player's vanish completing ends the run from any state.
pub open spec fn spec_handle_event(state: GameState, event: GameEvent) -> Transition {
    match event {
        GameEvent::StartPressed => if state == GameState::MainMenu {
            goto(GameState::LoadingAssets)
        } else {
            stay()
        },
        GameEvent::ExitPressed => if state == GameState::MainMenu {
            Transition { next: None, clear_world: false, exit: true }
        } else {
            stay()
        },
        GameEvent::ResumePressed => if state == GameState::Paused {
            goto(GameState::InGame)
        } else {
            stay()
        },
        GameEvent::ContinuePressed => if state == GameState::Dead {
            Transition { next: Some(GameState::MainMenu), clear_world: true, exit: false }
        } else {
            stay()
        },
        GameEvent::ExitToMenuPressed => if state == GameState::Paused {
            Transition { next: Some(GameState::MainMenu), clear_world: true, exit: false }
        } else {
            stay()
        },
        GameEvent::AssetsLoaded => if state == GameState::LoadingAssets {
            goto(GameState::InGame)
        } else {
            stay()
        },
        GameEvent::WorldPrepared => if state == GameState::PreparingWorld {
            goto(GameState::PreparingNpcs)
        } else {
            stay()
        },
        GameEvent::NpcsPlaced => if state == GameState::PreparingNpcs {
            goto(GameState::InGame)
        } else {
            stay()
        },
        GameEvent::PlayerVanished => goto(GameState::Dead),
    }
}

/// Handle one event against the current state.
pub fn handle_event(state: GameState, event: GameEvent) -> (t: Transition)
    ensures
        t == spec_handle_event(state, event),
{
    match event {
        GameEvent::StartPressed => if state == GameState::MainMenu {
            Transition { next: Some(GameState::LoadingAssets), clear_world: false, exit: false }
        } else {
            Transition { next: None, clear_world: false, exit: false }
        },
        GameEvent::ExitPressed => if state == GameState::MainMenu {
            Transition { next: None, clear_world: false, exit: true }
        } else {
            Transition { next: None, clear_world: false, exit: false }
        },
        GameEvent::ResumePressed => if state == GameState::Paused {
            Transition { next: Some(GameState::InGame), clear_world: false, exit: false }
        } else {
            Transition { next: None, clear_world: false, exit: false }
        },
        GameEvent::ContinuePressed => if state == GameState::Dead {
            Transition { next: Some(GameState::MainMenu), clear_world: true, exit: false }
        } else {
            Transition { next: None, clear_world: false, exit: false }
        },
        GameEvent::ExitToMenuPressed => if state == GameState::Paused {
            Transition { next: Some(GameState::MainMenu), clear_world: true, exit: false }
        } else {
            Transition { next: None, clear_world: false, exit: false }
        },
        GameEvent::AssetsLoaded => if state == GameState::LoadingAssets {
            Transition { next: Some(GameState::InGame), clear_world: false, exit: false }
        } else {
            Transition { next: None, clear_world: false, exit: false }
        },
        GameEvent::WorldPrepared => if state == GameState::PreparingWorld {
            Transition { next: Some(GameState::PreparingNpcs), clear_world: false, exit: false }
        } else {
            Transition { next: None, clear_world: false, exit: false }
        },
        GameEvent::NpcsPlaced => if state == GameState::PreparingNpcs {
            Transition { next: Some(GameState::InGame), clear_world: false, exit: false }
        } else {
            Transition { next: None, clear_world: false, exit: false }
        },
        GameEvent::PlayerVanished => Transition {
            next: Some(GameState::Dead),
            clear_world: false,
            exit: false,
        },
    }
}

/// The world is cleared only on the way back to the main menu: whatever the
/// state and the event, a transition that clears the world leads there.
pub proof fn lemma_clear_world_returns_to_menu(state: GameState, event: GameEvent)
    ensures
        spec_handle_event(state, event).clear_world ==> spec_handle_event(state, event).next
            == Some(GameState::MainMenu),
{
}

/// Quitting is offered on the main menu alone, and never together with a
/// state change.
pub proof fn lemma_exit_only_from_menu(state: GameState, event: GameEvent)
    ensures
        spec_handle_event(state, event).exit ==> state == GameState::MainMenu
            && spec_handle_event(state, event).next is None,
{
}

} // verus!
