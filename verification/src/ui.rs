//! Menus and buttons: which buttons each state shows, what pressing one
//! means, and how a button is tinted under the pointer.

use vstd::prelude::*;

use crate::state::{GameEvent, GameState};
use crate::units::ColorMilli;

verus! {

/// The pointer's standing toward a button.
#[derive(Clone, Copy, Debug, PartialEq, Eq, Structural)]
pub enum Interaction {
    Pressed,
    Hovered,
    Idle,
}

/// Every button the menus offer.
#[derive(Clone, Copy, Debug, PartialEq, Eq, Structural)]
pub enum ButtonKind {
    Start,
    Exit,
    Resume,
    ExitToMenu,
    Continue,
}

/// A button's background and border colours.
#[derive(Clone, Copy, Debug, PartialEq, Eq, Structural)]
pub struct ButtonVisual {
    pub background: ColorMilli,
    pub border: ColorMilli,
}

/// The resting look of a button: dark grey on black.
pub open spec fn spec_normal_visual() -> ButtonVisual {
    ButtonVisual {
        background: ColorMilli { r: 150, g: 150, b: 150, a: 1000 },
        border: ColorMilli { r: 0, g: 0, b: 0, a: 1000 },
    }
}

/// The hovered look of a button: lighter grey on white.
pub open spec fn spec_hovered_visual() -> ButtonVisual {
    ButtonVisual {
        background: ColorMilli { r: 250, g: 250, b: 250, a: 1000 },
        border: ColorMilli { r: 1000, g: 1000, b: 1000, a: 1000 },
    }
}

/// How a button is to look after a pointer change: its resting colours when
/// left, its hover colours under the pointer, and untouched while pressed.
pub fn button_hover(interaction: Interaction) -> (v: Option<ButtonVisual>)
    ensures
        v == match interaction {
            Interaction::Idle => Some(spec_normal_visual()),
            Interaction::Hovered => Some(spec_hovered_visual()),
            Interaction::Pressed => None::<ButtonVisual>,
        },
{
    match interaction {
        Interaction::Idle => Some(
            ButtonVisual {
                background: ColorMilli { r: 150, g: 150, b: 150, a: 1000 },
                border: ColorMilli { r: 0, g: 0, b: 0, a: 1000 },
            },
        ),
        Interaction::Hovered => Some(
            ButtonVisual {
                background: ColorMilli { r: 250, g: 250, b: 250, a: 1000 },
                border: ColorMilli { r: 1000, g: 1000, b: 1000, a: 1000 },
            },
        ),
        Interaction::Pressed => None,
    }
}

/// The session event a pressed button raises.
pub fn button_event(button: ButtonKind) -> (e: GameEvent)
    ensures
        e == match button {
            ButtonKind::Start => GameEvent::StartPressed,
            ButtonKind::Exit => GameEvent::ExitPressed,
            ButtonKind::Resume => GameEvent::ResumePressed,
            ButtonKind::ExitToMenu => GameEvent::ExitToMenuPressed,
            ButtonKind::Continue => GameEvent::ContinuePressed,
        },
{
    match button {
        ButtonKind::Start => GameEvent::StartPressed,
        ButtonKind::Exit => GameEvent::ExitPressed,
        ButtonKind::Resume => GameEvent::ResumePressed,
        ButtonKind::ExitToMenu => GameEvent::ExitToMenuPressed,
        ButtonKind::Continue => GameEvent::ContinuePressed,
    }
}

/// The buttons the state's menu shows, in their order on screen: start and
/// exit on the main menu, resume and exit-to-menu on pause, continue on the
/// death screen, and none during play or loading.
pub fn menu_buttons(state: GameState) -> (r: Vec<ButtonKind>)
    ensures
        r@ == match state {
            GameState::MainMenu => seq![ButtonKind::Start, ButtonKind::Exit],
            GameState::Paused => seq![ButtonKind::Resume, ButtonKind::ExitToMenu],
            GameState::Dead => seq![ButtonKind::Continue],
            _ => Seq::<ButtonKind>::empty(),
        },
{
    let mut r: Vec<ButtonKind> = Vec::new();
    match state {
        GameState::MainMenu => {
            r.push(ButtonKind::Start);
            r.push(ButtonKind::Exit);
            proof {
                assert(r@ =~= seq![ButtonKind::Start, ButtonKind::Exit]);
            }
        },
        GameState::Paused => {
            r.push(ButtonKind::Resume);
            r.push(ButtonKind::ExitToMenu);
            proof {
                assert(r@ =~= seq![ButtonKind::Resume, ButtonKind::ExitToMenu]);
            }
        },
        GameState::Dead => {
            r.push(ButtonKind::Continue);
            proof {
                assert(r@ =~= seq![ButtonKind::Continue]);
            }
        },
        _ => {
            proof {
                assert(r@ =~= Seq::<ButtonKind>::empty());
            }
        },
    }
    r
}

} // verus!
