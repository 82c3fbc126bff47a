use skirmish_core::state::{handle_event, GameEvent, GameState};
use skirmish_core::ui::{button_event, button_hover, menu_buttons, ButtonKind, Interaction};

#[test]
fn a_session_begins_at_the_main_menu() {
    assert_eq!(GameState::default(), GameState::MainMenu);
}

#[test]
fn start_leads_from_menu_into_loading() {
    let t = handle_event(GameState::MainMenu, GameEvent::StartPressed);
    assert_eq!(t.next, Some(GameState::LoadingAssets));
    assert!(!t.clear_world);
    assert!(!t.exit);
}

#[test]
fn start_does_nothing_outside_the_menu() {
    let t = handle_event(GameState::InGame, GameEvent::StartPressed);
    assert_eq!(t.next, None);
    assert!(!t.clear_world);
    assert!(!t.exit);
}

#[test]
fn exit_quits_only_from_the_menu() {
    let t = handle_event(GameState::MainMenu, GameEvent::ExitPressed);
    assert!(t.exit);
    assert_eq!(t.next, None);
    let t = handle_event(GameState::Paused, GameEvent::ExitPressed);
    assert!(!t.exit);
}

#[test]
fn loading_finishes_into_play() {
    let t = handle_event(GameState::LoadingAssets, GameEvent::AssetsLoaded);
    assert_eq!(t.next, Some(GameState::InGame));
}

#[test]
fn world_preparation_chains_into_npc_placement_and_play() {
    let t = handle_event(GameState::PreparingWorld, GameEvent::WorldPrepared);
    assert_eq!(t.next, Some(GameState::PreparingNpcs));
    let t = handle_event(GameState::PreparingNpcs, GameEvent::NpcsPlaced);
    assert_eq!(t.next, Some(GameState::InGame));
}

#[test]
fn resume_returns_from_pause_to_play() {
    let t = handle_event(GameState::Paused, GameEvent::ResumePressed);
    assert_eq!(t.next, Some(GameState::InGame));
    assert!(!t.clear_world);
}

#[test]
fn leaving_for_the_menu_clears_the_world() {
    let t = handle_event(GameState::Paused, GameEvent::ExitToMenuPressed);
    assert_eq!(t.next, Some(GameState::MainMenu));
    assert!(t.clear_world);
    let t = handle_event(GameState::Dead, GameEvent::ContinuePressed);
    assert_eq!(t.next, Some(GameState::MainMenu));
    assert!(t.clear_world);
}

#[test]
fn the_player_vanishing_ends_the_run() {
    let t = handle_event(GameState::InGame, GameEvent::PlayerVanished);
    assert_eq!(t.next, Some(GameState::Dead));
}

#[test]
fn each_menu_shows_its_buttons() {
    assert_eq!(
        menu_buttons(GameState::MainMenu),
        vec![ButtonKind::Start, ButtonKind::Exit]
    );
    assert_eq!(
        menu_buttons(GameState::Paused),
        vec![ButtonKind::Resume, ButtonKind::ExitToMenu]
    );
    assert_eq!(menu_buttons(GameState::Dead), vec![ButtonKind::Continue]);
    assert_eq!(menu_buttons(GameState::InGame), Vec::<ButtonKind>::new());
}

#[test]
fn buttons_raise_their_events() {
    assert_eq!(button_event(ButtonKind::Start), GameEvent::StartPressed);
    assert_eq!(button_event(ButtonKind::Exit), GameEvent::ExitPressed);
    assert_eq!(button_event(ButtonKind::Resume), GameEvent::ResumePressed);
    assert_eq!(
        button_event(ButtonKind::ExitToMenu),
        GameEvent::ExitToMenuPressed
    );
    assert_eq!(button_event(ButtonKind::Continue), GameEvent::ContinuePressed);
}

#[test]
fn hovering_tints_a_button_and_pressing_leaves_it() {
    let v = button_hover(Interaction::Idle).unwrap();
    assert_eq!(v.background.r, 150);
    assert_eq!(v.border.r, 0);
    let v = button_hover(Interaction::Hovered).unwrap();
    assert_eq!(v.background.r, 250);
    assert_eq!(v.border.r, 1000);
    assert!(button_hover(Interaction::Pressed).is_none());
}
