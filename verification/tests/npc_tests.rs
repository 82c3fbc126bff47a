use skirmish_core::character::ProjectileShooter;
use skirmish_core::combat::ProjectileStats;
use skirmish_core::npc::{
    npc_update, MoveCommand, NpcController, NpcKind, NpcTarget, ARRIVE_RANGE, CHASE_RANGE,
    WANDER_RANGE,
};
use skirmish_core::timer::{GameTimer, TimerMode};
use skirmish_core::units::Vec2i;

fn test_shooter() -> ProjectileShooter {
    // speed 25_000 units/s and a 200 ms lifetime make the plausible range
    // 25_000_000 * 200 / 25_000 = 200_000 milli-units: 200 units.
    ProjectileShooter {
        projectile_stats: ProjectileStats {
            damage: 4_500,
            knockback: 8_000_000,
            speed: 25_000_000,
            life_time: GameTimer::from_millis(200, TimerMode::Once),
        },
        attack_speed: GameTimer::from_millis(500, TimerMode::Once),
    }
}

fn idle_npc(kind: NpcKind) -> NpcController {
    NpcController {
        kind,
        target: None,
        target_change: GameTimer::from_millis(10_000, TimerMode::Repeating),
    }
}

#[test]
fn a_friendly_npc_ignores_the_player() {
    let mut npc = idle_npc(NpcKind::Friendly);
    let d = npc_update(
        &mut npc,
        &test_shooter(),
        Vec2i { x: 0, y: 0 },
        Some((7, Vec2i { x: 50_000, y: 0 })),
        None,
        16,
    );
    assert_eq!(npc.target, None);
    assert_eq!(d.movement, MoveCommand::Stop);
    assert_eq!(d.shoot_at, None);
}

#[test]
fn a_hostile_npc_locks_on_within_chase_range() {
    let mut npc = idle_npc(NpcKind::Hostile);
    let player_pos = Vec2i { x: 100_000, y: 0 };
    let d = npc_update(
        &mut npc,
        &test_shooter(),
        Vec2i { x: 0, y: 0 },
        Some((7, player_pos)),
        None,
        16,
    );
    assert_eq!(npc.target, Some(NpcTarget::Character(7)));
    assert_eq!(d.movement, MoveCommand::Toward(player_pos));
    // 100 units is inside the 200-unit plausible range: it shoots.
    assert_eq!(d.shoot_at, Some(player_pos));
}

#[test]
fn a_hostile_npc_ignores_a_player_beyond_chase_range() {
    let mut npc = idle_npc(NpcKind::Hostile);
    let d = npc_update(
        &mut npc,
        &test_shooter(),
        Vec2i { x: 0, y: 0 },
        Some((7, Vec2i { x: CHASE_RANGE + 1_000, y: 0 })),
        None,
        16,
    );
    assert_eq!(npc.target, None);
    assert_eq!(d.movement, MoveCommand::Stop);
}

#[test]
fn a_very_hostile_npc_locks_on_from_anywhere() {
    let mut npc = idle_npc(NpcKind::VeryHostile);
    let far = Vec2i { x: 900_000, y: 0 };
    let d = npc_update(
        &mut npc,
        &test_shooter(),
        Vec2i { x: 0, y: 0 },
        Some((7, far)),
        None,
        16,
    );
    // It acquires and walks, but 900 units is beyond chase range, so the
    // target is dropped again this same frame, and no shot is plausible.
    assert_eq!(d.movement, MoveCommand::Toward(far));
    assert_eq!(d.shoot_at, None);
    assert_eq!(npc.target, None);
}

#[test]
fn too_distant_a_shot_is_not_taken() {
    let mut npc = idle_npc(NpcKind::Hostile);
    let player_pos = Vec2i { x: 240_000, y: 0 };
    let d = npc_update(
        &mut npc,
        &test_shooter(),
        Vec2i { x: 0, y: 0 },
        Some((7, player_pos)),
        None,
        16,
    );
    // Acquired (inside chase range) but 240 units is beyond the 200-unit
    // plausible range.
    assert_eq!(npc.target, Some(NpcTarget::Character(7)));
    assert_eq!(d.movement, MoveCommand::Toward(player_pos));
    assert_eq!(d.shoot_at, None);
}

#[test]
fn a_wander_goal_is_walked_to_and_dropped_on_arrival() {
    let goal = Vec2i { x: 50_000, y: 0 };
    let mut npc = NpcController {
        kind: NpcKind::Friendly,
        target: Some(NpcTarget::Position(goal)),
        target_change: GameTimer::from_millis(10_000, TimerMode::Repeating),
    };
    let d = npc_update(&mut npc, &test_shooter(), Vec2i { x: 0, y: 0 }, None, None, 16);
    assert_eq!(d.movement, MoveCommand::Toward(goal));
    assert_eq!(npc.target, Some(NpcTarget::Position(goal)));

    // Standing within the arrival range, the goal is dropped and the input
    // left alone.
    let near = Vec2i { x: goal.x - ARRIVE_RANGE + 1_000, y: 0 };
    let d = npc_update(&mut npc, &test_shooter(), near, None, None, 16);
    assert_eq!(d.movement, MoveCommand::Keep);
    assert_eq!(npc.target, None);
}

#[test]
fn the_retarget_tick_draws_a_wander_goal_nearby() {
    let mut npc = NpcController {
        kind: NpcKind::Friendly,
        target: None,
        target_change: GameTimer::from_millis(100, TimerMode::Repeating),
    };
    let position = Vec2i { x: 10_000, y: -20_000 };
    let d = npc_update(&mut npc, &test_shooter(), position, None, None, 100);
    assert_eq!(d.movement, MoveCommand::Stop);
    match npc.target {
        Some(NpcTarget::Position(p)) => {
            assert!(position.x - WANDER_RANGE <= p.x && p.x < position.x + WANDER_RANGE);
            assert!(position.y - WANDER_RANGE <= p.y && p.y < position.y + WANDER_RANGE);
        }
        other => panic!("expected a wander goal, got {:?}", other),
    }
}

#[test]
fn the_retarget_tick_drops_a_stale_wander_goal() {
    let mut npc = NpcController {
        kind: NpcKind::Friendly,
        target: Some(NpcTarget::Position(Vec2i { x: 200_000, y: 0 })),
        target_change: GameTimer::from_millis(100, TimerMode::Repeating),
    };
    npc_update(&mut npc, &test_shooter(), Vec2i { x: 0, y: 0 }, None, None, 100);
    assert_eq!(npc.target, None);
}

#[test]
fn a_chased_character_that_disappeared_changes_nothing() {
    let mut npc = NpcController {
        kind: NpcKind::Friendly,
        target: Some(NpcTarget::Character(99)),
        target_change: GameTimer::from_millis(10_000, TimerMode::Repeating),
    };
    let d = npc_update(&mut npc, &test_shooter(), Vec2i { x: 0, y: 0 }, None, None, 16);
    assert_eq!(d.movement, MoveCommand::Keep);
    assert_eq!(d.shoot_at, None);
    assert_eq!(npc.target, Some(NpcTarget::Character(99)));
}

#[test]
fn a_chased_npc_position_comes_from_the_lookup() {
    let mut npc = NpcController {
        kind: NpcKind::Friendly,
        target: Some(NpcTarget::Character(99)),
        target_change: GameTimer::from_millis(10_000, TimerMode::Repeating),
    };
    let quarry = Vec2i { x: 60_000, y: 80_000 };
    let d = npc_update(
        &mut npc,
        &test_shooter(),
        Vec2i { x: 0, y: 0 },
        Some((7, Vec2i { x: 500_000, y: 0 })),
        Some(quarry),
        16,
    );
    // Entity 99 is not the player, so the looked-up position drives pursuit:
    // 100 units away, within both shooting and chase range.
    assert_eq!(d.movement, MoveCommand::Toward(quarry));
    assert_eq!(d.shoot_at, Some(quarry));
    assert_eq!(npc.target, Some(NpcTarget::Character(99)));
}
