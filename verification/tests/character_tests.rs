use skirmish_core::character::{
    character_update, clamp_stat, health_regen_update, move_character, Character, HealthRegen,
    ProjectileShooter, STAT_LIMIT,
};
use skirmish_core::combat::{ProjectileStats, ENEMY_GROUP};
use skirmish_core::player::{
    camera_clamp, player_input_axis, player_shoot_event, spawn_player, CAMERA_MARGIN_X,
    CAMERA_MARGIN_Y,
};
use skirmish_core::timer::{GameTimer, TimerMode};
use skirmish_core::units::Vec2i;
use skirmish_core::world::{MAX_WORLD_X, MAX_WORLD_Y, MIN_WORLD_X, MIN_WORLD_Y};

fn test_character(health: i64) -> Character {
    Character {
        max_health: 30_000,
        health,
        input: Vec2i { x: 0, y: 0 },
        last_x: -1000,
        speed: 7_500_000,
        accel: 3_900,
        damp: 5_000,
    }
}

#[test]
fn death_comes_at_zero_health() {
    assert!(!test_character(1).is_dead());
    assert!(test_character(0).is_dead());
    assert!(test_character(-500).is_dead());
}

#[test]
fn the_death_sweep_names_the_fallen_in_order() {
    let characters = vec![
        (10, test_character(5_000)),
        (11, test_character(0)),
        (12, test_character(30_000)),
        (13, test_character(-100)),
    ];
    assert_eq!(character_update(&characters), vec![11, 13]);
}

#[test]
fn regeneration_waits_for_its_delay() {
    let mut character = test_character(10_000);
    let mut regen = HealthRegen {
        delay: GameTimer::from_millis(6_000, TimerMode::Once),
        speed: 50,
    };
    health_regen_update(&mut character, &mut regen, 1_000);
    assert_eq!(character.health, 10_000);
    health_regen_update(&mut character, &mut regen, 5_000);
    assert_eq!(character.health, 10_050);
    health_regen_update(&mut character, &mut regen, 16);
    assert_eq!(character.health, 10_100);
}

#[test]
fn regeneration_leaves_a_full_character_alone() {
    let mut character = test_character(30_000);
    let mut regen = HealthRegen {
        delay: GameTimer::from_millis(100, TimerMode::Once),
        speed: 50,
    };
    health_regen_update(&mut character, &mut regen, 200);
    assert_eq!(character.health, 30_000);
}

#[test]
fn the_cooldown_gates_shots() {
    let mut shooter = ProjectileShooter {
        projectile_stats: ProjectileStats {
            damage: 4_500,
            knockback: 8_000_000,
            speed: 25_000_000,
            life_time: GameTimer::from_millis(200, TimerMode::Once),
        },
        attack_speed: GameTimer::from_millis(500, TimerMode::Once),
    };
    assert!(!shooter.try_shoot());
    shooter.attack_speed.tick(500);
    assert!(shooter.try_shoot());
    // Firing rewound the cooldown: the next shot must wait again.
    assert!(!shooter.try_shoot());
    assert_eq!(shooter.attack_speed.elapsed_ms, 0);
}

#[test]
fn moving_sideways_updates_the_facing() {
    let mut character = test_character(30_000);
    character.input = Vec2i { x: 1000, y: 0 };
    assert!(move_character(&mut character, 16));
    assert_eq!(character.last_x, 1000);

    character.input = Vec2i { x: 0, y: 1000 };
    assert!(move_character(&mut character, 16));
    assert_eq!(character.last_x, 1000);

    character.input = Vec2i { x: 0, y: 0 };
    assert!(!move_character(&mut character, 16));
}

#[test]
fn stats_clamp_at_the_representable_range() {
    assert_eq!(clamp_stat(123), 123);
    assert_eq!(clamp_stat(STAT_LIMIT + 1), STAT_LIMIT);
    assert_eq!(clamp_stat(-STAT_LIMIT - 1), -STAT_LIMIT);
}

#[test]
fn the_player_spawns_with_its_loadout() {
    let p = spawn_player();
    assert_eq!(p.position, Vec2i { x: 0, y: 100_000 });
    assert_eq!(p.sprite_size, Vec2i { x: 120_000, y: 120_000 });
    assert_eq!(p.collider_half_extents, Vec2i { x: 40_000, y: 60_000 });
    assert_eq!(p.character.max_health, 30_000);
    assert_eq!(p.character.health, 30_000);
    assert_eq!(p.character.speed, 7_500_000);
    assert_eq!(p.shooter.projectile_stats.damage, 4_500);
    assert_eq!(p.shooter.projectile_stats.knockback, 8_000_000);
    assert_eq!(p.shooter.projectile_stats.speed, 25_000_000);
    assert_eq!(p.shooter.projectile_stats.life_time.duration_ms, 200);
    assert_eq!(p.shooter.attack_speed.duration_ms, 500);
    assert_eq!(p.immunity.0.duration_ms, 250);
    assert_eq!(p.regen.delay.duration_ms, 6_000);
    assert_eq!(p.regen.speed, 50);
    assert_eq!(p.healthbar_offset, Vec2i { x: 0, y: -80_000 });
}

#[test]
fn movement_keys_become_a_unit_input() {
    assert_eq!(player_input_axis(true, false, false, false), Vec2i { x: 0, y: 1000 });
    assert_eq!(player_input_axis(false, true, false, false), Vec2i { x: 0, y: -1000 });
    assert_eq!(player_input_axis(false, false, true, false), Vec2i { x: -1000, y: 0 });
    assert_eq!(player_input_axis(false, false, false, true), Vec2i { x: 1000, y: 0 });
    // Opposed keys: the one read second wins.
    assert_eq!(player_input_axis(true, true, true, true), Vec2i { x: 1000, y: -1000 });
    assert_eq!(player_input_axis(false, false, false, false), Vec2i { x: 0, y: 0 });
}

#[test]
fn the_camera_stops_at_its_box() {
    let inside = Vec2i { x: 0, y: 0 };
    assert_eq!(camera_clamp(inside), inside);
    let far_left = Vec2i { x: MIN_WORLD_X - 1_000_000, y: 0 };
    assert_eq!(camera_clamp(far_left).x, MIN_WORLD_X + CAMERA_MARGIN_X);
    let far_up = Vec2i { x: 0, y: MAX_WORLD_Y + 1_000_000 };
    assert_eq!(camera_clamp(far_up).y, MAX_WORLD_Y + CAMERA_MARGIN_Y);
    let far_down = Vec2i { x: MAX_WORLD_X + 1_000_000, y: MIN_WORLD_Y - 1_000_000 };
    assert_eq!(camera_clamp(far_down).x, MAX_WORLD_X - CAMERA_MARGIN_X);
    assert_eq!(camera_clamp(far_down).y, MIN_WORLD_Y - CAMERA_MARGIN_Y);
}

#[test]
fn firing_needs_the_button_and_a_resolved_cursor() {
    let target = Vec2i { x: 5_000, y: 6_000 };
    let e = player_shoot_event(3, true, Some(target)).unwrap();
    assert_eq!(e.entity, 3);
    assert_eq!(e.target, target);
    assert_eq!(e.target_group, ENEMY_GROUP);
    assert!(player_shoot_event(3, true, None).is_none());
    assert!(player_shoot_event(3, false, Some(target)).is_none());
}
