use skirmish_core::asset::{
    GameSprites, NpcData, ProjectileData, IMMUNITY_MS, NPC_ACCEL, NPC_DAMP, TARGET_CHANGE_MAX_MS,
    TARGET_CHANGE_MIN_MS,
};
use skirmish_core::combat::{ENEMY_GROUP, PROJECTILE_GROUP, WORLD_GROUP};
use skirmish_core::npc::NpcKind;
use skirmish_core::timer::TimerMode;
use skirmish_core::units::{ColorMilli, Vec2i};

fn slime() -> NpcData {
    NpcData {
        sprite_name: String::from("slime.png"),
        sprite_size: Vec2i { x: 64_000, y: 64_000 },
        sprite_color: ColorMilli { r: 400, g: 900, b: 400, a: 1000 },
        collider_halfextents: Vec2i { x: 30_000, y: 25_000 },
        min_difficulty: 0,
        max_difficulty: Some(100_000),
        max_health: 10_000,
        attack_speed_ms: 2_000,
        projectile_stats: ProjectileData {
            damage: 2_000,
            knockback: 4_000_000,
            speed: 10_000_000,
            life_time_ms: 300,
        },
        speed: 4_000_000,
        kind: NpcKind::Hostile,
    }
}

#[test]
fn eligibility_follows_the_difficulty_window() {
    let d = slime();
    assert!(d.eligible(0));
    assert!(d.eligible(100_000));
    assert!(!d.eligible(100_001));

    let mut open_ended = slime();
    open_ended.min_difficulty = 5_000;
    open_ended.max_difficulty = None;
    assert!(!open_ended.eligible(4_999));
    assert!(open_ended.eligible(5_000));
    assert!(open_ended.eligible(1_000_000));
}

#[test]
fn a_loaded_npc_starts_at_full_health_with_its_stats() {
    let d = slime();
    let position = Vec2i { x: 123_000, y: -45_000 };
    let b = d.load_entity(position);
    assert_eq!(b.position, position);
    assert_eq!(b.sprite_name, "slime.png");
    assert_eq!(b.sprite_size, d.sprite_size);
    assert_eq!(b.sprite_color, d.sprite_color);
    assert_eq!(b.collider_halfextents, d.collider_halfextents);
    assert_eq!(b.groups.memberships, ENEMY_GROUP);
    assert_eq!(b.groups.filters, PROJECTILE_GROUP | WORLD_GROUP);

    assert_eq!(b.character.max_health, 10_000);
    assert_eq!(b.character.health, 10_000);
    assert_eq!(b.character.speed, 4_000_000);
    assert_eq!(b.character.accel, NPC_ACCEL);
    assert_eq!(b.character.damp, NPC_DAMP);
    assert_eq!(b.character.last_x, -1000);
    assert_eq!(b.character.input, Vec2i { x: 0, y: 0 });

    assert_eq!(b.immunity.0.duration_ms, IMMUNITY_MS);
    assert_eq!(b.immunity.0.mode, TimerMode::Once);

    assert_eq!(b.shooter.projectile_stats.damage, 2_000);
    assert_eq!(b.shooter.projectile_stats.knockback, 4_000_000);
    assert_eq!(b.shooter.projectile_stats.speed, 10_000_000);
    assert_eq!(b.shooter.projectile_stats.life_time.duration_ms, 300);
    assert_eq!(b.shooter.projectile_stats.life_time.mode, TimerMode::Once);
    assert_eq!(b.shooter.attack_speed.duration_ms, 2_000);

    assert_eq!(b.controller.kind, NpcKind::Hostile);
    assert_eq!(b.controller.target, None);
    assert_eq!(b.controller.target_change.mode, TimerMode::Repeating);
    assert!(TARGET_CHANGE_MIN_MS <= b.controller.target_change.duration_ms);
    assert!(b.controller.target_change.duration_ms < TARGET_CHANGE_MAX_MS);

    // 20 units below the collider's lower edge.
    assert_eq!(b.healthbar_offset, Vec2i { x: 0, y: -45_000 });
}

#[test]
fn the_sprite_cache_issues_once_and_remembers() {
    let mut sprites = GameSprites::new();
    let name = String::from("human-normal.png");
    let h = sprites.get_or_load(&name, 7);
    assert_eq!(h, 7);
    // Asking again returns the cached handle, not the fresh one offered.
    let h = sprites.get_or_load(&name, 9);
    assert_eq!(h, 7);
    // A different name takes the fresh handle.
    let other = String::from("slashNormal.png");
    let h = sprites.get_or_load(&other, 9);
    assert_eq!(h, 9);
    assert_eq!(sprites.sprites.len(), 2);
}
