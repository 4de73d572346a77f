//! Archetype tables, nests, towers, walls and the player's combat driver
//! on concrete values.

use combat_core::combat::CombatStats;
use combat_core::combat::DamageType;
use combat_core::defense::DefenseEffect;
use combat_core::defense::DefenseEffectType;
use combat_core::enemy::EnemyPosition;
use combat_core::enemy::EnemyStatus;
use combat_core::enemy::EnemyWaveConfig;
use combat_core::defense::perform_tower_attack;
use combat_core::defense::DefenseRange;
use combat_core::defense::DefenseStats;
use combat_core::defense::DefenseTower;
use combat_core::defense::DefenseTowerType;
use combat_core::defense::DefenseWall;
use combat_core::effects::CombatEffectType;
use combat_core::enemy::AIBehavior;
use combat_core::enemy::AttackType;
use combat_core::enemy::Enemy;
use combat_core::enemy::EnemyBase;
use combat_core::enemy::EnemySpawnConfig;
use combat_core::enemy::EnemyType;
use combat_core::player::perform_player_attack;
use combat_core::player::perform_special_attack;
use combat_core::player::select_nearest_target;
use combat_core::player::update_player_combat;
use combat_core::player::PlayerCombat;
use combat_core::player::TargetCandidate;
use combat_core::spawn::base_spawn_decision;
use combat_core::spawn::edge_spawn_tile;
use combat_core::spawn::initialize_enemy_bases;
use combat_core::spawn::spawn_enemy_at;
use combat_core::world::World;
use combat_core::world::WorldActor;
use combat_core::combat::AttackAttributes;
use combat_core::combat::DefenseAttributes;

#[test]
fn archetype_base_stats() {
    let queen = EnemyType::QueenBug.base_stats();
    assert_eq!(queen.health, 500_000);
    assert_eq!(queen.damage, 50_000);
    assert_eq!(queen.attack_speed, 500);
    assert_eq!(queen.detection_range, 12_000);
    assert_eq!(queen.xp_reward, 300);
    let fortress = EnemyType::RobotFortress.base_stats();
    assert_eq!(fortress.damage, 0);
    assert_eq!(fortress.health, 1_000_000);
}

#[test]
fn leveling_scales_health_damage_defense_and_reward() {
    let e = Enemy::new(EnemyType::WarriorBug, 1);
    assert_eq!(e.stats.health, 96_000);
    assert_eq!(e.stats.damage, 18_000);
    assert_eq!(e.stats.defense, 9_600);
    assert_eq!(e.stats.xp_reward, 36);
    // speeds and ranges are not scaled
    assert_eq!(e.stats.attack_speed, 1200);
    assert_eq!(e.stats.attack_range, 1500);
    assert_eq!(e.current_health, 96_000);
}

#[test]
fn enemy_damage_heal_and_health_fraction() {
    let mut e = Enemy::new(EnemyType::WarriorBug, 1);
    e.take_damage(20_000);
    // 20.0 less the 9.6 flat defense
    assert_eq!(e.current_health, 96_000 - 10_400);
    assert_eq!(e.health_percentage(), 891);
    assert!(!e.is_dead());
    e.heal(1_000_000);
    assert_eq!(e.current_health, 96_000);
    e.take_damage(10_000_000);
    assert!(e.is_dead());
    assert_eq!(e.health_percentage(), 0);
}

#[test]
fn spawn_table_buckets() {
    let config = EnemySpawnConfig::default();
    assert_eq!(config.random_enemy_type(0), EnemyType::ScoutBot);
    assert_eq!(config.random_enemy_type(199), EnemyType::ScoutBot);
    assert_eq!(config.random_enemy_type(200), EnemyType::CombatBot);
    assert_eq!(config.random_enemy_type(499), EnemyType::CombatBot);
    assert_eq!(config.random_enemy_type(500), EnemyType::HeavyBot);
    assert_eq!(config.random_enemy_type(600), EnemyType::EliteBot);
    assert_eq!(config.random_enemy_type(650), EnemyType::WorkerBug);
    assert_eq!(config.random_enemy_type(800), EnemyType::WarriorBug);
    assert_eq!(config.random_enemy_type(999), EnemyType::WarriorBug);
}

#[test]
fn nests_spawn_on_their_interval_from_their_own_list() {
    let mut base = EnemyBase::new(EnemyType::RobotFortress);
    assert_eq!(base.spawn_interval, 15_000);
    assert_eq!(base.max_spawn_count, 20);
    assert!(base.can_spawn());
    // the interval has not elapsed yet
    assert_eq!(base.advance_spawn(1000, 0), None);
    // once it has, the roll picks from the fortress list
    assert_eq!(base.advance_spawn(14_000, 0), Some(EnemyType::ScoutBot));
    assert_eq!(base.current_spawn_count, 1);
    assert_eq!(base.spawn_timer, 0);
    assert_eq!(base.advance_spawn(15_000, 1), Some(EnemyType::CombatBot));
    assert_eq!(base.advance_spawn(15_000, 5), Some(EnemyType::ScoutBird));
    base.reset_spawn_count();
    assert_eq!(base.current_spawn_count, 0);
    let types = EnemyBase::new(EnemyType::AIMotherBase).get_spawn_types();
    assert_eq!(types.len(), 6);
    assert_eq!(types[0], EnemyType::CombatBot);
}

#[test]
fn tower_profiles_and_attack_dispatch() {
    let arrow = DefenseTower::new(DefenseTowerType::ArrowTower);
    assert_eq!(arrow.stats.damage, 10_000);
    assert_eq!(arrow.get_attack_interval(), 500);
    let shot = perform_tower_attack(&arrow);
    assert_eq!(shot.damage_type, DamageType::Physical);
    assert!(shot.effect.is_none());

    let ice_shot = perform_tower_attack(&DefenseTower::new(DefenseTowerType::IceTower));
    assert_eq!(ice_shot.damage_type, DamageType::Energy);
    let freeze = ice_shot.effect.unwrap();
    assert_eq!(freeze.effect_type, CombatEffectType::Freeze);
    assert_eq!(freeze.duration, 2000);

    let poison_shot = perform_tower_attack(&DefenseTower::new(DefenseTowerType::PoisonTower));
    assert_eq!(poison_shot.damage_type, DamageType::Corrosive);
    let poison = poison_shot.effect.unwrap();
    assert_eq!(poison.effect_type, CombatEffectType::Poison);
    assert_eq!(poison.duration, 5000);
    assert_eq!(poison.value, 2000);

    let electric_shot = perform_tower_attack(&DefenseTower::new(DefenseTowerType::ElectricTower));
    assert_eq!(electric_shot.damage_type, DamageType::Energy);
    assert_eq!(electric_shot.effect.unwrap().effect_type, CombatEffectType::Stun);
}

#[test]
fn tower_upgrade_grows_its_profile() {
    let mut tower = DefenseTower::new(DefenseTowerType::ArrowTower);
    tower.upgrade();
    assert_eq!(tower.stats.level, 2);
    assert_eq!(tower.stats.damage, 12_000);
    assert_eq!(tower.stats.range, 165_000);
    assert_eq!(tower.stats.attack_speed, 2200);
    assert_eq!(tower.stats.upgrade_cost, 37_500);
}

#[test]
fn wall_absorbs_repairs_and_upgrades() {
    let mut wall = DefenseWall::new();
    let actual = wall.take_damage(15_000);
    assert_eq!(actual, 5_000);
    assert_eq!(wall.health, 95_000);
    wall.repair(100_000);
    assert_eq!(wall.health, 100_000);
    wall.upgrade();
    assert_eq!(wall.max_health, 130_000);
    assert_eq!(wall.health, 130_000);
    assert_eq!(wall.defense, 12_000);
    assert!(!wall.is_destroyed());
    wall.take_damage(10_000_000);
    assert!(wall.is_destroyed());
    assert_eq!(DefenseRange::new(4000).range, 4000);
    let mut stats = DefenseStats::default();
    stats.record_shot(12_000);
    assert_eq!(stats.shots_fired, 1);
    assert_eq!(stats.total_damage, 12_000);
}

#[test]
fn player_timers_and_combo_window() {
    let mut pc = PlayerCombat {
        combo_count: 3,
        combo_timer: 1500,
        special_attack_cooldown: 400,
        ultimate_cooldown: 0,
        ..PlayerCombat::default()
    };
    update_player_combat(&mut pc, 500);
    assert_eq!(pc.combo_timer, 1000);
    assert_eq!(pc.combo_count, 3);
    assert_eq!(pc.special_attack_cooldown, 0);
    // the combo chain resets the moment its window closes
    update_player_combat(&mut pc, 1000);
    assert_eq!(pc.combo_timer, 0);
    assert_eq!(pc.combo_count, 0);
}

#[test]
fn nearest_target_selection() {
    let mut world = World::new();
    let a = spawn_enemy_at(&mut world, EnemyType::WorkerBug, 3, 0);
    let b = spawn_enemy_at(&mut world, EnemyType::WorkerBug, 1, 0);
    let c = spawn_enemy_at(&mut world, EnemyType::WorkerBug, 9, 0);
    let cands = vec![
        TargetCandidate { id: a, dist_sq: 3000 * 3000 },
        TargetCandidate { id: b, dist_sq: 1000 * 1000 },
        TargetCandidate { id: c, dist_sq: 9_000_000_000 },
    ];
    let best = select_nearest_target(&cands, 5000).unwrap();
    assert_eq!(best.id, b);
    // nothing within a tiny range
    assert!(select_nearest_target(&cands, 500).is_none());
}

#[test]
fn player_basic_attack_applies_the_combo_factor() {
    let mut world = World::new();
    let player = world.spawn(WorldActor::player(
        AttackAttributes {
            critical_chance: 0,
            ..AttackAttributes::default()
        },
        DefenseAttributes::default(),
        100_000,
        0,
        0,
    ));
    world.player = Some(player);
    let bug = spawn_enemy_at(&mut world, EnemyType::WarriorBug, 0, 1);
    let cands = vec![TargetCandidate { id: bug, dist_sq: 1000 * 1000 }];
    let mut pc = PlayerCombat::default();

    let hit = perform_player_attack(&mut world, player, &mut pc, &cands);
    assert_eq!(hit, Some(bug));
    assert_eq!(pc.combo_count, 1);
    assert_eq!(pc.combo_timer, 2000);
    // base 10.0 scaled by the 1.1 combo factor, no resistance
    assert_eq!(world.pending_damage.last().unwrap().damage, 11_000);
    // the player's cooldown is consumed: no second hit at once
    assert_eq!(perform_player_attack(&mut world, player, &mut pc, &cands), None);
}

#[test]
fn player_special_attack_slows_everyone_in_reach() {
    let mut world = World::new();
    let player = world.spawn(WorldActor::player(
        AttackAttributes {
            critical_chance: 0,
            ..AttackAttributes::default()
        },
        DefenseAttributes::default(),
        100_000,
        0,
        0,
    ));
    world.player = Some(player);
    let near = spawn_enemy_at(&mut world, EnemyType::WorkerBug, 0, 1);
    let far = spawn_enemy_at(&mut world, EnemyType::WorkerBug, 0, 9);
    let cands = vec![
        TargetCandidate { id: near, dist_sq: 1000 * 1000 },
        TargetCandidate { id: far, dist_sq: 9000u64 * 9000 },
    ];
    let mut pc = PlayerCombat::default();
    // reach is one and a half attack ranges: only the near bug is hit
    let hit = perform_special_attack(&mut world, player, &mut pc, &cands);
    assert_eq!(hit, Some(1));
    assert_eq!(pc.special_attack_cooldown, 10_000);
    let slowed = world.get(near).unwrap();
    let slow = slowed.effects.get(CombatEffectType::Slow).unwrap();
    assert_eq!(slow.duration, 3000);
    assert_eq!(slow.value, 500);
    assert!(world.get(far).unwrap().effects.get(CombatEffectType::Slow).is_none());
    // double damage, resolved without a critical roll
    assert_eq!(world.pending_damage.last().unwrap().damage, 20_000);
    // while the cooldown runs, the special attack is refused
    assert_eq!(perform_special_attack(&mut world, player, &mut pc, &cands), None);
}

#[test]
fn map_edges_and_initial_nests() {
    assert_eq!(edge_spawn_tile(100, 80, 0, 250), (50, 0));
    assert_eq!(edge_spawn_tile(100, 80, 1, 250), (50, 79));
    assert_eq!(edge_spawn_tile(100, 80, 2, 250), (0, 10));
    assert_eq!(edge_spawn_tile(100, 80, 3, 250), (99, 10));

    let mut world = World::new();
    let rolls = vec![0, 10, 1, 20, 2, 0, 1];
    let bases = initialize_enemy_bases(&mut world, 100, 80, &rolls);
    assert_eq!(bases.len(), 3);
    assert_eq!(bases[0].1.base_type, EnemyType::RobotFortress);
    assert_eq!(bases[1].1.base_type, EnemyType::RobotFortress);
    assert_eq!(bases[2].1.base_type, EnemyType::AIMotherBase);
    for (id, _) in &bases {
        assert!(world.get(*id).is_some());
    }
}

#[test]
fn spawned_hostile_stands_on_its_tile() {
    let mut world = World::new();
    let id = spawn_enemy_at(&mut world, EnemyType::QueenBug, 7, 11);
    let queen = world.get(id).unwrap();
    assert_eq!(queen.x, 7_000);
    assert_eq!(queen.y, 11_000);
    // level one: one fifth more than the base 500.0
    assert_eq!(queen.max_health, 600_000);
    assert_eq!(queen.health, 600_000);
}

#[test]
fn bookkeeping_type_defaults() {
    let status = EnemyStatus::default();
    assert!(!status.is_spawned && !status.is_attacking && !status.is_retreating);
    assert_eq!(status.attack_timer, 0);

    let waves = EnemyWaveConfig::default();
    assert_eq!(waves.current_wave, 1);
    assert_eq!(waves.enemies_per_wave, 5);
    assert_eq!(waves.wave_interval, 30_000);

    let position = EnemyPosition { tile_x: 4, tile_y: 9 };
    assert_eq!((position.tile_x, position.tile_y), (4, 9));

    let stats = CombatStats::default();
    assert_eq!(stats.total_attacks, 0);
    assert_eq!(stats.damage_dealt, 0);

    let effect = DefenseEffect::new(DefenseEffectType::Burn, 4000, 1500);
    assert_eq!(effect.duration, 4000);
    assert_eq!(effect.value, 1500);
}

#[test]
fn player_ultimate_attack_stuns_and_marks_critical() {
    let mut world = World::new();
    let player = world.spawn(WorldActor::player(
        AttackAttributes {
            critical_chance: 0,
            ..AttackAttributes::default()
        },
        DefenseAttributes::default(),
        100_000,
        0,
        0,
    ));
    world.player = Some(player);
    let near = spawn_enemy_at(&mut world, EnemyType::WorkerBug, 0, 2);
    let cands = vec![TargetCandidate { id: near, dist_sq: 2000u64 * 2000 }];
    let mut pc = PlayerCombat::default();
    // reach is twice the attack range of one tile
    let hit = combat_core::player::perform_ultimate_attack(&mut world, player, &mut pc, &cands);
    assert_eq!(hit, Some(1));
    assert_eq!(pc.ultimate_cooldown, 30_000);
    let stunned = world.get(near).unwrap();
    let stun = stunned.effects.get(CombatEffectType::Stun).unwrap();
    assert_eq!(stun.duration, 2000);
    let ev = world.pending_damage.last().unwrap();
    // triple damage, and the hit is marked critical
    assert_eq!(ev.damage, 30_000);
    assert!(ev.is_critical);
}

#[test]
fn archetype_tags_and_names() {
    assert_eq!(EnemyType::QueenBug.ai_behavior(), AIBehavior::Boss);
    assert_eq!(EnemyType::QueenBug.attack_type(), AttackType::Summon);
    assert_eq!(EnemyType::SpitterBug.attack_type(), AttackType::Spit);
    assert_eq!(EnemyType::RobotFortress.attack_type(), AttackType::NoAttack);
    assert_eq!(EnemyType::ScoutBot.name(), "scout bot");
}

#[test]
fn periodic_edge_nest_decision() {
    // a tenth of the draws place a nest; three in ten of those are a
    // mother base
    assert_eq!(base_spawn_decision(99, 299), Some(EnemyType::AIMotherBase));
    assert_eq!(base_spawn_decision(0, 300), Some(EnemyType::RobotFortress));
    assert_eq!(base_spawn_decision(0, 999), Some(EnemyType::RobotFortress));
    assert_eq!(base_spawn_decision(100, 0), None);
    assert_eq!(base_spawn_decision(999, 0), None);
    // rolls wrap at one thousand
    assert_eq!(base_spawn_decision(1000, 1300), Some(EnemyType::RobotFortress));
}
