//! The ordered tick over a real arena: cooldown gating, death handling,
//! heals, effect pulses, and the behavior machine driven end to end.

use combat_core::combat::AttackAttributes;
use combat_core::combat::DamageEvent;
use combat_core::combat::DamageType;
use combat_core::combat::DefenseAttributes;
use combat_core::enemy::AIState;
use combat_core::enemy::Enemy;
use combat_core::enemy::EnemyType;
use combat_core::world::ActorId;
use combat_core::world::World;
use combat_core::world::WorldActor;

fn player_attack_profile() -> AttackAttributes {
    AttackAttributes {
        critical_chance: 0,
        ..AttackAttributes::default()
    }
}

fn world_with_player() -> (World, ActorId) {
    let mut world = World::new();
    let player = world.spawn(WorldActor::player(
        player_attack_profile(),
        DefenseAttributes::default(),
        100_000,
        0,
        0,
    ));
    world.player = Some(player);
    (world, player)
}

fn spawn_hostile(world: &mut World, enemy_type: EnemyType, x: i64, y: i64) -> ActorId {
    let enemy = Enemy::new(enemy_type, 1);
    world.spawn(WorldActor::from_enemy(&enemy, x, y))
}

#[test]
fn adjacent_aggressive_enemy_attacks_once_then_waits_out_its_cooldown() {
    let (mut world, player) = world_with_player();
    // a warrior bug one tile below the player: inside its attack range
    let bug = spawn_hostile(&mut world, EnemyType::WarriorBug, 0, 1000);

    let first = world.tick(100);
    assert_eq!(first.intents.len(), 1);
    assert_eq!(first.intents[0].source, bug);
    assert_eq!(first.intents[0].target, player);
    // the hit resolved and landed this tick: 18.0 damage, no resistance
    assert_eq!(world.get(player).unwrap().health, 100_000 - 18_000);
    // cooldown reset to one attack period (1 / 1.2 attacks per second)
    assert_eq!(world.get(bug).unwrap().cooldown, 833);

    // while the cooldown runs, zero attack intents are issued
    let second = world.tick(100);
    assert_eq!(second.intents.len(), 0);
    let third = world.tick(100);
    assert_eq!(third.intents.len(), 0);
}

#[test]
fn health_crossing_zero_emits_exactly_one_death_even_under_two_hits() {
    let (mut world, player) = world_with_player();
    let bug = spawn_hostile(&mut world, EnemyType::WorkerBug, 0, 500_000);
    let other = spawn_hostile(&mut world, EnemyType::WorkerBug, 0, 600_000);

    // two big hits from two different sources land in the same tick
    world.pending_damage.push(DamageEvent {
        source: player,
        target: bug,
        damage: 50_000,
        damage_type: DamageType::Physical,
        is_critical: false,
    });
    world.pending_damage.push(DamageEvent {
        source: other,
        target: bug,
        damage: 50_000,
        damage_type: DamageType::Physical,
        is_critical: false,
    });
    let report = world.tick(100);

    assert_eq!(report.death_events.len(), 1);
    assert_eq!(report.death_events[0].entity, bug);
    // the dead actor is removed in the same tick
    assert!(world.get(bug).is_none());
    // the survivors are untouched by death processing
    assert!(world.get(player).is_some());
    assert!(world.get(other).is_some());
}

#[test]
fn killer_is_credited_with_the_defeat() {
    let (mut world, player) = world_with_player();
    let bug = spawn_hostile(&mut world, EnemyType::WorkerBug, 0, 500_000);
    world.pending_damage.push(DamageEvent {
        source: player,
        target: bug,
        damage: 50_000,
        damage_type: DamageType::Physical,
        is_critical: false,
    });
    world.tick(100);
    assert_eq!(world.get(player).unwrap().stats.enemies_defeated, 1);
    assert_eq!(world.get(player).unwrap().stats.damage_dealt, 50_000);
}

#[test]
fn healing_never_resurrects_a_removed_actor() {
    let (mut world, player) = world_with_player();
    let bug = spawn_hostile(&mut world, EnemyType::WorkerBug, 0, 500_000);
    world.pending_damage.push(DamageEvent {
        source: player,
        target: bug,
        damage: 1_000_000,
        damage_type: DamageType::Physical,
        is_critical: false,
    });
    // the heal is queued before the tick; deaths are processed first
    world.perform_heal(bug, 10_000_000);
    let report = world.tick(100);
    assert_eq!(report.death_events.len(), 1);
    assert!(world.get(bug).is_none());
}

#[test]
fn healing_is_capped_at_max_health() {
    let (mut world, player) = world_with_player();
    world.pending_damage.push(DamageEvent {
        source: player,
        target: player,
        damage: 30_000,
        damage_type: DamageType::Physical,
        is_critical: false,
    });
    world.tick(100);
    assert_eq!(world.get(player).unwrap().health, 70_000);
    world.perform_heal(player, 50_000);
    world.tick(100);
    assert_eq!(world.get(player).unwrap().health, 100_000);
}

#[test]
fn boss_at_29_percent_health_retreats_on_the_next_tick() {
    let mut world = World::new();
    let boss = spawn_hostile(&mut world, EnemyType::EliteBot, 0, 0);
    // bring the boss to exactly 29% of its 360.0 health
    world.pending_damage.push(DamageEvent {
        source: boss,
        target: boss,
        damage: 285_600,
        damage_type: DamageType::Physical,
        is_critical: false,
    });
    world.tick(100);
    assert_eq!(world.get(boss).unwrap().health, 104_400);
    world.tick(100);
    assert_eq!(world.get(boss).unwrap().ai_state, AIState::Retreat);
}

#[test]
fn wounded_queen_summons_once_per_cooldown() {
    let mut world = World::new();
    let queen = spawn_hostile(&mut world, EnemyType::QueenBug, 0, 0);
    // wound her to just under half health: 299.999 of 600.0
    world.pending_damage.push(DamageEvent {
        source: queen,
        target: queen,
        damage: 348_001,
        damage_type: DamageType::Physical,
        is_critical: false,
    });
    let first = world.tick(100);
    assert_eq!(first.summons.len(), 0);
    // eligible now: health fraction 0.499, not attacking, cooldown ready
    let second = world.tick(100);
    assert_eq!(second.summons.len(), 1);
    assert_eq!(second.summons[0], queen);
    // rate-limited by the attack cooldown: nothing on the next tick
    let third = world.tick(100);
    assert_eq!(third.summons.len(), 0);
}

#[test]
fn externally_triggered_attack_resolves_and_consumes_the_cooldown() {
    let (mut world, player) = world_with_player();
    let bug = spawn_hostile(&mut world, EnemyType::WarriorBug, 0, 900_000);

    assert!(world.perform_attack(player, bug));
    assert_eq!(world.pending_damage.len(), 1);
    assert_eq!(world.pending_damage[0].damage, 10_000);
    assert_eq!(world.get(player).unwrap().cooldown, 1000);
    // the cooldown gate refuses a second attack at once
    assert!(!world.perform_attack(player, bug));

    world.tick(100);
    // 10.0 damage less the bug's 9.6 flat defense
    assert_eq!(world.get(bug).unwrap().health, 96_000 - 400);
}

#[test]
fn burn_effect_queues_pulses_for_the_next_tick() {
    let mut world = World::new();
    let bug = spawn_hostile(&mut world, EnemyType::WorkerBug, 0, 0);
    assert!(world.add_combat_effect(
        bug,
        combat_core::effects::CombatEffectType::Burn,
        3000,
        5_000
    ));
    let report = world.tick(1000);
    // nothing applied yet this tick...
    assert_eq!(report.damage_events.len(), 0);
    // ...but one Explosive pulse waits for the next one
    assert_eq!(world.pending_damage.len(), 1);
    assert_eq!(world.pending_damage[0].damage, 5_000);
    assert_eq!(world.pending_damage[0].damage_type, DamageType::Explosive);
    assert_eq!(world.pending_damage[0].target, bug);

    let second = world.tick(1000);
    assert_eq!(second.damage_events.len(), 1);
    // 5.0 less the worker bug's 2.4 flat defense
    assert_eq!(world.get(bug).unwrap().health, 36_000 - 2_600);
}

#[test]
fn stale_handles_miss_after_removal_and_reuse() {
    let mut world = World::new();
    let first = spawn_hostile(&mut world, EnemyType::ScoutBot, 0, 0);
    assert!(world.get(first).is_some());
    assert!(world.remove(first));
    assert!(world.get(first).is_none());
    assert!(!world.remove(first));
    // the slot is reused under a new generation; the old handle still misses
    let second = spawn_hostile(&mut world, EnemyType::CombatBot, 0, 0);
    assert_eq!(second.index, first.index);
    assert_ne!(second.generation, first.generation);
    assert!(world.get(first).is_none());
    assert!(world.get(second).is_some());
}

#[test]
fn frozen_actor_issues_no_intent_until_the_freeze_expires() {
    let (mut world, _player) = world_with_player();
    let bug = spawn_hostile(&mut world, EnemyType::WarriorBug, 0, 1000);
    assert!(world.add_combat_effect(
        bug,
        combat_core::effects::CombatEffectType::Freeze,
        2000,
        0
    ));
    let first = world.tick(1000);
    assert_eq!(first.intents.len(), 0);
    let second = world.tick(1000);
    assert_eq!(second.intents.len(), 0);
    // the freeze has expired; the attack goes out
    let third = world.tick(1000);
    assert_eq!(third.intents.len(), 1);
}

#[test]
fn behavior_stage_forces_a_dead_actor_to_dead() {
    let mut world = World::new();
    let boss = spawn_hostile(&mut world, EnemyType::EliteBot, 0, 0);
    // drive the actor below zero health directly, then run only the
    // behavior stage: the dead are forced to the terminal state, never
    // into the boss's retreat rule
    let slot = world.slots[boss.index];
    let mut actor = slot.occupant.unwrap();
    actor.health = -5_000;
    world.slots[boss.index] = combat_core::world::Slot {
        generation: slot.generation,
        occupant: Some(actor),
    };
    world.update_enemy_ai();
    assert_eq!(world.get(boss).unwrap().ai_state, AIState::Dead);
    assert!(world.get(boss).unwrap().target.is_none());
}

#[test]
fn killer_is_credited_once_per_kill() {
    let (mut world, player) = world_with_player();
    let first = spawn_hostile(&mut world, EnemyType::WorkerBug, 0, 500_000);
    let second = spawn_hostile(&mut world, EnemyType::WorkerBug, 0, 600_000);
    for target in [first, second] {
        world.pending_damage.push(DamageEvent {
            source: player,
            target,
            damage: 1_000_000,
            damage_type: DamageType::Physical,
            is_critical: false,
        });
    }
    let report = world.tick(100);
    assert_eq!(report.death_events.len(), 2);
    assert_eq!(world.get(player).unwrap().stats.enemies_defeated, 2);
}
