//! Status-effect timelines and the behavior state machine on concrete
//! values.

use combat_core::ai::next_ai_state;
use combat_core::ai::patrol_candidate;
use combat_core::combat::DefenseAttributes;
use combat_core::ai::summon_ready;
use combat_core::effects::CombatEffect;
use combat_core::effects::CombatEffectType;
use combat_core::effects::EffectSet;
use combat_core::enemy::AIBehavior;
use combat_core::enemy::AIState;
use combat_core::enemy::EnemyType;
use combat_core::scheduler::attack_gate_open;
use combat_core::scheduler::cooldown_after_attack;

#[test]
fn effect_present_just_before_expiry_absent_at_expiry() {
    let mut effects = EffectSet::new();
    effects.insert(CombatEffect::new(CombatEffectType::Burn, 3000, 5_000));
    // one thousandth of a second before the duration: still present
    effects.advance(2999);
    let present = effects.get(CombatEffectType::Burn);
    assert!(present.is_some());
    assert_eq!(present.unwrap().timer, 2999);
    // the moment elapsed reaches the duration: gone
    effects.advance(1);
    assert!(effects.get(CombatEffectType::Burn).is_none());
}

#[test]
fn burn_pulses_once_per_whole_second_and_expires() {
    // Burn magnitude 5, duration 3.0, advanced with dt 1.0:
    // pulses on the first, second and third advance, removed after the third
    let mut effects = EffectSet::new();
    effects.insert(CombatEffect::new(CombatEffectType::Burn, 3000, 5_000));
    let p1 = effects.advance(1000);
    assert_eq!(p1.burn, Some(5_000));
    let p2 = effects.advance(1000);
    assert_eq!(p2.burn, Some(5_000));
    let p3 = effects.advance(1000);
    assert_eq!(p3.burn, Some(5_000));
    assert!(effects.get(CombatEffectType::Burn).is_none());
    let p4 = effects.advance(1000);
    assert_eq!(p4.burn, None);
}

#[test]
fn sub_second_ticks_pulse_only_on_the_boundary() {
    let mut effects = EffectSet::new();
    effects.insert(CombatEffect::new(CombatEffectType::Poison, 2500, 2_000));
    let p1 = effects.advance(600);
    assert_eq!(p1.poison, None);
    let p2 = effects.advance(600); // 1200: crossed the one-second mark
    assert_eq!(p2.poison, Some(2_000));
    let p3 = effects.advance(600); // 1800
    assert_eq!(p3.poison, None);
    let p4 = effects.advance(600); // 2400: crossed the two-second mark
    assert_eq!(p4.poison, Some(2_000));
}

#[test]
fn same_kind_reapplication_overwrites() {
    let mut effects = EffectSet::new();
    effects.insert(CombatEffect::new(CombatEffectType::Burn, 3000, 5_000));
    effects.insert(CombatEffect::new(CombatEffectType::Burn, 9000, 7_000));
    let burn = effects.get(CombatEffectType::Burn).unwrap();
    assert_eq!(burn.duration, 9000);
    assert_eq!(burn.value, 7_000);
    // a different kind coexists
    effects.insert(CombatEffect::new(CombatEffectType::Slow, 1000, 500));
    assert!(effects.get(CombatEffectType::Burn).is_some());
    assert!(effects.get(CombatEffectType::Slow).is_some());
}

#[test]
fn slow_halves_attack_speed_without_compounding() {
    let mut effects = EffectSet::new();
    assert_eq!(effects.effective_attack_speed(1000), 1000);
    effects.insert(CombatEffect::new(CombatEffectType::Slow, 3000, 500));
    assert_eq!(effects.effective_attack_speed(1000), 500);
    // re-application overwrites; the factor never stacks
    effects.insert(CombatEffect::new(CombatEffectType::Slow, 3000, 500));
    assert_eq!(effects.effective_attack_speed(1000), 500);
}

#[test]
fn freeze_and_stun_force_the_remaining_wait() {
    let mut effects = EffectSet::new();
    assert_eq!(effects.forced_cooldown(), 0);
    effects.insert(CombatEffect::new(CombatEffectType::Freeze, 2000, 0));
    assert_eq!(effects.forced_cooldown(), 2000);
    effects.advance(500);
    assert_eq!(effects.forced_cooldown(), 1500);
    effects.insert(CombatEffect::new(CombatEffectType::Stun, 4000, 0));
    assert_eq!(effects.forced_cooldown(), 4000);
}

#[test]
fn shield_raises_physical_and_energy_resistance() {
    let mut effects = EffectSet::new();
    effects.insert(CombatEffect::new(CombatEffectType::Shield, 5000, 250));
    let base = DefenseAttributes::default();
    let shielded = effects.shielded_defense(&base);
    assert_eq!(shielded.physical_resistance, 250);
    assert_eq!(shielded.energy_resistance, 250);
    assert_eq!(shielded.laser_resistance, 0);
}

#[test]
fn boss_below_threshold_retreats_at_any_distance() {
    // health fraction 0.29: Retreat, whether adjacent or far away
    for dist_sq in [0u64, 1_000_000, u64::MAX] {
        let state = next_ai_state(AIBehavior::Boss, dist_sq, 3000, 12_000, 290, false);
        assert_eq!(state, AIState::Retreat);
    }
    // at the threshold the boss fights on
    let state = next_ai_state(AIBehavior::Boss, 0, 3000, 12_000, 300, false);
    assert_eq!(state, AIState::Attack);
}

#[test]
fn transition_table_rows() {
    // Passive: attacks only while under attack
    assert_eq!(next_ai_state(AIBehavior::Passive, 0, 1000, 4000, 1000, true), AIState::Attack);
    assert_eq!(next_ai_state(AIBehavior::Passive, 0, 1000, 4000, 1000, false), AIState::Idle);
    // Patrol: chase on detection, else wander
    assert_eq!(
        next_ai_state(AIBehavior::Patrol, 7000 * 7000, 3000, 8000, 1000, false),
        AIState::Chase
    );
    assert_eq!(
        next_ai_state(AIBehavior::Patrol, 9000 * 9000, 3000, 8000, 1000, false),
        AIState::Patrol
    );
    // Aggressive: attack in range, chase on detection, else idle
    assert_eq!(
        next_ai_state(AIBehavior::Aggressive, 1500 * 1500, 2000, 6000, 1000, false),
        AIState::Attack
    );
    assert_eq!(
        next_ai_state(AIBehavior::Aggressive, 3000 * 3000, 2000, 6000, 1000, false),
        AIState::Chase
    );
    assert_eq!(
        next_ai_state(AIBehavior::Aggressive, 7000 * 7000, 2000, 6000, 1000, false),
        AIState::Idle
    );
    // Guard: chase on detection, else return to post
    assert_eq!(
        next_ai_state(AIBehavior::Guard, 4000 * 4000, 2000, 5000, 1000, false),
        AIState::Chase
    );
    assert_eq!(
        next_ai_state(AIBehavior::Guard, 6000 * 6000, 2000, 5000, 1000, false),
        AIState::Idle
    );
    // Ranged: attack in range, hold at Chase while detected
    assert_eq!(
        next_ai_state(AIBehavior::Ranged, 4000 * 4000, 5000, 7000, 1000, false),
        AIState::Attack
    );
    assert_eq!(
        next_ai_state(AIBehavior::Ranged, 6000 * 6000, 5000, 7000, 1000, false),
        AIState::Chase
    );
    // Spawn: always idle
    assert_eq!(next_ai_state(AIBehavior::Spawn, 0, 0, 20_000, 1000, true), AIState::Idle);
}

#[test]
fn queen_summon_eligibility() {
    // health fraction 0.45, not attacking, cooldown ready: eligible
    assert!(summon_ready(EnemyType::QueenBug, 450, false, 0));
    // rate-limited by the attack cooldown
    assert!(!summon_ready(EnemyType::QueenBug, 450, false, 700));
    // not while mid-attack
    assert!(!summon_ready(EnemyType::QueenBug, 450, true, 0));
    // not above half health
    assert!(!summon_ready(EnemyType::QueenBug, 500, false, 0));
    // only the queen summons
    assert!(!summon_ready(EnemyType::EliteBot, 450, false, 0));
}

#[test]
fn cooldown_reset_is_one_attack_period() {
    assert_eq!(cooldown_after_attack(1000), 1000);
    assert_eq!(cooldown_after_attack(500), 2000);
    assert_eq!(cooldown_after_attack(2000), 500);
    // a non-positive attack speed never attacks again
    assert_eq!(cooldown_after_attack(0), u64::MAX);
    assert!(attack_gate_open(0, 0));
    assert!(!attack_gate_open(1, 0));
    assert!(!attack_gate_open(0, 1));
}

#[test]
fn patrol_step_picks_a_neighboring_tile() {
    assert_eq!(patrol_candidate(5, 5, 0), (6, 5));
    assert_eq!(patrol_candidate(5, 5, 1), (4, 5));
    assert_eq!(patrol_candidate(5, 5, 2), (5, 6));
    assert_eq!(patrol_candidate(5, 5, 3), (5, 4));
    // never past the map's origin
    assert_eq!(patrol_candidate(0, 0, 1), (0, 0));
    assert_eq!(patrol_candidate(0, 0, 7), (0, 0));
}
