//! Damage-resolution behavior on concrete values.

use combat_core::combat::AttackAttributes;
use combat_core::combat::Combat;
use combat_core::combat::DefenseAttributes;
use combat_core::combat::resolve_attack;
use combat_core::combat::resolve_attack_random;
use combat_core::math::safe_multiply;
use combat_core::combat::DamageType;

fn attack(damage: u64, critical_chance: u32, critical_multiplier: u32, penetration: u64) -> AttackAttributes {
    AttackAttributes {
        damage,
        critical_chance,
        critical_multiplier,
        penetration,
        ..AttackAttributes::default()
    }
}

fn defense_with_physical(resistance: u32) -> DefenseAttributes {
    DefenseAttributes {
        physical_resistance: resistance,
        ..DefenseAttributes::default()
    }
}

#[test]
fn physical_attack_against_30_percent_resistance() {
    // attacker: damage 100, physical, no critical chance, no penetration;
    // defender: physical resistance 0.3 -> resolved damage 70.0
    let a = attack(100_000, 0, 1500, 0);
    let d = defense_with_physical(300);
    let (damage, critical) = resolve_attack(&a, &d, 500);
    assert_eq!(damage, 70_000);
    assert!(!critical);
}

#[test]
fn resistance_above_cap_blocks_at_most_80_percent() {
    let a = attack(100_000, 0, 1500, 0);
    // a resistance of 0.95 still lets a fifth of the damage through
    let d = defense_with_physical(950);
    let (damage, _) = resolve_attack(&a, &d, 999);
    assert_eq!(damage, 20_000);
    // far past one: same cap
    let d2 = defense_with_physical(40_000);
    let (damage2, _) = resolve_attack(&a, &d2, 0);
    assert_eq!(damage2, 20_000);
}

#[test]
fn certain_critical_uses_scaled_base_before_resistance() {
    // chance 1.0, multiplier 2.0, damage 100, resistance 0.3, penetration 5
    let a = attack(100_000, 1000, 2000, 5_000);
    let d = defense_with_physical(300);
    let (damage, critical) = resolve_attack(&a, &d, 999);
    assert!(critical);
    // 100 * 2.0 = 200 before resistance; * 0.7 = 140; + 5 = 145
    assert_eq!(damage, 145_000);
}

#[test]
fn certain_critical_chance_always_rolls_critical() {
    let a = attack(10_000, 1000, 1500, 0);
    let d = DefenseAttributes::default();
    for _ in 0..50 {
        let (_, critical) = resolve_attack_random(&a, &d);
        assert!(critical);
    }
}

#[test]
fn zero_critical_chance_never_rolls_critical() {
    let a = attack(10_000, 0, 1500, 0);
    let d = DefenseAttributes::default();
    for _ in 0..50 {
        let (_, critical) = resolve_attack_random(&a, &d);
        assert!(!critical);
    }
}

#[test]
fn zero_base_damage_resolves_to_penetration_only() {
    let a = attack(0, 0, 1500, 0);
    let d = defense_with_physical(500);
    let (damage, _) = resolve_attack(&a, &d, 500);
    assert_eq!(damage, 0);

    let with_pen = attack(0, 0, 1500, 7_000);
    let (damage2, _) = resolve_attack(&with_pen, &d, 500);
    assert_eq!(damage2, 7_000);
}

#[test]
fn stock_combatant_numbers() {
    let c = Combat::new();
    assert!(c.can_attack());
    let d = DefenseAttributes::default();
    assert_eq!(c.calculate_damage(&d), 10_000);
    assert_eq!(c.get_critical_damage(), 15_000);
    // default block reduction is one half
    assert_eq!(d.block_reduction, 500);
}

#[test]
fn resistance_lookup_follows_damage_type() {
    let d = DefenseAttributes {
        physical_resistance: 100,
        energy_resistance: 200,
        explosive_resistance: 300,
        laser_resistance: 400,
        corrosive_resistance: 500,
        ..DefenseAttributes::default()
    };
    assert_eq!(d.resistance(DamageType::Physical), 100);
    assert_eq!(d.resistance(DamageType::Energy), 200);
    assert_eq!(d.resistance(DamageType::Explosive), 300);
    assert_eq!(d.resistance(DamageType::Laser), 400);
    assert_eq!(d.resistance(DamageType::Corrosive), 500);
}

#[test]
fn safe_multiply_widens_to_128_bits() {
    assert_eq!(safe_multiply(6, 7), 42u128);
    assert_eq!(
        safe_multiply(u64::MAX, u64::MAX),
        (u64::MAX as u128) * (u64::MAX as u128)
    );
}
