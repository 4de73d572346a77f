//! Attack/defense profiles, the damage-resolution engine, and the combat
//! event types.
//!
//! Resolution is a pure function of the attacker's profile, the defender's
//! resistance table and a uniform roll: resistance is capped at 800/1000,
//! a critical hit scales the pre-resistance base, penetration is added after
//! resistance, and the result never goes below zero.

use vstd::prelude::*;
use crate::math::lemma_div_le;
use crate::math::lemma_mul_le;
use crate::rng::roll_per_mille;
use crate::world::ActorId;

verus! {

/// Largest damage or penetration value a valid profile may carry, in
/// thousandths (ten billion whole units).
pub const MAX_DAMAGE_MILLIS: u64 = 10_000_000_000_000;

/// Largest critical multiplier a valid profile may carry, in thousandths
/// (a hundredfold hit).
pub const MAX_CRITICAL_MULTIPLIER: u32 = 100_000;

/// Largest attack speed a valid profile may carry, in thousandths of
/// attacks per second.
pub const MAX_ATTACK_SPEED_MILLIS: u32 = 1_000_000;

/// Largest range a valid profile may carry, in thousandths of a tile.
pub const MAX_RANGE_MILLIS: u32 = 1_000_000_000;

/// No resistance may block more than 800/1000 of incoming damage.
pub const RESISTANCE_CAP: u32 = 800;

/// How an attack is delivered.
#[derive(Clone, Copy, Debug, PartialEq, Eq, Structural)]
pub enum CombatAttackType {
    Melee,
    Ranged,
    Magic,
}

/// The five damage flavors; each is resisted by its own entry in the
/// defender's resistance table.
#[derive(Clone, Copy, Debug, PartialEq, Eq, Structural)]
pub enum DamageType {
    Physical,
    Energy,
    Explosive,
    Laser,
    Corrosive,
}

/// Offensive half of a combat profile.  All fractional fields are counted
/// in thousandths.
#[derive(Clone, Copy, Debug, PartialEq, Eq, Structural)]
pub struct AttackAttributes {
    /// Base damage, in thousandths.
    pub damage: u64,
    /// Which resistance the defender applies.
    pub damage_type: DamageType,
    /// Reach of the attack, in thousandths of a tile.
    pub attack_range: u32,
    /// Attacks per second, in thousandths.
    pub attack_speed: u32,
    /// Chance of a critical hit, per mille (0..=1000).
    pub critical_chance: u32,
    /// Factor applied to the pre-resistance base on a critical hit, in
    /// thousandths.
    pub critical_multiplier: u32,
    /// Flat damage added after resistance, in thousandths.
    pub penetration: u64,
}

impl AttackAttributes {
    /// Bounds under which every resolution step fits in 64-bit arithmetic.
    pub open spec fn valid(self) -> bool {
        &&& self.damage <= MAX_DAMAGE_MILLIS
        &&& self.critical_chance <= 1000
        &&& self.critical_multiplier <= MAX_CRITICAL_MULTIPLIER
        &&& self.penetration <= MAX_DAMAGE_MILLIS
        &&& self.attack_speed <= MAX_ATTACK_SPEED_MILLIS
        &&& self.attack_range <= MAX_RANGE_MILLIS
    }
}

impl Default for AttackAttributes {
    /// The stock profile: 10 damage, physical, one attack per second,
    /// 5% critical chance at 1.5x, no penetration.
    fn default() -> (r: Self)
        ensures
            r == (AttackAttributes {
                damage: 10_000u64,
                damage_type: DamageType::Physical,
                attack_range: 1000u32,
                attack_speed: 1000u32,
                critical_chance: 50u32,
                critical_multiplier: 1500u32,
                penetration: 0u64,
            }),
            r.valid(),
    {
        AttackAttributes {
            damage: 10_000,
            damage_type: DamageType::Physical,
            attack_range: 1000,
            attack_speed: 1000,
            critical_chance: 50,
            critical_multiplier: 1500,
            penetration: 0,
        }
    }
}

/// Defensive half of a combat profile.  Resistances are counted in
/// thousandths of the incoming damage they absorb.
#[derive(Clone, Copy, Debug, PartialEq, Eq, Structural)]
pub struct DefenseAttributes {
    pub physical_resistance: u32,
    pub energy_resistance: u32,
    pub explosive_resistance: u32,
    pub laser_resistance: u32,
    pub corrosive_resistance: u32,
    /// Chance to avoid a hit entirely, per mille.
    pub dodge_chance: u32,
    /// Chance to block, per mille.
    pub block_chance: u32,
    /// Fraction of damage removed by a block, in thousandths.
    pub block_reduction: u32,
}

impl Default for DefenseAttributes {
    /// No resistances, no dodge or block chance, blocks remove half.
    fn default() -> (r: Self)
        ensures
            r == (DefenseAttributes {
                physical_resistance: 0u32,
                energy_resistance: 0u32,
                explosive_resistance: 0u32,
                laser_resistance: 0u32,
                corrosive_resistance: 0u32,
                dodge_chance: 0u32,
                block_chance: 0u32,
                block_reduction: 500u32,
            }),
    {
        DefenseAttributes {
            physical_resistance: 0,
            energy_resistance: 0,
            explosive_resistance: 0,
            laser_resistance: 0,
            corrosive_resistance: 0,
            dodge_chance: 0,
            block_chance: 0,
            block_reduction: 500,
        }
    }
}

/// The resistance entry a defender applies against the given damage type.
pub open spec fn spec_resistance(defense: DefenseAttributes, damage_type: DamageType) -> u32 {
    match damage_type {
        DamageType::Physical => defense.physical_resistance,
        DamageType::Energy => defense.energy_resistance,
        DamageType::Explosive => defense.explosive_resistance,
        DamageType::Laser => defense.laser_resistance,
        DamageType::Corrosive => defense.corrosive_resistance,
    }
}

impl DefenseAttributes {
    /// Looks up the resistance applied against `damage_type`.
    pub fn resistance(&self, damage_type: DamageType) -> (r: u32)
        ensures
            r == spec_resistance(*self, damage_type),
    {
        match damage_type {
            DamageType::Physical => self.physical_resistance,
            DamageType::Energy => self.energy_resistance,
            DamageType::Explosive => self.explosive_resistance,
            DamageType::Laser => self.laser_resistance,
            DamageType::Corrosive => self.corrosive_resistance,
        }
    }
}

/// A supplied resistance, capped so that no more than 800/1000 of the
/// damage is ever blocked.
pub open spec fn capped_resistance(resistance: u32) -> int {
    if resistance > RESISTANCE_CAP {
        RESISTANCE_CAP as int
    } else {
        resistance as int
    }
}

/// The pre-resistance base of a critical hit: the base damage scaled by the
/// critical multiplier.
pub open spec fn critical_base(damage: u64, multiplier: u32) -> int {
    (damage * multiplier) / 1000
}

/// Damage left after the (capped) resistance takes its share.
pub open spec fn damage_after_resistance(base: int, resistance: u32) -> int {
    base * (1000 - capped_resistance(resistance)) / 1000
}

/// The full resolution rule: scale the base on a critical hit, apply the
/// capped resistance, add penetration, and floor the result at zero.
pub open spec fn resolved_damage(attack: AttackAttributes, resistance: u32, critical: bool) -> int {
    let base = if critical {
        critical_base(attack.damage, attack.critical_multiplier)
    } else {
        attack.damage as int
    };
    let total = damage_after_resistance(base, resistance) + attack.penetration;
    if total < 0 {
        0
    } else {
        total
    }
}

/// Resolves one attack with a known critical flag: the resolution rule
/// with the critical check already decided.
pub fn resolve_with_flag(attack: &AttackAttributes, defense: &DefenseAttributes, critical: bool) -> (
    damage: u64)
    requires
        attack.valid(),
    ensures
        damage == resolved_damage(*attack, spec_resistance(*defense, attack.damage_type), critical),
        damage <= 2 * MAX_DAMAGE_MILLIS * 100,
{
    let base: u64 = if critical {
        proof {
            lemma_mul_le(
                attack.damage as int,
                attack.critical_multiplier as int,
                MAX_DAMAGE_MILLIS as int,
                MAX_CRITICAL_MULTIPLIER as int,
            );
            lemma_div_le(
                attack.damage * attack.critical_multiplier,
                MAX_DAMAGE_MILLIS * MAX_CRITICAL_MULTIPLIER,
                1000,
            );
        }
        (attack.damage * (attack.critical_multiplier as u64)) / 1000
    } else {
        attack.damage
    };
    let resistance = defense.resistance(attack.damage_type);
    let capped: u32 = if resistance > RESISTANCE_CAP {
        RESISTANCE_CAP
    } else {
        resistance
    };
    proof {
        lemma_mul_le(
            base as int,
            1000 - capped as int,
            (MAX_DAMAGE_MILLIS as int) * (MAX_CRITICAL_MULTIPLIER as int) / 1000,
            1000,
        );
        lemma_div_le(
            base * (1000 - capped as int),
            (MAX_DAMAGE_MILLIS as int) * (MAX_CRITICAL_MULTIPLIER as int) / 1000 * 1000,
            1000,
        );
    }
    let after_resistance: u64 = (base * ((1000 - capped) as u64)) / 1000;
    after_resistance + attack.penetration
}

/// The damage-resolution engine: turns an attacker profile, a defender
/// resistance table and a uniform roll in `[0, 1000)` into the applied
/// damage and the critical flag.  The roll decides the critical check
/// alone; the damage amount is then a pure function of the two profiles.
pub fn resolve_attack(attack: &AttackAttributes, defense: &DefenseAttributes, roll: u32) -> (out: (
    u64,
    bool,
))
    requires
        attack.valid(),
        roll < 1000,
    ensures
        out.1 == (roll < attack.critical_chance),
        out.0 == resolved_damage(*attack, spec_resistance(*defense, attack.damage_type), out.1),
{
    let critical = roll < attack.critical_chance;
    let damage = resolve_with_flag(attack, defense, critical);
    (damage, critical)
}

/// Resolves one attack with a fresh random roll.  Whatever the roll, the
/// damage matches the resolution rule for the returned critical flag; a
/// certain critical chance always comes back critical, a zero chance never
/// does.
pub fn resolve_attack_random(attack: &AttackAttributes, defense: &DefenseAttributes) -> (out: (
    u64,
    bool,
))
    requires
        attack.valid(),
    ensures
        out.0 == resolved_damage(*attack, spec_resistance(*defense, attack.damage_type), out.1),
        attack.critical_chance >= 1000 ==> out.1,
        attack.critical_chance == 0 ==> !out.1,
{
    let roll = roll_per_mille();
    resolve_attack(attack, defense, roll)
}

/// Per-actor combat state: the two attribute halves, the cooldown gate and
/// the current target.  The cooldown is counted in thousandths of a second.
#[derive(Clone, Copy, Debug)]
pub struct Combat {
    pub attack: AttackAttributes,
    pub defense: DefenseAttributes,
    pub attack_cooldown: u64,
    pub is_attacking: bool,
    pub target: Option<ActorId>,
}

impl Combat {
    /// A fresh combatant with stock attributes, ready to attack.
    pub fn new() -> (r: Self)
        ensures
            r.attack == (AttackAttributes {
                damage: 10_000u64,
                damage_type: DamageType::Physical,
                attack_range: 1000u32,
                attack_speed: 1000u32,
                critical_chance: 50u32,
                critical_multiplier: 1500u32,
                penetration: 0u64,
            }),
            r.defense == (DefenseAttributes {
                physical_resistance: 0u32,
                energy_resistance: 0u32,
                explosive_resistance: 0u32,
                laser_resistance: 0u32,
                corrosive_resistance: 0u32,
                dodge_chance: 0u32,
                block_chance: 0u32,
                block_reduction: 500u32,
            }),
            r.attack_cooldown == 0u64,
            !r.is_attacking,
            r.target is None,
            r.attack.valid(),
    {
        Combat {
            attack: AttackAttributes::default(),
            defense: DefenseAttributes::default(),
            attack_cooldown: 0,
            is_attacking: false,
            target: None,
        }
    }

    /// An attack may be issued exactly when the cooldown has run out.
    pub fn can_attack(&self) -> (r: bool)
        ensures
            r == (self.attack_cooldown == 0),
    {
        self.attack_cooldown == 0
    }

    /// Non-critical damage this combatant deals against the given defense:
    /// the resolution rule with the critical flag off.
    pub fn calculate_damage(&self, target_defense: &DefenseAttributes) -> (damage: u64)
        requires
            self.attack.valid(),
        ensures
            damage == resolved_damage(
                self.attack,
                spec_resistance(*target_defense, self.attack.damage_type),
                false,
            ),
    {
        resolve_with_flag(&self.attack, target_defense, false)
    }

    /// Rolls the critical check.  A certain chance always succeeds and a
    /// zero chance never does; in between, the outcome is the draw's.
    pub fn is_critical(&self) -> (r: bool)
        ensures
            self.attack.critical_chance >= 1000 ==> r,
            self.attack.critical_chance == 0 ==> !r,
    {
        let roll = roll_per_mille();
        roll < self.attack.critical_chance
    }

    /// The pre-resistance base of a critical hit from this combatant.
    pub fn get_critical_damage(&self) -> (damage: u64)
        requires
            self.attack.valid(),
        ensures
            damage == critical_base(self.attack.damage, self.attack.critical_multiplier),
    {
        proof {
            lemma_mul_le(
                self.attack.damage as int,
                self.attack.critical_multiplier as int,
                MAX_DAMAGE_MILLIS as int,
                MAX_CRITICAL_MULTIPLIER as int,
            );
        }
        (self.attack.damage * (self.attack.critical_multiplier as u64)) / 1000
    }
}

/// One application of damage: from `source` to `target`, already resolved.
#[derive(Clone, Copy, Debug, PartialEq, Eq, Structural)]
pub struct DamageEvent {
    pub source: ActorId,
    pub target: ActorId,
    /// Resolved amount, in thousandths.
    pub damage: u64,
    pub damage_type: DamageType,
    pub is_critical: bool,
}

/// One application of healing to `target`.
#[derive(Clone, Copy, Debug, PartialEq, Eq, Structural)]
pub struct HealEvent {
    pub target: ActorId,
    /// Amount restored, in thousandths.
    pub amount: u64,
}

/// Emitted exactly once when an actor's health crosses to zero or below.
#[derive(Clone, Copy, Debug, PartialEq, Eq, Structural)]
pub struct DeathEvent {
    pub entity: ActorId,
}

/// Read-only combat statistics accumulated per actor; totals saturate
/// instead of wrapping.
#[derive(Clone, Copy, Debug, PartialEq, Eq, Structural)]
pub struct CombatStats {
    pub damage_dealt: u64,
    pub damage_taken: u64,
    pub enemies_defeated: u32,
    pub critical_hits: u32,
    pub total_attacks: u32,
}

impl Default for CombatStats {
    /// All counters start at zero.
    fn default() -> (r: Self)
        ensures
            r == (CombatStats {
                damage_dealt: 0u64,
                damage_taken: 0u64,
                enemies_defeated: 0u32,
                critical_hits: 0u32,
                total_attacks: 0u32,
            }),
    {
        CombatStats {
            damage_dealt: 0,
            damage_taken: 0,
            enemies_defeated: 0,
            critical_hits: 0,
            total_attacks: 0,
        }
    }
}

} // verus!

