//! Defensive structures: towers that shoot at hostiles and walls that
//! absorb their blows.  All fractional values are counted in thousandths.
//!
//! Each tower type fires one damage type and may attach a timed side
//! effect to its target: the ice tower freezes, the poison tower poisons,
//! the electric tower stuns.  Every tower shares the single
//! attack/cooldown gate of the scheduler.

use vstd::prelude::*;
use crate::combat::DamageType;
use crate::effects::CombatEffect;
use crate::effects::CombatEffectType;
use crate::math::lemma_mul_le;
use crate::scheduler::cooldown_after_attack;
use crate::scheduler::spec_cooldown_after_attack;

verus! {

/// Cap applied to every growing tower or wall stat, in thousandths.
pub const MAX_STRUCTURE_STAT: u64 = 1_000_000_000_000;

/// The closed set of tower types.
#[derive(Clone, Copy, Debug, PartialEq, Eq, Structural)]
pub enum DefenseTowerType {
    ArrowTower,
    CannonTower,
    LaserTower,
    IceTower,
    PoisonTower,
    ElectricTower,
}

/// Numeric profile of one tower.  Damage in thousandths of a point,
/// ranges in thousandths of a tile, speeds in thousandths per second.
#[derive(Clone, Copy, Debug, PartialEq, Eq, Structural)]
pub struct DefenseTowerStats {
    pub damage: u64,
    pub range: u32,
    pub attack_speed: u32,
    pub projectile_speed: u32,
    pub rotation_speed: u32,
    pub energy_cost: u32,
    pub upgrade_cost: u64,
    pub level: u32,
}

impl Default for DefenseTowerStats {
    /// The stock tower profile.
    fn default() -> (r: Self)
        ensures
            r == (DefenseTowerStats {
                damage: 10_000u64,
                range: 100_000u32,
                attack_speed: 1000u32,
                projectile_speed: 300_000u32,
                rotation_speed: 3000u32,
                energy_cost: 100_000u32,
                upgrade_cost: 50_000u64,
                level: 1u32,
            }),
    {
        DefenseTowerStats {
            damage: 10_000,
            range: 100_000,
            attack_speed: 1000,
            projectile_speed: 300_000,
            rotation_speed: 3000,
            energy_cost: 100_000,
            upgrade_cost: 50_000,
            level: 1,
        }
    }
}

/// The per-type tower profile table.
pub open spec fn spec_tower_stats(t: DefenseTowerType) -> DefenseTowerStats {
    match t {
        DefenseTowerType::ArrowTower => DefenseTowerStats {
            damage: 10_000,
            range: 150_000,
            attack_speed: 2000,
            projectile_speed: 400_000,
            rotation_speed: 5000,
            energy_cost: 50_000,
            upgrade_cost: 25_000,
            level: 1,
        },
        DefenseTowerType::CannonTower => DefenseTowerStats {
            damage: 30_000,
            range: 120_000,
            attack_speed: 500,
            projectile_speed: 250_000,
            rotation_speed: 2000,
            energy_cost: 100_000,
            upgrade_cost: 50_000,
            level: 1,
        },
        DefenseTowerType::LaserTower => DefenseTowerStats {
            damage: 15_000,
            range: 200_000,
            attack_speed: 1500,
            projectile_speed: 1_000_000,
            rotation_speed: 4000,
            energy_cost: 150_000,
            upgrade_cost: 75_000,
            level: 1,
        },
        DefenseTowerType::IceTower => DefenseTowerStats {
            damage: 5000,
            range: 100_000,
            attack_speed: 1000,
            projectile_speed: 300_000,
            rotation_speed: 3000,
            energy_cost: 75_000,
            upgrade_cost: 35_000,
            level: 1,
        },
        DefenseTowerType::PoisonTower => DefenseTowerStats {
            damage: 8000,
            range: 130_000,
            attack_speed: 1200,
            projectile_speed: 300_000,
            rotation_speed: 3000,
            energy_cost: 80_000,
            upgrade_cost: 40_000,
            level: 1,
        },
        DefenseTowerType::ElectricTower => DefenseTowerStats {
            damage: 12_000,
            range: 110_000,
            attack_speed: 1800,
            projectile_speed: 500_000,
            rotation_speed: 4000,
            energy_cost: 120_000,
            upgrade_cost: 60_000,
            level: 1,
        },
    }
}

/// A growing stat scaled by `factor` thousandths, capped so towers can
/// be upgraded forever without overflow.
pub open spec fn spec_grow(value: u64, factor: u32) -> u64 {
    let grown = value * factor / 1000;
    if grown > MAX_STRUCTURE_STAT {
        MAX_STRUCTURE_STAT
    } else {
        grown as u64
    }
}

/// Scales a stat by `factor` thousandths, capping the result.
fn grow(value: u64, factor: u32) -> (r: u64)
    requires
        value <= MAX_STRUCTURE_STAT,
        factor <= 10_000,
    ensures
        r == spec_grow(value, factor),
{
    proof {
        lemma_mul_le(value as int, factor as int, MAX_STRUCTURE_STAT as int, 10_000);
    }
    let grown: u64 = value * (factor as u64) / 1000;
    if grown > MAX_STRUCTURE_STAT {
        MAX_STRUCTURE_STAT
    } else {
        grown
    }
}

/// One tower: its type, profile, cooldown gate and current target.
#[derive(Clone, Copy, Debug)]
pub struct DefenseTower {
    pub tower_type: DefenseTowerType,
    pub stats: DefenseTowerStats,
    /// Attack cooldown, in thousandths of a second.
    pub attack_cooldown: u64,
    pub target: Option<crate::world::ActorId>,
    pub is_active: bool,
}

impl DefenseTower {
    /// Range stats stay within the growth cap.
    pub open spec fn wf(self) -> bool {
        &&& self.stats.damage <= MAX_STRUCTURE_STAT
        &&& self.stats.upgrade_cost <= MAX_STRUCTURE_STAT
        &&& self.stats.range as u64 <= MAX_STRUCTURE_STAT
        &&& self.stats.attack_speed as u64 <= MAX_STRUCTURE_STAT
    }

    /// A fresh, active tower of the given type with its table profile.
    pub fn new(tower_type: DefenseTowerType) -> (r: Self)
        ensures
            r.tower_type == tower_type,
            r.stats == spec_tower_stats(tower_type),
            r.attack_cooldown == 0u64,
            r.target is None,
            r.is_active,
            r.wf(),
    {
        let stats = match tower_type {
            DefenseTowerType::ArrowTower => DefenseTowerStats {
                damage: 10_000,
                range: 150_000,
                attack_speed: 2000,
                projectile_speed: 400_000,
                rotation_speed: 5000,
                energy_cost: 50_000,
                upgrade_cost: 25_000,
                level: 1,
            },
            DefenseTowerType::CannonTower => DefenseTowerStats {
                damage: 30_000,
                range: 120_000,
                attack_speed: 500,
                projectile_speed: 250_000,
                rotation_speed: 2000,
                energy_cost: 100_000,
                upgrade_cost: 50_000,
                level: 1,
            },
            DefenseTowerType::LaserTower => DefenseTowerStats {
                damage: 15_000,
                range: 200_000,
                attack_speed: 1500,
                projectile_speed: 1_000_000,
                rotation_speed: 4000,
                energy_cost: 150_000,
                upgrade_cost: 75_000,
                level: 1,
            },
            DefenseTowerType::IceTower => DefenseTowerStats {
                damage: 5000,
                range: 100_000,
                attack_speed: 1000,
                projectile_speed: 300_000,
                rotation_speed: 3000,
                energy_cost: 75_000,
                upgrade_cost: 35_000,
                level: 1,
            },
            DefenseTowerType::PoisonTower => DefenseTowerStats {
                damage: 8000,
                range: 130_000,
                attack_speed: 1200,
                projectile_speed: 300_000,
                rotation_speed: 3000,
                energy_cost: 80_000,
                upgrade_cost: 40_000,
                level: 1,
            },
            DefenseTowerType::ElectricTower => DefenseTowerStats {
                damage: 12_000,
                range: 110_000,
                attack_speed: 1800,
                projectile_speed: 500_000,
                rotation_speed: 4000,
                energy_cost: 120_000,
                upgrade_cost: 60_000,
                level: 1,
            },
        };
        DefenseTower { tower_type, stats, attack_cooldown: 0, target: None, is_active: true }
    }

    /// A tower may fire while active, once its cooldown has run out.
    pub fn can_attack(&self) -> (r: bool)
        ensures
            r == (self.is_active && self.attack_cooldown == 0),
    {
        self.is_active && self.attack_cooldown == 0
    }

    /// The time between two shots: one over the attack speed, in
    /// thousandths of a second; a speed of zero never fires again.
    pub fn get_attack_interval(&self) -> (r: u64)
        ensures
            r == spec_cooldown_after_attack(self.stats.attack_speed),
    {
        cooldown_after_attack(self.stats.attack_speed)
    }

    /// Upgrades the tower one level: damage grows by a fifth, range and
    /// attack speed by a tenth, the next upgrade costs half more.  Each
    /// grown stat is capped.
    pub fn upgrade(&mut self)
        requires
            old(self).wf(),
        ensures
            final(self).stats.level == old(self).stats.level.saturating_add(1),
            final(self).stats.damage == spec_grow(old(self).stats.damage, 1200),
            final(self).stats.range == (if spec_grow(old(self).stats.range as u64, 1100)
                > u32::MAX {
                u32::MAX
            } else {
                spec_grow(old(self).stats.range as u64, 1100) as u32
            }),
            final(self).stats.attack_speed == (if spec_grow(
                old(self).stats.attack_speed as u64,
                1100,
            ) > u32::MAX {
                u32::MAX
            } else {
                spec_grow(old(self).stats.attack_speed as u64, 1100) as u32
            }),
            final(self).stats.upgrade_cost == spec_grow(old(self).stats.upgrade_cost, 1500),
            final(self).stats.projectile_speed == old(self).stats.projectile_speed,
            final(self).stats.rotation_speed == old(self).stats.rotation_speed,
            final(self).stats.energy_cost == old(self).stats.energy_cost,
            final(self).tower_type == old(self).tower_type,
            final(self).attack_cooldown == old(self).attack_cooldown,
            final(self).target == old(self).target,
            final(self).is_active == old(self).is_active,
            final(self).wf(),
    {
        self.stats.level = self.stats.level.saturating_add(1);
        self.stats.damage = grow(self.stats.damage, 1200);
        let new_range = grow(self.stats.range as u64, 1100);
        self.stats.range = if new_range > (u32::MAX as u64) {
            u32::MAX
        } else {
            new_range as u32
        };
        let new_speed = grow(self.stats.attack_speed as u64, 1100);
        self.stats.attack_speed = if new_speed > (u32::MAX as u64) {
            u32::MAX
        } else {
            new_speed as u32
        };
        self.stats.upgrade_cost = grow(self.stats.upgrade_cost, 1500);
    }
}

/// One shot of a tower: the damage payload, its type, and the side
/// effect attached to the target, if the tower type carries one.
#[derive(Clone, Copy, Debug, PartialEq, Eq, Structural)]
pub struct TowerShot {
    pub damage: u64,
    pub damage_type: DamageType,
    pub effect: Option<CombatEffect>,
}

/// The attack dispatch table of the towers: arrows strike physically,
/// cannons explode, lasers deal laser damage; the ice tower deals energy
/// damage and freezes for two seconds, the poison tower corrodes and
/// poisons for five seconds at two points per second, the electric tower
/// deals energy damage and stuns for one second.
pub open spec fn spec_tower_shot(tower: DefenseTower) -> TowerShot {
    let damage = tower.stats.damage;
    match tower.tower_type {
        DefenseTowerType::ArrowTower => TowerShot {
            damage,
            damage_type: DamageType::Physical,
            effect: None,
        },
        DefenseTowerType::CannonTower => TowerShot {
            damage,
            damage_type: DamageType::Explosive,
            effect: None,
        },
        DefenseTowerType::LaserTower => TowerShot {
            damage,
            damage_type: DamageType::Laser,
            effect: None,
        },
        DefenseTowerType::IceTower => TowerShot {
            damage,
            damage_type: DamageType::Energy,
            effect: Some(
                CombatEffect {
                    effect_type: CombatEffectType::Freeze,
                    duration: 2000,
                    timer: 0,
                    value: 500,
                },
            ),
        },
        DefenseTowerType::PoisonTower => TowerShot {
            damage,
            damage_type: DamageType::Corrosive,
            effect: Some(
                CombatEffect {
                    effect_type: CombatEffectType::Poison,
                    duration: 5000,
                    timer: 0,
                    value: 2000,
                },
            ),
        },
        DefenseTowerType::ElectricTower => TowerShot {
            damage,
            damage_type: DamageType::Energy,
            effect: Some(
                CombatEffect {
                    effect_type: CombatEffectType::Stun,
                    duration: 1000,
                    timer: 0,
                    value: 0,
                },
            ),
        },
    }
}

/// Builds the shot a tower fires at its target.
pub fn perform_tower_attack(tower: &DefenseTower) -> (shot: TowerShot)
    ensures
        shot == spec_tower_shot(*tower),
{
    let damage = tower.stats.damage;
    match tower.tower_type {
        DefenseTowerType::ArrowTower => TowerShot {
            damage,
            damage_type: DamageType::Physical,
            effect: None,
        },
        DefenseTowerType::CannonTower => TowerShot {
            damage,
            damage_type: DamageType::Explosive,
            effect: None,
        },
        DefenseTowerType::LaserTower => TowerShot {
            damage,
            damage_type: DamageType::Laser,
            effect: None,
        },
        DefenseTowerType::IceTower => TowerShot {
            damage,
            damage_type: DamageType::Energy,
            effect: Some(CombatEffect::new(CombatEffectType::Freeze, 2000, 500)),
        },
        DefenseTowerType::PoisonTower => TowerShot {
            damage,
            damage_type: DamageType::Corrosive,
            effect: Some(CombatEffect::new(CombatEffectType::Poison, 5000, 2000)),
        },
        DefenseTowerType::ElectricTower => TowerShot {
            damage,
            damage_type: DamageType::Energy,
            effect: Some(CombatEffect::new(CombatEffectType::Stun, 1000, 0)),
        },
    }
}

/// Upgrades a tower one level.
pub fn upgrade_defense_tower(tower: &mut DefenseTower)
    requires
        old(tower).wf(),
    ensures
        final(tower).stats.level == old(tower).stats.level.saturating_add(1),
        final(tower).stats.damage == spec_grow(old(tower).stats.damage, 1200),
        final(tower).wf(),
{
    tower.upgrade();
}

/// A wall that absorbs damage for the structures behind it.
#[derive(Clone, Copy, Debug, PartialEq, Eq, Structural)]
pub struct DefenseWall {
    /// Current health, in thousandths; at or below zero means destroyed.
    pub health: i64,
    /// Health ceiling, in thousandths.
    pub max_health: u64,
    /// Flat amount subtracted from every hit, in thousandths.
    pub defense: u64,
    pub level: u32,
    pub repair_cost: u64,
}

impl DefenseWall {
    /// Bounds under which wall arithmetic stays exact.
    pub open spec fn wf(self) -> bool {
        &&& self.max_health <= MAX_STRUCTURE_STAT
        &&& self.health <= self.max_health
        &&& self.defense <= MAX_STRUCTURE_STAT
        &&& self.repair_cost <= MAX_STRUCTURE_STAT
    }

    /// A fresh level-one wall at full health.
    pub fn new() -> (r: Self)
        ensures
            r == (DefenseWall {
                health: 100_000i64,
                max_health: 100_000u64,
                defense: 10_000u64,
                level: 1u32,
                repair_cost: 10_000u64,
            }),
            r.wf(),
    {
        DefenseWall {
            health: 100_000,
            max_health: 100_000,
            defense: 10_000,
            level: 1,
            repair_cost: 10_000,
        }
    }

    /// Takes a hit: the flat defense is subtracted from the damage,
    /// floored at zero, and the rest leaves the health.  Returns the
    /// amount actually absorbed.
    pub fn take_damage(&mut self, damage: u64) -> (actual: u64)
        requires
            old(self).wf(),
            damage <= MAX_STRUCTURE_STAT,
        ensures
            actual == crate::enemy::spec_applied_damage(damage, old(self).defense),
            final(self).health == (if old(self).health - actual < i64::MIN {
                i64::MIN as int
            } else {
                old(self).health - actual
            }),
            *final(self) == (DefenseWall { health: final(self).health, ..*old(self) }),
    {
        let actual: u64 = if damage > self.defense {
            damage - self.defense
        } else {
            0
        };
        let lowered: i128 = (self.health as i128) - (actual as i128);
        self.health = if lowered < (i64::MIN as i128) {
            i64::MIN
        } else {
            lowered as i64
        };
        actual
    }

    /// Repairs the wall, never past its maximum.
    pub fn repair(&mut self, amount: u64)
        requires
            old(self).wf(),
            amount <= MAX_STRUCTURE_STAT,
        ensures
            final(self).health == (if old(self).health + amount > old(self).max_health {
                old(self).max_health as int
            } else {
                old(self).health + amount
            }),
            *final(self) == (DefenseWall { health: final(self).health, ..*old(self) }),
            final(self).wf(),
    {
        let raised: i64 = self.health + (amount as i64);
        self.health = if raised > (self.max_health as i64) {
            self.max_health as i64
        } else {
            raised
        };
    }

    /// Upgrades the wall one level: the health ceiling grows by three
    /// tenths and the wall is restored to it; defense and repair cost
    /// grow by a fifth.  Each grown stat is capped.
    pub fn upgrade(&mut self)
        requires
            old(self).wf(),
        ensures
            final(self).level == old(self).level.saturating_add(1),
            final(self).max_health == spec_grow(old(self).max_health, 1300),
            final(self).health == final(self).max_health,
            final(self).defense == spec_grow(old(self).defense, 1200),
            final(self).repair_cost == spec_grow(old(self).repair_cost, 1200),
            final(self).wf(),
    {
        self.level = self.level.saturating_add(1);
        self.max_health = grow(self.max_health, 1300);
        self.health = self.max_health as i64;
        self.defense = grow(self.defense, 1200);
        self.repair_cost = grow(self.repair_cost, 1200);
    }

    /// A wall is destroyed exactly when its health has reached zero or
    /// below.
    pub fn is_destroyed(&self) -> (r: bool)
        ensures
            r == (self.health <= 0),
    {
        self.health <= 0
    }
}

/// How far a defensive structure reaches, in thousandths of a tile.
#[derive(Clone, Copy, Debug, PartialEq, Eq, Structural)]
pub struct DefenseRange {
    pub range: u32,
}

impl DefenseRange {
    /// A range of the given size.
    pub fn new(range: u32) -> (r: Self)
        ensures
            r == (DefenseRange { range }),
    {
        DefenseRange { range }
    }
}

/// The side effects defensive structures can inflict.
#[derive(Clone, Copy, Debug, PartialEq, Eq, Structural)]
pub enum DefenseEffectType {
    Slow,
    Freeze,
    Poison,
    Burn,
    Stun,
}

/// A timed side effect carried by a defensive attack.
#[derive(Clone, Copy, Debug, PartialEq, Eq, Structural)]
pub struct DefenseEffect {
    pub effect_type: DefenseEffectType,
    /// Duration in thousandths of a second.
    pub duration: u64,
    /// Magnitude in thousandths of its unit.
    pub value: u32,
}

impl DefenseEffect {
    /// A fresh effect of the given kind.
    pub fn new(effect_type: DefenseEffectType, duration: u64, value: u32) -> (r: Self)
        ensures
            r == (DefenseEffect { effect_type, duration, value }),
    {
        DefenseEffect { effect_type, duration, value }
    }
}

/// Read-only statistics of one defensive structure; totals saturate.
#[derive(Clone, Copy, Debug, PartialEq, Eq, Structural)]
pub struct DefenseStats {
    pub enemies_defeated: u32,
    pub total_damage: u64,
    pub shots_fired: u32,
}

impl Default for DefenseStats {
    /// All counters start at zero.
    fn default() -> (r: Self)
        ensures
            r == (DefenseStats { enemies_defeated: 0u32, total_damage: 0u64, shots_fired: 0u32 }),
    {
        DefenseStats { enemies_defeated: 0, total_damage: 0, shots_fired: 0 }
    }
}

impl DefenseStats {
    /// Records one shot of `damage` thousandths; totals saturate.
    pub fn record_shot(&mut self, damage: u64)
        ensures
            final(self).total_damage == old(self).total_damage.saturating_add(damage),
            final(self).shots_fired == old(self).shots_fired.saturating_add(1),
            final(self).enemies_defeated == old(self).enemies_defeated,
    {
        self.total_damage = self.total_damage.saturating_add(damage);
        self.shots_fired = self.shots_fired.saturating_add(1);
    }
}

} // verus!
