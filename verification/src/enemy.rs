//! Hostile actor archetypes: per-type base stats, behavior and attack
//! tags, leveling, health bookkeeping, nests that spawn new hostiles, and
//! the weighted spawn table.
//!
//! All fractional stats are counted in thousandths.  An integer level
//! scales health, damage, defense and the experience reward by
//! `1 + level / 5` (in thousandths: `1000 + 200 * level`).

use vstd::prelude::*;
use crate::math::lemma_div_le;
use crate::math::lemma_mul_le;
use crate::world::ActorId;

verus! {

/// Largest level accepted when scaling stats; keeps every scaled stat and
/// the experience reward inside their integer ranges.
pub const MAX_LEVEL: u32 = 1_000_000;

/// Bound on every base stat in the archetype table, in thousandths.
pub const MAX_BASE_STAT_MILLIS: u64 = 10_000_000;

/// The closed set of hostile archetype tags.
#[derive(Clone, Copy, Debug, PartialEq, Eq, Hash, Structural)]
pub enum EnemyType {
    ScoutBot,
    CombatBot,
    HeavyBot,
    EliteBot,
    WorkerBug,
    WarriorBug,
    SpitterBug,
    TankBug,
    QueenBug,
    ScoutBird,
    AttackBird,
    RobotFortress,
    AIMotherBase,
}

/// Numeric profile of a hostile actor.  Health, damage and defense are in
/// thousandths of a point; speeds in thousandths of their unit per second;
/// ranges in thousandths of a tile.
#[derive(Clone, Copy, Debug, PartialEq, Eq, Structural)]
pub struct EnemyStats {
    pub health: u64,
    pub damage: u64,
    pub attack_speed: u32,
    pub movement_speed: u32,
    pub defense: u64,
    pub attack_range: u32,
    pub detection_range: u32,
    pub xp_reward: u32,
}

impl EnemyStats {
    /// Bounds every entry of the archetype table satisfies.
    pub open spec fn wf(self) -> bool {
        &&& 0 < self.health <= MAX_BASE_STAT_MILLIS
        &&& self.damage <= MAX_BASE_STAT_MILLIS
        &&& self.defense <= MAX_BASE_STAT_MILLIS
        &&& self.attack_speed <= 10_000
        &&& self.movement_speed <= 10_000
        &&& self.attack_range <= 100_000
        &&& self.detection_range <= 100_000
        &&& self.xp_reward <= 10_000
    }
}

/// The archetype stat table.
pub open spec fn spec_base_stats(t: EnemyType) -> EnemyStats {
    match t {
        EnemyType::ScoutBot => EnemyStats {
            health: 50_000,
            damage: 10_000,
            attack_speed: 1500,
            movement_speed: 1200,
            defense: 5000,
            attack_range: 3000,
            detection_range: 8000,
            xp_reward: 20,
        },
        EnemyType::CombatBot => EnemyStats {
            health: 100_000,
            damage: 20_000,
            attack_speed: 1000,
            movement_speed: 1000,
            defense: 10_000,
            attack_range: 2000,
            detection_range: 6000,
            xp_reward: 40,
        },
        EnemyType::HeavyBot => EnemyStats {
            health: 200_000,
            damage: 30_000,
            attack_speed: 800,
            movement_speed: 600,
            defense: 20_000,
            attack_range: 2000,
            detection_range: 5000,
            xp_reward: 80,
        },
        EnemyType::EliteBot => EnemyStats {
            health: 300_000,
            damage: 40_000,
            attack_speed: 1200,
            movement_speed: 1000,
            defense: 25_000,
            attack_range: 3000,
            detection_range: 10_000,
            xp_reward: 150,
        },
        EnemyType::WorkerBug => EnemyStats {
            health: 30_000,
            damage: 5000,
            attack_speed: 1000,
            movement_speed: 1500,
            defense: 2000,
            attack_range: 1000,
            detection_range: 4000,
            xp_reward: 10,
        },
        EnemyType::WarriorBug => EnemyStats {
            health: 80_000,
            damage: 15_000,
            attack_speed: 1200,
            movement_speed: 1300,
            defense: 8000,
            attack_range: 1500,
            detection_range: 6000,
            xp_reward: 30,
        },
        EnemyType::SpitterBug => EnemyStats {
            health: 60_000,
            damage: 20_000,
            attack_speed: 800,
            movement_speed: 1000,
            defense: 5000,
            attack_range: 5000,
            detection_range: 7000,
            xp_reward: 40,
        },
        EnemyType::TankBug => EnemyStats {
            health: 250_000,
            damage: 25_000,
            attack_speed: 600,
            movement_speed: 500,
            defense: 30_000,
            attack_range: 1500,
            detection_range: 4000,
            xp_reward: 100,
        },
        EnemyType::QueenBug => EnemyStats {
            health: 500_000,
            damage: 50_000,
            attack_speed: 500,
            movement_speed: 300,
            defense: 40_000,
            attack_range: 3000,
            detection_range: 12_000,
            xp_reward: 300,
        },
        EnemyType::ScoutBird => EnemyStats {
            health: 25_000,
            damage: 8000,
            attack_speed: 2000,
            movement_speed: 2000,
            defense: 3000,
            attack_range: 2000,
            detection_range: 10_000,
            xp_reward: 15,
        },
        EnemyType::AttackBird => EnemyStats {
            health: 40_000,
            damage: 12_000,
            attack_speed: 1800,
            movement_speed: 1800,
            defense: 5000,
            attack_range: 2500,
            detection_range: 8000,
            xp_reward: 25,
        },
        EnemyType::RobotFortress => EnemyStats {
            health: 1_000_000,
            damage: 0,
            attack_speed: 0,
            movement_speed: 0,
            defense: 50_000,
            attack_range: 0,
            detection_range: 15_000,
            xp_reward: 200,
        },
        EnemyType::AIMotherBase => EnemyStats {
            health: 2_000_000,
            damage: 0,
            attack_speed: 0,
            movement_speed: 0,
            defense: 80_000,
            attack_range: 0,
            detection_range: 20_000,
            xp_reward: 500,
        },
    }
}

/// The behavioral policy class of a hostile actor.
#[derive(Clone, Copy, Debug, PartialEq, Eq, Structural)]
pub enum AIBehavior {
    Passive,
    Patrol,
    Aggressive,
    Guard,
    Ranged,
    Boss,
    Spawn,
}

/// How a hostile actor delivers its attack.
#[derive(Clone, Copy, Debug, PartialEq, Eq, Structural)]
pub enum AttackType {
    NoAttack,
    Melee,
    Laser,
    Spit,
    Summon,
}

/// The behavior assigned to each archetype.
pub open spec fn spec_ai_behavior(t: EnemyType) -> AIBehavior {
    match t {
        EnemyType::ScoutBot => AIBehavior::Patrol,
        EnemyType::CombatBot => AIBehavior::Aggressive,
        EnemyType::HeavyBot => AIBehavior::Guard,
        EnemyType::EliteBot => AIBehavior::Boss,
        EnemyType::WorkerBug => AIBehavior::Passive,
        EnemyType::WarriorBug => AIBehavior::Aggressive,
        EnemyType::SpitterBug => AIBehavior::Ranged,
        EnemyType::TankBug => AIBehavior::Guard,
        EnemyType::QueenBug => AIBehavior::Boss,
        EnemyType::ScoutBird => AIBehavior::Patrol,
        EnemyType::AttackBird => AIBehavior::Aggressive,
        EnemyType::RobotFortress => AIBehavior::Spawn,
        EnemyType::AIMotherBase => AIBehavior::Spawn,
    }
}

/// The attack delivery assigned to each archetype.
pub open spec fn spec_attack_type(t: EnemyType) -> AttackType {
    match t {
        EnemyType::ScoutBot => AttackType::Laser,
        EnemyType::CombatBot => AttackType::Laser,
        EnemyType::HeavyBot => AttackType::Laser,
        EnemyType::EliteBot => AttackType::Laser,
        EnemyType::WorkerBug => AttackType::Melee,
        EnemyType::WarriorBug => AttackType::Melee,
        EnemyType::TankBug => AttackType::Melee,
        EnemyType::SpitterBug => AttackType::Spit,
        EnemyType::QueenBug => AttackType::Summon,
        EnemyType::ScoutBird => AttackType::Melee,
        EnemyType::AttackBird => AttackType::Melee,
        EnemyType::RobotFortress => AttackType::NoAttack,
        EnemyType::AIMotherBase => AttackType::NoAttack,
    }
}

impl EnemyType {
    /// A short display name for the archetype.
    pub fn name(&self) -> &'static str {
        match self {
            EnemyType::ScoutBot => "scout bot",
            EnemyType::CombatBot => "combat bot",
            EnemyType::HeavyBot => "heavy bot",
            EnemyType::EliteBot => "elite bot",
            EnemyType::WorkerBug => "worker bug",
            EnemyType::WarriorBug => "warrior bug",
            EnemyType::SpitterBug => "spitter bug",
            EnemyType::TankBug => "tank bug",
            EnemyType::QueenBug => "queen bug",
            EnemyType::ScoutBird => "scout bird",
            EnemyType::AttackBird => "attack bird",
            EnemyType::RobotFortress => "robot fortress",
            EnemyType::AIMotherBase => "mother base",
        }
    }

    /// The archetype's base stats.
    pub fn base_stats(&self) -> (r: EnemyStats)
        ensures
            r == spec_base_stats(*self),
            r.wf(),
    {
        match self {
            EnemyType::ScoutBot => EnemyStats {
                health: 50_000,
                damage: 10_000,
                attack_speed: 1500,
                movement_speed: 1200,
                defense: 5000,
                attack_range: 3000,
                detection_range: 8000,
                xp_reward: 20,
            },
            EnemyType::CombatBot => EnemyStats {
                health: 100_000,
                damage: 20_000,
                attack_speed: 1000,
                movement_speed: 1000,
                defense: 10_000,
                attack_range: 2000,
                detection_range: 6000,
                xp_reward: 40,
            },
            EnemyType::HeavyBot => EnemyStats {
                health: 200_000,
                damage: 30_000,
                attack_speed: 800,
                movement_speed: 600,
                defense: 20_000,
                attack_range: 2000,
                detection_range: 5000,
                xp_reward: 80,
            },
            EnemyType::EliteBot => EnemyStats {
                health: 300_000,
                damage: 40_000,
                attack_speed: 1200,
                movement_speed: 1000,
                defense: 25_000,
                attack_range: 3000,
                detection_range: 10_000,
                xp_reward: 150,
            },
            EnemyType::WorkerBug => EnemyStats {
                health: 30_000,
                damage: 5000,
                attack_speed: 1000,
                movement_speed: 1500,
                defense: 2000,
                attack_range: 1000,
                detection_range: 4000,
                xp_reward: 10,
            },
            EnemyType::WarriorBug => EnemyStats {
                health: 80_000,
                damage: 15_000,
                attack_speed: 1200,
                movement_speed: 1300,
                defense: 8000,
                attack_range: 1500,
                detection_range: 6000,
                xp_reward: 30,
            },
            EnemyType::SpitterBug => EnemyStats {
                health: 60_000,
                damage: 20_000,
                attack_speed: 800,
                movement_speed: 1000,
                defense: 5000,
                attack_range: 5000,
                detection_range: 7000,
                xp_reward: 40,
            },
            EnemyType::TankBug => EnemyStats {
                health: 250_000,
                damage: 25_000,
                attack_speed: 600,
                movement_speed: 500,
                defense: 30_000,
                attack_range: 1500,
                detection_range: 4000,
                xp_reward: 100,
            },
            EnemyType::QueenBug => EnemyStats {
                health: 500_000,
                damage: 50_000,
                attack_speed: 500,
                movement_speed: 300,
                defense: 40_000,
                attack_range: 3000,
                detection_range: 12_000,
                xp_reward: 300,
            },
            EnemyType::ScoutBird => EnemyStats {
                health: 25_000,
                damage: 8000,
                attack_speed: 2000,
                movement_speed: 2000,
                defense: 3000,
                attack_range: 2000,
                detection_range: 10_000,
                xp_reward: 15,
            },
            EnemyType::AttackBird => EnemyStats {
                health: 40_000,
                damage: 12_000,
                attack_speed: 1800,
                movement_speed: 1800,
                defense: 5000,
                attack_range: 2500,
                detection_range: 8000,
                xp_reward: 25,
            },
            EnemyType::RobotFortress => EnemyStats {
                health: 1_000_000,
                damage: 0,
                attack_speed: 0,
                movement_speed: 0,
                defense: 50_000,
                attack_range: 0,
                detection_range: 15_000,
                xp_reward: 200,
            },
            EnemyType::AIMotherBase => EnemyStats {
                health: 2_000_000,
                damage: 0,
                attack_speed: 0,
                movement_speed: 0,
                defense: 80_000,
                attack_range: 0,
                detection_range: 20_000,
                xp_reward: 500,
            },
        }
    }

    /// The behavioral policy class of this archetype.
    pub fn ai_behavior(&self) -> (r: AIBehavior)
        ensures
            r == spec_ai_behavior(*self),
    {
        match self {
            EnemyType::ScoutBot => AIBehavior::Patrol,
            EnemyType::CombatBot => AIBehavior::Aggressive,
            EnemyType::HeavyBot => AIBehavior::Guard,
            EnemyType::EliteBot => AIBehavior::Boss,
            EnemyType::WorkerBug => AIBehavior::Passive,
            EnemyType::WarriorBug => AIBehavior::Aggressive,
            EnemyType::SpitterBug => AIBehavior::Ranged,
            EnemyType::TankBug => AIBehavior::Guard,
            EnemyType::QueenBug => AIBehavior::Boss,
            EnemyType::ScoutBird => AIBehavior::Patrol,
            EnemyType::AttackBird => AIBehavior::Aggressive,
            EnemyType::RobotFortress => AIBehavior::Spawn,
            EnemyType::AIMotherBase => AIBehavior::Spawn,
        }
    }

    /// How this archetype delivers its attack.
    pub fn attack_type(&self) -> (r: AttackType)
        ensures
            r == spec_attack_type(*self),
    {
        match self {
            EnemyType::ScoutBot => AttackType::Laser,
            EnemyType::CombatBot => AttackType::Laser,
            EnemyType::HeavyBot => AttackType::Laser,
            EnemyType::EliteBot => AttackType::Laser,
            EnemyType::WorkerBug => AttackType::Melee,
            EnemyType::WarriorBug => AttackType::Melee,
            EnemyType::TankBug => AttackType::Melee,
            EnemyType::SpitterBug => AttackType::Spit,
            EnemyType::QueenBug => AttackType::Summon,
            EnemyType::ScoutBird => AttackType::Melee,
            EnemyType::AttackBird => AttackType::Melee,
            EnemyType::RobotFortress => AttackType::NoAttack,
            EnemyType::AIMotherBase => AttackType::NoAttack,
        }
    }
}

/// The per-level stat multiplier, in thousandths: one fifth more per level.
pub open spec fn level_multiplier(level: u32) -> int {
    1000 + 200 * level
}

/// A base stat scaled by the level multiplier.
pub open spec fn spec_scaled(base: int, level: u32) -> int {
    base * level_multiplier(level) / 1000
}

/// The state a hostile actor's behavior machine is in.  `Dead` is terminal.
#[derive(Clone, Copy, Debug, PartialEq, Eq, Structural)]
pub enum AIState {
    Idle,
    Patrol,
    Chase,
    Attack,
    Retreat,
    Dead,
}

/// One hostile actor: archetype, level-scaled stats, current health,
/// behavior state, attack cooldown (thousandths of a second) and an
/// optional, non-owning target reference.
#[derive(Clone, Copy, Debug)]
pub struct Enemy {
    pub enemy_type: EnemyType,
    pub stats: EnemyStats,
    pub current_health: i64,
    pub level: u32,
    pub ai_state: AIState,
    pub attack_cooldown: u64,
    pub target: Option<ActorId>,
}

/// Damage actually applied to an enemy: the flat defense is subtracted,
/// floored at zero.
pub open spec fn spec_applied_damage(damage: u64, defense: u64) -> int {
    if damage > defense {
        damage - defense
    } else {
        0
    }
}

/// Health after a hit, saturating at the bottom of the 64-bit range.
pub open spec fn spec_health_after_damage(health: i64, defense: u64, damage: u64) -> int {
    let h = health - spec_applied_damage(damage, defense);
    if h < i64::MIN {
        i64::MIN as int
    } else {
        h
    }
}

/// Health after healing: raised by the amount but never past the maximum.
pub open spec fn spec_health_after_heal(health: i64, max_health: u64, amount: u64) -> int {
    let h = health + amount;
    if h > max_health {
        max_health as int
    } else {
        h
    }
}

/// Current health as a per-mille fraction of the maximum, floored at zero.
pub open spec fn spec_health_per_mille(health: i64, max_health: u64) -> int {
    if health <= 0 {
        0
    } else {
        health * 1000 / (max_health as int)
    }
}

impl Enemy {
    /// Level-scaled stats within range, health between the floor and the
    /// maximum.
    pub open spec fn wf(self) -> bool {
        &&& 0 < self.stats.health <= 4_000_000_000_000u64
        &&& self.stats.damage <= 4_000_000_000_000u64
        &&& self.stats.defense <= 4_000_000_000_000u64
        &&& self.current_health <= self.stats.health
    }

    /// Spawns a hostile actor of the given archetype and level: health,
    /// damage, defense and the experience reward are scaled by the level
    /// multiplier, speeds and ranges are taken as they are, and the actor
    /// starts idle, at full health, with no cooldown and no target.
    pub fn new(enemy_type: EnemyType, level: u32) -> (r: Self)
        requires
            level <= MAX_LEVEL,
        ensures
            r.enemy_type == enemy_type,
            r.level == level,
            r.stats.health == spec_scaled(spec_base_stats(enemy_type).health as int, level),
            r.stats.damage == spec_scaled(spec_base_stats(enemy_type).damage as int, level),
            r.stats.defense == spec_scaled(spec_base_stats(enemy_type).defense as int, level),
            r.stats.attack_speed == spec_base_stats(enemy_type).attack_speed,
            r.stats.movement_speed == spec_base_stats(enemy_type).movement_speed,
            r.stats.attack_range == spec_base_stats(enemy_type).attack_range,
            r.stats.detection_range == spec_base_stats(enemy_type).detection_range,
            r.stats.xp_reward == spec_scaled(spec_base_stats(enemy_type).xp_reward as int, level),
            r.current_health == r.stats.health,
            r.ai_state == AIState::Idle,
            r.attack_cooldown == 0u64,
            r.target is None,
            r.wf(),
    {
        let base = enemy_type.base_stats();
        let multiplier: u64 = 1000 + 200 * (level as u64);
        proof {
            lemma_mul_le(
                base.health as int,
                multiplier as int,
                MAX_BASE_STAT_MILLIS as int,
                1000 + 200 * (MAX_LEVEL as int),
            );
            lemma_mul_le(
                base.damage as int,
                multiplier as int,
                MAX_BASE_STAT_MILLIS as int,
                1000 + 200 * (MAX_LEVEL as int),
            );
            lemma_mul_le(
                base.defense as int,
                multiplier as int,
                MAX_BASE_STAT_MILLIS as int,
                1000 + 200 * (MAX_LEVEL as int),
            );
            lemma_mul_le(
                base.xp_reward as int,
                multiplier as int,
                10_000,
                1000 + 200 * (MAX_LEVEL as int),
            );
            lemma_div_le(
                base.health as int * multiplier as int,
                MAX_BASE_STAT_MILLIS as int * (1000 + 200 * (MAX_LEVEL as int)),
                1000,
            );
            lemma_div_le(
                base.xp_reward as int * multiplier as int,
                10_000 * (1000 + 200 * (MAX_LEVEL as int)),
                1000,
            );
        }
        let health: u64 = base.health * multiplier / 1000;
        let damage: u64 = base.damage * multiplier / 1000;
        let defense: u64 = base.defense * multiplier / 1000;
        let xp: u32 = (((base.xp_reward as u64) * multiplier) / 1000) as u32;
        proof {
            assert(base.health * multiplier / 1000 >= base.health * 1000 / 1000) by (nonlinear_arith)
                requires
                    multiplier >= 1000,
                    base.health >= 0,
            ;
        }
        Enemy {
            enemy_type,
            stats: EnemyStats {
                health,
                damage,
                attack_speed: base.attack_speed,
                movement_speed: base.movement_speed,
                defense,
                attack_range: base.attack_range,
                detection_range: base.detection_range,
                xp_reward: xp,
            },
            current_health: health as i64,
            level,
            ai_state: AIState::Idle,
            attack_cooldown: 0,
            target: None,
        }
    }

    /// An actor is dead exactly when its health has reached zero or below.
    pub fn is_dead(&self) -> (r: bool)
        ensures
            r == (self.current_health <= 0),
    {
        self.current_health <= 0
    }

    /// Applies a hit: the flat defense is subtracted from the damage,
    /// floored at zero, and the rest is taken from the current health
    /// (saturating at the bottom of the range).  Nothing else changes.
    pub fn take_damage(&mut self, damage: u64)
        ensures
            final(self).current_health == spec_health_after_damage(
                old(self).current_health,
                old(self).stats.defense,
                damage,
            ),
            final(self).enemy_type == old(self).enemy_type,
            final(self).stats == old(self).stats,
            final(self).level == old(self).level,
            final(self).ai_state == old(self).ai_state,
            final(self).attack_cooldown == old(self).attack_cooldown,
            final(self).target == old(self).target,
    {
        let hit: u64 = if damage > self.stats.defense {
            damage - self.stats.defense
        } else {
            0
        };
        let lowered: i128 = (self.current_health as i128) - (hit as i128);
        self.current_health = if lowered < (i64::MIN as i128) {
            i64::MIN
        } else {
            lowered as i64
        };
    }

    /// Restores health, never past the maximum.  Nothing else changes.
    pub fn heal(&mut self, amount: u64)
        requires
            old(self).wf(),
        ensures
            final(self).current_health == spec_health_after_heal(
                old(self).current_health,
                old(self).stats.health,
                amount,
            ),
            final(self).enemy_type == old(self).enemy_type,
            final(self).stats == old(self).stats,
            final(self).level == old(self).level,
            final(self).ai_state == old(self).ai_state,
            final(self).attack_cooldown == old(self).attack_cooldown,
            final(self).target == old(self).target,
            final(self).wf(),
    {
        let raised: i128 = (self.current_health as i128) + (amount as i128);
        self.current_health = if raised > (self.stats.health as i128) {
            self.stats.health as i64
        } else {
            raised as i64
        };
    }

    /// Current health as a per-mille fraction of the maximum, floored at
    /// zero for an actor at or below zero health.
    pub fn health_percentage(&self) -> (r: i64)
        requires
            self.wf(),
        ensures
            r == spec_health_per_mille(self.current_health, self.stats.health),
            0 <= r <= 1000,
    {
        if self.current_health <= 0 {
            0
        } else {
            proof {
                lemma_div_le(
                    self.current_health * 1000,
                    self.stats.health * 1000,
                    self.stats.health as int,
                );
                assert(self.stats.health * 1000 / (self.stats.health as int) == 1000)
                    by (nonlinear_arith)
                    requires
                        self.stats.health > 0,
                ;
            }
            (self.current_health * 1000) / (self.stats.health as i64)
        }
    }
}

/// Weighted chances, per mille, used to draw a spawned archetype.
#[derive(Clone, Copy, Debug, PartialEq, Eq, Structural)]
pub struct EnemySpawnConfig {
    pub scout_bot_chance: u32,
    pub combat_bot_chance: u32,
    pub heavy_bot_chance: u32,
    pub elite_bot_chance: u32,
    pub worker_bug_chance: u32,
    pub warrior_bug_chance: u32,
    pub spitter_bug_chance: u32,
    pub tank_bug_chance: u32,
    pub queen_bug_chance: u32,
}

impl EnemySpawnConfig {
    /// Each chance is at most one (1000 per mille).
    pub open spec fn valid(self) -> bool {
        &&& self.scout_bot_chance <= 1000
        &&& self.combat_bot_chance <= 1000
        &&& self.heavy_bot_chance <= 1000
        &&& self.elite_bot_chance <= 1000
        &&& self.worker_bug_chance <= 1000
        &&& self.warrior_bug_chance <= 1000
        &&& self.spitter_bug_chance <= 1000
        &&& self.tank_bug_chance <= 1000
        &&& self.queen_bug_chance <= 1000
    }

    /// Draws the archetype whose cumulative-chance bucket the roll falls
    /// into, walking the table in its fixed order; a roll past every
    /// bucket falls back to the combat bot.
    pub fn random_enemy_type(&self, roll: u32) -> (r: EnemyType)
        requires
            self.valid(),
        ensures
            r == spec_pick_enemy_type(*self, roll),
    {
        let mut cumulative: u32 = self.scout_bot_chance;
        if roll < cumulative {
            return EnemyType::ScoutBot;
        }
        cumulative = cumulative + self.combat_bot_chance;
        if roll < cumulative {
            return EnemyType::CombatBot;
        }
        cumulative = cumulative + self.heavy_bot_chance;
        if roll < cumulative {
            return EnemyType::HeavyBot;
        }
        cumulative = cumulative + self.elite_bot_chance;
        if roll < cumulative {
            return EnemyType::EliteBot;
        }
        cumulative = cumulative + self.worker_bug_chance;
        if roll < cumulative {
            return EnemyType::WorkerBug;
        }
        cumulative = cumulative + self.warrior_bug_chance;
        if roll < cumulative {
            return EnemyType::WarriorBug;
        }
        cumulative = cumulative + self.spitter_bug_chance;
        if roll < cumulative {
            return EnemyType::SpitterBug;
        }
        cumulative = cumulative + self.tank_bug_chance;
        if roll < cumulative {
            return EnemyType::TankBug;
        }
        cumulative = cumulative + self.queen_bug_chance;
        if roll < cumulative {
            return EnemyType::QueenBug;
        }
        EnemyType::CombatBot
    }
}

/// The bucket an archetype roll falls into: chances are accumulated in the
/// table's fixed order and the first bucket reaching past the roll wins.
pub open spec fn spec_pick_enemy_type(c: EnemySpawnConfig, roll: u32) -> EnemyType {
    let c1 = c.scout_bot_chance as int;
    let c2 = c1 + c.combat_bot_chance;
    let c3 = c2 + c.heavy_bot_chance;
    let c4 = c3 + c.elite_bot_chance;
    let c5 = c4 + c.worker_bug_chance;
    let c6 = c5 + c.warrior_bug_chance;
    let c7 = c6 + c.spitter_bug_chance;
    let c8 = c7 + c.tank_bug_chance;
    let c9 = c8 + c.queen_bug_chance;
    if roll < c1 {
        EnemyType::ScoutBot
    } else if roll < c2 {
        EnemyType::CombatBot
    } else if roll < c3 {
        EnemyType::HeavyBot
    } else if roll < c4 {
        EnemyType::EliteBot
    } else if roll < c5 {
        EnemyType::WorkerBug
    } else if roll < c6 {
        EnemyType::WarriorBug
    } else if roll < c7 {
        EnemyType::SpitterBug
    } else if roll < c8 {
        EnemyType::TankBug
    } else if roll < c9 {
        EnemyType::QueenBug
    } else {
        EnemyType::CombatBot
    }
}

impl Default for EnemySpawnConfig {
    /// The stock spawn table.
    fn default() -> (r: Self)
        ensures
            r == (EnemySpawnConfig {
                scout_bot_chance: 200u32,
                combat_bot_chance: 300u32,
                heavy_bot_chance: 100u32,
                elite_bot_chance: 50u32,
                worker_bug_chance: 150u32,
                warrior_bug_chance: 200u32,
                spitter_bug_chance: 150u32,
                tank_bug_chance: 100u32,
                queen_bug_chance: 20u32,
            }),
            r.valid(),
    {
        EnemySpawnConfig {
            scout_bot_chance: 200,
            combat_bot_chance: 300,
            heavy_bot_chance: 100,
            elite_bot_chance: 50,
            worker_bug_chance: 150,
            warrior_bug_chance: 200,
            spitter_bug_chance: 150,
            tank_bug_chance: 100,
            queen_bug_chance: 20,
        }
    }
}

/// Progression of timed enemy waves.
#[derive(Clone, Copy, Debug, PartialEq, Eq, Structural)]
pub struct EnemyWaveConfig {
    pub current_wave: u32,
    pub enemies_per_wave: u32,
    /// Seconds between waves, in thousandths.
    pub wave_interval: u64,
    /// Difficulty factor, in thousandths.
    pub difficulty_multiplier: u32,
}

impl Default for EnemyWaveConfig {
    /// Waves start at one, five enemies each, thirty seconds apart.
    fn default() -> (r: Self)
        ensures
            r == (EnemyWaveConfig {
                current_wave: 1u32,
                enemies_per_wave: 5u32,
                wave_interval: 30_000u64,
                difficulty_multiplier: 1000u32,
            }),
    {
        EnemyWaveConfig {
            current_wave: 1,
            enemies_per_wave: 5,
            wave_interval: 30_000,
            difficulty_multiplier: 1000,
        }
    }
}

/// The archetypes a nest of the given type may produce: a robot
/// fortress sends machines, the mother base sends machines and bugs,
/// any other archetype used as a nest sends nothing.
pub open spec fn spec_spawn_types(t: EnemyType) -> Seq<EnemyType> {
    match t {
        EnemyType::RobotFortress => seq![
            EnemyType::ScoutBot,
            EnemyType::CombatBot,
            EnemyType::ScoutBird,
        ],
        EnemyType::AIMotherBase => seq![
            EnemyType::CombatBot,
            EnemyType::HeavyBot,
            EnemyType::EliteBot,
            EnemyType::WorkerBug,
            EnemyType::WarriorBug,
            EnemyType::SpitterBug,
        ],
        _ => Seq::<EnemyType>::empty(),
    }
}

/// A nest that periodically spawns hostiles around itself.
#[derive(Clone, Copy, Debug, PartialEq, Eq, Structural)]
pub struct EnemyBase {
    pub base_type: EnemyType,
    /// Time since the last spawn, in thousandths of a second.
    pub spawn_timer: u64,
    /// Time between spawns, in thousandths of a second.
    pub spawn_interval: u64,
    pub max_spawn_count: u32,
    pub current_spawn_count: u32,
    /// Radius around the nest where spawns appear, in thousandths of a tile.
    pub spawn_range: u32,
    pub active: bool,
}

impl EnemyBase {
    /// A fresh nest; the fortress and mother-base archetypes spawn slower
    /// but more and farther than any other type used as a nest.
    pub fn new(base_type: EnemyType) -> (r: Self)
        ensures
            r.base_type == base_type,
            r.spawn_timer == 0u64,
            r.current_spawn_count == 0u32,
            r.active,
            base_type == EnemyType::RobotFortress ==> r.spawn_interval == 15_000u64
                && r.max_spawn_count == 20u32 && r.spawn_range == 8000u32,
            base_type == EnemyType::AIMotherBase ==> r.spawn_interval == 20_000u64
                && r.max_spawn_count == 30u32 && r.spawn_range == 12_000u32,
            base_type != EnemyType::RobotFortress && base_type != EnemyType::AIMotherBase
                ==> r.spawn_interval == 10_000u64 && r.max_spawn_count == 10u32 && r.spawn_range
                == 5000u32,
    {
        let (spawn_interval, max_spawn_count, spawn_range): (u64, u32, u32) = match base_type {
            EnemyType::RobotFortress => (15_000, 20, 8000),
            EnemyType::AIMotherBase => (20_000, 30, 12_000),
            _ => (10_000, 10, 5000),
        };
        EnemyBase {
            base_type,
            spawn_timer: 0,
            spawn_interval,
            max_spawn_count,
            current_spawn_count: 0,
            spawn_range,
            active: true,
        }
    }

    /// A nest may spawn while it is active and has spawns left.
    pub fn can_spawn(&self) -> (r: bool)
        ensures
            r == (self.active && self.current_spawn_count < self.max_spawn_count),
    {
        self.active && self.current_spawn_count < self.max_spawn_count
    }

    /// Grants the nest a fresh budget of spawns.
    pub fn reset_spawn_count(&mut self)
        ensures
            *final(self) == (EnemyBase { current_spawn_count: 0u32, ..*old(self) }),
    {
        self.current_spawn_count = 0;
    }

    /// The archetypes this nest may produce.
    pub fn get_spawn_types(&self) -> (r: Vec<EnemyType>)
        ensures
            r@ == spec_spawn_types(self.base_type),
    {
        let mut r: Vec<EnemyType> = Vec::new();
        match self.base_type {
            EnemyType::RobotFortress => {
                r.push(EnemyType::ScoutBot);
                r.push(EnemyType::CombatBot);
                r.push(EnemyType::ScoutBird);
                proof {
                    assert(r@ =~= spec_spawn_types(self.base_type));
                }
            },
            EnemyType::AIMotherBase => {
                r.push(EnemyType::CombatBot);
                r.push(EnemyType::HeavyBot);
                r.push(EnemyType::EliteBot);
                r.push(EnemyType::WorkerBug);
                r.push(EnemyType::WarriorBug);
                r.push(EnemyType::SpitterBug);
                proof {
                    assert(r@ =~= spec_spawn_types(self.base_type));
                }
            },
            _ => {
                proof {
                    assert(r@ =~= spec_spawn_types(self.base_type));
                }
            },
        }
        r
    }

    /// Advances the nest's timer by `dt` and decides whether a spawn is
    /// due.  When the interval has elapsed, the nest is allowed to spawn
    /// and it has archetypes to offer, the timer resets, the budget is
    /// consumed, and the roll picks the archetype from the nest's list;
    /// otherwise only the timer moves.
    pub fn advance_spawn(&mut self, dt: u64, type_roll: u32) -> (r: Option<EnemyType>)
        ensures
            ({
                let grown = old(self).spawn_timer.saturating_add(dt);
                let due = grown >= old(self).spawn_interval && old(self).active && old(
                    self,
                ).current_spawn_count < old(self).max_spawn_count;
                if due && (old(self).base_type == EnemyType::RobotFortress || old(self).base_type
                    == EnemyType::AIMotherBase) {
                    &&& final(self).spawn_timer == 0u64
                    &&& final(self).current_spawn_count == old(self).current_spawn_count + 1
                    &&& r == Some(
                        spec_spawn_types(old(self).base_type)[(type_roll as int) % (
                        spec_spawn_types(old(self).base_type).len() as int)],
                    )
                } else {
                    &&& *final(self) == (EnemyBase { spawn_timer: grown, ..*old(self) })
                    &&& r is None
                }
            }),
            final(self).base_type == old(self).base_type,
            final(self).spawn_interval == old(self).spawn_interval,
            final(self).max_spawn_count == old(self).max_spawn_count,
            final(self).spawn_range == old(self).spawn_range,
            final(self).active == old(self).active,
    {
        let grown = self.spawn_timer.saturating_add(dt);
        self.spawn_timer = grown;
        if grown >= self.spawn_interval && self.can_spawn() {
            let types = self.get_spawn_types();
            if types.len() > 0 {
                self.spawn_timer = 0;
                self.current_spawn_count = self.current_spawn_count + 1;
                let index = (type_roll as usize) % types.len();
                Some(types[index])
            } else {
                None
            }
        } else {
            None
        }
    }
}

/// Where a hostile actor stands on the tile grid.
#[derive(Clone, Copy, Debug, PartialEq, Eq, Structural)]
pub struct EnemyPosition {
    pub tile_x: u32,
    pub tile_y: u32,
}

/// Transient per-tick status of a hostile actor.
#[derive(Clone, Copy, Debug, PartialEq, Eq, Structural)]
pub struct EnemyStatus {
    pub is_spawned: bool,
    pub is_attacking: bool,
    pub is_retreating: bool,
    /// Remaining duration of the attack animation, in thousandths.
    pub attack_timer: u64,
}

impl Default for EnemyStatus {
    /// Not spawned, not attacking, not retreating.
    fn default() -> (r: Self)
        ensures
            r == (EnemyStatus {
                is_spawned: false,
                is_attacking: false,
                is_retreating: false,
                attack_timer: 0u64,
            }),
    {
        EnemyStatus { is_spawned: false, is_attacking: false, is_retreating: false, attack_timer: 0 }
    }
}

} // verus!
