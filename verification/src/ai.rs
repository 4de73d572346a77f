//! The hostile behavior state machine.
//!
//! Every tick, each archetype picks its next state from the distance to
//! the player and its own health fraction.  Distances are compared in
//! squared thousandths of a tile, so no square root is ever taken: being
//! within a range means the squared distance is at most the squared range.

use vstd::prelude::*;
use crate::enemy::AIBehavior;
use crate::enemy::AIState;
use crate::enemy::EnemyType;
use crate::math::lemma_mul_le;

verus! {

/// A boss whose health fraction drops below this many thousandths
/// retreats, whatever the distance.
pub const BOSS_RETREAT_THRESHOLD: i64 = 300;

/// A queen bug whose health fraction drops below this many thousandths
/// may summon reinforcements.
pub const QUEEN_SUMMON_THRESHOLD: i64 = 500;

/// Whether a squared distance (in squared thousandths of a tile) lies
/// within a range (in thousandths of a tile).
pub open spec fn spec_within(dist_sq: int, range: u32) -> bool {
    dist_sq <= (range as int) * (range as int)
}

/// Compares a squared distance against a range, both exact.
pub fn within_range(dist_sq: u64, range: u32) -> (r: bool)
    ensures
        r == spec_within(dist_sq as int, range),
{
    proof {
        lemma_mul_le(range as int, range as int, u32::MAX as int, u32::MAX as int);
    }
    dist_sq <= (range as u64) * (range as u64)
}

/// The transition table, one row per archetype:
/// - Passive: attacks only while under attack, else idles.
/// - Patrol: chases once the player is detected, else keeps patrolling.
/// - Aggressive: attacks in attack range, chases in detection range,
///   else idles.
/// - Guard: chases in detection range, else returns to its post (idle).
/// - Ranged: attacks in attack range, otherwise holds at Chase while the
///   player is detected, else idles.
/// - Boss: retreats below the retreat threshold whatever the distance;
///   otherwise follows the aggressive rules.
/// - Spawn: always idle; it only spawns other actors.
pub open spec fn spec_next_ai_state(
    behavior: AIBehavior,
    dist_sq: int,
    attack_range: u32,
    detection_range: u32,
    health_per_mille: int,
    under_attack: bool,
) -> AIState {
    match behavior {
        AIBehavior::Passive => if under_attack {
            AIState::Attack
        } else {
            AIState::Idle
        },
        AIBehavior::Patrol => if spec_within(dist_sq, detection_range) {
            AIState::Chase
        } else {
            AIState::Patrol
        },
        AIBehavior::Aggressive => if spec_within(dist_sq, attack_range) {
            AIState::Attack
        } else if spec_within(dist_sq, detection_range) {
            AIState::Chase
        } else {
            AIState::Idle
        },
        AIBehavior::Guard => if spec_within(dist_sq, detection_range) {
            AIState::Chase
        } else {
            AIState::Idle
        },
        AIBehavior::Ranged => if spec_within(dist_sq, detection_range) {
            if spec_within(dist_sq, attack_range) {
                AIState::Attack
            } else {
                AIState::Chase
            }
        } else {
            AIState::Idle
        },
        AIBehavior::Boss => if health_per_mille < BOSS_RETREAT_THRESHOLD {
            AIState::Retreat
        } else if spec_within(dist_sq, attack_range) {
            AIState::Attack
        } else if spec_within(dist_sq, detection_range) {
            AIState::Chase
        } else {
            AIState::Idle
        },
        AIBehavior::Spawn => AIState::Idle,
    }
}

/// Evaluates the transition table for a living actor.
pub fn next_ai_state(
    behavior: AIBehavior,
    dist_sq: u64,
    attack_range: u32,
    detection_range: u32,
    health_per_mille: i64,
    under_attack: bool,
) -> (r: AIState)
    ensures
        r == spec_next_ai_state(
            behavior,
            dist_sq as int,
            attack_range,
            detection_range,
            health_per_mille as int,
            under_attack,
        ),
{
    match behavior {
        AIBehavior::Passive => if under_attack {
            AIState::Attack
        } else {
            AIState::Idle
        },
        AIBehavior::Patrol => if within_range(dist_sq, detection_range) {
            AIState::Chase
        } else {
            AIState::Patrol
        },
        AIBehavior::Aggressive => if within_range(dist_sq, attack_range) {
            AIState::Attack
        } else if within_range(dist_sq, detection_range) {
            AIState::Chase
        } else {
            AIState::Idle
        },
        AIBehavior::Guard => if within_range(dist_sq, detection_range) {
            AIState::Chase
        } else {
            AIState::Idle
        },
        AIBehavior::Ranged => if within_range(dist_sq, detection_range) {
            if within_range(dist_sq, attack_range) {
                AIState::Attack
            } else {
                AIState::Chase
            }
        } else {
            AIState::Idle
        },
        AIBehavior::Boss => if health_per_mille < BOSS_RETREAT_THRESHOLD {
            AIState::Retreat
        } else if within_range(dist_sq, attack_range) {
            AIState::Attack
        } else if within_range(dist_sq, detection_range) {
            AIState::Chase
        } else {
            AIState::Idle
        },
        AIBehavior::Spawn => AIState::Idle,
    }
}

/// A boss below the retreat threshold is sent to `Retreat` whatever the
/// distance to the player and whether it is under attack.
pub proof fn lemma_boss_retreat(
    dist_sq: int,
    attack_range: u32,
    detection_range: u32,
    health_per_mille: int,
    under_attack: bool,
)
    requires
        health_per_mille < BOSS_RETREAT_THRESHOLD,
    ensures
        spec_next_ai_state(
            AIBehavior::Boss,
            dist_sq,
            attack_range,
            detection_range,
            health_per_mille,
            under_attack,
        ) == AIState::Retreat,
{
}

/// The queen bug's summon side effect is ready exactly when her health
/// fraction is below the summon threshold, she is not mid-attack, and the
/// shared attack cooldown has run out — the cooldown is the rate limit,
/// there is no separate summon timer.
pub open spec fn spec_summon_ready(
    enemy_type: EnemyType,
    health_per_mille: int,
    is_attacking: bool,
    cooldown: u64,
) -> bool {
    &&& enemy_type == EnemyType::QueenBug
    &&& health_per_mille < QUEEN_SUMMON_THRESHOLD
    &&& !is_attacking
    &&& cooldown == 0
}

/// Decides whether the summon side effect fires this tick.
pub fn summon_ready(
    enemy_type: EnemyType,
    health_per_mille: i64,
    is_attacking: bool,
    cooldown: u64,
) -> (r: bool)
    ensures
        r == spec_summon_ready(enemy_type, health_per_mille as int, is_attacking, cooldown),
{
    match enemy_type {
        EnemyType::QueenBug => health_per_mille < QUEEN_SUMMON_THRESHOLD && !is_attacking
            && cooldown == 0,
        _ => false,
    }
}

/// The tile a wandering actor steps toward, picked by a direction roll:
/// right, left, up or down one tile, never past the map's origin.  The
/// caller holds the candidate against the map's walkability, which lives
/// outside this library.
pub open spec fn spec_patrol_candidate(tile_x: u32, tile_y: u32, direction_roll: u32) -> (
    u32,
    u32,
) {
    let direction = direction_roll % 4;
    if direction == 0 {
        (if tile_x < 0xffff_ffffu32 {
            (tile_x + 1) as u32
        } else {
            tile_x
        }, tile_y)
    } else if direction == 1 {
        (if tile_x > 0 {
            (tile_x - 1) as u32
        } else {
            0u32
        }, tile_y)
    } else if direction == 2 {
        (tile_x, if tile_y < 0xffff_ffffu32 {
            (tile_y + 1) as u32
        } else {
            tile_y
        })
    } else {
        (tile_x, if tile_y > 0 {
            (tile_y - 1) as u32
        } else {
            0u32
        })
    }
}

/// Picks the neighboring tile a patrol or wander step aims for.
pub fn patrol_candidate(tile_x: u32, tile_y: u32, direction_roll: u32) -> (r: (u32, u32))
    ensures
        r == spec_patrol_candidate(tile_x, tile_y, direction_roll),
{
    let direction = direction_roll % 4;
    if direction == 0 {
        (if tile_x < u32::MAX {
            tile_x + 1
        } else {
            tile_x
        }, tile_y)
    } else if direction == 1 {
        (if tile_x > 0 {
            tile_x - 1
        } else {
            0
        }, tile_y)
    } else if direction == 2 {
        (tile_x, if tile_y < u32::MAX {
            tile_y + 1
        } else {
            tile_y
        })
    } else {
        (tile_x, if tile_y > 0 {
            tile_y - 1
        } else {
            0
        })
    }
}

} // verus!
