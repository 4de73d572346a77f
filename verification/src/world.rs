//! The simulation world: an arena of actors addressed by stable,
//! generation-checked handles, the event queues, and the ordered tick.
//!
//! A handle never owns the actor it names: looking one up after the actor
//! was removed yields "not found" instead of reaching a reused slot.
//! Periodic effect damage is queued here and consumed on the tick after it
//! was produced, never re-entrantly within the tick that produced it.

use vstd::prelude::*;
use crate::ai::next_ai_state;
use crate::ai::spec_next_ai_state;
use crate::ai::spec_summon_ready;
use crate::ai::summon_ready;
use crate::combat::AttackAttributes;
use crate::combat::CombatStats;
use crate::combat::DamageEvent;
use crate::combat::DamageType;
use crate::combat::DeathEvent;
use crate::combat::HealEvent;
use crate::combat::resolve_attack;
use crate::combat::resolved_damage;
use crate::combat::spec_resistance;
use crate::combat::DefenseAttributes;
use crate::effects::advanced_set;
use crate::effects::spec_forced_cooldown;
use crate::effects::spec_pulse;
use crate::effects::CombatEffect;
use crate::effects::CombatEffectType;
use crate::effects::EffectSet;
use crate::effects::MAX_TICK_MILLIS;
use crate::enemy::spec_attack_type;
use crate::enemy::spec_health_per_mille;
use crate::enemy::AIBehavior;
use crate::enemy::AIState;
use crate::enemy::AttackType;
use crate::enemy::Enemy;
use crate::enemy::EnemyType;
use crate::math::lemma_square_bound;
use crate::rng::roll_per_mille;
use crate::scheduler::cooldown_after_attack;
use crate::scheduler::spec_cooldown_after_attack;

verus! {

/// Identifies one actor in the world's arena.  The `generation` field
/// distinguishes the current occupant of a slot from earlier, removed
/// ones.
#[derive(Clone, Copy, Debug, PartialEq, Eq, Structural)]
pub struct ActorId {
    pub index: usize,
    pub generation: u64,
}

/// Largest coordinate magnitude, in thousandths of a tile; keeps every
/// squared distance inside 64 bits.
pub const COORD_LIMIT: i64 = 1_000_000_000;

/// Largest health an actor may carry, in thousandths.
pub const MAX_ACTOR_HEALTH: u64 = 4_000_000_000_000;

/// One simulated combatant: profile, health, behavior state, cooldown,
/// timed effects, statistics and a position on the map, in thousandths of
/// a tile.  The player is an actor whose `behavior` is `None`: its attacks
/// are driven from outside instead of by the state machine.
#[derive(Clone, Copy, Debug)]
pub struct WorldActor {
    /// Offensive profile used when this actor's attacks resolve.
    pub attack: AttackAttributes,
    /// Resistance table applied when this actor is hit.
    pub defense: DefenseAttributes,
    /// Flat amount subtracted from every hit, in thousandths.
    pub flat_defense: u64,
    /// Health ceiling, in thousandths.
    pub max_health: u64,
    /// Current health, in thousandths; at or below zero means dead.
    pub health: i64,
    pub level: u32,
    /// The archetype policy, or `None` for an externally driven actor.
    pub behavior: Option<AIBehavior>,
    /// The archetype tag, where the actor has one.
    pub enemy_type: Option<EnemyType>,
    /// How far this actor notices the player, in thousandths of a tile.
    pub detection_range: u32,
    pub ai_state: AIState,
    /// Attack cooldown, in thousandths of a second.
    pub cooldown: u64,
    pub is_attacking: bool,
    /// Whether this actor was hit since its last behavior evaluation.
    pub under_attack: bool,
    /// Non-owning reference to the actor this one acts against.
    pub target: Option<ActorId>,
    pub effects: EffectSet,
    pub stats: CombatStats,
    pub x: i64,
    pub y: i64,
    /// Source of the most recent hit; credited with the kill on death.
    pub last_hit_by: Option<ActorId>,
}

impl WorldActor {
    /// Profile, effects, health and position all within their ranges.
    pub open spec fn wf(self) -> bool {
        &&& self.attack.valid()
        &&& self.effects.valid()
        &&& 0 < self.max_health <= MAX_ACTOR_HEALTH
        &&& self.health <= self.max_health
        &&& self.flat_defense <= MAX_ACTOR_HEALTH
        &&& -COORD_LIMIT <= self.x <= COORD_LIMIT
        &&& -COORD_LIMIT <= self.y <= COORD_LIMIT
    }

    /// Builds the arena record for a hostile actor standing at `(x, y)`:
    /// its attack profile carries the archetype's damage, speed and range,
    /// never rolls critical hits, and deals the damage type its attack
    /// delivery implies; the archetype's flat defense guards its health.
    pub fn from_enemy(enemy: &Enemy, x: i64, y: i64) -> (r: WorldActor)
        requires
            enemy.wf(),
            enemy.stats.attack_range <= crate::combat::MAX_RANGE_MILLIS,
            enemy.stats.attack_speed <= crate::combat::MAX_ATTACK_SPEED_MILLIS,
            -COORD_LIMIT <= x <= COORD_LIMIT,
            -COORD_LIMIT <= y <= COORD_LIMIT,
        ensures
            r.attack.damage == enemy.stats.damage,
            r.attack.damage_type == spec_enemy_damage_type(enemy.enemy_type),
            r.attack.attack_range == enemy.stats.attack_range,
            r.attack.attack_speed == enemy.stats.attack_speed,
            r.attack.critical_chance == 0u32,
            r.attack.penetration == 0u64,
            r.flat_defense == enemy.stats.defense,
            r.max_health == enemy.stats.health,
            r.health == enemy.current_health,
            r.level == enemy.level,
            r.behavior == Some(spec_ai_behavior_of(enemy.enemy_type)),
            r.enemy_type == Some(enemy.enemy_type),
            r.detection_range == enemy.stats.detection_range,
            r.ai_state == enemy.ai_state,
            r.cooldown == enemy.attack_cooldown,
            r.target == enemy.target,
            r.x == x,
            r.y == y,
            r.wf(),
    {
        WorldActor {
            attack: AttackAttributes {
                damage: enemy.stats.damage,
                damage_type: enemy_damage_type(enemy.enemy_type),
                attack_range: enemy.stats.attack_range,
                attack_speed: enemy.stats.attack_speed,
                critical_chance: 0,
                critical_multiplier: 1000,
                penetration: 0,
            },
            defense: DefenseAttributes::default(),
            flat_defense: enemy.stats.defense,
            max_health: enemy.stats.health,
            health: enemy.current_health,
            level: enemy.level,
            behavior: Some(enemy.enemy_type.ai_behavior()),
            enemy_type: Some(enemy.enemy_type),
            detection_range: enemy.stats.detection_range,
            ai_state: enemy.ai_state,
            cooldown: enemy.attack_cooldown,
            is_attacking: false,
            under_attack: false,
            target: enemy.target,
            effects: EffectSet::new(),
            stats: CombatStats::default(),
            x,
            y,
            last_hit_by: None,
        }
    }

    /// Builds the arena record for the externally driven player actor.
    pub fn player(
        attack: AttackAttributes,
        defense: DefenseAttributes,
        max_health: u64,
        x: i64,
        y: i64,
    ) -> (r: WorldActor)
        requires
            attack.valid(),
            0 < max_health <= MAX_ACTOR_HEALTH,
            -COORD_LIMIT <= x <= COORD_LIMIT,
            -COORD_LIMIT <= y <= COORD_LIMIT,
        ensures
            r.attack == attack,
            r.defense == defense,
            r.flat_defense == 0u64,
            r.max_health == max_health,
            r.health == max_health,
            r.behavior is None,
            r.enemy_type is None,
            r.level == 0u32,
            r.detection_range == 0u32,
            r.ai_state == AIState::Idle,
            r.cooldown == 0u64,
            !r.is_attacking,
            !r.under_attack,
            r.target is None,
            r.effects == (EffectSet {
                burn: None::<crate::effects::CombatEffect>,
                freeze: None::<crate::effects::CombatEffect>,
                poison: None::<crate::effects::CombatEffect>,
                slow: None::<crate::effects::CombatEffect>,
                stun: None::<crate::effects::CombatEffect>,
                shield: None::<crate::effects::CombatEffect>,
            }),
            r.stats == (CombatStats {
                damage_dealt: 0u64,
                damage_taken: 0u64,
                enemies_defeated: 0u32,
                critical_hits: 0u32,
                total_attacks: 0u32,
            }),
            r.last_hit_by is None,
            r.x == x,
            r.y == y,
            r.wf(),
    {
        WorldActor {
            attack,
            defense,
            flat_defense: 0,
            max_health,
            health: max_health as i64,
            level: 0,
            behavior: None,
            enemy_type: None,
            detection_range: 0,
            ai_state: AIState::Idle,
            cooldown: 0,
            is_attacking: false,
            under_attack: false,
            target: None,
            effects: EffectSet::new(),
            stats: CombatStats::default(),
            x,
            y,
            last_hit_by: None,
        }
    }
}

/// The behavior the archetype table assigns, as the arena stores it.
pub open spec fn spec_ai_behavior_of(t: EnemyType) -> AIBehavior {
    crate::enemy::spec_ai_behavior(t)
}

/// The damage type an archetype's attack delivery implies: blows strike
/// physically, lasers deal laser damage, spit corrodes; summoners and
/// non-attackers get the physical tag but never produce a damage intent.
pub open spec fn spec_enemy_damage_type(t: EnemyType) -> DamageType {
    match spec_attack_type(t) {
        AttackType::Melee => DamageType::Physical,
        AttackType::Laser => DamageType::Laser,
        AttackType::Spit => DamageType::Corrosive,
        AttackType::Summon => DamageType::Physical,
        AttackType::NoAttack => DamageType::Physical,
    }
}

/// Looks up the damage type an archetype's attacks deal.
pub fn enemy_damage_type(t: EnemyType) -> (r: DamageType)
    ensures
        r == spec_enemy_damage_type(t),
{
    match t.attack_type() {
        AttackType::Melee => DamageType::Physical,
        AttackType::Laser => DamageType::Laser,
        AttackType::Spit => DamageType::Corrosive,
        AttackType::Summon => DamageType::Physical,
        AttackType::NoAttack => DamageType::Physical,
    }
}

/// One arena slot: its current generation and, possibly, an occupant.
#[derive(Clone, Copy, Debug)]
pub struct Slot {
    pub generation: u64,
    pub occupant: Option<WorldActor>,
}

/// A slot is well formed when its occupant, if any, is.
pub open spec fn slot_wf(s: Slot) -> bool {
    match s.occupant {
        Some(a) => a.wf(),
        None => true,
    }
}

/// The world: the actor arena, the player's handle, and the queues of
/// damage and heal events waiting for the next tick.
pub struct World {
    pub slots: Vec<Slot>,
    /// The player's handle, if a player was spawned.
    pub player: Option<ActorId>,
    /// Damage waiting to be applied next tick (periodic effect pulses and
    /// externally triggered attacks).
    pub pending_damage: Vec<DamageEvent>,
    /// Healing waiting to be applied next tick.
    pub pending_heals: Vec<HealEvent>,
}

impl World {
    /// Whether `id` names the current occupant of a live slot.
    pub open spec fn spec_valid_id(self, id: ActorId) -> bool {
        &&& id.index < self.slots@.len()
        &&& self.slots@[id.index as int].generation == id.generation
        &&& self.slots@[id.index as int].occupant is Some
    }

    /// The actor `id` names.
    pub open spec fn spec_actor(self, id: ActorId) -> WorldActor
        recommends
            self.spec_valid_id(id),
    {
        self.slots@[id.index as int].occupant->Some_0
    }

    /// Every occupant is well formed.
    pub open spec fn wf(self) -> bool {
        forall|i: int| 0 <= i < self.slots@.len() ==> slot_wf(#[trigger] self.slots@[i])
    }

    /// Every occupant is alive: between ticks, dead actors have been
    /// removed.
    pub open spec fn all_alive(self) -> bool {
        forall|i: int|
            0 <= i < self.slots@.len() ==> ((#[trigger] self.slots@[i].occupant) matches Some(a)
                ==> a.health > 0)
    }

    /// An empty world.
    pub fn new() -> (r: World)
        ensures
            r.slots@.len() == 0,
            r.player is None,
            r.pending_damage@.len() == 0,
            r.pending_heals@.len() == 0,
            r.wf(),
            r.all_alive(),
    {
        World { slots: Vec::new(), player: None, pending_damage: Vec::new(), pending_heals: Vec::new() }
    }

    /// Places an actor in the arena, reusing a vacant slot when one
    /// exists, and hands back its generation-checked handle.  Every
    /// previously valid handle still names the same actor.
    pub fn spawn(&mut self, actor: WorldActor) -> (id: ActorId)
        requires
            old(self).wf(),
            actor.wf(),
            old(self).slots@.len() < 1_000_000_000,
        ensures
            final(self).wf(),
            final(self).spec_valid_id(id),
            final(self).spec_actor(id) == actor,
            forall|other: ActorId|
                #[trigger] old(self).spec_valid_id(other) ==> final(self).spec_valid_id(other)
                    && final(self).spec_actor(other) == old(self).spec_actor(other)
                    && other.index != id.index,
            final(self).player == old(self).player,
            final(self).pending_damage == old(self).pending_damage,
            final(self).pending_heals == old(self).pending_heals,
            actor.health > 0 && old(self).all_alive() ==> final(self).all_alive(),
            final(self).slots@.len() <= old(self).slots@.len() + 1,
    {
        let mut i: usize = 0;
        while i < self.slots.len()
            invariant
                i <= self.slots@.len(),
                *self == *old(self),
                old(self).wf(),
                actor.wf(),
            decreases self.slots@.len() - i,
        {
            if self.slots[i].occupant.is_none() {
                let generation = self.slots[i].generation;
                self.slots.set(i, Slot { generation, occupant: Some(actor) });
                proof {
                    assert forall|j: int| 0 <= j < self.slots@.len() implies slot_wf(
                        #[trigger] self.slots@[j],
                    ) by {
                        if j != i {
                            assert(self.slots@[j] == old(self).slots@[j]);
                            assert(slot_wf(old(self).slots@[j]));
                        }
                    }
                    assert forall|other: ActorId| #[trigger]
                        old(self).spec_valid_id(other) implies self.spec_valid_id(other)
                        && self.spec_actor(other) == old(self).spec_actor(other) && other.index
                        != i by {
                        assert(old(self).slots@[other.index as int].occupant is Some);
                    }
                }
                return ActorId { index: i, generation };
            }
            i = i + 1;
        }
        let generation: u64 = 0;
        let index = self.slots.len();
        self.slots.push(Slot { generation, occupant: Some(actor) });
        proof {
            assert forall|j: int| 0 <= j < self.slots@.len() implies slot_wf(
                #[trigger] self.slots@[j],
            ) by {
                if j < index {
                    assert(self.slots@[j] == old(self).slots@[j]);
                    assert(slot_wf(old(self).slots@[j]));
                }
            }
            assert forall|other: ActorId| #[trigger]
                old(self).spec_valid_id(other) implies self.spec_valid_id(other)
                && self.spec_actor(other) == old(self).spec_actor(other) && other.index
                != index by {
                assert(self.slots@[other.index as int] == old(self).slots@[other.index as int]);
            }
        }
        ActorId { index, generation }
    }

    /// Looks an actor up by its handle; a stale or out-of-range handle
    /// finds nothing.
    pub fn get(&self, id: ActorId) -> (r: Option<WorldActor>)
        ensures
            r == (if self.spec_valid_id(id) {
                Some(self.spec_actor(id))
            } else {
                None::<WorldActor>
            }),
    {
        if id.index < self.slots.len() {
            let slot = self.slots[id.index];
            if slot.generation == id.generation {
                slot.occupant
            } else {
                None
            }
        } else {
            None
        }
    }

    /// Removes the actor `id` names, if it is still there, bumping the
    /// slot's generation so stale handles keep missing.  Every other valid
    /// handle still names the same actor.
    pub fn remove(&mut self, id: ActorId) -> (removed: bool)
        requires
            old(self).wf(),
        ensures
            final(self).wf(),
            removed == old(self).spec_valid_id(id),
            !final(self).spec_valid_id(id),
            forall|other: ActorId|
                #[trigger] old(self).spec_valid_id(other) && other.index != id.index
                    ==> final(self).spec_valid_id(other)
                    && final(self).spec_actor(other) == old(self).spec_actor(other),
            final(self).slots@.len() == old(self).slots@.len(),
            final(self).player == old(self).player,
            final(self).pending_damage == old(self).pending_damage,
            final(self).pending_heals == old(self).pending_heals,
            old(self).all_alive() ==> final(self).all_alive(),
    {
        if id.index < self.slots.len() {
            let slot = self.slots[id.index];
            if slot.generation == id.generation && slot.occupant.is_some() {
                self.slots.set(
                    id.index,
                    Slot { generation: slot.generation.saturating_add(1), occupant: None },
                );
                return true;
            }
        }
        false
    }

    /// Queues healing for `target`, applied on the next tick after deaths
    /// are processed; healing a removed actor is a no-op then.
    pub fn perform_heal(&mut self, target: ActorId, amount: u64)
        ensures
            final(self).pending_heals@ == old(self).pending_heals@.push(
                HealEvent { target, amount },
            ),
            final(self).slots == old(self).slots,
            final(self).player == old(self).player,
            final(self).pending_damage == old(self).pending_damage,
    {
        self.pending_heals.push(HealEvent { target, amount });
    }

    /// Attaches a timed effect to `target`, overwriting a present effect
    /// of the same kind, and reports whether the target was found.
    pub fn add_combat_effect(
        &mut self,
        target: ActorId,
        effect_type: CombatEffectType,
        duration: u64,
        value: u32,
    ) -> (applied: bool)
        requires
            old(self).wf(),
            duration <= crate::effects::MAX_EFFECT_DURATION_MILLIS,
        ensures
            final(self).wf(),
            applied == old(self).spec_valid_id(target),
            applied ==> {
                let e = CombatEffect { effect_type, duration, timer: 0u64, value };
                &&& final(self).spec_valid_id(target)
                &&& final(self).spec_actor(target) == (WorldActor {
                    effects: final(self).spec_actor(target).effects,
                    ..old(self).spec_actor(target)
                })
                &&& crate::effects::spec_effect(final(self).spec_actor(target).effects, effect_type)
                    == Some(e)
                &&& forall|k: CombatEffectType|
                    k != effect_type ==> crate::effects::spec_effect(
                        final(self).spec_actor(target).effects,
                        k,
                    ) == crate::effects::spec_effect(old(self).spec_actor(target).effects, k)
            },
            !applied ==> final(self).slots == old(self).slots,
            forall|other: ActorId|
                #[trigger] old(self).spec_valid_id(other) && other.index != target.index
                    ==> final(self).spec_valid_id(other)
                    && final(self).spec_actor(other) == old(self).spec_actor(other),
            final(self).slots@.len() == old(self).slots@.len(),
            final(self).player == old(self).player,
            final(self).pending_damage == old(self).pending_damage,
            final(self).pending_heals == old(self).pending_heals,
            old(self).all_alive() ==> final(self).all_alive(),
    {
        if target.index < self.slots.len() {
            let slot = self.slots[target.index];
            if slot.generation == target.generation {
                if let Some(actor) = slot.occupant {
                    let mut updated = actor;
                    updated.effects.insert(CombatEffect::new(effect_type, duration, value));
                    self.slots.set(
                        target.index,
                        Slot { generation: slot.generation, occupant: Some(updated) },
                    );
                    return true;
                }
            }
        }
        false
    }
}

/// The squared distance between two points, in squared thousandths of a
/// tile.
pub open spec fn spec_dist_sq(ax: i64, ay: i64, bx: i64, by: i64) -> int {
    (ax - bx) * (ax - bx) + (ay - by) * (ay - by)
}

/// Computes a squared distance exactly.
pub fn dist_sq(ax: i64, ay: i64, bx: i64, by: i64) -> (r: u64)
    requires
        -COORD_LIMIT <= ax <= COORD_LIMIT,
        -COORD_LIMIT <= ay <= COORD_LIMIT,
        -COORD_LIMIT <= bx <= COORD_LIMIT,
        -COORD_LIMIT <= by <= COORD_LIMIT,
    ensures
        r == spec_dist_sq(ax, ay, bx, by),
{
    let dx = ax - bx;
    let dy = ay - by;
    proof {
        lemma_square_bound(dx as int, 2 * COORD_LIMIT as int);
        lemma_square_bound(dy as int, 2 * COORD_LIMIT as int);
    }
    ((dx * dx) as u64) + ((dy * dy) as u64)
}

/// A cooldown lowered by the tick's delta, floored at zero.
pub open spec fn spec_cooled(cooldown: u64, dt: u64) -> u64 {
    if cooldown >= dt {
        (cooldown - dt) as u64
    } else {
        0u64
    }
}

/// An actor after the cooldown stage: only its cooldown moves.
pub open spec fn spec_cooldown_step(a: WorldActor, dt: u64) -> WorldActor {
    WorldActor { cooldown: spec_cooled(a.cooldown, dt), ..a }
}

/// The player's handle and position, where a living player exists.
pub open spec fn spec_player_info(w: World) -> Option<(ActorId, i64, i64)> {
    match w.player {
        Some(pid) => if w.spec_valid_id(pid) && w.spec_actor(pid).health > 0 {
            Some((pid, w.spec_actor(pid).x, w.spec_actor(pid).y))
        } else {
            None
        },
        None => None,
    }
}

/// An actor after the behavior stage.  An externally driven actor is left
/// alone.  A machine-driven actor at or below zero health is forced to
/// the terminal `Dead` state and evaluates no transition rule; it drops
/// its target so nothing keeps acting against it.  A living one
/// evaluates the transition table against the distance to the player —
/// taken as unreachable when no living player exists — and its own
/// health fraction; entering `Chase` or `Attack` makes the player its
/// target, the hit marker is consumed, and `is_attacking` survives only
/// in the `Attack` state.
pub open spec fn spec_ai_step(a: WorldActor, p: Option<(ActorId, i64, i64)>) -> WorldActor {
    match a.behavior {
        None => a,
        Some(b) => if a.health <= 0 {
            WorldActor {
                ai_state: AIState::Dead,
                target: None,
                is_attacking: false,
                under_attack: false,
                ..a
            }
        } else {
            let dist = match p {
                Some(pi) => spec_dist_sq(a.x, a.y, pi.1, pi.2),
                None => u64::MAX as int,
            };
            let state = spec_next_ai_state(
                b,
                dist,
                a.attack.attack_range,
                a.detection_range,
                spec_health_per_mille(a.health, a.max_health),
                a.under_attack,
            );
            let target = if state == AIState::Chase || state == AIState::Attack {
                match p {
                    Some(pi) => Some(pi.0),
                    None => a.target,
                }
            } else {
                a.target
            };
            WorldActor {
                ai_state: state,
                target,
                under_attack: false,
                is_attacking: a.is_attacking && state == AIState::Attack,
                ..a
            }
        },
    }
}

impl World {
    /// Advances every actor's attack cooldown by the tick's delta, floored
    /// at zero.  Nothing else changes.
    pub fn update_combat_cooldowns(&mut self, dt: u64)
        requires
            old(self).wf(),
        ensures
            final(self).wf(),
            final(self).slots@.len() == old(self).slots@.len(),
            forall|i: int|
                0 <= i < old(self).slots@.len() ==> #[trigger] final(self).slots@[i] == (Slot {
                    generation: old(self).slots@[i].generation,
                    occupant: match old(self).slots@[i].occupant {
                        Some(a) => Some(spec_cooldown_step(a, dt)),
                        None => None::<WorldActor>,
                    },
                }),
            final(self).player == old(self).player,
            final(self).pending_damage == old(self).pending_damage,
            final(self).pending_heals == old(self).pending_heals,
            old(self).all_alive() ==> final(self).all_alive(),
    {
        let n = self.slots.len();
        let mut i: usize = 0;
        while i < n
            invariant
                i <= n,
                n == self.slots@.len(),
                n == old(self).slots@.len(),
                self.player == old(self).player,
                self.pending_damage == old(self).pending_damage,
                self.pending_heals == old(self).pending_heals,
                old(self).wf(),
                forall|j: int|
                    i <= j < n ==> #[trigger] self.slots@[j] == old(self).slots@[j],
                forall|j: int|
                    0 <= j < i ==> #[trigger] self.slots@[j] == (Slot {
                        generation: old(self).slots@[j].generation,
                        occupant: match old(self).slots@[j].occupant {
                            Some(a) => Some(spec_cooldown_step(a, dt)),
                            None => None::<WorldActor>,
                        },
                    }),
            decreases n - i,
        {
            let slot = self.slots[i];
            match slot.occupant {
                Some(actor) => {
                    let cooled = if actor.cooldown >= dt {
                        actor.cooldown - dt
                    } else {
                        0
                    };
                    let updated = WorldActor { cooldown: cooled, ..actor };
                    self.slots.set(
                        i,
                        Slot { generation: slot.generation, occupant: Some(updated) },
                    );
                },
                None => {},
            }
            i = i + 1;
        }
        proof {
            assert forall|j: int| 0 <= j < self.slots@.len() implies slot_wf(
                #[trigger] self.slots@[j],
            ) by {
                assert(slot_wf(old(self).slots@[j]));
            }
        }
    }

    /// Evaluates the behavior state machine for every actor against the
    /// living player's position; an actor at or below zero health is
    /// forced to the terminal `Dead` state instead of any table rule.
    /// Nothing but behavior state, target, the hit marker and the
    /// mid-attack flag changes.
    pub fn update_enemy_ai(&mut self)
        requires
            old(self).wf(),
        ensures
            final(self).wf(),
            final(self).slots@.len() == old(self).slots@.len(),
            forall|i: int|
                0 <= i < old(self).slots@.len() ==> #[trigger] final(self).slots@[i] == (Slot {
                    generation: old(self).slots@[i].generation,
                    occupant: match old(self).slots@[i].occupant {
                        Some(a) => Some(spec_ai_step(a, spec_player_info(*old(self)))),
                        None => None::<WorldActor>,
                    },
                }),
            final(self).player == old(self).player,
            final(self).pending_damage == old(self).pending_damage,
            final(self).pending_heals == old(self).pending_heals,
            old(self).all_alive() ==> final(self).all_alive(),
    {
        let player_info: Option<(ActorId, i64, i64)> = match self.player {
            Some(pid) => {
                match self.get(pid) {
                    Some(p) => if p.health > 0 {
                        Some((pid, p.x, p.y))
                    } else {
                        None
                    },
                    None => None,
                }
            },
            None => None,
        };
        let n = self.slots.len();
        let mut i: usize = 0;
        while i < n
            invariant
                i <= n,
                n == self.slots@.len(),
                n == old(self).slots@.len(),
                self.player == old(self).player,
                self.pending_damage == old(self).pending_damage,
                self.pending_heals == old(self).pending_heals,
                old(self).wf(),
                player_info == spec_player_info(*old(self)),
                player_info matches Some(pi) ==> -COORD_LIMIT <= pi.1 <= COORD_LIMIT
                    && -COORD_LIMIT <= pi.2 <= COORD_LIMIT,
                forall|j: int|
                    i <= j < n ==> #[trigger] self.slots@[j] == old(self).slots@[j],
                forall|j: int|
                    0 <= j < i ==> #[trigger] self.slots@[j] == (Slot {
                        generation: old(self).slots@[j].generation,
                        occupant: match old(self).slots@[j].occupant {
                            Some(a) => Some(spec_ai_step(a, spec_player_info(*old(self)))),
                            None => None::<WorldActor>,
                        },
                    }),
            decreases n - i,
        {
            let slot = self.slots[i];
            match slot.occupant {
                Some(actor) => {
                    let updated = ai_step_actor(&actor, player_info);
                    self.slots.set(
                        i,
                        Slot { generation: slot.generation, occupant: Some(updated) },
                    );
                },
                None => {},
            }
            i = i + 1;
        }
        proof {
            assert forall|j: int| 0 <= j < self.slots@.len() implies slot_wf(
                #[trigger] self.slots@[j],
            ) by {
                assert(slot_wf(old(self).slots@[j]));
            }
        }
    }
}

/// One attack intent: `source` means to hit `target` this tick.
#[derive(Clone, Copy, Debug, PartialEq, Eq, Structural)]
pub struct AttackIntent {
    pub source: ActorId,
    pub target: ActorId,
}

/// The attack delivery of an arena actor; an actor without an archetype
/// (the player) strikes as a melee attacker.
pub open spec fn spec_attack_kind(a: WorldActor) -> AttackType {
    match a.enemy_type {
        Some(t) => spec_attack_type(t),
        None => AttackType::Melee,
    }
}

/// The single gate of the scheduler: the actor's own cooldown has run out
/// and no Freeze or Stun is forcing a wait.
pub open spec fn spec_gate_ready(a: WorldActor) -> bool {
    a.cooldown == 0 && spec_forced_cooldown(a.effects) == 0
}

/// Whether an actor issues a damage intent this tick: it is machine
/// driven, stands in the `Attack` state, passes the cooldown gate, has a
/// target, and its attack delivery actually deals damage.
pub open spec fn spec_issues_damage_intent(a: WorldActor) -> bool {
    &&& a.behavior is Some
    &&& a.ai_state == AIState::Attack
    &&& spec_gate_ready(a)
    &&& a.target is Some
    &&& (spec_attack_kind(a) == AttackType::Melee || spec_attack_kind(a) == AttackType::Laser
        || spec_attack_kind(a) == AttackType::Spit)
}

/// Whether an actor triggers its summon side effect this tick: the queen
/// rule holds of it and no Freeze or Stun is forcing a wait.
pub open spec fn spec_issues_summon(a: WorldActor) -> bool {
    &&& a.behavior is Some
    &&& (a.enemy_type matches Some(t) && spec_summon_ready(
        t,
        spec_health_per_mille(a.health, a.max_health),
        a.is_attacking,
        a.cooldown,
    ))
    &&& spec_forced_cooldown(a.effects) == 0
}

/// Whether the actor performs any action this tick that consumes the
/// cooldown.
pub open spec fn spec_fires(a: WorldActor) -> bool {
    spec_issues_damage_intent(a) || spec_issues_summon(a)
}

/// Attack speed after a present Slow halves it.
pub open spec fn spec_effective_speed(a: WorldActor) -> u32 {
    if a.effects.slow is Some {
        (a.attack.attack_speed / 2) as u32
    } else {
        a.attack.attack_speed
    }
}

/// An actor after the intent stage: one that fired had its cooldown reset
/// to one effective attack period and is now mid-attack; others are left
/// alone.
pub open spec fn spec_fire_step(a: WorldActor) -> WorldActor {
    if spec_fires(a) {
        WorldActor {
            cooldown: spec_cooldown_after_attack(spec_effective_speed(a)) as u64,
            is_attacking: true,
            ..a
        }
    } else {
        a
    }
}

/// What the intent stage produced: at most one damage intent and at most
/// one summon per actor.
pub struct IntentBatch {
    pub intents: Vec<AttackIntent>,
    pub summons: Vec<ActorId>,
}

/// Whether some intent in the batch has the actor at slot `j` as its
/// source.
pub open spec fn spec_has_intent_for(intents: Seq<AttackIntent>, j: int) -> bool {
    exists|k: int| 0 <= k < intents.len() && (#[trigger] intents[k]).source.index == j
}

/// Whether some summon entry in the batch names the actor at slot `j`.
pub open spec fn spec_has_summon_for(summons: Seq<ActorId>, j: int) -> bool {
    exists|k: int| 0 <= k < summons.len() && (#[trigger] summons[k]).index == j
}

/// An intent is sound when its source is a live actor that fires a damage
/// intent at exactly the target the intent names.
pub open spec fn spec_intent_sound(w: World, it: AttackIntent) -> bool {
    &&& w.spec_valid_id(it.source)
    &&& spec_issues_damage_intent(w.spec_actor(it.source))
    &&& w.spec_actor(it.source).target == Some(it.target)
}

/// A summon entry is sound when it names a live actor whose summon side
/// effect fires.
pub open spec fn spec_summon_sound(w: World, id: ActorId) -> bool {
    &&& w.spec_valid_id(id)
    &&& spec_issues_summon(w.spec_actor(id))
}

impl World {
    /// Issues at most one attack intent per actor, gated by the single
    /// cooldown: an actor whose cooldown has not run out, or whom a
    /// Freeze or Stun holds, issues nothing this tick.  Firing — a damage
    /// intent or the queen's summon — resets the cooldown to one
    /// effective attack period and marks the actor mid-attack.
    pub fn update_enemy_attacks(&mut self) -> (out: IntentBatch)
        requires
            old(self).wf(),
        ensures
            final(self).wf(),
            final(self).slots@.len() == old(self).slots@.len(),
            forall|i: int|
                0 <= i < old(self).slots@.len() ==> #[trigger] final(self).slots@[i] == (Slot {
                    generation: old(self).slots@[i].generation,
                    occupant: match old(self).slots@[i].occupant {
                        Some(a) => Some(spec_fire_step(a)),
                        None => None::<WorldActor>,
                    },
                }),
            final(self).player == old(self).player,
            final(self).pending_damage == old(self).pending_damage,
            final(self).pending_heals == old(self).pending_heals,
            old(self).all_alive() ==> final(self).all_alive(),
            forall|k: int|
                0 <= k < out.intents@.len() ==> spec_intent_sound(*old(self), #[trigger] out.intents@[k]),
            forall|k1: int, k2: int|
                0 <= k1 < k2 < out.intents@.len() ==> out.intents@[k1].source.index < out.intents@[k2].source.index,
            forall|i: int|
                0 <= i < old(self).slots@.len() ==> ((#[trigger] old(
                    self,
                ).slots@[i].occupant) matches Some(a) && spec_issues_damage_intent(a)
                    ==> spec_has_intent_for(out.intents@, i)),
            forall|k: int|
                0 <= k < out.summons@.len() ==> spec_summon_sound(*old(self), #[trigger] out.summons@[k]),
            forall|k1: int, k2: int|
                0 <= k1 < k2 < out.summons@.len() ==> out.summons@[k1].index < out.summons@[k2].index,
            forall|i: int|
                0 <= i < old(self).slots@.len() ==> ((#[trigger] old(
                    self,
                ).slots@[i].occupant) matches Some(a) && spec_issues_summon(a)
                    ==> spec_has_summon_for(out.summons@, i)),
    {
        let mut intents: Vec<AttackIntent> = Vec::new();
        let mut summons: Vec<ActorId> = Vec::new();
        let n = self.slots.len();
        let mut i: usize = 0;
        while i < n
            invariant
                i <= n,
                n == self.slots@.len(),
                n == old(self).slots@.len(),
                self.player == old(self).player,
                self.pending_damage == old(self).pending_damage,
                self.pending_heals == old(self).pending_heals,
                old(self).wf(),
                forall|j: int| i <= j < n ==> #[trigger] self.slots@[j] == old(self).slots@[j],
                forall|j: int|
                    0 <= j < i ==> #[trigger] self.slots@[j] == (Slot {
                        generation: old(self).slots@[j].generation,
                        occupant: match old(self).slots@[j].occupant {
                            Some(a) => Some(spec_fire_step(a)),
                            None => None::<WorldActor>,
                        },
                    }),
                forall|k: int|
                    0 <= k < intents@.len() ==> spec_intent_sound(
                        *old(self),
                        #[trigger] intents@[k],
                    ) && intents@[k].source.index < i,
                forall|k1: int, k2: int|
                    0 <= k1 < k2 < intents@.len() ==> intents@[k1].source.index
                        < intents@[k2].source.index,
                forall|j: int|
                    0 <= j < i ==> ((#[trigger] old(self).slots@[j].occupant) matches Some(a)
                        && spec_issues_damage_intent(a) ==> spec_has_intent_for(intents@, j)),
                forall|k: int|
                    0 <= k < summons@.len() ==> spec_summon_sound(*old(self), #[trigger] summons@[k])
                        && summons@[k].index < i,
                forall|k1: int, k2: int|
                    0 <= k1 < k2 < summons@.len() ==> summons@[k1].index < summons@[k2].index,
                forall|j: int|
                    0 <= j < i ==> ((#[trigger] old(self).slots@[j].occupant) matches Some(a)
                        && spec_issues_summon(a) ==> spec_has_summon_for(summons@, j)),
            decreases n - i,
        {
            let ghost intents0 = intents@;
            let ghost summons0 = summons@;
            let slot = self.slots[i];
            match slot.occupant {
                Some(actor) => {
                    proof {
                        assert(slot_wf(old(self).slots@[i as int]));
                    }
                    let forced = actor.effects.forced_cooldown();
                    let kind = match actor.enemy_type {
                        Some(t) => t.attack_type(),
                        None => AttackType::Melee,
                    };
                    let deals_damage = matches!(kind, AttackType::Melee) || matches!(
                        kind,
                        AttackType::Laser,
                    ) || matches!(kind, AttackType::Spit);
                    let damage_intent = actor.behavior.is_some() && matches!(
                        actor.ai_state,
                        AIState::Attack,
                    ) && actor.cooldown == 0 && forced == 0 && actor.target.is_some()
                        && deals_damage;
                    let summon = actor.behavior.is_some() && forced == 0 && (match actor.enemy_type {
                        Some(t) => summon_ready(
                            t,
                            health_per_mille_of(&actor),
                            actor.is_attacking,
                            actor.cooldown,
                        ),
                        None => false,
                    });
                    if damage_intent {
                        match actor.target {
                            Some(t) => {
                                intents.push(
                                    AttackIntent {
                                        source: ActorId { index: i, generation: slot.generation },
                                        target: t,
                                    },
                                );
                            },
                            None => {},
                        }
                    }
                    if summon {
                        summons.push(ActorId { index: i, generation: slot.generation });
                    }
                    if damage_intent || summon {
                        let speed = actor.effects.effective_attack_speed(
                            actor.attack.attack_speed,
                        );
                        let updated = WorldActor {
                            cooldown: cooldown_after_attack(speed),
                            is_attacking: true,
                            ..actor
                        };
                        self.slots.set(
                            i,
                            Slot { generation: slot.generation, occupant: Some(updated) },
                        );
                    }
                },
                None => {},
            }
            proof {
                assert forall|j: int|
                    0 <= j <= i && ((#[trigger] old(self).slots@[j].occupant) matches Some(a)
                        && spec_issues_damage_intent(a)) implies spec_has_intent_for(
                    intents@,
                    j,
                ) by {
                    if j < i {
                        let k = choose|k: int|
                            0 <= k < intents0.len() && (#[trigger] intents0[k]).source.index == j;
                        assert(intents@[k] == intents0[k]);
                    } else {
                        assert(intents@[intents@.len() - 1].source.index == i as int);
                    }
                }
                assert forall|j: int|
                    0 <= j <= i && ((#[trigger] old(self).slots@[j].occupant) matches Some(a)
                        && spec_issues_summon(a)) implies spec_has_summon_for(summons@, j) by {
                    if j < i {
                        let k = choose|k: int|
                            0 <= k < summons0.len() && (#[trigger] summons0[k]).index == j;
                        assert(summons@[k] == summons0[k]);
                    } else {
                        assert(summons@[summons@.len() - 1].index == i as int);
                    }
                }
            }
            i = i + 1;
        }
        proof {
            assert forall|j: int| 0 <= j < self.slots@.len() implies slot_wf(
                #[trigger] self.slots@[j],
            ) by {
                assert(forall|j2: int|
                    0 <= j2 < old(self).slots@.len() ==> slot_wf(#[trigger] old(self).slots@[j2]));
            }

        }
        IntentBatch { intents, summons }
    }
}

/// A defender's resistance table with a present Shield's bonus added to
/// the physical and energy entries, re-derived fresh each time.
pub open spec fn spec_shielded_defense(a: WorldActor) -> DefenseAttributes {
    DefenseAttributes {
        physical_resistance: a.defense.physical_resistance.saturating_add(
            crate::effects::spec_shield_bonus(a.effects),
        ),
        energy_resistance: a.defense.energy_resistance.saturating_add(
            crate::effects::spec_shield_bonus(a.effects),
        ),
        ..a.defense
    }
}

/// A resolved event is sound when both parties are live actors and the
/// amount is exactly what the resolution engine yields for the attacker's
/// profile against the defender's shielded resistances, under the event's
/// own critical flag; an attacker who cannot crit never produces a
/// critical event, one who always crits always does.
pub open spec fn spec_event_sound(w: World, ev: DamageEvent) -> bool {
    &&& w.spec_valid_id(ev.source)
    &&& w.spec_valid_id(ev.target)
    &&& ev.damage_type == w.spec_actor(ev.source).attack.damage_type
    &&& ev.damage == resolved_damage(
        w.spec_actor(ev.source).attack,
        spec_resistance(
            spec_shielded_defense(w.spec_actor(ev.target)),
            w.spec_actor(ev.source).attack.damage_type,
        ),
        ev.is_critical,
    )
    &&& (w.spec_actor(ev.source).attack.critical_chance == 0 ==> !ev.is_critical)
    &&& (w.spec_actor(ev.source).attack.critical_chance >= 1000 ==> ev.is_critical)
}

/// Whether some event resolves the given intent.
pub open spec fn spec_has_event_for(events: Seq<DamageEvent>, it: AttackIntent) -> bool {
    exists|k: int|
        0 <= k < events.len() && (#[trigger] events[k]).source == it.source && events[k].target
            == it.target
}

impl World {
    /// Resolves attack intents into damage events.  Each intent whose
    /// source and target are both still live yields exactly one event,
    /// resolved by the damage engine with a fresh critical roll against
    /// the target's shielded resistances; an intent whose party is gone
    /// is dropped.  The arena itself is untouched.
    pub fn resolve_attack_intents(&self, intents: &Vec<AttackIntent>) -> (events: Vec<DamageEvent>)
        requires
            self.wf(),
        ensures
            forall|k: int|
                0 <= k < events@.len() ==> spec_event_sound(*self, #[trigger] events@[k]),
            forall|j: int|
                0 <= j < intents@.len() ==> (self.spec_valid_id((#[trigger] intents@[j]).source)
                    && self.spec_valid_id(intents@[j].target) ==> spec_has_event_for(
                    events@,
                    intents@[j],
                )),
            events@.len() <= intents@.len(),
    {
        let mut events: Vec<DamageEvent> = Vec::new();
        let n = intents.len();
        let mut j: usize = 0;
        while j < n
            invariant
                j <= n,
                n == intents@.len(),
                self.wf(),
                events@.len() <= j,
                forall|k: int|
                    0 <= k < events@.len() ==> spec_event_sound(*self, #[trigger] events@[k]),
                forall|j2: int|
                    0 <= j2 < j ==> (self.spec_valid_id((#[trigger] intents@[j2]).source)
                        && self.spec_valid_id(intents@[j2].target) ==> spec_has_event_for(
                        events@,
                        intents@[j2],
                    )),
            decreases n - j,
        {
            let ghost events0 = events@;
            let it = intents[j];
            let source_actor = self.get(it.source);
            let target_actor = self.get(it.target);
            match (source_actor, target_actor) {
                (Some(src), Some(tgt)) => {
                    proof {
                        assert(slot_wf(self.slots@[it.source.index as int]));
                        assert(slot_wf(self.slots@[it.target.index as int]));
                    }
                    let roll = roll_per_mille();
                    let defense = tgt.effects.shielded_defense(&tgt.defense);
                    let out = resolve_attack(&src.attack, &defense, roll);
                    events.push(
                        DamageEvent {
                            source: it.source,
                            target: it.target,
                            damage: out.0,
                            damage_type: src.attack.damage_type,
                            is_critical: out.1,
                        },
                    );
                },
                _ => {},
            }
            proof {
                assert forall|j2: int|
                    0 <= j2 <= j && (self.spec_valid_id((#[trigger] intents@[j2]).source)
                        && self.spec_valid_id(intents@[j2].target)) implies spec_has_event_for(
                    events@,
                    intents@[j2],
                ) by {
                    if j2 < j {
                        let k = choose|k: int|
                            0 <= k < events0.len() && (#[trigger] events0[k]).source
                                == intents@[j2].source && events0[k].target == intents@[j2].target;
                        assert(events@[k] == events0[k]);
                    } else {
                        assert(events@[events@.len() - 1].source == intents@[j2].source);
                        assert(events@[events@.len() - 1].target == intents@[j2].target);
                    }
                }
            }
            j = j + 1;
        }
        events
    }
}

/// Whether `id` names the current occupant of a live slot, stated over a
/// bare slot sequence.
pub open spec fn seq_valid_id(slots: Seq<Slot>, id: ActorId) -> bool {
    &&& id.index < slots.len()
    &&& slots[id.index as int].generation == id.generation
    &&& slots[id.index as int].occupant is Some
}

/// The defender after one damage event lands on it: the flat defense is
/// subtracted from the amount, floored at zero, and the rest leaves the
/// health (saturating at the bottom of the range); the hit marker is set,
/// the source is remembered for kill credit, and the damage-taken total
/// grows by the event's amount.
pub open spec fn spec_hit_actor(a: WorldActor, ev: DamageEvent) -> WorldActor {
    let applied = crate::enemy::spec_applied_damage(ev.damage, a.flat_defense);
    let lowered = a.health - applied;
    let health = if lowered < i64::MIN {
        i64::MIN
    } else {
        lowered as i64
    };
    WorldActor {
        health,
        under_attack: true,
        last_hit_by: Some(ev.source),
        stats: CombatStats {
            damage_taken: a.stats.damage_taken.saturating_add(ev.damage),
            ..a.stats
        },
        ..a
    }
}

/// The attacker after its event lands: its dealt total grows by the
/// amount, the attack is counted, and a critical event is counted as a
/// critical hit.
pub open spec fn spec_credit_attacker(a: WorldActor, ev: DamageEvent) -> WorldActor {
    WorldActor {
        stats: CombatStats {
            damage_dealt: a.stats.damage_dealt.saturating_add(ev.damage),
            total_attacks: a.stats.total_attacks.saturating_add(1),
            critical_hits: if ev.is_critical {
                a.stats.critical_hits.saturating_add(1)
            } else {
                a.stats.critical_hits
            },
            ..a.stats
        },
        ..a
    }
}

/// One damage event applied to the arena: a missing target drops the
/// event silently; otherwise the target takes the hit and then the
/// source, if still live, is credited.
pub open spec fn spec_apply_damage_event(slots: Seq<Slot>, ev: DamageEvent) -> Seq<Slot> {
    if seq_valid_id(slots, ev.target) {
        let hit = spec_hit_actor(slots[ev.target.index as int].occupant->Some_0, ev);
        let s1 = slots.update(
            ev.target.index as int,
            Slot { generation: ev.target.generation, occupant: Some(hit) },
        );
        if seq_valid_id(s1, ev.source) {
            let credited = spec_credit_attacker(s1[ev.source.index as int].occupant->Some_0, ev);
            s1.update(
                ev.source.index as int,
                Slot { generation: ev.source.generation, occupant: Some(credited) },
            )
        } else {
            s1
        }
    } else {
        slots
    }
}

/// A whole batch of damage events applied in order.
pub open spec fn spec_apply_damage_events(slots: Seq<Slot>, evs: Seq<DamageEvent>) -> Seq<Slot>
    decreases evs.len(),
{
    if evs.len() == 0 {
        slots
    } else {
        spec_apply_damage_events(spec_apply_damage_event(slots, evs[0]), evs.drop_first())
    }
}

/// Applying a batch and then one more event is applying the grown batch.
pub proof fn lemma_apply_damage_events_snoc(
    slots: Seq<Slot>,
    evs: Seq<DamageEvent>,
    ev: DamageEvent,
)
    ensures
        spec_apply_damage_events(slots, evs.push(ev)) == spec_apply_damage_event(
            spec_apply_damage_events(slots, evs),
            ev,
        ),
    decreases evs.len(),
{
    let grown = evs.push(ev);
    assert(spec_apply_damage_events(slots, grown) == spec_apply_damage_events(
        spec_apply_damage_event(slots, grown[0]),
        grown.drop_first(),
    ));
    if evs.len() == 0 {
        assert(grown[0] == ev);
        assert(grown.drop_first() =~= Seq::<DamageEvent>::empty());
        assert(spec_apply_damage_events(spec_apply_damage_event(slots, ev), grown.drop_first())
            == spec_apply_damage_event(slots, ev));
        assert(spec_apply_damage_events(slots, evs) == slots);
    } else {
        assert(grown[0] == evs[0]);
        assert(grown.drop_first() =~= evs.drop_first().push(ev));
        lemma_apply_damage_events_snoc(spec_apply_damage_event(slots, evs[0]), evs.drop_first(), ev);
        assert(spec_apply_damage_events(slots, evs) == spec_apply_damage_events(
            spec_apply_damage_event(slots, evs[0]),
            evs.drop_first(),
        ));
    }
}

/// What a damage event leaves untouched on any actor: everything but its
/// health (which never rises), its hit marker, its kill-credit memory and
/// its statistics.
pub open spec fn spec_damage_frame(a: WorldActor, b: WorldActor) -> bool {
    &&& b.attack == a.attack
    &&& b.defense == a.defense
    &&& b.flat_defense == a.flat_defense
    &&& b.max_health == a.max_health
    &&& b.health <= a.health
    &&& b.level == a.level
    &&& b.behavior == a.behavior
    &&& b.enemy_type == a.enemy_type
    &&& b.detection_range == a.detection_range
    &&& b.ai_state == a.ai_state
    &&& b.cooldown == a.cooldown
    &&& b.is_attacking == a.is_attacking
    &&& b.target == a.target
    &&& b.effects == a.effects
    &&& b.x == a.x
    &&& b.y == a.y
}

/// How one slot may change under damage application: generation and
/// occupancy are untouched, and the occupant changes only in the ways
/// `spec_damage_frame` allows, staying well formed.
pub open spec fn spec_slot_frame(before: Slot, after: Slot) -> bool {
    &&& after.generation == before.generation
    &&& (after.occupant is Some <==> before.occupant is Some)
    &&& (before.occupant is Some && after.occupant is Some ==> spec_damage_frame(
        before.occupant->Some_0,
        after.occupant->Some_0,
    ))
    &&& (slot_wf(before) ==> slot_wf(after))
}

/// The slot-frame relation composes.
pub proof fn lemma_slot_frame_trans(a: Slot, b: Slot, c: Slot)
    requires
        spec_slot_frame(a, b),
        spec_slot_frame(b, c),
    ensures
        spec_slot_frame(a, c),
{
}

/// One damage event keeps the arena's shape: every slot stands in the
/// slot-frame relation to what it was.
pub proof fn lemma_apply_damage_event_frame(slots: Seq<Slot>, ev: DamageEvent)
    ensures
        spec_apply_damage_event(slots, ev).len() == slots.len(),
        forall|i: int|
            0 <= i < slots.len() ==> spec_slot_frame(
                slots[i],
                #[trigger] spec_apply_damage_event(slots, ev)[i],
            ),
{
    let mid = spec_apply_damage_event(slots, ev);
    if seq_valid_id(slots, ev.target) {
        let a_t = slots[ev.target.index as int].occupant->Some_0;
        let hit = spec_hit_actor(a_t, ev);
        let s1 = slots.update(
            ev.target.index as int,
            Slot { generation: ev.target.generation, occupant: Some(hit) },
        );
        assert(spec_damage_frame(a_t, hit));
        assert(spec_slot_frame(slots[ev.target.index as int], s1[ev.target.index as int]));
        if seq_valid_id(s1, ev.source) {
            let a_s = s1[ev.source.index as int].occupant->Some_0;
            let credited = spec_credit_attacker(a_s, ev);
            assert(spec_damage_frame(a_s, credited));
            assert(mid == s1.update(
                ev.source.index as int,
                Slot { generation: ev.source.generation, occupant: Some(credited) },
            ));
            assert forall|i: int| 0 <= i < slots.len() implies spec_slot_frame(
                slots[i],
                #[trigger] mid[i],
            ) by {
                assert(spec_slot_frame(s1[ev.source.index as int], mid[ev.source.index as int]));
                if i == ev.source.index {
                    lemma_slot_frame_trans(slots[i], s1[i], mid[i]);
                } else if i == ev.target.index {
                    assert(mid[i] == s1[i]);
                } else {
                    assert(mid[i] == slots[i]);
                }
            }
        } else {
            assert(mid == s1);
            assert forall|i: int| 0 <= i < slots.len() implies spec_slot_frame(
                slots[i],
                #[trigger] mid[i],
            ) by {
                if i != ev.target.index {
                    assert(mid[i] == slots[i]);
                }
            }
        }
    } else {
        assert(mid == slots);
        assert forall|i: int| 0 <= i < slots.len() implies spec_slot_frame(
            slots[i],
            #[trigger] mid[i],
        ) by {
            assert(mid[i] == slots[i]);
        }
    }
}

/// A batch of damage events keeps the arena's shape: every slot stands in
/// the slot-frame relation to what it was.
pub proof fn lemma_apply_damage_events_frame(slots: Seq<Slot>, evs: Seq<DamageEvent>)
    ensures
        spec_apply_damage_events(slots, evs).len() == slots.len(),
        forall|i: int|
            0 <= i < slots.len() ==> spec_slot_frame(
                slots[i],
                #[trigger] spec_apply_damage_events(slots, evs)[i],
            ),
    decreases evs.len(),
{
    let done = spec_apply_damage_events(slots, evs);
    if evs.len() == 0 {
        assert(done == slots);
        assert forall|i: int| 0 <= i < slots.len() implies spec_slot_frame(
            slots[i],
            #[trigger] done[i],
        ) by {
            assert(done[i] == slots[i]);
        }
    } else {
        let ev = evs[0];
        let mid = spec_apply_damage_event(slots, ev);
        lemma_apply_damage_event_frame(slots, ev);
        lemma_apply_damage_events_frame(mid, evs.drop_first());
        assert(done == spec_apply_damage_events(mid, evs.drop_first()));
        assert forall|i: int| 0 <= i < slots.len() implies spec_slot_frame(
            slots[i],
            #[trigger] done[i],
        ) by {
            assert(spec_slot_frame(slots[i], mid[i]));
            assert(spec_slot_frame(mid[i], done[i]));
            lemma_slot_frame_trans(slots[i], mid[i], done[i]);
        }
    }
}

impl World {
    /// Applies a batch of damage events, in order, to the arena: each
    /// event lowers its target's health by the amount less the target's
    /// flat defense (floored at zero), marks it hit, remembers the source
    /// for kill credit, and accumulates the damage-dealt/taken, attack
    /// and critical-hit statistics.  An event whose target is gone is
    /// dropped silently; nothing else about the world changes.
    pub fn process_damage_events(&mut self, events: &Vec<DamageEvent>)
        requires
            old(self).wf(),
        ensures
            final(self).wf(),
            final(self).slots@ == spec_apply_damage_events(old(self).slots@, events@),
            final(self).slots@.len() == old(self).slots@.len(),
            final(self).player == old(self).player,
            final(self).pending_damage == old(self).pending_damage,
            final(self).pending_heals == old(self).pending_heals,
    {
        let n = events.len();
        let mut k: usize = 0;
        while k < n
            invariant
                k <= n,
                n == events@.len(),
                old(self).wf(),
                self.slots@ == spec_apply_damage_events(old(self).slots@, events@.take(k as int)),
                self.slots@.len() == old(self).slots@.len(),
                self.player == old(self).player,
                self.pending_damage == old(self).pending_damage,
                self.pending_heals == old(self).pending_heals,
            decreases n - k,
        {
            let ghost slots0 = self.slots@;
            let ev = events[k];
            if ev.target.index < self.slots.len() {
                let tslot = self.slots[ev.target.index];
                if tslot.generation == ev.target.generation {
                    if let Some(t) = tslot.occupant {
                        let applied: u64 = if ev.damage > t.flat_defense {
                            ev.damage - t.flat_defense
                        } else {
                            0
                        };
                        let lowered: i128 = (t.health as i128) - (applied as i128);
                        let health: i64 = if lowered < (i64::MIN as i128) {
                            i64::MIN
                        } else {
                            lowered as i64
                        };
                        let hit = WorldActor {
                            health,
                            under_attack: true,
                            last_hit_by: Some(ev.source),
                            stats: CombatStats {
                                damage_taken: t.stats.damage_taken.saturating_add(ev.damage),
                                ..t.stats
                            },
                            ..t
                        };
                        self.slots.set(
                            ev.target.index,
                            Slot { generation: ev.target.generation, occupant: Some(hit) },
                        );
                        if ev.source.index < self.slots.len() {
                            let sslot = self.slots[ev.source.index];
                            if sslot.generation == ev.source.generation {
                                if let Some(s) = sslot.occupant {
                                    let credited = WorldActor {
                                        stats: CombatStats {
                                            damage_dealt: s.stats.damage_dealt.saturating_add(
                                                ev.damage,
                                            ),
                                            total_attacks: s.stats.total_attacks.saturating_add(1),
                                            critical_hits: if ev.is_critical {
                                                s.stats.critical_hits.saturating_add(1)
                                            } else {
                                                s.stats.critical_hits
                                            },
                                            ..s.stats
                                        },
                                        ..s
                                    };
                                    self.slots.set(
                                        ev.source.index,
                                        Slot {
                                            generation: ev.source.generation,
                                            occupant: Some(credited),
                                        },
                                    );
                                }
                            }
                        }
                    }
                }
            }
            proof {
                assert(self.slots@ =~= spec_apply_damage_event(slots0, ev));
                assert(events@.take(k + 1) =~= events@.take(k as int).push(ev));
                lemma_apply_damage_events_snoc(old(self).slots@, events@.take(k as int), ev);
            }
            k = k + 1;
        }
        proof {
            assert(events@.take(n as int) =~= events@);
            lemma_apply_damage_events_frame(old(self).slots@, events@);
            assert forall|i: int| 0 <= i < self.slots@.len() implies slot_wf(
                #[trigger] self.slots@[i],
            ) by {
                assert(slot_wf(old(self).slots@[i]));
            }
        }
    }
}

/// Whether slot `i` holds an actor whose health has crossed to zero or
/// below.
pub open spec fn spec_dead_at(slots: Seq<Slot>, i: int) -> bool {
    &&& 0 <= i < slots.len()
    &&& slots[i].occupant is Some
    &&& slots[i].occupant->Some_0.health <= 0
}

/// Whether some death event names the actor at slot `j`.
pub open spec fn spec_has_death_for(deaths: Seq<DeathEvent>, j: int) -> bool {
    exists|k: int| 0 <= k < deaths.len() && (#[trigger] deaths[k]).entity.index == j
}

/// What one crediting step may change on an actor while the death pass
/// runs: nothing but its defeated-enemies count.
pub open spec fn spec_credit_frame(a: WorldActor, b: WorldActor) -> bool {
    b == (WorldActor {
        stats: CombatStats { enemies_defeated: b.stats.enemies_defeated, ..a.stats },
        ..a
    })
}

/// How many of the first `n` slots hold a dead actor whose remembered
/// killer is exactly `id`.
pub open spec fn spec_kill_credits_before(slots: Seq<Slot>, id: ActorId, n: int) -> int
    decreases n,
{
    if n <= 0 {
        0
    } else {
        spec_kill_credits_before(slots, id, n - 1) + (if spec_dead_at(slots, n - 1)
            && slots[n - 1].occupant->Some_0.last_hit_by == Some(id) {
            1int
        } else {
            0int
        })
    }
}

/// How many dead actors in the arena remember `id` as their killer.
pub open spec fn spec_kill_credits(slots: Seq<Slot>, id: ActorId) -> int {
    spec_kill_credits_before(slots, id, slots.len() as int)
}

/// A credit count is never negative.
pub proof fn lemma_kill_credits_nonneg(slots: Seq<Slot>, id: ActorId, n: int)
    ensures
        spec_kill_credits_before(slots, id, n) >= 0,
    decreases n,
{
    if n > 0 {
        lemma_kill_credits_nonneg(slots, id, n - 1);
    }
}

/// A defeated-enemies count raised by `credits` kills, saturating.
pub open spec fn spec_credited(count: u32, credits: int) -> u32 {
    if count + credits > u32::MAX {
        u32::MAX
    } else {
        (count + credits) as u32
    }
}

/// Slot `i` after the death pass: a dead actor's slot is vacated under a
/// bumped generation; a survivor keeps everything but its
/// defeated-enemies count, which grows by one for each death this pass
/// whose remembered killer is the survivor; a vacant slot is untouched.
pub open spec fn spec_death_step_slot(slots: Seq<Slot>, i: int) -> Slot {
    let s = slots[i];
    if spec_dead_at(slots, i) {
        Slot { generation: s.generation.saturating_add(1), occupant: None }
    } else {
        match s.occupant {
            Some(a) => Slot {
                generation: s.generation,
                occupant: Some(
                    WorldActor {
                        stats: CombatStats {
                            enemies_defeated: spec_credited(
                                a.stats.enemies_defeated,
                                spec_kill_credits(
                                    slots,
                                    ActorId { index: i as usize, generation: s.generation },
                                ),
                            ),
                            ..a.stats
                        },
                        ..a
                    },
                ),
            },
            None => s,
        }
    }
}

/// The whole arena after the death pass.
pub open spec fn spec_deaths_processed(slots: Seq<Slot>) -> Seq<Slot> {
    Seq::new(slots.len(), |i: int| spec_death_step_slot(slots, i))
}

impl World {
    /// Detects every actor whose health has crossed to zero or below,
    /// emits exactly one death event for each — never two, however many
    /// hits landed this tick — credits the killer remembered from the
    /// crossing hit with one defeated enemy (where the killer itself is
    /// still in the arena), and removes the dead actor in the same pass,
    /// bumping its slot's generation so stale handles miss.  Each
    /// survivor changes in nothing but its defeated-enemies count, which
    /// grows by exactly one per death that remembers it as the killer;
    /// afterwards every occupant of the arena is alive.
    pub fn process_death_events(&mut self) -> (deaths: Vec<DeathEvent>)
        requires
            old(self).wf(),
        ensures
            final(self).wf(),
            final(self).all_alive(),
            final(self).slots@.len() == old(self).slots@.len(),
            final(self).player == old(self).player,
            final(self).pending_damage == old(self).pending_damage,
            final(self).pending_heals == old(self).pending_heals,
            final(self).slots@ == spec_deaths_processed(old(self).slots@),
            forall|i: int|
                spec_dead_at(old(self).slots@, i) ==> (#[trigger] final(self).slots@[i]).occupant
                    is None,
            // each survivor keeps everything but its kill credit, which
            // grows by exactly one per death that remembers it as killer
            forall|i: int|
                0 <= i < old(self).slots@.len() && !spec_dead_at(old(self).slots@, i) && (
                #[trigger] old(self).slots@[i].occupant) is Some ==> final(self).slots@[i] == (Slot {
                    generation: old(self).slots@[i].generation,
                    occupant: Some(
                        WorldActor {
                            stats: CombatStats {
                                enemies_defeated: spec_credited(
                                    old(
                                        self,
                                    ).slots@[i].occupant->Some_0.stats.enemies_defeated,
                                    spec_kill_credits(
                                        old(self).slots@,
                                        ActorId {
                                            index: i as usize,
                                            generation: old(self).slots@[i].generation,
                                        },
                                    ),
                                ),
                                ..old(self).slots@[i].occupant->Some_0.stats
                            },
                            ..old(self).slots@[i].occupant->Some_0
                        },
                    ),
                }),
            forall|k: int|
                0 <= k < deaths@.len() ==> spec_dead_at(
                    old(self).slots@,
                    (#[trigger] deaths@[k]).entity.index as int,
                ) && deaths@[k].entity.generation == old(self).slots@[deaths@[k].entity.index as int].generation,
            forall|k1: int, k2: int|
                0 <= k1 < k2 < deaths@.len() ==> deaths@[k1].entity.index
                    < deaths@[k2].entity.index,
            forall|i: int| spec_dead_at(old(self).slots@, i) ==> spec_has_death_for(deaths@, i),
    {
        let mut deaths: Vec<DeathEvent> = Vec::new();
        let n = self.slots.len();
        let mut i: usize = 0;
        while i < n
            invariant
                i <= n,
                n == self.slots@.len(),
                n == old(self).slots@.len(),
                self.player == old(self).player,
                self.pending_damage == old(self).pending_damage,
                self.pending_heals == old(self).pending_heals,
                old(self).wf(),
                forall|j: int|
                    0 <= j < i && spec_dead_at(old(self).slots@, j) ==> (#[trigger] self.slots@[j]).occupant is None
                        && self.slots@[j].generation == old(self).slots@[j].generation.saturating_add(1),
                forall|j: int|
                    0 <= j < n && (#[trigger] old(self).slots@[j].occupant) is None
                        ==> self.slots@[j] == old(self).slots@[j],
                forall|j: int|
                    0 <= j < n && !spec_dead_at(old(self).slots@, j) && (#[trigger] old(
                        self,
                    ).slots@[j].occupant) is Some ==> self.slots@[j] == (Slot {
                        generation: old(self).slots@[j].generation,
                        occupant: Some(
                            WorldActor {
                                stats: CombatStats {
                                    enemies_defeated: spec_credited(
                                        old(
                                            self,
                                        ).slots@[j].occupant->Some_0.stats.enemies_defeated,
                                        spec_kill_credits_before(
                                            old(self).slots@,
                                            ActorId {
                                                index: j as usize,
                                                generation: old(self).slots@[j].generation,
                                            },
                                            i as int,
                                        ),
                                    ),
                                    ..old(self).slots@[j].occupant->Some_0.stats
                                },
                                ..old(self).slots@[j].occupant->Some_0
                            },
                        ),
                    }),
                forall|j: int|
                    i <= j < n && spec_dead_at(old(self).slots@, j) ==> {
                        let before = old(self).slots@[j];
                        let after = #[trigger] self.slots@[j];
                        &&& after.generation == before.generation
                        &&& (after.occupant is Some <==> before.occupant is Some)
                        &&& (before.occupant is Some ==> spec_credit_frame(
                            before.occupant->Some_0,
                            after.occupant->Some_0,
                        ))
                    },
                forall|k: int|
                    0 <= k < deaths@.len() ==> spec_dead_at(
                        old(self).slots@,
                        (#[trigger] deaths@[k]).entity.index as int,
                    ) && deaths@[k].entity.generation == old(self).slots@[deaths@[k].entity.index as int].generation
                        && deaths@[k].entity.index < i,
                forall|k1: int, k2: int|
                    0 <= k1 < k2 < deaths@.len() ==> deaths@[k1].entity.index
                        < deaths@[k2].entity.index,
                forall|j: int|
                    0 <= j < i && spec_dead_at(old(self).slots@, j) ==> spec_has_death_for(
                        deaths@,
                        j,
                    ),
            decreases n - i,
        {
            let ghost deaths0 = deaths@;
            let ghost slots_pre = self.slots@;
            let slot = self.slots[i];
            match slot.occupant {
                Some(actor) => {
                    if actor.health <= 0 {
                        deaths.push(
                            DeathEvent { entity: ActorId { index: i, generation: slot.generation } },
                        );
                        match actor.last_hit_by {
                            Some(killer) => {
                                if killer.index < self.slots.len() {
                                    let kslot = self.slots[killer.index];
                                    if kslot.generation == killer.generation {
                                        if let Some(ka) = kslot.occupant {
                                            let credited = WorldActor {
                                                stats: CombatStats {
                                                    enemies_defeated:
                                                        ka.stats.enemies_defeated.saturating_add(1),
                                                    ..ka.stats
                                                },
                                                ..ka
                                            };
                                            self.slots.set(
                                                killer.index,
                                                Slot {
                                                    generation: kslot.generation,
                                                    occupant: Some(credited),
                                                },
                                            );
                                        }
                                    }
                                }
                            },
                            None => {},
                        }
                        self.slots.set(
                            i,
                            Slot {
                                generation: slot.generation.saturating_add(1),
                                occupant: None,
                            },
                        );
                    }
                },
                None => {},
            }
            proof {
                assert forall|j: int|
                    0 <= j < i + 1 && spec_dead_at(old(self).slots@, j) implies spec_has_death_for(
                    deaths@,
                    j,
                ) by {
                    if j < i {
                        assert(spec_has_death_for(deaths0, j));
                        let k = choose|k: int|
                            0 <= k < deaths0.len() && (#[trigger] deaths0[k]).entity.index == j;
                        assert(deaths@[k] == deaths0[k]);
                    } else {
                        assert(deaths@[deaths@.len() - 1].entity.index == i as int);
                    }
                }
                // each survivor's credit count advances by this slot's
                // contribution: one when a dead actor here remembers it
                assert forall|j: int|
                    0 <= j < n && !spec_dead_at(old(self).slots@, j) && (#[trigger] old(
                        self,
                    ).slots@[j].occupant) is Some implies self.slots@[j] == (Slot {
                        generation: old(self).slots@[j].generation,
                        occupant: Some(
                            WorldActor {
                                stats: CombatStats {
                                    enemies_defeated: spec_credited(
                                        old(
                                            self,
                                        ).slots@[j].occupant->Some_0.stats.enemies_defeated,
                                        spec_kill_credits_before(
                                            old(self).slots@,
                                            ActorId {
                                                index: j as usize,
                                                generation: old(self).slots@[j].generation,
                                            },
                                            i + 1,
                                        ),
                                    ),
                                    ..old(self).slots@[j].occupant->Some_0.stats
                                },
                                ..old(self).slots@[j].occupant->Some_0
                            },
                        ),
                    }) by {
                    let id_j = ActorId {
                        index: j as usize,
                        generation: old(self).slots@[j].generation,
                    };
                    let before = spec_kill_credits_before(old(self).slots@, id_j, i as int);
                    lemma_kill_credits_nonneg(old(self).slots@, id_j, i as int);
                    let indicator = if spec_dead_at(old(self).slots@, i as int) && old(
                        self,
                    ).slots@[i as int].occupant->Some_0.last_hit_by == Some(id_j) {
                        1int
                    } else {
                        0int
                    };
                    assert(spec_kill_credits_before(old(self).slots@, id_j, i + 1) == before
                        + indicator);
                    let old_ed = old(self).slots@[j].occupant->Some_0.stats.enemies_defeated;
                    assert(slots_pre[j] == (Slot {
                        generation: old(self).slots@[j].generation,
                        occupant: Some(
                            WorldActor {
                                stats: CombatStats {
                                    enemies_defeated: spec_credited(old_ed, before),
                                    ..old(self).slots@[j].occupant->Some_0.stats
                                },
                                ..old(self).slots@[j].occupant->Some_0
                            },
                        ),
                    }));
                    if slots_pre[i as int].occupant is None {
                        // a vacant slot: untouched, no dead actor here
                        assert(old(self).slots@[i as int].occupant is None);
                        assert(indicator == 0);
                        assert(self.slots@[j] == slots_pre[j]);
                    } else if slots_pre[i as int].occupant->Some_0.health > 0 {
                        // a living actor: untouched, no dead actor here
                        assert(!spec_dead_at(old(self).slots@, i as int));
                        assert(indicator == 0);
                        assert(self.slots@[j] == slots_pre[j]);
                    } else {
                        // a dead actor was processed here
                        assert(spec_dead_at(old(self).slots@, i as int));
                        let dying = slots_pre[i as int].occupant->Some_0;
                        assert(spec_credit_frame(
                            old(self).slots@[i as int].occupant->Some_0,
                            dying,
                        ));
                        assert(old(self).slots@[i as int].occupant->Some_0.last_hit_by
                            == dying.last_hit_by);
                        match dying.last_hit_by {
                            Some(k) => {
                                if k.index == j as usize && k.generation == old(
                                    self,
                                ).slots@[j].generation {
                                    // this survivor is the remembered
                                    // killer: one credit landed
                                    assert(k == id_j);
                                    assert(indicator == 1);
                                    assert(self.slots@[j].occupant->Some_0.stats.enemies_defeated
                                        == spec_credited(old_ed, before).saturating_add(1));
                                    assert(spec_credited(old_ed, before).saturating_add(1)
                                        == spec_credited(old_ed, before + 1));
                                } else {
                                    assert(k != id_j);
                                    assert(indicator == 0);
                                    assert(self.slots@[j] == slots_pre[j]);
                                }
                            },
                            None => {
                                assert(indicator == 0);
                                assert(self.slots@[j] == slots_pre[j]);
                            },
                        }
                    }
                }
            }
            i = i + 1;
        }
        proof {
            assert forall|j: int| 0 <= j < self.slots@.len() implies slot_wf(
                #[trigger] self.slots@[j],
            ) by {
                assert(slot_wf(old(self).slots@[j]));
            }
            assert forall|j: int|
                0 <= j < self.slots@.len() implies ((#[trigger] self.slots@[j].occupant) matches Some(
                a,
            ) ==> a.health > 0) by {
                if self.slots@[j].occupant is Some {
                    assert(!spec_dead_at(old(self).slots@, j));
                }
            }
            assert forall|j: int| 0 <= j < n implies self.slots@[j] == spec_death_step_slot(
                old(self).slots@,
                j,
            ) by {
                if !spec_dead_at(old(self).slots@, j) && old(self).slots@[j].occupant is Some {
                    assert(spec_kill_credits(old(self).slots@, ActorId {
                        index: j as usize,
                        generation: old(self).slots@[j].generation,
                    }) == spec_kill_credits_before(old(self).slots@, ActorId {
                        index: j as usize,
                        generation: old(self).slots@[j].generation,
                    }, n as int));
                }
            }
            assert(self.slots@ =~= spec_deaths_processed(old(self).slots@));
        }
        deaths
    }
}

/// An actor after healing: health rises by the amount but never past the
/// maximum; nothing else changes.
pub open spec fn spec_heal_actor(a: WorldActor, amount: u64) -> WorldActor {
    let h = a.health + amount;
    let health = if h > a.max_health {
        a.max_health as i64
    } else {
        h as i64
    };
    WorldActor { health, ..a }
}

/// One heal event applied to the arena: a missing target makes it a
/// no-op — in particular, an actor removed by death processing can never
/// be healed back.
pub open spec fn spec_apply_heal_event(slots: Seq<Slot>, ev: HealEvent) -> Seq<Slot> {
    if seq_valid_id(slots, ev.target) {
        let healed = spec_heal_actor(slots[ev.target.index as int].occupant->Some_0, ev.amount);
        slots.update(
            ev.target.index as int,
            Slot { generation: ev.target.generation, occupant: Some(healed) },
        )
    } else {
        slots
    }
}

/// A whole batch of heal events applied in order.
pub open spec fn spec_apply_heal_events(slots: Seq<Slot>, evs: Seq<HealEvent>) -> Seq<Slot>
    decreases evs.len(),
{
    if evs.len() == 0 {
        slots
    } else {
        spec_apply_heal_events(spec_apply_heal_event(slots, evs[0]), evs.drop_first())
    }
}

/// Applying a batch of heals and then one more is applying the grown
/// batch.
pub proof fn lemma_apply_heal_events_snoc(slots: Seq<Slot>, evs: Seq<HealEvent>, ev: HealEvent)
    ensures
        spec_apply_heal_events(slots, evs.push(ev)) == spec_apply_heal_event(
            spec_apply_heal_events(slots, evs),
            ev,
        ),
    decreases evs.len(),
{
    let grown = evs.push(ev);
    assert(spec_apply_heal_events(slots, grown) == spec_apply_heal_events(
        spec_apply_heal_event(slots, grown[0]),
        grown.drop_first(),
    ));
    if evs.len() == 0 {
        assert(grown[0] == ev);
        assert(grown.drop_first() =~= Seq::<HealEvent>::empty());
        assert(spec_apply_heal_events(slots, evs) == slots);
    } else {
        assert(grown[0] == evs[0]);
        assert(grown.drop_first() =~= evs.drop_first().push(ev));
        lemma_apply_heal_events_snoc(spec_apply_heal_event(slots, evs[0]), evs.drop_first(), ev);
        assert(spec_apply_heal_events(slots, evs) == spec_apply_heal_events(
            spec_apply_heal_event(slots, evs[0]),
            evs.drop_first(),
        ));
    }
}

/// How one slot may change under healing: generation and occupancy are
/// untouched; a well-formed occupant changes in nothing but its health,
/// which never drops and stays within bounds.
pub open spec fn spec_heal_slot_frame(before: Slot, after: Slot) -> bool {
    &&& after.generation == before.generation
    &&& (after.occupant is Some <==> before.occupant is Some)
    &&& (before.occupant is Some ==> {
        let a = before.occupant->Some_0;
        let b = after.occupant->Some_0;
        &&& b == (WorldActor { health: b.health, ..a })
        &&& (a.wf() ==> b.health >= a.health && b.wf())
    })
}

/// The heal-slot-frame relation composes.
pub proof fn lemma_heal_slot_frame_trans(a: Slot, b: Slot, c: Slot)
    requires
        spec_heal_slot_frame(a, b),
        spec_heal_slot_frame(b, c),
    ensures
        spec_heal_slot_frame(a, c),
{
}

/// A batch of heals keeps the arena's shape, raises no generation, and
/// leaves every well-formed occupant well formed with health no lower
/// than before.
pub proof fn lemma_apply_heal_events_frame(slots: Seq<Slot>, evs: Seq<HealEvent>)
    ensures
        spec_apply_heal_events(slots, evs).len() == slots.len(),
        forall|i: int|
            0 <= i < slots.len() ==> spec_heal_slot_frame(
                slots[i],
                #[trigger] spec_apply_heal_events(slots, evs)[i],
            ),
    decreases evs.len(),
{
    let done = spec_apply_heal_events(slots, evs);
    if evs.len() == 0 {
        assert(done == slots);
        assert forall|i: int| 0 <= i < slots.len() implies spec_heal_slot_frame(
            slots[i],
            #[trigger] done[i],
        ) by {
            assert(done[i] == slots[i]);
        }
    } else {
        let ev = evs[0];
        let mid = spec_apply_heal_event(slots, ev);
        assert forall|i: int| 0 <= i < slots.len() implies spec_heal_slot_frame(
            slots[i],
            #[trigger] mid[i],
        ) by {
            if seq_valid_id(slots, ev.target) {
                if i != ev.target.index {
                    assert(mid[i] == slots[i]);
                }
            } else {
                assert(mid == slots);
            }
        }
        lemma_apply_heal_events_frame(mid, evs.drop_first());
        assert(done == spec_apply_heal_events(mid, evs.drop_first()));
        assert forall|i: int| 0 <= i < slots.len() implies spec_heal_slot_frame(
            slots[i],
            #[trigger] done[i],
        ) by {
            lemma_heal_slot_frame_trans(slots[i], mid[i], done[i]);
        }
    }
}

impl World {
    /// Drains the heal queue, applying each event in order: the target's
    /// health rises by the amount, never past its maximum.  A heal whose
    /// target is gone — removed by this tick's death processing or
    /// earlier — is a no-op: healing never resurrects a dead actor.
    /// Returns the drained events.
    pub fn process_heal_events(&mut self) -> (drained: Vec<HealEvent>)
        requires
            old(self).wf(),
        ensures
            final(self).wf(),
            final(self).slots@ == spec_apply_heal_events(
                old(self).slots@,
                old(self).pending_heals@,
            ),
            final(self).slots@.len() == old(self).slots@.len(),
            final(self).pending_heals@.len() == 0,
            final(self).player == old(self).player,
            final(self).pending_damage == old(self).pending_damage,
            drained@ == old(self).pending_heals@,
            old(self).all_alive() ==> final(self).all_alive(),
    {
        let mut drained: Vec<HealEvent> = Vec::new();
        let n = self.pending_heals.len();
        let mut k: usize = 0;
        while k < n
            invariant
                k <= n,
                n == self.pending_heals@.len(),
                self.pending_heals == old(self).pending_heals,
                old(self).wf(),
                drained@ == self.pending_heals@.take(k as int),
                self.slots@ == spec_apply_heal_events(
                    old(self).slots@,
                    self.pending_heals@.take(k as int),
                ),
                self.slots@.len() == old(self).slots@.len(),
                self.player == old(self).player,
                self.pending_damage == old(self).pending_damage,
            decreases n - k,
        {
            let ghost slots0 = self.slots@;
            let ev = self.pending_heals[k];
            drained.push(ev);
            if ev.target.index < self.slots.len() {
                let slot = self.slots[ev.target.index];
                if slot.generation == ev.target.generation {
                    if let Some(t) = slot.occupant {
                        let raised: i128 = (t.health as i128) + (ev.amount as i128);
                        let health: i64 = if raised > (t.max_health as i128) {
                            t.max_health as i64
                        } else {
                            raised as i64
                        };
                        let healed = WorldActor { health, ..t };
                        self.slots.set(
                            ev.target.index,
                            Slot { generation: ev.target.generation, occupant: Some(healed) },
                        );
                    }
                }
            }
            proof {
                assert(self.slots@ =~= spec_apply_heal_event(slots0, ev));
                assert(self.pending_heals@.take(k + 1) =~= self.pending_heals@.take(
                    k as int,
                ).push(ev));
                lemma_apply_heal_events_snoc(
                    old(self).slots@,
                    self.pending_heals@.take(k as int),
                    ev,
                );
            }
            k = k + 1;
        }
        self.pending_heals.clear();
        proof {
            assert(old(self).pending_heals@.take(n as int) =~= old(self).pending_heals@);
            lemma_apply_heal_events_frame(old(self).slots@, old(self).pending_heals@);
            assert forall|i: int| 0 <= i < self.slots@.len() implies slot_wf(
                #[trigger] self.slots@[i],
            ) by {
                assert(slot_wf(old(self).slots@[i]));
                assert(spec_heal_slot_frame(old(self).slots@[i], self.slots@[i]));
            }
            if old(self).all_alive() {
                assert forall|i: int|
                    0 <= i < self.slots@.len() implies ((#[trigger] self.slots@[i].occupant) matches Some(
                    a,
                ) ==> a.health > 0) by {
                    assert(slot_wf(old(self).slots@[i]));
                    assert(spec_heal_slot_frame(old(self).slots@[i], self.slots@[i]));
                    if self.slots@[i].occupant is Some {
                        let before = old(self).slots@[i].occupant->Some_0;
                        assert(before.health > 0);
                    }
                }
            }
        }
        drained
    }
}

/// An actor after the effect stage: its effect set one tick later,
/// everything else untouched.
pub open spec fn spec_effects_step(a: WorldActor, dt: u64) -> WorldActor {
    WorldActor { effects: advanced_set(a.effects, dt), ..a }
}

/// The damage events the effects of slot `i` inject for the next tick:
/// a Burn that crossed a whole-second boundary deals its magnitude as
/// Explosive damage to the actor itself, a Poison as Corrosive damage.
pub open spec fn spec_pulse_events_at(s: Slot, i: int, dt: u64) -> Seq<DamageEvent> {
    match s.occupant {
        Some(a) => {
            let id = ActorId { index: i as usize, generation: s.generation };
            let burn = match spec_pulse(a.effects.burn, dt) {
                Some(v) => seq![
                    DamageEvent {
                        source: id,
                        target: id,
                        damage: v as u64,
                        damage_type: DamageType::Explosive,
                        is_critical: false,
                    },
                ],
                None => Seq::<DamageEvent>::empty(),
            };
            let poison = match spec_pulse(a.effects.poison, dt) {
                Some(v) => seq![
                    DamageEvent {
                        source: id,
                        target: id,
                        damage: v as u64,
                        damage_type: DamageType::Corrosive,
                        is_critical: false,
                    },
                ],
                None => Seq::<DamageEvent>::empty(),
            };
            burn + poison
        },
        None => Seq::<DamageEvent>::empty(),
    }
}

/// All pulse events of the slots before index `i`, in slot order.
pub open spec fn spec_pulses_upto(slots: Seq<Slot>, dt: u64, i: int) -> Seq<DamageEvent>
    decreases i,
{
    if i <= 0 {
        Seq::<DamageEvent>::empty()
    } else {
        spec_pulses_upto(slots, dt, i - 1) + spec_pulse_events_at(slots[i - 1], i - 1, dt)
    }
}

impl World {
    /// Advances every actor's status-effect timeline by `dt`: each
    /// effect's timer grows, effects whose time is up are removed, and
    /// each Burn or Poison that crossed a whole-second boundary queues
    /// one damage pulse against its own actor — consumed on the *next*
    /// tick, never re-entrantly within this one.
    pub fn update_combat_effects(&mut self, dt: u64)
        requires
            old(self).wf(),
            dt <= MAX_TICK_MILLIS,
        ensures
            final(self).wf(),
            final(self).slots@.len() == old(self).slots@.len(),
            forall|i: int|
                0 <= i < old(self).slots@.len() ==> #[trigger] final(self).slots@[i] == (Slot {
                    generation: old(self).slots@[i].generation,
                    occupant: match old(self).slots@[i].occupant {
                        Some(a) => Some(spec_effects_step(a, dt)),
                        None => None::<WorldActor>,
                    },
                }),
            final(self).pending_damage@ == old(self).pending_damage@ + spec_pulses_upto(
                old(self).slots@,
                dt,
                old(self).slots@.len() as int,
            ),
            final(self).player == old(self).player,
            final(self).pending_heals == old(self).pending_heals,
            old(self).all_alive() ==> final(self).all_alive(),
    {
        let n = self.slots.len();
        let mut i: usize = 0;
        while i < n
            invariant
                i <= n,
                n == self.slots@.len(),
                n == old(self).slots@.len(),
                self.player == old(self).player,
                self.pending_heals == old(self).pending_heals,
                old(self).wf(),
                dt <= MAX_TICK_MILLIS,
                forall|j: int| i <= j < n ==> #[trigger] self.slots@[j] == old(self).slots@[j],
                forall|j: int|
                    0 <= j < i ==> #[trigger] self.slots@[j] == (Slot {
                        generation: old(self).slots@[j].generation,
                        occupant: match old(self).slots@[j].occupant {
                            Some(a) => Some(spec_effects_step(a, dt)),
                            None => None::<WorldActor>,
                        },
                    }),
                self.pending_damage@ == old(self).pending_damage@ + spec_pulses_upto(
                    old(self).slots@,
                    dt,
                    i as int,
                ),
            decreases n - i,
        {
            let ghost pending0 = self.pending_damage@;
            let slot = self.slots[i];
            match slot.occupant {
                Some(actor) => {
                    proof {
                        assert(slot_wf(old(self).slots@[i as int]));
                    }
                    let id = ActorId { index: i, generation: slot.generation };
                    let mut effects = actor.effects;
                    let pulses = effects.advance(dt);
                    let updated = WorldActor { effects, ..actor };
                    self.slots.set(
                        i,
                        Slot { generation: slot.generation, occupant: Some(updated) },
                    );
                    match pulses.burn {
                        Some(v) => {
                            self.pending_damage.push(
                                DamageEvent {
                                    source: id,
                                    target: id,
                                    damage: v as u64,
                                    damage_type: DamageType::Explosive,
                                    is_critical: false,
                                },
                            );
                        },
                        None => {},
                    }
                    match pulses.poison {
                        Some(v) => {
                            self.pending_damage.push(
                                DamageEvent {
                                    source: id,
                                    target: id,
                                    damage: v as u64,
                                    damage_type: DamageType::Corrosive,
                                    is_critical: false,
                                },
                            );
                        },
                        None => {},
                    }
                    proof {
                        assert(self.pending_damage@ =~= pending0 + spec_pulse_events_at(
                            old(self).slots@[i as int],
                            i as int,
                            dt,
                        ));
                    }
                },
                None => {
                    proof {
                        assert(spec_pulse_events_at(old(self).slots@[i as int], i as int, dt)
                            =~= Seq::<DamageEvent>::empty());
                        assert(self.pending_damage@ =~= pending0 + spec_pulse_events_at(
                            old(self).slots@[i as int],
                            i as int,
                            dt,
                        ));
                    }
                },
            }
            proof {
                assert(spec_pulses_upto(old(self).slots@, dt, i + 1) == spec_pulses_upto(
                    old(self).slots@,
                    dt,
                    i as int,
                ) + spec_pulse_events_at(old(self).slots@[i as int], i as int, dt));
                assert(self.pending_damage@ =~= old(self).pending_damage@ + spec_pulses_upto(
                    old(self).slots@,
                    dt,
                    i + 1,
                ));
            }
            i = i + 1;
        }
        proof {
            assert forall|j: int| 0 <= j < self.slots@.len() implies slot_wf(
                #[trigger] self.slots@[j],
            ) by {
                assert(slot_wf(old(self).slots@[j]));
            }
        }
    }
}

/// The arena after the cooldown stage: every occupant's cooldown lowered
/// by the tick's delta.
pub open spec fn spec_cooldown_stepped(slots: Seq<Slot>, dt: u64) -> Seq<Slot> {
    Seq::new(
        slots.len(),
        |i: int|
            Slot {
                generation: slots[i].generation,
                occupant: match slots[i].occupant {
                    Some(a) => Some(spec_cooldown_step(a, dt)),
                    None => None::<WorldActor>,
                },
            },
    )
}

/// The arena after the behavior stage.
pub open spec fn spec_ai_stepped(slots: Seq<Slot>, p: Option<(ActorId, i64, i64)>) -> Seq<Slot> {
    Seq::new(
        slots.len(),
        |i: int|
            Slot {
                generation: slots[i].generation,
                occupant: match slots[i].occupant {
                    Some(a) => Some(spec_ai_step(a, p)),
                    None => None::<WorldActor>,
                },
            },
    )
}

/// The arena after the intent stage: every actor that fired carries a
/// reset cooldown and the mid-attack mark.
pub open spec fn spec_fire_stepped(slots: Seq<Slot>) -> Seq<Slot> {
    Seq::new(
        slots.len(),
        |i: int|
            Slot {
                generation: slots[i].generation,
                occupant: match slots[i].occupant {
                    Some(a) => Some(spec_fire_step(a)),
                    None => None::<WorldActor>,
                },
            },
    )
}

/// The arena after the effect stage: every occupant's effect set one
/// tick later.
pub open spec fn spec_effects_stepped(slots: Seq<Slot>, dt: u64) -> Seq<Slot> {
    Seq::new(
        slots.len(),
        |i: int|
            Slot {
                generation: slots[i].generation,
                occupant: match slots[i].occupant {
                    Some(a) => Some(spec_effects_step(a, dt)),
                    None => None::<WorldActor>,
                },
            },
    )
}

/// Intent soundness, stated over a bare slot sequence.
pub open spec fn seq_intent_sound(slots: Seq<Slot>, it: AttackIntent) -> bool {
    &&& seq_valid_id(slots, it.source)
    &&& spec_issues_damage_intent(slots[it.source.index as int].occupant->Some_0)
    &&& slots[it.source.index as int].occupant->Some_0.target == Some(it.target)
}

/// Summon soundness, stated over a bare slot sequence.
pub open spec fn seq_summon_sound(slots: Seq<Slot>, id: ActorId) -> bool {
    &&& seq_valid_id(slots, id)
    &&& spec_issues_summon(slots[id.index as int].occupant->Some_0)
}

/// Damage-event soundness, stated over a bare slot sequence: both
/// parties live there, and the amount is exactly the resolution of the
/// source's profile against the target's shielded resistances under the
/// event's own critical flag.
pub open spec fn seq_event_sound(slots: Seq<Slot>, ev: DamageEvent) -> bool {
    &&& seq_valid_id(slots, ev.source)
    &&& seq_valid_id(slots, ev.target)
    &&& ev.damage_type == slots[ev.source.index as int].occupant->Some_0.attack.damage_type
    &&& ev.damage == resolved_damage(
        slots[ev.source.index as int].occupant->Some_0.attack,
        spec_resistance(
            spec_shielded_defense(slots[ev.target.index as int].occupant->Some_0),
            slots[ev.source.index as int].occupant->Some_0.attack.damage_type,
        ),
        ev.is_critical,
    )
    &&& (slots[ev.source.index as int].occupant->Some_0.attack.critical_chance == 0
        ==> !ev.is_critical)
    &&& (slots[ev.source.index as int].occupant->Some_0.attack.critical_chance >= 1000
        ==> ev.is_critical)
}

/// Everything one tick produced, for collaborators that only consume
/// events: the issued intents and summons, the damage events applied,
/// the deaths, and the heals drained from the queue.
pub struct TickReport {
    pub intents: Vec<AttackIntent>,
    pub summons: Vec<ActorId>,
    pub damage_events: Vec<DamageEvent>,
    pub death_events: Vec<DeathEvent>,
    pub heal_events: Vec<HealEvent>,
}

impl World {
    /// One simulation step, in this exact order: cooldowns advance,
    /// behavior states are evaluated, at most one attack intent per actor
    /// is issued through the cooldown gate, intents resolve into damage
    /// events, damage is applied — last tick's queued effect pulses
    /// first, then this tick's resolved attacks — deaths are detected
    /// and processed exactly once each, queued heals are drained (never
    /// resurrecting anyone), and the status-effect timelines advance,
    /// deferring their damage pulses to the next tick.
    ///
    /// The contract carries the two scheduling laws — every issued
    /// intent or summon came from an actor whose cooldown had run out
    /// after this tick's advance and who was free of Freeze and Stun;
    /// and each actor that died this tick has exactly one death event
    /// and is gone from the arena, while each survivor has none and is
    /// still there — and pins the whole step: the final arena and the
    /// queues equal the composition of the stage transformers over the
    /// report's own event batch, the intent and summon lists are sound
    /// and complete for the behavior-stepped arena, and every intent
    /// whose parties were both alive resolved into exactly the engine's
    /// damage event.
    #[verifier::rlimit(40)]
    pub fn tick(&mut self, dt: u64) -> (report: TickReport)
        requires
            old(self).wf(),
            old(self).all_alive(),
            dt <= MAX_TICK_MILLIS,
        ensures
            final(self).wf(),
            final(self).all_alive(),
            final(self).slots@.len() == old(self).slots@.len(),
            final(self).player == old(self).player,
            report.heal_events@ == old(self).pending_heals@,
            final(self).pending_heals@.len() == 0,
            // the single-attack-per-cooldown law, per issued intent
            forall|k: int|
                0 <= k < report.intents@.len() ==> {
                    let i = (#[trigger] report.intents@[k]).source.index as int;
                    &&& 0 <= i < old(self).slots@.len()
                    &&& old(self).slots@[i].occupant is Some
                    &&& spec_cooled(old(self).slots@[i].occupant->Some_0.cooldown, dt) == 0
                    &&& spec_forced_cooldown(old(self).slots@[i].occupant->Some_0.effects) == 0
                },
            forall|k: int|
                0 <= k < report.summons@.len() ==> {
                    let i = (#[trigger] report.summons@[k]).index as int;
                    &&& 0 <= i < old(self).slots@.len()
                    &&& old(self).slots@[i].occupant is Some
                    &&& spec_cooled(old(self).slots@[i].occupant->Some_0.cooldown, dt) == 0
                    &&& spec_forced_cooldown(old(self).slots@[i].occupant->Some_0.effects) == 0
                },
            // the death-exactly-once law
            forall|k: int|
                0 <= k < report.death_events@.len() ==> old(self).spec_valid_id(
                    (#[trigger] report.death_events@[k]).entity,
                ) && !final(self).spec_valid_id(report.death_events@[k].entity),
            forall|k1: int, k2: int|
                0 <= k1 < k2 < report.death_events@.len() ==> report.death_events@[k1].entity.index
                    < report.death_events@[k2].entity.index,
            forall|id: ActorId|
                #[trigger] old(self).spec_valid_id(id) ==> (final(self).spec_valid_id(id)
                    <==> !spec_has_death_for(report.death_events@, id.index as int)),
            // the whole pipeline, staged: the final arena and queues are
            // exactly the composition of the stage transformers over the
            // report's own event batch
            ({
                let s1 = spec_cooldown_stepped(old(self).slots@, dt);
                let s2 = spec_ai_stepped(s1, spec_player_info(*old(self)));
                let s3 = spec_fire_stepped(s2);
                let s4 = spec_apply_damage_events(s3, report.damage_events@);
                let s5 = spec_deaths_processed(s4);
                let s6 = spec_apply_heal_events(s5, old(self).pending_heals@);
                &&& final(self).slots@ == spec_effects_stepped(s6, dt)
                &&& final(self).pending_damage@ == spec_pulses_upto(s6, dt, s6.len() as int)
                &&& report.damage_events@.len() >= old(self).pending_damage@.len()
                &&& (forall|k: int|
                    0 <= k < old(self).pending_damage@.len()
                        ==> #[trigger] report.damage_events@[k] == old(self).pending_damage@[k])
                &&& (forall|k: int|
                    old(self).pending_damage@.len() <= k < report.damage_events@.len()
                        ==> seq_event_sound(s3, #[trigger] report.damage_events@[k]))
                &&& (forall|k: int|
                    0 <= k < report.intents@.len() ==> seq_intent_sound(
                        s2,
                        #[trigger] report.intents@[k],
                    ))
                &&& (forall|i: int|
                    0 <= i < s2.len() ==> ((#[trigger] s2[i].occupant) matches Some(a)
                        && spec_issues_damage_intent(a) ==> spec_has_intent_for(
                        report.intents@,
                        i,
                    )))
                &&& (forall|k: int|
                    0 <= k < report.summons@.len() ==> seq_summon_sound(
                        s2,
                        #[trigger] report.summons@[k],
                    ))
                &&& (forall|i: int|
                    0 <= i < s2.len() ==> ((#[trigger] s2[i].occupant) matches Some(a)
                        && spec_issues_summon(a) ==> spec_has_summon_for(report.summons@, i)))
                &&& (forall|j: int|
                    0 <= j < report.intents@.len() ==> (seq_valid_id(
                        s3,
                        (#[trigger] report.intents@[j]).source,
                    ) && seq_valid_id(s3, report.intents@[j].target) ==> spec_has_event_for(
                        report.damage_events@,
                        report.intents@[j],
                    )))
                &&& (forall|k: int|
                    0 <= k < report.death_events@.len() ==> spec_dead_at(
                        s4,
                        (#[trigger] report.death_events@[k]).entity.index as int,
                    ))
                &&& (forall|i: int|
                    spec_dead_at(s4, i) ==> spec_has_death_for(report.death_events@, i))
            }),
    {
        let ghost w0 = *self;
        self.update_combat_cooldowns(dt);
        let ghost w1 = *self;
        self.update_enemy_ai();
        let ghost w2 = *self;
        let batch = self.update_enemy_attacks();
        let ghost w3 = *self;
        let mut resolved = self.resolve_attack_intents(&batch.intents);
        let ghost resolved0 = resolved@;
        let mut events: Vec<DamageEvent> = Vec::new();
        events.append(&mut self.pending_damage);
        events.append(&mut resolved);
        let ghost w3b = *self;
        self.process_damage_events(&events);
        let ghost w4 = *self;
        proof {
            lemma_apply_damage_events_frame(w3b.slots@, events@);
        }
        let deaths = self.process_death_events();
        let ghost w5 = *self;
        let heals = self.process_heal_events();
        let ghost w6 = *self;
        proof {
            lemma_apply_heal_events_frame(w5.slots@, w5.pending_heals@);
        }
        self.update_combat_effects(dt);
        proof {
            // occupancy and generations persist unchanged from the start
            // through damage application
            assert forall|i: int| 0 <= i < w0.slots@.len() implies (#[trigger] w4.slots@[i]).generation
                == w0.slots@[i].generation && (w4.slots@[i].occupant is Some
                <==> w0.slots@[i].occupant is Some) by {
                assert(spec_slot_frame(w3b.slots@[i], w4.slots@[i]));
            }
            // the cooldown gate seen by the intent stage is the advanced
            // cooldown of the tick's initial state
            assert forall|k: int| 0 <= k < batch.intents@.len() implies {
                let i = (#[trigger] batch.intents@[k]).source.index as int;
                &&& 0 <= i < w0.slots@.len()
                &&& w0.slots@[i].occupant is Some
                &&& spec_cooled(w0.slots@[i].occupant->Some_0.cooldown, dt) == 0
                &&& spec_forced_cooldown(w0.slots@[i].occupant->Some_0.effects) == 0
            } by {
                assert(spec_intent_sound(w2, batch.intents@[k]));
                let i = batch.intents@[k].source.index as int;
                let a0 = w0.slots@[i].occupant->Some_0;
                assert(w1.slots@[i].occupant == Some(spec_cooldown_step(a0, dt)));
                assert(w2.slots@[i].occupant == Some(
                    spec_ai_step(spec_cooldown_step(a0, dt), spec_player_info(w1)),
                ));
            }
            assert forall|k: int| 0 <= k < batch.summons@.len() implies {
                let i = (#[trigger] batch.summons@[k]).index as int;
                &&& 0 <= i < w0.slots@.len()
                &&& w0.slots@[i].occupant is Some
                &&& spec_cooled(w0.slots@[i].occupant->Some_0.cooldown, dt) == 0
                &&& spec_forced_cooldown(w0.slots@[i].occupant->Some_0.effects) == 0
            } by {
                assert(spec_summon_sound(w2, batch.summons@[k]));
                let i = batch.summons@[k].index as int;
                let a0 = w0.slots@[i].occupant->Some_0;
                assert(w1.slots@[i].occupant == Some(spec_cooldown_step(a0, dt)));
                assert(w2.slots@[i].occupant == Some(
                    spec_ai_step(spec_cooldown_step(a0, dt), spec_player_info(w1)),
                ));
            }
            // each death event names an actor that stood in the arena at
            // tick start and is gone at tick end
            assert forall|k: int| 0 <= k < deaths@.len() implies w0.spec_valid_id(
                (#[trigger] deaths@[k]).entity,
            ) && !self.spec_valid_id(deaths@[k].entity) by {
                let e = deaths@[k].entity;
                let i = e.index as int;
                assert(spec_dead_at(w4.slots@, i));
                assert(w5.slots@[i].occupant is None);
                assert(spec_heal_slot_frame(w5.slots@[i], w6.slots@[i]));
                assert(self.slots@[i].occupant is None);
            }
            // survivors have no death event; the removed have one
            assert forall|id: ActorId| #[trigger] w0.spec_valid_id(id) implies (self.spec_valid_id(
                id,
            ) <==> !spec_has_death_for(deaths@, id.index as int)) by {
                let i = id.index as int;
                let a0 = w0.slots@[i].occupant->Some_0;
                assert(w4.slots@[i].generation == w0.slots@[i].generation && w4.slots@[i].occupant
                    is Some) by {
                    assert(spec_slot_frame(w3b.slots@[i], w4.slots@[i]));
                }
                if spec_dead_at(w4.slots@, i) {
                    assert(spec_has_death_for(deaths@, i));
                    assert(w5.slots@[i].occupant is None);
                    assert(spec_heal_slot_frame(w5.slots@[i], w6.slots@[i]));
                    assert(self.slots@[i].occupant is None);
                    assert(!self.spec_valid_id(id));
                } else {
                    assert(w5.slots@[i].occupant is Some && w5.slots@[i].generation
                        == w4.slots@[i].generation);
                    assert(spec_heal_slot_frame(w5.slots@[i], w6.slots@[i]));
                    assert(self.slots@[i].occupant is Some && self.slots@[i].generation
                        == id.generation);
                    assert(self.spec_valid_id(id));
                    if spec_has_death_for(deaths@, i) {
                        let k = choose|k: int|
                            0 <= k < deaths@.len() && (#[trigger] deaths@[k]).entity.index
                                == id.index;
                        assert(spec_dead_at(w4.slots@, i));
                    }
                }
            }
            // the staged composition names the same intermediate arenas
            // the stage calls produced
            let s1 = spec_cooldown_stepped(w0.slots@, dt);
            assert forall|i: int| 0 <= i < w1.slots@.len() implies #[trigger] w1.slots@[i]
                == s1[i] by {}
            assert(w1.slots@ =~= s1);
            assert(spec_player_info(w1) == spec_player_info(w0)) by {
                match w0.player {
                    Some(pid) => {
                        assert(w1.player == w0.player);
                        if w0.spec_valid_id(pid) {
                            assert(w1.slots@[pid.index as int] == s1[pid.index as int]);
                            assert(w1.spec_actor(pid) == spec_cooldown_step(
                                w0.spec_actor(pid),
                                dt,
                            ));
                        } else {
                            if pid.index < w0.slots@.len() {
                                assert(w1.slots@[pid.index as int] == s1[pid.index as int]);
                            }
                        }
                    },
                    None => {},
                }
            }
            let s2 = spec_ai_stepped(s1, spec_player_info(w0));
            assert forall|i: int| 0 <= i < w2.slots@.len() implies #[trigger] w2.slots@[i]
                == s2[i] by {
                assert(w1.slots@[i] == s1[i]);
            }
            assert(w2.slots@ =~= s2);
            let s3 = spec_fire_stepped(s2);
            assert forall|i: int| 0 <= i < w3.slots@.len() implies #[trigger] w3.slots@[i]
                == s3[i] by {
                assert(w2.slots@[i] == s2[i]);
            }
            assert(w3.slots@ =~= s3);
            // the damage batch: last tick's queue, then this tick's
            // resolutions
            assert(w3.pending_damage@ == w0.pending_damage@);
            assert(events@ =~= w0.pending_damage@ + resolved0);
            // the damage stage ran over the fire-stepped arena
            assert(w3b.slots@ == w3.slots@);
            let s4 = spec_apply_damage_events(s3, events@);
            assert(w4.slots@ == s4);
            // deaths and heals
            let s5 = spec_deaths_processed(s4);
            assert(w5.slots@ == s5);
            assert(w5.pending_heals@ == w0.pending_heals@);
            let s6 = spec_apply_heal_events(s5, w0.pending_heals@);
            assert(w6.slots@ == s6);
            // the effect stage closes the tick
            assert forall|i: int| 0 <= i < self.slots@.len() implies #[trigger] self.slots@[i]
                == spec_effects_stepped(s6, dt)[i] by {
                assert(self.slots@[i] == (Slot {
                    generation: w6.slots@[i].generation,
                    occupant: match w6.slots@[i].occupant {
                        Some(a) => Some(spec_effects_step(a, dt)),
                        None => None::<WorldActor>,
                    },
                }));
            }
            assert(self.slots@ =~= spec_effects_stepped(s6, dt));
            assert(w6.pending_damage@ =~= Seq::<DamageEvent>::empty());
            assert(self.pending_damage@ =~= spec_pulses_upto(s6, dt, s6.len() as int));
            // soundness and completeness transfer from the stage calls'
            // own states to the staged arenas
            assert forall|k: int| 0 <= k < batch.intents@.len() implies seq_intent_sound(
                s2,
                #[trigger] batch.intents@[k],
            ) by {
                assert(spec_intent_sound(w2, batch.intents@[k]));
            }
            assert forall|i: int|
                0 <= i < s2.len() && ((#[trigger] s2[i].occupant) matches Some(a)
                    && spec_issues_damage_intent(a)) implies spec_has_intent_for(
                batch.intents@,
                i,
            ) by {
                assert(w2.slots@[i] == s2[i]);
            }
            assert forall|k: int| 0 <= k < batch.summons@.len() implies seq_summon_sound(
                s2,
                #[trigger] batch.summons@[k],
            ) by {
                assert(spec_summon_sound(w2, batch.summons@[k]));
            }
            assert forall|i: int|
                0 <= i < s2.len() && ((#[trigger] s2[i].occupant) matches Some(a)
                    && spec_issues_summon(a)) implies spec_has_summon_for(batch.summons@, i) by {
                assert(w2.slots@[i] == s2[i]);
            }
            assert forall|k: int|
                w0.pending_damage@.len() <= k < events@.len() implies seq_event_sound(
                s3,
                #[trigger] events@[k],
            ) by {
                assert(events@[k] == resolved0[k - w0.pending_damage@.len()]);
                assert(spec_event_sound(w3, resolved0[k - w0.pending_damage@.len()]));
            }
            assert forall|j: int|
                0 <= j < batch.intents@.len() && (seq_valid_id(
                    s3,
                    (#[trigger] batch.intents@[j]).source,
                ) && seq_valid_id(s3, batch.intents@[j].target)) implies spec_has_event_for(
                events@,
                batch.intents@[j],
            ) by {
                assert(w3.spec_valid_id(batch.intents@[j].source));
                assert(w3.spec_valid_id(batch.intents@[j].target));
                assert(spec_has_event_for(resolved0, batch.intents@[j]));
                let k = choose|k: int|
                    0 <= k < resolved0.len() && (#[trigger] resolved0[k]).source
                        == batch.intents@[j].source && resolved0[k].target
                        == batch.intents@[j].target;
                assert(events@[w0.pending_damage@.len() + k] == resolved0[k]);
            }
            assert forall|k: int| 0 <= k < deaths@.len() implies spec_dead_at(
                s4,
                (#[trigger] deaths@[k]).entity.index as int,
            ) by {
                assert(spec_dead_at(w4.slots@, deaths@[k].entity.index as int));
            }
            assert forall|i: int| spec_dead_at(s4, i) implies spec_has_death_for(deaths@, i) by {
                assert(spec_dead_at(w4.slots@, i));
            }
        }
        TickReport {
            intents: batch.intents,
            summons: batch.summons,
            damage_events: events,
            death_events: deaths,
            heal_events: heals,
        }
    }
}

impl World {
    /// Performs an externally driven attack (the player's, a tower's):
    /// if both parties are live and the source passes the cooldown gate,
    /// one damage event is resolved with a fresh critical roll against
    /// the target's shielded resistances and queued for the next tick,
    /// and the source's cooldown is reset to one effective attack period.
    /// Otherwise nothing happens.  Returns whether an attack was queued.
    pub fn perform_attack(&mut self, source: ActorId, target: ActorId) -> (queued: bool)
        requires
            old(self).wf(),
        ensures
            final(self).wf(),
            queued == (old(self).spec_valid_id(source) && old(self).spec_valid_id(target)
                && spec_gate_ready(old(self).spec_actor(source))),
            !queued ==> *final(self) == *old(self),
            queued ==> {
                let ev = final(self).pending_damage@.last();
                let a = old(self).spec_actor(source);
                &&& final(self).pending_damage@ == old(self).pending_damage@.push(ev)
                &&& ev.source == source
                &&& ev.target == target
                &&& ev.damage_type == a.attack.damage_type
                &&& ev.damage == resolved_damage(
                    a.attack,
                    spec_resistance(
                        spec_shielded_defense(old(self).spec_actor(target)),
                        a.attack.damage_type,
                    ),
                    ev.is_critical,
                )
                &&& (a.attack.critical_chance == 0 ==> !ev.is_critical)
                &&& (a.attack.critical_chance >= 1000 ==> ev.is_critical)
                &&& final(self).slots@ == old(self).slots@.update(
                    source.index as int,
                    Slot {
                        generation: source.generation,
                        occupant: Some(
                            WorldActor {
                                cooldown: spec_cooldown_after_attack(spec_effective_speed(a)) as u64,
                                is_attacking: true,
                                ..a
                            },
                        ),
                    },
                )
            },
            final(self).player == old(self).player,
            final(self).pending_heals == old(self).pending_heals,
            old(self).all_alive() ==> final(self).all_alive(),
    {
        if source.index >= self.slots.len() {
            return false;
        }
        let sslot = self.slots[source.index];
        if sslot.generation != source.generation {
            return false;
        }
        let src = match sslot.occupant {
            Some(a) => a,
            None => { return false },
        };
        if target.index >= self.slots.len() {
            return false;
        }
        let tslot = self.slots[target.index];
        if tslot.generation != target.generation || tslot.occupant.is_none() {
            return false;
        }
        let tgt = match tslot.occupant {
            Some(a) => a,
            None => { return false },
        };
        proof {
            assert(slot_wf(old(self).slots@[source.index as int]));
            assert(slot_wf(old(self).slots@[target.index as int]));
        }
        let forced = src.effects.forced_cooldown();
        if !(src.cooldown == 0 && forced == 0) {
            return false;
        }
        let roll = roll_per_mille();
        let defense = tgt.effects.shielded_defense(&tgt.defense);
        let out = resolve_attack(&src.attack, &defense, roll);
        self.pending_damage.push(
            DamageEvent {
                source,
                target,
                damage: out.0,
                damage_type: src.attack.damage_type,
                is_critical: out.1,
            },
        );
        let speed = src.effects.effective_attack_speed(src.attack.attack_speed);
        let updated = WorldActor {
            cooldown: cooldown_after_attack(speed),
            is_attacking: true,
            ..src
        };
        self.slots.set(source.index, Slot { generation: source.generation, occupant: Some(updated) });
        proof {
            assert forall|j: int| 0 <= j < self.slots@.len() implies slot_wf(
                #[trigger] self.slots@[j],
            ) by {
                assert(slot_wf(old(self).slots@[j]));
            }
            if old(self).all_alive() {
                assert forall|j: int|
                    0 <= j < self.slots@.len() implies ((#[trigger] self.slots@[j].occupant) matches Some(
                    a,
                ) ==> a.health > 0) by {
                    assert((old(self).slots@[j].occupant) matches Some(a) ==> a.health > 0);
                }
            }
        }
        true
    }
}

/// Runs the behavior stage for one actor.
fn ai_step_actor(a: &WorldActor, p: Option<(ActorId, i64, i64)>) -> (r: WorldActor)
    requires
        a.wf(),
        p matches Some(pi) ==> -COORD_LIMIT <= pi.1 <= COORD_LIMIT && -COORD_LIMIT <= pi.2
            <= COORD_LIMIT,
    ensures
        r == spec_ai_step(*a, p),
        r.wf(),
{
    match a.behavior {
        None => *a,
        Some(b) => {
            if a.health <= 0 {
                return WorldActor {
                    ai_state: AIState::Dead,
                    target: None,
                    is_attacking: false,
                    under_attack: false,
                    ..*a
                };
            }
            let dist: u64 = match p {
                Some(pi) => dist_sq(a.x, a.y, pi.1, pi.2),
                None => u64::MAX,
            };
            let health_pm = health_per_mille_of(a);
            let state = next_ai_state(
                b,
                dist,
                a.attack.attack_range,
                a.detection_range,
                health_pm,
                a.under_attack,
            );
            let target = if matches!(state, AIState::Chase) || matches!(state, AIState::Attack) {
                match p {
                    Some(pi) => Some(pi.0),
                    None => a.target,
                }
            } else {
                a.target
            };
            WorldActor {
                ai_state: state,
                target,
                under_attack: false,
                is_attacking: a.is_attacking && matches!(state, AIState::Attack),
                ..*a
            }
        },
    }
}

/// Current health of an arena actor as a per-mille fraction of its
/// maximum, floored at zero.
pub fn health_per_mille_of(a: &WorldActor) -> (r: i64)
    requires
        0 < a.max_health <= MAX_ACTOR_HEALTH,
        a.health <= a.max_health,
    ensures
        r == spec_health_per_mille(a.health, a.max_health),
        0 <= r <= 1000,
{
    if a.health <= 0 {
        0
    } else {
        proof {
            crate::math::lemma_div_le(
                a.health * 1000,
                a.max_health * 1000,
                a.max_health as int,
            );
            assert(a.max_health * 1000 / (a.max_health as int) == 1000) by (nonlinear_arith)
                requires
                    a.max_health > 0,
            ;
        }
        (a.health * 1000) / (a.max_health as i64)
    }
}

} // verus!

