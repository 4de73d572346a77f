//! The player's combat driver: combo bookkeeping, target selection, and
//! the three externally triggered attacks (basic, special, ultimate).
//!
//! The player is an arena actor without a behavior policy; input handling
//! lives outside the library and calls in with the player's handle and
//! the distances to the visible hostiles.

use vstd::prelude::*;
use crate::combat::resolve_attack;
use crate::combat::resolve_with_flag;
use crate::combat::resolved_damage;
use crate::combat::spec_resistance;
use crate::combat::AttackAttributes;
use crate::combat::DamageEvent;
use crate::combat::MAX_DAMAGE_MILLIS;
use crate::ai::spec_within;
use crate::ai::within_range;
use crate::effects::CombatEffect;
use crate::effects::CombatEffectType;
use crate::rng::roll_per_mille;
use crate::world::slot_wf;
use crate::world::spec_gate_ready;
use crate::world::spec_shielded_defense;
use crate::world::ActorId;
use crate::world::Slot;
use crate::world::World;
use crate::world::WorldActor;

verus! {

/// How the player delivers attacks.
#[derive(Clone, Copy, Debug, PartialEq, Eq, Structural)]
pub enum PlayerAttackType {
    Melee,
    Ranged,
    Magic,
}

/// The player's combat bookkeeping: combo chain and the cooldowns of the
/// two big attacks, in thousandths of a second.
#[derive(Clone, Copy, Debug, PartialEq, Eq, Structural)]
pub struct PlayerCombat {
    pub attack_type: PlayerAttackType,
    pub combo_count: u32,
    pub combo_timer: u64,
    pub special_attack_cooldown: u64,
    pub ultimate_cooldown: u64,
}

impl Default for PlayerCombat {
    /// Melee delivery, no combo, both big attacks ready.
    fn default() -> (r: Self)
        ensures
            r == (PlayerCombat {
                attack_type: PlayerAttackType::Melee,
                combo_count: 0u32,
                combo_timer: 0u64,
                special_attack_cooldown: 0u64,
                ultimate_cooldown: 0u64,
            }),
    {
        PlayerCombat {
            attack_type: PlayerAttackType::Melee,
            combo_count: 0,
            combo_timer: 0,
            special_attack_cooldown: 0,
            ultimate_cooldown: 0,
        }
    }
}

/// Advances the player's combat timers by the tick's delta: the combo
/// window and both big-attack cooldowns run down, floored at zero, and
/// the combo chain resets the moment its window closes.
pub fn update_player_combat(pc: &mut PlayerCombat, dt: u64)
    ensures
        final(pc).combo_timer == old(pc).combo_timer.saturating_sub(dt),
        final(pc).combo_count == (if old(pc).combo_timer > 0 && old(pc).combo_timer <= dt {
            0u32
        } else {
            old(pc).combo_count
        }),
        final(pc).special_attack_cooldown == old(pc).special_attack_cooldown.saturating_sub(dt),
        final(pc).ultimate_cooldown == old(pc).ultimate_cooldown.saturating_sub(dt),
        final(pc).attack_type == old(pc).attack_type,
{
    if pc.combo_timer > 0 {
        pc.combo_timer = pc.combo_timer.saturating_sub(dt);
        if pc.combo_timer == 0 {
            pc.combo_count = 0;
        }
    }
    pc.special_attack_cooldown = pc.special_attack_cooldown.saturating_sub(dt);
    pc.ultimate_cooldown = pc.ultimate_cooldown.saturating_sub(dt);
}

/// A hostile the caller can see: its handle and its squared distance to
/// the attacker, in squared thousandths of a tile.
#[derive(Clone, Copy, Debug, PartialEq, Eq, Structural)]
pub struct TargetCandidate {
    pub id: ActorId,
    pub dist_sq: u64,
}

/// Whether `id` stands in the list as a candidate within `range` at a
/// distance no candidate within `range` beats.
pub open spec fn spec_is_nearest(cands: Seq<TargetCandidate>, range: u32, id: ActorId) -> bool {
    exists|k: int|
        0 <= k < cands.len() && (#[trigger] cands[k]).id == id && spec_within(
            cands[k].dist_sq as int,
            range,
        ) && forall|k2: int|
            0 <= k2 < cands.len() && spec_within((#[trigger] cands[k2]).dist_sq as int, range)
                ==> cands[k].dist_sq <= cands[k2].dist_sq
}

/// Picks a nearest candidate within `range`: none exactly when no
/// candidate is in range; among equally near candidates, which one comes
/// back is left open.
pub fn select_nearest_target(cands: &Vec<TargetCandidate>, range: u32) -> (r: Option<
    TargetCandidate,
>)
    ensures
        r matches Some(c) ==> spec_is_nearest(cands@, range, c.id) && spec_within(
            c.dist_sq as int,
            range,
        ) && (exists|k: int| 0 <= k < cands@.len() && (#[trigger] cands@[k]) == c),
        r is None <==> (forall|k: int|
            0 <= k < cands@.len() ==> !spec_within((#[trigger] cands@[k]).dist_sq as int, range)),
{
    let mut best: Option<TargetCandidate> = None;
    let ghost mut best_k: int = 0;
    let n = cands.len();
    let mut k: usize = 0;
    while k < n
        invariant
            k <= n,
            n == cands@.len(),
            best is None ==> (forall|k2: int|
                0 <= k2 < k ==> !spec_within((#[trigger] cands@[k2]).dist_sq as int, range)),
            best matches Some(c) ==> {
                &&& 0 <= best_k < k
                &&& cands@[best_k] == c
                &&& spec_within(c.dist_sq as int, range)
                &&& forall|k2: int|
                    0 <= k2 < k && spec_within((#[trigger] cands@[k2]).dist_sq as int, range)
                        ==> c.dist_sq <= cands@[k2].dist_sq
            },
        decreases n - k,
    {
        let c = cands[k];
        if within_range(c.dist_sq, range) {
            match best {
                Some(b) => {
                    if c.dist_sq < b.dist_sq {
                        best = Some(c);
                        proof {
                            best_k = k as int;
                        }
                    }
                },
                None => {
                    best = Some(c);
                    proof {
                        best_k = k as int;
                    }
                },
            }
        }
        k = k + 1;
    }
    best
}

/// The combo factor, in thousandths: one plus a tenth per chained hit.
pub open spec fn spec_combo_multiplier(combo_count: u32) -> int {
    1000 + 100 * combo_count
}

/// An attack profile with its base damage scaled by `factor` thousandths,
/// capped at the largest valid damage so the profile stays valid.
pub open spec fn spec_scaled_attack(a: AttackAttributes, factor: int) -> AttackAttributes {
    let scaled = a.damage * factor / 1000;
    AttackAttributes {
        damage: if scaled > MAX_DAMAGE_MILLIS {
            MAX_DAMAGE_MILLIS
        } else {
            scaled as u64
        },
        ..a
    }
}

/// Scales an attack profile's damage, capping it.
fn scaled_attack(a: &AttackAttributes, factor: u64) -> (r: AttackAttributes)
    requires
        a.valid(),
    ensures
        r == spec_scaled_attack(*a, factor as int),
        r.valid(),
{
    proof {
        crate::math::lemma_mul_le(a.damage as int, factor as int, u64::MAX as int, u64::MAX as int);
    }
    let wide: u128 = (a.damage as u128) * (factor as u128) / 1000;
    let damage: u64 = if wide > (MAX_DAMAGE_MILLIS as u128) {
        MAX_DAMAGE_MILLIS
    } else {
        wide as u64
    };
    AttackAttributes { damage, ..*a }
}

/// Performs the player's basic attack.  Whenever the player is in the
/// arena, passes the cooldown gate and a hostile stands within attack
/// range, the attack goes out: the combo chain grows and its window
/// reopens, one damage event — the resolution of the
/// player's profile scaled by the combo factor, with a fresh critical
/// roll, against the nearest hostile's shielded resistances — is queued,
/// and the player's cooldown resets.  Otherwise nothing changes.
pub fn perform_player_attack(
    world: &mut World,
    player: ActorId,
    pc: &mut PlayerCombat,
    cands: &Vec<TargetCandidate>,
) -> (hit: Option<ActorId>)
    requires
        old(world).wf(),
        forall|k: int| 0 <= k < cands@.len() ==> old(world).spec_valid_id((#[trigger] cands@[k]).id),
    ensures
        final(world).wf(),
        old(world).all_alive() ==> final(world).all_alive(),
        hit is None ==> *final(world) == *old(world) && *final(pc) == *old(pc),
        // success is owed: a ready player with a hostile in reach attacks
        old(world).spec_valid_id(player) && spec_gate_ready(old(world).spec_actor(player)) && (
        exists|k: int|
            0 <= k < cands@.len() && spec_within(
                (#[trigger] cands@[k]).dist_sq as int,
                old(world).spec_actor(player).attack.attack_range,
            )) ==> hit is Some,
        hit matches Some(t) ==> {
            let p = old(world).spec_actor(player);
            let ev = final(world).pending_damage@.last();
            &&& old(world).spec_valid_id(player)
            &&& spec_gate_ready(p)
            &&& spec_is_nearest(cands@, p.attack.attack_range, t)
            &&& final(pc).combo_count == old(pc).combo_count.saturating_add(1)
            &&& final(pc).combo_timer == 2000u64
            &&& final(pc).special_attack_cooldown == old(pc).special_attack_cooldown
            &&& final(pc).ultimate_cooldown == old(pc).ultimate_cooldown
            &&& final(world).pending_damage@ == old(world).pending_damage@.push(ev)
            &&& ev.source == player
            &&& ev.target == t
            &&& ev.damage == resolved_damage(
                spec_scaled_attack(p.attack, spec_combo_multiplier(final(pc).combo_count)),
                spec_resistance(
                    spec_shielded_defense(old(world).spec_actor(t)),
                    p.attack.damage_type,
                ),
                ev.is_critical,
            )
            &&& (p.attack.critical_chance == 0 ==> !ev.is_critical)
            &&& (p.attack.critical_chance >= 1000 ==> ev.is_critical)
            &&& final(world).slots@ == old(world).slots@.update(
                player.index as int,
                Slot {
                    generation: player.generation,
                    occupant: Some(
                        WorldActor {
                            cooldown: crate::scheduler::spec_cooldown_after_attack(
                                crate::world::spec_effective_speed(p),
                            ) as u64,
                            is_attacking: true,
                            ..p
                        },
                    ),
                },
            )
        },
{
    if player.index >= world.slots.len() {
        return None;
    }
    let pslot = world.slots[player.index];
    if pslot.generation != player.generation {
        return None;
    }
    let p = match pslot.occupant {
        Some(a) => a,
        None => { return None },
    };
    proof {
        assert(slot_wf(old(world).slots@[player.index as int]));
    }
    let forced = p.effects.forced_cooldown();
    if !(p.cooldown == 0 && forced == 0) {
        return None;
    }
    let selected = select_nearest_target(cands, p.attack.attack_range);
    let c = match selected {
        Some(c) => c,
        None => { return None },
    };
    proof {
        assert(exists|k: int| 0 <= k < cands@.len() && (#[trigger] cands@[k]) == c);
        let k = choose|k: int| 0 <= k < cands@.len() && (#[trigger] cands@[k]) == c;
        assert(old(world).spec_valid_id(cands@[k].id));
    }
    let tslot = world.slots[c.id.index];
    let tgt = match tslot.occupant {
        Some(a) => a,
        None => { return None },
    };
    proof {
        assert(slot_wf(old(world).slots@[c.id.index as int]));
    }
    pc.combo_count = pc.combo_count.saturating_add(1);
    pc.combo_timer = 2000;
    let factor: u64 = 1000 + 100 * (pc.combo_count as u64);
    let attack = scaled_attack(&p.attack, factor);
    let roll = roll_per_mille();
    let defense = tgt.effects.shielded_defense(&tgt.defense);
    let out = resolve_attack(&attack, &defense, roll);
    world.pending_damage.push(
        DamageEvent {
            source: player,
            target: c.id,
            damage: out.0,
            damage_type: attack.damage_type,
            is_critical: out.1,
        },
    );
    let speed = p.effects.effective_attack_speed(p.attack.attack_speed);
    let updated = WorldActor {
        cooldown: crate::scheduler::cooldown_after_attack(speed),
        is_attacking: true,
        ..p
    };
    world.slots.set(player.index, Slot { generation: player.generation, occupant: Some(updated) });
    proof {
        assert forall|j: int| 0 <= j < world.slots@.len() implies slot_wf(
            #[trigger] world.slots@[j],
        ) by {
            assert(slot_wf(old(world).slots@[j]));
        }
        if old(world).all_alive() {
            assert forall|j: int|
                0 <= j < world.slots@.len() implies ((#[trigger] world.slots@[j].occupant) matches Some(
                a,
            ) ==> a.health > 0) by {
                assert((old(world).slots@[j].occupant) matches Some(a) ==> a.health > 0);
            }
        }
    }
    Some(c.id)
}

/// What an area attack leaves untouched on any actor: everything but its
/// timed effects.
pub open spec fn spec_effects_only_frame(a: WorldActor, b: WorldActor) -> bool {
    b == (WorldActor { effects: b.effects, ..a })
}

/// Whether some event in `events` past index `from` hits `target`.
pub open spec fn spec_has_area_hit(events: Seq<DamageEvent>, from: int, target: ActorId) -> bool {
    exists|k: int| from <= k < events.len() && (#[trigger] events[k]).target == target
}

/// Sweeps an area attack from `player` over every candidate within
/// `range`: each one gets a damage event — the resolution of the
/// player's profile scaled by `factor`, without a critical roll but
/// marked per `critical` — and a copy of `effect` attached,
/// overwriting a present effect of the same kind.
fn area_attack(
    world: &mut World,
    player: ActorId,
    cands: &Vec<TargetCandidate>,
    range: u32,
    factor: u64,
    critical: bool,
    effect: CombatEffect,
    attack: &AttackAttributes,
) -> (count: usize)
    requires
        old(world).wf(),
        attack.valid(),
        effect.valid(),
        forall|k: int| 0 <= k < cands@.len() ==> old(world).spec_valid_id((#[trigger] cands@[k]).id),
        forall|k1: int, k2: int|
            0 <= k1 < k2 < cands@.len() ==> cands@[k1].id.index != cands@[k2].id.index,
    ensures
        final(world).wf(),
        old(world).all_alive() ==> final(world).all_alive(),
        final(world).slots@.len() == old(world).slots@.len(),
        final(world).player == old(world).player,
        final(world).pending_heals == old(world).pending_heals,
        // arena actors change in nothing but their effects
        forall|i: int|
            0 <= i < old(world).slots@.len() ==> {
                let before = old(world).slots@[i];
                let after = #[trigger] final(world).slots@[i];
                &&& after.generation == before.generation
                &&& (after.occupant is Some <==> before.occupant is Some)
                &&& (before.occupant is Some ==> spec_effects_only_frame(
                    before.occupant->Some_0,
                    after.occupant->Some_0,
                ))
            },
        // queued events are appended, never rewritten
        final(world).pending_damage@.len() >= old(world).pending_damage@.len(),
        forall|k: int|
            0 <= k < old(world).pending_damage@.len()
                ==> #[trigger] final(world).pending_damage@[k] == old(world).pending_damage@[k],
        // every appended event is the exact resolution against its target
        forall|k: int|
            old(world).pending_damage@.len() <= k < final(world).pending_damage@.len() ==> {
                let ev = #[trigger] final(world).pending_damage@[k];
                &&& ev.source == player
                &&& old(world).spec_valid_id(ev.target)
                &&& ev.is_critical == critical
                &&& ev.damage_type == attack.damage_type
                &&& ev.damage == resolved_damage(
                    spec_scaled_attack(*attack, factor as int),
                    spec_resistance(
                        spec_shielded_defense(old(world).spec_actor(ev.target)),
                        attack.damage_type,
                    ),
                    false,
                )
            },
        // every candidate in range was hit and carries the effect
        forall|k: int|
            0 <= k < cands@.len() && spec_within((#[trigger] cands@[k]).dist_sq as int, range)
                ==> spec_has_area_hit(
                final(world).pending_damage@,
                old(world).pending_damage@.len() as int,
                cands@[k].id,
            ) && crate::effects::spec_effect(
                final(world).spec_actor(cands@[k].id).effects,
                effect.effect_type,
            ) == Some(effect),
{
    let scaled = scaled_attack(attack, factor);
    let n = cands.len();
    let mut count: usize = 0;
    let mut k: usize = 0;
    while k < n
        invariant
            k <= n,
            count <= k,
            n == cands@.len(),
            world.wf(),
            old(world).wf(),
            scaled == spec_scaled_attack(*attack, factor as int),
            scaled.valid(),
            effect.valid(),
            old(world).all_alive() ==> world.all_alive(),
            world.slots@.len() == old(world).slots@.len(),
            world.player == old(world).player,
            world.pending_heals == old(world).pending_heals,
            forall|j: int|
                0 <= j < cands@.len() ==> old(world).spec_valid_id((#[trigger] cands@[j]).id),
            forall|k1: int, k2: int|
                0 <= k1 < k2 < cands@.len() ==> cands@[k1].id.index != cands@[k2].id.index,
            forall|j: int|
                k <= j < n ==> #[trigger] world.slots@[cands@[j].id.index as int] == old(
                    world,
                ).slots@[cands@[j].id.index as int],
            forall|i: int|
                0 <= i < old(world).slots@.len() ==> {
                    let before = old(world).slots@[i];
                    let after = #[trigger] world.slots@[i];
                    &&& after.generation == before.generation
                    &&& (after.occupant is Some <==> before.occupant is Some)
                    &&& (before.occupant is Some ==> spec_effects_only_frame(
                        before.occupant->Some_0,
                        after.occupant->Some_0,
                    ))
                },
            world.pending_damage@.len() >= old(world).pending_damage@.len(),
            forall|j: int|
                0 <= j < old(world).pending_damage@.len() ==> #[trigger] world.pending_damage@[j]
                    == old(world).pending_damage@[j],
            forall|j: int|
                old(world).pending_damage@.len() <= j < world.pending_damage@.len() ==> {
                    let ev = #[trigger] world.pending_damage@[j];
                    &&& ev.source == player
                    &&& old(world).spec_valid_id(ev.target)
                    &&& ev.is_critical == critical
                    &&& ev.damage_type == attack.damage_type
                    &&& ev.damage == resolved_damage(
                        spec_scaled_attack(*attack, factor as int),
                        spec_resistance(
                            spec_shielded_defense(old(world).spec_actor(ev.target)),
                            attack.damage_type,
                        ),
                        false,
                    )
                },
            forall|j: int|
                0 <= j < k && spec_within((#[trigger] cands@[j]).dist_sq as int, range)
                    ==> spec_has_area_hit(
                    world.pending_damage@,
                    old(world).pending_damage@.len() as int,
                    cands@[j].id,
                ) && crate::effects::spec_effect(
                    world.spec_actor(cands@[j].id).effects,
                    effect.effect_type,
                ) == Some(effect),
        decreases n - k,
    {
        let ghost pending0 = world.pending_damage@;
        let ghost slots0 = world.slots@;
        let c = cands[k];
        if within_range(c.dist_sq, range) {
            proof {
                assert(old(world).spec_valid_id(c.id));
                assert(slot_wf(old(world).slots@[c.id.index as int]));
            }
            let tslot = world.slots[c.id.index];
            if let Some(tgt) = tslot.occupant {
                proof {
                    assert(slot_wf(old(world).slots@[c.id.index as int]));
                    assert(spec_effects_only_frame(
                        old(world).slots@[c.id.index as int].occupant->Some_0,
                        tgt,
                    ));
                }
                let defense = tgt.effects.shielded_defense(&tgt.defense);
                let damage = resolve_with_flag(&scaled, &defense, false);
                world.pending_damage.push(
                    DamageEvent {
                        source: player,
                        target: c.id,
                        damage,
                        damage_type: scaled.damage_type,
                        is_critical: critical,
                    },
                );
                let mut updated = tgt;
                updated.effects.insert(effect);
                world.slots.set(
                    c.id.index,
                    Slot { generation: tslot.generation, occupant: Some(updated) },
                );
                count = count + 1;
                proof {
                    // the target's shielded defense is untouched by
                    // earlier iterations, which only insert effects on
                    // other slots
                    assert(spec_shielded_defense(tgt) == spec_shielded_defense(
                        old(world).spec_actor(c.id),
                    ));
                    assert forall|j: int|
                        0 <= j < k + 1 && spec_within(
                            (#[trigger] cands@[j]).dist_sq as int,
                            range,
                        ) implies spec_has_area_hit(
                        world.pending_damage@,
                        old(world).pending_damage@.len() as int,
                        cands@[j].id,
                    ) && crate::effects::spec_effect(
                        world.spec_actor(cands@[j].id).effects,
                        effect.effect_type,
                    ) == Some(effect) by {
                        if j < k {
                            assert(cands@[j].id.index != c.id.index);
                            assert(world.slots@[cands@[j].id.index as int] == slots0[cands@[j].id.index as int]);
                            let k0 = choose|k0: int|
                                old(world).pending_damage@.len() <= k0 < pending0.len() && (
                                #[trigger] pending0[k0]).target == cands@[j].id;
                            assert(world.pending_damage@[k0] == pending0[k0]);
                        } else {
                            assert(world.pending_damage@[world.pending_damage@.len() - 1].target
                                == c.id);
                        }
                    }
                    assert forall|i: int|
                        0 <= i < old(world).slots@.len() implies {
                        let before = old(world).slots@[i];
                        let after = #[trigger] world.slots@[i];
                        &&& after.generation == before.generation
                        &&& (after.occupant is Some <==> before.occupant is Some)
                        &&& (before.occupant is Some ==> spec_effects_only_frame(
                            before.occupant->Some_0,
                            after.occupant->Some_0,
                        ))
                    } by {
                        if i != c.id.index {
                            assert(world.slots@[i] == slots0[i]);
                        }
                    }
                    assert forall|j: int| 0 <= j < world.slots@.len() implies slot_wf(
                        #[trigger] world.slots@[j],
                    ) by {
                        if j != c.id.index {
                            assert(world.slots@[j] == slots0[j]);
                        }
                    }
                    if old(world).all_alive() {
                        assert forall|j: int|
                            0 <= j < world.slots@.len() implies ((
                        #[trigger] world.slots@[j].occupant) matches Some(a) ==> a.health > 0) by {
                            if j != c.id.index {
                                assert(world.slots@[j] == slots0[j]);
                            } else {
                                assert((old(world).slots@[j].occupant) matches Some(a) ==> a.health
                                    > 0);
                            }
                        }
                    }
                }
            }
        } else {
            proof {
                assert forall|j: int|
                    0 <= j < k + 1 && spec_within(
                        (#[trigger] cands@[j]).dist_sq as int,
                        range,
                    ) implies spec_has_area_hit(
                    world.pending_damage@,
                    old(world).pending_damage@.len() as int,
                    cands@[j].id,
                ) && crate::effects::spec_effect(
                    world.spec_actor(cands@[j].id).effects,
                    effect.effect_type,
                ) == Some(effect) by {
                    assert(j < k);
                }
            }
        }
        k = k + 1;
    }
    count
}

/// Performs the player's special attack: once its ten-second cooldown
/// has run out, every hostile within one and a half times the player's
/// attack range takes the resolution of the player's profile at double
/// damage and is slowed for three seconds; the cooldown restarts.
/// Returns how many hostiles were hit, or `None` when the cooldown or a
/// missing player blocked the attack.
pub fn perform_special_attack(
    world: &mut World,
    player: ActorId,
    pc: &mut PlayerCombat,
    cands: &Vec<TargetCandidate>,
) -> (hit: Option<usize>)
    requires
        old(world).wf(),
        forall|k: int| 0 <= k < cands@.len() ==> old(world).spec_valid_id((#[trigger] cands@[k]).id),
        forall|k1: int, k2: int|
            0 <= k1 < k2 < cands@.len() ==> cands@[k1].id.index != cands@[k2].id.index,
    ensures
        final(world).wf(),
        old(world).all_alive() ==> final(world).all_alive(),
        hit is None ==> *final(world) == *old(world) && *final(pc) == *old(pc),
        // success is owed: a valid player with the cooldown ready sweeps
        old(pc).special_attack_cooldown == 0 && old(world).spec_valid_id(player) ==> hit is Some,
        hit is Some ==> old(pc).special_attack_cooldown == 0 && old(world).spec_valid_id(player)
            && *final(pc) == (PlayerCombat { special_attack_cooldown: 10_000u64, ..*old(pc) }),
        hit is Some ==> {
            let p = old(world).spec_actor(player);
            forall|k: int|
                0 <= k < cands@.len() && spec_within(
                    (#[trigger] cands@[k]).dist_sq as int,
                    ((p.attack.attack_range * 3) / 2) as u32,
                ) ==> spec_has_area_hit(
                    final(world).pending_damage@,
                    old(world).pending_damage@.len() as int,
                    cands@[k].id,
                ) && crate::effects::spec_effect(
                    final(world).spec_actor(cands@[k].id).effects,
                    CombatEffectType::Slow,
                ) == Some(CombatEffect {
                    effect_type: CombatEffectType::Slow,
                    duration: 3000u64,
                    timer: 0u64,
                    value: 500u32,
                })
        },
        hit is Some ==> forall|k: int|
            old(world).pending_damage@.len() <= k < final(world).pending_damage@.len() ==> {
                let p = old(world).spec_actor(player);
                let ev = #[trigger] final(world).pending_damage@[k];
                &&& ev.source == player
                &&& !ev.is_critical
                &&& ev.damage == resolved_damage(
                    spec_scaled_attack(p.attack, 2000),
                    spec_resistance(
                        spec_shielded_defense(old(world).spec_actor(ev.target)),
                        p.attack.damage_type,
                    ),
                    false,
                )
            },
{
    if pc.special_attack_cooldown > 0 {
        return None;
    }
    let p = match world.get(player) {
        Some(a) => a,
        None => { return None },
    };
    proof {
        assert(slot_wf(old(world).slots@[player.index as int]));
    }
    let range: u32 = (p.attack.attack_range * 3) / 2;
    let effect = CombatEffect::new(CombatEffectType::Slow, 3000, 500);
    let count = area_attack(world, player, cands, range, 2000, false, effect, &p.attack);
    pc.special_attack_cooldown = 10_000;
    Some(count)
}

/// Performs the player's ultimate attack: once its thirty-second
/// cooldown has run out, every hostile within twice the player's attack
/// range takes the resolution of the player's profile at triple damage —
/// each hit marked critical — and is stunned for two seconds; the
/// cooldown restarts.  Returns how many hostiles were hit, or `None`
/// when the cooldown or a missing player blocked the attack.
pub fn perform_ultimate_attack(
    world: &mut World,
    player: ActorId,
    pc: &mut PlayerCombat,
    cands: &Vec<TargetCandidate>,
) -> (hit: Option<usize>)
    requires
        old(world).wf(),
        forall|k: int| 0 <= k < cands@.len() ==> old(world).spec_valid_id((#[trigger] cands@[k]).id),
        forall|k1: int, k2: int|
            0 <= k1 < k2 < cands@.len() ==> cands@[k1].id.index != cands@[k2].id.index,
    ensures
        final(world).wf(),
        old(world).all_alive() ==> final(world).all_alive(),
        hit is None ==> *final(world) == *old(world) && *final(pc) == *old(pc),
        // success is owed: a valid player with the cooldown ready sweeps
        old(pc).ultimate_cooldown == 0 && old(world).spec_valid_id(player) ==> hit is Some,
        hit is Some ==> old(pc).ultimate_cooldown == 0 && old(world).spec_valid_id(player)
            && *final(pc) == (PlayerCombat { ultimate_cooldown: 30_000u64, ..*old(pc) }),
        hit is Some ==> {
            let p = old(world).spec_actor(player);
            forall|k: int|
                0 <= k < cands@.len() && spec_within(
                    (#[trigger] cands@[k]).dist_sq as int,
                    (p.attack.attack_range * 2) as u32,
                ) ==> spec_has_area_hit(
                    final(world).pending_damage@,
                    old(world).pending_damage@.len() as int,
                    cands@[k].id,
                ) && crate::effects::spec_effect(
                    final(world).spec_actor(cands@[k].id).effects,
                    CombatEffectType::Stun,
                ) == Some(CombatEffect {
                    effect_type: CombatEffectType::Stun,
                    duration: 2000u64,
                    timer: 0u64,
                    value: 0u32,
                })
        },
        hit is Some ==> forall|k: int|
            old(world).pending_damage@.len() <= k < final(world).pending_damage@.len() ==> {
                let p = old(world).spec_actor(player);
                let ev = #[trigger] final(world).pending_damage@[k];
                &&& ev.source == player
                &&& ev.is_critical
                &&& ev.damage == resolved_damage(
                    spec_scaled_attack(p.attack, 3000),
                    spec_resistance(
                        spec_shielded_defense(old(world).spec_actor(ev.target)),
                        p.attack.damage_type,
                    ),
                    false,
                )
            },
{
    if pc.ultimate_cooldown > 0 {
        return None;
    }
    let p = match world.get(player) {
        Some(a) => a,
        None => { return None },
    };
    proof {
        assert(slot_wf(old(world).slots@[player.index as int]));
    }
    let range: u32 = p.attack.attack_range * 2;
    let effect = CombatEffect::new(CombatEffectType::Stun, 2000, 0);
    let count = area_attack(world, player, cands, range, 3000, true, effect, &p.attack);
    pc.ultimate_cooldown = 30_000;
    Some(count)
}

} // verus!
