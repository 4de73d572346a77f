//! The status-effect timeline: timed modifiers attached to one actor.
//!
//! At most one effect of each kind is present at a time — re-applying a
//! kind overwrites it.  Effects are advanced once per tick; Burn and Poison
//! emit one damage pulse whenever their elapsed time crosses a whole-second
//! boundary, and every effect is removed the moment its elapsed time
//! reaches its duration.  Attribute changes (Slow, Freeze, Stun, Shield)
//! are re-derived from the base profile and the currently present effects,
//! never written through permanently.

use vstd::prelude::*;
use crate::combat::DefenseAttributes;

verus! {

/// Largest duration an effect may carry, in thousandths of a second.
pub const MAX_EFFECT_DURATION_MILLIS: u64 = 1_000_000_000;

/// Largest time delta one tick may advance, in thousandths of a second.
pub const MAX_TICK_MILLIS: u64 = 1_000_000_000;

/// The closed set of effect kinds.
#[derive(Clone, Copy, Debug, PartialEq, Eq, Structural)]
pub enum CombatEffectType {
    Burn,
    Freeze,
    Poison,
    Slow,
    Stun,
    Shield,
}

/// One timed effect: its kind, total duration, elapsed timer and magnitude.
/// Durations and timers are counted in thousandths of a second, the
/// magnitude in thousandths of its unit (damage for Burn/Poison, added
/// resistance for Shield).
#[derive(Clone, Copy, Debug, PartialEq, Eq, Structural)]
pub struct CombatEffect {
    pub effect_type: CombatEffectType,
    pub duration: u64,
    pub timer: u64,
    pub value: u32,
}

impl CombatEffect {
    /// A bounded duration and a timer that has not outrun it.
    pub open spec fn valid(self) -> bool {
        &&& self.duration <= MAX_EFFECT_DURATION_MILLIS
        &&& self.timer <= self.duration
    }

    /// A fresh effect with its timer at zero.
    pub fn new(effect_type: CombatEffectType, duration: u64, value: u32) -> (r: Self)
        requires
            duration <= MAX_EFFECT_DURATION_MILLIS,
        ensures
            r == (CombatEffect { effect_type, duration, timer: 0u64, value }),
            r.valid(),
    {
        CombatEffect { effect_type, duration, timer: 0, value }
    }

    /// An effect is finished exactly when its elapsed time has reached its
    /// duration.
    pub fn is_finished(&self) -> (r: bool)
        ensures
            r == (self.timer >= self.duration),
    {
        self.timer >= self.duration
    }
}

/// The effects currently present on one actor: one optional slot per kind.
#[derive(Clone, Copy, Debug, PartialEq, Eq, Structural)]
pub struct EffectSet {
    pub burn: Option<CombatEffect>,
    pub freeze: Option<CombatEffect>,
    pub poison: Option<CombatEffect>,
    pub slow: Option<CombatEffect>,
    pub stun: Option<CombatEffect>,
    pub shield: Option<CombatEffect>,
}

/// The slot of `s` that holds effects of kind `kind`.
pub open spec fn spec_effect(s: EffectSet, kind: CombatEffectType) -> Option<CombatEffect> {
    match kind {
        CombatEffectType::Burn => s.burn,
        CombatEffectType::Freeze => s.freeze,
        CombatEffectType::Poison => s.poison,
        CombatEffectType::Slow => s.slow,
        CombatEffectType::Stun => s.stun,
        CombatEffectType::Shield => s.shield,
    }
}

/// A slot is well formed when its occupant is valid and carries the kind
/// the slot is for.
pub open spec fn slot_valid(s: EffectSet, kind: CombatEffectType) -> bool {
    match spec_effect(s, kind) {
        Some(e) => e.valid() && e.effect_type == kind,
        None => true,
    }
}

/// One effect, one tick later: the timer has grown by `dt`, and the effect
/// is gone once the timer reaches the duration.
pub open spec fn advanced_slot(s: Option<CombatEffect>, dt: u64) -> Option<CombatEffect> {
    match s {
        None => None,
        Some(e) => if e.timer + dt >= e.duration {
            None
        } else {
            Some(CombatEffect { timer: (e.timer + dt) as u64, ..e })
        },
    }
}

/// A periodic effect fires once per whole second: exactly when advancing
/// its timer by `dt` crosses a whole-second boundary.
pub open spec fn crosses_second(e: CombatEffect, dt: u64) -> bool {
    (e.timer + dt) / 1000 > e.timer as int / 1000
}

/// The damage pulse a Burn or Poison slot emits this tick, if any.
pub open spec fn spec_pulse(s: Option<CombatEffect>, dt: u64) -> Option<u32> {
    match s {
        Some(e) => if crosses_second(e, dt) {
            Some(e.value)
        } else {
            None
        },
        None => None,
    }
}

/// The whole set, one tick later.
pub open spec fn advanced_set(s: EffectSet, dt: u64) -> EffectSet {
    EffectSet {
        burn: advanced_slot(s.burn, dt),
        freeze: advanced_slot(s.freeze, dt),
        poison: advanced_slot(s.poison, dt),
        slow: advanced_slot(s.slow, dt),
        stun: advanced_slot(s.stun, dt),
        shield: advanced_slot(s.shield, dt),
    }
}

/// Damage pulses due on the tick after this one: Burn deals Explosive
/// damage, Poison deals Corrosive damage.
#[derive(Clone, Copy, Debug, PartialEq, Eq, Structural)]
pub struct EffectPulses {
    pub burn: Option<u32>,
    pub poison: Option<u32>,
}

/// Advances one slot by `dt`.
fn advance_slot(s: Option<CombatEffect>, dt: u64) -> (r: Option<CombatEffect>)
    requires
        s matches Some(e) ==> e.valid(),
        dt <= MAX_TICK_MILLIS,
    ensures
        r == advanced_slot(s, dt),
{
    match s {
        None => None,
        Some(e) => {
            let timer = e.timer + dt;
            if timer >= e.duration {
                None
            } else {
                Some(CombatEffect { timer, ..e })
            }
        },
    }
}

/// The pulse one Burn/Poison slot emits when advanced by `dt`.
fn slot_pulse(s: Option<CombatEffect>, dt: u64) -> (r: Option<u32>)
    requires
        s matches Some(e) ==> e.valid(),
        dt <= MAX_TICK_MILLIS,
    ensures
        r == spec_pulse(s, dt),
{
    match s {
        None => None,
        Some(e) => {
            if (e.timer + dt) / 1000 > e.timer / 1000 {
                Some(e.value)
            } else {
                None
            }
        },
    }
}

impl EffectSet {
    /// Every slot well formed.
    pub open spec fn valid(self) -> bool {
        &&& slot_valid(self, CombatEffectType::Burn)
        &&& slot_valid(self, CombatEffectType::Freeze)
        &&& slot_valid(self, CombatEffectType::Poison)
        &&& slot_valid(self, CombatEffectType::Slow)
        &&& slot_valid(self, CombatEffectType::Stun)
        &&& slot_valid(self, CombatEffectType::Shield)
    }

    /// No effects at all.
    pub fn new() -> (r: Self)
        ensures
            r == (EffectSet {
                burn: None::<CombatEffect>,
                freeze: None::<CombatEffect>,
                poison: None::<CombatEffect>,
                slow: None::<CombatEffect>,
                stun: None::<CombatEffect>,
                shield: None::<CombatEffect>,
            }),
            r.valid(),
    {
        EffectSet { burn: None, freeze: None, poison: None, slow: None, stun: None, shield: None }
    }

    /// The effect of the given kind, if one is present.
    pub fn get(&self, kind: CombatEffectType) -> (r: Option<CombatEffect>)
        ensures
            r == spec_effect(*self, kind),
    {
        match kind {
            CombatEffectType::Burn => self.burn,
            CombatEffectType::Freeze => self.freeze,
            CombatEffectType::Poison => self.poison,
            CombatEffectType::Slow => self.slow,
            CombatEffectType::Stun => self.stun,
            CombatEffectType::Shield => self.shield,
        }
    }

    /// Inserts an effect, overwriting any present effect of the same kind;
    /// slots of other kinds are untouched.
    pub fn insert(&mut self, e: CombatEffect)
        requires
            old(self).valid(),
            e.valid(),
        ensures
            spec_effect(*final(self), e.effect_type) == Some(e),
            forall|k: CombatEffectType|
                k != e.effect_type ==> spec_effect(*final(self), k) == spec_effect(*old(self), k),
            final(self).valid(),
    {
        match e.effect_type {
            CombatEffectType::Burn => self.burn = Some(e),
            CombatEffectType::Freeze => self.freeze = Some(e),
            CombatEffectType::Poison => self.poison = Some(e),
            CombatEffectType::Slow => self.slow = Some(e),
            CombatEffectType::Stun => self.stun = Some(e),
            CombatEffectType::Shield => self.shield = Some(e),
        }
    }

    /// Advances every effect by `dt` and reports the damage pulses due on
    /// the next tick.  Each slot keeps its effect with the timer grown by
    /// `dt`, or loses it once the timer reaches the duration; a Burn or
    /// Poison that crosses a whole-second boundary this tick pulses once,
    /// even on the tick that removes it.
    pub fn advance(&mut self, dt: u64) -> (pulses: EffectPulses)
        requires
            old(self).valid(),
            dt <= MAX_TICK_MILLIS,
        ensures
            *final(self) == advanced_set(*old(self), dt),
            final(self).valid(),
            pulses.burn == spec_pulse(old(self).burn, dt),
            pulses.poison == spec_pulse(old(self).poison, dt),
    {
        let pulses = EffectPulses {
            burn: slot_pulse(self.burn, dt),
            poison: slot_pulse(self.poison, dt),
        };
        self.burn = advance_slot(self.burn, dt);
        self.freeze = advance_slot(self.freeze, dt);
        self.poison = advance_slot(self.poison, dt);
        self.slow = advance_slot(self.slow, dt);
        self.stun = advance_slot(self.stun, dt);
        self.shield = advance_slot(self.shield, dt);
        pulses
    }

    /// Attack speed after modifiers: a present Slow halves the base speed
    /// for its lifetime; it never compounds, because re-application
    /// overwrites the single Slow slot.
    pub fn effective_attack_speed(&self, base: u32) -> (r: u32)
        ensures
            r == (if self.slow is Some {
                base / 2
            } else {
                base
            }),
    {
        if self.slow.is_some() {
            base / 2
        } else {
            base
        }
    }

    /// Time a present Freeze or Stun still forces the actor to wait:
    /// the larger of their remaining durations, zero when neither is
    /// present.  While it is positive, no attack may be issued.
    pub fn forced_cooldown(&self) -> (r: u64)
        requires
            self.valid(),
        ensures
            r == spec_forced_cooldown(*self),
    {
        let freeze_left: u64 = match self.freeze {
            Some(e) => e.duration - e.timer,
            None => 0,
        };
        let stun_left: u64 = match self.stun {
            Some(e) => e.duration - e.timer,
            None => 0,
        };
        if freeze_left >= stun_left {
            freeze_left
        } else {
            stun_left
        }
    }

    /// The resistance bonus a present Shield grants, in thousandths.
    pub fn shield_bonus(&self) -> (r: u32)
        ensures
            r == spec_shield_bonus(*self),
    {
        match self.shield {
            Some(e) => e.value,
            None => 0,
        }
    }

    /// The defense table after a present Shield additively raises the
    /// physical and energy resistances by its magnitude (saturating).
    /// Derived fresh from the base table each time, never written back.
    pub fn shielded_defense(&self, base: &DefenseAttributes) -> (r: DefenseAttributes)
        ensures
            r == (DefenseAttributes {
                physical_resistance: base.physical_resistance.saturating_add(
                    spec_shield_bonus(*self),
                ),
                energy_resistance: base.energy_resistance.saturating_add(spec_shield_bonus(*self)),
                ..*base
            }),
    {
        let bonus = self.shield_bonus();
        DefenseAttributes {
            physical_resistance: base.physical_resistance.saturating_add(bonus),
            energy_resistance: base.energy_resistance.saturating_add(bonus),
            ..*base
        }
    }
}

/// Remaining forced wait from Freeze and Stun: the larger of
/// `duration - timer` over the two slots, zero when absent.
pub open spec fn spec_forced_cooldown(s: EffectSet) -> int {
    let freeze_left = match s.freeze {
        Some(e) => e.duration - e.timer,
        None => 0int,
    };
    let stun_left = match s.stun {
        Some(e) => e.duration - e.timer,
        None => 0int,
    };
    if freeze_left >= stun_left {
        freeze_left
    } else {
        stun_left
    }
}

/// The added resistance granted by a present Shield.
pub open spec fn spec_shield_bonus(s: EffectSet) -> u32 {
    match s.shield {
        Some(e) => e.value,
        None => 0u32,
    }
}

/// An effect of duration `d` is present while its elapsed time is short of
/// `d` and absent from the moment the elapsed time reaches `d`: after an
/// advance by `dt`, the slot of each kind is occupied exactly when it was
/// occupied before with `timer + dt` still short of the duration.
pub proof fn lemma_effect_expiry(s: EffectSet, dt: u64, kind: CombatEffectType)
    requires
        s.valid(),
        dt <= MAX_TICK_MILLIS,
    ensures
        spec_effect(advanced_set(s, dt), kind) is Some <==> (spec_effect(s, kind) matches Some(e)
            && e.timer + dt < e.duration),
        spec_effect(advanced_set(s, dt), kind) matches Some(e2) ==> e2.timer < e2.duration,
{
}

} // verus!
