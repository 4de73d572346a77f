//! The attack/cooldown scheduler.
//!
//! Each actor holds a single cooldown counter in thousandths of a second,
//! lowered by the tick's time delta and floored at zero.  An attack may be
//! issued only when the counter has run out and no Freeze or Stun is
//! forcing a wait; issuing one resets the counter to one over the
//! effective attack speed.  A non-positive attack speed means the actor
//! never attacks again rather than dividing by zero.

use vstd::prelude::*;

verus! {

/// The cooldown set after an attack, in thousandths of a second: the
/// duration of one attack period, `1 / attack_speed` seconds.  An attack
/// speed of zero yields a cooldown that never runs out.
pub open spec fn spec_cooldown_after_attack(attack_speed: u32) -> int {
    if attack_speed == 0 {
        u64::MAX as int
    } else {
        1_000_000int / attack_speed as int
    }
}

/// Computes the cooldown to set after issuing an attack.
pub fn cooldown_after_attack(attack_speed: u32) -> (r: u64)
    ensures
        r == spec_cooldown_after_attack(attack_speed),
{
    if attack_speed == 0 {
        u64::MAX
    } else {
        1_000_000u64 / (attack_speed as u64)
    }
}

/// Lowers a cooldown by the tick's time delta, floored at zero.
pub fn advance_cooldown(cooldown: u64, dt: u64) -> (r: u64)
    ensures
        r == cooldown.saturating_sub(dt),
{
    cooldown.saturating_sub(dt)
}

/// The single gate every attack passes: the actor's own cooldown has run
/// out and no Freeze or Stun is forcing a wait.
pub fn attack_gate_open(cooldown: u64, forced_wait: u64) -> (r: bool)
    ensures
        r == (cooldown == 0 && forced_wait == 0),
{
    cooldown == 0 && forced_wait == 0
}

} // verus!
