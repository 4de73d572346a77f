//! The resolution engine's general guarantees, stated once over its spec
//! functions and proved for every input.

use vstd::prelude::*;
use crate::combat::capped_resistance;
use crate::combat::critical_base;
use crate::combat::resolved_damage;
use crate::combat::AttackAttributes;
use crate::combat::RESISTANCE_CAP;

verus! {

/// However large a resistance is supplied, the effective reduction never
/// exceeds 800/1000: the resistance that enters the damage formula is
/// capped, so at least a fifth of the incoming damage always passes.
pub proof fn lemma_resistance_cap(resistance: u32)
    ensures
        capped_resistance(resistance) <= RESISTANCE_CAP,
        1000 - capped_resistance(resistance) >= 200,
{
}

/// For every profile, resistance and critical flag, resolved damage is
/// never negative.
pub proof fn lemma_damage_floor(attack: AttackAttributes, resistance: u32, critical: bool)
    ensures
        resolved_damage(attack, resistance, critical) >= 0,
{
    let base = if critical {
        critical_base(attack.damage, attack.critical_multiplier)
    } else {
        attack.damage as int
    };
    assert(base >= 0) by (nonlinear_arith)
        requires
            base == if critical {
                (attack.damage * attack.critical_multiplier) / 1000int
            } else {
                attack.damage as int
            },
    ;
    assert(base * (1000 - capped_resistance(resistance)) / 1000 >= 0) by (nonlinear_arith)
        requires
            base >= 0,
            200 <= 1000 - capped_resistance(resistance) <= 1000,
    ;
}

/// With a certain critical chance, every resolved attack is critical,
/// and its damage is exactly the critical-scaled base after the capped
/// resistance, plus penetration, floored at zero.
pub proof fn lemma_certain_critical(attack: AttackAttributes, resistance: u32, roll: u32)
    requires
        attack.critical_chance >= 1000,
        roll < 1000,
    ensures
        roll < attack.critical_chance,
        resolved_damage(attack, resistance, true) == {
            let base = (attack.damage * attack.critical_multiplier) / 1000int;
            let total = base * (1000 - capped_resistance(resistance)) / 1000 + attack.penetration;
            if total < 0 {
                0
            } else {
                total
            }
        },
{
}

} // verus!
