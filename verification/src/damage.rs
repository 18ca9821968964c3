//! The damage pipeline: a pure function from a base damage value, the
//! attacker's status, the attacker's relics and the defender's block to the
//! final damage, the block consumed and the health lost.
use vstd::prelude::*;

use crate::VALUE_CAP;
use crate::item_relics::Relic;
use crate::item_relics::has_relic;
use crate::status::StatusStore;

verus! {

/// Largest base damage the pipeline accepts. A card's printed damage, the
/// accumulated spell bonus and a finisher's doubling each stay within
/// [`VALUE_CAP`], so every attack the engine forms starts below this bound.
pub const ATTACK_BASE_CAP: u32 = 4 * VALUE_CAP;

/// The smaller of two values.
pub open spec fn min_u32(a: u32, b: u32) -> u32 {
    if a <= b {
        a
    } else {
        b
    }
}

/// 75% of `d`, truncated: the weak and frozen damage reduction.
pub open spec fn three_quarters(d: u32) -> u32 {
    ((d * 3) / 4) as u32
}

/// Executable counterpart of [`three_quarters`].
pub fn mul_three_quarters(d: u32) -> (r: u32)
    ensures
        r == three_quarters(d),
        r <= d,
{
    proof {
        assert((d * 3) / 4 <= d) by (nonlinear_arith);
    }
    (((d as u64) * 3) / 4) as u32
}

/// Steps one to five of the pipeline: the base damage, then +1 for a
/// damage-boosting relic (only on a non-zero base), then the attacker's
/// strength (only on a non-zero base), then 75% truncated once for weak and
/// once for frozen.
pub open spec fn attack_damage_spec(base: u32, st: StatusStore, damage_relic: bool) -> u32 {
    let with_relic = if damage_relic && base > 0 {
        (base + 1) as u32
    } else {
        base
    };
    let with_strength = if st.strength > 0 && base > 0 {
        (with_relic + st.strength) as u32
    } else {
        with_relic
    };
    let after_weak = if st.weak > 0 {
        three_quarters(with_strength)
    } else {
        with_strength
    };
    if st.frozen > 0 {
        three_quarters(after_weak)
    } else {
        after_weak
    }
}

/// Executable counterpart of [`attack_damage_spec`].
pub fn attack_damage(base: u32, st: &StatusStore, damage_relic: bool) -> (r: u32)
    requires
        base <= ATTACK_BASE_CAP,
        st.wf(),
    ensures
        r == attack_damage_spec(base, *st, damage_relic),
        r <= base + 1 + st.strength,
{
    let mut damage: u32 = base;
    if damage_relic && base > 0 {
        damage = damage + 1;
    }
    if st.strength > 0 && base > 0 {
        damage = damage + st.strength;
    }
    if st.weak > 0 {
        damage = mul_three_quarters(damage);
    }
    if st.frozen > 0 {
        damage = mul_three_quarters(damage);
    }
    damage
}

/// Step six of the pipeline: block soaks damage one for one. Returns
/// `(block_consumed, hp_loss, block_left)`.
pub fn absorb(damage: u32, block: u32) -> (r: (u32, u32, u32))
    ensures
        r.0 == min_u32(damage, block),
        r.1 == damage - r.0,
        r.2 == block - r.0,
        r.2 == if block >= damage {
            (block - damage) as u32
        } else {
            0u32
        },
{
    let consumed: u32 = if damage <= block {
        damage
    } else {
        block
    };
    (consumed, damage - consumed, block - consumed)
}

/// The whole pipeline: `(final_damage, block_consumed, hp_loss)` for an
/// attack of `base` by an attacker with status `st` and relics `relics`
/// against `block` points of block.
pub open spec fn resolve_damage_spec(base: u32, st: StatusStore, relics: Seq<Relic>, block: u32) -> (
    u32,
    u32,
    u32,
) {
    let f = attack_damage_spec(base, st, relics.contains(Relic::Vajra));
    let consumed = min_u32(f, block);
    (f, consumed, (f - consumed) as u32)
}

/// Resolve an attack. The caller subtracts `r.1` from the defender's block
/// and `r.2` from the defender's health.
pub fn resolve_damage(
    base_damage: u32,
    attacker_status: &StatusStore,
    relics: &Vec<Relic>,
    defender_block: u32,
) -> (r: (u32, u32, u32))
    requires
        base_damage <= ATTACK_BASE_CAP,
        attacker_status.wf(),
    ensures
        r == resolve_damage_spec(base_damage, *attacker_status, relics@, defender_block),
{
    let damage_relic = has_relic(relics, Relic::Vajra);
    let f = attack_damage(base_damage, attacker_status, damage_relic);
    let (consumed, hp_loss, _) = absorb(f, defender_block);
    (f, consumed, hp_loss)
}

/// Law: the damage pipeline is a pure function. Two results that each obey
/// [`resolve_damage_spec`] on identical inputs are identical tuples, so any
/// two calls of [`resolve_damage`] on the same arguments agree.
pub proof fn lemma_resolve_damage_pure(
    r1: (u32, u32, u32),
    r2: (u32, u32, u32),
    base: u32,
    st: StatusStore,
    relics: Seq<Relic>,
    block: u32,
)
    requires
        r1 == resolve_damage_spec(base, st, relics, block),
        r2 == resolve_damage_spec(base, st, relics, block),
    ensures
        r1 == r2,
{
}

/// Law: block absorption never goes negative. For every input, the block
/// consumed is the smaller of the final damage and the block available, the
/// block left is `block - final_damage` floored at zero, and the health lost
/// is exactly the damage the block did not soak.
pub proof fn lemma_block_never_negative(base: u32, st: StatusStore, relics: Seq<Relic>, block: u32)
    ensures
        resolve_damage_spec(base, st, relics, block).1 == min_u32(
            resolve_damage_spec(base, st, relics, block).0,
            block,
        ),
        block - resolve_damage_spec(base, st, relics, block).1 == if block
            >= resolve_damage_spec(base, st, relics, block).0 {
            block - resolve_damage_spec(base, st, relics, block).0
        } else {
            0
        },
        resolve_damage_spec(base, st, relics, block).2 == resolve_damage_spec(
            base,
            st,
            relics,
            block,
        ).0 - resolve_damage_spec(base, st, relics, block).1,
{
}

} // verus!
