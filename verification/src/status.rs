//! Per-combatant status counters and their turn-boundary rules: poison and
//! burning deal damage at the start of the owner's turn and then fade; weak
//! fades at the owner's turn boundary once it has been consulted; stun is
//! spent when an enemy turn finds it set.
use vstd::prelude::*;

use crate::VALUE_CAP;

verus! {

/// The six status counters a combatant can carry. All are non-negative by
/// construction and capped at [`VALUE_CAP`].
#[derive(Clone, Copy, Debug, PartialEq, Eq, Structural)]
pub struct StatusStore {
    pub poison: u32,
    pub weak: u32,
    pub strength: u32,
    pub stun: u32,
    pub burning: u32,
    pub frozen: u32,
}

/// Selects which counter an application targets.
#[derive(Clone, Copy, Debug, PartialEq, Eq, Structural)]
pub enum StatusKind {
    Poison,
    Weak,
    Strength,
    Stun,
    Burning,
    Frozen,
}

/// Addition that saturates at [`VALUE_CAP`].
pub open spec fn cap_add(a: u32, b: u32) -> u32 {
    if a + b > VALUE_CAP { VALUE_CAP } else { (a + b) as u32 }
}

/// Executable counterpart of [`cap_add`].
pub fn saturating_cap_add(a: u32, b: u32) -> (r: u32)
    ensures
        r == cap_add(a, b),
{
    let s: u64 = a as u64 + b as u64;
    if s > VALUE_CAP as u64 {
        VALUE_CAP
    } else {
        s as u32
    }
}

/// Subtraction that stops at zero.
pub open spec fn sat_sub(a: u32, b: u32) -> u32 {
    if a >= b {
        (a - b) as u32
    } else {
        0u32
    }
}

/// Executable counterpart of [`sat_sub`].
pub fn saturating_sub(a: u32, b: u32) -> (r: u32)
    ensures
        r == sat_sub(a, b),
{
    if a >= b {
        a - b
    } else {
        0
    }
}

/// A counter one below `c`, stopping at zero.
pub open spec fn fade(c: u32) -> u32 {
    if c > 0 { (c - 1) as u32 } else { 0u32 }
}

impl StatusStore {
    /// Every counter within the engine-wide cap.
    pub open spec fn wf(self) -> bool {
        self.poison <= VALUE_CAP && self.weak <= VALUE_CAP && self.strength <= VALUE_CAP
            && self.stun <= VALUE_CAP && self.burning <= VALUE_CAP && self.frozen <= VALUE_CAP
    }

    /// All counters zero.
    pub open spec fn empty() -> StatusStore {
        StatusStore { poison: 0, weak: 0, strength: 0, stun: 0, burning: 0, frozen: 0 }
    }

    /// The store with `kind` raised by `amount` (saturating) and every other
    /// counter unchanged.
    pub open spec fn applied(self, kind: StatusKind, amount: u32) -> StatusStore {
        match kind {
            StatusKind::Poison => StatusStore { poison: cap_add(self.poison, amount), ..self },
            StatusKind::Weak => StatusStore { weak: cap_add(self.weak, amount), ..self },
            StatusKind::Strength => StatusStore { strength: cap_add(self.strength, amount), ..self },
            StatusKind::Stun => StatusStore { stun: cap_add(self.stun, amount), ..self },
            StatusKind::Burning => StatusStore { burning: cap_add(self.burning, amount), ..self },
            StatusKind::Frozen => StatusStore { frozen: cap_add(self.frozen, amount), ..self },
        }
    }

    /// The store after the start-of-turn tick: poison and burning each one
    /// lower (stopping at zero), everything else unchanged.
    pub open spec fn ticked(self) -> StatusStore {
        StatusStore { poison: fade(self.poison), burning: fade(self.burning), ..self }
    }

    /// The store after the owner's turn-boundary decay of weak.
    pub open spec fn weak_decayed(self) -> StatusStore {
        StatusStore { weak: fade(self.weak), ..self }
    }

    pub fn new() -> (s: StatusStore)
        ensures
            s == StatusStore::empty(),
    {
        StatusStore { poison: 0, weak: 0, strength: 0, stun: 0, burning: 0, frozen: 0 }
    }

    /// Additive status application; the only operation that raises a counter.
    pub fn apply(&mut self, kind: StatusKind, amount: u32)
        ensures
            *final(self) == old(self).applied(kind, amount),
            old(self).wf() ==> final(self).wf(),
    {
        match kind {
            StatusKind::Poison => { self.poison = saturating_cap_add(self.poison, amount); },
            StatusKind::Weak => { self.weak = saturating_cap_add(self.weak, amount); },
            StatusKind::Strength => { self.strength = saturating_cap_add(self.strength, amount); },
            StatusKind::Stun => { self.stun = saturating_cap_add(self.stun, amount); },
            StatusKind::Burning => { self.burning = saturating_cap_add(self.burning, amount); },
            StatusKind::Frozen => { self.frozen = saturating_cap_add(self.frozen, amount); },
        }
    }

    /// Start-of-turn damage over time: returns the poison plus burning damage
    /// the owner takes, then lets both counters fade by one.
    pub fn tick_start_of_turn(&mut self) -> (dot: u64)
        ensures
            dot == old(self).poison + old(self).burning,
            *final(self) == old(self).ticked(),
    {
        let dot: u64 = self.poison as u64 + self.burning as u64;
        if self.poison > 0 {
            self.poison = self.poison - 1;
        }
        if self.burning > 0 {
            self.burning = self.burning - 1;
        }
        dot
    }

    /// Turn-boundary decay of weak, applied once the counter has been
    /// consulted during the owner's turn.
    pub fn decay_weak(&mut self)
        ensures
            *final(self) == old(self).weak_decayed(),
    {
        if self.weak > 0 {
            self.weak = self.weak - 1;
        }
    }
}

/// Law: status counters are never negative (they are unsigned) and outside an
/// explicit [`StatusStore::apply`] they never grow: the start-of-turn tick and
/// the weak decay leave every counter at or below its previous value.
pub proof fn lemma_status_only_apply_raises(s: StatusStore)
    ensures
        s.ticked().poison <= s.poison,
        s.ticked().burning <= s.burning,
        s.ticked().weak == s.weak,
        s.ticked().strength == s.strength,
        s.ticked().stun == s.stun,
        s.ticked().frozen == s.frozen,
        s.weak_decayed().weak <= s.weak,
        s.weak_decayed().poison == s.poison,
        s.weak_decayed().strength == s.strength,
        s.weak_decayed().stun == s.stun,
        s.weak_decayed().burning == s.burning,
        s.weak_decayed().frozen == s.frozen,
{
}

} // verus!
