//! The reflex timing mini-game: a bounded timer with a perfect window, an
//! input that scores at most once, and a success tier that scales the
//! pending attack's damage. The same state serves the player bracing
//! against an enemy attack (defensive) and the player's own attack landing
//! (offensive).
use vstd::prelude::*;

use crate::VALUE_CAP;
use crate::damage::min_u32;

verus! {

/// Largest base damage a reflex can scale: the damage pipeline never forms
/// a larger attack.
pub const REFLEX_DAMAGE_CAP: u32 = 6 * VALUE_CAP;

/// The success tier of a resolved reflex.
#[derive(Clone, Copy, Debug, PartialEq, Eq, Structural)]
pub enum ReflexSuccess {
    Miss,
    Good,
    Perfect,
}

/// Positions within the timer are fractions measured in thousandths,
/// `0..=1000`. The widened band around the perfect window extends it by a
/// tenth on each side.
pub const BAND_MILS: u32 = 100;

/// Score of an input captured at fraction `f` (in thousandths) against the
/// perfect window `[start, end]`: strictly inside the window is Perfect,
/// inside the window widened by a tenth on each side is Good, anything else
/// is a Miss.
pub open spec fn score_at_spec(f: u32, start: u32, end: u32) -> ReflexSuccess {
    if start <= f && f <= end {
        ReflexSuccess::Perfect
    } else if f + BAND_MILS >= start && f <= end + BAND_MILS {
        ReflexSuccess::Good
    } else {
        ReflexSuccess::Miss
    }
}

/// Executable counterpart of [`score_at_spec`].
pub fn score_at(f: u32, start: u32, end: u32) -> (r: ReflexSuccess)
    ensures
        r == score_at_spec(f, start, end),
{
    if start <= f && f <= end {
        ReflexSuccess::Perfect
    } else if f.saturating_add(BAND_MILS) >= start && f <= end.saturating_add(BAND_MILS) {
        ReflexSuccess::Good
    } else {
        ReflexSuccess::Miss
    }
}

/// The damage the attack deals after the reflex outcome scales it. A
/// defensive reflex shrinks what the player takes (a tenth on Perfect, half
/// on Good); an offensive reflex amplifies what the player deals (three
/// halves on Perfect, five quarters on Good); a Miss leaves the damage
/// unchanged. All products truncate.
pub open spec fn scaled_damage_spec(d: u32, result: ReflexSuccess, is_defensive: bool) -> u32 {
    if is_defensive {
        match result {
            ReflexSuccess::Perfect => (d / 10) as u32,
            ReflexSuccess::Good => (d / 2) as u32,
            ReflexSuccess::Miss => d,
        }
    } else {
        match result {
            ReflexSuccess::Perfect => ((d * 3) / 2) as u32,
            ReflexSuccess::Good => ((d * 5) / 4) as u32,
            ReflexSuccess::Miss => d,
        }
    }
}

/// Executable counterpart of [`scaled_damage_spec`].
pub fn scaled_damage(d: u32, result: ReflexSuccess, is_defensive: bool) -> (r: u32)
    requires
        d <= REFLEX_DAMAGE_CAP,
    ensures
        r == scaled_damage_spec(d, result, is_defensive),
        r <= 2 * d,
{
    if is_defensive {
        match result {
            ReflexSuccess::Perfect => d / 10,
            ReflexSuccess::Good => d / 2,
            ReflexSuccess::Miss => d,
        }
    } else {
        match result {
            ReflexSuccess::Perfect => (((d as u64) * 3) / 2) as u32,
            ReflexSuccess::Good => (((d as u64) * 5) / 4) as u32,
            ReflexSuccess::Miss => d,
        }
    }
}

/// The elapsed time after a tick of `delta_ms`: advanced, clamped at the
/// duration.
pub open spec fn ticked_elapsed(r: ReflexState, delta_ms: u32) -> u32 {
    min_u32(
        if r.elapsed_ms + delta_ms <= u32::MAX {
            (r.elapsed_ms + delta_ms) as u32
        } else {
            u32::MAX
        },
        r.duration_ms,
    )
}

/// One in-flight reflex instance; at most one exists at a time.
#[derive(Clone, Copy, Debug)]
pub struct ReflexState {
    /// Total timer length in milliseconds.
    pub duration_ms: u32,
    /// Time already elapsed, clamped at the duration.
    pub elapsed_ms: u32,
    /// Start of the perfect window, in thousandths of the timer.
    pub window_start: u32,
    /// End of the perfect window, in thousandths of the timer.
    pub window_end: u32,
    /// Set exactly once, by input or by timeout.
    pub result: Option<ReflexSuccess>,
    /// Whether the player is bracing (true) or attacking (false).
    pub is_defensive: bool,
    /// The damage the resolution will scale.
    pub base_damage: u32,
}

impl ReflexState {
    /// A meaningful timer and an ordered window within it.
    pub open spec fn wf(self) -> bool {
        1 <= self.duration_ms && self.elapsed_ms <= self.duration_ms && self.window_start
            <= self.window_end <= 1000 && self.base_damage <= REFLEX_DAMAGE_CAP
    }

    /// The elapsed fraction in thousandths.
    pub open spec fn fraction_mils_spec(self) -> u32 {
        min_u32(((self.elapsed_ms * 1000) / self.duration_ms as int) as u32, 1000)
    }

    /// A reflex gating the player's own attack: a one-second telegraph with
    /// the perfect window over its eighth tenth.
    pub fn new_offensive(base_damage: u32) -> (r: ReflexState)
        requires
            base_damage <= REFLEX_DAMAGE_CAP,
        ensures
            r.wf(),
            r == (ReflexState {
                duration_ms: 1000u32,
                elapsed_ms: 0u32,
                window_start: 700u32,
                window_end: 800u32,
                result: Option::<ReflexSuccess>::None,
                is_defensive: false,
                base_damage,
            }),
    {
        ReflexState {
            duration_ms: 1000,
            elapsed_ms: 0,
            window_start: 700,
            window_end: 800,
            result: None,
            is_defensive: false,
            base_damage,
        }
    }

    /// A reflex bracing against an enemy attack: a one-second telegraph with
    /// a wider perfect window.
    pub fn new_defensive(base_damage: u32) -> (r: ReflexState)
        requires
            base_damage <= REFLEX_DAMAGE_CAP,
        ensures
            r.wf(),
            r == (ReflexState {
                duration_ms: 1000u32,
                elapsed_ms: 0u32,
                window_start: 700u32,
                window_end: 900u32,
                result: Option::<ReflexSuccess>::None,
                is_defensive: true,
                base_damage,
            }),
    {
        ReflexState {
            duration_ms: 1000,
            elapsed_ms: 0,
            window_start: 700,
            window_end: 900,
            result: None,
            is_defensive: true,
            base_damage,
        }
    }

    /// Whether the timer has run out.
    pub fn expired(&self) -> (r: bool)
        ensures
            r == (self.elapsed_ms >= self.duration_ms),
    {
        self.elapsed_ms >= self.duration_ms
    }

    /// Advance the timer by an externally supplied elapsed-time delta; the
    /// timer clamps at its duration.
    pub fn tick(&mut self, delta_ms: u32)
        ensures
            *final(self) == (ReflexState {
                elapsed_ms: ticked_elapsed(*old(self), delta_ms),
                ..*old(self)
            }),
            old(self).wf() ==> final(self).wf(),
    {
        let advanced = self.elapsed_ms.saturating_add(delta_ms);
        self.elapsed_ms = if advanced <= self.duration_ms {
            advanced
        } else {
            self.duration_ms
        };
    }

    /// The elapsed fraction in thousandths.
    pub fn fraction_mils(&self) -> (f: u32)
        requires
            self.wf(),
        ensures
            f == self.fraction_mils_spec(),
            f <= 1000,
            f == 1000 <==> self.elapsed_ms == self.duration_ms,
    {
        let raw = ((self.elapsed_ms as u64) * 1000) / (self.duration_ms as u64);
        proof {
            assert((self.elapsed_ms * 1000 / (self.duration_ms as int)) <= 1000) by (
            nonlinear_arith)
                requires
                    self.elapsed_ms <= self.duration_ms,
                    1 <= self.duration_ms,
            ;
            assert(self.elapsed_ms < self.duration_ms ==> (self.elapsed_ms * 1000 / (
            self.duration_ms as int)) < 1000) by (nonlinear_arith)
                requires
                    1 <= self.duration_ms,
            ;
            assert(self.elapsed_ms == self.duration_ms ==> (self.elapsed_ms * 1000 / (
            self.duration_ms as int)) == 1000) by (nonlinear_arith)
                requires
                    1 <= self.duration_ms,
            ;
        }
        raw as u32
    }

    /// An external input resolves the reflex: if no result is set yet, the
    /// elapsed fraction is scored against the perfect window, except that
    /// input on or after expiry is always a Miss. A result already set is
    /// never overwritten.
    pub fn trigger(&mut self)
        requires
            old(self).wf(),
        ensures
            final(self).wf(),
            old(self).result is Some ==> *final(self) == *old(self),
            old(self).result is None && old(self).elapsed_ms >= old(self).duration_ms
                ==> *final(self) == (ReflexState {
                result: Some(ReflexSuccess::Miss),
                ..*old(self)
            }),
            old(self).result is None && old(self).elapsed_ms < old(self).duration_ms
                ==> *final(self) == (ReflexState {
                result: Some(
                    score_at_spec(
                        old(self).fraction_mils_spec(),
                        old(self).window_start,
                        old(self).window_end,
                    ),
                ),
                ..*old(self)
            }),
    {
        if self.result.is_none() {
            if self.elapsed_ms >= self.duration_ms {
                self.result = Some(ReflexSuccess::Miss);
            } else {
                let f = self.fraction_mils();
                self.result = Some(score_at(f, self.window_start, self.window_end));
            }
        }
    }

    /// Timeout resolution: an expired reflex that never saw input resolves
    /// to a Miss.
    pub fn resolve_timeout(&mut self) -> (r: ReflexSuccess)
        requires
            old(self).result is None,
            old(self).elapsed_ms >= old(self).duration_ms,
        ensures
            r == ReflexSuccess::Miss,
            *final(self) == (ReflexState { result: Some(ReflexSuccess::Miss), ..*old(self) }),
    {
        self.result = Some(ReflexSuccess::Miss);
        ReflexSuccess::Miss
    }
}

/// Law: reflex scoring at the boundaries. An input captured exactly at the
/// window's start scores Perfect; an input more than a tenth before the
/// window's start scores Miss; and (by the contracts of
/// [`ReflexState::trigger`] and [`ReflexState::resolve_timeout`]) expiry
/// without input always yields Miss.
pub proof fn lemma_reflex_boundaries(start: u32, end: u32)
    requires
        start <= end,
    ensures
        score_at_spec(start, start, end) == ReflexSuccess::Perfect,
        forall|f: u32| f + BAND_MILS < start ==> score_at_spec(f, start, end) == ReflexSuccess::Miss,
{
}

} // verus!
