//! The elemental spell accumulator: essence-modifier cards build up bonus
//! damage and block, opposite elements cancel each other, and a rolling
//! three-element history window detects combos. A spell-source card consumes
//! the whole accumulator.
use vstd::prelude::*;

use crate::VALUE_CAP;
use crate::status::cap_add;
use crate::status::sat_sub;
use crate::status::saturating_cap_add;
use crate::status::saturating_sub;

verus! {

/// The element an essence card carries.
#[derive(Clone, Copy, Debug, PartialEq, Eq, Structural)]
pub enum SpellElement {
    Neutral,
    Fire,
    Ice,
    Wind,
    Stone,
}

/// One pending essence: its element and its damage/block contribution.
#[derive(Clone, Copy, Debug, PartialEq, Eq, Structural)]
pub struct EssenceInfo {
    pub element: SpellElement,
    pub damage: u32,
    pub block: u32,
}

/// The combo a full three-element history window forms.
#[derive(Clone, Copy, Debug, PartialEq, Eq, Structural)]
pub enum ComboKind {
    /// Fire, Ice, Wind in that order: +20 bonus damage.
    ThermalUpdraft,
    /// Wind, Fire, Stone in that order: +20 bonus block.
    VolcanicAsh,
    /// Three distinct non-neutral elements in any other order: +10 damage
    /// and +10 block.
    Convergence,
    /// Anything else: the window slides.
    NoCombo,
}

/// Which bools travel with a cast spell: the set of distinct elements among
/// its essences.
#[derive(Clone, Copy, Debug, PartialEq, Eq, Structural)]
pub struct ElementFlags {
    pub fire: bool,
    pub ice: bool,
    pub wind: bool,
    pub stone: bool,
}

/// Mathematical model of the accumulator.
#[verifier::ext_equal]
pub ghost struct SpellModel {
    pub bonus_damage: u32,
    pub bonus_block: u32,
    pub element: SpellElement,
    pub essences: Seq<EssenceInfo>,
    pub history: Seq<SpellElement>,
}

/// The element that cancels `e`.
pub open spec fn opposite_of(e: SpellElement) -> SpellElement {
    match e {
        SpellElement::Fire => SpellElement::Ice,
        SpellElement::Ice => SpellElement::Fire,
        SpellElement::Wind => SpellElement::Stone,
        SpellElement::Stone => SpellElement::Wind,
        SpellElement::Neutral => SpellElement::Neutral,
    }
}

/// Executable counterpart of [`opposite_of`].
pub fn opposite_element(e: SpellElement) -> (r: SpellElement)
    ensures
        r == opposite_of(e),
{
    match e {
        SpellElement::Fire => SpellElement::Ice,
        SpellElement::Ice => SpellElement::Fire,
        SpellElement::Wind => SpellElement::Stone,
        SpellElement::Stone => SpellElement::Wind,
        SpellElement::Neutral => SpellElement::Neutral,
    }
}

/// Index of the first pending essence of element `e`, or -1 if none is
/// pending.
pub open spec fn first_index_matching(s: Seq<EssenceInfo>, e: SpellElement) -> int
    decreases s.len(),
{
    if s.len() == 0 {
        -1
    } else if s[0].element == e {
        0
    } else {
        let r = first_index_matching(s.drop_first(), e);
        if r == -1 {
            -1
        } else {
            r + 1
        }
    }
}

/// What [`first_index_matching`] returns: either -1 and no essence matches,
/// or the first matching position.
pub proof fn lemma_first_index_matching(s: Seq<EssenceInfo>, e: SpellElement)
    ensures
        first_index_matching(s, e) == -1 ==> forall|j: int|
            0 <= j < s.len() ==> s[j].element != e,
        first_index_matching(s, e) != -1 ==> 0 <= first_index_matching(s, e) < s.len()
            && s[first_index_matching(s, e)].element == e,
        first_index_matching(s, e) != -1 ==> forall|j: int|
            0 <= j < first_index_matching(s, e) ==> s[j].element != e,
    decreases s.len(),
{
    if s.len() > 0 && s[0].element != e {
        let rest = s.drop_first();
        lemma_first_index_matching(rest, e);
        let r = first_index_matching(rest, e);
        if r == -1 {
            assert forall|j: int| 0 <= j < s.len() implies s[j].element != e by {
                if j >= 1 {
                    assert(s[j] == rest[j - 1]);
                }
            }
        } else {
            assert(s[r + 1] == rest[r]);
            assert forall|j: int| 0 <= j < r + 1 implies s[j].element != e by {
                if j >= 1 {
                    assert(s[j] == rest[j - 1]);
                }
            }
        }
    }
}

/// Index of the first history entry of element `e`, or -1 if the window
/// holds none.
pub open spec fn first_element_index(h: Seq<SpellElement>, e: SpellElement) -> int
    decreases h.len(),
{
    if h.len() == 0 {
        -1
    } else if h[0] == e {
        0
    } else {
        let r = first_element_index(h.drop_first(), e);
        if r == -1 {
            -1
        } else {
            r + 1
        }
    }
}

/// What [`first_element_index`] returns: either -1 and no entry matches, or
/// the first matching position.
pub proof fn lemma_first_element_index(h: Seq<SpellElement>, e: SpellElement)
    ensures
        first_element_index(h, e) == -1 ==> forall|j: int| 0 <= j < h.len() ==> h[j] != e,
        first_element_index(h, e) != -1 ==> 0 <= first_element_index(h, e) < h.len() && h[
            first_element_index(h, e)] == e,
        first_element_index(h, e) != -1 ==> forall|j: int|
            0 <= j < first_element_index(h, e) ==> h[j] != e,
    decreases h.len(),
{
    if h.len() > 0 && h[0] != e {
        let rest = h.drop_first();
        lemma_first_element_index(rest, e);
        let r = first_element_index(rest, e);
        if r == -1 {
            assert forall|j: int| 0 <= j < h.len() implies h[j] != e by {
                if j >= 1 {
                    assert(h[j] == rest[j - 1]);
                }
            }
        } else {
            assert(h[r + 1] == rest[r]);
            assert forall|j: int| 0 <= j < r + 1 implies h[j] != e by {
                if j >= 1 {
                    assert(h[j] == rest[j - 1]);
                }
            }
        }
    }
}

/// The history window with the first entry of element `e` dropped, if one
/// is there: cancellation scrubs the cancelled element out of the window.
pub open spec fn scrubbed_history(h: Seq<SpellElement>, e: SpellElement) -> Seq<SpellElement> {
    let idx = first_element_index(h, e);
    if idx == -1 {
        h
    } else {
        h.remove(idx)
    }
}

/// Whether any essence in `s` carries element `e`.
pub open spec fn has_element(s: Seq<EssenceInfo>, e: SpellElement) -> bool {
    exists|i: int| 0 <= i < s.len() && s[i].element == e
}

/// The combo formed by the last three entries of `h` (meaningful once `h`
/// holds at least three).
pub open spec fn combo_kind(h: Seq<SpellElement>) -> ComboKind {
    let n = h.len() as int;
    let first = h[n - 3];
    let second = h[n - 2];
    let third = h[n - 1];
    if first == SpellElement::Fire && second == SpellElement::Ice && third == SpellElement::Wind {
        ComboKind::ThermalUpdraft
    } else if first == SpellElement::Wind && second == SpellElement::Fire && third
        == SpellElement::Stone {
        ComboKind::VolcanicAsh
    } else if first != second && second != third && first != third && first
        != SpellElement::Neutral && second != SpellElement::Neutral && third
        != SpellElement::Neutral {
        ComboKind::Convergence
    } else {
        ComboKind::NoCombo
    }
}

/// The accumulator after casting an essence-modifier card of `element` with
/// the given damage and block contributions. If the element's opposite is
/// pending, the first such essence is removed, its contribution is taken
/// back, and the opposite's first entry is scrubbed out of the history
/// window; otherwise the essence is appended, the history grows, and a full
/// three-element window scores a combo or slides.
///
/// The scrub keeps the window truthful — a cancelled essence can no longer
/// complete a combo — but it also means the two elements of an opposite
/// pair never stand together in a window built by casts alone, since the
/// later of the pair always cancels the earlier while any of it is still
/// pending. The ordered combo windows therefore only arise from window
/// states prepared by other means; the window laws below are stated over
/// such states.
pub open spec fn cast_modifier_model(
    s: SpellModel,
    element: SpellElement,
    damage: u32,
    block: u32,
) -> SpellModel {
    let opp = opposite_of(element);
    let idx = first_index_matching(s.essences, opp);
    if opp != SpellElement::Neutral && idx != -1 {
        let removed = s.essences[idx];
        let rest = s.essences.remove(idx);
        SpellModel {
            bonus_damage: sat_sub(s.bonus_damage, removed.damage),
            bonus_block: sat_sub(s.bonus_block, removed.block),
            element: if rest.len() > 0 {
                rest.last().element
            } else {
                SpellElement::Neutral
            },
            essences: rest,
            history: scrubbed_history(s.history, opp),
        }
    } else {
        let d1 = cap_add(s.bonus_damage, damage);
        let b1 = cap_add(s.bonus_block, block);
        let ess1 = s.essences.push(EssenceInfo { element, damage, block });
        let h1 = s.history.push(element);
        if h1.len() >= 3 {
            match combo_kind(h1) {
                ComboKind::ThermalUpdraft => SpellModel {
                    bonus_damage: cap_add(d1, 20),
                    bonus_block: b1,
                    element,
                    essences: ess1,
                    history: Seq::empty(),
                },
                ComboKind::VolcanicAsh => SpellModel {
                    bonus_damage: d1,
                    bonus_block: cap_add(b1, 20),
                    element,
                    essences: ess1,
                    history: Seq::empty(),
                },
                ComboKind::Convergence => SpellModel {
                    bonus_damage: cap_add(d1, 10),
                    bonus_block: cap_add(b1, 10),
                    element,
                    essences: ess1,
                    history: Seq::empty(),
                },
                ComboKind::NoCombo => SpellModel {
                    bonus_damage: d1,
                    bonus_block: b1,
                    element,
                    essences: ess1,
                    history: h1.drop_first(),
                },
            }
        } else {
            SpellModel { bonus_damage: d1, bonus_block: b1, element, essences: ess1, history: h1 }
        }
    }
}

impl SpellModel {
    /// The empty accumulator.
    pub open spec fn empty() -> SpellModel {
        SpellModel {
            bonus_damage: 0,
            bonus_block: 0,
            element: SpellElement::Neutral,
            essences: Seq::empty(),
            history: Seq::empty(),
        }
    }

    /// Bonuses within the cap and the rolling window at most two entries at
    /// rest.
    pub open spec fn wf(self) -> bool {
        self.bonus_damage <= VALUE_CAP && self.bonus_block <= VALUE_CAP && self.history.len() <= 2
    }
}

/// The player's per-turn spell accumulator.
#[derive(Debug)]
pub struct ActiveSpell {
    pub bonus_damage: u32,
    pub bonus_block: u32,
    pub element: SpellElement,
    pub essences: Vec<EssenceInfo>,
    pub essence_history: Vec<SpellElement>,
}

impl View for ActiveSpell {
    type V = SpellModel;

    open spec fn view(&self) -> SpellModel {
        SpellModel {
            bonus_damage: self.bonus_damage,
            bonus_block: self.bonus_block,
            element: self.element,
            essences: self.essences@,
            history: self.essence_history@,
        }
    }
}

impl ActiveSpell {
    pub fn new() -> (s: ActiveSpell)
        ensures
            s@ == SpellModel::empty(),
    {
        let s = ActiveSpell {
            bonus_damage: 0,
            bonus_block: 0,
            element: SpellElement::Neutral,
            essences: Vec::new(),
            essence_history: Vec::new(),
        };
        proof {
            assert(s@ =~= SpellModel::empty());
        }
        s
    }

    /// Index of the first pending essence of element `e`.
    fn find_essence(&self, e: SpellElement) -> (r: Option<usize>)
        ensures
            match r {
                Some(i) => first_index_matching(self.essences@, e) == i && i
                    < self.essences@.len(),
                None => first_index_matching(self.essences@, e) == -1,
            },
    {
        proof {
            lemma_first_index_matching(self.essences@, e);
        }
        let mut i: usize = 0;
        while i < self.essences.len()
            invariant
                i <= self.essences@.len(),
                forall|j: int| 0 <= j < i ==> self.essences@[j].element != e,
                first_index_matching(self.essences@, e) == -1 ==> forall|j: int|
                    0 <= j < self.essences@.len() ==> self.essences@[j].element != e,
                first_index_matching(self.essences@, e) != -1 ==> 0 <= first_index_matching(
                    self.essences@,
                    e,
                ) < self.essences@.len() && self.essences@[first_index_matching(self.essences@, e)].element
                    == e,
                first_index_matching(self.essences@, e) != -1 ==> forall|j: int|
                    0 <= j < first_index_matching(self.essences@, e) ==> self.essences@[j].element
                        != e,
            decreases self.essences@.len() - i,
        {
            if self.essences[i].element == e {
                return Some(i);
            }
            i = i + 1;
        }
        None
    }

    /// Index of the first history entry of element `e`.
    fn find_history(&self, e: SpellElement) -> (r: Option<usize>)
        ensures
            match r {
                Some(i) => first_element_index(self.essence_history@, e) == i && i
                    < self.essence_history@.len(),
                None => first_element_index(self.essence_history@, e) == -1,
            },
    {
        proof {
            lemma_first_element_index(self.essence_history@, e);
        }
        let mut i: usize = 0;
        while i < self.essence_history.len()
            invariant
                i <= self.essence_history@.len(),
                forall|j: int| 0 <= j < i ==> self.essence_history@[j] != e,
                first_element_index(self.essence_history@, e) == -1 ==> forall|j: int|
                    0 <= j < self.essence_history@.len() ==> self.essence_history@[j] != e,
                first_element_index(self.essence_history@, e) != -1 ==> 0 <= first_element_index(
                    self.essence_history@,
                    e,
                ) < self.essence_history@.len() && self.essence_history@[first_element_index(
                    self.essence_history@,
                    e,
                )] == e,
                first_element_index(self.essence_history@, e) != -1 ==> forall|j: int|
                    0 <= j < first_element_index(self.essence_history@, e)
                        ==> self.essence_history@[j] != e,
            decreases self.essence_history@.len() - i,
        {
            if self.essence_history[i] == e {
                return Some(i);
            }
            i = i + 1;
        }
        None
    }

    /// Cast an essence-modifier card: cancellation of the pending opposite
    /// (which also scrubs the opposite's first entry out of the window), or
    /// accumulation with combo detection on the three-element window.
    pub fn cast_modifier(&mut self, element: SpellElement, damage: u32, block: u32)
        ensures
            final(self)@ == cast_modifier_model(old(self)@, element, damage, block),
            old(self)@.wf() ==> final(self)@.wf(),
    {
        let opp = opposite_element(element);
        let cancel_idx: Option<usize> = if opp != SpellElement::Neutral {
            self.find_essence(opp)
        } else {
            proof {
                lemma_first_index_matching(self.essences@, opp);
            }
            None
        };
        match cancel_idx {
            Some(idx) => {
                let removed = self.essences.remove(idx);
                self.bonus_damage = saturating_sub(self.bonus_damage, removed.damage);
                self.bonus_block = saturating_sub(self.bonus_block, removed.block);
                if self.essences.len() > 0 {
                    self.element = self.essences[self.essences.len() - 1].element;
                } else {
                    self.element = SpellElement::Neutral;
                }
                match self.find_history(opp) {
                    Some(hidx) => {
                        self.essence_history.remove(hidx);
                    },
                    None => {},
                }
                proof {
                    assert(self@ =~= cast_modifier_model(old(self)@, element, damage, block));
                }
            },
            None => {
                self.bonus_damage = saturating_cap_add(self.bonus_damage, damage);
                self.bonus_block = saturating_cap_add(self.bonus_block, block);
                self.element = element;
                self.essences.push(EssenceInfo { element, damage, block });
                self.essence_history.push(element);
                if self.essence_history.len() >= 3 {
                    match detect_combo(&self.essence_history) {
                        ComboKind::ThermalUpdraft => {
                            self.bonus_damage = saturating_cap_add(self.bonus_damage, 20);
                            self.essence_history.clear();
                        },
                        ComboKind::VolcanicAsh => {
                            self.bonus_block = saturating_cap_add(self.bonus_block, 20);
                            self.essence_history.clear();
                        },
                        ComboKind::Convergence => {
                            self.bonus_damage = saturating_cap_add(self.bonus_damage, 10);
                            self.bonus_block = saturating_cap_add(self.bonus_block, 10);
                            self.essence_history.clear();
                        },
                        ComboKind::NoCombo => {
                            self.essence_history.remove(0);
                            proof {
                                assert(self.essence_history@ =~= old(
                                    self,
                                )@.history.push(element).drop_first());
                            }
                        },
                    }
                }
                proof {
                    assert(self@ =~= cast_modifier_model(old(self)@, element, damage, block));
                }
            },
        }
    }

    /// The set of distinct elements among the pending essences.
    pub fn element_flags(&self) -> (flags: ElementFlags)
        ensures
            flags.fire == has_element(self@.essences, SpellElement::Fire),
            flags.ice == has_element(self@.essences, SpellElement::Ice),
            flags.wind == has_element(self@.essences, SpellElement::Wind),
            flags.stone == has_element(self@.essences, SpellElement::Stone),
    {
        let mut flags = ElementFlags { fire: false, ice: false, wind: false, stone: false };
        let mut i: usize = 0;
        while i < self.essences.len()
            invariant
                i <= self.essences@.len(),
                flags.fire == exists|j: int|
                    0 <= j < i && self.essences@[j].element == SpellElement::Fire,
                flags.ice == exists|j: int|
                    0 <= j < i && self.essences@[j].element == SpellElement::Ice,
                flags.wind == exists|j: int|
                    0 <= j < i && self.essences@[j].element == SpellElement::Wind,
                flags.stone == exists|j: int|
                    0 <= j < i && self.essences@[j].element == SpellElement::Stone,
            decreases self.essences@.len() - i,
        {
            match self.essences[i].element {
                SpellElement::Fire => { flags.fire = true; },
                SpellElement::Ice => { flags.ice = true; },
                SpellElement::Wind => { flags.wind = true; },
                SpellElement::Stone => { flags.stone = true; },
                SpellElement::Neutral => {},
            }
            i = i + 1;
        }
        flags
    }

    /// Consume the accumulator: hand back the accumulated bonus damage and
    /// block and the distinct elements cast, and reset to empty.
    pub fn consume(&mut self) -> (r: (u32, u32, ElementFlags))
        ensures
            r.0 == old(self)@.bonus_damage,
            r.1 == old(self)@.bonus_block,
            r.2.fire == has_element(old(self)@.essences, SpellElement::Fire),
            r.2.ice == has_element(old(self)@.essences, SpellElement::Ice),
            r.2.wind == has_element(old(self)@.essences, SpellElement::Wind),
            r.2.stone == has_element(old(self)@.essences, SpellElement::Stone),
            final(self)@ == SpellModel::empty(),
    {
        let flags = self.element_flags();
        let bonus_damage = self.bonus_damage;
        let bonus_block = self.bonus_block;
        self.bonus_damage = 0;
        self.bonus_block = 0;
        self.element = SpellElement::Neutral;
        self.essences.clear();
        self.essence_history.clear();
        proof {
            assert(self@ =~= SpellModel::empty());
        }
        (bonus_damage, bonus_block, flags)
    }

    /// Consume the accumulator for a spell-source card: the card's own
    /// damage and block plus the accumulated bonuses, together with the
    /// distinct elements cast; the accumulator resets to empty.
    pub fn cast_source(&mut self, card_damage: u32, card_block: u32) -> (r: (u32, u32, ElementFlags))
        requires
            old(self)@.bonus_damage <= VALUE_CAP,
            old(self)@.bonus_block <= VALUE_CAP,
            card_damage <= VALUE_CAP,
            card_block <= VALUE_CAP,
        ensures
            r.0 == old(self)@.bonus_damage + card_damage,
            r.1 == old(self)@.bonus_block + card_block,
            r.2.fire == has_element(old(self)@.essences, SpellElement::Fire),
            r.2.ice == has_element(old(self)@.essences, SpellElement::Ice),
            r.2.wind == has_element(old(self)@.essences, SpellElement::Wind),
            r.2.stone == has_element(old(self)@.essences, SpellElement::Stone),
            final(self)@ == SpellModel::empty(),
    {
        let (bonus_damage, bonus_block, flags) = self.consume();
        (bonus_damage + card_damage, bonus_block + card_block, flags)
    }

    /// Reset the accumulator at the start of a player turn.
    pub fn reset(&mut self)
        ensures
            final(self)@ == SpellModel::empty(),
    {
        self.bonus_damage = 0;
        self.bonus_block = 0;
        self.element = SpellElement::Neutral;
        self.essences.clear();
        self.essence_history.clear();
        proof {
            assert(self@ =~= SpellModel::empty());
        }
    }
}

/// The combo formed by the last three entries of `history`.
pub fn detect_combo(history: &Vec<SpellElement>) -> (r: ComboKind)
    requires
        history@.len() >= 3,
    ensures
        r == combo_kind(history@),
{
    let n = history.len();
    let first = history[n - 3];
    let second = history[n - 2];
    let third = history[n - 1];
    if first == SpellElement::Fire && second == SpellElement::Ice && third == SpellElement::Wind {
        ComboKind::ThermalUpdraft
    } else if first == SpellElement::Wind && second == SpellElement::Fire && third
        == SpellElement::Stone {
        ComboKind::VolcanicAsh
    } else if first != second && second != third && first != third && first
        != SpellElement::Neutral && second != SpellElement::Neutral && third
        != SpellElement::Neutral {
        ComboKind::Convergence
    } else {
        ComboKind::NoCombo
    }
}

/// Law: elemental cancellation undoes an essence entirely. From an
/// accumulator with no pending Fire and no pending Ice and a window free of
/// both, casting Fire and then Ice (when the Fire cast does not itself
/// complete a combo window and its contribution does not reach the cap)
/// leaves the pending essences and both bonuses exactly as they were before
/// the Fire cast — the Ice essence is never added and the Fire essence is
/// removed with its contribution subtracted back out — and the history
/// window contains neither Fire nor Ice: the cancelled element is scrubbed
/// out and the cancelling one never enters.
pub proof fn lemma_fire_then_ice_cancels(
    s: SpellModel,
    fire_damage: u32,
    fire_block: u32,
    ice_damage: u32,
    ice_block: u32,
)
    requires
        first_index_matching(s.essences, SpellElement::Fire) == -1,
        first_index_matching(s.essences, SpellElement::Ice) == -1,
        !s.history.contains(SpellElement::Fire),
        !s.history.contains(SpellElement::Ice),
        s.bonus_damage + fire_damage <= VALUE_CAP,
        s.bonus_block + fire_block <= VALUE_CAP,
        s.history.push(SpellElement::Fire).len() < 3 || combo_kind(
            s.history.push(SpellElement::Fire),
        ) == ComboKind::NoCombo,
    ensures
        ({
            let s1 = cast_modifier_model(s, SpellElement::Fire, fire_damage, fire_block);
            let s2 = cast_modifier_model(s1, SpellElement::Ice, ice_damage, ice_block);
            &&& s2.essences == s.essences
            &&& s2.bonus_damage == s.bonus_damage
            &&& s2.bonus_block == s.bonus_block
            &&& !s2.history.contains(SpellElement::Fire)
            &&& !s2.history.contains(SpellElement::Ice)
        }),
{
    let s1 = cast_modifier_model(s, SpellElement::Fire, fire_damage, fire_block);
    lemma_first_index_matching(s.essences, SpellElement::Ice);
    assert(s1.essences == s.essences.push(
        EssenceInfo { element: SpellElement::Fire, damage: fire_damage, block: fire_block },
    ));
    lemma_first_index_push(s.essences, SpellElement::Fire, fire_damage, fire_block);
    let s2 = cast_modifier_model(s1, SpellElement::Ice, ice_damage, ice_block);
    assert(s2.essences =~= s.essences);

    // The Fire cast leaves the window as the old one plus Fire at the end,
    // possibly with the oldest entry slid out.
    let h1 = s.history.push(SpellElement::Fire);
    let hist1 = s1.history;
    assert(hist1 == h1 || hist1 == h1.drop_first());
    assert(hist1.len() >= 1 && hist1.last() == SpellElement::Fire);
    assert forall|j: int| 0 <= j < hist1.len() - 1 implies hist1[j] != SpellElement::Fire
        && hist1[j] != SpellElement::Ice by {
        let in_old: int = if hist1 == h1 {
            j
        } else {
            j + 1
        };
        assert(hist1[j] == s.history[in_old]);
        if s.history[in_old] == SpellElement::Fire {
            assert(s.history.contains(SpellElement::Fire));
        }
        if s.history[in_old] == SpellElement::Ice {
            assert(s.history.contains(SpellElement::Ice));
        }
    }

    // The Ice cast scrubs that Fire — the only one — back out.
    lemma_first_element_index(hist1, SpellElement::Fire);
    let fidx = first_element_index(hist1, SpellElement::Fire);
    assert(fidx == hist1.len() - 1) by {
        if fidx == -1 {
            assert(hist1[hist1.len() - 1] != SpellElement::Fire);
        }
    }
    assert(s2.history == hist1.remove(hist1.len() - 1));
    assert(s2.history =~= hist1.drop_last());
    assert forall|j: int| 0 <= j < s2.history.len() implies s2.history[j] != SpellElement::Fire
        && s2.history[j] != SpellElement::Ice by {
        assert(s2.history[j] == hist1[j]);
    }
    if s2.history.contains(SpellElement::Fire) {
        let j = choose|j: int| 0 <= j < s2.history.len() && s2.history[j] == SpellElement::Fire;
        assert(s2.history[j] != SpellElement::Fire);
    }
    if s2.history.contains(SpellElement::Ice) {
        let j = choose|j: int| 0 <= j < s2.history.len() && s2.history[j] == SpellElement::Ice;
        assert(s2.history[j] != SpellElement::Ice);
    }
}

/// Appending an essence of element `e` to a sequence with no essence of
/// element `e` makes the appended entry the first match.
proof fn lemma_first_index_push(s: Seq<EssenceInfo>, e: SpellElement, damage: u32, block: u32)
    requires
        first_index_matching(s, e) == -1,
    ensures
        first_index_matching(s.push(EssenceInfo { element: e, damage, block }), e) == s.len(),
    decreases s.len(),
{
    lemma_first_index_matching(s, e);
    let pushed = s.push(EssenceInfo { element: e, damage, block });
    if s.len() == 0 {
        assert(pushed[0].element == e);
    } else {
        assert(s[0].element != e);
        lemma_first_index_matching(s.drop_first(), e);
        assert(first_index_matching(s.drop_first(), e) == -1);
        assert(pushed[0] == s[0]);
        lemma_first_index_push(s.drop_first(), e, damage, block);
        assert(pushed.drop_first() =~= s.drop_first().push(
            EssenceInfo { element: e, damage, block },
        ));
    }
}

/// Law: the three-element window Fire, Ice, Wind scores exactly once. From
/// an accumulator whose history already reads Fire, Ice and with no pending
/// Stone essence (which would cancel the Wind cast), casting a Wind essence
/// raises the bonus damage by the essence's own damage plus exactly 20, and
/// empties the history window so the same three casts cannot score again.
/// Because cancellation scrubs the window, casting Fire, Ice, Wind
/// literally never reaches this window — the Ice cast cancels the pending
/// Fire instead — so the law is stated of the window itself.
pub proof fn lemma_fire_ice_wind_combo(s: SpellModel, wind_damage: u32, wind_block: u32)
    requires
        s.history == seq![SpellElement::Fire, SpellElement::Ice],
        first_index_matching(s.essences, SpellElement::Stone) == -1,
    ensures
        ({
            let s2 = cast_modifier_model(s, SpellElement::Wind, wind_damage, wind_block);
            &&& s2.bonus_damage == cap_add(cap_add(s.bonus_damage, wind_damage), 20)
            &&& s2.bonus_block == cap_add(s.bonus_block, wind_block)
            &&& s2.history == Seq::<SpellElement>::empty()
        }),
{
    let h1 = s.history.push(SpellElement::Wind);
    assert(h1[0] == SpellElement::Fire);
    assert(h1[1] == SpellElement::Ice);
    assert(h1[2] == SpellElement::Wind);
    assert(combo_kind(h1) == ComboKind::ThermalUpdraft);
}

} // verus!
