//! The turn state machine and combat session controller: one battle's
//! combatants, piles, phase, enemy queue and in-flight reflex, with the
//! phase transitions of the combat loop. External collaborators submit
//! intents, drive the cooperative steps, and read the mutated state back.
use vstd::prelude::*;

use crate::VALUE_CAP;
use crate::damage::absorb;
use crate::damage::attack_damage;
use crate::damage::attack_damage_spec;
use crate::damage::min_u32;
use crate::enemies::EnemyKind;
use crate::enemies::NextEnemyMove;
use crate::enemies::enemy_max_health;
use crate::enemies::enemy_max_health_spec;
use crate::enemies::generate_move_spec;
use crate::enemies::move_wf;
use crate::enemies::roll_enemy_move;
use crate::item_cards::Card;
use crate::item_cards::CardModel;
use crate::item_cards::CharacterClass;
use crate::item_potions::Potion;
use crate::item_relics::Relic;
use crate::item_relics::has_relic;
use crate::reflex::REFLEX_DAMAGE_CAP;
use crate::reflex::ReflexState;
use crate::reflex::ReflexSuccess;
use crate::reflex::scaled_damage;
use crate::reflex::scaled_damage_spec;
use crate::reflex::score_at_spec;
use crate::reflex::ticked_elapsed;
use crate::rng::shuffle_vec;
use crate::spell::ActiveSpell;
use crate::spell::ElementFlags;
use crate::spell::SpellElement;
use crate::spell::SpellModel;
use crate::spell::cast_modifier_model;
use crate::spell::has_element;
use crate::status::StatusKind;
use crate::status::StatusStore;
use crate::status::cap_add;
use crate::status::fade;
use crate::status::saturating_cap_add;
use vstd::assert_by_contradiction;
use vstd::multiset::Multiset;

verus! {

broadcast use vstd::seq_lib::group_to_multiset_ensures;

/// Lowest value a health pool can reach: far below anything one resolution
/// step can subtract from a living combatant.
pub const HEALTH_FLOOR: i64 = -100_000_000;

/// All cards of a battle taken together, wherever they currently sit.
pub open spec fn piles_multiset(hand: Seq<Card>, deck: Seq<Card>, discard: Seq<Card>) -> Multiset<
    Card,
> {
    hand.to_multiset().add(deck.to_multiset()).add(discard.to_multiset())
}

/// Two piles holding the same cards are well-formed together.
proof fn lemma_pile_wf_from_multiset(a: Seq<Card>, b: Seq<Card>)
    requires
        a.to_multiset() == b.to_multiset(),
        pile_wf(a),
    ensures
        pile_wf(b),
{
    assert forall|i: int| 0 <= i < b.len() implies (#[trigger] b[i]@).wf() by {
        assert(b.contains(b[i]));
        assert(b.to_multiset().count(b[i]) > 0);
        assert(a.to_multiset().count(b[i]) > 0);
        assert(a.contains(b[i]));
        let j = choose|j: int| 0 <= j < a.len() && a[j] == b[i];
        assert(a[j]@.wf());
    }
}

/// Draw up to five cards from the deck into the hand, reshuffling the
/// discard pile into the deck when the deck runs dry. No card is created or
/// lost, and the hand grows by five or by however many cards the piles
/// still held.
fn draw_up_to_five(deck: &mut Vec<Card>, discard: &mut Vec<Card>, hand: &mut Vec<Card>)
    requires
        pile_wf(old(deck)@),
        pile_wf(old(discard)@),
        pile_wf(old(hand)@),
    ensures
        pile_wf(final(deck)@),
        pile_wf(final(discard)@),
        pile_wf(final(hand)@),
        final(hand)@.len() == old(hand)@.len() + if old(deck)@.len() + old(discard)@.len() >= 5 {
            5int
        } else {
            old(deck)@.len() + old(discard)@.len() as int
        },
        piles_multiset(final(hand)@, final(deck)@, final(discard)@) == piles_multiset(
            old(hand)@,
            old(deck)@,
            old(discard)@,
        ),
{
    let ghost orig_hand = hand@;
    let ghost orig_total = piles_multiset(hand@, deck@, discard@);
    let ghost orig_count = deck@.len() + discard@.len();
    let mut k: usize = 0;
    while k < 5
        invariant_except_break
            k <= 5,
            pile_wf(deck@),
            pile_wf(discard@),
            pile_wf(hand@),
            hand@.len() == orig_hand.len() + k,
            deck@.len() + discard@.len() == orig_count - k,
            orig_count >= k,
            piles_multiset(hand@, deck@, discard@) == orig_total,
        ensures
            pile_wf(deck@),
            pile_wf(discard@),
            pile_wf(hand@),
            piles_multiset(hand@, deck@, discard@) == orig_total,
            hand@.len() == orig_hand.len() + if orig_count >= 5 {
                5int
            } else {
                orig_count as int
            },
        decreases 5 - k,
    {
        if deck.len() == 0 {
            if discard.len() == 0 {
                proof {
                    assert(orig_count - k == 0);
                }
                break ;
            }
            proof {
                vstd::seq_lib::lemma_multiset_commutative(deck@, discard@);
            }
            let ghost pre_deck = deck@;
            let ghost pre_discard = discard@;
            deck.append(discard);
            proof {
                vstd::seq_lib::lemma_multiset_commutative(pre_deck, pre_discard);
                assert(deck@.to_multiset() =~= pre_deck.to_multiset().add(
                    pre_discard.to_multiset(),
                ));
                assert(piles_multiset(hand@, deck@, discard@) =~= orig_total);
            }
            let ghost pre_shuffle = deck@;
            shuffle_vec(deck);
            proof {
                lemma_pile_wf_from_multiset(pre_shuffle, deck@);
            }
        }
        let ghost pre_deck = deck@;
        let ghost pre_hand = hand@;
        let card = deck.pop().unwrap();
        hand.push(card);
        proof {
            assert(pre_deck.drop_last() =~= pre_deck.remove(pre_deck.len() - 1));
            assert(deck@.to_multiset() =~= pre_deck.to_multiset().remove(card));
            assert(hand@.to_multiset() =~= pre_hand.to_multiset().insert(card));
            assert(pre_deck.to_multiset().contains(card));
            assert(piles_multiset(hand@, deck@, discard@) =~= orig_total);
            assert(forall|i: int|
                0 <= i < pre_deck.len() - 1 ==> deck@[i] == #[trigger] pre_deck[i]);
        }
        k = k + 1;
    }
}

/// How much health the Burning Blood relic restores on victory.
pub const VICTORY_HEAL: u32 = 6;

/// The phases of a battle, including the two terminal outcomes.
#[derive(Clone, Copy, Debug, PartialEq, Eq, Structural)]
pub enum Phase {
    Setup,
    PlayerTurnStart,
    PlayerTurn,
    PlayerAttackAnimating,
    PlayerTurnEnd,
    EnemyTurn,
    EnemyAttackAnimating,
    Victory,
    Defeat,
}

/// A health pool. The current value may go below zero when a killing blow
/// lands; the owner is then removed from play.
#[derive(Clone, Copy, Debug, PartialEq, Eq, Structural)]
pub struct Health {
    pub current: i64,
    pub max: u32,
}

impl Health {
    pub open spec fn wf(self) -> bool {
        self.current <= self.max && HEALTH_FLOOR <= self.current && self.max <= VALUE_CAP
    }
}

/// The player's battle-local state.
#[derive(Debug)]
pub struct PlayerState {
    pub health: Health,
    pub block: u32,
    pub energy_current: u32,
    pub energy_max: u32,
    pub mana: u32,
    pub combo: u32,
    pub status: StatusStore,
    pub relics: Vec<Relic>,
    pub potions: Vec<Potion>,
    pub gold: u32,
    pub spell: ActiveSpell,
    pub class: CharacterClass,
}

impl PlayerState {
    pub open spec fn wf(self) -> bool {
        &&& self.health.wf()
        &&& self.block <= VALUE_CAP
        &&& self.energy_current <= VALUE_CAP
        &&& self.energy_max <= VALUE_CAP
        &&& self.mana <= VALUE_CAP
        &&& self.combo <= VALUE_CAP
        &&& self.gold <= VALUE_CAP
        &&& self.status.wf()
        &&& self.spell@.wf()
    }
}

/// One enemy slot. Dead enemies keep their slot so indices stay stable; they
/// are skipped, never processed.
#[derive(Debug)]
pub struct EnemyState {
    pub kind: EnemyKind,
    pub health: Health,
    pub block: u32,
    pub status: StatusStore,
    pub next_move: NextEnemyMove,
    pub alive: bool,
}

impl EnemyState {
    pub open spec fn wf(self) -> bool {
        &&& self.health.wf()
        &&& self.block <= VALUE_CAP
        &&& self.status.wf()
        &&& move_wf(self.next_move@)
        &&& self.alive <==> self.health.current >= 1
    }
}

/// A player attack waiting on its reflex resolution: the slots it will
/// strike, the damage going in, the statuses the card carries, and the
/// elements travelling with the spell.
#[derive(Debug)]
pub struct PendingAttack {
    pub targets: Vec<usize>,
    pub damage: u32,
    pub apply_poison: u32,
    pub apply_weak: u32,
    pub apply_stun: u32,
    pub flags: ElementFlags,
}

/// Why an intent was dropped. No error interrupts the battle: a rejected
/// intent leaves the session untouched.
#[derive(Clone, Copy, Debug, PartialEq, Eq, Structural)]
pub enum IntentError {
    /// The intent does not fit the current phase.
    WrongPhase,
    /// The hand index does not name a card.
    InvalidIndex,
    /// Not enough energy or mana for the card's cost.
    InsufficientResource,
}

/// One battle: combatants, piles, phase and in-flight markers. At most one
/// reflex instance exists at a time, held in `reflex`.
#[derive(Debug)]
pub struct BattleSession {
    pub player: PlayerState,
    pub enemies: Vec<EnemyState>,
    pub deck: Vec<Card>,
    pub discard: Vec<Card>,
    pub hand: Vec<Card>,
    pub phase: Phase,
    pub first_turn: bool,
    pub enemy_queue: Option<Vec<usize>>,
    pub attacking_enemy: Option<usize>,
    pub pending_attack: Option<PendingAttack>,
    pub reflex: Option<ReflexState>,
}

/// Every card of a pile satisfies the card invariant.
pub open spec fn pile_wf(pile: Seq<Card>) -> bool {
    forall|i: int| 0 <= i < pile.len() ==> (#[trigger] pile[i]@).wf()
}

/// Whether enemy slot `i` is struck by a card played with the given
/// area-effect flag and explicit target: a wind-tagged spell strikes every
/// living enemy; an explicit target strikes that slot if it is alive; no
/// explicit target strikes the first living slot.
pub open spec fn is_card_target(
    es: Seq<EnemyState>,
    wind: bool,
    target: Option<usize>,
    i: int,
) -> bool {
    &&& 0 <= i < es.len()
    &&& es[i].alive
    &&& if wind {
        true
    } else {
        match target {
            Some(idx) => i == idx,
            None => forall|j: int| 0 <= j < i ==> !(#[trigger] es[j]).alive,
        }
    }
}

/// The burning that a wind-tagged attack copies onto target `t`: the
/// (capped) sum of the burning carried by every other target, read from the
/// state before the attack lands.
pub open spec fn spread_from(es: Seq<EnemyState>, targets: Seq<usize>, t: int) -> u32
    decreases targets.len(),
{
    if targets.len() == 0 {
        0u32
    } else {
        let rest = spread_from(es, targets.drop_last(), t);
        let s = targets.last();
        if s == t || s >= es.len() {
            rest
        } else {
            cap_add(rest, es[s as int].status.burning)
        }
    }
}

/// One enemy after a resolved player attack of `dmg` lands on it: the
/// card's statuses apply; ice extinguishes burning; fire melts frozen;
/// stone shatters frozen for double damage instead; wind copies `spread`
/// burning over; block soaks the damage one for one; a hit that costs more
/// than 10 health triggers the secondary elemental statuses; and an enemy
/// whose health is gone is out of the battle.
pub open spec fn struck_enemy(
    e: EnemyState,
    dmg: u32,
    poison: u32,
    weak: u32,
    stun: u32,
    flags: ElementFlags,
    spread: u32,
) -> EnemyState {
    let st1 = card_statused(e.status, poison, weak, stun);
    let st2 = if flags.ice {
        StatusStore { burning: 0u32, ..st1 }
    } else {
        st1
    };
    let st3 = if flags.fire {
        StatusStore { frozen: 0u32, ..st2 }
    } else {
        st2
    };
    let shatter = flags.stone && st3.frozen > 0;
    let st4 = if flags.stone {
        StatusStore { frozen: 0u32, ..st3 }
    } else {
        st3
    };
    let st5 = if flags.wind {
        StatusStore { burning: cap_add(st4.burning, spread), ..st4 }
    } else {
        st4
    };
    let dmg2: u32 = if shatter {
        (dmg * 2) as u32
    } else {
        dmg
    };
    let consumed = min_u32(dmg2, e.block);
    let hp_loss: u32 = (dmg2 - consumed) as u32;
    let st6 = if hp_loss > 10 {
        let a = if flags.fire {
            StatusStore { burning: cap_add(st5.burning, 3), ..st5 }
        } else {
            st5
        };
        let b = if flags.ice {
            StatusStore { frozen: cap_add(a.frozen, 2), ..a }
        } else {
            a
        };
        if flags.stone {
            StatusStore { stun: cap_add(b.stun, 1), ..b }
        } else {
            b
        }
    } else {
        st5
    };
    let new_current: i64 = (e.health.current - hp_loss) as i64;
    EnemyState {
        health: Health { current: new_current, max: e.health.max },
        block: (e.block - consumed) as u32,
        status: st6,
        alive: new_current >= 1,
        ..e
    }
}

/// The turn resource the player's class spends: mana for the Spellweaver,
/// energy for the Duelist.
pub open spec fn resource_of(p: PlayerState) -> u32 {
    if p.class == CharacterClass::Spellweaver {
        p.mana
    } else {
        p.energy_current
    }
}

/// Whether a finisher card finds enough combo points to consume.
pub open spec fn finisher_triggered(card: CardModel, combo: u32) -> bool {
    card.finisher_combo_cost > 0 && combo >= card.finisher_combo_cost
}

/// The player's combo points after a card: the finisher's cost taken out if
/// it triggered, then the card's granted points added.
pub open spec fn combo_after_play(card: CardModel, combo: u32) -> u32 {
    cap_add(
        if finisher_triggered(card, combo) {
            (combo - card.finisher_combo_cost) as u32
        } else {
            combo
        },
        card.combo_points_granted,
    )
}

/// Whether a played card strikes every living enemy: it consumed a spell
/// whose essences carry wind.
pub open spec fn played_wind(cm: CardModel, spell0: SpellModel) -> bool {
    cm.is_spell_source && has_element(spell0.essences, SpellElement::Wind)
}

/// The damage a non-modifier card puts out before the attacker's own
/// modifiers: the printed damage, doubled by a triggered finisher, plus the
/// consumed spell bonus for a source card.
pub open spec fn played_total_damage(cm: CardModel, combo: u32, spell0: SpellModel) -> u32 {
    let doubled: u32 = if finisher_triggered(cm, combo) {
        (cm.damage * 2) as u32
    } else {
        cm.damage
    };
    (doubled + if cm.is_spell_source {
        spell0.bonus_damage
    } else {
        0u32
    }) as u32
}

/// The block a non-modifier card grants before relics: the printed block
/// plus the consumed spell bonus for a source card.
pub open spec fn played_total_block(cm: CardModel, spell0: SpellModel) -> u32 {
    (cm.block + if cm.is_spell_source {
        spell0.bonus_block
    } else {
        0u32
    }) as u32
}

/// The attack a played card sends into the damage pipeline's absorption
/// step, after the attacker-side steps.
pub open spec fn played_attack(cm: CardModel, p: PlayerState) -> u32 {
    attack_damage_spec(
        played_total_damage(cm, p.combo, p.spell@),
        p.status,
        p.relics@.contains(Relic::Vajra),
    )
}

/// Position in the enemy queue of the first entry that still names a living
/// enemy, or -1 when none does.
pub open spec fn first_living_pos(q: Seq<usize>, es: Seq<EnemyState>) -> int
    decreases q.len(),
{
    if q.len() == 0 {
        -1
    } else if q[0] < es.len() && es[q[0] as int].alive {
        0
    } else {
        let r = first_living_pos(q.drop_first(), es);
        if r == -1 {
            -1
        } else {
            r + 1
        }
    }
}

/// What [`first_living_pos`] returns: either -1 and every queued entry is
/// dead or out of range, or the first position naming a living enemy.
pub proof fn lemma_first_living_pos(q: Seq<usize>, es: Seq<EnemyState>)
    ensures
        first_living_pos(q, es) == -1 ==> forall|m: int|
            0 <= m < q.len() ==> !((#[trigger] q[m]) < es.len() && es[q[m] as int].alive),
        first_living_pos(q, es) != -1 ==> 0 <= first_living_pos(q, es) < q.len() && q[
            first_living_pos(q, es)] < es.len() && es[q[first_living_pos(q, es)] as int].alive,
        first_living_pos(q, es) != -1 ==> forall|m: int|
            0 <= m < first_living_pos(q, es) ==> !((#[trigger] q[m]) < es.len()
                && es[q[m] as int].alive),
    decreases q.len(),
{
    if q.len() > 0 && !(q[0] < es.len() && es[q[0] as int].alive) {
        let rest = q.drop_first();
        lemma_first_living_pos(rest, es);
        let r = first_living_pos(rest, es);
        if r == -1 {
            assert forall|m: int| 0 <= m < q.len() implies !((#[trigger] q[m]) < es.len()
                && es[q[m] as int].alive) by {
                if m >= 1 {
                    assert(q[m] == rest[m - 1]);
                }
            }
        } else {
            assert(q[r + 1] == rest[r]);
            assert forall|m: int| 0 <= m < r + 1 implies !((#[trigger] q[m]) < es.len()
                && es[q[m] as int].alive) by {
                if m >= 1 {
                    assert(q[m] == rest[m - 1]);
                }
            }
        }
    }
}

/// A status store after a card lands its poison, weak and stun on it.
pub open spec fn card_statused(st: StatusStore, poison: u32, weak: u32, stun: u32) -> StatusStore {
    st.applied(StatusKind::Poison, poison).applied(StatusKind::Weak, weak).applied(
        StatusKind::Stun,
        stun,
    )
}

impl BattleSession {
    /// Structural invariant of a session: every number in bounds, every
    /// index in range, and the in-flight markers consistent with the phase.
    pub open spec fn wf(self) -> bool {
        &&& self.player.wf()
        &&& self.phase != Phase::Defeat ==> self.player.health.current >= 1
        &&& forall|i: int| 0 <= i < self.enemies@.len() ==> (#[trigger] self.enemies@[i]).wf()
        &&& pile_wf(self.deck@)
        &&& pile_wf(self.discard@)
        &&& pile_wf(self.hand@)
        &&& match self.enemy_queue {
            Some(q) => forall|i: int| 0 <= i < q@.len() ==> #[trigger] q@[i] < self.enemies@.len(),
            None => true,
        }
        &&& match self.attacking_enemy {
            Some(i) => i < self.enemies@.len() && (self.phase == Phase::EnemyAttackAnimating
                ==> self.enemies@[i as int].alive),
            None => true,
        }
        &&& match self.pending_attack {
            Some(p) => {
                &&& self.phase == Phase::PlayerAttackAnimating
                &&& p.damage <= REFLEX_DAMAGE_CAP
                &&& p.apply_poison <= VALUE_CAP
                &&& p.apply_weak <= VALUE_CAP
                &&& p.apply_stun <= VALUE_CAP
                &&& forall|i: int| 0 <= i < p.targets@.len() ==> #[trigger] p.targets@[i]
                    < self.enemies@.len() && self.enemies@[p.targets@[i] as int].alive
                &&& forall|k1: int, k2: int| 0 <= k1 < k2 < p.targets@.len() ==> p.targets@[k1]
                    < p.targets@[k2]
            },
            None => true,
        }
        &&& match self.reflex {
            Some(r) => r.wf(),
            None => true,
        }
        &&& self.phase == Phase::PlayerAttackAnimating ==> self.pending_attack is Some
            && self.reflex is Some
        &&& self.phase == Phase::EnemyAttackAnimating ==> self.attacking_enemy is Some
    }

    /// Whether any enemy is still alive.
    pub open spec fn any_enemy_alive(self) -> bool {
        exists|i: int| 0 <= i < self.enemies@.len() && (#[trigger] self.enemies@[i]).alive
    }

    /// Start a battle: the enemies spawn at full health with no block, each
    /// carrying 1 weak when the player holds the Bag of Marbles, and each
    /// with an intent already rolled from its table; the hand and discard
    /// start empty and the battle waits at the player's first turn start.
    pub fn new(
        class: CharacterClass,
        relics: Vec<Relic>,
        potions: Vec<Potion>,
        gold: u32,
        deck: Vec<Card>,
        enemy_kinds: &Vec<EnemyKind>,
    ) -> (s: BattleSession)
        requires
            pile_wf(deck@),
            gold <= VALUE_CAP,
        ensures
            s.wf(),
            s.phase == Phase::PlayerTurnStart,
            s.first_turn,
            s.player.class == class,
            s.player.relics@ == relics@,
            s.player.potions@ == potions@,
            s.player.gold == gold,
            s.player.health.current == 50 && s.player.health.max == 50,
            s.player.block == 0 && s.player.energy_current == 3 && s.player.energy_max == 3,
            s.player.mana == 0 && s.player.combo == 0,
            s.player.status == StatusStore::empty(),
            s.player.spell@ == SpellModel::empty(),
            s.deck@ == deck@,
            s.discard@.len() == 0 && s.hand@.len() == 0,
            s.enemies@.len() == enemy_kinds@.len(),
            forall|i: int| 0 <= i < enemy_kinds@.len() ==> {
                let e = #[trigger] s.enemies@[i];
                &&& e.kind == enemy_kinds@[i]
                &&& e.health.current == enemy_max_health_spec(e.kind)
                &&& e.health.max == enemy_max_health_spec(e.kind)
                &&& e.block == 0
                &&& e.alive
                &&& e.status == StatusStore { weak: (if relics@.contains(Relic::BagOfMarbles) { 1u32 } else { 0u32 }), ..StatusStore::empty() }
                &&& exists|roll: u32|
                    roll < 100 && e.next_move@ == generate_move_spec(enemy_kinds@[i], false, roll)
            },
            s.enemy_queue is None && s.attacking_enemy is None && s.pending_attack is None
                && s.reflex is None,
    {
        let initial_weak: u32 = if has_relic(&relics, Relic::BagOfMarbles) {
            1
        } else {
            0
        };
        let mut enemies: Vec<EnemyState> = Vec::new();
        let mut i: usize = 0;
        while i < enemy_kinds.len()
            invariant
                i <= enemy_kinds@.len(),
                enemies@.len() == i,
                initial_weak <= 1,
                forall|j: int| 0 <= j < i ==> {
                    let e = #[trigger] enemies@[j];
                    &&& e.kind == enemy_kinds@[j]
                    &&& e.health.current == enemy_max_health_spec(e.kind)
                    &&& e.health.max == enemy_max_health_spec(e.kind)
                    &&& e.block == 0
                    &&& e.alive
                    &&& e.status == StatusStore { weak: initial_weak, ..StatusStore::empty() }
                    &&& e.wf()
                    &&& exists|roll: u32|
                        roll < 100 && e.next_move@ == generate_move_spec(
                            enemy_kinds@[j],
                            false,
                            roll,
                        )
                },
            decreases enemy_kinds@.len() - i,
        {
            let kind = enemy_kinds[i];
            let hp = enemy_max_health(kind);
            let first_move = roll_enemy_move(kind, false);
            let ghost first_move_model = first_move@;
            let ghost w = choose|roll: u32|
                roll < 100 && first_move_model == generate_move_spec(kind, false, roll);
            let ghost pre = enemies@;
            enemies.push(
                EnemyState {
                    kind,
                    health: Health { current: hp as i64, max: hp },
                    block: 0,
                    status: StatusStore {
                        poison: 0,
                        weak: initial_weak,
                        strength: 0,
                        stun: 0,
                        burning: 0,
                        frozen: 0,
                    },
                    next_move: first_move,
                    alive: true,
                },
            );
            proof {
                assert(w < 100 && first_move_model == generate_move_spec(kind, false, w));
                assert(enemies@[i as int].next_move@ == first_move_model);
                assert forall|j: int| 0 <= j <= i implies exists|roll: u32|
                    roll < 100 && (#[trigger] enemies@[j]).next_move@ == generate_move_spec(
                        enemy_kinds@[j],
                        false,
                        roll,
                    ) by {
                    if j < i {
                        assert(enemies@[j] == pre[j]);
                    } else {
                        assert(w < 100 && enemies@[j].next_move@ == generate_move_spec(
                            enemy_kinds@[j],
                            false,
                            w,
                        ));
                    }
                }
            }
            i = i + 1;
        }
        BattleSession {
            player: PlayerState {
                health: Health { current: 50, max: 50 },
                block: 0,
                energy_current: 3,
                energy_max: 3,
                mana: 0,
                combo: 0,
                status: StatusStore::new(),
                relics,
                potions,
                gold,
                spell: ActiveSpell::new(),
                class,
            },
            enemies,
            deck,
            discard: Vec::new(),
            hand: Vec::new(),
            phase: Phase::PlayerTurnStart,
            first_turn: true,
            enemy_queue: None,
            attacking_enemy: None,
            pending_attack: None,
            reflex: None,
        }
    }

    /// Begin the player's turn. The turn resource grows (mana +2 for the
    /// Spellweaver, uncapped short of the engine limit) or resets (energy
    /// back to its maximum for the Duelist); the spell accumulator empties;
    /// block resets to zero except on the battle's first turn, where the
    /// Anchor relic instead adds 10; poison and burning damage the player
    /// and fade. A player whose health is gone is defeated; otherwise a
    /// hand of up to five cards is drawn (reshuffling the discard pile into
    /// the deck as needed) and the session accepts intents.
    pub fn start_player_turn(&mut self)
        requires
            old(self).wf(),
            old(self).phase == Phase::PlayerTurnStart,
        ensures
            final(self).wf(),
            final(self).player.class == old(self).player.class,
            old(self).player.class == CharacterClass::Spellweaver ==> final(self).player.mana
                == cap_add(old(self).player.mana, 2) && final(self).player.energy_current == old(self).player.energy_current,
            old(self).player.class == CharacterClass::Duelist ==> final(self).player.energy_current
                == old(self).player.energy_max && final(self).player.mana == old(self).player.mana,
            final(self).player.spell@ == SpellModel::empty(),
            old(self).first_turn ==> final(self).player.block == (if old(self).player.relics@.contains(Relic::Anchor) {
                cap_add(old(self).player.block, 10)
            } else {
                old(self).player.block
            }),
            !old(self).first_turn ==> final(self).player.block == 0,
            !final(self).first_turn,
            final(self).player.status == old(self).player.status.ticked(),
            final(self).player.health.current == old(self).player.health.current - old(self).player.status.poison - old(self).player.status.burning,
            final(self).player.health.max == old(self).player.health.max,
            final(self).player.health.current <= 0 ==> final(self).phase == Phase::Defeat
                && final(self).hand@ == old(self).hand@,
            final(self).player.health.current >= 1 ==> {
                &&& final(self).phase == Phase::PlayerTurn
                &&& final(self).hand@.len() == old(self).hand@.len() + if old(self).deck@.len()
                    + old(self).discard@.len() >= 5 {
                    5int
                } else {
                    old(self).deck@.len() + old(self).discard@.len() as int
                }
                &&& piles_multiset(final(self).hand@, final(self).deck@, final(self).discard@)
                    == piles_multiset(old(self).hand@, old(self).deck@, old(self).discard@)
            },
            final(self).enemies@ == old(self).enemies@,
            final(self).player.relics@ == old(self).player.relics@,
            final(self).player.potions@ == old(self).player.potions@,
            final(self).player.gold == old(self).player.gold,
            final(self).player.combo == old(self).player.combo,
    {
        if self.player.class == CharacterClass::Spellweaver {
            self.player.mana = saturating_cap_add(self.player.mana, 2);
        } else {
            self.player.energy_current = self.player.energy_max;
        }
        self.player.spell.reset();
        if self.first_turn {
            self.first_turn = false;
            if has_relic(&self.player.relics, Relic::Anchor) {
                self.player.block = saturating_cap_add(self.player.block, 10);
            }
        } else {
            self.player.block = 0;
        }
        let dot = self.player.status.tick_start_of_turn();
        self.player.health.current = self.player.health.current - dot as i64;
        if self.player.health.current <= 0 {
            self.phase = Phase::Defeat;
            return ;
        }
        draw_up_to_five(&mut self.deck, &mut self.discard, &mut self.hand);
        self.phase = Phase::PlayerTurn;
    }

    /// The enemies a played card strikes. A wind-tagged spell hits every
    /// living enemy, in slot order. Otherwise an explicit target is hit when
    /// it names a living enemy and dropped when it does not, and without an
    /// explicit target the first living enemy is hit.
    pub fn collect_targets(&self, wind: bool, target: Option<usize>) -> (r: Vec<usize>)
        requires
            self.wf(),
        ensures
            forall|k: int| 0 <= k < r@.len() ==> (#[trigger] r@[k]) < self.enemies@.len()
                && self.enemies@[r@[k] as int].alive,
            forall|k1: int, k2: int| 0 <= k1 < k2 < r@.len() ==> r@[k1] < r@[k2],
            wind ==> forall|i: int| 0 <= i < self.enemies@.len() && (#[trigger] self.enemies@[i]).alive
                ==> r@.contains(i as usize),
            !wind ==> match target {
                Some(idx) => {
                    if idx < self.enemies@.len() && self.enemies@[idx as int].alive {
                        r@ =~= seq![idx]
                    } else {
                        r@.len() == 0
                    }
                },
                None => {
                    if self.any_enemy_alive() {
                        r@.len() == 1 && (forall|j: int|
                            0 <= j < r@[0] ==> !(#[trigger] self.enemies@[j]).alive)
                    } else {
                        r@.len() == 0
                    }
                },
            },
            forall|i: int| 0 <= i < self.enemies@.len() ==> (#[trigger] r@.contains(i as usize)
                <==> is_card_target(self.enemies@, wind, target, i)),
    {
        let mut r: Vec<usize> = Vec::new();
        if wind {
            let mut i: usize = 0;
            while i < self.enemies.len()
                invariant
                    i <= self.enemies@.len(),
                    forall|k: int| 0 <= k < r@.len() ==> (#[trigger] r@[k]) < i
                        && self.enemies@[r@[k] as int].alive,
                    forall|k1: int, k2: int| 0 <= k1 < k2 < r@.len() ==> r@[k1] < r@[k2],
                    forall|j: int| 0 <= j < i && (#[trigger] self.enemies@[j]).alive ==> r@.contains(
                        j as usize,
                    ),
                decreases self.enemies@.len() - i,
            {
                if self.enemies[i].alive {
                    let ghost pre = r@;
                    r.push(i);
                    proof {
                        assert(r@[pre.len() as int] == i);
                        assert forall|j: int|
                            0 <= j <= i && (#[trigger] self.enemies@[j]).alive implies r@.contains(
                            j as usize,
                        ) by {
                            if j < i {
                                let k0 = choose|k0: int|
                                    0 <= k0 < pre.len() && pre[k0] == j as usize;
                                assert(r@[k0] == j as usize);
                            } else {
                                assert(r@[pre.len() as int] == j as usize);
                            }
                        }
                    }
                }
                i = i + 1;
            }
        } else {
            match target {
                Some(idx) => {
                    if idx < self.enemies.len() {
                        if self.enemies[idx].alive {
                            r.push(idx);
                        }
                    }
                },
                None => {
                    let mut i: usize = 0;
                    while i < self.enemies.len()
                        invariant_except_break
                            i <= self.enemies@.len(),
                            r@.len() == 0,
                            forall|j: int| 0 <= j < i ==> !(#[trigger] self.enemies@[j]).alive,
                        ensures
                            (r@.len() == 1 && r@[0] < self.enemies@.len()
                                && self.enemies@[r@[0] as int].alive && (forall|j: int|
                                0 <= j < r@[0] ==> !(#[trigger] self.enemies@[j]).alive)) || (
                            r@.len() == 0 && forall|j: int|
                                0 <= j < self.enemies@.len() ==> !(
                                #[trigger] self.enemies@[j]).alive),
                        decreases self.enemies@.len() - i,
                    {
                        if self.enemies[i].alive {
                            r.push(i);
                            break ;
                        }
                        i = i + 1;
                    }
                },
            }
        }
        let n_enemies = self.enemies.len();
        proof {
            assert forall|i: int| 0 <= i < self.enemies@.len() implies (#[trigger] r@.contains(
                i as usize,
            ) <==> is_card_target(self.enemies@, wind, target, i)) by {
                assert(i < n_enemies as int);
                assert(i as usize as int == i);
                if r@.contains(i as usize) {
                    let k = choose|k: int| 0 <= k < r@.len() && r@[k] == i as usize;
                    assert(r@[k] < self.enemies@.len() && self.enemies@[r@[k] as int].alive);
                }
                if is_card_target(self.enemies@, wind, target, i) {
                    if !wind {
                        match target {
                            Some(idx) => {
                                assert(r@[0] == idx);
                                assert(r@.contains(i as usize));
                            },
                            None => {
                                assert(self.any_enemy_alive());
                                assert(r@.len() == 1);
                                assert(r@[0] == i as usize) by {
                                    assert(self.enemies@[r@[0] as int].alive);
                                    assert(self.enemies@[i].alive);
                                };
                                assert(r@.contains(i as usize));
                            },
                        }
                    }
                }
            }
        }
        r
    }

    /// Apply a card's poison, weak and stun to each listed enemy. The
    /// targets must be distinct in-range slots.
    fn apply_card_statuses(&mut self, targets: &Vec<usize>, poison: u32, weak: u32, stun: u32)
        requires
            old(self).wf(),
            forall|k: int| 0 <= k < targets@.len() ==> (#[trigger] targets@[k])
                < old(self).enemies@.len(),
            forall|k1: int, k2: int| 0 <= k1 < k2 < targets@.len() ==> targets@[k1] != targets@[k2],
        ensures
            final(self).wf(),
            final(self).enemies@.len() == old(self).enemies@.len(),
            forall|t: usize| t < old(self).enemies@.len()
                ==> #[trigger] final(self).enemies@[t as int] == if targets@.contains(t) {
                EnemyState {
                    status: card_statused(old(self).enemies@[t as int].status, poison, weak, stun),
                    ..old(self).enemies@[t as int]
                }
            } else {
                old(self).enemies@[t as int]
            },
            final(self).player == old(self).player,
            final(self).hand@ == old(self).hand@,
            final(self).deck@ == old(self).deck@,
            final(self).discard@ == old(self).discard@,
            final(self).phase == old(self).phase,
            final(self).first_turn == old(self).first_turn,
            final(self).enemy_queue == old(self).enemy_queue,
            final(self).attacking_enemy == old(self).attacking_enemy,
            final(self).pending_attack == old(self).pending_attack,
            final(self).reflex == old(self).reflex,
    {
        let mut k: usize = 0;
        while k < targets.len()
            invariant
                k <= targets@.len(),
                forall|j: int| 0 <= j < targets@.len() ==> (#[trigger] targets@[j])
                    < old(self).enemies@.len(),
                forall|k1: int, k2: int| 0 <= k1 < k2 < targets@.len() ==> targets@[k1]
                    != targets@[k2],
                self.enemies@.len() == old(self).enemies@.len(),
                forall|t: usize| t < old(self).enemies@.len() ==> #[trigger] self.enemies@[t as int]
                    == if exists|j: int| 0 <= j < k && targets@[j] == t {
                    EnemyState {
                        status: card_statused(
                            old(self).enemies@[t as int].status,
                            poison,
                            weak,
                            stun,
                        ),
                        ..old(self).enemies@[t as int]
                    }
                } else {
                    old(self).enemies@[t as int]
                },
                self.player == old(self).player,
                self.hand@ == old(self).hand@,
                self.deck@ == old(self).deck@,
                self.discard@ == old(self).discard@,
                self.phase == old(self).phase,
                self.first_turn == old(self).first_turn,
                self.enemy_queue == old(self).enemy_queue,
                self.attacking_enemy == old(self).attacking_enemy,
                self.pending_attack == old(self).pending_attack,
                self.reflex == old(self).reflex,
            decreases targets@.len() - k,
        {
            let t = targets[k];
            proof {
                assert_by_contradiction!(!(exists|j: int| 0 <= j < k && targets@[j] == t), {
                    let j = choose|j: int| 0 <= j < k && targets@[j] == t;
                    assert(targets@[j] != targets@[k as int]);
                });
            }
            let ghost pre = self.enemies@;
            let e = &mut self.enemies[t];
            e.status.apply(StatusKind::Poison, poison);
            e.status.apply(StatusKind::Weak, weak);
            e.status.apply(StatusKind::Stun, stun);
            proof {
                assert(pre[t as int] == old(self).enemies@[t as int]);
                assert forall|t2: usize| t2 < old(self).enemies@.len() implies #[trigger]
                self.enemies@[t2 as int] == (
                if exists|j: int| 0 <= j < k + 1 && targets@[j] == t2 {
                    EnemyState {
                        status: card_statused(
                            old(self).enemies@[t2 as int].status,
                            poison,
                            weak,
                            stun,
                        ),
                        ..old(self).enemies@[t2 as int]
                    }
                } else {
                    old(self).enemies@[t2 as int]
                }) by {
                    if t2 == t {
                        assert(0 <= k < k + 1 && targets@[k as int] == t2);
                    } else {
                        assert(self.enemies@[t2 as int] == pre[t2 as int]);
                        if exists|j: int| 0 <= j < k + 1 && targets@[j] == t2 {
                            let j = choose|j: int| 0 <= j < k + 1 && targets@[j] == t2;
                            assert(targets@[j] == t2);
                            assert(j != k);
                            assert(0 <= j < k && targets@[j] == t2);
                        }
                    }
                }
            }
            k = k + 1;
        }
        let n_enemies = self.enemies.len();
        proof {
            assert forall|t: usize| t < old(self).enemies@.len() implies #[trigger] self.enemies@[t as int]
                == if targets@.contains(t) {
                EnemyState {
                    status: card_statused(old(self).enemies@[t as int].status, poison, weak, stun),
                    ..old(self).enemies@[t as int]
                }
            } else {
                old(self).enemies@[t as int]
            } by {
                if targets@.contains(t) {
                    let j = choose|j: int| 0 <= j < targets@.len() && targets@[j] == t;
                    assert(0 <= j < targets@.len() && targets@[j] == t);
                } else {
                    assert_by_contradiction!(!(exists|j: int| 0 <= j < targets@.len() && targets@[j] == t), {
                        let j = choose|j: int| 0 <= j < targets@.len() && targets@[j] == t;
                        assert(targets@.contains(t));
                    });
                }
            }
            assert forall|i: int| 0 <= i < self.enemies@.len() implies (#[trigger] self.enemies@[i]).wf() by {
                assert(old(self).enemies@[i].wf());
                assert(i < n_enemies as int);
                let t: usize = i as usize;
                assert(t as int == i);
                if targets@.contains(t) {
                    assert(self.enemies@[t as int] == EnemyState {
                        status: card_statused(
                            old(self).enemies@[t as int].status,
                            poison,
                            weak,
                            stun,
                        ),
                        ..old(self).enemies@[t as int]
                    });
                } else {
                    assert(self.enemies@[t as int] == old(self).enemies@[t as int]);
                }
            }
        }
    }

    /// Play a card from the hand. An index that names no card, or a cost the
    /// turn resource cannot pay, drops the intent without touching the
    /// session. Otherwise the resource is spent and the card leaves the hand
    /// for the discard pile. An essence-modifier card feeds the spell
    /// accumulator and the turn continues. Any other card triggers its
    /// finisher if enough combo points are banked, grants its combo points,
    /// folds in the consumed spell bonus if it is a spell source, grants its
    /// block (plus one with the Oddly Smooth Stone), and runs the damage
    /// pipeline's attacker steps. A resulting attack with damage and a
    /// living target suspends the turn behind an offensive reflex; anything
    /// else lands its statuses on the targets at once and the turn
    /// continues.
    #[verifier::rlimit(100)]
    pub fn play_card(&mut self, hand_index: usize, target: Option<usize>) -> (r: Result<
        (),
        IntentError,
    >)
        requires
            old(self).wf(),
        ensures
            final(self).wf(),
            r == Err::<(), IntentError>(IntentError::WrongPhase) <==> old(self).phase
                != Phase::PlayerTurn,
            r == Err::<(), IntentError>(IntentError::InvalidIndex) <==> old(self).phase
                == Phase::PlayerTurn && hand_index >= old(self).hand@.len(),
            r == Err::<(), IntentError>(IntentError::InsufficientResource) <==> old(self).phase
                == Phase::PlayerTurn && hand_index < old(self).hand@.len() && resource_of(
                old(self).player,
            ) < old(self).hand@[hand_index as int]@.cost,
            r is Err ==> *final(self) == *old(self),
            r is Ok ==> final(self).hand@ == old(self).hand@.remove(hand_index as int),
            r is Ok ==> final(self).discard@ == old(self).discard@.push(
                old(self).hand@[hand_index as int],
            ),
            r is Ok ==> final(self).deck@ == old(self).deck@,
            r is Ok ==> resource_of(final(self).player) == resource_of(old(self).player) - old(self).hand@[hand_index as int]@.cost,
            r is Ok ==> final(self).player.class == old(self).player.class && final(self).player.energy_max == old(self).player.energy_max && final(self).player.health == old(self).player.health && final(self).player.status == old(self).player.status && final(self).player.relics@ == old(self).player.relics@ && final(self).player.potions@ == old(self).player.potions@ && final(self).player.gold == old(self).player.gold,
            r is Ok && old(self).player.class == CharacterClass::Spellweaver ==> final(self).player.energy_current == old(self).player.energy_current,
            r is Ok && old(self).player.class == CharacterClass::Duelist ==> final(self).player.mana == old(self).player.mana,
            r is Ok && old(self).hand@[hand_index as int]@.is_spell_modifier ==> ({
                let cm = old(self).hand@[hand_index as int]@;
                &&& final(self).player.spell@ == cast_modifier_model(
                    old(self).player.spell@,
                    cm.element,
                    cm.damage,
                    cm.block,
                )
                &&& final(self).phase == Phase::PlayerTurn
                &&& final(self).enemies@ == old(self).enemies@
                &&& final(self).player.combo == old(self).player.combo
                &&& final(self).player.block == old(self).player.block
                &&& final(self).pending_attack is None
                &&& final(self).reflex is None
            }),
            r is Ok && !old(self).hand@[hand_index as int]@.is_spell_modifier ==> final(self).player.combo == combo_after_play(
                old(self).hand@[hand_index as int]@,
                old(self).player.combo,
            ),
            r is Ok && !old(self).hand@[hand_index as int]@.is_spell_modifier ==> final(self).player.spell@ == (
            if old(self).hand@[hand_index as int]@.is_spell_source {
                SpellModel::empty()
            } else {
                old(self).player.spell@
            }),
            r is Ok && !old(self).hand@[hand_index as int]@.is_spell_modifier ==> ({
                let cm = old(self).hand@[hand_index as int]@;
                let total_block = played_total_block(cm, old(self).player.spell@);
                final(self).player.block == if total_block > 0 {
                    cap_add(
                        old(self).player.block,
                        if old(self).player.relics@.contains(Relic::OddlySmoothStone) {
                            (total_block + 1) as u32
                        } else {
                            total_block
                        },
                    )
                } else {
                    old(self).player.block
                }
            }),
            r is Ok && !old(self).hand@[hand_index as int]@.is_spell_modifier && played_attack(
                old(self).hand@[hand_index as int]@,
                old(self).player,
            ) > 0 && (exists|i: int|
                is_card_target(
                    old(self).enemies@,
                    played_wind(old(self).hand@[hand_index as int]@, old(self).player.spell@),
                    target,
                    i,
                )) ==> ({
                let cm = old(self).hand@[hand_index as int]@;
                let spell0 = old(self).player.spell@;
                let attack = played_attack(cm, old(self).player);
                &&& final(self).phase == Phase::PlayerAttackAnimating
                &&& final(self).enemies@ == old(self).enemies@
                &&& final(self).pending_attack matches Some(p) && p.damage == attack
                    && p.apply_poison == cm.apply_poison && p.apply_weak == cm.apply_weak
                    && p.apply_stun == cm.apply_stun && (forall|i: int|
                    0 <= i < old(self).enemies@.len() ==> (#[trigger] p.targets@.contains(i as usize)
                        <==> is_card_target(old(self).enemies@, played_wind(cm, spell0), target, i)))
                    && p.flags.fire == (cm.is_spell_source && has_element(
                    spell0.essences,
                    SpellElement::Fire,
                )) && p.flags.ice == (cm.is_spell_source && has_element(
                    spell0.essences,
                    SpellElement::Ice,
                )) && p.flags.wind == played_wind(cm, spell0) && p.flags.stone == (
                cm.is_spell_source && has_element(spell0.essences, SpellElement::Stone))
                &&& final(self).reflex == Some(
                    ReflexState {
                        duration_ms: 1000u32,
                        elapsed_ms: 0u32,
                        window_start: 700u32,
                        window_end: 800u32,
                        result: Option::<ReflexSuccess>::None,
                        is_defensive: false,
                        base_damage: attack,
                    },
                )
            }),
            r is Ok && !old(self).hand@[hand_index as int]@.is_spell_modifier && !(played_attack(
                old(self).hand@[hand_index as int]@,
                old(self).player,
            ) > 0 && (exists|i: int|
                is_card_target(
                    old(self).enemies@,
                    played_wind(old(self).hand@[hand_index as int]@, old(self).player.spell@),
                    target,
                    i,
                ))) ==> ({
                let cm = old(self).hand@[hand_index as int]@;
                let spell0 = old(self).player.spell@;
                &&& final(self).phase == Phase::PlayerTurn
                &&& final(self).pending_attack is None
                &&& final(self).reflex is None
                &&& final(self).enemies@.len() == old(self).enemies@.len()
                &&& forall|t: usize| t < old(self).enemies@.len()
                    ==> #[trigger] final(self).enemies@[t as int] == if is_card_target(
                    old(self).enemies@,
                    played_wind(cm, spell0),
                    target,
                    t as int,
                ) {
                    EnemyState {
                        status: card_statused(
                            old(self).enemies@[t as int].status,
                            cm.apply_poison,
                            cm.apply_weak,
                            cm.apply_stun,
                        ),
                        ..old(self).enemies@[t as int]
                    }
                } else {
                    old(self).enemies@[t as int]
                }
            }),
    {
        if self.phase != Phase::PlayerTurn {
            return Err(IntentError::WrongPhase);
        }
        if hand_index >= self.hand.len() {
            return Err(IntentError::InvalidIndex);
        }
        proof {
            assert(self.hand@[hand_index as int]@.wf());
        }
        let cost = self.hand[hand_index].cost;
        if self.player.class == CharacterClass::Spellweaver {
            if self.player.mana < cost {
                return Err(IntentError::InsufficientResource);
            }
            self.player.mana = self.player.mana - cost;
        } else {
            if self.player.energy_current < cost {
                return Err(IntentError::InsufficientResource);
            }
            self.player.energy_current = self.player.energy_current - cost;
        }
        let card = self.hand.remove(hand_index);
        if card.is_spell_modifier {
            self.player.spell.cast_modifier(card.element, card.damage, card.block);
            self.pending_attack = None;
            self.reflex = None;
            self.discard.push(card);
            return Ok(());
        }
        let mut total_damage = card.damage;
        let mut total_block = card.block;
        if card.finisher_combo_cost > 0 && self.player.combo >= card.finisher_combo_cost {
            self.player.combo = self.player.combo - card.finisher_combo_cost;
            total_damage = total_damage * 2;
        }
        self.player.combo = saturating_cap_add(self.player.combo, card.combo_points_granted);
        let mut flags = ElementFlags { fire: false, ice: false, wind: false, stone: false };
        if card.is_spell_source {
            let (bonus_damage, bonus_block, spell_flags) = self.player.spell.consume();
            total_damage = total_damage + bonus_damage;
            total_block = total_block + bonus_block;
            flags = spell_flags;
        }
        if total_block > 0 {
            let gain = if has_relic(&self.player.relics, Relic::OddlySmoothStone) {
                total_block + 1
            } else {
                total_block
            };
            self.player.block = saturating_cap_add(self.player.block, gain);
        }
        let targets = self.collect_targets(flags.wind, target);
        let vajra = has_relic(&self.player.relics, Relic::Vajra);
        let attack = attack_damage(total_damage, &self.player.status, vajra);
        proof {
            assert(total_damage == played_total_damage(
                old(self).hand@[hand_index as int]@,
                old(self).player.combo,
                old(self).player.spell@,
            ));
            assert(attack == played_attack(old(self).hand@[hand_index as int]@, old(self).player));
            assert(flags.wind == played_wind(
                old(self).hand@[hand_index as int]@,
                old(self).player.spell@,
            ));
        }
        if attack > 0 && targets.len() > 0 {
            proof {
                let t0 = targets@[0];
                assert(is_card_target(self.enemies@, flags.wind, target, t0 as int));
            }
            self.reflex = Some(ReflexState::new_offensive(attack));
            self.pending_attack = Some(
                PendingAttack {
                    targets,
                    damage: attack,
                    apply_poison: card.apply_poison,
                    apply_weak: card.apply_weak,
                    apply_stun: card.apply_stun,
                    flags,
                },
            );
            self.phase = Phase::PlayerAttackAnimating;
        } else {
            proof {
                assert_by_contradiction!(
                    !(attack > 0 && (exists|i: int| is_card_target(self.enemies@, flags.wind, target, i))),
                    {
                        let i = choose|i: int|
                            is_card_target(self.enemies@, flags.wind, target, i);
                        assert(targets@.contains(i as usize));
                    }
                );
            }
            proof {
                assert forall|t: usize| t < self.enemies@.len() implies ((#[trigger] targets@.contains(
                    t,
                )) <==> is_card_target(self.enemies@, flags.wind, target, t as int)) by {
                    let i: int = t as int;
                    assert(0 <= i < self.enemies@.len());
                    assert(targets@.contains(i as usize) <==> is_card_target(
                        self.enemies@,
                        flags.wind,
                        target,
                        i,
                    ));
                    assert(i as usize == t);
                }
            }
            self.apply_card_statuses(&targets, card.apply_poison, card.apply_weak, card.apply_stun);
            self.pending_attack = None;
            self.reflex = None;
        }
        self.discard.push(card);
        Ok(())
    }

    /// End the player's turn: from `PlayerTurn` the session moves to the
    /// turn-end phase — unconditionally, whatever the hand holds — and
    /// nothing else changes. Out of phase, the intent is dropped.
    pub fn end_turn(&mut self) -> (r: Result<(), IntentError>)
        requires
            old(self).wf(),
        ensures
            final(self).wf(),
            old(self).phase == Phase::PlayerTurn ==> r is Ok && *final(self) == (BattleSession {
                phase: Phase::PlayerTurnEnd,
                ..*old(self)
            }),
            old(self).phase != Phase::PlayerTurn ==> r == Err::<(), IntentError>(
                IntentError::WrongPhase,
            ) && *final(self) == *old(self),
    {
        if self.phase != Phase::PlayerTurn {
            return Err(IntentError::WrongPhase);
        }
        self.phase = Phase::PlayerTurnEnd;
        Ok(())
    }

    /// Process the turn-end phase: the whole hand goes to the discard pile,
    /// the player's weak decays by one, and the session reaches the enemy
    /// turn — always, even from an empty hand.
    pub fn step_turn_end(&mut self)
        requires
            old(self).wf(),
            old(self).phase == Phase::PlayerTurnEnd,
        ensures
            final(self).wf(),
            final(self).phase == Phase::EnemyTurn,
            final(self).hand@.len() == 0,
            final(self).discard@ == old(self).discard@ + old(self).hand@,
            final(self).player.status == old(self).player.status.weak_decayed(),
            final(self).deck@ == old(self).deck@,
            final(self).player.health == old(self).player.health,
            final(self).player.block == old(self).player.block,
            final(self).player.energy_current == old(self).player.energy_current,
            final(self).player.mana == old(self).player.mana,
            final(self).player.combo == old(self).player.combo,
            final(self).player.gold == old(self).player.gold,
            final(self).enemies@ == old(self).enemies@,
    {
        self.discard.append(&mut self.hand);
        self.player.status.decay_weak();
        self.phase = Phase::EnemyTurn;
        proof {
            assert(pile_wf(self.discard@));
            assert(pile_wf(self.hand@));
        }
    }

    /// Drink the potion at `index`: a Health Potion restores ten health
    /// (clamped at the maximum), an Energy Potion grants two energy, a
    /// Strength Potion two strength. The potion is consumed; an index that
    /// names no potion drops the intent.
    pub fn use_potion(&mut self, index: usize) -> (r: Result<(), IntentError>)
        requires
            old(self).wf(),
        ensures
            final(self).wf(),
            r is Err <==> index >= old(self).player.potions@.len(),
            r is Err ==> r == Err::<(), IntentError>(IntentError::InvalidIndex) && *final(self)
                == *old(self),
            r is Ok ==> {
                let p = old(self).player.potions@[index as int];
                &&& final(self).player.potions@ == old(self).player.potions@.remove(index as int)
                &&& (p is Health ==> *final(self) == (BattleSession {
                    player: PlayerState {
                        health: Health {
                            current: (if old(self).player.health.current + 10
                                <= old(self).player.health.max {
                                (old(self).player.health.current + 10) as i64
                            } else {
                                old(self).player.health.max as i64
                            }),
                            max: old(self).player.health.max,
                        },
                        potions: final(self).player.potions,
                        ..old(self).player
                    },
                    ..*old(self)
                }))
                &&& (p is Energy ==> *final(self) == (BattleSession {
                    player: PlayerState {
                        energy_current: cap_add(old(self).player.energy_current, 2),
                        potions: final(self).player.potions,
                        ..old(self).player
                    },
                    ..*old(self)
                }))
                &&& (p is Strength ==> *final(self) == (BattleSession {
                    player: PlayerState {
                        status: old(self).player.status.applied(StatusKind::Strength, 2),
                        potions: final(self).player.potions,
                        ..old(self).player
                    },
                    ..*old(self)
                }))
            },
    {
        if index >= self.player.potions.len() {
            return Err(IntentError::InvalidIndex);
        }
        let potion = self.player.potions.remove(index);
        match potion {
            Potion::Health => {
                let healed: i64 = self.player.health.current + 10;
                self.player.health.current = if healed <= self.player.health.max as i64 {
                    healed
                } else {
                    self.player.health.max as i64
                };
            },
            Potion::Energy => {
                self.player.energy_current = saturating_cap_add(self.player.energy_current, 2);
            },
            Potion::Strength => {
                self.player.status.apply(StatusKind::Strength, 2);
            },
        }
        Ok(())
    }

    /// Whether any enemy is still alive, decided at run time.
    pub fn check_any_enemy_alive(&self) -> (r: bool)
        ensures
            r == self.any_enemy_alive(),
    {
        let mut i: usize = 0;
        while i < self.enemies.len()
            invariant
                i <= self.enemies@.len(),
                forall|j: int| 0 <= j < i ==> !(#[trigger] self.enemies@[j]).alive,
            decreases self.enemies@.len() - i,
        {
            if self.enemies[i].alive {
                return true;
            }
            i = i + 1;
        }
        false
    }

    /// Heal the player on victory when the Burning Blood relic is held: six
    /// health back, clamped at the maximum.
    fn victory_heal(&mut self)
        requires
            old(self).player.health.wf(),
        ensures
            final(self).player.health.wf(),
            *final(self) == (BattleSession {
                player: PlayerState {
                    health: Health {
                        current: (if old(self).player.relics@.contains(Relic::BurningBlood) {
                            if old(self).player.health.current + VICTORY_HEAL
                                <= old(self).player.health.max {
                                (old(self).player.health.current + VICTORY_HEAL) as i64
                            } else {
                                old(self).player.health.max as i64
                            }
                        } else {
                            old(self).player.health.current
                        }),
                        max: old(self).player.health.max,
                    },
                    ..old(self).player
                },
                ..*old(self)
            }),
    {
        if has_relic(&self.player.relics, Relic::BurningBlood) {
            let healed: i64 = self.player.health.current + VICTORY_HEAL as i64;
            self.player.health.current = if healed <= self.player.health.max as i64 {
                healed
            } else {
                self.player.health.max as i64
            };
        }
    }

    /// Land a resolved attack of `dmg` on one enemy.
    fn strike_one(
        e: &mut EnemyState,
        dmg: u32,
        poison: u32,
        weak: u32,
        stun: u32,
        flags: ElementFlags,
        spread: u32,
    ) -> (died: bool)
        requires
            old(e).wf(),
            old(e).alive,
            dmg <= 2 * REFLEX_DAMAGE_CAP,
            poison <= VALUE_CAP,
            weak <= VALUE_CAP,
            stun <= VALUE_CAP,
        ensures
            *final(e) == struck_enemy(*old(e), dmg, poison, weak, stun, flags, spread),
            final(e).wf(),
            died == !final(e).alive,
    {
        e.status.apply(StatusKind::Poison, poison);
        e.status.apply(StatusKind::Weak, weak);
        e.status.apply(StatusKind::Stun, stun);
        if flags.ice {
            e.status.burning = 0;
        }
        if flags.fire {
            e.status.frozen = 0;
        }
        let mut damage = dmg;
        if flags.stone {
            if e.status.frozen > 0 {
                damage = damage * 2;
            }
            e.status.frozen = 0;
        }
        if flags.wind {
            e.status.burning = saturating_cap_add(e.status.burning, spread);
        }
        let (consumed, hp_loss, block_left) = absorb(damage, e.block);
        e.block = block_left;
        if hp_loss > 10 {
            if flags.fire {
                e.status.burning = saturating_cap_add(e.status.burning, 3);
            }
            if flags.ice {
                e.status.frozen = saturating_cap_add(e.status.frozen, 2);
            }
            if flags.stone {
                e.status.stun = saturating_cap_add(e.status.stun, 1);
            }
        }
        e.health.current = e.health.current - hp_loss as i64;
        e.alive = e.health.current >= 1;
        !e.alive
    }

    /// Advance the player-attack phase by an elapsed-time delta. While the
    /// attack's reflex is unresolved and its timer still runs, only the
    /// timer advances. Once a result is set (or the timer expires, which
    /// counts as a Miss) the attack resolves: the reflex outcome scales the
    /// damage, every recorded target is struck as [`struck_enemy`]
    /// describes, and the battle either returns to the player's turn or —
    /// with every enemy down — ends in victory, healing the player if the
    /// Burning Blood relic is held.
    pub fn step_player_attack(&mut self, delta_ms: u32)
        requires
            old(self).wf(),
            old(self).phase == Phase::PlayerAttackAnimating,
        ensures
            final(self).wf(),
            final(self).hand@ == old(self).hand@,
            final(self).deck@ == old(self).deck@,
            final(self).discard@ == old(self).discard@,
            final(self).enemy_queue == old(self).enemy_queue,
            final(self).attacking_enemy == old(self).attacking_enemy,
            final(self).first_turn == old(self).first_turn,
            ({
                let rf0 = old(self).reflex->Some_0;
                rf0.result is None && ticked_elapsed(rf0, delta_ms) < rf0.duration_ms
                    ==> *final(self) == (BattleSession {
                    reflex: Some(ReflexState { elapsed_ms: ticked_elapsed(rf0, delta_ms), ..rf0 }),
                    ..*old(self)
                })
            }),
            ({
                let rf0 = old(self).reflex->Some_0;
                let p = old(self).pending_attack->Some_0;
                let outcome = if rf0.result is Some {
                    rf0.result->Some_0
                } else {
                    ReflexSuccess::Miss
                };
                let scaled = scaled_damage_spec(p.damage, outcome, false);
                rf0.result is Some || ticked_elapsed(rf0, delta_ms) >= rf0.duration_ms ==> {
                &&& final(self).reflex is None
                &&& final(self).pending_attack is None
                &&& final(self).enemies@.len() == old(self).enemies@.len()
                &&& forall|t: usize| t < old(self).enemies@.len()
                    ==> #[trigger] final(self).enemies@[t as int] == if p.targets@.contains(t) {
                    struck_enemy(
                        old(self).enemies@[t as int],
                        scaled,
                        p.apply_poison,
                        p.apply_weak,
                        p.apply_stun,
                        p.flags,
                        if p.flags.wind {
                            spread_from(old(self).enemies@, p.targets@, t as int)
                        } else {
                            0u32
                        },
                    )
                } else {
                    old(self).enemies@[t as int]
                }
                &&& (final(self).any_enemy_alive() ==> final(self).phase == Phase::PlayerTurn
                    && final(self).player == old(self).player)
                &&& (!final(self).any_enemy_alive() ==> final(self).phase == Phase::Victory
                    && final(self).player == (PlayerState {
                    health: Health {
                        current: (if old(self).player.relics@.contains(Relic::BurningBlood) {
                            if old(self).player.health.current + VICTORY_HEAL
                                <= old(self).player.health.max {
                                (old(self).player.health.current + VICTORY_HEAL) as i64
                            } else {
                                old(self).player.health.max as i64
                            }
                        } else {
                            old(self).player.health.current
                        }),
                        max: old(self).player.health.max,
                    },
                    ..old(self).player
                }))
                }
            }),
    {
        let mut rf = self.reflex.take().unwrap();
        rf.tick(delta_ms);
        if rf.result.is_none() && !rf.expired() {
            self.reflex = Some(rf);
            return ;
        }
        let outcome = match rf.result {
            Some(x) => x,
            None => ReflexSuccess::Miss,
        };
        let p = self.pending_attack.take().unwrap();
        let scaled = scaled_damage(p.damage, outcome, false);
        let ghost es0 = self.enemies@;
        let mut spreads: Vec<u32> = Vec::new();
        if p.flags.wind {
            let mut k: usize = 0;
            while k < p.targets.len()
                invariant
                    old(self).wf(),
                    self.enemies@ == es0,
                    es0 == old(self).enemies@,
                    old(self).pending_attack matches Some(pp) && pp.targets@ == p.targets@,
                    k <= p.targets@.len(),
                    spreads@.len() == k,
                    forall|k2: int| 0 <= k2 < k ==> #[trigger] spreads@[k2] == spread_from(
                        es0,
                        p.targets@,
                        p.targets@[k2] as int,
                    ),
                decreases p.targets@.len() - k,
            {
                let t = p.targets[k];
                let mut acc: u32 = 0;
                let mut m: usize = 0;
                while m < p.targets.len()
                    invariant
                        old(self).wf(),
                        self.enemies@ == es0,
                        es0 == old(self).enemies@,
                        old(self).pending_attack matches Some(pp) && pp.targets@ == p.targets@,
                        k < p.targets@.len(),
                        t == p.targets@[k as int],
                        m <= p.targets@.len(),
                        acc == spread_from(es0, p.targets@.take(m as int), t as int),
                    decreases p.targets@.len() - m,
                {
                    proof {
                        assert(p.targets@.take(m + 1).drop_last() =~= p.targets@.take(m as int));
                        assert(p.targets@.take(m + 1).last() == p.targets@[m as int]);
                    }
                    if m != k {
                        let s = p.targets[m];
                        proof {
                            assert(p.targets@[m as int] != p.targets@[k as int]);
                        }
                        acc = saturating_cap_add(acc, self.enemies[s].status.burning);
                    }
                    m = m + 1;
                }
                proof {
                    assert(p.targets@.take(p.targets@.len() as int) =~= p.targets@);
                }
                spreads.push(acc);
                k = k + 1;
            }
        }
        let mut k: usize = 0;
        while k < p.targets.len()
            invariant
                old(self).wf(),
                old(self).phase == Phase::PlayerAttackAnimating,
                es0 == old(self).enemies@,
                old(self).pending_attack matches Some(pp) && pp.targets@ == p.targets@
                    && pp.apply_poison == p.apply_poison && pp.apply_weak == p.apply_weak
                    && pp.apply_stun == p.apply_stun && pp.flags == p.flags,
                scaled <= 2 * REFLEX_DAMAGE_CAP,
                p.flags.wind ==> spreads@.len() == p.targets@.len(),
                p.flags.wind ==> forall|k2: int| 0 <= k2 < p.targets@.len()
                    ==> #[trigger] spreads@[k2] == spread_from(
                    es0,
                    p.targets@,
                    p.targets@[k2] as int,
                ),
                k <= p.targets@.len(),
                self.player == old(self).player,
                self.hand@ == old(self).hand@,
                self.deck@ == old(self).deck@,
                self.discard@ == old(self).discard@,
                self.phase == old(self).phase,
                self.first_turn == old(self).first_turn,
                self.enemy_queue == old(self).enemy_queue,
                self.attacking_enemy == old(self).attacking_enemy,
                self.pending_attack is None,
                self.reflex is None,
                self.enemies@.len() == es0.len(),
                forall|t: usize| t < es0.len() ==> #[trigger] self.enemies@[t as int] == if (
                exists|j: int| 0 <= j < k && p.targets@[j] == t) {
                    struck_enemy(
                        es0[t as int],
                        scaled,
                        p.apply_poison,
                        p.apply_weak,
                        p.apply_stun,
                        p.flags,
                        if p.flags.wind {
                            spread_from(es0, p.targets@, t as int)
                        } else {
                            0u32
                        },
                    )
                } else {
                    es0[t as int]
                },
                forall|i: int| 0 <= i < self.enemies@.len() ==> (#[trigger] self.enemies@[i]).wf(),
            decreases p.targets@.len() - k,
        {
            let t = p.targets[k];
            proof {
                assert_by_contradiction!(!(exists|j: int| 0 <= j < k && p.targets@[j] == t), {
                    let j = choose|j: int| 0 <= j < k && p.targets@[j] == t;
                    assert(p.targets@[j] != p.targets@[k as int]);
                });
                assert(self.enemies@[t as int] == es0[t as int]);
                assert(es0[t as int].alive);
                assert(es0[t as int].wf());
            }
            let spread: u32 = if p.flags.wind {
                spreads[k]
            } else {
                0
            };
            let e = &mut self.enemies[t];
            Self::strike_one(e, scaled, p.apply_poison, p.apply_weak, p.apply_stun, p.flags, spread);
            proof {
                assert forall|t2: usize| t2 < es0.len() implies #[trigger] self.enemies@[t2 as int]
                    == if (exists|j: int| 0 <= j < k + 1 && p.targets@[j] == t2) {
                    struck_enemy(
                        es0[t2 as int],
                        scaled,
                        p.apply_poison,
                        p.apply_weak,
                        p.apply_stun,
                        p.flags,
                        if p.flags.wind {
                            spread_from(es0, p.targets@, t2 as int)
                        } else {
                            0u32
                        },
                    )
                } else {
                    es0[t2 as int]
                } by {
                    if t2 == t {
                        assert(0 <= k < k + 1 && p.targets@[k as int] == t2);
                    } else {
                        if exists|j: int| 0 <= j < k + 1 && p.targets@[j] == t2 {
                            let j = choose|j: int| 0 <= j < k + 1 && p.targets@[j] == t2;
                            assert(j != k);
                            assert(0 <= j < k && p.targets@[j] == t2);
                        }
                    }
                }
            }
            k = k + 1;
        }
        proof {
            assert forall|t: usize| t < es0.len() implies #[trigger] self.enemies@[t as int] == if p.targets@.contains(
                t,
            ) {
                struck_enemy(
                    es0[t as int],
                    scaled,
                    p.apply_poison,
                    p.apply_weak,
                    p.apply_stun,
                    p.flags,
                    if p.flags.wind {
                        spread_from(es0, p.targets@, t as int)
                    } else {
                        0u32
                    },
                )
            } else {
                es0[t as int]
            } by {
                if p.targets@.contains(t) {
                    let j = choose|j: int| 0 <= j < p.targets@.len() && p.targets@[j] == t;
                    assert(0 <= j < p.targets@.len() && p.targets@[j] == t);
                } else {
                    assert_by_contradiction!(
                        !(exists|j: int| 0 <= j < p.targets@.len() && p.targets@[j] == t),
                        {
                            let j = choose|j: int|
                                0 <= j < p.targets@.len() && p.targets@[j] == t;
                            assert(p.targets@.contains(t));
                        }
                    );
                }
            }
        }
        if self.check_any_enemy_alive() {
            self.phase = Phase::PlayerTurn;
        } else {
            self.victory_heal();
            self.phase = Phase::Victory;
        }
    }

    /// Advance the enemy-attack phase by an elapsed-time delta for the
    /// enemy marked attacking.
    ///
    /// On first entry (no reflex in flight) the enemy takes its
    /// start-of-turn poison and burning; an enemy that dies of them leaves
    /// the battle at once — victory if it was the last. A stunned enemy
    /// spends the stun and skips its action entirely. Otherwise its block
    /// resets and its move's block is gained, its outgoing damage runs
    /// through the attacker-side pipeline (consuming one weak if the attack
    /// deals damage), and a damaging attack spawns the defensive reflex
    /// while a harmless one resolves at once.
    ///
    /// With a reflex in flight the timer advances; once a result is set or
    /// the timer expires, the outcome scales the damage down, the player's
    /// block soaks it, the move's statuses and gold theft land, the enemy
    /// rolls its next intent (its frozen fading by one), and the battle
    /// goes on with the enemy turn — or ends in defeat if the player's
    /// health is gone.
    pub fn step_enemy_attack(&mut self, delta_ms: u32)
        requires
            old(self).wf(),
            old(self).phase == Phase::EnemyAttackAnimating,
        ensures
            final(self).wf(),
            final(self).hand@ == old(self).hand@,
            final(self).deck@ == old(self).deck@,
            final(self).discard@ == old(self).discard@,
            final(self).enemy_queue == old(self).enemy_queue,
            final(self).first_turn == old(self).first_turn,
            final(self).player.class == old(self).player.class,
            final(self).player.relics@ == old(self).player.relics@,
            final(self).player.potions@ == old(self).player.potions@,
            final(self).player.spell@ == old(self).player.spell@,
            final(self).player.combo == old(self).player.combo,
            final(self).player.energy_current == old(self).player.energy_current,
            final(self).player.mana == old(self).player.mana,
            // first entry, enemy dies of its own damage over time
            ({
                let i = old(self).attacking_enemy->Some_0;
                let e0 = old(self).enemies@[i as int];
                let dot = e0.status.poison + e0.status.burning;
                old(self).reflex is None && e0.health.current - dot <= 0 ==> {
                    &&& final(self).enemies@ == old(self).enemies@.update(
                        i as int,
                        EnemyState {
                            status: e0.status.ticked(),
                            health: Health {
                                current: (e0.health.current - dot) as i64,
                                max: e0.health.max,
                            },
                            alive: false,
                            ..e0
                        },
                    )
                    &&& final(self).attacking_enemy is None
                    &&& final(self).reflex is None
                    &&& (final(self).any_enemy_alive() ==> final(self).phase == Phase::EnemyTurn
                        && final(self).player == old(self).player)
                    &&& (!final(self).any_enemy_alive() ==> final(self).phase == Phase::Victory
                        && final(self).player.health.current == (
                        if old(self).player.relics@.contains(Relic::BurningBlood) {
                            if old(self).player.health.current + VICTORY_HEAL
                                <= old(self).player.health.max {
                                old(self).player.health.current + VICTORY_HEAL
                            } else {
                                old(self).player.health.max as int
                            }
                        } else {
                            old(self).player.health.current as int
                        }) && final(self).player.gold == old(self).player.gold
                        && final(self).player.status == old(self).player.status)
                }
            }),
            // first entry, enemy survives but is stunned: the stun is spent
            // and the action skipped
            ({
                let i = old(self).attacking_enemy->Some_0;
                let e0 = old(self).enemies@[i as int];
                let dot = e0.status.poison + e0.status.burning;
                old(self).reflex is None && e0.health.current - dot >= 1 && e0.status.stun > 0
                    ==> {
                    &&& final(self).enemies@ == old(self).enemies@.update(
                        i as int,
                        EnemyState {
                            status: StatusStore {
                                stun: fade(e0.status.ticked().stun),
                                ..e0.status.ticked()
                            },
                            health: Health {
                                current: (e0.health.current - dot) as i64,
                                max: e0.health.max,
                            },
                            block: 0u32,
                            ..e0
                        },
                    )
                    &&& final(self).attacking_enemy is None
                    &&& final(self).reflex is None
                    &&& final(self).phase == Phase::EnemyTurn
                    &&& final(self).player == old(self).player
                }
            }),
            // first entry, the enemy acts: its attack goes through the
            // attacker-side pipeline; damage spawns the defensive reflex,
            // a harmless move resolves at once
            ({
                let i = old(self).attacking_enemy->Some_0;
                let e0 = old(self).enemies@[i as int];
                let m0 = e0.next_move@;
                let dot = e0.status.poison + e0.status.burning;
                let ticked = e0.status.ticked();
                let attack = attack_damage_spec(m0.damage, ticked, false);
                old(self).reflex is None && e0.health.current - dot >= 1 && e0.status.stun == 0
                    && attack > 0 ==> {
                    &&& final(self).enemies@ == old(self).enemies@.update(
                        i as int,
                        EnemyState {
                            status: StatusStore {
                                weak: (if m0.damage > 0 {
                                    fade(ticked.weak)
                                } else {
                                    ticked.weak
                                }),
                                ..ticked
                            },
                            health: Health {
                                current: (e0.health.current - dot) as i64,
                                max: e0.health.max,
                            },
                            block: m0.block,
                            ..e0
                        },
                    )
                    &&& final(self).attacking_enemy == old(self).attacking_enemy
                    &&& final(self).phase == Phase::EnemyAttackAnimating
                    &&& final(self).reflex == Some(
                        ReflexState {
                            duration_ms: 1000u32,
                            elapsed_ms: 0u32,
                            window_start: 700u32,
                            window_end: 900u32,
                            result: Option::<ReflexSuccess>::None,
                            is_defensive: true,
                            base_damage: attack,
                        },
                    )
                    &&& final(self).player == old(self).player
                }
            }),
            ({
                let i = old(self).attacking_enemy->Some_0;
                let e0 = old(self).enemies@[i as int];
                let m0 = e0.next_move@;
                let dot = e0.status.poison + e0.status.burning;
                let ticked = e0.status.ticked();
                let attack = attack_damage_spec(m0.damage, ticked, false);
                old(self).reflex is None && e0.health.current - dot >= 1 && e0.status.stun == 0
                    && attack == 0 ==> {
                    &&& final(self).enemies@.len() == old(self).enemies@.len()
                    &&& final(self).enemies@[i as int].status == StatusStore {
                        weak: (if m0.damage > 0 {
                            fade(ticked.weak)
                        } else {
                            ticked.weak
                        }),
                        ..ticked
                    }
                    &&& final(self).enemies@[i as int].health.current == e0.health.current - dot
                    &&& final(self).enemies@[i as int].block == m0.block
                    &&& final(self).enemies@[i as int].alive == e0.alive
                    &&& final(self).enemies@[i as int].kind == e0.kind
                    &&& (exists|roll: u32|
                        roll < 100 && final(self).enemies@[i as int].next_move@
                            == generate_move_spec(e0.kind, m0.is_charging, roll))
                    &&& (forall|j: int|
                        0 <= j < old(self).enemies@.len() && j != i ==> final(self).enemies@[j]
                            == #[trigger] old(self).enemies@[j])
                    &&& final(self).attacking_enemy is None
                    &&& final(self).reflex is None
                    &&& final(self).phase == Phase::EnemyTurn
                    &&& final(self).player.status == old(self).player.status.applied(
                        StatusKind::Poison,
                        m0.poison,
                    ).applied(StatusKind::Weak, m0.weak)
                    &&& final(self).player.gold == old(self).player.gold - min_u32(
                        m0.steal_gold,
                        old(self).player.gold,
                    )
                    &&& final(self).player.health == old(self).player.health
                    &&& final(self).player.block == old(self).player.block
                }
            }),
            // reflex in flight, not resolved: only the timer advances
            ({
                let rf0 = old(self).reflex->Some_0;
                old(self).reflex is Some && rf0.result is None && ticked_elapsed(rf0, delta_ms)
                    < rf0.duration_ms ==> *final(self) == (BattleSession {
                    reflex: Some(ReflexState { elapsed_ms: ticked_elapsed(rf0, delta_ms), ..rf0 }),
                    ..*old(self)
                })
            }),
            // reflex resolved: the outcome scales the damage, the player is
            // struck, the move's side effects land, and the enemy rolls its
            // next intent
            ({
                let i = old(self).attacking_enemy->Some_0;
                let e0 = old(self).enemies@[i as int];
                let m0 = e0.next_move@;
                let rf0 = old(self).reflex->Some_0;
                let outcome = if rf0.result is Some {
                    rf0.result->Some_0
                } else {
                    ReflexSuccess::Miss
                };
                let scaled = scaled_damage_spec(rf0.base_damage, outcome, true);
                let consumed = min_u32(scaled, old(self).player.block);
                let hp_loss = scaled - consumed;
                old(self).reflex is Some && (rf0.result is Some || ticked_elapsed(rf0, delta_ms)
                    >= rf0.duration_ms) ==> {
                    &&& final(self).player.block == old(self).player.block - consumed
                    &&& final(self).player.health.current == old(self).player.health.current
                        - hp_loss
                    &&& final(self).player.health.max == old(self).player.health.max
                    &&& final(self).player.status == old(self).player.status.applied(
                        StatusKind::Poison,
                        m0.poison,
                    ).applied(StatusKind::Weak, m0.weak)
                    &&& final(self).player.gold == old(self).player.gold - min_u32(
                        m0.steal_gold,
                        old(self).player.gold,
                    )
                    &&& final(self).enemies@.len() == old(self).enemies@.len()
                    &&& final(self).enemies@[i as int].status == StatusStore {
                        frozen: fade(e0.status.frozen),
                        ..e0.status
                    }
                    &&& final(self).enemies@[i as int].health == e0.health
                    &&& final(self).enemies@[i as int].block == e0.block
                    &&& final(self).enemies@[i as int].alive == e0.alive
                    &&& final(self).enemies@[i as int].kind == e0.kind
                    &&& (exists|roll: u32|
                        roll < 100 && final(self).enemies@[i as int].next_move@
                            == generate_move_spec(e0.kind, m0.is_charging, roll))
                    &&& (forall|j: int|
                        0 <= j < old(self).enemies@.len() && j != i ==> final(self).enemies@[j]
                            == #[trigger] old(self).enemies@[j])
                    &&& final(self).reflex is None
                    &&& final(self).attacking_enemy is None
                    &&& (final(self).player.health.current <= 0 ==> final(self).phase
                        == Phase::Defeat)
                    &&& (final(self).player.health.current >= 1 ==> final(self).phase
                        == Phase::EnemyTurn)
                }
            }),
    {
        let i = self.attacking_enemy.unwrap();
        if self.reflex.is_none() {
            let kind = self.enemies[i].kind;
            let was_charging = self.enemies[i].next_move.is_charging;
            let e = &mut self.enemies[i];
            let dot = e.status.tick_start_of_turn();
            e.health.current = e.health.current - dot as i64;
            if e.health.current <= 0 {
                e.alive = false;
                self.attacking_enemy = None;
                if self.check_any_enemy_alive() {
                    self.phase = Phase::EnemyTurn;
                } else {
                    self.victory_heal();
                    self.phase = Phase::Victory;
                }
                return ;
            }
            let e = &mut self.enemies[i];
            e.block = 0;
            if e.status.stun > 0 {
                e.status.stun = e.status.stun - 1;
                self.attacking_enemy = None;
                self.phase = Phase::EnemyTurn;
                return ;
            }
            let st = self.enemies[i].status;
            let md = self.enemies[i].next_move.damage;
            let mb = self.enemies[i].next_move.block;
            let attack = attack_damage(md, &st, false);
            let e = &mut self.enemies[i];
            if md > 0 && e.status.weak > 0 {
                e.status.weak = e.status.weak - 1;
            }
            e.block = mb;
            if attack > 0 {
                self.reflex = Some(ReflexState::new_defensive(attack));
            } else {
                let m_poison = self.enemies[i].next_move.poison;
                let m_weak = self.enemies[i].next_move.weak;
                let m_steal = self.enemies[i].next_move.steal_gold;
                self.player.status.apply(StatusKind::Poison, m_poison);
                self.player.status.apply(StatusKind::Weak, m_weak);
                let stolen = if m_steal <= self.player.gold {
                    m_steal
                } else {
                    self.player.gold
                };
                self.player.gold = self.player.gold - stolen;
                let next = roll_enemy_move(kind, was_charging);
                let ghost next_model = next@;
                let ghost w = choose|roll: u32|
                    roll < 100 && next_model == generate_move_spec(kind, was_charging, roll);
                self.enemies[i].next_move = next;
                proof {
                    assert(w < 100 && next_model == generate_move_spec(kind, was_charging, w));
                    assert(self.enemies@[i as int].next_move@ == next_model);
                    assert(kind == old(self).enemies@[i as int].kind);
                    assert(was_charging == old(self).enemies@[i as int].next_move@.is_charging);
                    assert(exists|roll: u32|
                        roll < 100 && self.enemies@[i as int].next_move@ == generate_move_spec(
                            old(self).enemies@[i as int].kind,
                            old(self).enemies@[i as int].next_move@.is_charging,
                            roll,
                        ));
                }
                self.attacking_enemy = None;
                self.phase = Phase::EnemyTurn;
            }
        } else {
            let mut rf = self.reflex.take().unwrap();
            rf.tick(delta_ms);
            if rf.result.is_none() && !rf.expired() {
                self.reflex = Some(rf);
                return ;
            }
            let outcome = match rf.result {
                Some(x) => x,
                None => ReflexSuccess::Miss,
            };
            let scaled = scaled_damage(rf.base_damage, outcome, true);
            let (consumed, hp_loss, block_left) = absorb(scaled, self.player.block);
            self.player.block = block_left;
            self.player.health.current = self.player.health.current - hp_loss as i64;
            let kind = self.enemies[i].kind;
            let was_charging = self.enemies[i].next_move.is_charging;
            let m_poison = self.enemies[i].next_move.poison;
            let m_weak = self.enemies[i].next_move.weak;
            let m_steal = self.enemies[i].next_move.steal_gold;
            self.player.status.apply(StatusKind::Poison, m_poison);
            self.player.status.apply(StatusKind::Weak, m_weak);
            let stolen = if m_steal <= self.player.gold {
                m_steal
            } else {
                self.player.gold
            };
            self.player.gold = self.player.gold - stolen;
            let next = roll_enemy_move(kind, was_charging);
            let ghost next_model = next@;
            let ghost w = choose|roll: u32|
                roll < 100 && next_model == generate_move_spec(kind, was_charging, roll);
            let e = &mut self.enemies[i];
            e.next_move = next;
            if e.status.frozen > 0 {
                e.status.frozen = e.status.frozen - 1;
            }
            proof {
                assert(w < 100 && next_model == generate_move_spec(kind, was_charging, w));
                assert(self.enemies@[i as int].next_move@ == next_model);
                assert(kind == old(self).enemies@[i as int].kind);
                assert(was_charging == old(self).enemies@[i as int].next_move@.is_charging);
                assert(exists|roll: u32|
                    roll < 100 && self.enemies@[i as int].next_move@ == generate_move_spec(
                        old(self).enemies@[i as int].kind,
                        old(self).enemies@[i as int].next_move@.is_charging,
                        roll,
                    ));
            }
            self.attacking_enemy = None;
            if self.player.health.current <= 0 {
                self.phase = Phase::Defeat;
            } else {
                self.phase = Phase::EnemyTurn;
            }
        }
    }

    /// Resolve the single active reflex, if any: the elapsed fraction is
    /// scored against the perfect window, a result already set stays, and
    /// input on an expired timer is a Miss. With no reflex in flight the
    /// intent is dropped.
    pub fn trigger_reflex(&mut self)
        requires
            old(self).wf(),
        ensures
            final(self).wf(),
            old(self).reflex is None ==> *final(self) == *old(self),
            old(self).reflex matches Some(rf0) ==> *final(self) == (BattleSession {
                reflex: Some(
                    if rf0.result is Some {
                        rf0
                    } else if rf0.elapsed_ms >= rf0.duration_ms {
                        ReflexState { result: Some(ReflexSuccess::Miss), ..rf0 }
                    } else {
                        ReflexState {
                            result: Some(
                                score_at_spec(
                                    rf0.fraction_mils_spec(),
                                    rf0.window_start,
                                    rf0.window_end,
                                ),
                            ),
                            ..rf0
                        }
                    },
                ),
                ..*old(self)
            }),
    {
        match &mut self.reflex {
            Some(rf) => {
                rf.trigger();
            },
            None => {},
        }
    }

    /// Step the enemy turn. On first entry (no queue yet) an ordered queue
    /// of the living enemies is built and the phase stays put for the next
    /// step. After that, each step pops entries until one names an enemy
    /// still alive — that enemy is marked attacking and the session moves to
    /// its attack phase — or the queue runs out, which ends the enemy turn
    /// and hands the battle back to the player's turn start.
    pub fn step_enemy_turn(&mut self)
        requires
            old(self).wf(),
            old(self).phase == Phase::EnemyTurn,
        ensures
            final(self).wf(),
            final(self).player == old(self).player,
            final(self).enemies@ == old(self).enemies@,
            final(self).hand@ == old(self).hand@,
            final(self).deck@ == old(self).deck@,
            final(self).discard@ == old(self).discard@,
            final(self).pending_attack == old(self).pending_attack,
            final(self).reflex == old(self).reflex,
            old(self).enemy_queue is None ==> {
                &&& final(self).phase == Phase::EnemyTurn
                &&& final(self).attacking_enemy == old(self).attacking_enemy
                &&& final(self).enemy_queue matches Some(q) && (forall|k1: int, k2: int|
                    0 <= k1 < k2 < q@.len() ==> q@[k1] < q@[k2]) && (forall|i: int|
                    0 <= i < old(self).enemies@.len() ==> (#[trigger] q@.contains(i as usize)
                        <==> old(self).enemies@[i].alive))
            },
            old(self).enemy_queue matches Some(q0) ==> {
                let pos = first_living_pos(q0@, old(self).enemies@);
                if pos == -1 {
                    &&& final(self).enemy_queue is None
                    &&& final(self).attacking_enemy is None
                    &&& final(self).phase == Phase::PlayerTurnStart
                } else {
                    &&& final(self).enemy_queue matches Some(q) && q@ == q0@.subrange(
                        pos + 1,
                        q0@.len() as int,
                    )
                    &&& final(self).attacking_enemy == Some(q0@[pos])
                    &&& final(self).phase == Phase::EnemyAttackAnimating
                }
            },
    {
        match self.enemy_queue.take() {
            None => {
                let mut q: Vec<usize> = Vec::new();
                let mut i: usize = 0;
                while i < self.enemies.len()
                    invariant
                        i <= self.enemies@.len(),
                        forall|k: int| 0 <= k < q@.len() ==> (#[trigger] q@[k]) < i
                            && self.enemies@[q@[k] as int].alive,
                        forall|k1: int, k2: int| 0 <= k1 < k2 < q@.len() ==> q@[k1] < q@[k2],
                        forall|j: int| 0 <= j < i && (#[trigger] self.enemies@[j]).alive
                            ==> q@.contains(j as usize),
                    decreases self.enemies@.len() - i,
                {
                    if self.enemies[i].alive {
                        let ghost pre = q@;
                        q.push(i);
                        proof {
                            assert(q@[pre.len() as int] == i);
                            assert forall|j: int|
                                0 <= j <= i && (#[trigger] self.enemies@[j]).alive implies q@.contains(
                                j as usize,
                            ) by {
                                if j < i {
                                    let k0 = choose|k0: int|
                                        0 <= k0 < pre.len() && pre[k0] == j as usize;
                                    assert(q@[k0] == j as usize);
                                } else {
                                    assert(q@[pre.len() as int] == j as usize);
                                }
                            }
                        }
                    }
                    i = i + 1;
                }
                self.enemy_queue = Some(q);
            },
            Some(mut q) => {
                proof {
                    lemma_first_living_pos(q@, self.enemies@);
                }
                let ghost q0 = q@;
                let ghost pos = first_living_pos(q0, self.enemies@);
                let qlen = q.len();
                let mut popped: usize = 0;
                while q.len() > 0
                    invariant
                        old(self).wf(),
                        old(self).phase == Phase::EnemyTurn,
                        self.player == old(self).player,
                        self.enemies@ == old(self).enemies@,
                        self.hand@ == old(self).hand@,
                        self.deck@ == old(self).deck@,
                        self.discard@ == old(self).discard@,
                        self.pending_attack == old(self).pending_attack,
                        self.reflex == old(self).reflex,
                        self.attacking_enemy == old(self).attacking_enemy,
                        self.phase == old(self).phase,
                        self.enemy_queue is None,
                        self.first_turn == old(self).first_turn,
                        old(self).enemy_queue matches Some(qq) && qq@ == q0,
                        q0.len() == qlen,
                        q@ == q0.subrange(popped as int, q0.len() as int),
                        popped <= q0.len(),
                        forall|m: int| 0 <= m < popped ==> !((#[trigger] q0[m])
                            < self.enemies@.len() && self.enemies@[q0[m] as int].alive),
                        pos == first_living_pos(q0, self.enemies@),
                        pos == -1 ==> forall|m: int|
                            0 <= m < q0.len() ==> !((#[trigger] q0[m]) < self.enemies@.len()
                                && self.enemies@[q0[m] as int].alive),
                        pos != -1 ==> 0 <= pos < q0.len() && q0[pos] < self.enemies@.len()
                            && self.enemies@[q0[pos] as int].alive,
                        pos != -1 ==> forall|m: int|
                            0 <= m < pos ==> !((#[trigger] q0[m]) < self.enemies@.len()
                                && self.enemies@[q0[m] as int].alive),
                        forall|k: int| 0 <= k < q0.len() ==> (#[trigger] q0[k])
                            < self.enemies@.len(),
                    decreases q@.len(),
                {
                    let idx = q.remove(0);
                    proof {
                        assert(idx == q0[popped as int]);
                        assert(q@ =~= q0.subrange(popped + 1, q0.len() as int));
                    }
                    popped = popped + 1;
                    if self.enemies[idx].alive {
                        proof {
                            assert(pos == popped - 1);
                            assert forall|i2: int| 0 <= i2 < q@.len() implies (#[trigger] q@[i2])
                                < self.enemies@.len() by {
                                assert(q@[i2] == q0[popped + i2]);
                            }
                        }
                        self.enemy_queue = Some(q);
                        self.attacking_enemy = Some(idx);
                        self.phase = Phase::EnemyAttackAnimating;
                        return ;
                    }
                }
                proof {
                    assert(pos == -1);
                }
                self.enemy_queue = None;
                self.attacking_enemy = None;
                self.phase = Phase::PlayerTurnStart;
            },
        }
    }
}

} // verus!
