//! Enemy archetypes, their fixed weighted move tables, and the
//! charge-then-unleash behaviour. Every rule here is a pure function of the
//! archetype and a uniform roll; the roll itself comes from the random
//! wrapper and is passed in as a plain argument.
use vstd::prelude::*;

use crate::VALUE_CAP;
use crate::map::NodeType;
use crate::rng::roll_below;

verus! {

/// The enemy archetypes.
#[derive(Clone, Copy, Debug, PartialEq, Eq, Structural)]
pub enum EnemyKind {
    Goblin,
    Orc,
    Dragon,
    DarkKnight,
}

/// Starting (and maximum) health of an archetype.
pub open spec fn enemy_max_health_spec(kind: EnemyKind) -> u32 {
    match kind {
        EnemyKind::Goblin => 20u32,
        EnemyKind::Orc => 40u32,
        EnemyKind::Dragon => 150u32,
        EnemyKind::DarkKnight => 80u32,
    }
}

/// Executable counterpart of [`enemy_max_health_spec`].
pub fn enemy_max_health(kind: EnemyKind) -> (hp: u32)
    ensures
        hp == enemy_max_health_spec(kind),
{
    match kind {
        EnemyKind::Goblin => 20,
        EnemyKind::Orc => 40,
        EnemyKind::Dragon => 150,
        EnemyKind::DarkKnight => 80,
    }
}

/// Display name of an archetype.
pub fn enemy_name(kind: EnemyKind) -> (name: String)
    ensures
        kind is Goblin ==> name@ == "Goblin"@,
        kind is Orc ==> name@ == "Orc"@,
        kind is Dragon ==> name@ == "Dragon"@,
        kind is DarkKnight ==> name@ == "Dark Knight"@,
{
    match kind {
        EnemyKind::Goblin => "Goblin".to_owned(),
        EnemyKind::Orc => "Orc".to_owned(),
        EnemyKind::Dragon => "Dragon".to_owned(),
        EnemyKind::DarkKnight => "Dark Knight".to_owned(),
    }
}

/// An enemy's precomputed next action, displayed as its intent before it
/// resolves.
#[derive(Clone, Debug)]
pub struct NextEnemyMove {
    pub name: String,
    pub damage: u32,
    pub block: u32,
    pub poison: u32,
    pub weak: u32,
    pub steal_gold: u32,
    pub is_charging: bool,
}

/// Mathematical model of a move.
#[verifier::ext_equal]
pub ghost struct MoveModel {
    pub name: Seq<char>,
    pub damage: u32,
    pub block: u32,
    pub poison: u32,
    pub weak: u32,
    pub steal_gold: u32,
    pub is_charging: bool,
}

impl View for NextEnemyMove {
    type V = MoveModel;

    open spec fn view(&self) -> MoveModel {
        MoveModel {
            name: self.name@,
            damage: self.damage,
            block: self.block,
            poison: self.poison,
            weak: self.weak,
            steal_gold: self.steal_gold,
            is_charging: self.is_charging,
        }
    }
}

/// A move whose numbers stay within the engine cap.
pub open spec fn move_wf(m: MoveModel) -> bool {
    m.damage <= VALUE_CAP && m.block <= VALUE_CAP && m.poison <= VALUE_CAP && m.weak <= VALUE_CAP
        && m.steal_gold <= VALUE_CAP
}

/// A row of the move tables.
pub open spec fn move_model(
    name: Seq<char>,
    damage: u32,
    block: u32,
    poison: u32,
    weak: u32,
    steal_gold: u32,
    is_charging: bool,
) -> MoveModel {
    MoveModel { name, damage, block, poison, weak, steal_gold, is_charging }
}

/// The move an archetype picks for a uniform roll in `[0, 100)`. A turn
/// spent charging always unleashes the scripted release move, ignoring the
/// roll; otherwise each archetype draws from its fixed weighted table.
pub open spec fn generate_move_spec(kind: EnemyKind, prev_was_charging: bool, roll: u32) -> MoveModel {
    if prev_was_charging {
        move_model("Fire Breath"@, 50, 0, 0, 0, 0, false)
    } else {
        match kind {
            EnemyKind::Goblin => {
                if roll < 60 {
                    move_model("Stabs"@, 5, 0, 0, 0, 0, false)
                } else {
                    move_model("Thieve"@, 3, 0, 0, 0, 10, false)
                }
            },
            EnemyKind::Orc => {
                if roll < 50 {
                    move_model("Smashes"@, 12, 0, 0, 0, 0, false)
                } else if roll < 80 {
                    move_model("Heavy Blow"@, 18, 0, 0, 0, 0, false)
                } else {
                    move_model("Defends"@, 0, 15, 0, 0, 0, false)
                }
            },
            EnemyKind::DarkKnight => {
                if roll < 40 {
                    move_model("Executes"@, 18, 0, 0, 0, 0, false)
                } else if roll < 70 {
                    move_model("Obliterates"@, 25, 0, 0, 0, 0, false)
                } else {
                    move_model("Dark Magic"@, 10, 0, 3, 0, 0, false)
                }
            },
            EnemyKind::Dragon => {
                if roll < 40 {
                    move_model("Incinerates"@, 25, 0, 0, 0, 0, false)
                } else if roll < 70 {
                    move_model("Roar"@, 15, 0, 0, 2, 0, false)
                } else {
                    move_model("Deep Breath"@, 0, 0, 0, 0, 0, true)
                }
            },
        }
    }
}

/// Every move in the tables stays within the engine cap.
pub proof fn lemma_generated_move_wf(kind: EnemyKind, prev_was_charging: bool, roll: u32)
    ensures
        move_wf(generate_move_spec(kind, prev_was_charging, roll)),
{
}

/// Build the move an archetype picks for a given roll.
pub fn generate_enemy_move(kind: EnemyKind, prev_was_charging: bool, roll: u32) -> (m: NextEnemyMove)
    ensures
        m@ == generate_move_spec(kind, prev_was_charging, roll),
        move_wf(m@),
{
    proof {
        lemma_generated_move_wf(kind, prev_was_charging, roll);
    }
    if prev_was_charging {
        return NextEnemyMove {
            name: "Fire Breath".to_owned(),
            damage: 50,
            block: 0,
            poison: 0,
            weak: 0,
            steal_gold: 0,
            is_charging: false,
        };
    }
    match kind {
        EnemyKind::Goblin => {
            if roll < 60 {
                NextEnemyMove {
                    name: "Stabs".to_owned(),
                    damage: 5,
                    block: 0,
                    poison: 0,
                    weak: 0,
                    steal_gold: 0,
                    is_charging: false,
                }
            } else {
                NextEnemyMove {
                    name: "Thieve".to_owned(),
                    damage: 3,
                    block: 0,
                    poison: 0,
                    weak: 0,
                    steal_gold: 10,
                    is_charging: false,
                }
            }
        },
        EnemyKind::Orc => {
            if roll < 50 {
                NextEnemyMove {
                    name: "Smashes".to_owned(),
                    damage: 12,
                    block: 0,
                    poison: 0,
                    weak: 0,
                    steal_gold: 0,
                    is_charging: false,
                }
            } else if roll < 80 {
                NextEnemyMove {
                    name: "Heavy Blow".to_owned(),
                    damage: 18,
                    block: 0,
                    poison: 0,
                    weak: 0,
                    steal_gold: 0,
                    is_charging: false,
                }
            } else {
                NextEnemyMove {
                    name: "Defends".to_owned(),
                    damage: 0,
                    block: 15,
                    poison: 0,
                    weak: 0,
                    steal_gold: 0,
                    is_charging: false,
                }
            }
        },
        EnemyKind::DarkKnight => {
            if roll < 40 {
                NextEnemyMove {
                    name: "Executes".to_owned(),
                    damage: 18,
                    block: 0,
                    poison: 0,
                    weak: 0,
                    steal_gold: 0,
                    is_charging: false,
                }
            } else if roll < 70 {
                NextEnemyMove {
                    name: "Obliterates".to_owned(),
                    damage: 25,
                    block: 0,
                    poison: 0,
                    weak: 0,
                    steal_gold: 0,
                    is_charging: false,
                }
            } else {
                NextEnemyMove {
                    name: "Dark Magic".to_owned(),
                    damage: 10,
                    block: 0,
                    poison: 3,
                    weak: 0,
                    steal_gold: 0,
                    is_charging: false,
                }
            }
        },
        EnemyKind::Dragon => {
            if roll < 40 {
                NextEnemyMove {
                    name: "Incinerates".to_owned(),
                    damage: 25,
                    block: 0,
                    poison: 0,
                    weak: 0,
                    steal_gold: 0,
                    is_charging: false,
                }
            } else if roll < 70 {
                NextEnemyMove {
                    name: "Roar".to_owned(),
                    damage: 15,
                    block: 0,
                    poison: 0,
                    weak: 2,
                    steal_gold: 0,
                    is_charging: false,
                }
            } else {
                NextEnemyMove {
                    name: "Deep Breath".to_owned(),
                    damage: 0,
                    block: 0,
                    poison: 0,
                    weak: 0,
                    steal_gold: 0,
                    is_charging: true,
                }
            }
        },
    }
}

/// Draw a fresh roll and pick the archetype's next move from its table.
pub fn roll_enemy_move(kind: EnemyKind, prev_was_charging: bool) -> (m: NextEnemyMove)
    ensures
        exists|roll: u32| roll < 100 && m@ == generate_move_spec(kind, prev_was_charging, roll),
        move_wf(m@),
{
    let roll = roll_below(100);
    let m = generate_enemy_move(kind, prev_was_charging, roll);
    proof {
        assert(roll < 100 && m@ == generate_move_spec(kind, prev_was_charging, roll));
    }
    m
}

/// The enemies a battle node spawns, as a pure function of the node's type,
/// the current depth and two uniform rolls: a boss node spawns the Dragon, an
/// elite node the Dark Knight; deeper ordinary battles lean on Orcs, early
/// ones on Goblin packs.
pub open spec fn plan_encounter_spec(
    node_type: NodeType,
    level: usize,
    roll_a: u32,
    roll_b: u32,
) -> Seq<EnemyKind> {
    if node_type == NodeType::Boss {
        seq![EnemyKind::Dragon]
    } else if node_type == NodeType::Elite {
        seq![EnemyKind::DarkKnight]
    } else if level >= 3 {
        if roll_a < 60 {
            seq![EnemyKind::Orc, EnemyKind::Goblin]
        } else {
            seq![EnemyKind::Orc]
        }
    } else {
        if roll_a < 50 {
            if roll_b < 30 {
                seq![EnemyKind::Goblin, EnemyKind::Goblin, EnemyKind::Goblin]
            } else {
                seq![EnemyKind::Goblin, EnemyKind::Goblin]
            }
        } else {
            seq![EnemyKind::Orc]
        }
    }
}

/// Executable counterpart of [`plan_encounter_spec`].
pub fn plan_encounter(node_type: NodeType, level: usize, roll_a: u32, roll_b: u32) -> (r: Vec<
    EnemyKind,
>)
    ensures
        r@ == plan_encounter_spec(node_type, level, roll_a, roll_b),
        1 <= r@.len() <= 3,
{
    let mut enemies: Vec<EnemyKind> = Vec::new();
    if node_type == NodeType::Boss {
        enemies.push(EnemyKind::Dragon);
    } else if node_type == NodeType::Elite {
        enemies.push(EnemyKind::DarkKnight);
    } else if level >= 3 {
        if roll_a < 60 {
            enemies.push(EnemyKind::Orc);
            enemies.push(EnemyKind::Goblin);
        } else {
            enemies.push(EnemyKind::Orc);
        }
    } else {
        if roll_a < 50 {
            enemies.push(EnemyKind::Goblin);
            enemies.push(EnemyKind::Goblin);
            if roll_b < 30 {
                enemies.push(EnemyKind::Goblin);
            }
        } else {
            enemies.push(EnemyKind::Orc);
        }
    }
    proof {
        assert(enemies@ =~= plan_encounter_spec(node_type, level, roll_a, roll_b));
    }
    enemies
}

} // verus!
