//! Core engine of a turn-based deck-building combat game: status effects,
//! a damage pipeline, an elemental spell accumulator, enemy intents, a
//! reflex timing mini-game, and the turn state machine that ties them
//! together.
use vstd::prelude::*;

mod battle;
mod cli;
mod damage;
mod enemies;
mod item_cards;
mod item_potions;
mod item_relics;
mod map;
mod reflex;
mod rng;
mod spell;
mod status;

pub use battle::BattleSession;
pub use battle::card_statused;
pub use battle::combo_after_play;
pub use battle::finisher_triggered;
pub use battle::first_living_pos;
pub use battle::is_card_target;
pub use battle::lemma_first_living_pos;
pub use battle::piles_multiset;
pub use battle::played_attack;
pub use battle::played_total_block;
pub use battle::played_total_damage;
pub use battle::played_wind;
pub use battle::resource_of;
pub use battle::spread_from;
pub use battle::struck_enemy;
pub use cli::Command;
pub use cli::command_of_tokens;
pub use cli::digits_value;
pub use cli::is_digit;
pub use cli::is_space_spec;
pub use cli::is_valid_number;
pub use cli::lower_byte;
pub use cli::matches_keyword;
pub use cli::parse_command;
pub use cli::parse_command_spec;
pub use cli::token_len;
pub use cli::tokens_of;
pub use battle::EnemyState;
pub use battle::HEALTH_FLOOR;
pub use battle::Health;
pub use battle::IntentError;
pub use battle::PendingAttack;
pub use battle::Phase;
pub use battle::PlayerState;
pub use battle::VICTORY_HEAL;
pub use battle::pile_wf;
pub use damage::ATTACK_BASE_CAP;
pub use damage::absorb;
pub use damage::attack_damage;
pub use damage::attack_damage_spec;
pub use damage::lemma_block_never_negative;
pub use damage::lemma_resolve_damage_pure;
pub use damage::min_u32;
pub use damage::mul_three_quarters;
pub use damage::resolve_damage;
pub use damage::resolve_damage_spec;
pub use damage::three_quarters;
pub use enemies::EnemyKind;
pub use enemies::MoveModel;
pub use enemies::NextEnemyMove;
pub use enemies::enemy_max_health;
pub use enemies::enemy_max_health_spec;
pub use enemies::enemy_name;
pub use enemies::generate_enemy_move;
pub use enemies::generate_move_spec;
pub use enemies::lemma_generated_move_wf;
pub use enemies::move_model;
pub use enemies::move_wf;
pub use enemies::plan_encounter;
pub use enemies::plan_encounter_spec;
pub use enemies::roll_enemy_move;
pub use item_cards::Card;
pub use item_cards::CardModel;
pub use item_cards::CharacterClass;
pub use item_cards::Rarity;
pub use item_cards::bash;
pub use item_cards::bash_model;
pub use item_cards::bludgeon;
pub use item_cards::bludgeon_model;
pub use item_cards::clothesline;
pub use item_cards::clothesline_model;
pub use item_cards::deadly_poison;
pub use item_cards::deadly_poison_model;
pub use item_cards::defend;
pub use item_cards::defend_model;
pub use item_cards::essence_card_model;
pub use item_cards::fire_essence;
pub use item_cards::fire_essence_model;
pub use item_cards::flashbang;
pub use item_cards::flashbang_model;
pub use item_cards::fortify;
pub use item_cards::fortify_model;
pub use item_cards::generate_random_card;
pub use item_cards::heavy_blade;
pub use item_cards::heavy_blade_model;
pub use item_cards::ice_essence;
pub use item_cards::ice_essence_model;
pub use item_cards::iron_wave;
pub use item_cards::iron_wave_model;
pub use item_cards::lemma_card_pool_wf;
pub use item_cards::magic_bolt;
pub use item_cards::magic_bolt_model;
pub use item_cards::magic_shield;
pub use item_cards::magic_shield_model;
pub use item_cards::plain_card_model;
pub use item_cards::poison_cloud;
pub use item_cards::poison_cloud_model;
pub use item_cards::quick_slash;
pub use item_cards::quick_slash_model;
pub use item_cards::reward_card;
pub use item_cards::reward_card_spec;
pub use item_cards::shrug_it_off;
pub use item_cards::shrug_it_off_model;
pub use item_cards::source_card_model;
pub use item_cards::starting_deck;
pub use item_cards::starting_deck_model;
pub use item_cards::stone_essence;
pub use item_cards::stone_essence_model;
pub use item_cards::strike;
pub use item_cards::strike_model;
pub use item_cards::uppercut;
pub use item_cards::uppercut_model;
pub use item_cards::wind_essence;
pub use item_cards::wind_essence_model;
pub use item_potions::Potion;
pub use item_potions::get_potion_name;
pub use item_relics::Relic;
pub use item_relics::get_relic_name;
pub use item_relics::has_relic;
pub use map::GameMap;
pub use map::MapNodeData;
pub use map::NodeType;
pub use reflex::BAND_MILS;
pub use reflex::REFLEX_DAMAGE_CAP;
pub use reflex::ReflexState;
pub use reflex::ReflexSuccess;
pub use reflex::lemma_reflex_boundaries;
pub use reflex::scaled_damage;
pub use reflex::scaled_damage_spec;
pub use reflex::score_at;
pub use reflex::score_at_spec;
pub use spell::ActiveSpell;
pub use spell::ComboKind;
pub use spell::ElementFlags;
pub use spell::EssenceInfo;
pub use spell::SpellElement;
pub use spell::SpellModel;
pub use spell::cast_modifier_model;
pub use spell::combo_kind;
pub use spell::detect_combo;
pub use spell::first_element_index;
pub use spell::first_index_matching;
pub use spell::has_element;
pub use spell::lemma_fire_ice_wind_combo;
pub use spell::lemma_fire_then_ice_cancels;
pub use spell::lemma_first_element_index;
pub use spell::lemma_first_index_matching;
pub use spell::scrubbed_history;
pub use spell::opposite_element;
pub use spell::opposite_of;
pub use reflex::ticked_elapsed;
pub use status::StatusKind;
pub use status::StatusStore;
pub use status::cap_add;
pub use status::fade;
pub use status::lemma_status_only_apply_raises;
pub use status::sat_sub;
pub use status::saturating_cap_add;
pub use status::saturating_sub;

verus! {

/// Upper bound kept on every accumulating quantity in the engine (status
/// counters, block, bonus damage, gold, mana). Additions saturate here, so
/// all later arithmetic stays far away from the machine limits.
pub const VALUE_CAP: u32 = 1_000_000;

} // verus!
