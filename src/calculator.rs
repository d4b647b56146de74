//! Editable entities (the player and enemy blocks), the request sent for a
//! computation and the result that comes back.
use std::rc::Rc;
use vstd::prelude::*;
use crate::abilities::MergeData;
use crate::ids::{AbilityId, ChampionId, ItemId, RuneId};
use crate::model::{Attacks, BasicStats, Damages, Dragons, SimpleStats, Stats, ValueException};

verus! {

/// Number of resistance variations for jungle monsters.
pub const L_MSTR: usize = 7;

/// Number of plate counts a tower can have: `0..=5`.
pub const L_TWRD: usize = 6;

/// Levels of the four abilities of a champion.
#[derive(Clone, Copy, Debug, PartialEq, Eq, Structural)]
pub struct AbilityLevels {
    pub q: u8,
    pub w: u8,
    pub e: u8,
    pub r: u8,
}

/// Whether a champion's adaptive stat is physical or magic.
#[derive(Clone, Copy, Debug, PartialEq, Eq, Structural)]
pub enum AdaptativeType {
    Physical,
    Magic,
}

/// Presentation metadata of one damage source held by the player.
#[derive(Clone, Copy, Debug, PartialEq, Eq, Structural)]
pub struct TypeMetadata<T> {
    pub kind: T,
}

/// Data of one player: the local player with a full stat block, an enemy
/// with the reduced one. When `infer_stats` is set, `stats` is a placeholder
/// that the next computed result overwrites; `is_mega_gnar` only matters for
/// that champion, and `stacks` only for champions that scale with stacks.
#[derive(Debug, PartialEq)]
pub struct PlayerData<T> {
    pub stats: T,
    pub items: Vec<ItemId>,
    pub item_exceptions: Vec<ValueException>,
    pub stacks: u32,
    pub level: u8,
    pub infer_stats: bool,
    pub is_mega_gnar: bool,
    pub champion_id: ChampionId,
}

/// Mathematical value of a [`PlayerData`].
pub ghost struct PlayerDataView<T> {
    pub stats: T,
    pub items: Seq<ItemId>,
    pub item_exceptions: Seq<ValueException>,
    pub stacks: u32,
    pub level: u8,
    pub infer_stats: bool,
    pub is_mega_gnar: bool,
    pub champion_id: ChampionId,
}

impl<T> View for PlayerData<T> {
    type V = PlayerDataView<T>;

    open spec fn view(&self) -> PlayerDataView<T> {
        PlayerDataView {
            stats: self.stats,
            items: self.items@,
            item_exceptions: self.item_exceptions@,
            stacks: self.stacks,
            level: self.level,
            infer_stats: self.infer_stats,
            is_mega_gnar: self.is_mega_gnar,
            champion_id: self.champion_id,
        }
    }
}

/// Block data of a newly created player holding `stats`.
pub open spec fn fresh_data<T>(stats: T) -> PlayerDataView<T> {
    PlayerDataView {
        stats,
        items: Seq::empty(),
        item_exceptions: Seq::empty(),
        stacks: 0,
        level: 0,
        infer_stats: false,
        is_mega_gnar: false,
        champion_id: ChampionId(0),
    }
}

/// A copy of `v`, element by element.
pub fn copy_vec<T: Copy>(v: &Vec<T>) -> (r: Vec<T>)
    ensures
        r@ == v@,
{
    let mut r: Vec<T> = Vec::with_capacity(v.len());
    let mut i: usize = 0;
    while i < v.len()
        invariant
            i <= v.len(),
            r@ == v@.subrange(0, i as int),
        decreases v.len() - i,
    {
        r.push(v[i]);
        i = i + 1;
    }
    assert(r@ =~= v@);
    r
}

impl<T: Copy> Clone for PlayerData<T> {
    fn clone(&self) -> (r: Self)
        ensures
            r@ == self@,
    {
        PlayerData {
            stats: self.stats,
            items: copy_vec(&self.items),
            item_exceptions: copy_vec(&self.item_exceptions),
            stacks: self.stacks,
            level: self.level,
            infer_stats: self.infer_stats,
            is_mega_gnar: self.is_mega_gnar,
            champion_id: self.champion_id,
        }
    }
}

impl Default for PlayerData<Stats> {
    fn default() -> (r: Self)
        ensures
            r@ == fresh_data(Stats::zero()),
    {
        PlayerData {
            stats: Stats::default(),
            items: Vec::new(),
            item_exceptions: Vec::new(),
            stacks: 0,
            level: 0,
            infer_stats: false,
            is_mega_gnar: false,
            champion_id: ChampionId(0),
        }
    }
}

impl Default for PlayerData<SimpleStats> {
    fn default() -> (r: Self)
        ensures
            r@ == fresh_data(SimpleStats::zero()),
    {
        PlayerData {
            stats: SimpleStats::default(),
            items: Vec::new(),
            item_exceptions: Vec::new(),
            stacks: 0,
            level: 0,
            infer_stats: false,
            is_mega_gnar: false,
            champion_id: ChampionId(0),
        }
    }
}

/// The local player: runes, rune overrides, ability levels and its block data.
#[derive(Debug, PartialEq)]
pub struct Player {
    pub runes: Vec<RuneId>,
    pub rune_exceptions: Vec<ValueException>,
    pub abilities: AbilityLevels,
    pub data: PlayerData<Stats>,
}

/// Mathematical value of a [`Player`].
pub ghost struct PlayerView {
    pub runes: Seq<RuneId>,
    pub rune_exceptions: Seq<ValueException>,
    pub abilities: AbilityLevels,
    pub data: PlayerDataView<Stats>,
}

impl View for Player {
    type V = PlayerView;

    open spec fn view(&self) -> PlayerView {
        PlayerView {
            runes: self.runes@,
            rune_exceptions: self.rune_exceptions@,
            abilities: self.abilities,
            data: self.data@,
        }
    }
}

/// Value of the player at the start of a session.
pub open spec fn fresh_player() -> PlayerView {
    PlayerView {
        runes: Seq::empty(),
        rune_exceptions: Seq::empty(),
        abilities: AbilityLevels { q: 0, w: 0, e: 0, r: 0 },
        data: fresh_data(Stats::zero()),
    }
}

impl Clone for Player {
    fn clone(&self) -> (r: Self)
        ensures
            r@ == self@,
    {
        Player {
            runes: copy_vec(&self.runes),
            rune_exceptions: copy_vec(&self.rune_exceptions),
            abilities: self.abilities,
            data: self.data.clone(),
        }
    }
}

impl Default for Player {
    fn default() -> (r: Self)
        ensures
            r@ == fresh_player(),
    {
        Player {
            runes: Vec::new(),
            rune_exceptions: Vec::new(),
            abilities: AbilityLevels { q: 0, w: 0, e: 0, r: 0 },
            data: PlayerData::<Stats>::default(),
        }
    }
}

/// Snapshot sent for one computation: the player, the enemy roster and the
/// dragon counters.
#[derive(Debug)]
pub struct InputGame {
    pub active_player: Player,
    pub enemy_players: Vec<Rc<PlayerData<SimpleStats>>>,
    pub dragons: Dragons,
}

/// Computed values for one enemy.
#[derive(Debug, PartialEq)]
pub struct FinalEnemy {
    pub damages: Damages,
    pub base_stats: SimpleStats,
    pub bonus_stats: SimpleStats,
    pub current_stats: SimpleStats,
    pub real_armor: i32,
    pub real_magic_resist: i32,
    pub level: u8,
    pub champion_id: ChampionId,
}

/// Computed values for the local player.
#[derive(Clone, Copy, Debug, PartialEq, Eq, Structural)]
pub struct FinalPlayer {
    pub current_stats: Stats,
    pub base_stats: BasicStats,
    pub bonus_stats: BasicStats,
    pub level: u8,
    pub adaptative_type: AdaptativeType,
    pub champion_id: ChampionId,
}

/// Damages dealt to one kind of jungle monster.
#[derive(Debug, PartialEq)]
pub struct MonsterDamage {
    pub attacks: Attacks,
    pub abilities: Vec<i32>,
    pub items: Vec<i32>,
}

/// Result of one computation.
#[derive(Debug, PartialEq)]
pub struct Game {
    pub monster_damages: [MonsterDamage; L_MSTR],
    pub current_player: FinalPlayer,
    pub enemies: Vec<FinalEnemy>,
    pub tower_damages: [i32; L_TWRD],
    pub abilities_meta: Vec<TypeMetadata<AbilityId>>,
    pub abilities_to_merge: Vec<MergeData>,
    pub items_meta: Vec<TypeMetadata<ItemId>>,
    pub runes_meta: Vec<TypeMetadata<RuneId>>,
}

} // verus!
