//! Pure transitions of the editable entities: each reducer builds a new value
//! from the previous one, which it only reads.
use std::rc::Rc;
use vstd::prelude::*;
use crate::calculator::{
    fresh_data, AbilityLevels, Player, PlayerData, PlayerDataView, PlayerView,
};
use crate::ids::{ChampionId, ItemId, RuneId};
use crate::model::{Dragons, SimpleStats, Stats, ValueException};

verus! {

/// Relies on `Rc::clone`: the new handle points at the value of the old one.
#[verifier::external_body]
fn share<T>(this: &Rc<T>) -> (res: Rc<T>)
    ensures
        res == *this,
{
    Rc::clone(this)
}

/// Edits of a player's block data.
pub enum DataAction<T> {
    Stats(T),
    Stacks(u32),
    InferStats(bool),
    IsMegaGnar(bool),
    InsertItem(ItemId),
    RemoveItem(usize),
    ChampionId(ChampionId),
    InsertItemExc(ItemId, u32),
    RemoveItemExc(usize),
}

/// Edits of an enemy's block data.
pub type EnemyDataAction = DataAction<SimpleStats>;

/// Edits of the local player's block data.
pub type PlayerDataAction = DataAction<Stats>;

/// Edits of the local player.
pub enum PlayerAction {
    InsertRune(RuneId),
    RemoveRune(usize),
    InsertRuneExc(RuneId, u32),
    RemoveRuneExc(usize),
    Data(PlayerDataAction),
    AbilityLevel(AbilityLevels),
}

/// Edits of the enemy roster.
pub enum EnemyAction {
    Push,
    Remove(usize),
    Edit(usize, EnemyDataAction),
}

/// Edits of the dragon counters.
pub enum DragonAction {
    AllyFire(u16),
    AllyEarth(u16),
    AllyChemtech(u16),
    EnemyEarth(u16),
}

/// `s` without its element at `i`, whose place the last element takes.
pub open spec fn swap_removed<A>(s: Seq<A>, i: int) -> Seq<A> {
    s.update(i, s.last()).drop_last()
}

/// Whether `a` can be applied to block data `d`: a removal names an
/// existing position.
pub open spec fn data_action_allowed<T>(d: PlayerDataView<T>, a: DataAction<T>) -> bool {
    match a {
        DataAction::RemoveItem(i) => i < d.items.len(),
        DataAction::RemoveItemExc(i) => i < d.item_exceptions.len(),
        _ => true,
    }
}

/// Block data `d` after edit `a`.
pub open spec fn reduce_data<T>(d: PlayerDataView<T>, a: DataAction<T>) -> PlayerDataView<T> {
    match a {
        DataAction::Stats(v) => PlayerDataView { stats: v, ..d },
        DataAction::Stacks(v) => PlayerDataView { stacks: v, ..d },
        DataAction::InferStats(v) => PlayerDataView { infer_stats: v, ..d },
        DataAction::IsMegaGnar(v) => PlayerDataView { is_mega_gnar: v, ..d },
        DataAction::InsertItem(v) => PlayerDataView { items: d.items.push(v), ..d },
        DataAction::RemoveItem(i) => PlayerDataView { items: swap_removed(d.items, i as int), ..d },
        DataAction::ChampionId(v) => PlayerDataView { champion_id: v, ..d },
        DataAction::InsertItemExc(item, n) => PlayerDataView {
            item_exceptions: d.item_exceptions.push(ValueException::of_item(item, n)),
            ..d
        },
        DataAction::RemoveItemExc(i) => PlayerDataView {
            item_exceptions: swap_removed(d.item_exceptions, i as int),
            ..d
        },
    }
}

/// Whether `a` can be applied to player `p`: a removal names an existing
/// position.
pub open spec fn player_action_allowed(p: PlayerView, a: PlayerAction) -> bool {
    match a {
        PlayerAction::RemoveRune(i) => i < p.runes.len(),
        PlayerAction::RemoveRuneExc(i) => i < p.rune_exceptions.len(),
        PlayerAction::Data(d) => data_action_allowed(p.data, d),
        _ => true,
    }
}

/// Player `p` after edit `a`.
pub open spec fn reduce_player(p: PlayerView, a: PlayerAction) -> PlayerView {
    match a {
        PlayerAction::InsertRune(v) => PlayerView { runes: p.runes.push(v), ..p },
        PlayerAction::RemoveRune(i) => PlayerView { runes: swap_removed(p.runes, i as int), ..p },
        PlayerAction::InsertRuneExc(rune, n) => PlayerView {
            rune_exceptions: p.rune_exceptions.push(ValueException::of_rune(rune, n)),
            ..p
        },
        PlayerAction::RemoveRuneExc(i) => PlayerView {
            rune_exceptions: swap_removed(p.rune_exceptions, i as int),
            ..p
        },
        PlayerAction::Data(d) => PlayerView { data: reduce_data(p.data, d), ..p },
        PlayerAction::AbilityLevel(v) => PlayerView { abilities: v, ..p },
    }
}

/// Whether `a` can be applied to roster `e`: a removal or an edit names an
/// existing enemy, and an edit can be applied to that enemy.
pub open spec fn enemy_action_allowed(e: Seq<PlayerDataView<SimpleStats>>, a: EnemyAction) -> bool {
    match a {
        EnemyAction::Push => true,
        EnemyAction::Remove(i) => i < e.len(),
        EnemyAction::Edit(i, d) => i < e.len() && data_action_allowed(e[i as int], d),
    }
}

/// Roster `e` after edit `a`.
pub open spec fn reduce_enemies(
    e: Seq<PlayerDataView<SimpleStats>>,
    a: EnemyAction,
) -> Seq<PlayerDataView<SimpleStats>> {
    match a {
        EnemyAction::Push => e.push(fresh_data(SimpleStats::zero())),
        EnemyAction::Remove(i) => swap_removed(e, i as int),
        EnemyAction::Edit(i, d) => e.update(i as int, reduce_data(e[i as int], d)),
    }
}

/// Dragon counters `g` after edit `a`.
pub open spec fn reduce_dragons(g: Dragons, a: DragonAction) -> Dragons {
    match a {
        DragonAction::AllyFire(v) => Dragons { ally_fire_dragons: v, ..g },
        DragonAction::AllyEarth(v) => Dragons { ally_earth_dragons: v, ..g },
        DragonAction::AllyChemtech(v) => Dragons { ally_chemtech_dragons: v, ..g },
        DragonAction::EnemyEarth(v) => Dragons { enemy_earth_dragons: v, ..g },
    }
}

impl<T: Copy> PlayerData<T> {
    /// Applies `action` to this block data in place.
    pub fn reduce_mut(&mut self, action: DataAction<T>)
        requires
            data_action_allowed(old(self)@, action),
        ensures
            final(self)@ == reduce_data(old(self)@, action),
    {
        match action {
            DataAction::Stats(v) => self.stats = v,
            DataAction::Stacks(v) => self.stacks = v,
            DataAction::InferStats(v) => self.infer_stats = v,
            DataAction::IsMegaGnar(v) => self.is_mega_gnar = v,
            DataAction::InsertItem(v) => self.items.push(v),
            DataAction::ChampionId(v) => self.champion_id = v,
            DataAction::RemoveItem(v) => {
                self.items.swap_remove(v);
            },
            DataAction::InsertItemExc(item_id, stacks) => {
                let value = ValueException::pack_item_id(item_id, stacks);
                self.item_exceptions.push(value)
            },
            DataAction::RemoveItemExc(v) => {
                self.item_exceptions.swap_remove(v);
            },
        }
    }

    /// Whether `action` can be applied: a removal names an existing position.
    pub fn allows(&self, action: &DataAction<T>) -> (r: bool)
        ensures
            r == data_action_allowed(self@, *action),
    {
        match action {
            DataAction::RemoveItem(i) => *i < self.items.len(),
            DataAction::RemoveItemExc(i) => *i < self.item_exceptions.len(),
            _ => true,
        }
    }

    /// New block data: this one after `action`.
    pub fn reduce(&self, action: DataAction<T>) -> (r: Self)
        requires
            data_action_allowed(self@, action),
        ensures
            r@ == reduce_data(self@, action),
    {
        let mut new = self.clone();
        new.reduce_mut(action);
        new
    }
}

impl PlayerAction {
    /// Why the watched state changes when this edit is dispatched.
    pub fn action(&self) -> (r: LastAction)
        ensures
            r == LastAction::CurrentPlayer,
    {
        LastAction::CurrentPlayer
    }
}

impl<T> DataAction<T> {
    /// Why the watched state changes when this edit is dispatched to the
    /// enemy at `index`.
    pub fn action(&self, index: usize) -> (r: LastAction)
        ensures
            r == LastAction::EnemyPlayer(index),
    {
        LastAction::EnemyPlayer(index)
    }
}

impl EnemyAction {
    /// Why the watched state changes when this edit is dispatched: an edit
    /// names its enemy, a change of the roster itself needs no special care.
    pub fn action(&self) -> (r: LastAction)
        ensures
            r == (match *self {
                EnemyAction::Edit(i, _) => LastAction::EnemyPlayer(i),
                _ => LastAction::Any,
            }),
    {
        match self {
            EnemyAction::Edit(i, _) => LastAction::EnemyPlayer(*i),
            _ => LastAction::Any,
        }
    }
}

impl Player {
    /// Whether `action` can be applied: a removal names an existing position.
    pub fn allows(&self, action: &PlayerAction) -> (r: bool)
        ensures
            r == player_action_allowed(self@, *action),
    {
        match action {
            PlayerAction::RemoveRune(i) => *i < self.runes.len(),
            PlayerAction::RemoveRuneExc(i) => *i < self.rune_exceptions.len(),
            PlayerAction::Data(d) => self.data.allows(d),
            _ => true,
        }
    }

    /// New player: this one after `action`.
    pub fn reduce(&self, action: PlayerAction) -> (r: Player)
        requires
            player_action_allowed(self@, action),
        ensures
            r@ == reduce_player(self@, action),
    {
        let mut new = self.clone();
        match action {
            PlayerAction::InsertRune(v) => new.runes.push(v),
            PlayerAction::AbilityLevel(v) => new.abilities = v,
            PlayerAction::RemoveRune(v) => {
                new.runes.swap_remove(v);
            },
            PlayerAction::InsertRuneExc(rune_id, stacks) => {
                let value = ValueException::pack_rune_id(rune_id, stacks);
                new.rune_exceptions.push(value);
            },
            PlayerAction::RemoveRuneExc(v) => {
                new.rune_exceptions.swap_remove(v);
            },
            PlayerAction::Data(v) => {
                new.data.reduce_mut(v);
            },
        }
        new
    }
}

/// The enemy roster: shared snapshots of each enemy's block data, by position.
#[derive(Debug)]
pub struct Enemies(Vec<Rc<PlayerData<SimpleStats>>>);

impl View for Enemies {
    type V = Seq<PlayerDataView<SimpleStats>>;

    closed spec fn view(&self) -> Seq<PlayerDataView<SimpleStats>> {
        self.0@.map_values(|e: Rc<PlayerData<SimpleStats>>| e@)
    }
}

impl Default for Enemies {
    fn default() -> (r: Enemies)
        ensures
            r@ == Seq::<PlayerDataView<SimpleStats>>::empty(),
    {
        let r = Enemies(Vec::new());
        assert(r@ =~= Seq::<PlayerDataView<SimpleStats>>::empty());
        r
    }
}

impl Clone for Enemies {
    fn clone(&self) -> (r: Enemies)
        ensures
            r@ == self@,
    {
        Enemies(self.to_vec())
    }
}

impl Enemies {
    /// The shared snapshots, in order.
    pub closed spec fn handles(&self) -> Seq<Rc<PlayerData<SimpleStats>>> {
        self.0@
    }

    /// Number of enemies.
    pub fn len(&self) -> (r: usize)
        ensures
            r == self@.len(),
    {
        self.0.len()
    }

    /// Block data of the enemy at `index`.
    pub fn get(&self, index: usize) -> (r: &PlayerData<SimpleStats>)
        requires
            index < self@.len(),
        ensures
            r@ == self@[index as int],
    {
        &self.0[index]
    }

    /// The shared snapshots, in order.
    pub fn to_vec(&self) -> (r: Vec<Rc<PlayerData<SimpleStats>>>)
        ensures
            r@ == self.handles(),
            r@.map_values(|e: Rc<PlayerData<SimpleStats>>| e@) == self@,
    {
        let mut r: Vec<Rc<PlayerData<SimpleStats>>> = Vec::with_capacity(self.0.len());
        let mut i: usize = 0;
        while i < self.0.len()
            invariant
                i <= self.0@.len(),
                r@ == self.0@.subrange(0, i as int),
            decreases self.0@.len() - i,
        {
            r.push(share(&self.0[i]));
            i = i + 1;
        }
        assert(r@ =~= self.0@);
        r
    }

    /// Whether `action` can be applied: a removal or an edit names an
    /// existing enemy, and an edit can be applied to it.
    pub fn allows(&self, action: &EnemyAction) -> (r: bool)
        ensures
            r == enemy_action_allowed(self@, *action),
    {
        match action {
            EnemyAction::Push => true,
            EnemyAction::Remove(i) => *i < self.0.len(),
            EnemyAction::Edit(i, d) => *i < self.0.len() && self.0[*i].allows(d),
        }
    }

    /// New roster: this one after `action`.
    pub fn reduce(&self, action: EnemyAction) -> (r: Enemies)
        requires
            enemy_action_allowed(self@, action),
        ensures
            r@ == reduce_enemies(self@, action),
    {
        let mut new = self.to_vec();
        match action {
            EnemyAction::Push => {
                new.push(Rc::new(PlayerData::<SimpleStats>::default()));
            },
            EnemyAction::Edit(v, data_action) => {
                let edited = new[v].reduce(data_action);
                new.set(v, Rc::new(edited));
            },
            EnemyAction::Remove(v) => {
                new.swap_remove(v);
            },
        }
        let r = Enemies(new);
        assert(r@ =~= reduce_enemies(self@, action));
        r
    }
}

impl Dragons {
    /// New counters: these after `action`.
    pub fn reduce(&self, action: DragonAction) -> (r: Dragons)
        ensures
            r == reduce_dragons(*self, action),
    {
        let mut new = *self;
        match action {
            DragonAction::AllyFire(v) => new.ally_fire_dragons = v,
            DragonAction::AllyEarth(v) => new.ally_earth_dragons = v,
            DragonAction::AllyChemtech(v) => new.ally_chemtech_dragons = v,
            DragonAction::EnemyEarth(v) => new.enemy_earth_dragons = v,
        }
        new
    }
}

/// Removing position `i` of a sequence of length `n` leaves `n - 1`
/// elements: position `i`, unless it was the last, now holds the former last
/// element, every other position keeps its element, and removing the last
/// position is a plain truncation.
pub proof fn lemma_swap_remove<A>(s: Seq<A>, i: int)
    requires
        0 <= i < s.len(),
    ensures
        swap_removed(s, i).len() == s.len() - 1,
        i < s.len() - 1 ==> swap_removed(s, i)[i] == s.last(),
        forall|j: int| 0 <= j < s.len() - 1 && j != i ==> #[trigger] swap_removed(s, i)[j] == s[j],
        i == s.len() - 1 ==> swap_removed(s, i) == s.drop_last(),
{
    if i == s.len() - 1 {
        assert(swap_removed(s, i) =~= s.drop_last());
    }
}

/// Values of a player through edits `acts`: the start value `p`, then the
/// value after each edit.
pub open spec fn player_history(p: PlayerView, acts: Seq<PlayerAction>) -> Seq<PlayerView>
    decreases acts.len(),
{
    if acts.len() == 0 {
        seq![p]
    } else {
        let h = player_history(p, acts.drop_last());
        h.push(reduce_player(h.last(), acts.last()))
    }
}

/// Values of an enemy roster through edits `acts`: the start value `e`, then
/// the value after each edit.
pub open spec fn enemies_history(
    e: Seq<PlayerDataView<SimpleStats>>,
    acts: Seq<EnemyAction>,
) -> Seq<Seq<PlayerDataView<SimpleStats>>>
    decreases acts.len(),
{
    if acts.len() == 0 {
        seq![e]
    } else {
        let h = enemies_history(e, acts.drop_last());
        h.push(reduce_enemies(h.last(), acts.last()))
    }
}

proof fn lemma_player_history_len(p: PlayerView, acts: Seq<PlayerAction>)
    ensures
        player_history(p, acts).len() == acts.len() + 1,
    decreases acts.len(),
{
    if acts.len() > 0 {
        lemma_player_history_len(p, acts.drop_last());
    }
}

proof fn lemma_enemies_history_len(e: Seq<PlayerDataView<SimpleStats>>, acts: Seq<EnemyAction>)
    ensures
        enemies_history(e, acts).len() == acts.len() + 1,
    decreases acts.len(),
{
    if acts.len() > 0 {
        lemma_enemies_history_len(e, acts.drop_last());
    }
}

/// A player edit never changes an earlier value: after any further edits
/// `more`, every value taken through `acts` is still what it was, and each
/// later value is the one before it after its own edit.
pub proof fn lemma_player_snapshots_kept(
    p: PlayerView,
    acts: Seq<PlayerAction>,
    more: Seq<PlayerAction>,
)
    ensures
        player_history(p, acts + more).len() == acts.len() + more.len() + 1,
        player_history(p, acts + more).subrange(0, acts.len() as int + 1) == player_history(p, acts),
        forall|k: int|
            0 <= k < more.len() ==> #[trigger] player_history(p, acts + more)[acts.len() + k + 1]
                == reduce_player(player_history(p, acts + more)[acts.len() + k], more[k]),
    decreases more.len(),
{
    lemma_player_history_len(p, acts + more);
    lemma_player_history_len(p, acts);
    if more.len() == 0 {
        assert(acts + more =~= acts);
        assert(player_history(p, acts).subrange(0, acts.len() as int + 1) =~= player_history(p, acts));
    } else {
        let shorter = more.drop_last();
        lemma_player_snapshots_kept(p, acts, shorter);
        assert((acts + more).drop_last() =~= acts + shorter);
        let h = player_history(p, acts + shorter);
        assert(player_history(p, acts + more) == h.push(reduce_player(h.last(), more.last())));
        assert(player_history(p, acts + more).subrange(0, acts.len() as int + 1) =~= h.subrange(
            0,
            acts.len() as int + 1,
        ));
        assert forall|k: int| 0 <= k < more.len() implies #[trigger] player_history(
            p,
            acts + more,
        )[acts.len() + k + 1] == reduce_player(
            player_history(p, acts + more)[acts.len() + k],
            more[k],
        ) by {
            if k < more.len() - 1 {
                assert(h[acts.len() + k + 1] == reduce_player(h[acts.len() + k], shorter[k]));
            }
        }
    }
}

/// A roster edit never changes an earlier roster: after any further edits
/// `more`, every roster taken through `acts` is still what it was, and each
/// later roster is the one before it after its own edit.
pub proof fn lemma_enemies_snapshots_kept(
    e: Seq<PlayerDataView<SimpleStats>>,
    acts: Seq<EnemyAction>,
    more: Seq<EnemyAction>,
)
    ensures
        enemies_history(e, acts + more).len() == acts.len() + more.len() + 1,
        enemies_history(e, acts + more).subrange(0, acts.len() as int + 1) == enemies_history(e, acts),
        forall|k: int|
            0 <= k < more.len() ==> #[trigger] enemies_history(e, acts + more)[acts.len() + k + 1]
                == reduce_enemies(enemies_history(e, acts + more)[acts.len() + k], more[k]),
    decreases more.len(),
{
    lemma_enemies_history_len(e, acts + more);
    lemma_enemies_history_len(e, acts);
    if more.len() == 0 {
        assert(acts + more =~= acts);
        assert(enemies_history(e, acts).subrange(0, acts.len() as int + 1) =~= enemies_history(e, acts));
    } else {
        let shorter = more.drop_last();
        lemma_enemies_snapshots_kept(e, acts, shorter);
        assert((acts + more).drop_last() =~= acts + shorter);
        let h = enemies_history(e, acts + shorter);
        assert(enemies_history(e, acts + more) == h.push(reduce_enemies(h.last(), more.last())));
        assert(enemies_history(e, acts + more).subrange(0, acts.len() as int + 1) =~= h.subrange(
            0,
            acts.len() as int + 1,
        ));
        assert forall|k: int| 0 <= k < more.len() implies #[trigger] enemies_history(
            e,
            acts + more,
        )[acts.len() + k + 1] == reduce_enemies(
            enemies_history(e, acts + more)[acts.len() + k],
            more[k],
        ) by {
            if k < more.len() - 1 {
                assert(h[acts.len() + k + 1] == reduce_enemies(h[acts.len() + k], shorter[k]));
            }
        }
    }
}

/// Why the watched state last changed.
#[derive(Clone, Copy, Debug, PartialEq, Eq, Structural)]
pub enum LastAction {
    /// No result has been seen yet.
    Init,
    /// An edit that needs no special care.
    Any,
    /// The local player was edited.
    CurrentPlayer,
    /// The enemy at this position was edited.
    EnemyPlayer(usize),
    /// The next change is a write-back of a computed result.
    Replace,
}

} // verus!
