//! The provenance-tracking synchronization protocol: which local changes
//! send a computation request, which cancel one, which are the echo of a
//! write-back and send nothing, and which responses are kept.
use std::rc::Rc;
use vstd::prelude::*;
use crate::calculator::{Game, InputGame, Player, PlayerData, PlayerDataView, PlayerView};
use crate::model::{Dragons, SimpleStats, Stats};
use crate::reducer::{
    enemy_action_allowed, player_action_allowed, reduce_data, reduce_dragons, reduce_enemies,
    reduce_player, DataAction, DragonAction, Enemies, EnemyAction, LastAction, PlayerAction,
};

verus! {

/// A computation that was requested and has not resolved: its identifier and
/// the tag that stood when it was requested.
#[derive(Clone, Copy, Debug, PartialEq, Eq, Structural)]
pub struct Pending {
    pub id: u64,
    pub origin: LastAction,
}

/// What the runner of the session must do after an event.
#[derive(Debug)]
pub enum Effect {
    /// Nothing.
    Idle,
    /// Cancel the call `cancel`, if any, then send `input` as the call `id`.
    Request { id: u64, cancel: Option<u64>, input: InputGame },
}

/// What became of a resolved call.
#[derive(Clone, Copy, Debug, PartialEq, Eq, Structural)]
pub enum Resolution {
    /// The call was cancelled or superseded: nothing changed.
    Discarded,
    /// The result was stored; `wrote_back` tells whether inferred stats were
    /// written into the player or the roster.
    Stored { wrote_back: bool },
}

/// Mathematical value of a [`Session`].
pub ghost struct SessionView {
    pub player: PlayerView,
    pub enemies: Seq<PlayerDataView<SimpleStats>>,
    pub dragons: Dragons,
    pub last_action: LastAction,
    pub active: Option<Pending>,
    pub next_request: u64,
    pub game: Option<Game>,
}

/// The identifier that follows `n`.
pub open spec fn next_id(n: u64) -> u64 {
    if n == u64::MAX {
        0
    } else {
        (n + 1) as u64
    }
}

/// The call to cancel when `active` is replaced.
pub open spec fn cancel_of(active: Option<Pending>) -> Option<u64> {
    match active {
        Some(p) => Some(p.id),
        None => None,
    }
}

/// Session `s` once its watcher has fired.
pub open spec fn fired(s: SessionView) -> SessionView {
    if s.last_action == LastAction::Replace {
        SessionView { last_action: LastAction::Any, ..s }
    } else {
        SessionView {
            active: Some(Pending { id: s.next_request, origin: s.last_action }),
            next_request: next_id(s.next_request),
            ..s
        }
    }
}

/// Whether `input` is the snapshot of session `s` that a request carries.
pub open spec fn snapshot_of(input: InputGame, s: SessionView) -> bool {
    &&& input.active_player@ == s.player
    &&& input.enemy_players@.map_values(|e: Rc<PlayerData<SimpleStats>>| e@) == s.enemies
    &&& input.dragons == s.dragons
}

/// Whether `e` is what the watcher of session `s` asks for when it fires:
/// nothing for the echo of a write-back, else a request for the snapshot of
/// `s` that cancels the call in flight.
pub open spec fn effect_of_firing(e: Effect, s: SessionView) -> bool {
    if s.last_action == LastAction::Replace {
        e is Idle
    } else {
        match e {
            Effect::Request { id, cancel, input } => {
                &&& id == s.next_request
                &&& cancel == cancel_of(s.active)
                &&& snapshot_of(input, s)
            },
            Effect::Idle => false,
        }
    }
}

/// Whether a result requested under tag `origin` writes inferred stats back
/// into the player `p`.
pub open spec fn infers_player(origin: LastAction, p: PlayerView) -> bool {
    (origin == LastAction::Init || origin == LastAction::CurrentPlayer) && p.data.infer_stats
}

/// Whether a result requested under tag `origin` names the enemy at `i`.
pub open spec fn targets_enemy(origin: LastAction, i: int) -> bool {
    match origin {
        LastAction::Init => true,
        LastAction::EnemyPlayer(j) => i == j,
        _ => false,
    }
}

/// Whether result `g`, requested under tag `origin`, writes inferred stats
/// back into the enemy at `i` of roster `e`: the position must still exist
/// in the roster and in the result.
pub open spec fn infers_enemy(
    origin: LastAction,
    e: Seq<PlayerDataView<SimpleStats>>,
    g: Game,
    i: int,
) -> bool {
    &&& targets_enemy(origin, i)
    &&& 0 <= i < e.len()
    &&& i < g.enemies@.len()
    &&& e[i].infer_stats
}

/// Player `p` after the write-back of result `g` requested under `origin`.
pub open spec fn inferred_player(origin: LastAction, p: PlayerView, g: Game) -> PlayerView {
    if infers_player(origin, p) {
        reduce_player(p, PlayerAction::Data(DataAction::Stats(g.current_player.current_stats)))
    } else {
        p
    }
}

/// Roster `e` after the write-backs of result `g` requested under `origin`.
pub open spec fn inferred_enemies(
    origin: LastAction,
    e: Seq<PlayerDataView<SimpleStats>>,
    g: Game,
) -> Seq<PlayerDataView<SimpleStats>> {
    Seq::new(
        e.len(),
        |i: int|
            if infers_enemy(origin, e, g, i) {
                reduce_data(e[i], DataAction::Stats(g.enemies@[i].current_stats))
            } else {
                e[i]
            },
    )
}

/// Whether result `g`, requested under `origin`, writes anything back.
pub open spec fn writes_back(origin: LastAction, s: SessionView, g: Game) -> bool {
    infers_player(origin, s.player) || exists|i: int| infers_enemy(origin, s.enemies, g, i)
}

/// Session `s` once the active call `p` has resolved with `g`: the write-backs
/// are made as one change, whose watcher firing is the suppressed echo, and the
/// result is stored.
pub open spec fn resolved(s: SessionView, p: Pending, g: Game) -> SessionView {
    SessionView {
        player: inferred_player(p.origin, s.player, g),
        enemies: inferred_enemies(p.origin, s.enemies, g),
        last_action: if writes_back(p.origin, s, g) {
            LastAction::Any
        } else {
            s.last_action
        },
        active: None,
        game: Some(g),
        ..s
    }
}

/// Whether `id` is the call in flight in session `s`.
pub open spec fn is_active(s: SessionView, id: u64) -> bool {
    match s.active {
        Some(p) => p.id == id,
        None => false,
    }
}

/// Session `s` once call `id` has resolved with `g`: unchanged unless `id`
/// is the call in flight.
pub open spec fn after_resolve(s: SessionView, id: u64, g: Game) -> SessionView {
    match s.active {
        Some(p) => if p.id == id {
            resolved(s, p, g)
        } else {
            s
        },
        None => s,
    }
}

/// What becomes of call `id` of session `s` when it resolves with `g`.
pub open spec fn resolution_of(s: SessionView, id: u64, g: Game) -> Resolution {
    match s.active {
        Some(p) => if p.id == id {
            Resolution::Stored { wrote_back: writes_back(p.origin, s, g) }
        } else {
            Resolution::Discarded
        },
        None => Resolution::Discarded,
    }
}

/// When the watcher fires with tag `Replace`, no request is made, the call
/// in flight (if any) is left alone, and the tag becomes `Any`.
pub proof fn lemma_echo_suppressed(s: SessionView, e: Effect)
    requires
        s.last_action == LastAction::Replace,
        effect_of_firing(e, s),
    ensures
        e is Idle,
        fired(s) == (SessionView { last_action: LastAction::Any, ..s }),
{
}

/// Any other firing cancels the call in flight and starts a new one, whose
/// identifier differs from the cancelled one; when the cancelled call
/// resolves later, nothing changes: no result is stored and nothing is
/// written back.
pub proof fn lemma_cancelled_call_ignored(s: SessionView, g: Game)
    requires
        s.last_action != LastAction::Replace,
        s.active is Some,
        s.active->0.id != s.next_request,
    ensures
        fired(s).active is Some,
        fired(s).active->0.id != s.active->0.id,
        cancel_of(s.active) == Some(s.active->0.id),
        after_resolve(fired(s), s.active->0.id, g) == fired(s),
        resolution_of(fired(s), s.active->0.id, g) == Resolution::Discarded,
{
}

/// A result requested for the enemy at `i` writes nothing into the roster
/// when the roster no longer has position `i`: the roster is kept as it is.
pub proof fn lemma_stale_enemy_index_dropped(s: SessionView, p: Pending, g: Game, i: usize)
    requires
        p.origin == LastAction::EnemyPlayer(i),
        i >= s.enemies.len(),
    ensures
        resolved(s, p, g).enemies == s.enemies,
        resolved(s, p, g).player == s.player,
        !writes_back(p.origin, s, g),
{
    assert(resolved(s, p, g).enemies =~= s.enemies);
}

/// When a resolved call writes stats back, the resolution is the write-back
/// made under tag `Replace` followed by the watcher firing it causes, and
/// that firing is suppressed: the tag ends as `Any`, no call is in flight
/// and no identifier is used up.
pub proof fn lemma_write_back_echo(s: SessionView, p: Pending, g: Game)
    requires
        writes_back(p.origin, s, g),
    ensures
        resolved(s, p, g) == fired(
            SessionView {
                player: inferred_player(p.origin, s.player, g),
                enemies: inferred_enemies(p.origin, s.enemies, g),
                last_action: LastAction::Replace,
                active: None,
                game: Some(g),
                ..s
            },
        ),
        resolved(s, p, g).last_action == LastAction::Any,
        resolved(s, p, g).active is None,
        resolved(s, p, g).next_request == s.next_request,
{
}

/// Local state of one calculator session and of the protocol that keeps its
/// computed result in step with it.
pub struct Session {
    player: Rc<Player>,
    enemies: Rc<Enemies>,
    dragons: Dragons,
    last_action: LastAction,
    active: Option<Pending>,
    next_request: u64,
    game: Option<Rc<Game>>,
}

impl View for Session {
    type V = SessionView;

    closed spec fn view(&self) -> SessionView {
        SessionView {
            player: self.player@,
            enemies: self.enemies@,
            dragons: self.dragons,
            last_action: self.last_action,
            active: self.active,
            next_request: self.next_request,
            game: match self.game {
                Some(g) => Some(*g),
                None => None,
            },
        }
    }
}

impl Session {
    /// The call in flight is never the one the next request would be.
    pub open spec fn wf(&self) -> bool {
        match self@.active {
            Some(p) => p.id != self@.next_request,
            None => true,
        }
    }

    /// A fresh session: default player, empty roster, no dragons, no result,
    /// tag `Init`.
    pub fn new() -> (r: Session)
        ensures
            r.wf(),
            r@.player == crate::calculator::fresh_player(),
            r@.enemies == Seq::<PlayerDataView<SimpleStats>>::empty(),
            r@.dragons == (Dragons {
                ally_fire_dragons: 0,
                ally_earth_dragons: 0,
                ally_chemtech_dragons: 0,
                enemy_earth_dragons: 0,
            }),
            r@.last_action == LastAction::Init,
            r@.active is None,
            r@.next_request == 0,
            r@.game is None,
    {
        Session {
            player: Rc::new(Player::default()),
            enemies: Rc::new(Enemies::default()),
            dragons: Dragons::default(),
            last_action: LastAction::Init,
            active: None,
            next_request: 0,
            game: None,
        }
    }

    /// A session that starts from the given player, roster and dragons,
    /// with no result and tag `Init`.
    pub fn from_state(player: Player, enemies: Enemies, dragons: Dragons) -> (r: Session)
        ensures
            r.wf(),
            r@.player == player@,
            r@.enemies == enemies@,
            r@.dragons == dragons,
            r@.last_action == LastAction::Init,
            r@.active is None,
            r@.next_request == 0,
            r@.game is None,
    {
        Session {
            player: Rc::new(player),
            enemies: Rc::new(enemies),
            dragons,
            last_action: LastAction::Init,
            active: None,
            next_request: 0,
            game: None,
        }
    }

    /// The current player.
    pub fn player(&self) -> (r: &Player)
        ensures
            r@ == self@.player,
    {
        &self.player
    }

    /// The current roster.
    pub fn enemies(&self) -> (r: &Enemies)
        ensures
            r@ == self@.enemies,
    {
        &self.enemies
    }

    /// The current dragon counters.
    pub fn dragons(&self) -> (r: Dragons)
        ensures
            r == self@.dragons,
    {
        self.dragons
    }

    /// Why the watched state last changed.
    pub fn last_action(&self) -> (r: LastAction)
        ensures
            r == self@.last_action,
    {
        self.last_action
    }

    /// The call in flight, if any.
    pub fn active(&self) -> (r: Option<Pending>)
        ensures
            r == self@.active,
    {
        self.active
    }

    /// The last stored result, if any.
    pub fn game(&self) -> (r: Option<&Game>)
        ensures
            r == match self@.game {
                Some(g) => Some(&g),
                None => None::<&Game>,
            },
    {
        match &self.game {
            Some(g) => Some(&**g),
            None => None,
        }
    }

    /// The snapshot a request carries: player, roster and dragons.
    pub fn input_game(&self) -> (r: InputGame)
        ensures
            snapshot_of(r, self@),
    {
        InputGame {
            active_player: (*self.player).clone(),
            enemy_players: self.enemies.to_vec(),
            dragons: self.dragons,
        }
    }

    /// The watcher of the player and the roster fires. The echo of a
    /// write-back (tag `Replace`) resets the tag to `Any` and asks for
    /// nothing; any other firing cancels the call in flight and requests a
    /// new one, remembering the tag it was requested under.
    pub fn watch_fired(&mut self) -> (r: Effect)
        requires
            old(self).wf(),
        ensures
            final(self).wf(),
            final(self)@ == fired(old(self)@),
            effect_of_firing(r, old(self)@),
    {
        if self.last_action == LastAction::Replace {
            self.last_action = LastAction::Any;
            return Effect::Idle;
        }
        let cancel = match self.active {
            Some(p) => Some(p.id),
            None => None,
        };
        let id = self.next_request;
        self.next_request = if id == u64::MAX {
            0
        } else {
            id + 1
        };
        self.active = Some(Pending { id, origin: self.last_action });
        Effect::Request { id, cancel, input: self.input_game() }
    }

    /// A dispatch site records why the watched state is about to change.
    pub fn record(&mut self, tag: LastAction)
        requires
            old(self).wf(),
        ensures
            final(self).wf(),
            final(self)@ == (SessionView { last_action: tag, ..old(self)@ }),
    {
        self.last_action = tag;
    }

    /// The user edits the player: the tag becomes `CurrentPlayer`, the
    /// player is replaced by its edited value, and the watcher fires.
    pub fn dispatch_player(&mut self, action: PlayerAction) -> (r: Effect)
        requires
            old(self).wf(),
            player_action_allowed(old(self)@.player, action),
        ensures
            final(self).wf(),
            final(self)@ == fired(
                SessionView {
                    player: reduce_player(old(self)@.player, action),
                    last_action: LastAction::CurrentPlayer,
                    ..old(self)@
                },
            ),
            effect_of_firing(
                r,
                SessionView {
                    player: reduce_player(old(self)@.player, action),
                    last_action: LastAction::CurrentPlayer,
                    ..old(self)@
                },
            ),
    {
        self.last_action = action.action();
        self.player = Rc::new(self.player.reduce(action));
        self.watch_fired()
    }

    /// The user edits the roster: the tag names the edited enemy (or is
    /// `Any` for an addition or a removal), the roster is replaced by its
    /// edited value, and the watcher fires.
    pub fn dispatch_enemies(&mut self, action: EnemyAction) -> (r: Effect)
        requires
            old(self).wf(),
            enemy_action_allowed(old(self)@.enemies, action),
        ensures
            final(self).wf(),
            final(self)@ == fired(
                SessionView {
                    enemies: reduce_enemies(old(self)@.enemies, action),
                    last_action: match action {
                        EnemyAction::Edit(i, _) => LastAction::EnemyPlayer(i),
                        _ => LastAction::Any,
                    },
                    ..old(self)@
                },
            ),
            effect_of_firing(
                r,
                SessionView {
                    enemies: reduce_enemies(old(self)@.enemies, action),
                    last_action: match action {
                        EnemyAction::Edit(i, _) => LastAction::EnemyPlayer(i),
                        _ => LastAction::Any,
                    },
                    ..old(self)@
                },
            ),
    {
        self.last_action = action.action();
        self.enemies = Rc::new(self.enemies.reduce(action));
        self.watch_fired()
    }

    /// The user edits the dragon counters. They are not watched: nothing
    /// else changes and nothing is requested.
    pub fn dispatch_dragons(&mut self, action: DragonAction)
        requires
            old(self).wf(),
        ensures
            final(self).wf(),
            final(self)@ == (SessionView {
                dragons: reduce_dragons(old(self)@.dragons, action),
                ..old(self)@
            }),
    {
        self.dragons = self.dragons.reduce(action);
    }

    /// Call `id` resolves with result `game`. A call that is no longer in
    /// flight (cancelled or superseded) changes nothing. Otherwise the
    /// inferred stats are written back as the tag it was requested under
    /// asks (`Init`: the player and every enemy; `CurrentPlayer`: the
    /// player; `EnemyPlayer(i)`: that enemy, if the roster still has it),
    /// each only where `infer_stats` is set; the tag is set to `Replace`
    /// for them, so that the watcher firing they cause requests nothing;
    /// and the result is stored.
    pub fn resolve(&mut self, id: u64, game: Game) -> (r: Resolution)
        requires
            old(self).wf(),
        ensures
            final(self).wf(),
            final(self)@ == after_resolve(old(self)@, id, game),
            r == resolution_of(old(self)@, id, game),
    {
        let p = match self.active {
            Some(p) => p,
            None => return Resolution::Discarded,
        };
        if p.id != id {
            return Resolution::Discarded;
        }
        let ghost s0 = self@;
        let ghost g = game;
        self.active = None;
        let mut wrote = false;
        if (p.origin == LastAction::Init || p.origin == LastAction::CurrentPlayer)
            && self.player.data.infer_stats {
            let stats: Stats = game.current_player.current_stats;
            self.player = Rc::new(self.player.reduce(PlayerAction::Data(DataAction::Stats(stats))));
            wrote = true;
        }
        let n_roster = self.enemies.len();
        let n_result = game.enemies.len();
        let n = if n_roster < n_result {
            n_roster
        } else {
            n_result
        };
        let mut i: usize = 0;
        while i < n
            invariant
                0 <= i <= n,
                n <= s0.enemies.len(),
                n <= g.enemies@.len(),
                n == s0.enemies.len() || n == g.enemies@.len(),
                game == g,
                self.wf(),
                self@ == (SessionView {
                    player: inferred_player(p.origin, s0.player, g),
                    enemies: self@.enemies,
                    active: None,
                    ..s0
                }),
                self@.enemies.len() == s0.enemies.len(),
                forall|k: int|
                    0 <= k < s0.enemies.len() ==> #[trigger] self@.enemies[k] == if k < i {
                        inferred_enemies(p.origin, s0.enemies, g)[k]
                    } else {
                        s0.enemies[k]
                    },
                wrote == (infers_player(p.origin, s0.player) || exists|k: int|
                    0 <= k < i && #[trigger] infers_enemy(p.origin, s0.enemies, g, k)),
            decreases n - i,
        {
            let targeted = match p.origin {
                LastAction::Init => true,
                LastAction::EnemyPlayer(j) => j == i,
                _ => false,
            };
            if targeted && self.enemies.get(i).infer_stats {
                let stats: SimpleStats = game.enemies[i].current_stats;
                self.enemies = Rc::new(
                    self.enemies.reduce(EnemyAction::Edit(i, DataAction::Stats(stats))),
                );
                wrote = true;
                assert(infers_enemy(p.origin, s0.enemies, g, i as int));
            } else {
                assert forall|k: int|
                    0 <= k < i + 1 && #[trigger] infers_enemy(
                        p.origin,
                        s0.enemies,
                        g,
                        k,
                    ) implies 0 <= k < i by {}
            }
            i = i + 1;
        }
        proof {
            assert forall|k: int| #[trigger] infers_enemy(p.origin, s0.enemies, g, k) implies 0 <= k
                < i by {}
            assert(self@.enemies =~= inferred_enemies(p.origin, s0.enemies, g));
        }
        if wrote {
            self.last_action = LastAction::Replace;
            let suppressed = self.watch_fired();
            assert(suppressed is Idle);
        }
        self.game = Some(Rc::new(game));
        Resolution::Stored { wrote_back: wrote }
    }

    /// Call `id` fails: a transport error, a cancellation or a response that
    /// does not decode. The stored result is kept; the call is forgotten if
    /// it was the one in flight. Returns whether the failure is to be
    /// reported, which is so only for the call in flight: a cancelled call
    /// fails silently.
    pub fn fail(&mut self, id: u64) -> (r: bool)
        requires
            old(self).wf(),
        ensures
            final(self).wf(),
            r == is_active(old(self)@, id),
            final(self)@ == if r {
                SessionView { active: None, ..old(self)@ }
            } else {
                old(self)@
            },
    {
        match self.active {
            Some(p) => {
                if p.id == id {
                    self.active = None;
                    true
                } else {
                    false
                }
            },
            None => false,
        }
    }
}

} // verus!
