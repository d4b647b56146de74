use calculator_core::calculator::{
    AdaptativeType, FinalEnemy, FinalPlayer, Game, MonsterDamage, Player,
};
use calculator_core::ids::ChampionId;
use calculator_core::model::{
    Attacks, BasicStats, Damages, Dragons, RangeDamage, SimpleStats, Stats,
};
use calculator_core::reducer::{
    DataAction, DragonAction, Enemies, EnemyAction, LastAction, PlayerAction,
};
use calculator_core::session::{Effect, Pending, Resolution, Session};

fn attacks() -> Attacks {
    Attacks {
        basic_attack: 10,
        critical_strike: 17,
        onhit_damage: RangeDamage { minimum_damage: 1, maximum_damage: 2 },
    }
}

fn game_with(player_stats: Stats, enemy_stats: &[SimpleStats]) -> Game {
    Game {
        monster_damages: std::array::from_fn(|_| MonsterDamage {
            attacks: attacks(),
            abilities: vec![],
            items: vec![],
        }),
        current_player: FinalPlayer {
            current_stats: player_stats,
            base_stats: BasicStats::default(),
            bonus_stats: BasicStats::default(),
            level: 1,
            adaptative_type: AdaptativeType::Physical,
            champion_id: ChampionId(0),
        },
        enemies: enemy_stats
            .iter()
            .map(|s| FinalEnemy {
                damages: Damages { attacks: attacks(), abilities: vec![], items: vec![], runes: vec![] },
                base_stats: *s,
                bonus_stats: *s,
                current_stats: *s,
                real_armor: 0,
                real_magic_resist: 0,
                level: 1,
                champion_id: ChampionId(0),
            })
            .collect(),
        tower_damages: [0; 6],
        abilities_meta: vec![],
        abilities_to_merge: vec![],
        items_meta: vec![],
        runes_meta: vec![],
    }
}

fn stats(armor: i32) -> Stats {
    let mut s = Stats::default();
    s.armor = armor;
    s.health = 1000 + armor;
    s
}

fn simple(armor: i32) -> SimpleStats {
    SimpleStats { armor, health: 500 + armor, magic_resist: 30 }
}

fn roster(infer: &[bool]) -> Enemies {
    let mut e = Enemies::default();
    for (i, f) in infer.iter().enumerate() {
        e = e.reduce(EnemyAction::Push);
        e = e.reduce(EnemyAction::Edit(i, DataAction::InferStats(*f)));
        e = e.reduce(EnemyAction::Edit(i, DataAction::ChampionId(ChampionId(i as u16 + 1))));
    }
    e
}

fn request(e: Effect) -> (u64, Option<u64>) {
    match e {
        Effect::Request { id, cancel, .. } => (id, cancel),
        Effect::Idle => panic!("expected a request"),
    }
}

#[test]
fn replace_tag_issues_no_request() {
    let mut s = Session::new();
    let (id, _) = request(s.watch_fired());
    s.record(LastAction::Replace);
    assert!(matches!(s.watch_fired(), Effect::Idle));
    assert_eq!(s.last_action(), LastAction::Any);
    assert_eq!(s.active(), Some(Pending { id, origin: LastAction::Init }));
    let (next, cancel) = request(s.watch_fired());
    assert_eq!((next, cancel), (id + 1, Some(id)));
}

#[test]
fn echo_of_write_back_is_suppressed() {
    let p = Player::default().reduce(PlayerAction::Data(DataAction::InferStats(true)));
    let mut s = Session::from_state(p, Enemies::default(), Dragons::default());
    let (id, _) = request(s.watch_fired());
    let r = s.resolve(id, game_with(stats(5), &[]));
    assert_eq!(r, Resolution::Stored { wrote_back: true });
    assert_eq!(s.last_action(), LastAction::Any);
    assert_eq!(s.active(), None);
    let e = s.dispatch_player(PlayerAction::InsertRune(calculator_core::ids::RuneId(1)));
    assert_eq!(request(e), (id + 1, None));
}

#[test]
fn fresh_session_infers_player_stats_once() {
    let p = Player::default().reduce(PlayerAction::Data(DataAction::InferStats(true)));
    let mut s = Session::from_state(p, Enemies::default(), Dragons::default());
    assert_eq!(s.last_action(), LastAction::Init);
    let (id, cancel) = request(s.watch_fired());
    assert_eq!((id, cancel), (0, None));
    assert_eq!(s.active(), Some(Pending { id: 0, origin: LastAction::Init }));
    let big = stats(77);
    let r = s.resolve(0, game_with(big, &[]));
    assert_eq!(r, Resolution::Stored { wrote_back: true });
    assert_eq!(s.player().data.stats, big);
    assert!(s.player().data.infer_stats);
    assert_eq!(s.last_action(), LastAction::Any);
    assert_eq!(s.active(), None);
    assert_eq!(s.game().unwrap().current_player.current_stats, big);
    let (next, _) = request(s.dispatch_player(PlayerAction::Data(DataAction::Stacks(1))));
    assert_eq!(next, 1);
}

#[test]
fn fresh_session_infers_every_flagged_enemy() {
    let mut s = Session::from_state(Player::default(), roster(&[true, false, true]), Dragons::default());
    let (id, _) = request(s.watch_fired());
    let r = s.resolve(id, game_with(stats(3), &[simple(1), simple(2), simple(3)]));
    assert_eq!(r, Resolution::Stored { wrote_back: true });
    assert_eq!(s.player().data.stats, Stats::default());
    assert_eq!(s.enemies().get(0).stats, simple(1));
    assert_eq!(s.enemies().get(1).stats, SimpleStats::default());
    assert_eq!(s.enemies().get(2).stats, simple(3));
    assert_eq!(s.last_action(), LastAction::Any);
}

#[test]
fn nothing_to_infer_stores_result_only() {
    let mut s = Session::new();
    let (id, _) = request(s.watch_fired());
    let r = s.resolve(id, game_with(stats(9), &[]));
    assert_eq!(r, Resolution::Stored { wrote_back: false });
    assert_eq!(s.player().data.stats, Stats::default());
    assert_eq!(s.last_action(), LastAction::Init);
    assert!(s.game().is_some());
}

#[test]
fn new_edit_cancels_request_in_flight() {
    let mut s = Session::from_state(Player::default(), roster(&[false, false, true]), Dragons::default());
    let (first, _) = request(s.watch_fired());
    let e = s.dispatch_enemies(EnemyAction::Edit(2, DataAction::Stacks(4)));
    let (second, cancel) = request(e);
    assert_eq!(cancel, Some(first));
    assert_ne!(second, first);
    assert_eq!(s.last_action(), LastAction::EnemyPlayer(2));
    assert_eq!(s.active(), Some(Pending { id: second, origin: LastAction::EnemyPlayer(2) }));
    let r = s.resolve(first, game_with(stats(1), &[simple(1), simple(2), simple(3)]));
    assert_eq!(r, Resolution::Discarded);
    assert!(s.game().is_none());
    assert_eq!(s.enemies().get(2).stats, SimpleStats::default());
    assert!(!s.fail(first));
    let r = s.resolve(second, game_with(stats(1), &[simple(1), simple(2), simple(3)]));
    assert_eq!(r, Resolution::Stored { wrote_back: true });
    assert_eq!(s.enemies().get(2).stats, simple(3));
    assert_eq!(s.enemies().get(0).stats, SimpleStats::default());
}

#[test]
fn write_back_to_vanished_enemy_is_dropped() {
    let mut s = Session::from_state(Player::default(), roster(&[true, true, true]), Dragons::default());
    let (first, _) = request(s.watch_fired());
    s.fail(first);
    let (edit, _) = request(s.dispatch_enemies(EnemyAction::Edit(2, DataAction::Stacks(1))));
    let (removal, cancel) = request(s.dispatch_enemies(EnemyAction::Remove(0)));
    assert_eq!(cancel, Some(edit));
    assert_eq!(s.enemies().len(), 2);
    assert_eq!(s.enemies().get(0).champion_id, ChampionId(3));
    assert_eq!(s.enemies().get(1).champion_id, ChampionId(2));
    let result = || game_with(stats(1), &[simple(1), simple(2), simple(3)]);
    assert_eq!(s.resolve(edit, result()), Resolution::Discarded);
    assert_eq!(s.enemies().len(), 2);
    assert_eq!(s.enemies().get(0).stats, SimpleStats::default());
    assert_eq!(s.enemies().get(1).stats, SimpleStats::default());
    assert!(s.game().is_none());
    assert_eq!(s.resolve(removal, result()), Resolution::Stored { wrote_back: false });
    assert_eq!(s.enemies().len(), 2);
    assert_eq!(s.enemies().get(0).stats, SimpleStats::default());
}

#[test]
fn result_with_fewer_enemies_than_roster() {
    let mut s = Session::from_state(Player::default(), roster(&[true, true, true]), Dragons::default());
    let (id, _) = request(s.watch_fired());
    let r = s.resolve(id, game_with(stats(1), &[simple(4), simple(5)]));
    assert_eq!(r, Resolution::Stored { wrote_back: true });
    assert_eq!(s.enemies().get(0).stats, simple(4));
    assert_eq!(s.enemies().get(1).stats, simple(5));
    assert_eq!(s.enemies().get(2).stats, SimpleStats::default());
}

#[test]
fn result_with_more_enemies_than_roster() {
    let mut s = Session::from_state(Player::default(), roster(&[true]), Dragons::default());
    let (id, _) = request(s.watch_fired());
    let r = s.resolve(id, game_with(stats(1), &[simple(4), simple(5), simple(6)]));
    assert_eq!(r, Resolution::Stored { wrote_back: true });
    assert_eq!(s.enemies().len(), 1);
    assert_eq!(s.enemies().get(0).stats, simple(4));
}

#[test]
fn dragons_do_not_fire_the_watcher() {
    let mut s = Session::new();
    let (id, _) = request(s.watch_fired());
    s.dispatch_dragons(DragonAction::AllyFire(2));
    assert_eq!(s.dragons().ally_fire_dragons, 2);
    assert_eq!(s.active(), Some(Pending { id, origin: LastAction::Init }));
    assert_eq!(s.last_action(), LastAction::Init);
    match s.dispatch_player(PlayerAction::Data(DataAction::Stacks(1))) {
        Effect::Request { id: next, cancel, input } => {
            assert_eq!(next, id + 1);
            assert_eq!(cancel, Some(id));
            assert_eq!(input.dragons.ally_fire_dragons, 2);
            assert_eq!(input.active_player.data.stacks, 1);
        }
        Effect::Idle => panic!("expected a request"),
    }
}

#[test]
fn failure_is_reported_only_for_call_in_flight() {
    let mut s = Session::new();
    let (a, _) = request(s.watch_fired());
    let (b, _) = request(s.dispatch_player(PlayerAction::Data(DataAction::Stacks(2))));
    assert!(!s.fail(a));
    assert_eq!(s.active(), Some(Pending { id: b, origin: LastAction::CurrentPlayer }));
    assert!(s.fail(b));
    assert_eq!(s.active(), None);
    assert!(!s.fail(b));
    assert_eq!(s.resolve(b, game_with(stats(1), &[])), Resolution::Discarded);
    assert!(s.game().is_none());
}

#[test]
fn request_carries_snapshot() {
    let mut s = Session::from_state(Player::default(), roster(&[false, true]), Dragons::default());
    match s.watch_fired() {
        Effect::Request { input, .. } => {
            assert_eq!(input.active_player, Player::default());
            assert_eq!(input.enemy_players.len(), 2);
            assert!(input.enemy_players[1].infer_stats);
            assert_eq!(input.enemy_players[0].champion_id, ChampionId(1));
            assert_eq!(input.dragons, Dragons::default());
        }
        Effect::Idle => panic!("expected a request"),
    }
    let g = s.input_game();
    assert_eq!(g.enemy_players.len(), 2);
}
