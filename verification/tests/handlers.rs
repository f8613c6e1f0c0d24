use exosphere::client::{is_friendly, ObjectData};
use exosphere::comms::{ObjectSpecialPropertySet, StrategyPathModification};
use exosphere::game::GameState;
use exosphere::handlers::{
    client_connection, client_flow_password, client_health_check, fabber_check, on_piece_dead, pieces_owned_by, setup_piece,
    special_handler, strategy_path_handler, ConnectionStep, PasswordOutcome, PieceDeath, PieceRecord, Reward,
    SetupPiece, Holder, ScrapShip, Seed, TimeToLive, seed_mature, ttl,
};
use exosphere::ids::{PieceId, PlayerId};
use exosphere::pathfollower::{PathFollower, PathNode};
use exosphere::types::PieceType;

fn phase(playing: bool, strategy: bool) -> GameState {
    GameState {
        playing,
        io: false,
        strategy,
        tick: 0,
        time_in_stage: 10,
        currently_attached_players: 0,
        currently_playing: 0,
    }
}

fn node(n: u32) -> PathNode {
    PathNode::StraightTo(n, n)
}

fn nodes(p: &PathFollower) -> Vec<PathNode> {
    p.nodes.iter().copied().collect()
}

#[test]
fn owners_change_paths_in_strategy() {
    let s = phase(true, true);
    let me = PlayerId(7);
    let piece = PieceId(3);
    let mut p = PathFollower::start(1, 1);
    assert!(strategy_path_handler(&s, me, me, &mut p, StrategyPathModification::Insert(piece, 1, node(2))));
    assert_eq!(nodes(&p), vec![node(1), node(2)]);
    assert!(strategy_path_handler(&s, me, me, &mut p, StrategyPathModification::Insert(piece, 0, node(0))));
    assert_eq!(nodes(&p), vec![node(0), node(1), node(2)]);
    // an index past the end changes nothing
    assert!(strategy_path_handler(&s, me, me, &mut p, StrategyPathModification::Insert(piece, 9, node(9))));
    assert_eq!(nodes(&p), vec![node(0), node(1), node(2)]);
    assert!(strategy_path_handler(&s, me, me, &mut p, StrategyPathModification::Replace(piece, 1, node(5))));
    assert_eq!(nodes(&p), vec![node(0), node(5), node(2)]);
    assert!(strategy_path_handler(&s, me, me, &mut p, StrategyPathModification::Delete(piece, 0)));
    assert_eq!(nodes(&p), vec![node(5), node(2)]);
    assert!(strategy_path_handler(&s, me, me, &mut p, StrategyPathModification::Delete(piece, 2)));
    assert_eq!(nodes(&p), vec![node(5), node(2)]);
    assert!(strategy_path_handler(&s, me, me, &mut p, StrategyPathModification::Clear(piece)));
    assert!(nodes(&p).is_empty());
}

#[test]
fn strangers_and_other_phases_change_nothing() {
    let me = PlayerId(7);
    let you = PlayerId(8);
    let piece = PieceId(3);
    let mut p = PathFollower::start(1, 1);
    assert!(!strategy_path_handler(&phase(true, true), you, me, &mut p, StrategyPathModification::Clear(piece)));
    assert!(!strategy_path_handler(&phase(true, false), me, me, &mut p, StrategyPathModification::Clear(piece)));
    assert!(!strategy_path_handler(&phase(false, true), me, me, &mut p, StrategyPathModification::Clear(piece)));
    assert_eq!(nodes(&p), vec![node(1)]);
}

#[test]
fn guns_are_switched_by_their_owners_in_strategy() {
    let me = PlayerId(1);
    let mut on = true;
    assert!(special_handler(&phase(true, true), me, me, &mut on, ObjectSpecialPropertySet::GunState(false)));
    assert!(!on);
    assert!(!special_handler(&phase(true, true), PlayerId(2), me, &mut on, ObjectSpecialPropertySet::GunState(true)));
    assert!(!on);
    assert!(!special_handler(&phase(true, false), me, me, &mut on, ObjectSpecialPropertySet::GunState(true)));
    assert!(!on);
}

#[test]
fn joining_follows_the_configuration() {
    assert_eq!(client_connection(true, true), ConnectionStep::AwaitTeam);
    assert_eq!(client_connection(false, true), ConnectionStep::ChallengePassword);
    assert_eq!(client_connection(false, false), ConnectionStep::Join(1));
    let pw = Some("hunter2".to_string());
    assert_eq!(client_flow_password(&pw, &"hunter2".to_string()), PasswordOutcome::Join(1));
    assert_eq!(client_flow_password(&pw, &"hunter3".to_string()), PasswordOutcome::Reject);
    assert_eq!(client_flow_password(&None, &"hunter2".to_string()), PasswordOutcome::Ignored);
}

#[test]
fn a_killed_client_without_territory_loses_and_its_pieces_go() {
    let a = PlayerId(1);
    let b = PlayerId(2);
    let pieces = [
        PieceRecord { owner: a, territory: false },
        PieceRecord { owner: b, territory: true },
        PieceRecord { owner: a, territory: false },
    ];
    let r = client_health_check(true, &pieces, a);
    assert!(r.lost);
    assert_eq!(r.doomed, vec![0, 2]);
    // a client still holding territory is a false alarm: nothing happens
    let r = client_health_check(true, &pieces, b);
    assert!(!r.lost);
    assert_eq!(r.doomed, Vec::<usize>::new());
    // once it left, its pieces go whatever it holds
    let r = client_health_check(false, &pieces, b);
    assert!(!r.lost);
    assert_eq!(r.doomed, vec![1]);
    // a client that already left is not told it lost
    let r = client_health_check(false, &pieces, a);
    assert!(!r.lost);
    assert_eq!(r.doomed, vec![0, 2]);
    assert_eq!(pieces_owned_by(&pieces, PlayerId(3)), Vec::<usize>::new());
    assert_eq!(pieces_owned_by(&[], a), Vec::<usize>::new());
}

#[test]
fn deaths_set_off_their_effects() {
    let owner = PlayerId(4);
    let killer = PlayerId(5);
    assert_eq!(
        on_piece_dead(PieceType::Castle, owner, killer, false, false),
        PieceDeath { explodes: false, reward: None, owner_killed: Some(owner) }
    );
    assert_eq!(
        on_piece_dead(PieceType::Chest, PlayerId(0), killer, false, true),
        PieceDeath { explodes: false, reward: Some(Reward { to: killer, coins: 20 }), owner_killed: None }
    );
    assert_eq!(
        on_piece_dead(PieceType::BallisticMissile, owner, killer, true, false),
        PieceDeath { explodes: true, reward: None, owner_killed: None }
    );
}

#[test]
fn setup_codes_name_their_pieces() {
    assert_eq!(
        setup_piece(&"basic_fighter".to_string()),
        Some(SetupPiece { tp: PieceType::BasicFighter, turned: true })
    );
    assert_eq!(setup_piece(&"castle".to_string()), Some(SetupPiece { tp: PieceType::Castle, turned: false }));
    assert_eq!(setup_piece(&"sniper".to_string()), Some(SetupPiece { tp: PieceType::Sniper, turned: true }));
    assert_eq!(
        setup_piece(&"lasernode_small".to_string()),
        Some(SetupPiece { tp: PieceType::LaserNode, turned: false })
    );
    assert_eq!(setup_piece(&"lasernode".to_string()), None);
    assert_eq!(setup_piece(&String::new()), None);
}

#[test]
fn friends_are_teammates_and_oneself() {
    let me = PlayerId(3);
    assert!(is_friendly(me, 4, me, None));
    assert!(!is_friendly(me, 4, PlayerId(0), Some(4)));
    assert!(is_friendly(me, 4, PlayerId(9), Some(4)));
    assert!(!is_friendly(me, 4, PlayerId(9), Some(5)));
    assert!(!is_friendly(me, 4, PlayerId(9), None));
    // free agents have no friends but themselves
    assert!(!is_friendly(me, 1, PlayerId(9), Some(1)));
    assert!(is_friendly(me, 1, me, Some(1)));
}

#[test]
fn client_edits_are_what_the_server_applies() {
    let id = PieceId(11);
    let me = PlayerId(2);
    let s = phase(true, true);
    let mut local = piece_record(id);
    let mut remote = PathFollower::start(1, 1);
    let edits = [
        local.extend_path(node(2)),
        local.extend_path(node(3)),
        local.path_insert(1, node(4)),
        local.path_insert(40, node(5)),
        local.update_strategy(0, node(6)),
        local.update_strategy(30, node(7)),
        local.delete_strategy(2),
        local.delete_strategy(20),
    ];
    assert_eq!(edits[0], StrategyPathModification::Insert(id, 1, node(2)));
    assert_eq!(edits[1], StrategyPathModification::Insert(id, 2, node(3)));
    assert_eq!(edits[4], StrategyPathModification::Replace(id, 0, node(6)));
    assert_eq!(edits[6], StrategyPathModification::Delete(id, 2));
    for e in edits {
        assert!(strategy_path_handler(&s, me, me, &mut remote, e));
    }
    assert_eq!(nodes(&local.path), vec![node(6), node(4), node(3)]);
    assert_eq!(nodes(&local.path), nodes(&remote));
}

#[test]
fn completions_move_on_or_resync() {
    let id = PieceId(5);
    let mut o = piece_record(id);
    o.extend_path(node(2));
    o.extend_path(node(3));
    assert_eq!(o.strategy_completion(2), None);
    assert_eq!(nodes(&o.path), vec![node(2), node(3)]);
    assert_eq!(o.strategy_completion(1), None);
    assert_eq!(nodes(&o.path), vec![node(3)]);
    // the endcap stays
    assert_eq!(o.strategy_completion(1), None);
    assert_eq!(nodes(&o.path), vec![node(3)]);
    // a mismatch clears the path
    assert_eq!(o.strategy_completion(4), Some(StrategyPathModification::Clear(id)));
    assert!(nodes(&o.path).is_empty());
}

fn holder(owner: u64, slot: u8, fabs_here: bool, near_territory: bool) -> Holder {
    Holder { owner: PlayerId(owner), slot, fabs_here, near_territory }
}

#[test]
fn pieces_need_a_friendly_fabber() {
    let me = PlayerId(1);
    // free pieces always go down
    assert!(fabber_check(true, PieceType::Castle, me, 3, &[holder(2, 1, false, true)]));
    // no fabber around
    assert!(!fabber_check(false, PieceType::BasicFighter, me, 3, &[]));
    assert!(!fabber_check(false, PieceType::BasicFighter, me, 3, &[holder(1, 3, false, true)]));
    // one's own fabber, or a teammate's
    assert!(fabber_check(false, PieceType::BasicFighter, me, 3, &[holder(1, 3, true, false)]));
    assert!(fabber_check(false, PieceType::BasicFighter, me, 3, &[holder(2, 3, true, false)]));
    // a free agent's fabber builds only for itself
    assert!(!fabber_check(false, PieceType::BasicFighter, me, 1, &[holder(2, 1, true, false)]));
    assert!(!fabber_check(false, PieceType::BasicFighter, me, 3, &[holder(2, 4, true, false)]));
}

#[test]
fn castles_keep_away_from_others_territory() {
    let me = PlayerId(1);
    let mine = holder(1, 3, true, true);
    assert!(fabber_check(false, PieceType::Castle, me, 3, &[mine]));
    // a teammate's territory is fine
    assert!(fabber_check(false, PieceType::Castle, me, 3, &[mine, holder(2, 3, false, true)]));
    // anyone else's is not, wherever it comes in the list
    assert!(!fabber_check(false, PieceType::Castle, me, 3, &[mine, holder(2, 4, false, true)]));
    assert!(!fabber_check(false, PieceType::Castle, me, 3, &[holder(2, 1, false, true), mine]));
    // other pieces do not care
    assert!(fabber_check(false, PieceType::Sniper, me, 3, &[mine, holder(2, 4, false, true)]));
}

#[test]
fn scrapships_go_round_their_seeds() {
    let mut ship = ScrapShip { seeds_in_range: vec![10, 20, 30], ind: 0 };
    assert_eq!(ship.next_target(), Some(20));
    assert_eq!(ship.next_target(), Some(30));
    assert_eq!(ship.next_target(), Some(10));
    assert_eq!(ship.ind, 0);
    ship.ind = 1;
    ship.drop_current();
    assert_eq!(ship.seeds_in_range, vec![10, 30]);
    assert_eq!(ship.next_target(), Some(10));
    let mut idle = ScrapShip { seeds_in_range: vec![], ind: 4 };
    assert_eq!(idle.next_target(), None);
    assert_eq!(idle.ind, 4);
}

#[test]
fn guns_toggle_from_their_last_state() {
    use_toggle();
}

fn use_toggle() {
    assert!(exosphere::client::toggled_gun_state(None));
    assert!(!exosphere::client::toggled_gun_state(Some(true)));
    assert!(exosphere::client::toggled_gun_state(Some(false)));
    assert_eq!(exosphere::comms::VERSION, 2);
}

#[test]
fn allies_share_a_team_slot() {
    let a = PlayerId(1);
    let b = PlayerId(2);
    for (sa, sb) in [(3u8, 3u8), (3, 4), (1, 1), (1, 3), (0, 0), (2, 2)] {
        let allied = sa == sb && sa >= 2;
        assert_eq!(is_friendly(a, sa, b, Some(sb)), allied);
        assert_eq!(fabber_check(false, PieceType::Sniper, a, sa, &[holder(2, sb, true, false)]), allied);
        if sa != 0 {
            let mine = holder(1, sa, true, false);
            assert_eq!(fabber_check(false, PieceType::Castle, a, sa, &[mine, holder(2, sb, false, true)]), allied);
        }
    }
    // spectators' castles do not keep away from each other
    let mine = holder(1, 0, true, false);
    assert!(fabber_check(false, PieceType::Castle, a, 0, &[mine, holder(2, 0, false, true)]));
    let _ = b;
}

#[test]
fn short_lived_pieces_count_down_then_expire() {
    let mut t = TimeToLive { lifetime: 2 };
    assert!(!ttl(&mut t));
    assert!(!ttl(&mut t));
    assert_eq!(t.lifetime, 0);
    assert!(ttl(&mut t));
    assert!(ttl(&mut t));
    assert_eq!(t.lifetime, 0);
}

#[test]
fn growing_seeds_mature_when_their_time_runs_out() {
    let mut s = Seed { growing: true, time_to_grow: 2 };
    assert!(!seed_mature(&mut s));
    assert!(seed_mature(&mut s));
    assert_eq!(s.time_to_grow, 0);
    let mut idle = Seed { growing: false, time_to_grow: 3 };
    assert!(!seed_mature(&mut idle));
    assert_eq!(idle.time_to_grow, 3);
    let mut ripe = Seed { growing: false, time_to_grow: 0 };
    assert!(seed_mature(&mut ripe));
}

fn piece_record(id: PieceId) -> ObjectData {
    ObjectData {
        id,
        tp: PieceType::BasicFighter,
        x: 1,
        y: 1,
        a: 0,
        owner: PlayerId(1),
        health: 0x3f800000,
        path: PathFollower::start(1, 1),
    }
}
