use exosphere::comms::Stage;
use exosphere::fab::FabLevels;
use exosphere::game::{
    client_place, client_win_checks, frame_broadcast, ClientMoney, GameState, PlaceDecision, PlayerCountConfig,
    StageReport, TimesConfig, Verdict,
};
use exosphere::ids::{ClientId, PieceId, PlayerId};
use exosphere::protocol::frames::{ProtocolDeserialize, ProtocolSerialize};
use exosphere::types::{Asset, PieceType};

fn state(playing: bool, io: bool, strategy: bool) -> GameState {
    GameState {
        playing,
        io,
        strategy,
        tick: 9,
        time_in_stage: 40,
        currently_attached_players: 3,
        currently_playing: 2,
    }
}

#[test]
fn stage_follows_playing_and_strategy() {
    assert_eq!(state(false, false, false).get_state_enum(), Stage::Waiting);
    assert_eq!(state(false, false, true).get_state_enum(), Stage::Waiting);
    assert_eq!(state(true, false, true).get_state_enum(), Stage::MoveShips);
    assert_eq!(state(true, false, false).get_state_enum(), Stage::Playing);
    assert_eq!(Stage::MoveShips.get_str(), "MOVE SHIPS");
    assert_eq!(Stage::Playing.get_str(), "PLAYING");
    assert_eq!(Stage::Waiting.get_str(), "WAITING");
}

#[test]
fn fab_levels_builders_and_order() {
    let a = FabLevels::ships(2);
    assert_eq!(a, FabLevels { missiles: 0, ships: 2, econ: 0, defense: 0, buildings: 0 });
    let b = FabLevels::default().with_ships(2).with_econ(1).with_missiles(1).with_defense(4).with_buildings(5);
    assert_eq!(b.defense, 4);
    assert_eq!(b.buildings, 5);
    assert_eq!(a.partial_cmp(&a), Some(std::cmp::Ordering::Equal));
    assert_eq!(a.partial_cmp(&b), Some(std::cmp::Ordering::Less));
    assert_eq!(b.partial_cmp(&a), Some(std::cmp::Ordering::Greater));
    assert!(FabLevels::missiles(1) < FabLevels::missiles(2));
    assert!(FabLevels::econ(1).partial_cmp(&FabLevels::defense(1)) == Some(std::cmp::Ordering::Less));
    assert_eq!(FabLevels::buildings(3).buildings, 3);
}

#[test]
fn piece_tables() {
    assert_eq!(PieceType::Battleship.price(), 200);
    assert_eq!(PieceType::Castle.price(), 0);
    assert!(PieceType::FleetDefenseShip.user_placeable());
    assert_eq!(PieceType::FleetDefenseShip.price(), 50);
    assert!(!PieceType::Castle.user_placeable());
    assert!(!PieceType::LaserNode.user_movable());
    assert!(PieceType::ScrapShip.user_movable());
    assert_eq!(PieceType::CruiseMissile.fabber(), FabLevels::missiles(4));
    assert_eq!(PieceType::FleetDefenseShip.fabber(), FabLevels::ships(1));
    assert_eq!(PieceType::Chest.fabber(), FabLevels::default());
    assert_eq!(PieceType::LaserNode.name(), "Small Laser Node");
    assert_eq!(PieceType::EmpZone.name(), "");
    assert_eq!(PieceType::Chest.description(), "Static piece that grants whichever player kills it 20 coins");
    assert!(PieceType::SmartTurret.show_field());
    assert!(PieceType::TrackingMissile.supports_target_control());
    assert!(!PieceType::CruiseMissile.supports_target_control());
    assert_eq!(PieceType::Castle.asset().to_friendly(), "castle_friendly.svg");
    assert_eq!(PieceType::Castle.asset().to_enemy(), "castle_enemy.svg");
    assert_eq!(PieceType::Seed.asset().to_enemy(), "seed.svg");
    assert!(matches!(PieceType::FleetDefenseShip.asset(), Asset::Unimpl));
    assert_eq!(PieceType::EmpZone.asset().to_friendly(), "notfound.svg");
    assert_eq!(PieceType::from_u16(1), Some(PieceType::Castle));
    assert_eq!(PieceType::from_u16(24), Some(PieceType::EmpZone));
    assert_eq!(PieceType::from_u16(25), None);
}

#[test]
fn every_piece_obeys_the_table_rules() {
    for n in 0..25u16 {
        let t = PieceType::from_u16(n).unwrap();
        assert_eq!(t.price() > 0, t.user_placeable());
        assert!(!t.user_movable() || t.user_placeable());
        assert!(!t.user_placeable() || t.fabber() != FabLevels::default());
        assert!(t.fabber() == FabLevels::default() || t.user_placeable());
    }
}

#[test]
fn ids_convert() {
    assert_eq!(ClientId(12).to_player_id(), PlayerId(12));
    assert_eq!(PlayerId(5).to_client_id(), ClientId(5));
    assert_eq!(PlayerId::system(), PlayerId(0));
    assert_eq!(PieceId::zero(), PieceId(0));
}

#[test]
fn sole_survivor_wins() {
    let mut s = state(true, false, true);
    let r = client_win_checks(&mut s, &[3], 1, 30);
    assert!(r.game_over);
    assert_eq!(r.verdict, Some(Verdict::SoleSurvivor));
    assert!(!s.playing && !s.strategy);
    assert_eq!(s.tick, 0);
    assert_eq!(s.time_in_stage, 30);
}

#[test]
fn one_team_left_wins() {
    let mut s = state(true, false, false);
    let r = client_win_checks(&mut s, &[4, 4, 4], 1, 30);
    assert!(r.game_over);
    assert_eq!(r.verdict, Some(Verdict::TeamWin(4)));
}

#[test]
fn nobody_left_is_a_tie() {
    let mut s = state(true, false, false);
    let r = client_win_checks(&mut s, &[], 0, 30);
    assert!(r.game_over);
    assert_eq!(r.verdict, Some(Verdict::Tie));
    // spectators alone hold no team either
    let mut t = state(true, false, false);
    let r = client_win_checks(&mut t, &[0, 0], 0, 30);
    assert_eq!(r.verdict, Some(Verdict::Tie));
}

#[test]
fn mixed_teams_or_free_agents_play_on() {
    let mut s = state(true, false, false);
    let r = client_win_checks(&mut s, &[4, 5], 1, 30);
    assert!(!r.game_over);
    assert_eq!(r.verdict, None);
    assert!(s.playing);
    assert_eq!(s.tick, 9);
    let mut t = state(true, false, false);
    let r = client_win_checks(&mut t, &[1, 1], 1, 30);
    assert!(!r.game_over);
}

#[test]
fn too_few_players_stops_without_a_winner() {
    let mut s = state(false, false, false);
    let r = client_win_checks(&mut s, &[2, 3], 3, 15);
    assert!(!r.game_over);
    assert_eq!(s.time_in_stage, 15);
    assert_eq!(s.tick, 0);
    let mut io = state(true, true, false);
    let r = client_win_checks(&mut io, &[], 3, 15);
    assert!(!r.game_over);
    assert!(io.playing);
    assert_eq!(io.tick, 9);
}

#[test]
fn money_charges_and_collects() {
    let mut m = ClientMoney { money: 30 };
    assert!(m.charge(20));
    assert_eq!(m.money, 10);
    assert!(!m.charge(11));
    assert_eq!(m.money, 10);
    m.collect(5);
    assert_eq!(m.money, 15);
    m.apply_collect_event(-10);
    assert_eq!(m.money, 5);
    m.apply_collect_event(20);
    assert_eq!(m.money, 25);
}

#[test]
fn config_frames_roundtrip() {
    let t = TimesConfig { wait_period: 30, strategy_period: 150, play_period: 300 };
    let f = t.encode().unwrap();
    assert_eq!(f, vec![30, 0, 150, 0, 44, 1]);
    assert_eq!(t.get_encoded_size(), Ok(6));
    assert_eq!(TimesConfig::decode(&f), Ok(t));
    let p = PlayerCountConfig { min_players: 2, max_players: 1000 };
    assert_eq!(PlayerCountConfig::decode(&p.encode().unwrap()), Ok(p));
}

fn clock(playing: bool, strategy: bool, tick: u16, time_in_stage: u16) -> GameState {
    GameState {
        playing,
        io: false,
        strategy,
        tick,
        time_in_stage,
        currently_attached_players: 0,
        currently_playing: 0,
    }
}

#[test]
fn waiting_counts_up_then_starts_the_game() {
    let mut s = clock(false, false, 0, 2);
    let slots = [1u8, 1];
    let r = frame_broadcast(&mut s, &slots, 2, 5, 7);
    assert_eq!(r, StageReport { stage: Stage::Waiting, tick_in_stage: 1, stage_duration: 2 });
    frame_broadcast(&mut s, &slots, 2, 5, 7);
    assert_eq!(s.tick, 2);
    assert!(!s.playing);
    let r = frame_broadcast(&mut s, &slots, 2, 5, 7);
    assert_eq!(r, StageReport { stage: Stage::Playing, tick_in_stage: 3, stage_duration: 2 });
    assert!(s.playing);
    // the next frame runs past the phase: strategy begins
    let r = frame_broadcast(&mut s, &slots, 2, 5, 7);
    assert_eq!(r, StageReport { stage: Stage::MoveShips, tick_in_stage: 0, stage_duration: 5 });
    assert!(s.strategy);
}

#[test]
fn play_and_strategy_alternate() {
    let mut s = clock(true, true, 5, 5);
    let slots = [2u8, 3];
    let r = frame_broadcast(&mut s, &slots, 1, 5, 7);
    assert_eq!(r, StageReport { stage: Stage::Playing, tick_in_stage: 0, stage_duration: 7 });
    let r = frame_broadcast(&mut s, &slots, 1, 5, 7);
    assert_eq!(r, StageReport { stage: Stage::Playing, tick_in_stage: 1, stage_duration: 7 });
}

#[test]
fn waiting_without_enough_players_resets_the_tick() {
    let mut s = clock(false, false, 3, 10);
    let r = frame_broadcast(&mut s, &[1u8], 2, 5, 7);
    assert_eq!(r, StageReport { stage: Stage::Waiting, tick_in_stage: 0, stage_duration: 10 });
    // a single team has no variety
    let mut s = clock(false, false, 3, 10);
    frame_broadcast(&mut s, &[4u8, 4, 4], 1, 5, 7);
    assert_eq!(s.tick, 0);
}

#[test]
fn a_game_without_variety_stops_but_keeps_its_tick() {
    let mut s = clock(true, false, 3, 10);
    let r = frame_broadcast(&mut s, &[4u8, 4], 1, 5, 7);
    assert_eq!(r, StageReport { stage: Stage::Waiting, tick_in_stage: 0, stage_duration: 10 });
    assert!(!s.playing);
    assert!(!s.strategy);
}

#[test]
fn phase_clock_holds_for_long_games() {
    // a game with long phases runs many frames without overflowing its tick
    let mut s = clock(false, false, 0, 3);
    let slots = [1u8, 2];
    let mut flips = 0;
    for _ in 0..200 {
        let before = s.strategy;
        frame_broadcast(&mut s, &slots, 2, 4, 6);
        if s.playing && s.strategy != before {
            flips += 1;
        }
        if s.playing {
            assert!(s.tick <= s.time_in_stage + 1);
        } else {
            assert!(s.tick <= s.time_in_stage);
        }
    }
    assert!(flips > 10);
}

#[test]
fn play_schedule_runs_only_in_play() {
    assert!(clock(true, false, 0, 0).runs_play_schedule());
    assert!(!clock(true, true, 0, 0).runs_play_schedule());
    assert!(!clock(false, false, 0, 0).runs_play_schedule());
}

#[test]
fn castles_go_down_once_while_waiting() {
    let mut s = clock(false, false, 0, 10);
    assert_eq!(client_place(&mut s, PieceType::Castle, false, true, 0), PlaceDecision::Castle);
    assert_eq!(s.currently_playing, 1);
    assert_eq!(client_place(&mut s, PieceType::Castle, true, true, 0), PlaceDecision::Drop);
    assert_eq!(client_place(&mut s, PieceType::Castle, false, false, 0), PlaceDecision::Ignore);
    assert_eq!(s.currently_playing, 1);
    // not while a normal game is played, but always in an io game
    let mut p = clock(true, true, 0, 10);
    assert_eq!(client_place(&mut p, PieceType::Castle, false, true, 0), PlaceDecision::Ignore);
    p.io = true;
    assert_eq!(client_place(&mut p, PieceType::Castle, false, true, 0), PlaceDecision::Castle);
    assert_eq!(p.currently_playing, 1);
}

#[test]
fn pieces_are_bought_in_strategy_with_more_money_than_their_price() {
    let mut s = clock(true, true, 0, 10);
    assert_eq!(client_place(&mut s, PieceType::Battleship, false, false, 201), PlaceDecision::Buy(-200));
    assert_eq!(client_place(&mut s, PieceType::Battleship, false, false, 200), PlaceDecision::Ignore);
    assert_eq!(client_place(&mut s, PieceType::BasicFighter, true, true, 11), PlaceDecision::Buy(-10));
    // pieces players may not place
    assert_eq!(client_place(&mut s, PieceType::Chest, false, false, 1000), PlaceDecision::Ignore);
    // not outside strategy
    let mut q = clock(true, false, 0, 10);
    assert_eq!(client_place(&mut q, PieceType::Battleship, false, false, 1000), PlaceDecision::Ignore);
    let mut w = clock(false, true, 0, 10);
    assert_eq!(client_place(&mut w, PieceType::Battleship, false, false, 1000), PlaceDecision::Ignore);
    assert_eq!(s.currently_playing, 0);
}

#[test]
fn sensors_and_fields() {
    assert_eq!(PieceType::Farmhouse.sensor(), Some(100));
    assert_eq!(PieceType::LaserNodeLR.sensor(), Some(600));
    assert_eq!(PieceType::Castle.sensor(), None);
    assert_eq!(PieceType::Castle.field(), Some(600));
    assert_eq!(PieceType::SmartTurret.field(), Some(350));
    assert_eq!(PieceType::Battleship.field(), None);
}

#[test]
fn fab_levels_at_least_means_every_level() {
    let need = FabLevels::ships(2).with_econ(1);
    assert!(FabLevels::ships(2).with_econ(1) >= need);
    assert!(FabLevels::ships(3).with_econ(1).with_missiles(4) >= need);
    assert!(!(FabLevels::ships(3) >= need));
    assert!(!(FabLevels::econ(5) >= need));
}
