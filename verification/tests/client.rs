use exosphere::client::{
    click_outcome, ClickOutcome, ClientInput, PlaceRequest, expected_test_frame, on_server_message, AlertKind, ClientAction, ClientModel, Explosion, Laser, ObjectData,
    ScreenKind, ServerMessageModel, TestFrame,
};
use exosphere::comms::{Stage, StrategyPathModification};
use exosphere::ids::{PieceId, PlayerId};
use exosphere::pathfollower::PathNode;
use exosphere::types::PieceType;
use std::collections::HashMap;

fn model(tested: bool) -> ClientModel {
    ClientModel {
        gameboard_width: 0,
        gameboard_height: 0,
        id: PlayerId(0),
        slot: 0,
        tick: 0,
        stage_duration: 0,
        stage: Stage::Waiting,
        global_tick: 0,
        player_data: HashMap::new(),
        object_data: HashMap::new(),
        territory_data: HashMap::new(),
        fabber_data: HashMap::new(),
        money: 0,
        has_tested: tested,
        lasers: Vec::new(),
        explosions: Vec::new(),
    }
}

fn server_test() -> TestFrame {
    TestFrame {
        text: "EXOSPHERE".to_string(),
        byte: 128,
        short: 4096,
        int: 115600,
        long: 123456789012345,
        signed_byte: -64,
        signed_short: -4096,
        signed_int: -115600,
        signed_long: -123456789012345,
        float_bits: (-4096.512f32).to_bits(),
        double_bits: (-8192.756f64).to_bits(),
        version: exosphere::comms::VERSION,
    }
}

fn nodes(o: &ObjectData) -> Vec<PathNode> {
    o.path.nodes.iter().copied().collect()
}

#[test]
fn the_test_frame_is_echoed_then_connect() {
    let mut m = model(false);
    let acts = on_server_message(&mut m, ServerMessageModel::Test(server_test()));
    assert!(m.has_tested);
    assert_eq!(acts, vec![ClientAction::SendTest(server_test()), ClientAction::SendConnect]);
    assert_eq!(expected_test_frame(), server_test());
}

#[test]
fn a_wrong_test_frame_or_version_fails_verification() {
    let mut bad = server_test();
    bad.version = exosphere::comms::VERSION.wrapping_add(1);
    let mut m = model(false);
    let acts = on_server_message(&mut m, ServerMessageModel::Test(bad));
    assert!(!m.has_tested);
    assert_eq!(acts, vec![ClientAction::Alert(AlertKind::FailedVerification)]);
    let mut text = server_test();
    text.text = "EXOSPHERF".to_string();
    assert_eq!(
        on_server_message(&mut m, ServerMessageModel::Test(text)),
        vec![ClientAction::Alert(AlertKind::FailedVerification)]
    );
    // nothing else is accepted before the test
    assert_eq!(
        on_server_message(&mut m, ServerMessageModel::Disconnect),
        vec![ClientAction::Alert(AlertKind::FailedVerification)]
    );
    assert!(!m.has_tested);
}

#[test]
fn metadata_state_and_players() {
    let mut m = model(true);
    let acts = on_server_message(
        &mut m,
        ServerMessageModel::Metadata { id: PlayerId(7), slot: 2, board_width: 5, board_height: 6 },
    );
    assert_eq!(acts, vec![ClientAction::SetBoardSize(5, 6), ClientAction::Screen(ScreenKind::GameUi)]);
    assert_eq!((m.id, m.slot, m.gameboard_width, m.gameboard_height), (PlayerId(7), 2, 5, 6));
    let acts = on_server_message(
        &mut m,
        ServerMessageModel::GameState { stage: Stage::Playing, stage_duration: 40, tick_in_stage: 3 },
    );
    assert_eq!(acts, vec![ClientAction::SetTime(3, 40, Stage::Playing)]);
    assert_eq!((m.tick, m.stage_duration, m.stage, m.global_tick), (3, 40, Stage::Playing, 1));
    on_server_message(&mut m, ServerMessageModel::PlayerData { id: PlayerId(8), nickname: "b".to_string(), slot: 3 });
    assert_eq!(m.player_data[&8].slot, 3);
    assert_eq!(m.player_data[&8].money, 0);
    assert_eq!(on_server_message(&mut m, ServerMessageModel::Money { id: PlayerId(8), amount: 50 }), vec![]);
    assert_eq!(m.player_data[&8].money, 50);
    assert_eq!(m.money, 0);
    assert_eq!(
        on_server_message(&mut m, ServerMessageModel::Money { id: PlayerId(7), amount: 9 }),
        vec![ClientAction::SetMoney(9)]
    );
    assert_eq!(m.money, 9);
}

#[test]
fn pieces_are_created_moved_hurt_and_deleted() {
    let mut m = model(true);
    let id = PieceId(4);
    on_server_message(
        &mut m,
        ServerMessageModel::ObjectCreate { id, x: 10, y: 20, a: 30, owner: PlayerId(2), tp: PieceType::Sniper },
    );
    let o = &m.object_data[&4];
    assert_eq!((o.x, o.y, o.a, o.owner, o.tp, o.health), (10, 20, 30, PlayerId(2), PieceType::Sniper, 1.0f32.to_bits()));
    assert_eq!(nodes(o), vec![PathNode::StraightTo(10, 20)]);
    on_server_message(&mut m, ServerMessageModel::ObjectMove { id, x: 11, y: 21, a: 31 });
    on_server_message(&mut m, ServerMessageModel::Health { id, health: 0.5f32.to_bits() });
    let o = &m.object_data[&4];
    assert_eq!((o.x, o.y, o.a, o.health), (11, 21, 31, 0.5f32.to_bits()));
    on_server_message(&mut m, ServerMessageModel::Territory { id, radius: 9 });
    on_server_message(&mut m, ServerMessageModel::Fabber { id, radius: 8 });
    assert_eq!((m.territory_data[&4], m.fabber_data[&4]), (9, 8));
    on_server_message(&mut m, ServerMessageModel::DeleteObject { id });
    assert!(m.object_data.is_empty());
    // moves of unknown pieces change nothing
    on_server_message(&mut m, ServerMessageModel::ObjectMove { id, x: 1, y: 1, a: 1 });
    assert!(m.object_data.is_empty());
}

#[test]
fn completions_resync_mismatched_paths() {
    let mut m = model(true);
    let id = PieceId(4);
    on_server_message(
        &mut m,
        ServerMessageModel::ObjectCreate { id, x: 1, y: 1, a: 0, owner: PlayerId(2), tp: PieceType::Sniper },
    );
    m.object_data.get_mut(&4).unwrap().extend_path(PathNode::StraightTo(2, 2));
    assert_eq!(on_server_message(&mut m, ServerMessageModel::StrategyCompletion { id, remaining: 1 }), vec![]);
    assert_eq!(nodes(&m.object_data[&4]), vec![PathNode::StraightTo(2, 2)]);
    let acts = on_server_message(&mut m, ServerMessageModel::StrategyCompletion { id, remaining: 3 });
    assert_eq!(
        acts,
        vec![
            ClientAction::Alert(AlertKind::MismatchedPaths { local: 1, remote: 3 }),
            ClientAction::SendStrategy(StrategyPathModification::Clear(id)),
        ]
    );
    assert!(nodes(&m.object_data[&4]).is_empty());
}

#[test]
fn effects_endings_and_bad_frames() {
    let mut m = model(true);
    m.id = PlayerId(3);
    on_server_message(&mut m, ServerMessageModel::LaserCast { caster: PieceId(1), from_x: 1, from_y: 2, to_x: 3, to_y: 4 });
    on_server_message(&mut m, ServerMessageModel::Explosion { x: 5, y: 6, radius: 7, damage: 8 });
    assert_eq!(m.lasers, vec![Laser { from_x: 1, from_y: 2, to_x: 3, to_y: 4, age: 2 }]);
    assert_eq!(m.explosions, vec![Explosion { x: 5, y: 6, rad: 7, age: 2 }]);
    assert_eq!(
        on_server_message(&mut m, ServerMessageModel::Winner { id: PlayerId(3) }),
        vec![ClientAction::Alert(AlertKind::YouWon), ClientAction::Reload]
    );
    assert_eq!(
        on_server_message(&mut m, ServerMessageModel::Winner { id: PlayerId(0) }),
        vec![ClientAction::Alert(AlertKind::Winner(PlayerId(0))), ClientAction::Reload]
    );
    assert_eq!(
        on_server_message(&mut m, ServerMessageModel::YouLose),
        vec![ClientAction::Alert(AlertKind::YouLost), ClientAction::Reload]
    );
    assert_eq!(
        on_server_message(&mut m, ServerMessageModel::Reject),
        vec![ClientAction::Alert(AlertKind::InvalidPassword), ClientAction::Reload]
    );
    assert_eq!(on_server_message(&mut m, ServerMessageModel::PasswordChallenge), vec![ClientAction::Screen(ScreenKind::PasswordChallenge)]);
    assert_eq!(
        on_server_message(&mut m, ServerMessageModel::TeamChallenge { available: vec![("red".to_string(), 2)] }),
        vec![ClientAction::SetTeams(vec![("red".to_string(), 2)]), ClientAction::Screen(ScreenKind::TeamChallenge)]
    );
    assert_eq!(on_server_message(&mut m, ServerMessageModel::Disconnect), vec![]);
    assert_eq!(
        on_server_message(&mut m, ServerMessageModel::Test(server_test())),
        vec![ClientAction::Alert(AlertKind::BadFrame)]
    );
}

#[test]
fn clicks_place_the_castle_first_then_buy() {
    assert_eq!(click_outcome(false, Stage::Playing, Some(PieceType::Sniper), 0, false, false), ClickOutcome::PlaceCastle);
    assert_eq!(click_outcome(true, Stage::Playing, Some(PieceType::Sniper), 100, true, false), ClickOutcome::Nothing);
    assert_eq!(
        click_outcome(true, Stage::MoveShips, Some(PieceType::Sniper), 30, true, true),
        ClickOutcome::Buy { tp: PieceType::Sniper, keep_picking: true }
    );
    assert_eq!(click_outcome(true, Stage::MoveShips, Some(PieceType::Sniper), 29, true, false), ClickOutcome::Nothing);
    assert_eq!(click_outcome(true, Stage::MoveShips, Some(PieceType::Sniper), 30, false, false), ClickOutcome::Nothing);
    assert_eq!(click_outcome(true, Stage::MoveShips, None, 0, false, false), ClickOutcome::PathEdit);
}

#[test]
fn the_first_click_places_the_castle() {
    let mut i = ClientInput {
        mouse_x: 1.5f32.to_bits(),
        mouse_y: 2.5f32.to_bits(),
        mouse_down: false,
        has_placed: false,
        piecepicker: Some(PieceType::Sniper),
    };
    let r = i.mouse_down(Stage::Waiting, 0, false, false);
    assert_eq!(
        r,
        (ClickOutcome::PlaceCastle, Some(PlaceRequest { x: 1.5f32.to_bits(), y: 2.5f32.to_bits(), tp: PieceType::Castle }))
    );
    assert!(i.has_placed && i.mouse_down);
    assert_eq!(i.piecepicker, None);
    // later clicks buy the picked piece; shift keeps the picker
    i.piecepicker = Some(PieceType::BasicFighter);
    let r = i.mouse_down(Stage::MoveShips, 10, true, true);
    assert_eq!(r.1, Some(PlaceRequest { x: i.mouse_x, y: i.mouse_y, tp: PieceType::BasicFighter }));
    assert_eq!(i.piecepicker, Some(PieceType::BasicFighter));
    let r = i.mouse_down(Stage::MoveShips, 10, true, false);
    assert_eq!(r.0, ClickOutcome::Buy { tp: PieceType::BasicFighter, keep_picking: false });
    assert_eq!(i.piecepicker, None);
    // with nothing picked the click edits paths, and nothing is sent
    assert_eq!(i.mouse_down(Stage::MoveShips, 10, true, false), (ClickOutcome::PathEdit, None));
    assert!(i.has_placed);
}
