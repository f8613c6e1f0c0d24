//! What a client decides by itself: what it does with each message from the
//! server (after the test exchange that opens a connection), who is on its
//! side, what a click does first, and how it edits the paths of its pieces.
//! Every path edit is made locally and returned as the change to send to the
//! server, which applies it to the same path with the same result
//! (`modified_path`).
use vstd::prelude::*;
use crate::comms::{Stage, StrategyPathModification, VERSION};
use std::collections::HashMap;
use crate::handlers::modified_path;
use crate::ids::{PieceId, PlayerId};
use crate::pathfollower::{PathFollower, PathNode};
use crate::types::{PieceType, price_of};

verus! {

/// Whether `other` is on the side of the client `me` (in slot `my_slot`):
/// never the system, always the client itself, and otherwise a known player
/// (in `other_slot`) in the same team slot as the client. Slots from 2 up are
/// teams; 1 is a free agent and 0 a spectator.
pub open spec fn friendly(me: PlayerId, my_slot: u8, other: PlayerId, other_slot: Option<u8>) -> bool {
    if other.0 == 0 {
        false
    } else if other == me {
        true
    } else {
        match other_slot {
            Some(s) => s == my_slot && my_slot > 1,
            None => false,
        }
    }
}

/// Whether `other`, whose slot is `other_slot` if the client knows the
/// player, is on the side of the client `me` in slot `my_slot`.
pub fn is_friendly(me: PlayerId, my_slot: u8, other: PlayerId, other_slot: Option<u8>) -> (r: bool)
    ensures
        r == friendly(me, my_slot, other, other_slot),
{
    if other.0 == 0 {
        return false;
    }
    if other.0 == me.0 {
        return true;
    }
    match other_slot {
        Some(s) => s == my_slot && my_slot > 1,
        None => false,
    }
}

/// The state a client asks for when its player toggles the gun of the
/// selected piece: the opposite of the state it last set, or on if it never
/// set one.
pub fn toggled_gun_state(last_set: Option<bool>) -> (r: bool)
    ensures
        r == match last_set {
            Some(on) => !on,
            None => true,
        },
{
    match last_set {
        Some(on) => !on,
        None => true,
    }
}

/// A client's record of a piece. Coordinates, the angle and the health
/// (a fraction of the starting health) are carried as the bits of their
/// `f32` values.
pub struct ObjectData {
    pub id: PieceId,
    pub tp: PieceType,
    pub x: u32,
    pub y: u32,
    pub a: u32,
    pub owner: PlayerId,
    pub health: u32,
    pub path: PathFollower,
}

impl ObjectData {
    /// Append a node to the path; returns the change to send.
    pub fn extend_path(&mut self, node: PathNode) -> (sent: StrategyPathModification)
        requires
            old(self).path@.len() <= u16::MAX,
        ensures
            sent == StrategyPathModification::Insert(old(self).id, old(self).path@.len() as u16, node),
            *final(self) == (ObjectData { path: final(self).path, ..*old(self) }),
            final(self).path@ == old(self).path@.push(node),
            final(self).path@ == modified_path(old(self).path@, sent),
    {
        let endex = match self.path.endex() {
            Ok(e) => e,
            Err(_) => {
                return StrategyPathModification::Clear(self.id);
            },
        };
        self.path.insert_node(endex, node);
        proof {
            assert(old(self).path@.insert(endex as int, node) =~= old(self).path@.push(node));
        }
        StrategyPathModification::Insert(self.id, endex, node)
    }

    /// Insert a node before position `before`; returns the change to send.
    pub fn path_insert(&mut self, before: u16, node: PathNode) -> (sent: StrategyPathModification)
        ensures
            sent == StrategyPathModification::Insert(old(self).id, before, node),
            *final(self) == (ObjectData { path: final(self).path, ..*old(self) }),
            final(self).path@ == modified_path(old(self).path@, sent),
    {
        self.path.insert_node(before, node);
        StrategyPathModification::Insert(self.id, before, node)
    }

    /// Replace the node at `index`; returns the change to send. (The index
    /// just past the end is out of bounds.)
    pub fn update_strategy(&mut self, index: u16, node: PathNode) -> (sent: StrategyPathModification)
        requires
            index != old(self).path@.len(),
        ensures
            sent == StrategyPathModification::Replace(old(self).id, index, node),
            *final(self) == (ObjectData { path: final(self).path, ..*old(self) }),
            final(self).path@ == modified_path(old(self).path@, sent),
    {
        self.path.update_node(index, node);
        StrategyPathModification::Replace(self.id, index, node)
    }

    /// Remove the node at `index`; returns the change to send.
    pub fn delete_strategy(&mut self, index: u16) -> (sent: StrategyPathModification)
        ensures
            sent == StrategyPathModification::Delete(old(self).id, index),
            *final(self) == (ObjectData { path: final(self).path, ..*old(self) }),
            final(self).path@ == modified_path(old(self).path@, sent),
    {
        self.path.remove_node(index);
        StrategyPathModification::Delete(self.id, index)
    }

    /// The server reports that the piece reached a node and how many nodes
    /// it has left: move on along the local path too, and if the lengths then
    /// differ, clear the path and return the clearing change to send.
    pub fn strategy_completion(&mut self, remaining: u16) -> (sent: Option<StrategyPathModification>)
        requires
            old(self).path@.len() <= u16::MAX,
        ensures
            ({
                let moved = if old(self).path@.len() > 1 {
                    old(self).path@.drop_first()
                } else {
                    old(self).path@
                };
                if moved.len() == remaining {
                    sent is None && final(self).path@ == moved
                } else {
                    sent == Some(StrategyPathModification::Clear(old(self).id))
                        && final(self).path@ == Seq::<PathNode>::empty()
                }
            }),
            *final(self) == (ObjectData { path: final(self).path, ..*old(self) }),
    {
        let _ = self.path.bump();
        let n = match self.path.len() {
            Ok(n) => n,
            Err(_) => {
                return None;
            },
        };
        if n != remaining {
            self.path.clear();
            return Some(StrategyPathModification::Clear(self.id));
        }
        None
    }
}

/// What a click on the board does, before any geometry is looked at.
#[derive(Copy, Clone, Debug, PartialEq, Eq, Structural)]
pub enum ClickOutcome {
    /// The player has no castle yet: place it where the mouse is; the piece
    /// picker is cleared.
    PlaceCastle,
    /// Buy the picked piece where the mouse is; the picker stays only if
    /// `keep_picking` (shift is held).
    Buy { tp: PieceType, keep_picking: bool },
    /// The click edits paths or selects a piece, by what is under the mouse.
    PathEdit,
    /// Nothing happens.
    Nothing,
}

/// The first decision of a click: a player without a castle places one;
/// outside the strategy part nothing happens; with a piece picked, it is
/// bought if the player has at least its price and the spot is placeable;
/// otherwise the click goes to path editing.
pub open spec fn click_of(
    has_placed: bool,
    stage: Stage,
    picked: Option<PieceType>,
    money: u32,
    placeable: bool,
    shift: bool,
) -> ClickOutcome {
    if !has_placed {
        ClickOutcome::PlaceCastle
    } else if stage != Stage::MoveShips {
        ClickOutcome::Nothing
    } else {
        match picked {
            Some(tp) => if money >= price_of(tp) && placeable {
                ClickOutcome::Buy { tp, keep_picking: shift }
            } else {
                ClickOutcome::Nothing
            },
            None => ClickOutcome::PathEdit,
        }
    }
}

/// Decide a click; see `click_of`.
pub fn click_outcome(
    has_placed: bool,
    stage: Stage,
    picked: Option<PieceType>,
    money: u32,
    placeable: bool,
    shift: bool,
) -> (r: ClickOutcome)
    ensures
        r == click_of(has_placed, stage, picked, money, placeable, shift),
{
    if !has_placed {
        return ClickOutcome::PlaceCastle;
    }
    match stage {
        Stage::MoveShips => {},
        _ => {
            return ClickOutcome::Nothing;
        },
    }
    match picked {
        Some(tp) => {
            if money >= tp.price() && placeable {
                ClickOutcome::Buy { tp, keep_picking: shift }
            } else {
                ClickOutcome::Nothing
            }
        },
        None => ClickOutcome::PathEdit,
    }
}

/// A request to place a piece at a point (coordinates as `f32` bits), as the
/// client sends it.
#[derive(Copy, Clone, Debug, PartialEq, Eq, Structural)]
pub struct PlaceRequest {
    pub x: u32,
    pub y: u32,
    pub tp: PieceType,
}

/// The client's input state that a click reads and changes; the mouse
/// position as `f32` bits.
#[derive(Copy, Clone, Debug, PartialEq, Eq, Structural)]
pub struct ClientInput {
    pub mouse_x: u32,
    pub mouse_y: u32,
    pub mouse_down: bool,
    /// The player has placed its castle.
    pub has_placed: bool,
    /// The piece picked in the piece picker, if any.
    pub piecepicker: Option<PieceType>,
}

/// A click, as far as it does not depend on what is under the mouse: the
/// input as it is after the click and the placement to send, if any.
pub open spec fn clicked(
    i: ClientInput,
    stage: Stage,
    money: u32,
    placeable: bool,
    shift: bool,
) -> (ClientInput, Option<PlaceRequest>) {
    let down = ClientInput { mouse_down: true, ..i };
    match click_of(i.has_placed, stage, i.piecepicker, money, placeable, shift) {
        ClickOutcome::PlaceCastle => (
            ClientInput { has_placed: true, piecepicker: None, ..down },
            Some(PlaceRequest { x: i.mouse_x, y: i.mouse_y, tp: PieceType::Castle }),
        ),
        ClickOutcome::Buy { tp, keep_picking } => (
            if keep_picking { down } else { ClientInput { piecepicker: None, ..down } },
            Some(PlaceRequest { x: i.mouse_x, y: i.mouse_y, tp }),
        ),
        _ => (down, None),
    }
}

impl ClientInput {
    /// The mouse went down on the board. The mouse is recorded as down. A
    /// player without a castle places one at the mouse and the picker is
    /// cleared; a piece that is bought is placed at the mouse, and the picker
    /// is cleared unless shift is held. Returns what the click decided and the
    /// placement to send; a `PathEdit` is then worked out from the board.
    pub fn mouse_down(
        &mut self,
        stage: Stage,
        money: u32,
        placeable: bool,
        shift: bool,
    ) -> (r: (ClickOutcome, Option<PlaceRequest>))
        ensures
            r.0 == click_of(old(self).has_placed, stage, old(self).piecepicker, money, placeable, shift),
            (*final(self), r.1) == clicked(*old(self), stage, money, placeable, shift),
    {
        self.mouse_down = true;
        let outcome = click_outcome(self.has_placed, stage, self.piecepicker, money, placeable, shift);
        let sent = match outcome {
            ClickOutcome::PlaceCastle => {
                self.has_placed = true;
                self.piecepicker = None;
                Some(PlaceRequest { x: self.mouse_x, y: self.mouse_y, tp: PieceType::Castle })
            },
            ClickOutcome::Buy { tp, keep_picking } => {
                if !keep_picking {
                    self.piecepicker = None;
                }
                Some(PlaceRequest { x: self.mouse_x, y: self.mouse_y, tp })
            },
            _ => None,
        };
        (outcome, sent)
    }
}

/// The protocol's test frame: the values both sides exchange on connecting,
/// floats carried as their bits.
#[derive(Clone, Debug, PartialEq)]
pub struct TestFrame {
    pub text: String,
    pub byte: u8,
    pub short: u16,
    pub int: u32,
    pub long: u64,
    pub signed_byte: i8,
    pub signed_short: i16,
    pub signed_int: i32,
    pub signed_long: i64,
    /// The bits of an `f32`.
    pub float_bits: u32,
    /// The bits of an `f64`.
    pub double_bits: u64,
    pub version: u8,
}

/// The test frame the server sends and the client echoes: "EXOSPHERE", 128,
/// 4096, 115600, 123456789012345, -64, -4096, -115600, -123456789012345,
/// -4096.512 (as `f32`), -8192.756 (as `f64`) and the protocol version.
pub open spec fn is_expected_test(t: TestFrame) -> bool {
    &&& t.text@ == "EXOSPHERE"@
    &&& t.byte == 128
    &&& t.short == 4096
    &&& t.int == 115600
    &&& t.long == 123456789012345
    &&& t.signed_byte == -64
    &&& t.signed_short == -4096
    &&& t.signed_int == -115600
    &&& t.signed_long == -123456789012345
    &&& t.float_bits == 0xc5800419
    &&& t.double_bits == 0xc0c00060c49ba5e3
    &&& t.version == VERSION
}

/// The test frame as the client sends it back.
pub fn expected_test_frame() -> (t: TestFrame)
    ensures
        is_expected_test(t),
{
    TestFrame {
        text: "EXOSPHERE".to_owned(),
        byte: 128,
        short: 4096,
        int: 115600,
        long: 123456789012345,
        signed_byte: -64,
        signed_short: -4096,
        signed_int: -115600,
        signed_long: -123456789012345,
        float_bits: 0xc5800419,
        double_bits: 0xc0c00060c49ba5e3,
        version: VERSION,
    }
}

/// Whether a test frame carries the expected values.
pub fn check_test_frame(t: &TestFrame) -> (r: bool)
    ensures
        r == is_expected_test(*t),
{
    let text = "EXOSPHERE".to_owned();
    t.text.eq(&text) && t.byte == 128 && t.short == 4096 && t.int == 115600 && t.long
        == 123456789012345 && t.signed_byte == -64 && t.signed_short == -4096 && t.signed_int
        == -115600 && t.signed_long == -123456789012345 && t.float_bits == 0xc5800419
        && t.double_bits == 0xc0c00060c49ba5e3 && t.version == VERSION
}

/// A message from the server, as the client reads it; floats are carried as
/// their bits.
#[derive(Debug)]
pub enum ServerMessageModel {
    Test(TestFrame),
    GameState { stage: Stage, stage_duration: u16, tick_in_stage: u16 },
    Metadata { id: PlayerId, slot: u8, board_width: u32, board_height: u32 },
    PasswordChallenge,
    TeamChallenge { available: Vec<(String, u8)> },
    Reject,
    ObjectCreate { id: PieceId, x: u32, y: u32, a: u32, owner: PlayerId, tp: PieceType },
    ObjectMove { id: PieceId, x: u32, y: u32, a: u32 },
    DeleteObject { id: PieceId },
    StrategyCompletion { id: PieceId, remaining: u16 },
    PlayerData { id: PlayerId, nickname: String, slot: u8 },
    YouLose,
    Winner { id: PlayerId },
    Territory { id: PieceId, radius: u32 },
    Fabber { id: PieceId, radius: u32 },
    Disconnect,
    Money { id: PlayerId, amount: u32 },
    Explosion { x: u32, y: u32, radius: u32, damage: u32 },
    Health { id: PieceId, health: u32 },
    LaserCast { caster: PieceId, from_x: u32, from_y: u32, to_x: u32, to_y: u32 },
    TeamWin { slot: u8 },
}

/// What the client tells its player.
#[derive(Copy, Clone, Debug, PartialEq, Eq, Structural)]
pub enum AlertKind {
    YouWon,
    Winner(PlayerId),
    YouLost,
    InvalidPassword,
    /// The local and the server's path lengths of a piece differ; the path is
    /// cleared to recover.
    MismatchedPaths { local: u16, remote: u16 },
    /// A message that has no place after the test exchange.
    BadFrame,
    /// The server's test frame was not the expected one.
    FailedVerification,
}

/// A screen of the client.
#[derive(Copy, Clone, Debug, PartialEq, Eq, Structural)]
pub enum ScreenKind {
    GameUi,
    PasswordChallenge,
    TeamChallenge,
}

/// What the client does outside its model after a message.
#[derive(Debug, PartialEq)]
pub enum ClientAction {
    /// Send the test frame back.
    SendTest(TestFrame),
    /// Send a `Connect` with the nickname the player entered.
    SendConnect,
    /// Send a change to a piece's path.
    SendStrategy(StrategyPathModification),
    Alert(AlertKind),
    Screen(ScreenKind),
    SetBoardSize(u32, u32),
    SetTime(u16, u16, Stage),
    SetMoney(u32),
    SetTeams(Vec<(String, u8)>),
    Reload,
}

/// What the client knows of another player.
#[derive(Debug)]
pub struct PlayerRecord {
    pub id: PlayerId,
    pub slot: u8,
    pub name: String,
    pub money: u32,
}

/// A laser being drawn; coordinates as `f32` bits.
#[derive(Copy, Clone, Debug, PartialEq, Eq, Structural)]
pub struct Laser {
    pub from_x: u32,
    pub from_y: u32,
    pub to_x: u32,
    pub to_y: u32,
    pub age: u8,
}

/// An explosion being drawn; coordinates and radius as `f32` bits.
#[derive(Copy, Clone, Debug, PartialEq, Eq, Structural)]
pub struct Explosion {
    pub x: u32,
    pub y: u32,
    pub rad: u32,
    pub age: u8,
}

/// The part of a client's state that server messages change; lengths,
/// coordinates and radii as `f32` bits. Players and pieces are keyed by
/// their ids.
pub struct ClientModel {
    pub gameboard_width: u32,
    pub gameboard_height: u32,
    pub id: PlayerId,
    pub slot: u8,
    pub tick: u16,
    pub stage_duration: u16,
    pub stage: Stage,
    pub global_tick: u32,
    pub player_data: HashMap<u64, PlayerRecord>,
    pub object_data: HashMap<u64, ObjectData>,
    pub territory_data: HashMap<u64, u32>,
    pub fabber_data: HashMap<u64, u32>,
    pub money: u32,
    pub has_tested: bool,
    pub lasers: Vec<Laser>,
    pub explosions: Vec<Explosion>,
}

/// The bits of `1.0f32`: a new piece's health.
pub open spec fn full_health() -> u32 {
    0x3f800000
}

/// How a message that arrives after the test exchange changes the model
/// (from `o` to `n`) and what the client does (`acts`).
pub open spec fn handled(o: ClientModel, n: ClientModel, msg: ServerMessageModel, acts: Seq<ClientAction>) -> bool {
    match msg {
        ServerMessageModel::Metadata { id, slot, board_width, board_height } => {
            &&& n == ClientModel { gameboard_width: board_width, gameboard_height: board_height, id, slot, ..o }
            &&& acts == seq![ClientAction::SetBoardSize(board_width, board_height), ClientAction::Screen(ScreenKind::GameUi)]
        },
        ServerMessageModel::PasswordChallenge => n == o && acts == seq![ClientAction::Screen(ScreenKind::PasswordChallenge)],
        ServerMessageModel::TeamChallenge { available } => {
            &&& n == o
            &&& acts == seq![ClientAction::SetTeams(available), ClientAction::Screen(ScreenKind::TeamChallenge)]
        },
        ServerMessageModel::GameState { stage, stage_duration, tick_in_stage } => {
            &&& n == ClientModel {
                tick: tick_in_stage,
                stage_duration,
                stage,
                global_tick: (o.global_tick + 1) as u32,
                ..o
            }
            &&& acts == seq![ClientAction::SetTime(tick_in_stage, stage_duration, stage)]
        },
        ServerMessageModel::PlayerData { id, nickname, slot } => {
            &&& n == ClientModel { player_data: n.player_data, ..o }
            &&& n.player_data@ == o.player_data@.insert(id.0, PlayerRecord { id, slot, name: nickname, money: 0 })
            &&& acts == Seq::<ClientAction>::empty()
        },
        ServerMessageModel::Money { id, amount } => {
            &&& n == ClientModel {
                player_data: n.player_data,
                money: if o.id == id { amount } else { o.money },
                ..o
            }
            &&& n.player_data@ == if o.player_data@.contains_key(id.0) {
                o.player_data@.insert(id.0, PlayerRecord { money: amount, ..o.player_data@[id.0] })
            } else {
                o.player_data@
            }
            &&& acts == if o.id == id { seq![ClientAction::SetMoney(amount)] } else { Seq::<ClientAction>::empty() }
        },
        ServerMessageModel::Territory { id, radius } => {
            &&& n == ClientModel { territory_data: n.territory_data, ..o }
            &&& n.territory_data@ == o.territory_data@.insert(id.0, radius)
            &&& acts == Seq::<ClientAction>::empty()
        },
        ServerMessageModel::Fabber { id, radius } => {
            &&& n == ClientModel { fabber_data: n.fabber_data, ..o }
            &&& n.fabber_data@ == o.fabber_data@.insert(id.0, radius)
            &&& acts == Seq::<ClientAction>::empty()
        },
        ServerMessageModel::ObjectCreate { id, x, y, a, owner, tp } => {
            let r = n.object_data@[id.0];
            &&& n == ClientModel { object_data: n.object_data, ..o }
            &&& n.object_data@ == o.object_data@.insert(id.0, r)
            &&& r == ObjectData { id, tp, x, y, a, owner, health: full_health(), path: r.path }
            &&& r.path@ == seq![PathNode::StraightTo(x, y)]
            &&& acts == Seq::<ClientAction>::empty()
        },
        ServerMessageModel::ObjectMove { id, x, y, a } => {
            &&& n == ClientModel { object_data: n.object_data, ..o }
            &&& n.object_data@ == if o.object_data@.contains_key(id.0) {
                o.object_data@.insert(id.0, ObjectData { x, y, a, ..o.object_data@[id.0] })
            } else {
                o.object_data@
            }
            &&& acts == Seq::<ClientAction>::empty()
        },
        ServerMessageModel::DeleteObject { id } => {
            &&& n == ClientModel { object_data: n.object_data, ..o }
            &&& n.object_data@ == o.object_data@.remove(id.0)
            &&& acts == Seq::<ClientAction>::empty()
        },
        ServerMessageModel::Health { id, health } => {
            &&& n == ClientModel { object_data: n.object_data, ..o }
            &&& n.object_data@ == if o.object_data@.contains_key(id.0) {
                o.object_data@.insert(id.0, ObjectData { health, ..o.object_data@[id.0] })
            } else {
                o.object_data@
            }
            &&& acts == Seq::<ClientAction>::empty()
        },
        ServerMessageModel::StrategyCompletion { id, remaining } => {
            &&& n == ClientModel { object_data: n.object_data, ..o }
            &&& if o.object_data@.contains_key(id.0) {
                let ob = o.object_data@[id.0];
                let r = n.object_data@[id.0];
                let moved = if ob.path@.len() > 1 { ob.path@.drop_first() } else { ob.path@ };
                &&& n.object_data@ == o.object_data@.insert(id.0, r)
                &&& r == ObjectData { path: r.path, ..ob }
                &&& if moved.len() == remaining {
                    r.path@ == moved && acts == Seq::<ClientAction>::empty()
                } else {
                    &&& r.path@ == Seq::<PathNode>::empty()
                    &&& acts == seq![
                        ClientAction::Alert(AlertKind::MismatchedPaths { local: moved.len() as u16, remote: remaining }),
                        ClientAction::SendStrategy(StrategyPathModification::Clear(id)),
                    ]
                }
            } else {
                n.object_data@ == o.object_data@ && acts == Seq::<ClientAction>::empty()
            }
        },
        ServerMessageModel::LaserCast { caster: _, from_x, from_y, to_x, to_y } => {
            &&& n == ClientModel { lasers: n.lasers, ..o }
            &&& n.lasers@ == o.lasers@.push(Laser { from_x, from_y, to_x, to_y, age: 2 })
            &&& acts == Seq::<ClientAction>::empty()
        },
        ServerMessageModel::Explosion { x, y, radius, damage: _ } => {
            &&& n == ClientModel { explosions: n.explosions, ..o }
            &&& n.explosions@ == o.explosions@.push(Explosion { x, y, rad: radius, age: 2 })
            &&& acts == Seq::<ClientAction>::empty()
        },
        ServerMessageModel::Disconnect => n == o && acts == Seq::<ClientAction>::empty(),
        ServerMessageModel::Winner { id } => {
            &&& n == o
            &&& acts == seq![
                ClientAction::Alert(if o.id == id { AlertKind::YouWon } else { AlertKind::Winner(id) }),
                ClientAction::Reload,
            ]
        },
        ServerMessageModel::YouLose => n == o && acts == seq![ClientAction::Alert(AlertKind::YouLost), ClientAction::Reload],
        ServerMessageModel::Reject => n == o && acts == seq![ClientAction::Alert(AlertKind::InvalidPassword), ClientAction::Reload],
        _ => n == o && acts == seq![ClientAction::Alert(AlertKind::BadFrame)],
    }
}

/// What the client does with a message from the server. Before the test
/// exchange, only the expected test frame is accepted: the client then
/// counts the exchange as done and sends the frame back and its `Connect`;
/// anything else is reported as a failed verification and nothing is sent.
/// After it, each message updates the model as `handled` says.
pub fn on_server_message(state: &mut ClientModel, msg: ServerMessageModel) -> (actions: Vec<ClientAction>)
    requires
        old(state).has_tested ==> match msg {
            ServerMessageModel::GameState { .. } => old(state).global_tick < u32::MAX,
            ServerMessageModel::StrategyCompletion { id, .. } => old(state).object_data@.contains_key(id.0)
                ==> old(state).object_data@[id.0].path@.len() <= u16::MAX,
            _ => true,
        },
    ensures
        !old(state).has_tested ==> if msg matches ServerMessageModel::Test(t) && is_expected_test(t) {
            &&& *final(state) == (ClientModel { has_tested: true, ..*old(state) })
            &&& actions@.len() == 2
            &&& actions@[0] matches ClientAction::SendTest(e) && is_expected_test(e)
            &&& actions@[1] == ClientAction::SendConnect
        } else {
            *final(state) == *old(state) && actions@ == seq![ClientAction::Alert(AlertKind::FailedVerification)]
        },
        old(state).has_tested ==> handled(*old(state), *final(state), msg, actions@),
{
    let mut actions: Vec<ClientAction> = Vec::new();
    if !state.has_tested {
        if let ServerMessageModel::Test(t) = &msg {
            if check_test_frame(t) {
                state.has_tested = true;
                actions.push(ClientAction::SendTest(expected_test_frame()));
                actions.push(ClientAction::SendConnect);
                return actions;
            }
        }
        actions.push(ClientAction::Alert(AlertKind::FailedVerification));
        assert(actions@ =~= seq![ClientAction::Alert(AlertKind::FailedVerification)]);
        return actions;
    }
    match msg {
        ServerMessageModel::Metadata { id, slot, board_width, board_height } => {
            state.gameboard_width = board_width;
            state.gameboard_height = board_height;
            state.id = id;
            state.slot = slot;
            actions.push(ClientAction::SetBoardSize(board_width, board_height));
            actions.push(ClientAction::Screen(ScreenKind::GameUi));
            assert(actions@ =~= seq![ClientAction::SetBoardSize(board_width, board_height), ClientAction::Screen(ScreenKind::GameUi)]);
        },
        ServerMessageModel::PasswordChallenge => {
            actions.push(ClientAction::Screen(ScreenKind::PasswordChallenge));
        },
        ServerMessageModel::TeamChallenge { available } => {
            let ghost teams = available;
            actions.push(ClientAction::SetTeams(available));
            actions.push(ClientAction::Screen(ScreenKind::TeamChallenge));
            assert(actions@ =~= seq![ClientAction::SetTeams(teams), ClientAction::Screen(ScreenKind::TeamChallenge)]);
        },
        ServerMessageModel::GameState { stage, stage_duration, tick_in_stage } => {
            state.tick = tick_in_stage;
            state.stage_duration = stage_duration;
            state.stage = stage;
            state.global_tick = state.global_tick + 1;
            actions.push(ClientAction::SetTime(tick_in_stage, stage_duration, stage));
        },
        ServerMessageModel::PlayerData { id, nickname, slot } => {
            state.player_data.insert(id.0, PlayerRecord { id, slot, name: nickname, money: 0 });
        },
        ServerMessageModel::Money { id, amount } => {
            let ghost before = state.player_data@;
            if let Some(mut player) = state.player_data.remove(&id.0) {
                player.money = amount;
                state.player_data.insert(id.0, player);
                assert(state.player_data@ =~= before.insert(id.0, PlayerRecord { money: amount, ..before[id.0] }));
            } else {
                assert(state.player_data@ =~= before);
            }
            if state.id.0 == id.0 {
                state.money = amount;
                actions.push(ClientAction::SetMoney(amount));
            }
        },
        ServerMessageModel::Territory { id, radius } => {
            state.territory_data.insert(id.0, radius);
        },
        ServerMessageModel::Fabber { id, radius } => {
            state.fabber_data.insert(id.0, radius);
        },
        ServerMessageModel::ObjectCreate { id, x, y, a, owner, tp } => {
            let path = PathFollower::start(x, y);
            state.object_data.insert(id.0, ObjectData { id, tp, x, y, a, owner, health: 0x3f800000, path });
        },
        ServerMessageModel::ObjectMove { id, x, y, a } => {
            let ghost before = state.object_data@;
            if let Some(mut obj) = state.object_data.remove(&id.0) {
                obj.x = x;
                obj.y = y;
                obj.a = a;
                state.object_data.insert(id.0, obj);
                assert(state.object_data@ =~= before.insert(id.0, ObjectData { x, y, a, ..before[id.0] }));
            } else {
                assert(state.object_data@ =~= before);
            }
        },
        ServerMessageModel::DeleteObject { id } => {
            state.object_data.remove(&id.0);
        },
        ServerMessageModel::Health { id, health } => {
            let ghost before = state.object_data@;
            if let Some(mut obj) = state.object_data.remove(&id.0) {
                obj.health = health;
                state.object_data.insert(id.0, obj);
                assert(state.object_data@ =~= before.insert(id.0, ObjectData { health, ..before[id.0] }));
            } else {
                assert(state.object_data@ =~= before);
            }
        },
        ServerMessageModel::StrategyCompletion { id, remaining } => {
            let ghost before = state.object_data@;
            if let Some(mut obj) = state.object_data.remove(&id.0) {
                let len = obj.path.nodes.len();
                let local: usize = if len > 1 { len - 1 } else { len };
                let sent = obj.strategy_completion(remaining);
                state.object_data.insert(id.0, obj);
                assert(state.object_data@ =~= before.insert(id.0, state.object_data@[id.0]));
                if sent.is_some() {
                    actions.push(ClientAction::Alert(AlertKind::MismatchedPaths { local: local as u16, remote: remaining }));
                    actions.push(ClientAction::SendStrategy(StrategyPathModification::Clear(id)));
                    assert(actions@ =~= seq![
                        ClientAction::Alert(AlertKind::MismatchedPaths { local: local as u16, remote: remaining }),
                        ClientAction::SendStrategy(StrategyPathModification::Clear(id)),
                    ]);
                }
            } else {
                assert(state.object_data@ =~= before);
            }
        },
        ServerMessageModel::LaserCast { caster: _, from_x, from_y, to_x, to_y } => {
            state.lasers.push(Laser { from_x, from_y, to_x, to_y, age: 2 });
        },
        ServerMessageModel::Explosion { x, y, radius, damage: _ } => {
            state.explosions.push(Explosion { x, y, rad: radius, age: 2 });
        },
        ServerMessageModel::Disconnect => {},
        ServerMessageModel::Winner { id } => {
            if state.id.0 == id.0 {
                actions.push(ClientAction::Alert(AlertKind::YouWon));
            } else {
                actions.push(ClientAction::Alert(AlertKind::Winner(id)));
            }
            actions.push(ClientAction::Reload);
            assert(actions@ =~= seq![actions@[0], ClientAction::Reload]);
        },
        ServerMessageModel::YouLose => {
            actions.push(ClientAction::Alert(AlertKind::YouLost));
            actions.push(ClientAction::Reload);
            assert(actions@ =~= seq![ClientAction::Alert(AlertKind::YouLost), ClientAction::Reload]);
        },
        ServerMessageModel::Reject => {
            actions.push(ClientAction::Alert(AlertKind::InvalidPassword));
            actions.push(ClientAction::Reload);
            assert(actions@ =~= seq![ClientAction::Alert(AlertKind::InvalidPassword), ClientAction::Reload]);
        },
        _ => {
            actions.push(ClientAction::Alert(AlertKind::BadFrame));
            assert(actions@ =~= seq![ClientAction::Alert(AlertKind::BadFrame)]);
        },
    }
    actions
}

/// What a click may lead to, in terms of the click: a player without a
/// castle always places one; a player with one gets nothing outside the
/// strategy part (whatever else holds), and buys only a picked piece whose
/// price it can pay on a placeable spot; with nothing picked in the strategy
/// part it edits paths.
pub proof fn law_click_rules(
    has_placed: bool,
    stage: Stage,
    picked: Option<PieceType>,
    money: u32,
    placeable: bool,
    shift: bool,
)
    ensures
        ({
            let c = click_of(has_placed, stage, picked, money, placeable, shift);
            &&& c == ClickOutcome::PlaceCastle <==> !has_placed
            &&& has_placed && stage != Stage::MoveShips ==> c == ClickOutcome::Nothing
            &&& c matches ClickOutcome::Buy { tp, keep_picking } ==> has_placed && stage == Stage::MoveShips
                && picked == Some(tp) && money >= price_of(tp) && placeable && keep_picking == shift
            &&& c == ClickOutcome::PathEdit <==> (has_placed && stage == Stage::MoveShips && picked is None)
        }),
{
}

/// A money message sets the balance of the player it names, wherever that
/// player is known, whether it is the client itself or not; the client's own
/// balance changes (and is shown) exactly when the message names the client;
/// every other player's record stays as it was.
pub proof fn law_money_message(o: ClientModel, n: ClientModel, id: PlayerId, amount: u32, acts: Seq<ClientAction>)
    requires
        handled(o, n, ServerMessageModel::Money { id, amount }, acts),
    ensures
        o.player_data@.contains_key(id.0) ==> n.player_data@.contains_key(id.0)
            && n.player_data@[id.0].money == amount
            && n.player_data@[id.0].id == o.player_data@[id.0].id
            && n.player_data@[id.0].slot == o.player_data@[id.0].slot,
        n.player_data@.dom() == o.player_data@.dom(),
        forall|k: u64| k != id.0 && #[trigger] o.player_data@.contains_key(k) ==> n.player_data@[k]
            == o.player_data@[k],
        n.money == if o.id == id { amount } else { o.money },
        acts.len() == if o.id == id { 1int } else { 0int },
        n.object_data@ == o.object_data@,
{
    if o.player_data@.contains_key(id.0) {
        assert(n.player_data@.dom() =~= o.player_data@.dom());
    }
}

} // verus!
