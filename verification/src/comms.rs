//! Values carried by the messages between the server and its clients.
use vstd::prelude::*;
use crate::ids::PieceId;
use crate::pathfollower::PathNode;

verus! {

/// The protocol version both sides check when they connect; raised with every
/// major change (it wraps past 255; it is not meant as an authoritative
/// version).
pub const VERSION: u8 = 2;

/// A change to a piece's strategy path, sent by its owner.
#[derive(Copy, Clone, Debug, PartialEq, Eq, Structural)]
pub enum StrategyPathModification {
    Insert(PieceId, u16, PathNode),
    Clear(PieceId),
    /// Replace the node at an index.
    Replace(PieceId, u16, PathNode),
    Delete(PieceId, u16),
}

/// A special property a player may set on one of its pieces.
#[derive(Copy, Clone, Debug, PartialEq, Eq, Structural)]
pub enum ObjectSpecialPropertySet {
    GunState(bool),
}

/// The phase of the game.
#[derive(Copy, Clone, Debug, PartialEq, Eq, Structural)]
pub enum Stage {
    Playing,
    Waiting,
    MoveShips,
}

/// The label a client shows for a phase.
pub open spec fn stage_label(s: Stage) -> &'static str {
    match s {
        Stage::Playing => "PLAYING",
        Stage::Waiting => "WAITING",
        Stage::MoveShips => "MOVE SHIPS",
    }
}

impl Stage {
    pub fn get_str(self) -> (r: &'static str)
        ensures
            r == stage_label(self),
    {
        match self {
            Stage::Playing => "PLAYING",
            Stage::Waiting => "WAITING",
            Stage::MoveShips => "MOVE SHIPS",
        }
    }
}

} // verus!
