//! Identifiers shared by the server and the client.
use vstd::prelude::*;

verus! {

/// The identifier of a piece on the board.
#[derive(Copy, Clone, Debug, PartialEq, Eq, Hash, Structural)]
pub struct PieceId(pub u64);

/// The identifier of a player. Id 0 is the system itself.
#[derive(Copy, Clone, Debug, PartialEq, Eq, Hash, Structural)]
pub struct PlayerId(pub u64);

/// The identifier the websocket server hands to a connection.
#[derive(Copy, Clone, Debug, PartialEq, Eq, Hash, Structural)]
pub struct ClientId(pub usize);

impl PlayerId {
    /// The system player (id 0), which never has to obey territory or fabber
    /// boundaries.
    pub fn system() -> (p: PlayerId)
        ensures
            p.0 == 0,
    {
        PlayerId(0)
    }
}

impl PieceId {
    /// The null piece (id 0).
    pub fn zero() -> (p: PieceId)
        ensures
            p.0 == 0,
    {
        PieceId(0)
    }
}

impl ClientId {
    /// The player that a connection plays as: the same number, widened.
    pub fn to_player_id(self) -> (p: PlayerId)
        ensures
            p.0 == self.0,
    {
        PlayerId(self.0 as u64)
    }
}

impl PlayerId {
    /// The connection that a player id names: the same number, cut to the
    /// width of `usize`.
    pub fn to_client_id(self) -> (c: ClientId)
        ensures
            c.0 == self.0 as usize,
    {
        ClientId(self.0 as usize)
    }
}

} // verus!
