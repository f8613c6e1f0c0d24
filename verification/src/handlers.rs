//! The decisions the server takes on what clients ask of it and on what
//! happens on the board: changing a piece's path or gun, joining a game and
//! losing it, whether a piece may go down where it is placed, what a piece's
//! death sets off, which seed a scrap ship mines, and which pieces a setup
//! area places. Finding the pieces and clients concerned (and every distance
//! on the board, which is floating point), and carrying the decisions out, is
//! left to the caller.
use vstd::prelude::*;
use crate::client::friendly;
use crate::comms::{ObjectSpecialPropertySet, StrategyPathModification};
use crate::game::GameState;
use crate::ids::PlayerId;
use crate::pathfollower::{PathFollower, PathNode};
use crate::types::PieceType;

verus! {

/// Clients may change their pieces only in the strategy part of play, and
/// only pieces they own.
pub open spec fn may_command(s: GameState, sender: PlayerId, owner: PlayerId) -> bool {
    s.playing && s.strategy && sender == owner
}

/// The path after a change is applied to it.
pub open spec fn modified_path(path: Seq<PathNode>, m: StrategyPathModification) -> Seq<PathNode> {
    match m {
        StrategyPathModification::Insert(_, index, node) => if index <= path.len() {
            path.insert(index as int, node)
        } else {
            path
        },
        StrategyPathModification::Clear(_) => Seq::empty(),
        StrategyPathModification::Replace(_, index, node) => if index < path.len() {
            path.update(index as int, node)
        } else {
            path
        },
        StrategyPathModification::Delete(_, index) => if index < path.len() {
            path.remove(index as int)
        } else {
            path
        },
    }
}

/// A player's command on a piece takes effect only in the strategy part of a
/// game being played (an io game included, and not outside strategy in one),
/// and only on a piece the player owns; every other command leaves the piece
/// as it was.
pub proof fn law_commands_only_in_strategy(s: GameState, sender: PlayerId, owner: PlayerId)
    ensures
        may_command(s, sender, owner) ==> s.playing && s.strategy && sender == owner,
        !s.strategy ==> !may_command(s, sender, owner),
        !s.playing ==> !may_command(s, sender, owner),
        sender != owner ==> !may_command(s, sender, owner),
        s.playing && s.strategy && sender == owner ==> may_command(s, sender, owner),
{
}

/// Apply a change that `sender` asked for to the path of a piece owned by
/// `owner`; say whether it was applied. (Replacing the node just past the end
/// of the path is out of bounds.)
pub fn strategy_path_handler(
    state: &GameState,
    sender: PlayerId,
    owner: PlayerId,
    path: &mut PathFollower,
    m: StrategyPathModification,
) -> (applied: bool)
    requires
        may_command(*state, sender, owner) ==> match m {
            StrategyPathModification::Replace(_, index, _) => index != old(path)@.len(),
            _ => true,
        },
    ensures
        applied == may_command(*state, sender, owner),
        final(path)@ == if applied {
            modified_path(old(path)@, m)
        } else {
            old(path)@
        },
{
    if !(state.playing && state.strategy) || sender.0 != owner.0 {
        return false;
    }
    match m {
        StrategyPathModification::Insert(_, index, node) => path.insert_node(index, node),
        StrategyPathModification::Clear(_) => path.clear(),
        StrategyPathModification::Replace(_, index, node) => path.update_node(index, node),
        StrategyPathModification::Delete(_, index) => path.remove_node(index),
    }
    true
}

/// Apply a special property that `sender` set on a gun owned by `owner`; say
/// whether it was applied.
pub fn special_handler(
    state: &GameState,
    sender: PlayerId,
    owner: PlayerId,
    gun_enabled: &mut bool,
    evt: ObjectSpecialPropertySet,
) -> (applied: bool)
    ensures
        applied == may_command(*state, sender, owner),
        *final(gun_enabled) == match evt {
            ObjectSpecialPropertySet::GunState(on) => if applied {
                on
            } else {
                *old(gun_enabled)
            },
        },
{
    if !(state.playing && state.strategy) || sender.0 != owner.0 {
        return false;
    }
    match evt {
        ObjectSpecialPropertySet::GunState(on) => {
            *gun_enabled = on;
        },
    }
    true
}

/// The slot of a player that plays on its own.
pub open spec fn free_agent_slot() -> u8 {
    1
}

/// What the server does when a client introduces itself.
#[derive(Copy, Clone, Debug, PartialEq, Eq, Structural)]
pub enum ConnectionStep {
    /// Nothing more yet: the game is played in teams.
    AwaitTeam,
    /// The client is asked for the game's password.
    ChallengePassword,
    /// The client joins in this slot.
    Join(u8),
}

/// A game played in teams waits; a game with a password asks for it;
/// otherwise the client joins as a free agent.
pub fn client_connection(teams_configured: bool, password_configured: bool) -> (r: ConnectionStep)
    ensures
        r == if teams_configured {
            ConnectionStep::AwaitTeam
        } else if password_configured {
            ConnectionStep::ChallengePassword
        } else {
            ConnectionStep::Join(free_agent_slot())
        },
{
    if teams_configured {
        ConnectionStep::AwaitTeam
    } else if password_configured {
        ConnectionStep::ChallengePassword
    } else {
        ConnectionStep::Join(1)
    }
}

/// What the server does with a password a client tried.
#[derive(Copy, Clone, Debug, PartialEq, Eq, Structural)]
pub enum PasswordOutcome {
    /// The game has no password: the attempt is ignored.
    Ignored,
    /// The password is right: the client joins in this slot.
    Join(u8),
    /// The password is wrong: the client is told so.
    Reject,
}

/// Check a password a client tried against the game's password, if it has
/// one.
pub fn client_flow_password(configured: &Option<String>, tried: &String) -> (r: PasswordOutcome)
    ensures
        r == match configured {
            None => PasswordOutcome::Ignored,
            Some(p) => if p@ == tried@ {
                PasswordOutcome::Join(free_agent_slot())
            } else {
                PasswordOutcome::Reject
            },
        },
{
    match configured {
        None => PasswordOutcome::Ignored,
        Some(p) => {
            if p.eq(tried) {
                PasswordOutcome::Join(1)
            } else {
                PasswordOutcome::Reject
            }
        },
    }
}

/// A piece on the board, as the checks on a player see it.
#[derive(Copy, Clone, Debug, PartialEq, Eq, Structural)]
pub struct PieceRecord {
    pub owner: PlayerId,
    /// The piece holds territory.
    pub territory: bool,
}

/// The positions, in order, of the pieces that `client` owns.
pub open spec fn owned_positions(pieces: Seq<PieceRecord>, client: PlayerId) -> Seq<usize>
    decreases pieces.len(),
{
    if pieces.len() == 0 {
        Seq::empty()
    } else {
        let rest = owned_positions(pieces.drop_last(), client);
        if pieces.last().owner == client {
            rest.push((pieces.len() - 1) as usize)
        } else {
            rest
        }
    }
}

/// Whether `client` owns a piece that holds territory.
pub open spec fn holds_territory(pieces: Seq<PieceRecord>, client: PlayerId) -> bool {
    exists|i: int| 0 <= i < pieces.len() && pieces[i].owner == client && #[trigger] pieces[i].territory
}

/// The positions, in order, of the pieces that `client` owns: those that go
/// when the client is killed or leaves.
pub fn pieces_owned_by(pieces: &[PieceRecord], client: PlayerId) -> (r: Vec<usize>)
    ensures
        r@ == owned_positions(pieces@, client),
{
    let mut r: Vec<usize> = Vec::new();
    let mut i: usize = 0;
    while i < pieces.len()
        invariant
            0 <= i <= pieces@.len(),
            r@ == owned_positions(pieces@.take(i as int), client),
        decreases pieces@.len() - i,
    {
        proof {
            assert(pieces@.take(i + 1).drop_last() =~= pieces@.take(i as int));
        }
        if pieces[i].owner.0 == client.0 {
            r.push(i);
        }
        i = i + 1;
    }
    assert(pieces@.take(pieces@.len() as int) =~= pieces@);
    r
}

/// What the check on a killed client decided.
pub struct HealthCheck {
    /// The client is still connected and holds no territory: it lost.
    pub lost: bool,
    /// The positions of the client's pieces that are destroyed.
    pub doomed: Vec<usize>,
}

/// The check on a client that was killed. A client still connected that
/// holds territory is not dead (a false alarm): nothing happens to it. Else
/// every piece it owns is destroyed, and a client still connected is told it
/// lost.
pub fn client_health_check(present: bool, pieces: &[PieceRecord], client: PlayerId) -> (r: HealthCheck)
    ensures
        r.lost == (present && !holds_territory(pieces@, client)),
        r.doomed@ == if present && holds_territory(pieces@, client) {
            Seq::<usize>::empty()
        } else {
            owned_positions(pieces@, client)
        },
{
    let mut has_territory = false;
    let mut i: usize = 0;
    while i < pieces.len()
        invariant
            0 <= i <= pieces@.len(),
            has_territory == exists|j: int|
                0 <= j < i && pieces@[j].owner == client && #[trigger] pieces@[j].territory,
        decreases pieces@.len() - i,
    {
        if pieces[i].territory && pieces[i].owner.0 == client.0 {
            has_territory = true;
        }
        i = i + 1;
    }
    if present && has_territory {
        return HealthCheck { lost: false, doomed: Vec::new() };
    }
    let doomed = pieces_owned_by(pieces, client);
    HealthCheck { lost: present, doomed }
}

/// The coins a player collects for killing a chest.
pub open spec fn chest_reward() -> u32 {
    20
}

/// Coins a player collects.
#[derive(Copy, Clone, Debug, PartialEq, Eq, Structural)]
pub struct Reward {
    pub to: PlayerId,
    pub coins: u32,
}

/// What a piece's death sets off.
#[derive(Copy, Clone, Debug, PartialEq, Eq, Structural)]
pub struct PieceDeath {
    /// The piece was a bomb: it explodes where it was.
    pub explodes: bool,
    /// The piece was a chest: whoever killed it collects this many coins.
    pub reward: Option<Reward>,
    /// The piece was a castle: its owner is killed.
    pub owner_killed: Option<PlayerId>,
}

/// The effects of the death of a piece of type `tp` owned by `owner`, killed
/// by `responsible`.
pub fn on_piece_dead(
    tp: PieceType,
    owner: PlayerId,
    responsible: PlayerId,
    is_bomb: bool,
    is_chest: bool,
) -> (r: PieceDeath)
    ensures
        r.explodes == is_bomb,
        r.reward == if is_chest {
            Some(Reward { to: responsible, coins: chest_reward() })
        } else {
            None
        },
        r.owner_killed == if tp == PieceType::Castle {
            Some(owner)
        } else {
            None
        },
{
    let reward = if is_chest {
        Some(Reward { to: responsible, coins: 20 })
    } else {
        None
    };
    let owner_killed = if let PieceType::Castle = tp {
        Some(owner)
    } else {
        None
    };
    PieceDeath { explodes: is_bomb, reward, owner_killed }
}

/// A piece that a setup area places, for free, around its root.
#[derive(Copy, Clone, Debug, PartialEq, Eq, Structural)]
pub struct SetupPiece {
    pub tp: PieceType,
    /// The piece takes the item's angle; the others are placed unturned.
    pub turned: bool,
}

/// The piece that an item of a setup area places, by its type code, if the
/// code is known.
pub open spec fn setup_piece_of(code: Seq<char>) -> Option<SetupPiece> {
    if code == "basic_fighter"@ {
        Some(SetupPiece { tp: PieceType::BasicFighter, turned: true })
    } else if code == "castle"@ {
        Some(SetupPiece { tp: PieceType::Castle, turned: false })
    } else if code == "sniper"@ {
        Some(SetupPiece { tp: PieceType::Sniper, turned: true })
    } else if code == "lasernode_small"@ {
        Some(SetupPiece { tp: PieceType::LaserNode, turned: false })
    } else {
        None
    }
}

/// Look up the type code of an item of a setup area.
pub fn setup_piece(code: &String) -> (r: Option<SetupPiece>)
    ensures
        r == setup_piece_of(code@),
{
    let basic_fighter = "basic_fighter".to_owned();
    let castle = "castle".to_owned();
    let sniper = "sniper".to_owned();
    let lasernode_small = "lasernode_small".to_owned();
    if code.eq(&basic_fighter) {
        Some(SetupPiece { tp: PieceType::BasicFighter, turned: true })
    } else if code.eq(&castle) {
        Some(SetupPiece { tp: PieceType::Castle, turned: false })
    } else if code.eq(&sniper) {
        Some(SetupPiece { tp: PieceType::Sniper, turned: true })
    } else if code.eq(&lasernode_small) {
        Some(SetupPiece { tp: PieceType::LaserNode, turned: false })
    } else {
        None
    }
}

/// A piece with a fabber or territory, as a placement near it sees it.
#[derive(Copy, Clone, Debug, PartialEq, Eq, Structural)]
pub struct Holder {
    pub owner: PlayerId,
    pub slot: u8,
    /// The placement is in range of the holder's fabber, and that fabber can
    /// build the piece.
    pub fabs_here: bool,
    /// The placement is close to the holder's territory: within its radius
    /// and the margin kept between castles.
    pub near_territory: bool,
}

/// The holder's fabber builds for the placer: its own, or a teammate's.
pub open spec fn fab_allows(h: Holder, owner: PlayerId, slot: u8) -> bool {
    h.fabs_here && (h.owner == owner || (h.slot > 1 && slot == h.slot))
}

/// A castle may not go down close to the territory of anyone but the placer
/// itself and its teammates.
pub open spec fn castle_conflict(h: Holder, tp: PieceType, owner: PlayerId, slot: u8) -> bool {
    tp == PieceType::Castle && h.near_territory && h.owner != owner && (h.slot == 1 || h.slot != slot)
}

/// A piece placed for free always goes down; any other needs a fabber that
/// builds for its placer, and a castle must keep away from others'
/// territory.
pub open spec fn may_build(free: bool, tp: PieceType, owner: PlayerId, slot: u8, holders: Seq<Holder>) -> bool {
    free || ((exists|i: int| 0 <= i < holders.len() && #[trigger] fab_allows(holders[i], owner, slot))
        && !(exists|i: int| 0 <= i < holders.len() && #[trigger] castle_conflict(holders[i], tp, owner, slot)))
}

/// Whether a piece of type `tp` placed by `owner` in `slot` (for free or
/// not) goes down, given the pieces with fabbers or territory around.
pub fn fabber_check(free: bool, tp: PieceType, owner: PlayerId, slot: u8, holders: &[Holder]) -> (r: bool)
    ensures
        r == may_build(free, tp, owner, slot, holders@),
{
    if free {
        return true;
    }
    let mut isfab = false;
    let mut i: usize = 0;
    while i < holders.len()
        invariant
            !free,
            0 <= i <= holders@.len(),
            isfab == exists|j: int| 0 <= j < i && #[trigger] fab_allows(holders@[j], owner, slot),
            forall|j: int| 0 <= j < i ==> !#[trigger] castle_conflict(holders@[j], tp, owner, slot),
        decreases holders@.len() - i,
    {
        let h = holders[i];
        if h.fabs_here {
            if h.owner.0 == owner.0 {
                isfab = true;
            }
            if h.slot > 1 && slot == h.slot {
                isfab = true;
            }
        }
        let is_castle = match tp {
            PieceType::Castle => true,
            _ => false,
        };
        if is_castle && h.near_territory {
            if h.owner.0 != owner.0 && (h.slot == 1 || h.slot != slot) {
                assert(castle_conflict(holders@[i as int], tp, owner, slot));
                return false;
            }
        }
        proof {
            if fab_allows(holders@[i as int], owner, slot) {
                assert(isfab);
            }
            assert(isfab == exists|j: int|
                0 <= j < i + 1 && #[trigger] fab_allows(holders@[j], owner, slot)) by {
                if !fab_allows(holders@[i as int], owner, slot) {
                    assert forall|j: int| 0 <= j < i + 1 && #[trigger] fab_allows(holders@[j], owner, slot)
                        implies 0 <= j < i by {}
                }
            }
        }
        i = i + 1;
    }
    isfab
}

/// Two players are allies exactly when they share a team slot (2 and up):
/// the client counts such a player as friendly, and such a player's fabber
/// builds for the other. A castle may go down near the territory of another
/// player exactly when they are allies, for players who are not spectators
/// (slot 0).
pub proof fn law_allies_share_a_team_slot(a: PlayerId, sa: u8, b: PlayerId, sb: u8)
    requires
        a != b,
        b.0 != 0,
    ensures
        friendly(a, sa, b, Some(sb)) == (sa == sb && sa >= 2),
        fab_allows(Holder { owner: b, slot: sb, fabs_here: true, near_territory: false }, a, sa) == (
        sa == sb && sa >= 2),
        sa != 0 ==> (castle_conflict(
            Holder { owner: b, slot: sb, fabs_here: false, near_territory: true },
            PieceType::Castle,
            a,
            sa,
        ) == !(sa == sb && sa >= 2)),
{
}

/// The frames a short-lived piece has left.
#[derive(Copy, Clone, Debug, PartialEq, Eq, Structural)]
pub struct TimeToLive {
    pub lifetime: u32,
}

/// One frame passes for a short-lived piece: when its time is up it expires
/// (the system destroys it), else its time counts down.
pub fn ttl(t: &mut TimeToLive) -> (expired: bool)
    ensures
        expired == (old(t).lifetime == 0),
        final(t).lifetime == if expired {
            old(t).lifetime
        } else {
            (old(t).lifetime - 1) as u32
        },
{
    if t.lifetime == 0 {
        true
    } else {
        t.lifetime -= 1;
        false
    }
}

/// A seed on the board, growing into a chest.
#[derive(Copy, Clone, Debug, PartialEq, Eq, Structural)]
pub struct Seed {
    pub growing: bool,
    pub time_to_grow: u32,
}

/// One frame passes for a seed: a growing seed's time counts down, and a
/// seed with no time left matures (the system destroys it and places a chest
/// where it was). A growing seed must have time left.
pub fn seed_mature(seed: &mut Seed) -> (matured: bool)
    requires
        old(seed).growing ==> old(seed).time_to_grow > 0,
    ensures
        final(seed).growing == old(seed).growing,
        final(seed).time_to_grow == if old(seed).growing {
            (old(seed).time_to_grow - 1) as u32
        } else {
            old(seed).time_to_grow
        },
        matured == (final(seed).time_to_grow == 0),
{
    if seed.growing {
        seed.time_to_grow -= 1;
    }
    seed.time_to_grow == 0
}

/// A ship that mines the seeds in its range, one after the other.
pub struct ScrapShip {
    /// The seeds in range, by id.
    pub seeds_in_range: Vec<u64>,
    /// The position of the seed being mined.
    pub ind: usize,
}

impl ScrapShip {
    /// Turn to the next seed in range, going round to the first after the
    /// last; returns it, if any seed is in range.
    pub fn next_target(&mut self) -> (r: Option<u64>)
        requires
            old(self).ind < usize::MAX,
        ensures
            final(self).seeds_in_range@ == old(self).seeds_in_range@,
            old(self).seeds_in_range@.len() == 0 ==> r is None && final(self).ind == old(self).ind,
            old(self).seeds_in_range@.len() > 0 ==> {
                &&& final(self).ind == if old(self).ind + 1 >= old(self).seeds_in_range@.len() {
                    0
                } else {
                    old(self).ind + 1
                }
                &&& r == Some(final(self).seeds_in_range@[final(self).ind as int])
            },
    {
        if self.seeds_in_range.len() > 0 {
            self.ind += 1;
            if self.ind >= self.seeds_in_range.len() {
                self.ind = 0;
            }
            Some(self.seeds_in_range[self.ind])
        } else {
            None
        }
    }

    /// The seed being mined is gone: drop it from the seeds in range, moving
    /// the last one into its place.
    pub fn drop_current(&mut self)
        requires
            old(self).ind < old(self).seeds_in_range@.len(),
        ensures
            final(self).ind == old(self).ind,
            final(self).seeds_in_range@ == {
                let s = old(self).seeds_in_range@;
                s.update(old(self).ind as int, s.last()).drop_last()
            },
    {
        let ind = self.ind;
        self.seeds_in_range.swap_remove(ind);
    }
}

} // verus!
