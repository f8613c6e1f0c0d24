//! Piece types and their properties: price, who may place and move them,
//! the fabber levels they need, and how the client draws and names them.
//! A type that players may place must appear in `price`, `user_placeable` and
//! `fabber`; the defaults are "not placeable" and a price of 0.
use vstd::prelude::*;
use crate::fab::FabLevels;

verus! {

/// The kinds of piece, numbered in order from 0.
#[derive(Copy, Clone, Debug, PartialEq, Eq, Structural)]
pub enum PieceType {
    BasicFighter,
    Castle,
    Bullet,
    TieFighter,
    Sniper,
    DemolitionCruiser,
    Battleship,
    SmallBomb,
    Seed,
    Chest,
    Farmhouse,
    BallisticMissile,
    FleetDefenseShip,
    SeekingMissile,
    HypersonicMissile,
    TrackingMissile,
    CruiseMissile,
    ScrapShip,
    LaserNode,
    BasicTurret,
    LaserNodeLR,
    SmartTurret,
    BlastTurret,
    LaserTurret,
    EmpZone,
}

/// Drawing assets, for the client.
#[derive(Copy, Clone, Debug)]
pub enum Asset {
    /// One image.
    Simple(&'static str),
    /// (friendly, enemy): different images by allegiance.
    Partisan(&'static str, &'static str),
    /// No images for this piece.
    Unimpl,
}

/// The image drawn when a piece has none.
pub open spec fn not_found_asset() -> &'static str {
    "notfound.svg"
}

impl Asset {
    /// The image for a friendly piece.
    pub fn to_friendly(&self) -> (r: &'static str)
        ensures
            r == match *self {
                Asset::Simple(img) => img,
                Asset::Partisan(friendly, _) => friendly,
                Asset::Unimpl => not_found_asset(),
            },
    {
        match self {
            Asset::Simple(img) => img,
            Asset::Partisan(friendly, _) => friendly,
            Asset::Unimpl => "notfound.svg",
        }
    }

    /// The image for an enemy piece.
    pub fn to_enemy(&self) -> (r: &'static str)
        ensures
            r == match *self {
                Asset::Simple(img) => img,
                Asset::Partisan(_, enemy) => enemy,
                Asset::Unimpl => not_found_asset(),
            },
    {
        match self {
            Asset::Simple(img) => img,
            Asset::Partisan(_, enemy) => enemy,
            Asset::Unimpl => "notfound.svg",
        }
    }
}

impl FabLevels {
    /// All levels zero.
    pub open spec fn spec_zero() -> FabLevels {
        FabLevels { missiles: 0, ships: 0, econ: 0, defense: 0, buildings: 0 }
    }
}

/// The price of placing the piece; 0 for pieces that cannot be placed.
pub open spec fn price_of(t: PieceType) -> u32 {
    match t {
        PieceType::BasicFighter => 10,
        PieceType::TieFighter => 20,
        PieceType::Sniper => 30,
        PieceType::DemolitionCruiser => 60,
        PieceType::Battleship => 200,
        PieceType::Seed => 5,
        PieceType::Farmhouse => 30,
        PieceType::BallisticMissile => 5,
        PieceType::FleetDefenseShip => 50,
        PieceType::SeekingMissile => 10,
        PieceType::HypersonicMissile => 20,
        PieceType::TrackingMissile => 30,
        PieceType::CruiseMissile => 50,
        PieceType::ScrapShip => 20,
        PieceType::LaserNode => 10,
        PieceType::BasicTurret => 50,
        PieceType::LaserNodeLR => 80,
        PieceType::SmartTurret => 100,
        _ => 0,
    }
}

/// Whether players may place the piece.
pub open spec fn is_user_placeable(t: PieceType) -> bool {
    match t {
        PieceType::BasicFighter => true,
        PieceType::TieFighter => true,
        PieceType::Sniper => true,
        PieceType::DemolitionCruiser => true,
        PieceType::Battleship => true,
        PieceType::Seed => true,
        PieceType::Farmhouse => true,
        PieceType::BallisticMissile => true,
        PieceType::FleetDefenseShip => true,
        PieceType::SeekingMissile => true,
        PieceType::HypersonicMissile => true,
        PieceType::TrackingMissile => true,
        PieceType::CruiseMissile => true,
        PieceType::ScrapShip => true,
        PieceType::LaserNode => true,
        PieceType::BasicTurret => true,
        PieceType::LaserNodeLR => true,
        PieceType::SmartTurret => true,
        _ => false,
    }
}

/// Whether players may move the piece.
pub open spec fn is_user_movable(t: PieceType) -> bool {
    match t {
        PieceType::BasicFighter => true,
        PieceType::TieFighter => true,
        PieceType::Sniper => true,
        PieceType::DemolitionCruiser => true,
        PieceType::Battleship => true,
        PieceType::Seed => true,
        PieceType::BallisticMissile => true,
        PieceType::FleetDefenseShip => true,
        PieceType::SeekingMissile => true,
        PieceType::HypersonicMissile => true,
        PieceType::TrackingMissile => true,
        PieceType::CruiseMissile => true,
        PieceType::ScrapShip => true,
        _ => false,
    }
}

/// The fabber levels needed to build the piece.
pub open spec fn fabber_of(t: PieceType) -> FabLevels {
    match t {
        PieceType::BasicFighter => FabLevels { ships: 1, ..FabLevels::spec_zero() },
        PieceType::TieFighter => FabLevels { ships: 1, ..FabLevels::spec_zero() },
        PieceType::Sniper => FabLevels { ships: 1, ..FabLevels::spec_zero() },
        PieceType::DemolitionCruiser => FabLevels { ships: 2, ..FabLevels::spec_zero() },
        PieceType::Battleship => FabLevels { ships: 3, ..FabLevels::spec_zero() },
        PieceType::FleetDefenseShip => FabLevels { ships: 1, ..FabLevels::spec_zero() },
        PieceType::Seed => FabLevels { econ: 1, ..FabLevels::spec_zero() },
        PieceType::Farmhouse => FabLevels { econ: 2, ..FabLevels::spec_zero() },
        PieceType::BallisticMissile => FabLevels { missiles: 1, ..FabLevels::spec_zero() },
        PieceType::SeekingMissile => FabLevels { missiles: 1, ..FabLevels::spec_zero() },
        PieceType::HypersonicMissile => FabLevels { missiles: 2, ..FabLevels::spec_zero() },
        PieceType::TrackingMissile => FabLevels { missiles: 3, ..FabLevels::spec_zero() },
        PieceType::CruiseMissile => FabLevels { missiles: 4, ..FabLevels::spec_zero() },
        PieceType::ScrapShip => FabLevels { econ: 2, ..FabLevels::spec_zero() },
        PieceType::LaserNode => FabLevels { defense: 1, ..FabLevels::spec_zero() },
        PieceType::BasicTurret => FabLevels { defense: 1, ..FabLevels::spec_zero() },
        PieceType::LaserNodeLR => FabLevels { defense: 2, ..FabLevels::spec_zero() },
        PieceType::SmartTurret => FabLevels { defense: 2, ..FabLevels::spec_zero() },
        _ => FabLevels::spec_zero(),
    }
}

/// The display name of the piece; empty for pieces without one.
pub open spec fn name_of(t: PieceType) -> &'static str {
    match t {
        PieceType::BasicFighter => "Basic Fighter",
        PieceType::Castle => "Castle",
        PieceType::Bullet => "Bullet",
        PieceType::TieFighter => "Tie Fighter",
        PieceType::Sniper => "Sniper",
        PieceType::DemolitionCruiser => "Demolition Cruiser",
        PieceType::Battleship => "Battleship",
        PieceType::SmallBomb => "Small Bomb",
        PieceType::Seed => "Seed",
        PieceType::Chest => "Chest",
        PieceType::Farmhouse => "Farmhouse",
        PieceType::BallisticMissile => "Ballistic Missile",
        PieceType::FleetDefenseShip => "Fleet Defense Ship",
        PieceType::SeekingMissile => "Seeking Missile",
        PieceType::HypersonicMissile => "Hypersonic Missile",
        PieceType::TrackingMissile => "Tracking Missile",
        PieceType::CruiseMissile => "Cruise Missile",
        PieceType::ScrapShip => "Scrap Ship",
        PieceType::LaserNode => "Small Laser Node",
        PieceType::BasicTurret => "Basic Turret",
        PieceType::LaserNodeLR => "Large Laser Node",
        PieceType::SmartTurret => "Smart Turret",
        _ => "",
    }
}

/// The description of the piece; empty for pieces without one.
pub open spec fn description_of(t: PieceType) -> &'static str {
    match t {
        PieceType::BasicFighter => "Slow ship that fires short-range bullets at a moderate interval",
        PieceType::Castle => "A castle!",
        PieceType::Bullet => "A bullet!",
        PieceType::TieFighter => "Slow ship that fires repeating bullets at a moderate interval",
        PieceType::Sniper => "Fast ship that fires long-range bullets at a long interval",
        PieceType::DemolitionCruiser => "Slow ship that fires small bombs",
        PieceType::Battleship => "why the hell did I make this",
        PieceType::SmallBomb => "A little bomb!",
        PieceType::Seed => "Static piece that matures into a Chest after one hundred ticks in the radius of a farm field",
        PieceType::Chest => "Static piece that grants whichever player kills it 20 coins",
        PieceType::Farmhouse => "Farmhouse that produces a small farm field in which seeds can be grown into chests",
        PieceType::BallisticMissile => "Cheap kinetic missile",
        PieceType::FleetDefenseShip => "unimplemented",
        PieceType::SeekingMissile => "Kinetic missile that locks onto the first enemy piece it detects",
        PieceType::HypersonicMissile => "Fast missile with a low-yield warhead",
        PieceType::TrackingMissile => "Slow missile with a low-yield warhead that can be manually onto enemy pieces",
        PieceType::CruiseMissile => "Slow missile with a high-yield warhead",
        PieceType::ScrapShip => "Slow, weak ship that fires laser at nearby chests to collect the $20",
        PieceType::LaserNode => "Small laser node that creates laser walls to nearby laser nodes",
        PieceType::BasicTurret => "Automatically swivelling turret that fires bullets at enemies in range",
        PieceType::LaserNodeLR => "Long range laser mnode that creates laser walls to nearby laser nodes",
        PieceType::SmartTurret => "Automatically swivelling turret that fires bullets at enemies in range, with much better aim",
        _ => "",
    }
}

/// The radius of the piece's sensor, if it has one, in board units (the
/// radii are whole numbers, exact as `f32`).
pub open spec fn sensor_of(t: PieceType) -> Option<u16> {
    match t {
        PieceType::Farmhouse => Some(100u16),
        PieceType::SeekingMissile => Some(300u16),
        PieceType::LaserNode => Some(200u16),
        PieceType::LaserNodeLR => Some(600u16),
        PieceType::ScrapShip => Some(300u16),
        PieceType::BasicTurret => Some(350u16),
        PieceType::SmartTurret => Some(350u16),
        _ => None,
    }
}

/// The radius of the field the client draws around the piece: its sensor's,
/// else a castle's 600, else none.
pub open spec fn field_of(t: PieceType) -> Option<u16> {
    if sensor_of(t) is Some {
        sensor_of(t)
    } else if t == PieceType::Castle {
        Some(600u16)
    } else {
        None
    }
}

/// Whether the piece's field is drawn at all times.
pub open spec fn shows_field(t: PieceType) -> bool {
    match t {
        PieceType::Farmhouse => true,
        PieceType::BasicTurret => true,
        PieceType::SmartTurret => true,
        _ => false,
    }
}

/// Whether the piece can be steered onto a target.
pub open spec fn supports_targeting(t: PieceType) -> bool {
    match t {
        PieceType::TrackingMissile => true,
        _ => false,
    }
}

/// The drawing assets of the piece.
pub open spec fn asset_of(t: PieceType) -> Asset {
    match t {
        PieceType::BasicFighter => Asset::Partisan("basic_fighter_friendly.svg", "basic_fighter_enemy.svg"),
        PieceType::Castle => Asset::Partisan("castle_friendly.svg", "castle_enemy.svg"),
        PieceType::Bullet => Asset::Simple("bullet.svg"),
        PieceType::TieFighter => Asset::Partisan("tie_fighter_friendly.svg", "tie_fighter_enemy.svg"),
        PieceType::Sniper => Asset::Partisan("sniper_friendly.svg", "sniper_enemy.svg"),
        PieceType::DemolitionCruiser => Asset::Partisan("demolition_cruiser_friendly.svg", "demolition_cruiser_enemy.svg"),
        PieceType::Battleship => Asset::Partisan("battleship_friendly.svg", "battleship_enemy.svg"),
        PieceType::SmallBomb => Asset::Simple("smallbomb.svg"),
        PieceType::Seed => Asset::Simple("seed.svg"),
        PieceType::Chest => Asset::Simple("chest.svg"),
        PieceType::Farmhouse => Asset::Simple("farmhouse.svg"),
        PieceType::BallisticMissile => Asset::Partisan("ballistic_missile_friendly.svg", "ballistic_missile_enemy.svg"),
        PieceType::SeekingMissile => Asset::Partisan("seeking_missile_friendly.svg", "seeking_missile_enemy.svg"),
        PieceType::HypersonicMissile => Asset::Partisan("hypersonic_missile_friendly.svg", "hypersonic_missile_enemy.svg"),
        PieceType::TrackingMissile => Asset::Partisan("tracking_missile_friendly.svg", "tracking_missile_enemy.svg"),
        PieceType::CruiseMissile => Asset::Partisan("cruise_missile_friendly.svg", "cruise_missile_enemy.svg"),
        PieceType::ScrapShip => Asset::Simple("scrapship.svg"),
        PieceType::LaserNode => Asset::Simple("lasernode.svg"),
        PieceType::BasicTurret => Asset::Partisan("basic_turret_friendly.svg", "basic_turret_enemy.svg"),
        PieceType::LaserNodeLR => Asset::Simple("lasernode_lr.svg"),
        PieceType::SmartTurret => Asset::Partisan("smart_turret_friendly.svg", "smart_turret_enemy.svg"),
        _ => Asset::Unimpl,
    }
}

/// The piece type numbered `n`, if there is one.
pub open spec fn piece_type_of(n: u16) -> Option<PieceType> {
    match n {
        0 => Some(PieceType::BasicFighter),
        1 => Some(PieceType::Castle),
        2 => Some(PieceType::Bullet),
        3 => Some(PieceType::TieFighter),
        4 => Some(PieceType::Sniper),
        5 => Some(PieceType::DemolitionCruiser),
        6 => Some(PieceType::Battleship),
        7 => Some(PieceType::SmallBomb),
        8 => Some(PieceType::Seed),
        9 => Some(PieceType::Chest),
        10 => Some(PieceType::Farmhouse),
        11 => Some(PieceType::BallisticMissile),
        12 => Some(PieceType::FleetDefenseShip),
        13 => Some(PieceType::SeekingMissile),
        14 => Some(PieceType::HypersonicMissile),
        15 => Some(PieceType::TrackingMissile),
        16 => Some(PieceType::CruiseMissile),
        17 => Some(PieceType::ScrapShip),
        18 => Some(PieceType::LaserNode),
        19 => Some(PieceType::BasicTurret),
        20 => Some(PieceType::LaserNodeLR),
        21 => Some(PieceType::SmartTurret),
        22 => Some(PieceType::BlastTurret),
        23 => Some(PieceType::LaserTurret),
        24 => Some(PieceType::EmpZone),
        _ => None,
    }
}

impl PieceType {
    /// The price of placing the piece; 0 for pieces that cannot be placed.
    pub fn price(&self) -> (r: u32)
        ensures
            r == price_of(*self),
    {
        match self {
            PieceType::BasicFighter => 10,
            PieceType::TieFighter => 20,
            PieceType::Sniper => 30,
            PieceType::DemolitionCruiser => 60,
            PieceType::Battleship => 200,
            PieceType::Seed => 5,
            PieceType::Farmhouse => 30,
            PieceType::BallisticMissile => 5,
            PieceType::FleetDefenseShip => 50,
            PieceType::SeekingMissile => 10,
            PieceType::HypersonicMissile => 20,
            PieceType::TrackingMissile => 30,
            PieceType::CruiseMissile => 50,
            PieceType::ScrapShip => 20,
            PieceType::LaserNode => 10,
            PieceType::BasicTurret => 50,
            PieceType::LaserNodeLR => 80,
            PieceType::SmartTurret => 100,
            _ => 0,
        }
    }

    /// Whether players may place the piece.
    pub fn user_placeable(&self) -> (r: bool)
        ensures
            r == is_user_placeable(*self),
    {
        match self {
            PieceType::BasicFighter => true,
            PieceType::TieFighter => true,
            PieceType::Sniper => true,
            PieceType::DemolitionCruiser => true,
            PieceType::Battleship => true,
            PieceType::Seed => true,
            PieceType::Farmhouse => true,
            PieceType::BallisticMissile => true,
            PieceType::FleetDefenseShip => true,
            PieceType::SeekingMissile => true,
            PieceType::HypersonicMissile => true,
            PieceType::TrackingMissile => true,
            PieceType::CruiseMissile => true,
            PieceType::ScrapShip => true,
            PieceType::LaserNode => true,
            PieceType::BasicTurret => true,
            PieceType::LaserNodeLR => true,
            PieceType::SmartTurret => true,
            _ => false,
        }
    }

    /// Whether players may move the piece.
    pub fn user_movable(&self) -> (r: bool)
        ensures
            r == is_user_movable(*self),
    {
        match self {
            PieceType::BasicFighter => true,
            PieceType::TieFighter => true,
            PieceType::Sniper => true,
            PieceType::DemolitionCruiser => true,
            PieceType::Battleship => true,
            PieceType::Seed => true,
            PieceType::BallisticMissile => true,
            PieceType::FleetDefenseShip => true,
            PieceType::SeekingMissile => true,
            PieceType::HypersonicMissile => true,
            PieceType::TrackingMissile => true,
            PieceType::CruiseMissile => true,
            PieceType::ScrapShip => true,
            _ => false,
        }
    }

    /// The display name of the piece; empty for pieces without one.
    pub fn name(&self) -> (r: &'static str)
        ensures
            r == name_of(*self),
    {
        match self {
            PieceType::BasicFighter => "Basic Fighter",
            PieceType::Castle => "Castle",
            PieceType::Bullet => "Bullet",
            PieceType::TieFighter => "Tie Fighter",
            PieceType::Sniper => "Sniper",
            PieceType::DemolitionCruiser => "Demolition Cruiser",
            PieceType::Battleship => "Battleship",
            PieceType::SmallBomb => "Small Bomb",
            PieceType::Seed => "Seed",
            PieceType::Chest => "Chest",
            PieceType::Farmhouse => "Farmhouse",
            PieceType::BallisticMissile => "Ballistic Missile",
            PieceType::FleetDefenseShip => "Fleet Defense Ship",
            PieceType::SeekingMissile => "Seeking Missile",
            PieceType::HypersonicMissile => "Hypersonic Missile",
            PieceType::TrackingMissile => "Tracking Missile",
            PieceType::CruiseMissile => "Cruise Missile",
            PieceType::ScrapShip => "Scrap Ship",
            PieceType::LaserNode => "Small Laser Node",
            PieceType::BasicTurret => "Basic Turret",
            PieceType::LaserNodeLR => "Large Laser Node",
            PieceType::SmartTurret => "Smart Turret",
            _ => "",
        }
    }

    /// The description of the piece; empty for pieces without one.
    pub fn description(&self) -> (r: &'static str)
        ensures
            r == description_of(*self),
    {
        match self {
            PieceType::BasicFighter => "Slow ship that fires short-range bullets at a moderate interval",
            PieceType::Castle => "A castle!",
            PieceType::Bullet => "A bullet!",
            PieceType::TieFighter => "Slow ship that fires repeating bullets at a moderate interval",
            PieceType::Sniper => "Fast ship that fires long-range bullets at a long interval",
            PieceType::DemolitionCruiser => "Slow ship that fires small bombs",
            PieceType::Battleship => "why the hell did I make this",
            PieceType::SmallBomb => "A little bomb!",
            PieceType::Seed => "Static piece that matures into a Chest after one hundred ticks in the radius of a farm field",
            PieceType::Chest => "Static piece that grants whichever player kills it 20 coins",
            PieceType::Farmhouse => "Farmhouse that produces a small farm field in which seeds can be grown into chests",
            PieceType::BallisticMissile => "Cheap kinetic missile",
            PieceType::FleetDefenseShip => "unimplemented",
            PieceType::SeekingMissile => "Kinetic missile that locks onto the first enemy piece it detects",
            PieceType::HypersonicMissile => "Fast missile with a low-yield warhead",
            PieceType::TrackingMissile => "Slow missile with a low-yield warhead that can be manually onto enemy pieces",
            PieceType::CruiseMissile => "Slow missile with a high-yield warhead",
            PieceType::ScrapShip => "Slow, weak ship that fires laser at nearby chests to collect the $20",
            PieceType::LaserNode => "Small laser node that creates laser walls to nearby laser nodes",
            PieceType::BasicTurret => "Automatically swivelling turret that fires bullets at enemies in range",
            PieceType::LaserNodeLR => "Long range laser mnode that creates laser walls to nearby laser nodes",
            PieceType::SmartTurret => "Automatically swivelling turret that fires bullets at enemies in range, with much better aim",
            _ => "",
        }
    }

    /// The radius of the piece's sensor, if it has one.
    pub fn sensor(&self) -> (r: Option<u16>)
        ensures
            r == sensor_of(*self),
    {
        match self {
            PieceType::Farmhouse => Some(100),
            PieceType::SeekingMissile => Some(300),
            PieceType::LaserNode => Some(200),
            PieceType::LaserNodeLR => Some(600),
            PieceType::ScrapShip => Some(300),
            PieceType::BasicTurret => Some(350),
            PieceType::SmartTurret => Some(350),
            _ => None,
        }
    }

    /// The radius of the field the client draws around the piece.
    pub fn field(&self) -> (r: Option<u16>)
        ensures
            r == field_of(*self),
    {
        if let Some(sensor) = self.sensor() {
            return Some(sensor);
        }
        if let PieceType::Castle = *self {
            return Some(600);
        }
        None
    }

    /// Whether the piece's field is drawn at all times.
    pub fn show_field(&self) -> (r: bool)
        ensures
            r == shows_field(*self),
    {
        match self {
            PieceType::Farmhouse => true,
            PieceType::BasicTurret => true,
            PieceType::SmartTurret => true,
            _ => false,
        }
    }

    /// Whether the piece can be steered onto a target.
    pub fn supports_target_control(&self) -> (r: bool)
        ensures
            r == supports_targeting(*self),
    {
        match self {
            PieceType::TrackingMissile => true,
            _ => false,
        }
    }

    /// The fabber levels needed to build the piece.
    pub fn fabber(&self) -> (r: FabLevels)
        ensures
            r == fabber_of(*self),
    {
        match self {
            PieceType::BasicFighter => FabLevels::ships(1),
            PieceType::TieFighter => FabLevels::ships(1),
            PieceType::Sniper => FabLevels::ships(1),
            PieceType::DemolitionCruiser => FabLevels::ships(2),
            PieceType::Battleship => FabLevels::ships(3),
            PieceType::FleetDefenseShip => FabLevels::ships(1),
            PieceType::Seed => FabLevels::econ(1),
            PieceType::Farmhouse => FabLevels::econ(2),
            PieceType::BallisticMissile => FabLevels::missiles(1),
            PieceType::SeekingMissile => FabLevels::missiles(1),
            PieceType::HypersonicMissile => FabLevels::missiles(2),
            PieceType::TrackingMissile => FabLevels::missiles(3),
            PieceType::CruiseMissile => FabLevels::missiles(4),
            PieceType::LaserNode => FabLevels::defense(1),
            PieceType::ScrapShip => FabLevels::econ(2),
            PieceType::LaserNodeLR => FabLevels::defense(2),
            PieceType::BasicTurret => FabLevels::defense(1),
            PieceType::SmartTurret => FabLevels::defense(2),
            _ => FabLevels::default(),
        }
    }

    /// The drawing assets of the piece (for the client).
    pub fn asset(&self) -> (r: Asset)
        ensures
            r == asset_of(*self),
    {
        match self {
            PieceType::BasicFighter => Asset::Partisan("basic_fighter_friendly.svg", "basic_fighter_enemy.svg"),
            PieceType::Castle => Asset::Partisan("castle_friendly.svg", "castle_enemy.svg"),
            PieceType::Bullet => Asset::Simple("bullet.svg"),
            PieceType::TieFighter => Asset::Partisan("tie_fighter_friendly.svg", "tie_fighter_enemy.svg"),
            PieceType::Sniper => Asset::Partisan("sniper_friendly.svg", "sniper_enemy.svg"),
            PieceType::DemolitionCruiser => Asset::Partisan("demolition_cruiser_friendly.svg", "demolition_cruiser_enemy.svg"),
            PieceType::Battleship => Asset::Partisan("battleship_friendly.svg", "battleship_enemy.svg"),
            PieceType::SmallBomb => Asset::Simple("smallbomb.svg"),
            PieceType::Seed => Asset::Simple("seed.svg"),
            PieceType::Chest => Asset::Simple("chest.svg"),
            PieceType::Farmhouse => Asset::Simple("farmhouse.svg"),
            PieceType::BallisticMissile => Asset::Partisan("ballistic_missile_friendly.svg", "ballistic_missile_enemy.svg"),
            PieceType::SeekingMissile => Asset::Partisan("seeking_missile_friendly.svg", "seeking_missile_enemy.svg"),
            PieceType::HypersonicMissile => Asset::Partisan("hypersonic_missile_friendly.svg", "hypersonic_missile_enemy.svg"),
            PieceType::TrackingMissile => Asset::Partisan("tracking_missile_friendly.svg", "tracking_missile_enemy.svg"),
            PieceType::CruiseMissile => Asset::Partisan("cruise_missile_friendly.svg", "cruise_missile_enemy.svg"),
            PieceType::ScrapShip => Asset::Simple("scrapship.svg"),
            PieceType::LaserNode => Asset::Simple("lasernode.svg"),
            PieceType::BasicTurret => Asset::Partisan("basic_turret_friendly.svg", "basic_turret_enemy.svg"),
            PieceType::LaserNodeLR => Asset::Simple("lasernode_lr.svg"),
            PieceType::SmartTurret => Asset::Partisan("smart_turret_friendly.svg", "smart_turret_enemy.svg"),
            _ => Asset::Unimpl,
        }
    }

    /// The piece type numbered `n`, if there is one.
    pub fn from_u16(n: u16) -> (r: Option<PieceType>)
        ensures
            r == piece_type_of(n),
    {
        match n {
            0 => Some(PieceType::BasicFighter),
            1 => Some(PieceType::Castle),
            2 => Some(PieceType::Bullet),
            3 => Some(PieceType::TieFighter),
            4 => Some(PieceType::Sniper),
            5 => Some(PieceType::DemolitionCruiser),
            6 => Some(PieceType::Battleship),
            7 => Some(PieceType::SmallBomb),
            8 => Some(PieceType::Seed),
            9 => Some(PieceType::Chest),
            10 => Some(PieceType::Farmhouse),
            11 => Some(PieceType::BallisticMissile),
            12 => Some(PieceType::FleetDefenseShip),
            13 => Some(PieceType::SeekingMissile),
            14 => Some(PieceType::HypersonicMissile),
            15 => Some(PieceType::TrackingMissile),
            16 => Some(PieceType::CruiseMissile),
            17 => Some(PieceType::ScrapShip),
            18 => Some(PieceType::LaserNode),
            19 => Some(PieceType::BasicTurret),
            20 => Some(PieceType::LaserNodeLR),
            21 => Some(PieceType::SmartTurret),
            22 => Some(PieceType::BlastTurret),
            23 => Some(PieceType::LaserTurret),
            24 => Some(PieceType::EmpZone),
            _ => None,
        }
    }
}

/// A piece has a price exactly when players may place it: no placeable piece
/// is free, and no piece that cannot be placed has a price.
pub proof fn law_price_iff_placeable(t: PieceType)
    ensures
        (price_of(t) > 0) == is_user_placeable(t),
{
}

/// Players may only move pieces they may place.
pub proof fn law_movable_pieces_are_placeable(t: PieceType)
    ensures
        is_user_movable(t) ==> is_user_placeable(t),
{
}

/// Every piece players may place is listed in the fabber table: it needs
/// some fabber level.
pub proof fn law_placeable_pieces_need_a_fabber(t: PieceType)
    ensures
        is_user_placeable(t) ==> fabber_of(t) != FabLevels::spec_zero(),
{
}

/// A piece that needs a fabber is one players may place.
pub proof fn law_fabbed_pieces_are_placeable(t: PieceType)
    ensures
        fabber_of(t) != FabLevels::spec_zero() ==> is_user_placeable(t),
{
}

} // verus!
