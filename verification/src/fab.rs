//! Fabber levels: how advanced a fabber must be to build a piece.
use vstd::prelude::*;

verus! {

/// The level of each of the five fabber disciplines.
#[derive(PartialEq, Eq, Structural, Copy, Clone, Debug)]
pub struct FabLevels {
    pub missiles: u8,
    pub ships: u8,
    pub econ: u8,
    pub defense: u8,
    pub buildings: u8,
}

/// The comparison of `FabLevels`: equal when every level is the same; less
/// when any level of `a` is below that of `b`; greater otherwise. It is
/// always defined.
pub open spec fn fab_compare(a: FabLevels, b: FabLevels) -> Option<std::cmp::Ordering> {
    if a == b {
        Some(std::cmp::Ordering::Equal)
    } else if a.missiles < b.missiles || a.ships < b.ships || a.econ < b.econ || a.defense
        < b.defense || a.buildings < b.buildings {
        Some(std::cmp::Ordering::Less)
    } else {
        Some(std::cmp::Ordering::Greater)
    }
}

/// Levels `a` are at least levels `b` (`a >= b`, as a fabber at levels `a`
/// can build what needs levels `b`) exactly when every level of `a` is at
/// least the same level of `b`.
pub proof fn law_fab_at_least_is_componentwise(a: FabLevels, b: FabLevels)
    ensures
        (fab_compare(a, b) == Some(std::cmp::Ordering::Equal) || fab_compare(a, b) == Some(
            std::cmp::Ordering::Greater,
        )) <==> (a.missiles >= b.missiles && a.ships >= b.ships && a.econ >= b.econ && a.defense
            >= b.defense && a.buildings >= b.buildings),
{
}

impl FabLevels {
    /// All levels zero.
    pub fn default() -> (r: Self)
        ensures
            r == (FabLevels { missiles: 0, ships: 0, econ: 0, defense: 0, buildings: 0 }),
    {
        Self { missiles: 0, ships: 0, econ: 0, defense: 0, buildings: 0 }
    }

    pub fn with_missiles(self, lev: u8) -> (r: Self)
        ensures
            r == (FabLevels { missiles: lev, ..self }),
    {
        let mut s = self;
        s.missiles = lev;
        s
    }

    pub fn with_ships(self, lev: u8) -> (r: Self)
        ensures
            r == (FabLevels { ships: lev, ..self }),
    {
        let mut s = self;
        s.ships = lev;
        s
    }

    pub fn with_econ(self, lev: u8) -> (r: Self)
        ensures
            r == (FabLevels { econ: lev, ..self }),
    {
        let mut s = self;
        s.econ = lev;
        s
    }

    pub fn with_defense(self, lev: u8) -> (r: Self)
        ensures
            r == (FabLevels { defense: lev, ..self }),
    {
        let mut s = self;
        s.defense = lev;
        s
    }

    pub fn with_buildings(self, lev: u8) -> (r: Self)
        ensures
            r == (FabLevels { buildings: lev, ..self }),
    {
        let mut s = self;
        s.buildings = lev;
        s
    }

    /// Only the missile level set.
    pub fn missiles(lev: u8) -> (r: Self)
        ensures
            r == (FabLevels { missiles: lev, ships: 0, econ: 0, defense: 0, buildings: 0 }),
    {
        Self::default().with_missiles(lev)
    }

    /// Only the ship level set.
    pub fn ships(lev: u8) -> (r: Self)
        ensures
            r == (FabLevels { missiles: 0, ships: lev, econ: 0, defense: 0, buildings: 0 }),
    {
        Self::default().with_ships(lev)
    }

    /// Only the economy level set.
    pub fn econ(lev: u8) -> (r: Self)
        ensures
            r == (FabLevels { missiles: 0, ships: 0, econ: lev, defense: 0, buildings: 0 }),
    {
        Self::default().with_econ(lev)
    }

    /// Only the defense level set.
    pub fn defense(lev: u8) -> (r: Self)
        ensures
            r == (FabLevels { missiles: 0, ships: 0, econ: 0, defense: lev, buildings: 0 }),
    {
        Self::default().with_defense(lev)
    }

    /// Only the buildings level set.
    pub fn buildings(lev: u8) -> (r: Self)
        ensures
            r == (FabLevels { missiles: 0, ships: 0, econ: 0, defense: 0, buildings: lev }),
    {
        Self::default().with_buildings(lev)
    }
}

impl PartialOrd for FabLevels {
    /// A `FabLevels` is greater than another if no level is below the other's
    /// and they differ, equal if they are the same, and less otherwise.
    fn partial_cmp(&self, other: &FabLevels) -> (r: Option<std::cmp::Ordering>) {
        if *self == *other {
            return Some(std::cmp::Ordering::Equal);
        }
        if self.missiles < other.missiles || self.ships < other.ships || self.econ < other.econ
            || self.defense < other.defense || self.buildings < other.buildings {
            return Some(std::cmp::Ordering::Less);
        }
        Some(std::cmp::Ordering::Greater)
    }
}

impl vstd::std_specs::cmp::PartialOrdSpecImpl for FabLevels {
    open spec fn obeys_partial_cmp_spec() -> bool {
        true
    }

    open spec fn partial_cmp_spec(&self, other: &FabLevels) -> Option<std::cmp::Ordering> {
        fab_compare(*self, *other)
    }
}

} // verus!
