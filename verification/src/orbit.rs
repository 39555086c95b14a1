use vstd::prelude::*;

use crate::world::World;
use vstd::string::StringExecFns;

verus! {

/// The kind of content seated in an orbit slot.
#[derive(Debug, Clone, Copy, PartialEq, Eq, Structural)]
pub enum OrbitType {
    Empty,
    World,
    GasGiant,
    Belt,
    Hostile,
    Rockball,
}

/// The size class of a gas giant.
#[derive(Debug, Clone, Copy, PartialEq, Eq, Structural)]
pub enum GiantSize {
    Small,
    Large,
}

/// A moon of a gas giant: its slot among the giant's moons, the orbital
/// radius drawn from the ring/close/far/extreme distance tables, and its
/// relative size.
#[derive(Debug, Clone, Copy, PartialEq, Eq, Structural)]
pub struct Moon {
    pub orbit: u8,
    pub orbital_radius: u8,
    pub size: u8,
}

/// An orbit slot left empty. `au` is the slot's distance in milli-AU.
#[derive(Debug, Clone, PartialEq, Eq, Structural)]
pub struct EmptyOrbit {
    pub orbit_number: u8,
    pub au: u64,
}

/// An orbit slot seating the star's habitable world.
#[derive(Debug, Clone, PartialEq)]
pub struct WorldOrbit {
    pub orbit_number: u8,
    pub au: u64,
    pub world: World,
}

/// An orbit slot holding a gas giant and its moons.
#[derive(Debug, Clone, PartialEq)]
pub struct GasGiant {
    pub orbit_number: u8,
    pub au: u64,
    pub size: GiantSize,
    pub moons: Vec<Moon>,
}

/// An orbit slot holding an asteroid belt.
#[derive(Debug, Clone, PartialEq, Eq, Structural)]
pub struct Belt {
    pub orbit_number: u8,
    pub au: u64,
}

/// An orbit slot holding an uninhabitable world with a rolled atmosphere
/// and hydrographics.
#[derive(Debug, Clone, PartialEq, Eq, Structural)]
pub struct Hostile {
    pub orbit_number: u8,
    pub au: u64,
    pub atmosphere: u8,
    pub hydrographics: u8,
}

/// An orbit slot holding a bare rockball.
#[derive(Debug, Clone, PartialEq, Eq, Structural)]
pub struct Rockball {
    pub orbit_number: u8,
    pub au: u64,
}

/// The closed set of things an orbit slot can hold. Every consumer matches
/// exhaustively, so a new kind of content cannot be added silently.
#[derive(Debug, Clone, PartialEq)]
pub enum OrbitContent {
    Empty(EmptyOrbit),
    World(WorldOrbit),
    GasGiant(GasGiant),
    Belt(Belt),
    Hostile(Hostile),
    Rockball(Rockball),
}

/// The slot number an orbit content sits in.
pub open spec fn spec_orbit_number(oc: OrbitContent) -> int {
    match oc {
        OrbitContent::Empty(o) => o.orbit_number as int,
        OrbitContent::World(o) => o.orbit_number as int,
        OrbitContent::GasGiant(o) => o.orbit_number as int,
        OrbitContent::Belt(o) => o.orbit_number as int,
        OrbitContent::Hostile(o) => o.orbit_number as int,
        OrbitContent::Rockball(o) => o.orbit_number as int,
    }
}

/// The distance, in milli-AU, an orbit content sits at.
pub open spec fn spec_orbit_au(oc: OrbitContent) -> int {
    match oc {
        OrbitContent::Empty(o) => o.au as int,
        OrbitContent::World(o) => o.au as int,
        OrbitContent::GasGiant(o) => o.au as int,
        OrbitContent::Belt(o) => o.au as int,
        OrbitContent::Hostile(o) => o.au as int,
        OrbitContent::Rockball(o) => o.au as int,
    }
}

/// The kind of an orbit content.
pub open spec fn spec_orbit_type(oc: OrbitContent) -> OrbitType {
    match oc {
        OrbitContent::Empty(_) => OrbitType::Empty,
        OrbitContent::World(_) => OrbitType::World,
        OrbitContent::GasGiant(_) => OrbitType::GasGiant,
        OrbitContent::Belt(_) => OrbitType::Belt,
        OrbitContent::Hostile(_) => OrbitType::Hostile,
        OrbitContent::Rockball(_) => OrbitType::Rockball,
    }
}

/// The one-letter crib symbol of an orbit content.
pub open spec fn spec_orbit_symbol(oc: OrbitContent) -> Seq<char> {
    match oc {
        OrbitContent::Empty(_) => seq!['-'],
        OrbitContent::World(_) => seq!['W'],
        OrbitContent::GasGiant(_) => seq!['G'],
        OrbitContent::Belt(_) => seq!['B'],
        OrbitContent::Hostile(_) => seq!['H'],
        OrbitContent::Rockball(_) => seq!['R'],
    }
}

impl OrbitContent {
    /// The slot number this content sits in.
    pub fn orbit_number(&self) -> (r: u8)
        ensures
            r as int == spec_orbit_number(*self),
    {
        match self {
            OrbitContent::Empty(o) => o.orbit_number,
            OrbitContent::World(o) => o.orbit_number,
            OrbitContent::GasGiant(o) => o.orbit_number,
            OrbitContent::Belt(o) => o.orbit_number,
            OrbitContent::Hostile(o) => o.orbit_number,
            OrbitContent::Rockball(o) => o.orbit_number,
        }
    }

    /// The distance, in milli-AU, this content sits at.
    pub fn au(&self) -> (r: u64)
        ensures
            r as int == spec_orbit_au(*self),
    {
        match self {
            OrbitContent::Empty(o) => o.au,
            OrbitContent::World(o) => o.au,
            OrbitContent::GasGiant(o) => o.au,
            OrbitContent::Belt(o) => o.au,
            OrbitContent::Hostile(o) => o.au,
            OrbitContent::Rockball(o) => o.au,
        }
    }

    /// The kind of this content.
    pub fn orbit_type(&self) -> (r: OrbitType)
        ensures
            r == spec_orbit_type(*self),
    {
        match self {
            OrbitContent::Empty(_) => OrbitType::Empty,
            OrbitContent::World(_) => OrbitType::World,
            OrbitContent::GasGiant(_) => OrbitType::GasGiant,
            OrbitContent::Belt(_) => OrbitType::Belt,
            OrbitContent::Hostile(_) => OrbitType::Hostile,
            OrbitContent::Rockball(_) => OrbitType::Rockball,
        }
    }

    /// The one-letter crib symbol of this content.
    pub fn to_ascii(&self) -> (r: String)
        ensures
            r@ == spec_orbit_symbol(*self),
    {
        match self {
            OrbitContent::Empty(_) => {
                proof { reveal_strlit("-"); assert("-"@ =~= spec_orbit_symbol(*self)); }
                String::from_str("-")
            },
            OrbitContent::World(_) => {
                proof { reveal_strlit("W"); assert("W"@ =~= spec_orbit_symbol(*self)); }
                String::from_str("W")
            },
            OrbitContent::GasGiant(_) => {
                proof { reveal_strlit("G"); assert("G"@ =~= spec_orbit_symbol(*self)); }
                String::from_str("G")
            },
            OrbitContent::Belt(_) => {
                proof { reveal_strlit("B"); assert("B"@ =~= spec_orbit_symbol(*self)); }
                String::from_str("B")
            },
            OrbitContent::Hostile(_) => {
                proof { reveal_strlit("H"); assert("H"@ =~= spec_orbit_symbol(*self)); }
                String::from_str("H")
            },
            OrbitContent::Rockball(_) => {
                proof { reveal_strlit("R"); assert("R"@ =~= spec_orbit_symbol(*self)); }
                String::from_str("R")
            },
        }
    }
}

} // verus!
