use vstd::prelude::*;

use crate::orbit::OrbitContent;
use crate::star::Star;
use crate::world::{pad2_str, spec_coords, world_like, World};
use vstd::string::StringExecFns;

verus! {

/// One spatial cell: its coordinates, an optional star system, a cached
/// copy of the system's seated habitable world (if any), and a display
/// name. A volume with a star but no world is a system with no habitable
/// world, distinct from an entirely empty volume.
#[derive(Debug, PartialEq)]
pub struct Volume {
    pub row: usize,
    pub col: usize,
    pub world: Option<World>,
    pub star: Option<Star>,
    pub name: String,
}

/// Two orbit contents with the same content, compared as values.
pub open spec fn orbit_like(a: OrbitContent, b: OrbitContent) -> bool {
    match (a, b) {
        (OrbitContent::Empty(x), OrbitContent::Empty(y)) => x == y,
        (OrbitContent::World(x), OrbitContent::World(y)) => x.orbit_number == y.orbit_number
            && x.au == y.au && world_like(x.world, y.world),
        (OrbitContent::GasGiant(x), OrbitContent::GasGiant(y)) => x.orbit_number
            == y.orbit_number && x.au == y.au && x.size == y.size && x.moons@ == y.moons@,
        (OrbitContent::Belt(x), OrbitContent::Belt(y)) => x == y,
        (OrbitContent::Hostile(x), OrbitContent::Hostile(y)) => x == y,
        (OrbitContent::Rockball(x), OrbitContent::Rockball(y)) => x == y,
        _ => false,
    }
}

/// Two stars with the same content: every quantity equal and the orbit
/// sequences equal slot for slot.
pub open spec fn star_like(a: Star, b: Star) -> bool {
    &&& a.star_type == b.star_type
    &&& a.star_size == b.star_size
    &&& a.spectral@ == b.spectral@
    &&& a.is_primary == b.is_primary
    &&& a.orbit_number == b.orbit_number
    &&& a.companions@.len() == 0 && b.companions@.len() == 0
    &&& a.orbits@.len() == b.orbits@.len()
    &&& forall|k: int| 0 <= k < a.orbits@.len() ==> orbit_like(#[trigger] a.orbits@[k],
        b.orbits@[k])
    &&& a.mass == b.mass
    &&& a.luminosity == b.luminosity
    &&& a.temperature == b.temperature
    &&& a.bode_constant == b.bode_constant
}

/// Two volumes with the same content.
pub open spec fn volume_like(a: Volume, b: Volume) -> bool {
    &&& a.row == b.row
    &&& a.col == b.col
    &&& (match (a.world, b.world) {
        (Some(x), Some(y)) => world_like(x, y),
        (None, None) => true,
        _ => false,
    })
    &&& (match (a.star, b.star) {
        (Some(x), Some(y)) => star_like(x, y),
        (None, None) => true,
        _ => false,
    })
    &&& a.name@ == b.name@
}

impl Volume {
    /// An empty volume at the given cell.
    pub fn new(row: usize, col: usize) -> (r: Volume)
        ensures
            r.row == row,
            r.col == col,
            r.world is None,
            r.star is None,
            r.name@ =~= Seq::<char>::empty(),
    {
        Volume { row, col, world: None, star: None, name: String::new() }
    }

    /// Whether the volume holds no habitable world.
    pub fn is_empty(&self) -> (r: bool)
        ensures
            r == (self.world is None),
    {
        self.world.is_none()
    }

    /// The volume's coordinate label.
    pub fn coords(&self) -> (r: String)
        requires
            self.row < usize::MAX,
            self.col < usize::MAX,
        ensures
            r@ == spec_coords(self.row as int, self.col as int),
    {
        let mut r = pad2_str(self.col + 1);
        let rr = pad2_str(self.row + 1);
        r.append(rr.as_str());
        r
    }
}

} // verus!
