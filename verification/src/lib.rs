use vstd::prelude::*;

pub mod codec;
pub mod data;
pub mod error;
pub mod laws;
pub mod orbit;
pub mod orbit_builder;
pub mod rng;
pub mod sector;
pub mod sector_builder;
pub mod star;
pub mod star_builder;
pub mod tables;
pub mod trade_codes;
pub mod volume;
pub mod volume_builder;
pub mod world;
pub mod world_builder;

pub use codec::{crawford_to_seed, generate_crawford_seed, init_rng, string_to_crawford};
pub use error::AstromapperError;
pub use orbit::{Belt, EmptyOrbit, GasGiant, GiantSize, Hostile, Moon, OrbitContent, OrbitType, Rockball, WorldOrbit};
pub use orbit_builder::OrbitBuilder;
pub use rng::Substrate;
pub use sector::Sector;
pub use sector_builder::SectorBuilder;
pub use star::{Star, StarSize, StarType};
pub use star_builder::StarBuilder;
pub use trade_codes::TradeCode;
pub use volume::Volume;
pub use volume_builder::VolumeBuilder;
pub use world::{Base, Temperature, World};
pub use world_builder::WorldBuilder;

use crate::codec::seed_of_string;
use crate::sector_builder::sector_built;
use crate::volume_builder::volume_built;

verus! {

/// Generate a whole sector: a 32 by 40 grid, each cell populated with the
/// independent per-mille probability `density`. The seed string is routed
/// through the display-code round trip first, so a seed and its shareable
/// code name the same sector. A density outside 1..=1000 per mille is
/// rejected before any generation.
pub fn generate_sector(name: String, seed: String, density: u32) -> (r: Result<
    Sector,
    AstromapperError,
>)
    ensures
        match r {
            Ok(sec) => {
                &&& 1 <= density <= 1000
                &&& sector_built(sec, seed_of_string(seed@), 0, density as int, name@, 32, 40)
                &&& crate::sector::sector_wf(sec)
            },
            Err(e) => (density < 1 || density > 1000) && e == AstromapperError::InvalidDensity,
        },
{
    if density < 1 || density > 1000 {
        return Err(AstromapperError::InvalidDensity);
    }
    let mut rng = init_rng(seed.as_str());
    let sector = SectorBuilder::new(name, 32, 40, density).build(&mut rng);
    Ok(sector)
}

/// Generate a single volume at the given cell, from the same seed routing
/// as a whole sector.
pub fn generate_volume(seed: String, row: usize, col: usize) -> (r: Result<
    Volume,
    AstromapperError,
>)
    ensures
        r matches Ok(v) && volume_built(v, seed_of_string(seed@), 0, row as int, col as int),
{
    let mut rng = init_rng(seed.as_str());
    let volume = VolumeBuilder::new(row, col).build(&mut rng);
    Ok(volume)
}

} // verus!
