use vstd::prelude::*;

use crate::data::{get_planet_names, spec_planet_names};
use crate::orbit::OrbitContent;
use crate::rng::{spec_die, Substrate, roll_1d6, roll_d100};
use crate::star::Star;
use crate::star_builder::{spec_star_end, spec_star_has_world, star_built, star_orbits_built,
    StarBuilder};
use crate::volume::Volume;
use crate::world::{world_like, World};
use vstd::string::StringExecFns;

verus! {

/// The pool index picked for an unsettled system's display name.
pub open spec fn spec_name_idx(s: u64, e: int) -> int {
    (spec_die(s, e, 6) * 100 + spec_die(s, e + 1, 100)) % 20
}

/// A volume as rolled from seed `s` at position `i`: one die decides
/// whether a system exists at all; the system's star follows, and its
/// seated world (if any) is cached up at the volume; a system without a
/// habitable world draws a display name of its own.
pub open spec fn volume_built(v: Volume, s: u64, i: int, row: int, col: int) -> bool {
    &&& v.row as int == row
    &&& v.col as int == col
    &&& (spec_die(s, i, 6) > 4 ==> v.star is None && v.world is None && v.name@ == Seq::<
        char,
    >::empty())
    &&& (spec_die(s, i, 6) <= 4 ==> (v.star matches Some(st) && star_built(st, s, i + 1) && (
    spec_star_has_world(s, i + 1) ==> (v.world matches Some(w) && (exists|k: int|
        0 <= k < st.orbits@.len() && ((#[trigger] st.orbits@[k]) matches OrbitContent::World(wo)
            && world_like(w, wo.world)))) && v.name@ == Seq::<char>::empty()) && (
    !spec_star_has_world(s, i + 1) ==> v.world is None && v.name@ == spec_planet_names()[
        spec_name_idx(s, spec_star_end(s, i + 1))])))
}

/// The substrate position after a whole volume rolled at `i`.
pub open spec fn spec_volume_end(s: u64, i: int) -> int {
    if spec_die(s, i, 6) > 4 {
        i + 1
    } else if spec_star_has_world(s, i + 1) {
        spec_star_end(s, i + 1)
    } else {
        spec_star_end(s, i + 1) + 2
    }
}

/// A volume takes at most 860 draws.
pub proof fn lemma_volume_end_bound(s: u64, i: int)
    ensures
        i < spec_volume_end(s, i) <= i + 860,
{
    if spec_die(s, i, 6) <= 4 {
        crate::star_builder::lemma_star_end_bound(s, i + 1);
    }
}

/// A star whose orbit walk was rolled holds a world-variant slot exactly
/// when the walk's world-seated flag ends true.
proof fn lemma_world_iff_flag(st: Star, s: u64, i: int)
    requires
        star_built(st, s, i),
    ensures
        (exists|k: int| 0 <= k < st.orbits@.len() && (#[trigger] st.orbits@[k])
            is World) <==> spec_star_has_world(s, i),
{
    let j = i + 7;
    let bode = st.bode_constant as int;
    let mass = st.mass as int;
    let lum = st.luminosity as int;
    let num = crate::orbit_builder::spec_num_orbits(s, j, st.star_size, st.star_type);
    let cnt = crate::orbit_builder::spec_emitted(bode, mass, num, 0);

    if exists|k: int| 0 <= k < st.orbits@.len() && (#[trigger] st.orbits@[k])
        is World {
        let k = choose|k: int| 0 <= k < st.orbits@.len() && (#[trigger] st.orbits@[k])
            is World;
        let prev = crate::orbit_builder::spec_slot_state(s, j + 2, bode, mass, lum, k);
        let z = crate::orbit_builder::spec_zone(bode, mass, lum, k);
        assert(crate::orbit_builder::slot_built(st.orbits@[k], s, prev.0, k,
            crate::star::spec_orbit_to_au(bode, k), z, prev.1));
        assert(z == 0 && !prev.1 && crate::rng::spec_roll(s, prev.0, 2, 6) >= 4);
        assert(crate::orbit_builder::spec_slot_state(s, j + 2, bode, mass, lum, k + 1).1);
        crate::orbit_builder::lemma_wf_monotone(s, j + 2, bode, mass, lum, k + 1, cnt);
    }
    if spec_star_has_world(s, i) {
        lemma_flag_world_exists(st, s, j, cnt);
    }
}

/// If the world-seated flag is true when slot `k` is reached, some earlier
/// slot holds the world.
proof fn lemma_flag_world_exists(st: Star, s: u64, j: int, k: int)
    requires
        star_orbits_built(st, s, j),
        0 <= k <= st.orbits@.len(),
        crate::orbit_builder::spec_slot_state(s, j + 2, st.bode_constant as int, st.mass as int,
            st.luminosity as int, k).1,
    ensures
        exists|t: int| 0 <= t < k && (#[trigger] st.orbits@[t]) is World,
    decreases k,
{
    let bode = st.bode_constant as int;
    let mass = st.mass as int;
    let lum = st.luminosity as int;
    if k > 0 {
        let prev = crate::orbit_builder::spec_slot_state(s, j + 2, bode, mass, lum, k - 1);
        if prev.1 {
            lemma_flag_world_exists(st, s, j, k - 1);
        } else {
            let z = crate::orbit_builder::spec_zone(bode, mass, lum, k - 1);
            assert(z == 0 && crate::rng::spec_roll(s, prev.0, 2, 6) >= 4);
            assert(crate::orbit_builder::slot_built(st.orbits@[k - 1], s, prev.0, k - 1,
                crate::star::spec_orbit_to_au(bode, k - 1), z, prev.1));
            assert(st.orbits@[k - 1] is World);
        }
    }
}

/// Builds one spatial cell of the sector grid.
pub struct VolumeBuilder {
    pub row: usize,
    pub col: usize,
}

impl VolumeBuilder {
    /// A builder for the given cell.
    pub fn new(row: usize, col: usize) -> (r: VolumeBuilder)
        ensures
            r.row == row,
            r.col == col,
    {
        VolumeBuilder { row, col }
    }

    /// Roll the cell: a die decides whether a system exists; if so the
    /// star and its orbits are rolled, the seated world (if any) is cached
    /// on the volume, and a system with no habitable world draws a display
    /// name of its own.
    pub fn build(self, rng: &mut Substrate) -> (r: Volume)
        requires
            old(rng).index + 1020 <= u64::MAX,
        ensures
            final(rng).seed == old(rng).seed,
            volume_built(r, old(rng).seed, old(rng).index as int, self.row as int,
                self.col as int),
            final(rng).index as int == spec_volume_end(old(rng).seed, old(rng).index as int),
    {
        let ghost s = rng.seed;
        let ghost i = rng.index as int;
        let mut volume = Volume::new(self.row, self.col);

        let presence = roll_1d6(rng);
        if presence <= 4 {
            let star = StarBuilder::build_primary(rng);
            proof {
                crate::star_builder::lemma_star_end_bound(s, i + 1);
            }

            let mut found: Option<World> = None;
            let mut idx: usize = 0;
            while idx < star.orbits.len() && found.is_none()
                invariant
                    idx <= star.orbits@.len(),
                    found is None ==> forall|t: int| 0 <= t < idx ==> !((
                    #[trigger] star.orbits@[t]) is World),
                    found matches Some(w) ==> exists|t: int| 0 <= t < star.orbits@.len() && ((
                    #[trigger] star.orbits@[t]) matches OrbitContent::World(wo) && world_like(w,
                        wo.world)),
                decreases star.orbits@.len() - idx,
            {
                match &star.orbits[idx] {
                    OrbitContent::World(wo) => {
                        found = Some(wo.world.duplicate());
                    },
                    _ => {},
                }
                idx = idx + 1;
            }
            proof {
                lemma_world_iff_flag(star, s, i + 1);
            }

            let has_world = found.is_some();
            volume.star = Some(star);
            volume.world = found;

            if !has_world {
                let names = get_planet_names();
                let a = roll_1d6(rng) as usize;
                let b = roll_d100(rng) as usize;
                let name_idx = (a * 100 + b) % names.len();
                volume.name = names[name_idx].clone();
                proof {
                    assert(volume.name@ == spec_planet_names()[spec_name_idx(s, spec_star_end(s,
                        i + 1))]);
                }
            }
        }
        volume
    }
}

} // verus!
