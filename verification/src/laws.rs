use vstd::prelude::*;

use crate::orbit::{spec_orbit_au, OrbitContent};
use crate::orbit_builder::{lemma_wf_monotone, slot_built, spec_emitted, spec_num_orbits,
    spec_slot_state, spec_zone};
use crate::sector::{sector_like, Sector};
use crate::sector_builder::{cell_built, sector_built, spec_grid_j};
use crate::star::{lemma_orbit_au_increases, spec_orbit_to_au, star_quantities_bounded, Star};
use crate::star_builder::{star_built, star_orbits_built};
use crate::volume::{orbit_like, star_like, volume_like, Volume};
use crate::volume_builder::volume_built;
use crate::world::{lemma_uwp_shape, world_like, World};
use crate::world_builder::{world_built, spec_w_hyd, spec_w_atm};

verus! {

// The laws below state the guarantees of the whole pipeline over the
// builders' contracts: what holds of every world, every star and every
// sector that generation can produce.

/// Every generated world's profile string is nine characters long, with
/// the dash right before the final (tech level) digit.
pub proof fn lemma_world_uwp_shape(w: World, s: u64, i: int, row: int, col: int,
    names: Seq<Seq<char>>)
    requires
        world_built(w, s, i, row, col, names),
    ensures
        w.uwp@.len() == 9,
        w.uwp@[7] == '-',
        w.uwp@[0] == w.starport,
{
    lemma_uwp_shape(w.starport, w.size, w.atmosphere, w.hydrographics, w.population,
        w.government, w.law_level, w.tech_level);
}

/// Dependent-table consistency: every generated world has no surface
/// water under an extreme atmosphere, and an unpopulated world has
/// neither government nor law level.
pub proof fn lemma_dependent_tables(w: World, s: u64, i: int, row: int, col: int,
    names: Seq<Seq<char>>)
    requires
        world_built(w, s, i, row, col, names),
    ensures
        w.atmosphere <= 1 || w.atmosphere >= 10 ==> w.hydrographics == 0,
        w.population == 0 ==> w.government == 0 && w.law_level == 0,
{
    crate::rng::lemma_roll_bounds(s, i + 6, 2, 6);
    assert(w.hydrographics as int == spec_w_hyd(s, i));
}

/// Determinism at the world level: two worlds rolled from the same seed,
/// position, cell and name pool carry the same content, field for field.
pub proof fn lemma_world_determinism(a: World, b: World, s: u64, i: int, row: int, col: int,
    names: Seq<Seq<char>>)
    requires
        world_built(a, s, i, row, col, names),
        world_built(b, s, i, row, col, names),
    ensures
        world_like(a, b),
{
}

/// Determinism at the slot level: two orbit slots rolled from the same
/// seed, position, zone and world-seated flag hold the same content.
pub proof fn lemma_slot_determinism(a: OrbitContent, b: OrbitContent, s: u64, j: int, k: int,
    au: int, z: int, wf: bool)
    requires
        slot_built(a, s, j, k, au, z, wf),
        slot_built(b, s, j, k, au, z, wf),
    ensures
        orbit_like(a, b),
{
    if z == 0 && !wf && crate::rng::spec_roll(s, j, 2, 6) >= 4 {
        lemma_world_determinism(a->World_0.world, b->World_0.world, s, j + 2, 0, 0,
            crate::data::spec_planet_names());
    }
}

/// Determinism at the star level: two stars rolled from the same seed and
/// position agree on every quantity and on every orbit slot.
pub proof fn lemma_star_determinism(a: Star, b: Star, s: u64, i: int)
    requires
        star_built(a, s, i),
        star_built(b, s, i),
    ensures
        star_like(a, b),
{
    let j = i + 7;
    let bode = a.bode_constant as int;
    let mass = a.mass as int;
    let lum = a.luminosity as int;
    assert forall|k: int| 0 <= k < a.orbits@.len() implies orbit_like(#[trigger] a.orbits@[k],
        b.orbits@[k]) by {
        lemma_slot_determinism(a.orbits@[k], b.orbits@[k], s, spec_slot_state(s, j + 2, bode,
            mass, lum, k).0, k, spec_orbit_to_au(bode, k), spec_zone(bode, mass, lum, k),
            spec_slot_state(s, j + 2, bode, mass, lum, k).1);
    }
}

/// Single world per star: a star's orbit walk never seats two habitable
/// worlds — the count of world slots is zero or one, never more.
pub proof fn lemma_single_world(st: Star, s: u64, j: int)
    requires
        star_orbits_built(st, s, j),
    ensures
        forall|k1: int, k2: int| 0 <= k1 < k2 < st.orbits@.len() ==> !((
        #[trigger] st.orbits@[k1]) is World && (#[trigger] st.orbits@[k2]) is World),
{
    let bode = st.bode_constant as int;
    let mass = st.mass as int;
    let lum = st.luminosity as int;
    assert forall|k1: int, k2: int| 0 <= k1 < k2 < st.orbits@.len() implies !((
    #[trigger] st.orbits@[k1]) is World && (#[trigger] st.orbits@[k2]) is World) by {
        if st.orbits@[k1] is World && st.orbits@[k2] is World {
            let p1 = spec_slot_state(s, j + 2, bode, mass, lum, k1);
            assert(slot_built(st.orbits@[k1], s, p1.0, k1, spec_orbit_to_au(bode, k1),
                spec_zone(bode, mass, lum, k1), p1.1));
            assert(spec_slot_state(s, j + 2, bode, mass, lum, k1 + 1).1);
            lemma_wf_monotone(s, j + 2, bode, mass, lum, k1 + 1, k2);
            let p2 = spec_slot_state(s, j + 2, bode, mass, lum, k2);
            assert(slot_built(st.orbits@[k2], s, p2.0, k2, spec_orbit_to_au(bode, k2),
                spec_zone(bode, mass, lum, k2), p2.1));
            assert(false);
        }
    }
}

/// Every slot of the walk before the emitted count sits at or inside the
/// outer limit.
proof fn lemma_emitted_prefix(bode: int, mass: int, num: int, k: int)
    requires
        0 <= k <= num,
    ensures
        forall|t: int| k <= t < spec_emitted(bode, mass, num, k) ==> spec_orbit_to_au(bode, t)
            <= crate::star::spec_outer_limit(mass),
    decreases num - k,
{
    if !(k >= num || spec_orbit_to_au(bode, k) > crate::star::spec_outer_limit(mass)) {
        lemma_emitted_prefix(bode, mass, num, k + 1);
    }
}

/// Every slot's content carries the slot's own distance and number.
proof fn lemma_slot_au(oc: OrbitContent, s: u64, j: int, k: int, au: int, z: int, wf: bool)
    requires
        slot_built(oc, s, j, k, au, z, wf),
        0 <= au <= u64::MAX,
        0 <= k <= 255,
    ensures
        spec_orbit_au(oc) == au,
        crate::orbit::spec_orbit_number(oc) == k,
{
}

/// Orbit monotonicity: within one generated star the populated slots'
/// distances are strictly increasing with their index.
pub proof fn lemma_orbit_sequence_increasing(st: Star, s: u64, j: int)
    requires
        star_orbits_built(st, s, j),
        star_quantities_bounded(st),
    ensures
        forall|k1: int, k2: int| 0 <= k1 < k2 < st.orbits@.len() ==> spec_orbit_au(
            #[trigger] st.orbits@[k1]) < spec_orbit_au(#[trigger] st.orbits@[k2]),
{
    let bode = st.bode_constant as int;
    let mass = st.mass as int;
    let lum = st.luminosity as int;
    let num = spec_num_orbits(s, j, st.star_size, st.star_type);
    let cnt = spec_emitted(bode, mass, num, 0);
    crate::rng::lemma_roll_bounds(s, j, 2, 6);
    crate::orbit_builder::lemma_emitted_bounds(bode, mass, num, 0);
    lemma_emitted_prefix(bode, mass, num, 0);
    assert forall|k: int| 0 <= k < st.orbits@.len() implies spec_orbit_au(
        #[trigger] st.orbits@[k]) == spec_orbit_to_au(bode, k) by {
        assert(spec_orbit_to_au(bode, k) <= 400 * mass);
        lemma_slot_au(st.orbits@[k], s, spec_slot_state(s, j + 2, bode, mass, lum, k).0, k,
            spec_orbit_to_au(bode, k), spec_zone(bode, mass, lum, k), spec_slot_state(s, j + 2,
            bode, mass, lum, k).1);
    }
    assert forall|k1: int, k2: int| 0 <= k1 < k2 < st.orbits@.len() implies spec_orbit_au(
        #[trigger] st.orbits@[k1]) < spec_orbit_au(#[trigger] st.orbits@[k2]) by {
        lemma_orbit_au_increases(bode, k1, k2);
    }
}

/// Determinism at the volume level: two volumes rolled from the same seed
/// and position hold the same content.
pub proof fn lemma_volume_determinism(a: Volume, b: Volume, s: u64, i: int, row: int, col: int)
    requires
        volume_built(a, s, i, row, col),
        volume_built(b, s, i, row, col),
    ensures
        volume_like(a, b),
{
    if crate::rng::spec_die(s, i, 6) <= 4 {
        let ast = a.star->0;
        let bst = b.star->0;
        lemma_star_determinism(ast, bst, s, i + 1);
        if crate::star_builder::spec_star_has_world(s, i + 1) {
            let aw = a.world->0;
            let bw = b.world->0;
            let k1 = choose|k: int| 0 <= k < ast.orbits@.len() && ((#[trigger] ast.orbits@[k])
                matches OrbitContent::World(wo) && world_like(aw, wo.world));
            let k2 = choose|k: int| 0 <= k < bst.orbits@.len() && ((#[trigger] bst.orbits@[k])
                matches OrbitContent::World(wo) && world_like(bw, wo.world));
            assert(orbit_like(ast.orbits@[k1], bst.orbits@[k1]));
            assert(orbit_like(ast.orbits@[k2], bst.orbits@[k2]));
            if k1 != k2 {
                assert(ast.orbits@[k2] is World);
                lemma_single_world(ast, s, i + 1 + 7);
                assert(false);
            }
            assert(world_like(aw, bw));
        }
    }
}

/// Determinism, the headline law: two sectors generated from the same
/// seed, name, size and density are structurally identical — the same
/// populated cells, the same field values, the same orbit sequences.
pub proof fn lemma_sector_determinism(a: Sector, b: Sector, s: u64, i: int, density: int,
    name: Seq<char>, w: int, h: int)
    requires
        sector_built(a, s, i, density, name, w, h),
        sector_built(b, s, i, density, name, w, h),
    ensures
        sector_like(a, b),
{
    assert forall|r: int, c: int| 0 <= r < a.volumes@.len() && 0 <= c < a.volumes@[r]@.len()
        implies (match (#[trigger] a.volumes@[r]@[c], b.volumes@[r]@[c]) {
        (Some(x), Some(y)) => volume_like(x, y),
        (None, None) => true,
        _ => false,
    }) by {
        assert(cell_built(a.volumes@[r]@[c], s, spec_grid_j(s, i, density, r * w + c), density,
            r, c));
        assert(cell_built(b.volumes@[r]@[c], s, spec_grid_j(s, i, density, r * w + c), density,
            r, c));
        if crate::rng::spec_permille(s, spec_grid_j(s, i, density, r * w + c)) < density {
            lemma_volume_determinism(a.volumes@[r]@[c]->0, b.volumes@[r]@[c]->0, s, spec_grid_j(
                s, i, density, r * w + c) + 1, r, c);
        }
    }
}

/// The statistic-block invariants, stated for the world a generated
/// volume caches: the profile shape and the dependent-table consistency
/// hold of every world a volume can carry.
pub proof fn lemma_volume_world_invariants(v: Volume, s: u64, i: int, row: int, col: int)
    requires
        volume_built(v, s, i, row, col),
    ensures
        v.world matches Some(wd) ==> {
            &&& wd.uwp@.len() == 9
            &&& wd.uwp@[7] == '-'
            &&& (wd.atmosphere <= 1 || wd.atmosphere >= 10 ==> wd.hydrographics == 0)
            &&& (wd.population == 0 ==> wd.government == 0 && wd.law_level == 0)
        },
{
    if v.world is Some {
        let wd = v.world->0;
        let st = v.star->0;
        let k = choose|k: int| 0 <= k < st.orbits@.len() && ((#[trigger] st.orbits@[k]) matches
            OrbitContent::World(wo) && world_like(wd, wo.world));
        let j = i + 1 + 7;
        let bode = st.bode_constant as int;
        let mass = st.mass as int;
        let lum = st.luminosity as int;
        let prev = spec_slot_state(s, j + 2, bode, mass, lum, k);
        assert(slot_built(st.orbits@[k], s, prev.0, k, spec_orbit_to_au(bode, k), spec_zone(
            bode, mass, lum, k), prev.1));
        let wo = st.orbits@[k]->World_0;
        assert(world_built(wo.world, s, prev.0 + 2, 0, 0, crate::data::spec_planet_names()));
        lemma_world_uwp_shape(wo.world, s, prev.0 + 2, 0, 0, crate::data::spec_planet_names());
        lemma_dependent_tables(wo.world, s, prev.0 + 2, 0, 0, crate::data::spec_planet_names());
    }
}

/// The same invariants, lifted to every world anywhere in a generated
/// sector.
pub proof fn lemma_sector_world_invariants(sec: Sector, s: u64, i: int, density: int,
    name: Seq<char>, w: int, h: int)
    requires
        sector_built(sec, s, i, density, name, w, h),
    ensures
        forall|r: int, c: int| 0 <= r < h && 0 <= c < w ==> (match (
        #[trigger] sec.volumes@[r]@[c]) {
            Some(v) => match v.world {
                Some(wd) => wd.uwp@.len() == 9 && wd.uwp@[7] == '-' && (wd.atmosphere <= 1
                    || wd.atmosphere >= 10 ==> wd.hydrographics == 0) && (wd.population == 0
                    ==> wd.government == 0 && wd.law_level == 0),
                None => true,
            },
            None => true,
        }),
{
    assert forall|r: int, c: int| 0 <= r < h && 0 <= c < w implies (match (
    #[trigger] sec.volumes@[r]@[c]) {
        Some(v) => match v.world {
            Some(wd) => wd.uwp@.len() == 9 && wd.uwp@[7] == '-' && (wd.atmosphere <= 1
                || wd.atmosphere >= 10 ==> wd.hydrographics == 0) && (wd.population == 0
                ==> wd.government == 0 && wd.law_level == 0),
            None => true,
        },
        None => true,
    }) by {
        assert(cell_built(sec.volumes@[r]@[c], s, spec_grid_j(s, i, density, r * w + c),
            density, r, c));
        if sec.volumes@[r]@[c] is Some {
            lemma_volume_world_invariants(sec.volumes@[r]@[c]->0, s, spec_grid_j(s, i, density,
                r * w + c) + 1, r, c);
        }
    }
}

} // verus!
