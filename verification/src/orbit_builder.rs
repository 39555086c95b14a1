use vstd::prelude::*;

use crate::data::{get_planet_names, spec_planet_names};
use crate::orbit::{Belt, EmptyOrbit, GasGiant, GiantSize, Hostile, Moon, OrbitContent, Rockball,
    WorldOrbit};
use crate::rng::{spec_die, spec_roll, Substrate, roll_1d6, roll_2d6};
use crate::star::{spec_bio_inner, spec_bio_outer, spec_inner_limit, spec_orbit_to_au,
    spec_outer_limit, Star, StarSize, StarType};
use crate::world_builder::{cap, max0, spec_w_end, world_built, WorldBuilder};

verus! {

// Orbit slots are walked outward from slot zero; each slot's content is a
// function of the substrate seed and the draw position the slot starts at,
// exactly as for worlds. The `spec_*` functions below pin each table and
// each slot's draw consumption.

/// The moon orbital-distance table for close orbits.
pub open spec fn spec_close_table() -> Seq<u8> {
    seq![1u8, 2, 3, 4, 5, 6, 7, 8, 9, 10, 11, 12, 13, 14]
}

/// The moon orbital-distance table for rings and small moons.
pub open spec fn spec_ring_table() -> Seq<u8> {
    seq![1u8, 1, 1, 2, 2, 3]
}

/// The far table: the close distances five-fold.
pub open spec fn spec_far_table() -> Seq<u8> {
    seq![5u8, 10, 15, 20, 25, 30, 35, 40, 45, 50, 55, 60, 65, 70]
}

/// The extreme table: the close distances twenty-five-fold, saturated at
/// the byte ceiling.
pub open spec fn spec_extreme_table() -> Seq<u8> {
    seq![25u8, 50, 75, 100, 125, 150, 175, 200, 225, 250, 255, 255, 255, 255]
}

fn close_table() -> (r: Vec<u8>)
    ensures
        r@ == spec_close_table(),
{
    let r: Vec<u8> = vec![1, 2, 3, 4, 5, 6, 7, 8, 9, 10, 11, 12, 13, 14];
    proof {
        assert(r@ =~= spec_close_table());
    }
    r
}

fn ring_table() -> (r: Vec<u8>)
    ensures
        r@ == spec_ring_table(),
{
    let r: Vec<u8> = vec![1, 1, 1, 2, 2, 3];
    proof {
        assert(r@ =~= spec_ring_table());
    }
    r
}

fn far_table() -> (r: Vec<u8>)
    ensures
        r@ == spec_far_table(),
{
    let r: Vec<u8> = vec![5, 10, 15, 20, 25, 30, 35, 40, 45, 50, 55, 60, 65, 70];
    proof {
        assert(r@ =~= spec_far_table());
    }
    r
}

fn extreme_table() -> (r: Vec<u8>)
    ensures
        r@ == spec_extreme_table(),
{
    let r: Vec<u8> = vec![25, 50, 75, 100, 125, 150, 175, 200, 225, 250, 255, 255, 255, 255];
    proof {
        assert(r@ =~= spec_extreme_table());
    }
    r
}

/// The moon rolled at draw position `j` for moon slot `m`: a size die,
/// a two-dice orbit roll, then a radius from the table the two select.
pub open spec fn spec_moon(s: u64, j: int, m: int) -> Moon {
    let msize = max0(spec_die(s, j, 6) - 3);
    let oroll = spec_roll(s, j + 1, 2, 6) + m;
    let radius = if msize < 1 {
        spec_ring_table()[spec_die(s, j + 3, 6) - 1]
    } else if oroll == 12 {
        spec_extreme_table()[spec_roll(s, j + 3, 2, 6)]
    } else if oroll < 8 {
        spec_close_table()[spec_roll(s, j + 3, 2, 6)]
    } else {
        spec_far_table()[spec_roll(s, j + 3, 2, 6)]
    };
    Moon { orbit: m as u8, orbital_radius: radius, size: msize as u8 }
}

/// How many draws the moon at position `j` consumes: four on the ring
/// table (one die), five elsewhere (two dice).
pub open spec fn spec_moon_draws(s: u64, j: int) -> int {
    if max0(spec_die(s, j, 6) - 3) < 1 { 4 } else { 5 }
}

/// The moons from slot `m` up to `num`, each starting where the one
/// before it stopped.
pub open spec fn spec_moons_seq(s: u64, j: int, m: int, num: int) -> Seq<Moon>
    decreases num - m,
{
    if m >= num {
        seq![]
    } else {
        seq![spec_moon(s, j, m)] + spec_moons_seq(s, j + spec_moon_draws(s, j), m + 1, num)
    }
}

/// The draw position after the moons from slot `m` up to `num`.
pub open spec fn spec_moons_end(s: u64, j: int, m: int, num: int) -> int
    decreases num - m,
{
    if m >= num {
        j
    } else {
        spec_moons_end(s, j + spec_moon_draws(s, j), m + 1, num)
    }
}

/// The moon walk advances by at most five draws per moon.
proof fn lemma_moons_end_bound(s: u64, j: int, m: int, num: int)
    requires
        m <= num,
    ensures
        j <= spec_moons_end(s, j, m, num) <= j + 5 * (num - m),
    decreases num - m,
{
    if m < num {
        lemma_moons_end_bound(s, j + spec_moon_draws(s, j), m + 1, num);
    }
}

/// Roll a gas giant's moons: one die for the count, then each moon's size,
/// orbit roll and table-drawn radius.
fn generate_moons(rng: &mut Substrate) -> (r: Vec<Moon>)
    requires
        old(rng).index + 31 <= u64::MAX,
    ensures
        final(rng).seed == old(rng).seed,
        r@ == spec_moons_seq(old(rng).seed, old(rng).index as int + 1, 0, spec_die(old(rng).seed,
            old(rng).index as int, 6)),
        final(rng).index as int == spec_moons_end(old(rng).seed, old(rng).index as int + 1, 0,
            spec_die(old(rng).seed, old(rng).index as int, 6)),
        old(rng).index < final(rng).index <= old(rng).index + 31,
{
    let ghost s = rng.seed;
    let ghost i = rng.index as int;
    let num_moons = roll_1d6(rng);
    let ghost j1 = i + 1;
    let ghost num = num_moons as int;

    let mut moons: Vec<Moon> = Vec::new();
    let mut m: u32 = 0;
    proof {
        lemma_moons_end_bound(s, j1, 0, num);
    }
    while m < num_moons
        invariant
            rng.seed == s,
            num == num_moons as int,
            1 <= num <= 6,
            m <= num_moons,
            j1 + 30 <= u64::MAX,
            j1 <= rng.index as int <= j1 + 5 * m,
            moons@ + spec_moons_seq(s, rng.index as int, m as int, num) == spec_moons_seq(s, j1,
                0, num),
            spec_moons_end(s, rng.index as int, m as int, num) == spec_moons_end(s, j1, 0, num),
        decreases num_moons - m,
    {
        let ghost jm = rng.index as int;
        let ghost moons_before = moons@;
        let size_roll = roll_1d6(rng);
        let msize: u8 = if size_roll < 4 {
            0
        } else {
            (size_roll - 3) as u8
        };
        let orbit_roll = roll_2d6(rng) + m;
        let orbital_radius: u8;
        if msize < 1 {
            let t = ring_table();
            let d = roll_1d6(rng);
            orbital_radius = t[(d - 1) as usize];
        } else if orbit_roll == 12 {
            let t = extreme_table();
            let d = roll_2d6(rng);
            orbital_radius = t[d as usize];
        } else if orbit_roll < 8 {
            let t = close_table();
            let d = roll_2d6(rng);
            orbital_radius = t[d as usize];
        } else {
            let t = far_table();
            let d = roll_2d6(rng);
            orbital_radius = t[d as usize];
        }
        let mn = Moon { orbit: m as u8, orbital_radius, size: msize };
        moons.push(mn);
        proof {
            assert(mn == spec_moon(s, jm, m as int));
            assert(rng.index as int == jm + spec_moon_draws(s, jm));
            assert(spec_moons_seq(s, jm, m as int, num) == seq![spec_moon(s, jm, m as int)]
                + spec_moons_seq(s, rng.index as int, m as int + 1, num));
            assert(moons@ + spec_moons_seq(s, rng.index as int, m as int + 1, num) =~= (
            moons_before + spec_moons_seq(s, jm, m as int, num)));
        }
        m = m + 1;
    }
    moons
}

/// The content of an inner-zone slot rolled at position `j`: rockballs,
/// hostile worlds with elevated corrosive atmospheres, belts, or a small
/// gas giant.
pub open spec fn inner_built(oc: OrbitContent, s: u64, j: int, n: int, au: int) -> bool {
    let roll = spec_roll(s, j, 2, 6);
    if roll <= 4 {
        oc == OrbitContent::Empty(EmptyOrbit { orbit_number: n as u8, au: au as u64 })
    } else if roll <= 6 {
        oc == OrbitContent::Rockball(Rockball { orbit_number: n as u8, au: au as u64 })
    } else if roll <= 9 {
        oc == OrbitContent::Hostile(Hostile {
            orbit_number: n as u8,
            au: au as u64,
            atmosphere: cap(spec_die(s, j + 2, 6) + 9, 15) as u8,
            hydrographics: max0(spec_die(s, j + 3, 6) - 1) as u8,
        })
    } else if roll <= 11 {
        oc == OrbitContent::Belt(Belt { orbit_number: n as u8, au: au as u64 })
    } else {
        oc matches OrbitContent::GasGiant(g) && g.orbit_number == n as u8 && g.au == au as u64
            && g.size == GiantSize::Small && g.moons@ == spec_moons_seq(s, j + 3, 0, spec_die(s,
            j + 2, 6))
    }
}

/// The draw position after an inner-zone slot rolled at `j`.
pub open spec fn spec_inner_end(s: u64, j: int) -> int {
    let roll = spec_roll(s, j, 2, 6);
    if roll <= 6 {
        j + 2
    } else if roll <= 9 {
        j + 4
    } else if roll <= 11 {
        j + 2
    } else {
        spec_moons_end(s, j + 3, 0, spec_die(s, j + 2, 6))
    }
}

/// The content of an outer-zone slot rolled at `j`: belts, rockballs,
/// frozen hostile worlds with no surface water, or gas giants of either
/// size.
pub open spec fn outer_built(oc: OrbitContent, s: u64, j: int, n: int, au: int) -> bool {
    let roll = spec_roll(s, j, 2, 6);
    if roll <= 3 {
        oc == OrbitContent::Empty(EmptyOrbit { orbit_number: n as u8, au: au as u64 })
    } else if roll <= 5 {
        oc == OrbitContent::Belt(Belt { orbit_number: n as u8, au: au as u64 })
    } else if roll <= 7 {
        oc == OrbitContent::Rockball(Rockball { orbit_number: n as u8, au: au as u64 })
    } else if roll <= 9 {
        oc == OrbitContent::Hostile(Hostile {
            orbit_number: n as u8,
            au: au as u64,
            atmosphere: max0(spec_die(s, j + 2, 6) - 1) as u8,
            hydrographics: 0,
        })
    } else if roll <= 10 {
        oc matches OrbitContent::GasGiant(g) && g.orbit_number == n as u8 && g.au == au as u64
            && g.size == GiantSize::Small && g.moons@ == spec_moons_seq(s, j + 3, 0, spec_die(s,
            j + 2, 6))
    } else {
        oc matches OrbitContent::GasGiant(g) && g.orbit_number == n as u8 && g.au == au as u64
            && g.size == GiantSize::Large && g.moons@ == spec_moons_seq(s, j + 3, 0, spec_die(s,
            j + 2, 6))
    }
}

/// The draw position after an outer-zone slot rolled at `j`.
pub open spec fn spec_outer_end(s: u64, j: int) -> int {
    let roll = spec_roll(s, j, 2, 6);
    if roll <= 7 {
        j + 2
    } else if roll <= 9 {
        j + 3
    } else {
        spec_moons_end(s, j + 3, 0, spec_die(s, j + 2, 6))
    }
}

/// The content of a biozone slot that does not seat a world, rolled at
/// `j`.
pub open spec fn nw_built(oc: OrbitContent, s: u64, j: int, n: int, au: int) -> bool {
    let roll = spec_roll(s, j, 2, 6);
    if roll <= 4 {
        oc == OrbitContent::Empty(EmptyOrbit { orbit_number: n as u8, au: au as u64 })
    } else if roll <= 6 {
        oc == OrbitContent::Belt(Belt { orbit_number: n as u8, au: au as u64 })
    } else if roll <= 8 {
        oc == OrbitContent::Rockball(Rockball { orbit_number: n as u8, au: au as u64 })
    } else {
        oc matches OrbitContent::GasGiant(g) && g.orbit_number == n as u8 && g.au == au as u64
            && g.size == (if spec_die(s, j + 2, 6) >= 4 { GiantSize::Large } else {
            GiantSize::Small
        }) && g.moons@ == spec_moons_seq(s, j + 4, 0, spec_die(s, j + 3, 6))
    }
}

/// The draw position after a non-world biozone slot rolled at `j`.
pub open spec fn spec_nw_end(s: u64, j: int) -> int {
    let roll = spec_roll(s, j, 2, 6);
    if roll <= 8 {
        j + 2
    } else {
        spec_moons_end(s, j + 4, 0, spec_die(s, j + 3, 6))
    }
}

/// Roll an inner-zone slot.
fn generate_inner_orbit(orbit_num: u8, au: u64, rng: &mut Substrate) -> (r: OrbitContent)
    requires
        old(rng).index + 36 <= u64::MAX,
    ensures
        final(rng).seed == old(rng).seed,
        inner_built(r, old(rng).seed, old(rng).index as int, orbit_num as int, au as int),
        final(rng).index as int == spec_inner_end(old(rng).seed, old(rng).index as int),
        old(rng).index < final(rng).index <= old(rng).index + 36,
{
    let ghost s = rng.seed;
    let ghost j = rng.index as int;
    let roll = roll_2d6(rng);
    if roll <= 4 {
        OrbitContent::Empty(EmptyOrbit { orbit_number: orbit_num, au })
    } else if roll <= 6 {
        OrbitContent::Rockball(Rockball { orbit_number: orbit_num, au })
    } else if roll <= 9 {
        let a = roll_1d6(rng) + 9;
        let a = if a > 15 {
            15
        } else {
            a
        };
        let h = roll_1d6(rng) - 1;
        OrbitContent::Hostile(Hostile {
            orbit_number: orbit_num,
            au,
            atmosphere: a as u8,
            hydrographics: h as u8,
        })
    } else if roll <= 11 {
        OrbitContent::Belt(Belt { orbit_number: orbit_num, au })
    } else {
        let moons = generate_moons(rng);
        OrbitContent::GasGiant(GasGiant {
            orbit_number: orbit_num,
            au,
            size: GiantSize::Small,
            moons,
        })
    }
}

/// Roll an outer-zone slot.
fn generate_outer_orbit(orbit_num: u8, au: u64, rng: &mut Substrate) -> (r: OrbitContent)
    requires
        old(rng).index + 36 <= u64::MAX,
    ensures
        final(rng).seed == old(rng).seed,
        outer_built(r, old(rng).seed, old(rng).index as int, orbit_num as int, au as int),
        final(rng).index as int == spec_outer_end(old(rng).seed, old(rng).index as int),
        old(rng).index < final(rng).index <= old(rng).index + 36,
{
    let ghost s = rng.seed;
    let ghost j = rng.index as int;
    let roll = roll_2d6(rng);
    if roll <= 3 {
        OrbitContent::Empty(EmptyOrbit { orbit_number: orbit_num, au })
    } else if roll <= 5 {
        OrbitContent::Belt(Belt { orbit_number: orbit_num, au })
    } else if roll <= 7 {
        OrbitContent::Rockball(Rockball { orbit_number: orbit_num, au })
    } else if roll <= 9 {
        let a = roll_1d6(rng) - 1;
        OrbitContent::Hostile(Hostile {
            orbit_number: orbit_num,
            au,
            atmosphere: a as u8,
            hydrographics: 0,
        })
    } else if roll <= 10 {
        let moons = generate_moons(rng);
        OrbitContent::GasGiant(GasGiant {
            orbit_number: orbit_num,
            au,
            size: GiantSize::Small,
            moons,
        })
    } else {
        let moons = generate_moons(rng);
        OrbitContent::GasGiant(GasGiant {
            orbit_number: orbit_num,
            au,
            size: GiantSize::Large,
            moons,
        })
    }
}

/// Roll a biozone slot that does not seat a world.
fn generate_non_world_orbit(orbit_num: u8, au: u64, rng: &mut Substrate) -> (r: OrbitContent)
    requires
        old(rng).index + 37 <= u64::MAX,
    ensures
        final(rng).seed == old(rng).seed,
        nw_built(r, old(rng).seed, old(rng).index as int, orbit_num as int, au as int),
        final(rng).index as int == spec_nw_end(old(rng).seed, old(rng).index as int),
        old(rng).index < final(rng).index <= old(rng).index + 37,
{
    let ghost s = rng.seed;
    let ghost j = rng.index as int;
    let roll = roll_2d6(rng);
    if roll <= 4 {
        OrbitContent::Empty(EmptyOrbit { orbit_number: orbit_num, au })
    } else if roll <= 6 {
        OrbitContent::Belt(Belt { orbit_number: orbit_num, au })
    } else if roll <= 8 {
        OrbitContent::Rockball(Rockball { orbit_number: orbit_num, au })
    } else {
        let sz = if roll_1d6(rng) >= 4 {
            GiantSize::Large
        } else {
            GiantSize::Small
        };
        let moons = generate_moons(rng);
        OrbitContent::GasGiant(GasGiant { orbit_number: orbit_num, au, size: sz, moons })
    }
}

/// The orbit-count modifier: crowding supergiants and bright giants lose
/// slots, giants, subdwarfs and white dwarfs gain them, and the cool M and
/// K types lose some again.
pub open spec fn spec_orbit_dm(sz: StarSize, t: StarType) -> int {
    (match sz {
        StarSize::Ia | StarSize::Ib => -4int,
        StarSize::II => -2,
        StarSize::III => 4,
        StarSize::IV | StarSize::V => 0,
        StarSize::VI | StarSize::D => 8,
    }) + (match t {
        StarType::M => -4int,
        StarType::K => -2,
        _ => 0,
    })
}

/// How many orbit slots the star enumerates: two dice plus the modifier,
/// floored at zero.
pub open spec fn spec_num_orbits(s: u64, i: int, sz: StarSize, t: StarType) -> int {
    max0(spec_roll(s, i, 2, 6) + spec_orbit_dm(sz, t))
}

/// The zone of slot `k`: below the inner limit (-2), inner zone (-1),
/// biozone (0), or outer zone (1).
pub open spec fn spec_zone(bode: int, mass: int, lum: int, k: int) -> int {
    let au = spec_orbit_to_au(bode, k);
    if au < spec_inner_limit(mass) {
        -2
    } else if au < spec_bio_inner(lum) {
        -1
    } else if au > spec_bio_outer(lum) {
        1
    } else {
        0
    }
}

/// The draw position after one slot of zone `z` rolled at `j`, with
/// `wf` saying whether a world was already seated.
pub open spec fn spec_slot_end(s: u64, j: int, z: int, wf: bool) -> int {
    if z == -2 {
        j
    } else if z == -1 {
        spec_inner_end(s, j)
    } else if z == 1 {
        spec_outer_end(s, j)
    } else if !wf && spec_roll(s, j, 2, 6) >= 4 {
        spec_w_end(s, j + 2, 20)
    } else if !wf {
        spec_nw_end(s, j + 2)
    } else {
        spec_nw_end(s, j)
    }
}

/// Whether a world is seated after one slot of zone `z` rolled at `j`:
/// only a biozone slot can seat one, and only if none was seated before.
pub open spec fn spec_slot_wf(s: u64, j: int, z: int, wf: bool) -> bool {
    wf || (z == 0 && spec_roll(s, j, 2, 6) >= 4)
}

/// The content of slot `k`, rolled at position `j`: below the inner limit
/// the slot stays empty whatever the zone tables would say; in the biozone
/// the first qualifying roll seats the star's one habitable world, and
/// every other biozone slot falls back to the non-world table.
pub open spec fn slot_built(oc: OrbitContent, s: u64, j: int, k: int, au: int, z: int,
    wf: bool) -> bool {
    if z == -2 {
        oc == OrbitContent::Empty(EmptyOrbit { orbit_number: k as u8, au: au as u64 })
    } else if z == -1 {
        inner_built(oc, s, j, k, au)
    } else if z == 1 {
        outer_built(oc, s, j, k, au)
    } else if !wf && spec_roll(s, j, 2, 6) >= 4 {
        oc matches OrbitContent::World(w) && w.orbit_number == k as u8 && w.au == au as u64
            && world_built(w.world, s, j + 2, 0, 0, spec_planet_names())
    } else if !wf {
        nw_built(oc, s, j + 2, k, au)
    } else {
        nw_built(oc, s, j, k, au)
    }
}

/// The substrate position and world-seated flag when slot `k` is reached,
/// starting from position `i2` with no world seated.
pub open spec fn spec_slot_state(s: u64, i2: int, bode: int, mass: int, lum: int, k: int) -> (
    int,
    bool,
)
    decreases k,
{
    if k <= 0 {
        (i2, false)
    } else {
        let prev = spec_slot_state(s, i2, bode, mass, lum, k - 1);
        let z = spec_zone(bode, mass, lum, k - 1);
        (spec_slot_end(s, prev.0, z, prev.1), spec_slot_wf(s, prev.0, z, prev.1))
    }
}

/// How many slots are emitted: the walk stops at the slot count or at the
/// first slot past the outer limit, whichever comes first.
pub open spec fn spec_emitted(bode: int, mass: int, num: int, k: int) -> int
    decreases num - k,
{
    if k >= num || spec_orbit_to_au(bode, k) > spec_outer_limit(mass) {
        k
    } else {
        spec_emitted(bode, mass, num, k + 1)
    }
}

/// The emitted count lies between the starting slot and the slot count.
pub proof fn lemma_emitted_bounds(bode: int, mass: int, num: int, k: int)
    requires
        0 <= k <= num,
    ensures
        k <= spec_emitted(bode, mass, num, k) <= num,
    decreases num - k,
{
    if !(k >= num || spec_orbit_to_au(bode, k) > spec_outer_limit(mass)) {
        lemma_emitted_bounds(bode, mass, num, k + 1);
    }
}

/// The emitted count is the point the walk's halting test first fires.
proof fn lemma_emitted_value(bode: int, mass: int, num: int, k: int, cnt: int)
    requires
        0 <= k <= cnt <= num,
        forall|t: int| k <= t < cnt ==> spec_orbit_to_au(bode, t) <= spec_outer_limit(mass),
        cnt == num || spec_orbit_to_au(bode, cnt) > spec_outer_limit(mass),
    ensures
        spec_emitted(bode, mass, num, k) == cnt,
    decreases cnt - k,
{
    if k < cnt {
        assert(spec_orbit_to_au(bode, k) <= spec_outer_limit(mass));
        lemma_emitted_value(bode, mass, num, k + 1, cnt);
    }
}

/// The whole world block takes at most 31 draws.
proof fn lemma_w_end_bound(s: u64, j: int, len: int)
    ensures
        j < spec_w_end(s, j, len) <= j + 31,
{
}

/// One slot advances the substrate by at most 40 draws.
proof fn lemma_slot_end_bound(s: u64, j: int, z: int, wf: bool)
    ensures
        j <= spec_slot_end(s, j, z, wf) <= j + 40,
{
    lemma_moons_end_bound(s, j + 3, 0, spec_die(s, j + 2, 6));
    lemma_moons_end_bound(s, j + 4, 0, spec_die(s, j + 3, 6));
    lemma_moons_end_bound(s, j + 5, 0, spec_die(s, j + 4, 6));
    lemma_moons_end_bound(s, j + 6, 0, spec_die(s, j + 5, 6));
    lemma_w_end_bound(s, j + 2, 20);
}

/// The slot walk advances by at most 40 draws per slot.
pub proof fn lemma_state_bound(s: u64, i2: int, bode: int, mass: int, lum: int, k: int)
    requires
        k >= 0,
    ensures
        i2 <= spec_slot_state(s, i2, bode, mass, lum, k).0 <= i2 + 40 * k,
    decreases k,
{
    if k > 0 {
        lemma_state_bound(s, i2, bode, mass, lum, k - 1);
        let prev = spec_slot_state(s, i2, bode, mass, lum, k - 1);
        lemma_slot_end_bound(s, prev.0, spec_zone(bode, mass, lum, k - 1), prev.1);
    }
}

/// Once a world is seated the flag never falls again.
pub proof fn lemma_wf_monotone(s: u64, i2: int, bode: int, mass: int, lum: int, k1: int, k2: int)
    requires
        0 <= k1 <= k2,
        spec_slot_state(s, i2, bode, mass, lum, k1).1,
    ensures
        spec_slot_state(s, i2, bode, mass, lum, k2).1,
    decreases k2 - k1,
{
    if k1 < k2 {
        lemma_wf_monotone(s, i2, bode, mass, lum, k1 + 1, k2);
    }
}

/// Builds a star's orbit slots, outermost structure of the cascade.
pub struct OrbitBuilder;

impl OrbitBuilder {
    /// The orbit-count modifier for a star.
    fn orbit_dm(star: &Star) -> (r: i32)
        ensures
            r as int == spec_orbit_dm(star.star_size, star.star_type),
    {
        let mut dm: i32 = 0;
        match star.star_size {
            StarSize::Ia | StarSize::Ib => {
                dm = dm - 4;
            },
            StarSize::II => {
                dm = dm - 2;
            },
            StarSize::III => {
                dm = dm + 4;
            },
            StarSize::IV | StarSize::V => {},
            StarSize::VI | StarSize::D => {
                dm = dm + 8;
            },
        }
        match star.star_type {
            StarType::M => {
                dm = dm - 4;
            },
            StarType::K => {
                dm = dm - 2;
            },
            _ => {},
        }
        dm
    }

    /// Roll one slot's content. The inner-limit exclusion wins over every
    /// zone table; a biozone slot may seat the star's single world when
    /// `world_found` is still clear, on a four or better.
    fn populate_orbit(
        star: &Star,
        orbit_num: u8,
        au: u64,
        names: &Vec<String>,
        world_found: &mut bool,
        rng: &mut Substrate,
    ) -> (r: OrbitContent)
        requires
            old(rng).index + 45 <= u64::MAX,
            names.deep_view() == spec_planet_names(),
            crate::star::star_quantities_bounded(*star),
            au as int == spec_orbit_to_au(star.bode_constant as int, orbit_num as int),
        ensures
            final(rng).seed == old(rng).seed,
            ({
                let z = spec_zone(star.bode_constant as int, star.mass as int,
                    star.luminosity as int, orbit_num as int);
                &&& slot_built(r, old(rng).seed, old(rng).index as int, orbit_num as int,
                    au as int, z, *old(world_found))
                &&& final(rng).index as int == spec_slot_end(old(rng).seed,
                    old(rng).index as int, z, *old(world_found))
                &&& *final(world_found) == spec_slot_wf(old(rng).seed, old(rng).index as int, z,
                    *old(world_found))
            }),
    {
        let ghost s = rng.seed;
        let ghost j = rng.index as int;
        if au < star.inner_limit() {
            return OrbitContent::Empty(EmptyOrbit { orbit_number: orbit_num, au });
        }
        let (bio_inner, bio_outer) = star.biozone();
        if au < bio_inner {
            generate_inner_orbit(orbit_num, au, rng)
        } else if au > bio_outer {
            generate_outer_orbit(orbit_num, au, rng)
        } else {
            if !*world_found {
                let pr = roll_2d6(rng);
                if pr >= 4 {
                    *world_found = true;
                    let world = WorldBuilder::new(0, 0).with_names(names.clone()).build(rng);
                    OrbitContent::World(WorldOrbit { orbit_number: orbit_num, au, world })
                } else {
                    generate_non_world_orbit(orbit_num, au, rng)
                }
            } else {
                generate_non_world_orbit(orbit_num, au, rng)
            }
        }
    }

    /// Walk the star's orbit slots outward from slot zero, stopping at the
    /// rolled slot count or at the first slot past the outer limit, and
    /// seat at most one habitable world on the way.
    pub fn populate_orbits(star: &mut Star, rng: &mut Substrate)
        requires
            old(rng).index + 1000 <= u64::MAX,
            crate::star::star_quantities_bounded(*old(star)),
            old(star).orbits@.len() == 0,
        ensures
            final(rng).seed == old(rng).seed,
            *final(star) == (Star { orbits: final(star).orbits, ..*old(star) }),
            ({
                let s = old(rng).seed;
                let i = old(rng).index as int;
                let bode = old(star).bode_constant as int;
                let mass = old(star).mass as int;
                let lum = old(star).luminosity as int;
                let num = spec_num_orbits(s, i, old(star).star_size, old(star).star_type);
                let cnt = spec_emitted(bode, mass, num, 0);
                &&& final(star).orbits@.len() == cnt
                &&& forall|k: int| 0 <= k < cnt ==> slot_built(#[trigger] final(star).orbits@[k],
                    s, spec_slot_state(s, i + 2, bode, mass, lum, k).0, k,
                    spec_orbit_to_au(bode, k), spec_zone(bode, mass, lum, k),
                    spec_slot_state(s, i + 2, bode, mass, lum, k).1)
                &&& final(rng).index as int == spec_slot_state(s, i + 2, bode, mass, lum, cnt).0
            }),
    {
        let ghost s = rng.seed;
        let ghost i = rng.index as int;
        let ghost bode = star.bode_constant as int;
        let ghost mass = star.mass as int;
        let ghost lum = star.luminosity as int;

        let dm = Self::orbit_dm(star);
        let roll = roll_2d6(rng) as i32 + dm;
        let num_orbits: u8 = if roll < 0 {
            0
        } else {
            roll as u8
        };
        let ghost num = num_orbits as int;
        proof {
            assert(num == spec_num_orbits(s, i, star.star_size, star.star_type));
            assert(num <= 20);
        }

        // The halting test consumes no draws, so the emitted count can be
        // established before any slot is rolled.
        let mut cnt: u8 = 0;
        while cnt < num_orbits && star.orbit_to_au(cnt) <= star.outer_limit()
            invariant
                crate::star::star_quantities_bounded(*star),
                num == num_orbits as int,
                num <= 20,
                cnt <= num_orbits,
                forall|t: int| 0 <= t < cnt ==> spec_orbit_to_au(bode, t) <= spec_outer_limit(
                    mass),
                bode == star.bode_constant as int,
                mass == star.mass as int,
            decreases num_orbits - cnt,
        {
            cnt = cnt + 1;
        }
        proof {
            lemma_emitted_value(bode, mass, num, 0, cnt as int);
        }

        let names = get_planet_names();
        let mut world_found = false;
        let mut k: u8 = 0;
        proof {
            lemma_state_bound(s, i + 2, bode, mass, lum, cnt as int);
        }
        while k < cnt
            invariant
                crate::star::star_quantities_bounded(*star),
                *star == (Star { orbits: star.orbits, ..*old(star) }),
                names.deep_view() == spec_planet_names(),
                k <= cnt,
                cnt <= num <= 20,
                i + 1000 <= u64::MAX,
                rng.seed == s,
                bode == star.bode_constant as int,
                mass == star.mass as int,
                lum == star.luminosity as int,
                forall|t: int| 0 <= t < cnt ==> spec_orbit_to_au(bode, t) <= spec_outer_limit(
                    mass),
                rng.index as int == spec_slot_state(s, i + 2, bode, mass, lum, k as int).0,
                world_found == spec_slot_state(s, i + 2, bode, mass, lum, k as int).1,
                star.orbits@.len() == k as int,
                forall|t: int| 0 <= t < k ==> slot_built(#[trigger] star.orbits@[t], s,
                    spec_slot_state(s, i + 2, bode, mass, lum, t).0, t, spec_orbit_to_au(bode,
                    t), spec_zone(bode, mass, lum, t), spec_slot_state(s, i + 2, bode, mass,
                    lum, t).1),
            decreases cnt - k,
        {
            proof {
                lemma_state_bound(s, i + 2, bode, mass, lum, k as int);
            }
            let au = star.orbit_to_au(k);
            let oc = Self::populate_orbit(&*star, k, au, &names, &mut world_found, rng);
            star.orbits.push(oc);
            proof {
                assert(spec_slot_state(s, i + 2, bode, mass, lum, k as int + 1).0
                    == spec_slot_end(s, spec_slot_state(s, i + 2, bode, mass, lum, k as int).0,
                    spec_zone(bode, mass, lum, k as int), spec_slot_state(s, i + 2, bode, mass,
                    lum, k as int).1));
            }
            k = k + 1;
        }
    }
}

} // verus!
