use vstd::prelude::*;

use crate::rng::{spec_die, spec_range, spec_roll, Substrate, d6, roll_2d6, roll_range};
use crate::tables::{atmosphere_table, hydrographics_table, size_of_roll, spec_atmosphere_table,
    spec_hydrographics_table, spec_size_of_roll, spec_starport_of_roll, starport_of_roll};
use crate::trade_codes::{spec_trade_codes, TradeCode};
use crate::world::{is_starport, pad2_str, spec_coords, spec_uwp, Base, Temperature, World};
use vstd::string::{StrSliceExecFns, StringExecFns};

verus! {

// The world statistic block is rolled as a strict dependency chain: each
// stage draws from the substrate at a position fixed by the stages before
// it, so every field below is a pure function of the substrate's seed and
// starting position. The `spec_w_*` functions give that chain its exact
// statement, stage by stage.

/// Clamp `x` below by zero.
pub open spec fn max0(x: int) -> int {
    if x < 0 { 0 } else { x }
}

/// Clamp `x` above by `hi`.
pub open spec fn cap(x: int, hi: int) -> int {
    if x > hi { hi } else { x }
}

/// Starport class: a plain two-dice table.
pub open spec fn spec_w_starport(s: u64, i: int) -> char {
    spec_starport_of_roll(spec_roll(s, i, 2, 6))
}

/// World size: a two-dice table.
pub open spec fn spec_w_size(s: u64, i: int) -> int {
    spec_size_of_roll(spec_roll(s, i + 2, 2, 6)) as int
}

/// Atmosphere: rolled on the table selected by the size.
pub open spec fn spec_w_atm(s: u64, i: int) -> int {
    let t = spec_atmosphere_table(spec_w_size(s, i));
    let roll = spec_roll(s, i + 4, 2, 6);
    t[cap(roll, t.len() - 1)] as int
}

/// Hydrographics: rolled on the table selected by the atmosphere.
pub open spec fn spec_w_hyd(s: u64, i: int) -> int {
    let t = spec_hydrographics_table(spec_w_atm(s, i));
    let roll = spec_roll(s, i + 6, 2, 6);
    t[cap(roll, t.len() - 1)] as int
}

/// Population: two dice less two, on a zero-to-twelve scale.
pub open spec fn spec_w_pop(s: u64, i: int) -> int {
    cap(max0(spec_roll(s, i + 8, 2, 6) - 2), 12)
}

/// Government: zero for an empty world, else two dice less seven plus the
/// population, clamped to fifteen.
pub open spec fn spec_w_gov(s: u64, i: int) -> int {
    if spec_w_pop(s, i) == 0 {
        0
    } else {
        cap(max0(spec_roll(s, i + 10, 2, 6) - 7) + spec_w_pop(s, i), 15)
    }
}

/// Law level: zero for an empty world, else two dice less seven plus the
/// government, clamped to fifteen.
pub open spec fn spec_w_law(s: u64, i: int) -> int {
    if spec_w_pop(s, i) == 0 {
        0
    } else {
        cap(max0(spec_roll(s, i + 12, 2, 6) - 7) + spec_w_gov(s, i), 15)
    }
}

/// The additive tech-level modifier from the six prior fields.
pub open spec fn spec_tech_dm(sp: char, size: int, atm: int, hyd: int, pop: int, gov: int) -> int {
    (if sp == 'A' { 6int } else if sp == 'B' { 4 } else if sp == 'C' { 2 } else if sp == 'X' { -4
    } else { 0 })
    + (if size <= 1 { 2int } else if size <= 4 { 1 } else { 0 })
    + (if atm <= 3 || atm >= 10 { 1int } else { 0 })
    + (if hyd == 9 { 1int } else if hyd == 10 { 2 } else { 0 })
    + (if 1 <= pop <= 5 { 1int } else if pop == 9 { 2 } else if pop == 10 { 4 } else { 0 })
    + (if gov == 0 || gov == 5 { 1int } else if gov == 13 { -2 } else { 0 })
}

/// The draw position of the tech-level die: government and law each took
/// two draws only on a populated world.
pub open spec fn spec_w_itech(s: u64, i: int) -> int {
    if spec_w_pop(s, i) == 0 { i + 10 } else { i + 14 }
}

/// Tech level: one die plus the modifier, clamped to zero through fifteen.
pub open spec fn spec_w_tech(s: u64, i: int) -> int {
    cap(max0(spec_die(s, spec_w_itech(s, i), 6) + spec_tech_dm(spec_w_starport(s, i),
        spec_w_size(s, i), spec_w_atm(s, i), spec_w_hyd(s, i), spec_w_pop(s, i),
        spec_w_gov(s, i))), 15)
}

/// The temperature band of a two-dice roll.
pub open spec fn spec_temp_of_roll(roll: int) -> Temperature {
    if roll <= 3 {
        Temperature::Frozen
    } else if roll <= 5 {
        Temperature::Cold
    } else if roll <= 8 {
        Temperature::Temperate
    } else if roll <= 10 {
        Temperature::Hot
    } else {
        Temperature::Roasting
    }
}

/// Temperature: an independent two-dice band lookup.
pub open spec fn spec_w_temp(s: u64, i: int) -> Temperature {
    spec_temp_of_roll(spec_roll(s, spec_w_itech(s, i) + 1, 2, 6))
}

/// Whether the starport class rolls for a naval base.
pub open spec fn rolls_naval(sp: char) -> bool {
    sp == 'A' || sp == 'B'
}

/// Whether the starport class rolls for a scout base.
pub open spec fn rolls_scout(sp: char) -> bool {
    sp == 'A' || sp == 'B' || sp == 'C' || sp == 'D'
}

/// The two-dice threshold a scout base needs at each starport class.
pub open spec fn spec_scout_threshold(sp: char) -> int {
    if sp == 'A' { 10 } else if sp == 'B' { 9 } else if sp == 'C' { 8 } else { 7 }
}

/// The draw position of the naval-base roll.
pub open spec fn spec_w_inaval(s: u64, i: int) -> int {
    spec_w_itech(s, i) + 3
}

/// Whether a naval base is seated.
pub open spec fn spec_w_naval(s: u64, i: int) -> bool {
    rolls_naval(spec_w_starport(s, i)) && spec_roll(s, spec_w_inaval(s, i), 2, 6) >= 8
}

/// The draw position of the scout-base roll.
pub open spec fn spec_w_iscout(s: u64, i: int) -> int {
    spec_w_inaval(s, i) + (if rolls_naval(spec_w_starport(s, i)) { 2int } else { 0 })
}

/// Whether a scout base is seated.
pub open spec fn spec_w_scout(s: u64, i: int) -> bool {
    rolls_scout(spec_w_starport(s, i)) && spec_roll(s, spec_w_iscout(s, i), 2, 6)
        >= spec_scout_threshold(spec_w_starport(s, i))
}

/// The bases seated on the world, naval before scout.
pub open spec fn spec_w_bases(s: u64, i: int) -> Seq<Base> {
    (if spec_w_naval(s, i) { seq![Base::Naval] } else { seq![] })
        + (if spec_w_scout(s, i) { seq![Base::Scout] } else { seq![] })
}

/// The draw position of the faction-count roll.
pub open spec fn spec_w_ifact(s: u64, i: int) -> int {
    spec_w_iscout(s, i) + (if rolls_scout(spec_w_starport(s, i)) { 2int } else { 0 })
}

/// How many factions a populated world carries: the count roll is floored
/// at three, then law level zero or seven adds one and law above nine
/// removes one.
pub open spec fn spec_faction_count(law: int) -> int {
    let n = 3int;
    let n = if law == 0 || law == 7 { n + 1 } else { n };
    if law > 9 { n - 1 } else { n }
}

/// The faction type of a two-dice roll.
pub open spec fn spec_faction_tag(roll: int) -> Seq<char> {
    if roll <= 3 { seq!['O'] }
    else if roll <= 5 { seq!['F'] }
    else if roll <= 7 { seq!['M'] }
    else if roll <= 9 { seq!['N'] }
    else if roll <= 11 { seq!['S'] }
    else { seq!['P'] }
}

/// The first `k` faction tags, each typed by its own two-dice roll
/// starting at draw position `j0`.
pub open spec fn spec_factions_upto(s: u64, j0: int, k: int) -> Seq<Seq<char>>
    decreases k,
{
    if k <= 0 {
        seq![]
    } else {
        spec_factions_upto(s, j0, k - 1).push(spec_faction_tag(spec_roll(s, j0 + 2 * (k - 1), 2,
            6)))
    }
}

/// The faction list of the world: empty when unpopulated.
pub open spec fn spec_w_factions(s: u64, i: int) -> Seq<Seq<char>> {
    if spec_w_pop(s, i) == 0 {
        seq![]
    } else {
        spec_factions_upto(s, spec_w_ifact(s, i) + 1, spec_faction_count(spec_w_law(s, i)))
    }
}

/// The draw position of the name pick.
pub open spec fn spec_w_iname(s: u64, i: int) -> int {
    spec_w_ifact(s, i) + (if spec_w_pop(s, i) == 0 { 0int } else {
        1 + 2 * spec_faction_count(spec_w_law(s, i))
    })
}

/// The world's display name: drawn from the pool, or synthesized from the
/// coordinates when the pool is empty.
pub open spec fn spec_w_name(s: u64, i: int, row: int, col: int, names: Seq<Seq<char>>) -> Seq<
    char,
> {
    if names.len() > 0 {
        names[spec_range(s, spec_w_iname(s, i), names.len() as usize)]
    } else {
        seq!['W', 'o', 'r', 'l', 'd', '-'] + spec_coords(row, col)
    }
}

/// The substrate position after the whole block is rolled.
pub open spec fn spec_w_end(s: u64, i: int, names_len: int) -> int {
    spec_w_iname(s, i) + (if names_len > 0 { 1int } else { 0 })
}

/// A world is exactly the statistic block that the dependency chain rolls
/// from substrate seed `s` at position `i`: this predicate pins every
/// field, so two worlds built from the same state are equal field for
/// field.
pub open spec fn world_built(w: World, s: u64, i: int, row: int, col: int,
    names: Seq<Seq<char>>) -> bool {
    &&& w.starport == spec_w_starport(s, i)
    &&& w.size as int == spec_w_size(s, i)
    &&& w.atmosphere as int == spec_w_atm(s, i)
    &&& w.hydrographics as int == spec_w_hyd(s, i)
    &&& w.population as int == spec_w_pop(s, i)
    &&& w.government as int == spec_w_gov(s, i)
    &&& w.law_level as int == spec_w_law(s, i)
    &&& w.tech_level as int == spec_w_tech(s, i)
    &&& w.temperature == spec_w_temp(s, i)
    &&& w.bases@ == spec_w_bases(s, i)
    &&& w.trade_codes.deep_view() == spec_trade_codes(spec_w_size(s, i), spec_w_atm(s, i),
        spec_w_hyd(s, i), spec_w_pop(s, i), spec_w_gov(s, i), spec_w_law(s, i),
        spec_w_tech(s, i))
    &&& w.factions.deep_view() == spec_w_factions(s, i)
    &&& w.uwp@ == spec_uwp(w.starport, w.size, w.atmosphere, w.hydrographics, w.population,
        w.government, w.law_level, w.tech_level)
    &&& w.name@ == spec_w_name(s, i, row, col, names)
    &&& w.gas_giant == false
    &&& w.row as int == row
    &&& w.col as int == col
}


/// The temperature band rolled on two dice.
fn temp_of_roll(roll: u32) -> (r: Temperature)
    ensures
        r == spec_temp_of_roll(roll as int),
{
    if roll <= 3 {
        Temperature::Frozen
    } else if roll <= 5 {
        Temperature::Cold
    } else if roll <= 8 {
        Temperature::Temperate
    } else if roll <= 10 {
        Temperature::Hot
    } else {
        Temperature::Roasting
    }
}

/// A faction type as its one-letter tag.
fn faction_tag_str(roll: u32) -> (r: &'static str)
    ensures
        r@ == spec_faction_tag(roll as int),
{
    if roll <= 3 {
        proof { reveal_strlit("O"); assert("O"@ =~= spec_faction_tag(roll as int)); }
        "O"
    } else if roll <= 5 {
        proof { reveal_strlit("F"); assert("F"@ =~= spec_faction_tag(roll as int)); }
        "F"
    } else if roll <= 7 {
        proof { reveal_strlit("M"); assert("M"@ =~= spec_faction_tag(roll as int)); }
        "M"
    } else if roll <= 9 {
        proof { reveal_strlit("N"); assert("N"@ =~= spec_faction_tag(roll as int)); }
        "N"
    } else if roll <= 11 {
        proof { reveal_strlit("S"); assert("S"@ =~= spec_faction_tag(roll as int)); }
        "S"
    } else {
        proof { reveal_strlit("P"); assert("P"@ =~= spec_faction_tag(roll as int)); }
        "P"
    }
}

/// Roll starport, size, atmosphere, hydrographics and population: the
/// first five stages of the chain, ten draws.
fn roll_core(rng: &mut Substrate) -> (r: (char, u8, u8, u8, u8))
    requires
        old(rng).index + 10 <= u64::MAX,
    ensures
        final(rng).seed == old(rng).seed,
        final(rng).index == old(rng).index + 10,
        r.0 == spec_w_starport(old(rng).seed, old(rng).index as int),
        is_starport(r.0),
        r.1 as int == spec_w_size(old(rng).seed, old(rng).index as int),
        r.1 <= 10,
        r.2 as int == spec_w_atm(old(rng).seed, old(rng).index as int),
        r.2 <= 12,
        r.3 as int == spec_w_hyd(old(rng).seed, old(rng).index as int),
        r.3 <= 10,
        r.4 as int == spec_w_pop(old(rng).seed, old(rng).index as int),
        r.4 <= 12,
{
    let ghost s = rng.seed;
    let ghost i = rng.index as int;

    let starport_roll = roll_2d6(rng);
    let starport = starport_of_roll(starport_roll);

    let size_roll = roll_2d6(rng);
    let size = size_of_roll(size_roll);

    let atm_table = atmosphere_table(size);
    let atm_roll = roll_2d6(rng) as usize;
    let atm_idx = if atm_roll > atm_table.len() - 1 {
        atm_table.len() - 1
    } else {
        atm_roll
    };
    let atmosphere = atm_table[atm_idx];
    proof {
        assert(atmosphere as int == spec_w_atm(s, i));
    }

    let hydro_table = hydrographics_table(atmosphere);
    let hydro_roll = roll_2d6(rng) as usize;
    let hydro_idx = if hydro_roll > hydro_table.len() - 1 {
        hydro_table.len() - 1
    } else {
        hydro_roll
    };
    let hydrographics = hydro_table[hydro_idx];
    proof {
        assert(hydrographics as int == spec_w_hyd(s, i));
    }

    let pop_roll = roll_2d6(rng);
    let population = (pop_roll - 2) as u8;
    proof {
        assert(population as int == spec_w_pop(s, i));
    }

    (starport, size, atmosphere, hydrographics, population)
}

/// Roll government and law level; an unpopulated world takes both as zero
/// without a draw.
fn roll_gov_law(population: u8, rng: &mut Substrate, Ghost(i): Ghost<int>) -> (r: (u8, u8))
    requires
        old(rng).index as int == i + 10,
        i + 14 <= u64::MAX,
        population as int == spec_w_pop(old(rng).seed, i),
    ensures
        final(rng).seed == old(rng).seed,
        final(rng).index as int == spec_w_itech(old(rng).seed, i),
        r.0 as int == spec_w_gov(old(rng).seed, i),
        r.0 <= 15,
        r.1 as int == spec_w_law(old(rng).seed, i),
        r.1 <= 15,
{
    let ghost s = rng.seed;
    let government: u8;
    let law_level: u8;
    if population == 0 {
        government = 0;
        law_level = 0;
    } else {
        let gov_roll = roll_2d6(rng);
        let g = (if gov_roll <= 7 { 0u32 } else { gov_roll - 7 }) + population as u32;
        government = if g > 15 { 15 } else { g as u8 };
        proof {
            assert(government as int == spec_w_gov(s, i));
        }
        let law_roll = roll_2d6(rng);
        let l = (if law_roll <= 7 { 0u32 } else { law_roll - 7 }) + government as u32;
        law_level = if l > 15 { 15 } else { l as u8 };
        proof {
            assert(law_level as int == spec_w_law(s, i));
        }
    }
    (government, law_level)
}

/// The tech-level modifier of the starport class.
fn dm_of_starport(starport: char) -> (r: i32)
    ensures
        r as int == (if starport == 'A' { 6int } else if starport == 'B' { 4 } else if starport
            == 'C' { 2 } else if starport == 'X' { -4 } else { 0 }),
{
    if starport == 'A' { 6 } else if starport == 'B' { 4 } else if starport == 'C' { 2
    } else if starport == 'X' { -4 } else { 0 }
}

/// The accumulated tech-level modifier.
#[verifier::rlimit(100)]
fn tech_dm_of(
    starport: char,
    size: u8,
    atmosphere: u8,
    hydrographics: u8,
    population: u8,
    government: u8,
) -> (r: i32)
    ensures
        r as int == spec_tech_dm(starport, size as int, atmosphere as int, hydrographics as int,
            population as int, government as int),
        -6 <= r <= 17,
{
    let dm_port: i32 = dm_of_starport(starport);
    let dm_size: i32 = if size <= 1 {
        2
    } else if size <= 4 {
        1
    } else {
        0
    };
    let dm_atm: i32 = if atmosphere <= 3 || atmosphere >= 10 {
        1
    } else {
        0
    };
    let dm_hyd: i32 = if hydrographics == 9 {
        1
    } else if hydrographics == 10 {
        2
    } else {
        0
    };
    let dm_pop: i32 = if population >= 1 && population <= 5 {
        1
    } else if population == 9 {
        2
    } else if population == 10 {
        4
    } else {
        0
    };
    let dm_gov: i32 = if government == 0 || government == 5 {
        1
    } else if government == 13 {
        -2
    } else {
        0
    };
    dm_port + dm_size + dm_atm + dm_hyd + dm_pop + dm_gov
}

/// Roll the tech level (one die plus the accumulated modifier) and the
/// independent temperature band.
fn roll_tech_temp(
    starport: char,
    size: u8,
    atmosphere: u8,
    hydrographics: u8,
    population: u8,
    government: u8,
    rng: &mut Substrate,
) -> (r: (u8, Temperature))
    requires
        old(rng).index + 3 <= u64::MAX,
    ensures
        final(rng).seed == old(rng).seed,
        final(rng).index == old(rng).index + 3,
        r.0 as int == cap(max0(spec_die(old(rng).seed, old(rng).index as int, 6) + spec_tech_dm(
            starport, size as int, atmosphere as int, hydrographics as int, population as int,
            government as int)), 15),
        r.0 <= 15,
        r.1 == spec_temp_of_roll(spec_roll(old(rng).seed, old(rng).index as int + 1, 2, 6)),
{
    let tech_dm = tech_dm_of(starport, size, atmosphere, hydrographics, population, government);

    let tech_roll = d6(rng) as i32;
    let t = tech_roll + tech_dm;
    let t = if t < 0 { 0 } else if t > 15 { 15 } else { t };
    let tech_level = t as u8;

    let temp_roll = roll_2d6(rng);
    let temperature = temp_of_roll(temp_roll);
    (tech_level, temperature)
}

/// Roll the bases: class A and B starports may seat a naval base, classes
/// A through D a scout base, each at its own threshold.
fn roll_bases(starport: char, rng: &mut Substrate, Ghost(i): Ghost<int>) -> (r: Vec<Base>)
    requires
        old(rng).index as int == spec_w_inaval(old(rng).seed, i),
        old(rng).index + 4 <= u64::MAX,
        starport == spec_w_starport(old(rng).seed, i),
    ensures
        final(rng).seed == old(rng).seed,
        final(rng).index as int == spec_w_ifact(old(rng).seed, i),
        r@ == spec_w_bases(old(rng).seed, i),
{
    let ghost s = rng.seed;
    let mut bases: Vec<Base> = Vec::new();
    if starport == 'A' || starport == 'B' {
        let naval_roll = roll_2d6(rng);
        if naval_roll >= 8 {
            bases.push(Base::Naval);
        }
    }
    if starport != 'E' && starport != 'X' {
        if starport == 'A' {
            let scout_roll = roll_2d6(rng);
            if scout_roll >= 10 {
                bases.push(Base::Scout);
            }
        } else if starport == 'B' {
            let scout_roll = roll_2d6(rng);
            if scout_roll >= 9 {
                bases.push(Base::Scout);
            }
        } else if starport == 'C' {
            let scout_roll = roll_2d6(rng);
            if scout_roll >= 8 {
                bases.push(Base::Scout);
            }
        } else if starport == 'D' {
            let scout_roll = roll_2d6(rng);
            if scout_roll >= 7 {
                bases.push(Base::Scout);
            }
        }
    }
    proof {
        assert(bases@ =~= spec_w_bases(s, i));
    }
    bases
}

/// Pick the world's name: uniformly from the pool, or synthesized from the
/// cell coordinates when the pool is empty.
fn pick_name(
    names: &Vec<String>,
    row: usize,
    col: usize,
    rng: &mut Substrate,
    Ghost(i): Ghost<int>,
) -> (r: String)
    requires
        old(rng).index as int == spec_w_iname(old(rng).seed, i),
        old(rng).index < u64::MAX,
        names@.len() <= u32::MAX as usize,
        row < usize::MAX,
        col < usize::MAX,
    ensures
        final(rng).seed == old(rng).seed,
        final(rng).index as int == spec_w_end(old(rng).seed, i, names@.len() as int),
        r@ == spec_w_name(old(rng).seed, i, row as int, col as int, names.deep_view()),
{
    let ghost s = rng.seed;
    if names.len() > 0 {
        let idx = roll_range(rng, names.len());
        let name = names[idx].clone();
        proof {
            assert(name@ == names.deep_view()[spec_range(s, spec_w_iname(s, i),
                names@.len() as usize)]);
        }
        name
    } else {
        proof {
            reveal_strlit("World-");
        }
        let mut name = String::from_str("World-");
        let mut coords = pad2_str(col + 1);
        let coords2 = pad2_str(row + 1);
        coords.append(coords2.as_str());
        name.append(coords.as_str());
        proof {
            assert(name@ =~= spec_w_name(s, i, row as int, col as int, names.deep_view()));
        }
        name
    }
}

/// Builds one habitable world from an owned substrate position.
pub struct WorldBuilder {
    pub row: usize,
    pub col: usize,
    pub names: Vec<String>,
}

impl WorldBuilder {
    /// A builder for the given cell, with an empty name pool.
    pub fn new(row: usize, col: usize) -> (r: WorldBuilder)
        ensures
            r.row == row,
            r.col == col,
            r.names@.len() == 0,
    {
        WorldBuilder { row, col, names: Vec::new() }
    }

    /// The same builder with the given name pool.
    pub fn with_names(self, names: Vec<String>) -> (r: WorldBuilder)
        ensures
            r.row == self.row,
            r.col == self.col,
            r.names == names,
    {
        WorldBuilder { names, ..self }
    }

    /// Roll the faction list of a populated world: one count draw, then
    /// one two-dice type roll per faction.
    fn generate_factions(population: u8, law_level: u8, rng: &mut Substrate) -> (r: Vec<String>)
        requires
            old(rng).index + 16 <= u64::MAX,
        ensures
            final(rng).seed == old(rng).seed,
            population == 0 ==> final(rng).index == old(rng).index && r@.len() == 0,
            population != 0 ==> {
                &&& final(rng).index == old(rng).index + 1 + 2 * spec_faction_count(
                    law_level as int)
                &&& r.deep_view() == spec_factions_upto(old(rng).seed, old(rng).index as int + 1,
                    spec_faction_count(law_level as int))
            },
    {
        let mut factions: Vec<String> = Vec::new();
        if population == 0 {
            return factions;
        }
        let ghost s = rng.seed;
        let ghost j0 = rng.index as int + 1;

        let mut num_factions = roll_range(rng, 3) + 1;
        if num_factions < 3 {
            num_factions = 3;
        }
        if law_level == 0 || law_level == 7 {
            num_factions = num_factions + 1;
        }
        if law_level > 9 {
            num_factions = num_factions - 1;
        }
        proof {
            assert(num_factions as int == spec_faction_count(law_level as int));
        }

        let mut k: usize = 0;
        while k < num_factions
            invariant
                num_factions <= 4,
                k <= num_factions,
                rng.seed == s,
                rng.index == j0 + 2 * k,
                j0 + 9 <= u64::MAX,
                factions.deep_view() == spec_factions_upto(s, j0, k as int),
            decreases num_factions - k,
        {
            let roll = roll_2d6(rng);
            factions.push(faction_tag_str(roll).to_owned());
            proof {
                assert(factions.deep_view() =~= spec_factions_upto(s, j0, k as int + 1));
            }
            k = k + 1;
        }
        factions
    }

    /// Roll the full statistic block, in its fixed dependency order:
    /// starport, size, atmosphere, hydrographics, population, government,
    /// law level, tech level, temperature, bases, trade codes, factions,
    /// profile string, name.
    pub fn build(self, rng: &mut Substrate) -> (r: World)
        requires
            old(rng).index + 40 <= u64::MAX,
            self.names@.len() <= u32::MAX as usize,
            self.row < usize::MAX,
            self.col < usize::MAX,
        ensures
            final(rng).seed == old(rng).seed,
            final(rng).index as int == spec_w_end(old(rng).seed, old(rng).index as int,
                self.names@.len() as int),
            world_built(r, old(rng).seed, old(rng).index as int, self.row as int,
                self.col as int, self.names.deep_view()),
    {
        let ghost s = rng.seed;
        let ghost i = rng.index as int;
        let mut world = World::new(self.row, self.col);

        let (starport, size, atmosphere, hydrographics, population) = roll_core(rng);
        world.starport = starport;
        world.size = size;
        world.atmosphere = atmosphere;
        world.hydrographics = hydrographics;
        world.population = population;

        let (government, law_level) = roll_gov_law(population, rng, Ghost(i));
        world.government = government;
        world.law_level = law_level;

        proof {
            assert(rng.index as int == spec_w_itech(s, i));
        }
        let (tech_level, temperature) = roll_tech_temp(starport, size, atmosphere,
            hydrographics, population, government, rng);
        world.tech_level = tech_level;
        world.temperature = temperature;
        proof {
            assert(world.tech_level as int == spec_w_tech(s, i));
            assert(world.temperature == spec_w_temp(s, i));
        }

        world.bases = roll_bases(starport, rng, Ghost(i));

        world.trade_codes = TradeCode::calculate(&world);

        world.factions = Self::generate_factions(population, law_level, rng);
        proof {
            assert(world.factions.deep_view() == spec_w_factions(s, i));
        }

        world.update_uwp();

        world.name = pick_name(&self.names, self.row, self.col, rng, Ghost(i));

        world
    }
}

} // verus!
