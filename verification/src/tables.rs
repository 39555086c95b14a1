use vstd::prelude::*;

verus! {

/// The atmosphere table selected by a world's size: size 0 forces vacuum,
/// sizes 1–2 lean toward none, trace or exotic, larger worlds use the full
/// range.
pub open spec fn spec_atmosphere_table(size: int) -> Seq<u8> {
    if size == 0 {
        seq![0u8]
    } else if size <= 2 {
        seq![0u8, 0, 0, 1, 1, 1, 1, 1, 1, 1, 10, 10, 10]
    } else {
        seq![0u8, 1, 2, 3, 4, 5, 6, 7, 8, 9, 10, 11, 12]
    }
}

/// The atmosphere table for a world of the given size.
pub fn atmosphere_table(size: u8) -> (r: Vec<u8>)
    ensures
        r@ == spec_atmosphere_table(size as int),
        r@.len() >= 1,
        forall|i: int| 0 <= i < r@.len() ==> #[trigger] r@[i] <= 12,
{
    let r: Vec<u8> = if size == 0 {
        vec![0]
    } else if size <= 2 {
        vec![0, 0, 0, 1, 1, 1, 1, 1, 1, 1, 10, 10, 10]
    } else {
        vec![0, 1, 2, 3, 4, 5, 6, 7, 8, 9, 10, 11, 12]
    };
    proof {
        assert(r@ =~= spec_atmosphere_table(size as int));
    }
    r
}

/// The hydrographics table selected by a world's atmosphere: an extreme
/// atmosphere (none, trace, or corrosive and beyond) forces zero water.
pub open spec fn spec_hydrographics_table(atm: int) -> Seq<u8> {
    if atm <= 1 || atm >= 10 {
        seq![0u8, 0, 0, 0, 0, 0, 0, 0, 0, 0, 0]
    } else {
        seq![0u8, 1, 2, 3, 4, 5, 6, 7, 8, 9, 10]
    }
}

/// The hydrographics table for a world with the given atmosphere.
pub fn hydrographics_table(atm: u8) -> (r: Vec<u8>)
    ensures
        r@ == spec_hydrographics_table(atm as int),
        r@.len() == 11,
        forall|i: int| 0 <= i < r@.len() ==> #[trigger] r@[i] <= 10,
        (atm <= 1 || atm >= 10) ==> forall|i: int| 0 <= i < r@.len() ==> #[trigger] r@[i] == 0,
{
    let r: Vec<u8> = if atm <= 1 || atm >= 10 {
        vec![0, 0, 0, 0, 0, 0, 0, 0, 0, 0, 0]
    } else {
        vec![0, 1, 2, 3, 4, 5, 6, 7, 8, 9, 10]
    };
    proof {
        assert(r@ =~= spec_hydrographics_table(atm as int));
    }
    r
}

/// The temperature modifier of an orbit slot, tempered by the star's
/// luminosity (in millionths of the solar luminosity).
pub open spec fn spec_temperature_dm(orbit: int, luminosity: int) -> int {
    let base: int = if orbit == 0 {
        12
    } else if orbit == 1 {
        8
    } else if orbit == 2 {
        6
    } else if orbit == 3 {
        4
    } else if orbit == 4 {
        2
    } else if orbit == 5 {
        0
    } else if orbit <= 7 {
        -2
    } else if orbit <= 9 {
        -4
    } else {
        -6
    };
    let lum_mod: int = if luminosity > 2_000_000 {
        4
    } else if luminosity > 1_000_000 {
        2
    } else if luminosity < 500_000 {
        -2
    } else {
        0
    };
    base + lum_mod
}

/// The temperature modifier for a slot around a star of the given
/// luminosity (in millionths of the solar luminosity).
pub fn temperature_dm(orbit: u8, luminosity: u64) -> (r: i32)
    ensures
        r as int == spec_temperature_dm(orbit as int, luminosity as int),
{
    let base: i32 = if orbit == 0 {
        12
    } else if orbit == 1 {
        8
    } else if orbit == 2 {
        6
    } else if orbit == 3 {
        4
    } else if orbit == 4 {
        2
    } else if orbit == 5 {
        0
    } else if orbit <= 7 {
        -2
    } else if orbit <= 9 {
        -4
    } else {
        -6
    };
    let lum_mod: i32 = if luminosity > 2_000_000 {
        4
    } else if luminosity > 1_000_000 {
        2
    } else if luminosity < 500_000 {
        -2
    } else {
        0
    };
    base + lum_mod
}

/// The starport class for a two-dice roll (rolls above the table are read
/// at its top entry).
pub open spec fn spec_starport_of_roll(roll: int) -> char {
    if roll <= 1 { 'X' }
    else if roll <= 3 { 'E' }
    else if roll <= 5 { 'D' }
    else if roll <= 7 { 'C' }
    else if roll <= 9 { 'B' }
    else { 'A' }
}

/// The starport class rolled on two dice.
pub fn starport_of_roll(roll: u32) -> (r: char)
    ensures
        r == spec_starport_of_roll(roll as int),
        crate::world::is_starport(r),
{
    if roll <= 1 { 'X' }
    else if roll <= 3 { 'E' }
    else if roll <= 5 { 'D' }
    else if roll <= 7 { 'C' }
    else if roll <= 9 { 'B' }
    else { 'A' }
}

/// The world size for a two-dice roll.
pub open spec fn spec_size_of_roll(roll: int) -> u8 {
    if roll <= 1 {
        0u8
    } else if roll <= 10 {
        (roll - 1) as u8
    } else {
        10u8
    }
}

/// The world size rolled on two dice.
pub fn size_of_roll(roll: u32) -> (r: u8)
    ensures
        r == spec_size_of_roll(roll as int),
        r <= 10,
{
    if roll <= 1 {
        0
    } else if roll <= 10 {
        (roll - 1) as u8
    } else {
        10
    }
}

} // verus!
