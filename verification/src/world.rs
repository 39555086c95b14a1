use vstd::prelude::*;

use vstd::string::{StrSliceExecFns, StringExecFns};

verus! {

/// The temperature band a world falls in.
#[derive(Debug, Clone, Copy, PartialEq, Eq, Structural)]
pub enum Temperature {
    Frozen,
    Cold,
    Temperate,
    Hot,
    Roasting,
}

/// The one-letter code of a temperature band.
pub open spec fn spec_temp_code(t: Temperature) -> Seq<char> {
    match t {
        Temperature::Frozen => seq!['F'],
        Temperature::Cold => seq!['C'],
        Temperature::Temperate => seq!['T'],
        Temperature::Hot => seq!['H'],
        Temperature::Roasting => seq!['R'],
    }
}

impl Temperature {
    /// The band's one-letter code.
    pub fn to_code(&self) -> (r: &'static str)
        ensures
            r@ == spec_temp_code(*self),
    {
        match self {
            Temperature::Frozen => {
                proof { reveal_strlit("F"); assert("F"@ =~= spec_temp_code(*self)); }
                "F"
            },
            Temperature::Cold => {
                proof { reveal_strlit("C"); assert("C"@ =~= spec_temp_code(*self)); }
                "C"
            },
            Temperature::Temperate => {
                proof { reveal_strlit("T"); assert("T"@ =~= spec_temp_code(*self)); }
                "T"
            },
            Temperature::Hot => {
                proof { reveal_strlit("H"); assert("H"@ =~= spec_temp_code(*self)); }
                "H"
            },
            Temperature::Roasting => {
                proof { reveal_strlit("R"); assert("R"@ =~= spec_temp_code(*self)); }
                "R"
            },
        }
    }
}

/// A military or civilian installation seated on a world.
#[derive(Debug, Clone, Copy, PartialEq, Eq, Structural)]
pub enum Base {
    Naval,
    Scout,
    Research,
    TAS,
    Imperial,
    PirateBase,
}

/// The one-letter code of a base.
pub open spec fn spec_base_code(b: Base) -> Seq<char> {
    match b {
        Base::Naval => seq!['N'],
        Base::Scout => seq!['S'],
        Base::Research => seq!['R'],
        Base::TAS => seq!['T'],
        Base::Imperial => seq!['I'],
        Base::PirateBase => seq!['P'],
    }
}

impl Base {
    /// The base's one-letter code.
    pub fn to_code(&self) -> (r: &'static str)
        ensures
            r@ == spec_base_code(*self),
    {
        match self {
            Base::Naval => {
                proof { reveal_strlit("N"); assert("N"@ =~= spec_base_code(*self)); }
                "N"
            },
            Base::Scout => {
                proof { reveal_strlit("S"); assert("S"@ =~= spec_base_code(*self)); }
                "S"
            },
            Base::Research => {
                proof { reveal_strlit("R"); assert("R"@ =~= spec_base_code(*self)); }
                "R"
            },
            Base::TAS => {
                proof { reveal_strlit("T"); assert("T"@ =~= spec_base_code(*self)); }
                "T"
            },
            Base::Imperial => {
                proof { reveal_strlit("I"); assert("I"@ =~= spec_base_code(*self)); }
                "I"
            },
            Base::PirateBase => {
                proof { reveal_strlit("P"); assert("P"@ =~= spec_base_code(*self)); }
                "P"
            },
        }
    }
}

/// A habitable world's full statistic block.
#[derive(Debug, Clone, PartialEq)]
pub struct World {
    pub name: String,
    pub uwp: String,
    pub starport: char,
    pub size: u8,
    pub atmosphere: u8,
    pub hydrographics: u8,
    pub population: u8,
    pub government: u8,
    pub law_level: u8,
    pub tech_level: u8,
    pub temperature: Temperature,
    pub bases: Vec<Base>,
    pub trade_codes: Vec<String>,
    pub factions: Vec<String>,
    pub gas_giant: bool,
    pub row: usize,
    pub col: usize,
}

/// The upper-case hexadecimal digit for `d`.
pub open spec fn hex_char(d: int) -> char {
    if d == 0 { '0' }
    else if d == 1 { '1' }
    else if d == 2 { '2' }
    else if d == 3 { '3' }
    else if d == 4 { '4' }
    else if d == 5 { '5' }
    else if d == 6 { '6' }
    else if d == 7 { '7' }
    else if d == 8 { '8' }
    else if d == 9 { '9' }
    else if d == 10 { 'A' }
    else if d == 11 { 'B' }
    else if d == 12 { 'C' }
    else if d == 13 { 'D' }
    else if d == 14 { 'E' }
    else { 'F' }
}

/// The upper-case hexadecimal digit for `d`, as a one-character string.
pub fn hex_str(d: u8) -> (r: &'static str)
    requires
        d <= 15,
    ensures
        r@.len() == 1,
        r@[0] == hex_char(d as int),
{
    match d {
        0 => { proof { reveal_strlit("0"); } "0" },
        1 => { proof { reveal_strlit("1"); } "1" },
        2 => { proof { reveal_strlit("2"); } "2" },
        3 => { proof { reveal_strlit("3"); } "3" },
        4 => { proof { reveal_strlit("4"); } "4" },
        5 => { proof { reveal_strlit("5"); } "5" },
        6 => { proof { reveal_strlit("6"); } "6" },
        7 => { proof { reveal_strlit("7"); } "7" },
        8 => { proof { reveal_strlit("8"); } "8" },
        9 => { proof { reveal_strlit("9"); } "9" },
        10 => { proof { reveal_strlit("A"); } "A" },
        11 => { proof { reveal_strlit("B"); } "B" },
        12 => { proof { reveal_strlit("C"); } "C" },
        13 => { proof { reveal_strlit("D"); } "D" },
        14 => { proof { reveal_strlit("E"); } "E" },
        _ => { proof { reveal_strlit("F"); } "F" },
    }
}

/// The starport classes a world can carry.
pub open spec fn is_starport(c: char) -> bool {
    c == 'A' || c == 'B' || c == 'C' || c == 'D' || c == 'E' || c == 'X'
}

/// A starport class as a one-character string.
pub fn starport_str(c: char) -> (r: &'static str)
    requires
        is_starport(c),
    ensures
        r@.len() == 1,
        r@[0] == c,
{
    if c == 'A' { proof { reveal_strlit("A"); } "A" }
    else if c == 'B' { proof { reveal_strlit("B"); } "B" }
    else if c == 'C' { proof { reveal_strlit("C"); } "C" }
    else if c == 'D' { proof { reveal_strlit("D"); } "D" }
    else if c == 'E' { proof { reveal_strlit("E"); } "E" }
    else { proof { reveal_strlit("X"); } "X" }
}

/// The universal world profile: starport class, six statistic digits, a
/// dash, and the tech-level digit — nine characters in all.
pub open spec fn spec_uwp(
    starport: char,
    size: u8,
    atmosphere: u8,
    hydrographics: u8,
    population: u8,
    government: u8,
    law_level: u8,
    tech_level: u8,
) -> Seq<char> {
    seq![
        starport,
        hex_char(size as int),
        hex_char(atmosphere as int),
        hex_char(hydrographics as int),
        hex_char(population as int),
        hex_char(government as int),
        hex_char(law_level as int),
        '-',
        hex_char(tech_level as int),
    ]
}

/// The profile string is nine characters long and carries its dash right
/// before the final (tech level) digit; every other character is the
/// starport letter or a hexadecimal digit.
pub proof fn lemma_uwp_shape(
    starport: char,
    size: u8,
    atmosphere: u8,
    hydrographics: u8,
    population: u8,
    government: u8,
    law_level: u8,
    tech_level: u8,
)
    ensures
        spec_uwp(starport, size, atmosphere, hydrographics, population, government, law_level,
            tech_level).len() == 9,
        spec_uwp(starport, size, atmosphere, hydrographics, population, government, law_level,
            tech_level)[7] == '-',
        spec_uwp(starport, size, atmosphere, hydrographics, population, government, law_level,
            tech_level)[0] == starport,
{
}

/// Build a profile string from its eight fields.
pub fn uwp_string(
    starport: char,
    size: u8,
    atmosphere: u8,
    hydrographics: u8,
    population: u8,
    government: u8,
    law_level: u8,
    tech_level: u8,
) -> (r: String)
    requires
        is_starport(starport),
        size <= 15,
        atmosphere <= 15,
        hydrographics <= 15,
        population <= 15,
        government <= 15,
        law_level <= 15,
        tech_level <= 15,
    ensures
        r@ == spec_uwp(starport, size, atmosphere, hydrographics, population, government,
            law_level, tech_level),
{
    let mut out = String::new();
    out.append(starport_str(starport));
    out.append(hex_str(size));
    out.append(hex_str(atmosphere));
    out.append(hex_str(hydrographics));
    out.append(hex_str(population));
    out.append(hex_str(government));
    out.append(hex_str(law_level));
    proof {
        reveal_strlit("-");
    }
    out.append("-");
    out.append(hex_str(tech_level));
    proof {
        assert(out@ =~= spec_uwp(starport, size, atmosphere, hydrographics, population,
            government, law_level, tech_level));
    }
    out
}

/// The decimal digits of `n`, most significant first.
pub open spec fn dec_seq(n: int) -> Seq<char>
    recommends
        n >= 0,
    decreases n,
{
    if n < 10 {
        seq![hex_char(n)]
    } else {
        dec_seq(n / 10).push(hex_char(n % 10))
    }
}

/// The decimal digits of `n`, zero-padded on the left to two characters.
pub open spec fn pad2_seq(n: int) -> Seq<char>
    recommends
        n >= 0,
{
    if n < 10 {
        seq!['0', hex_char(n)]
    } else {
        dec_seq(n)
    }
}

/// The decimal digits of `n` as a string.
pub fn dec_str(n: usize) -> (r: String)
    ensures
        r@ == dec_seq(n as int),
    decreases n,
{
    if n < 10 {
        let s = hex_str(n as u8);
        let r = s.to_owned();
        proof {
            assert(r@ =~= dec_seq(n as int));
        }
        r
    } else {
        let mut r = dec_str(n / 10);
        r.append(hex_str((n % 10) as u8));
        proof {
            assert(r@ =~= dec_seq(n as int));
        }
        r
    }
}

/// The decimal digits of `n`, zero-padded to at least two characters.
pub fn pad2_str(n: usize) -> (r: String)
    ensures
        r@ == pad2_seq(n as int),
{
    if n < 10 {
        proof {
            reveal_strlit("0");
        }
        let mut r = "0".to_owned();
        r.append(hex_str(n as u8));
        proof {
            assert(r@ =~= pad2_seq(n as int));
        }
        r
    } else {
        dec_str(n)
    }
}

/// The grid coordinate label of a cell: one-based column then row, each
/// zero-padded to two digits.
pub open spec fn spec_coords(row: int, col: int) -> Seq<char> {
    pad2_seq(col + 1) + pad2_seq(row + 1)
}

/// The one-letter base codes in order, with no separator.
pub open spec fn bases_code_seq(bs: Seq<Base>, n: int) -> Seq<char>
    decreases n,
{
    if n <= 0 {
        Seq::empty()
    } else {
        bases_code_seq(bs, n - 1) + spec_base_code(bs[n - 1])
    }
}

/// The bases column: the base codes run together, or a dot when there are
/// none.
pub open spec fn spec_bases_string(bs: Seq<Base>) -> Seq<char> {
    if bs.len() == 0 {
        seq!['.']
    } else {
        bases_code_seq(bs, bs.len() as int)
    }
}

/// A list of words joined with single spaces.
pub open spec fn join_spaced(ts: Seq<Seq<char>>, n: int) -> Seq<char>
    decreases n,
{
    if n <= 0 {
        Seq::empty()
    } else if n == 1 {
        ts[0]
    } else {
        join_spaced(ts, n - 1) + seq![' '] + ts[n - 1]
    }
}

/// The trade-code column: the codes joined with spaces, or a dot when there
/// are none.
pub open spec fn spec_trade_codes_string(ts: Seq<Seq<char>>) -> Seq<char> {
    if ts.len() == 0 {
        seq!['.']
    } else {
        join_spaced(ts, ts.len() as int)
    }
}

impl World {
    /// A blank world at the given cell, every statistic at its floor.
    pub fn new(row: usize, col: usize) -> (r: World)
        ensures
            r.name@ =~= Seq::<char>::empty(),
            r.uwp@ =~= Seq::<char>::empty(),
            r.starport == 'X',
            r.size == 0,
            r.atmosphere == 0,
            r.hydrographics == 0,
            r.population == 0,
            r.government == 0,
            r.law_level == 0,
            r.tech_level == 0,
            r.temperature == Temperature::Temperate,
            r.bases@ =~= Seq::<Base>::empty(),
            r.trade_codes@.len() == 0,
            r.factions@.len() == 0,
            r.gas_giant == false,
            r.row == row,
            r.col == col,
    {
        World {
            name: String::new(),
            uwp: String::new(),
            starport: 'X',
            size: 0,
            atmosphere: 0,
            hydrographics: 0,
            population: 0,
            government: 0,
            law_level: 0,
            tech_level: 0,
            temperature: Temperature::Temperate,
            bases: Vec::new(),
            trade_codes: Vec::new(),
            factions: Vec::new(),
            gas_giant: false,
            row,
            col,
        }
    }

    /// The world's coordinate label.
    pub fn coords(&self) -> (r: String)
        requires
            self.row < usize::MAX,
            self.col < usize::MAX,
        ensures
            r@ == spec_coords(self.row as int, self.col as int),
    {
        let mut r = pad2_str(self.col + 1);
        let rr = pad2_str(self.row + 1);
        r.append(rr.as_str());
        r
    }

    /// Recompute the profile string from the current statistics.
    pub fn update_uwp(&mut self)
        requires
            is_starport(old(self).starport),
            old(self).size <= 15,
            old(self).atmosphere <= 15,
            old(self).hydrographics <= 15,
            old(self).population <= 15,
            old(self).government <= 15,
            old(self).law_level <= 15,
            old(self).tech_level <= 15,
        ensures
            final(self).uwp@ == spec_uwp(old(self).starport, old(self).size,
                old(self).atmosphere, old(self).hydrographics, old(self).population,
                old(self).government, old(self).law_level, old(self).tech_level),
            *final(self) == (World { uwp: final(self).uwp, ..*old(self) }),
    {
        self.uwp = uwp_string(self.starport, self.size, self.atmosphere, self.hydrographics,
            self.population, self.government, self.law_level, self.tech_level);
    }

    /// The bases column of the world's table row.
    pub fn bases_string(&self) -> (r: String)
        ensures
            r@ == spec_bases_string(self.bases@),
    {
        if self.bases.len() == 0 {
            proof {
                reveal_strlit(".");
            }
            let r = ".".to_owned();
            proof {
                assert(r@ =~= spec_bases_string(self.bases@));
            }
            r
        } else {
            let mut out = String::new();
            let mut i: usize = 0;
            while i < self.bases.len()
                invariant
                    i <= self.bases@.len(),
                    out@ == bases_code_seq(self.bases@, i as int),
                decreases self.bases@.len() - i,
            {
                out.append(self.bases[i].to_code());
                i = i + 1;
            }
            out
        }
    }

    /// The trade-code column of the world's table row.
    pub fn trade_codes_string(&self) -> (r: String)
        ensures
            r@ == spec_trade_codes_string(self.trade_codes.deep_view()),
    {
        if self.trade_codes.len() == 0 {
            proof {
                reveal_strlit(".");
            }
            let r = ".".to_owned();
            proof {
                assert(r@ =~= spec_trade_codes_string(self.trade_codes.deep_view()));
            }
            r
        } else {
            let ghost ts = self.trade_codes.deep_view();
            let mut out = String::new();
            let mut i: usize = 0;
            while i < self.trade_codes.len()
                invariant
                    self.trade_codes.deep_view() == ts,
                    i <= ts.len(),
                    out@ == join_spaced(ts, i as int),
                decreases ts.len() - i,
            {
                if i > 0 {
                    proof {
                        reveal_strlit(" ");
                    }
                    out.append(" ");
                    proof {
                        assert(" "@ =~= seq![' ']);
                    }
                }
                out.append(self.trade_codes[i].as_str());
                proof {
                    assert(self.trade_codes[i as int]@ == ts[i as int]);
                }
                i = i + 1;
            }
            out
        }
    }
}

/// Two worlds with the same content: every statistic equal and every
/// string and list equal as values.
pub open spec fn world_like(a: World, b: World) -> bool {
    &&& a.name@ == b.name@
    &&& a.uwp@ == b.uwp@
    &&& a.starport == b.starport
    &&& a.size == b.size
    &&& a.atmosphere == b.atmosphere
    &&& a.hydrographics == b.hydrographics
    &&& a.population == b.population
    &&& a.government == b.government
    &&& a.law_level == b.law_level
    &&& a.tech_level == b.tech_level
    &&& a.temperature == b.temperature
    &&& a.bases@ == b.bases@
    &&& a.trade_codes.deep_view() == b.trade_codes.deep_view()
    &&& a.factions.deep_view() == b.factions.deep_view()
    &&& a.gas_giant == b.gas_giant
    &&& a.row == b.row
    &&& a.col == b.col
}

/// A copy of a string list, element for element.
fn clone_string_vec(v: &Vec<String>) -> (r: Vec<String>)
    ensures
        r.deep_view() == v.deep_view(),
{
    let mut r: Vec<String> = Vec::new();
    let mut i: usize = 0;
    while i < v.len()
        invariant
            i <= v@.len(),
            r@.len() == i,
            forall|t: int| 0 <= t < i ==> #[trigger] r@[t]@ == v@[t]@,
        decreases v@.len() - i,
    {
        r.push(v[i].clone());
        i = i + 1;
    }
    proof {
        assert(r.deep_view() =~= v.deep_view());
    }
    r
}

impl World {
    /// A copy with the same content. The copy is pinned field by field,
    /// where a derived clone would promise nothing.
    pub fn duplicate(&self) -> (r: World)
        ensures
            world_like(r, *self),
    {
        let mut bases: Vec<Base> = Vec::new();
        let mut i: usize = 0;
        while i < self.bases.len()
            invariant
                i <= self.bases@.len(),
                bases@ == self.bases@.take(i as int),
            decreases self.bases@.len() - i,
        {
            bases.push(self.bases[i]);
            proof {
                assert(bases@ =~= self.bases@.take(i as int + 1));
            }
            i = i + 1;
        }
        proof {
            assert(bases@ =~= self.bases@);
        }
        World {
            name: self.name.clone(),
            uwp: self.uwp.clone(),
            starport: self.starport,
            size: self.size,
            atmosphere: self.atmosphere,
            hydrographics: self.hydrographics,
            population: self.population,
            government: self.government,
            law_level: self.law_level,
            tech_level: self.tech_level,
            temperature: self.temperature,
            bases,
            trade_codes: clone_string_vec(&self.trade_codes),
            factions: clone_string_vec(&self.factions),
            gas_giant: self.gas_giant,
            row: self.row,
            col: self.col,
        }
    }
}

} // verus!
