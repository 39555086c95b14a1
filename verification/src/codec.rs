use vstd::prelude::*;

use crate::error::AstromapperError;
use crate::rng::Substrate;
use vstd::string::{StrSliceExecFns, StringExecFns};

verus! {

// A display code is the human-shareable form of a generation seed: eleven
// characters in the layout `XXXXX-XXXXX`, drawn from an alphabet of the
// upper-case letters and digits minus the visually ambiguous I, O, 0 and 1
// (32 symbols).

/// Whether `c` belongs to the display-code alphabet.
pub open spec fn in_alphabet(c: char) -> bool {
    ||| (65 <= c as u32 <= 90 && c as u32 != 73 && c as u32 != 79)
    ||| (50 <= c as u32 <= 57)
}

/// Whether `s` has the exact display-code layout: eleven characters, a dash
/// in the middle, every other character in the alphabet.
pub open spec fn is_display_code(s: Seq<char>) -> bool {
    &&& s.len() == 11
    &&& s[5] == '-'
    &&& forall|j: int| 0 <= j < 11 && j != 5 ==> in_alphabet(#[trigger] s[j])
}

/// The alphabet, by index.
pub open spec fn alpha_char(i: int) -> char {
    if i == 0 { 'A' }
    else if i == 1 { 'B' }
    else if i == 2 { 'C' }
    else if i == 3 { 'D' }
    else if i == 4 { 'E' }
    else if i == 5 { 'F' }
    else if i == 6 { 'G' }
    else if i == 7 { 'H' }
    else if i == 8 { 'J' }
    else if i == 9 { 'K' }
    else if i == 10 { 'L' }
    else if i == 11 { 'M' }
    else if i == 12 { 'N' }
    else if i == 13 { 'P' }
    else if i == 14 { 'Q' }
    else if i == 15 { 'R' }
    else if i == 16 { 'S' }
    else if i == 17 { 'T' }
    else if i == 18 { 'U' }
    else if i == 19 { 'V' }
    else if i == 20 { 'W' }
    else if i == 21 { 'X' }
    else if i == 22 { 'Y' }
    else if i == 23 { 'Z' }
    else if i == 24 { '2' }
    else if i == 25 { '3' }
    else if i == 26 { '4' }
    else if i == 27 { '5' }
    else if i == 28 { '6' }
    else if i == 29 { '7' }
    else if i == 30 { '8' }
    else { '9' }
}

proof fn lemma_alpha_char_in_alphabet(i: int)
    requires
        0 <= i < 32,
    ensures
        in_alphabet(alpha_char(i)),
{
}

// Free-text seeds are folded to 64 bits with the FNV-1a hash over the
// string's characters (each code point xor-ed in, then multiplied by the
// FNV prime modulo 2^64). The hash is fixed here once and for all: it does
// not vary by process, platform or release, so a seed string names the same
// sector everywhere.

/// One FNV-1a step: fold character `c` into state `h`.
pub open spec fn fnv_step(h: u64, c: char) -> u64 {
    vstd::wrapping::u64_specs::wrapping_mul(h ^ ((c as u32) as u64), 0x100000001b3)
}

/// The FNV-1a state after folding in the first `n` characters of `s`.
pub open spec fn fnv_prefix(s: Seq<char>, n: int) -> u64
    decreases n,
{
    if n <= 0 {
        0xcbf29ce484222325u64
    } else {
        fnv_step(fnv_prefix(s, n - 1), s[n - 1])
    }
}

/// The 64-bit seed value a string stands for.
pub open spec fn string_seed(s: Seq<char>) -> u64 {
    fnv_prefix(s, s.len() as int)
}

/// The display-code character taken from the `i`-th six-bit window of `h`.
pub open spec fn code_char(h: u64, i: int) -> char
    recommends
        0 <= i < 10,
{
    alpha_char(((h >> ((i * 6) as u64)) % 32) as int)
}

/// The display code derived from hash value `h`: ten alphabet characters
/// from consecutive six-bit windows, with the dash in the middle.
pub open spec fn hashed_code(h: u64) -> Seq<char> {
    Seq::new(
        11,
        |j: int|
            if j == 5 {
                '-'
            } else if j < 5 {
                code_char(h, j)
            } else {
                code_char(h, j - 1)
            },
    )
}

/// Every derived code has the display layout.
proof fn lemma_hashed_code_valid(h: u64)
    ensures
        is_display_code(hashed_code(h)),
{
    assert forall|j: int| 0 <= j < 11 && j != 5 implies in_alphabet(#[trigger] hashed_code(h)[j]) by {
        if j < 5 {
            lemma_alpha_char_in_alphabet(((h >> ((j * 6) as u64)) % 32) as int);
        } else {
            lemma_alpha_char_in_alphabet(((h >> (((j - 1) * 6) as u64)) % 32) as int);
        }
    }
}

/// Whether a string already is a display code.
pub fn is_display(s: &str) -> (r: bool)
    ensures
        r == is_display_code(s@),
{
    let n = s.unicode_len();
    if n != 11 {
        return false;
    }
    let mut j: usize = 0;
    while j < 11
        invariant
            s@.len() == 11,
            j <= 11,
            forall|t: int| 0 <= t < j && t != 5 ==> in_alphabet(#[trigger] s@[t]),
            j > 5 ==> s@[5] == '-',
        decreases 11 - j,
    {
        let c = s.get_char(j);
        if j == 5 {
            if c != '-' {
                return false;
            }
        } else {
            let u = c as u32;
            let ok = (65 <= u && u <= 90 && u != 73 && u != 79) || (50 <= u && u <= 57);
            if !ok {
                return false;
            }
        }
        j = j + 1;
    }
    true
}

/// The fixed FNV-1a hash of a string's characters.
fn fnv_of(s: &str) -> (r: u64)
    ensures
        r == string_seed(s@),
{
    let n = s.unicode_len();
    let mut h: u64 = 0xcbf29ce484222325;
    let mut i: usize = 0;
    while i < n
        invariant
            n == s@.len(),
            i <= n,
            h == fnv_prefix(s@, i as int),
        decreases n - i,
    {
        let c = s.get_char(i);
        h = (h ^ ((c as u32) as u64)).wrapping_mul(0x100000001b3);
        i = i + 1;
    }
    h
}

/// The alphabet, by index, as a one-character string.
fn alpha_str(idx: u64) -> (r: &'static str)
    requires
        idx < 32,
    ensures
        r@.len() == 1,
        r@[0] == alpha_char(idx as int),
{
    match idx {
        0 => { proof { reveal_strlit("A"); } "A" },
        1 => { proof { reveal_strlit("B"); } "B" },
        2 => { proof { reveal_strlit("C"); } "C" },
        3 => { proof { reveal_strlit("D"); } "D" },
        4 => { proof { reveal_strlit("E"); } "E" },
        5 => { proof { reveal_strlit("F"); } "F" },
        6 => { proof { reveal_strlit("G"); } "G" },
        7 => { proof { reveal_strlit("H"); } "H" },
        8 => { proof { reveal_strlit("J"); } "J" },
        9 => { proof { reveal_strlit("K"); } "K" },
        10 => { proof { reveal_strlit("L"); } "L" },
        11 => { proof { reveal_strlit("M"); } "M" },
        12 => { proof { reveal_strlit("N"); } "N" },
        13 => { proof { reveal_strlit("P"); } "P" },
        14 => { proof { reveal_strlit("Q"); } "Q" },
        15 => { proof { reveal_strlit("R"); } "R" },
        16 => { proof { reveal_strlit("S"); } "S" },
        17 => { proof { reveal_strlit("T"); } "T" },
        18 => { proof { reveal_strlit("U"); } "U" },
        19 => { proof { reveal_strlit("V"); } "V" },
        20 => { proof { reveal_strlit("W"); } "W" },
        21 => { proof { reveal_strlit("X"); } "X" },
        22 => { proof { reveal_strlit("Y"); } "Y" },
        23 => { proof { reveal_strlit("Z"); } "Z" },
        24 => { proof { reveal_strlit("2"); } "2" },
        25 => { proof { reveal_strlit("3"); } "3" },
        26 => { proof { reveal_strlit("4"); } "4" },
        27 => { proof { reveal_strlit("5"); } "5" },
        28 => { proof { reveal_strlit("6"); } "6" },
        29 => { proof { reveal_strlit("7"); } "7" },
        30 => { proof { reveal_strlit("8"); } "8" },
        _ => { proof { reveal_strlit("9"); } "9" },
    }
}

/// Build the display code that hash value `h` stands for.
fn code_from_hash(h: u64) -> (r: String)
    ensures
        r@ == hashed_code(h),
        is_display_code(r@),
{
    let mut out = String::new();
    out.append(alpha_str((h >> 0) % 32));
    out.append(alpha_str((h >> 6) % 32));
    out.append(alpha_str((h >> 12) % 32));
    out.append(alpha_str((h >> 18) % 32));
    out.append(alpha_str((h >> 24) % 32));
    proof {
        reveal_strlit("-");
    }
    out.append("-");
    out.append(alpha_str((h >> 30) % 32));
    out.append(alpha_str((h >> 36) % 32));
    out.append(alpha_str((h >> 42) % 32));
    out.append(alpha_str((h >> 48) % 32));
    out.append(alpha_str((h >> 54) % 32));
    proof {
        assert(out@ =~= hashed_code(h));
        lemma_hashed_code_valid(h);
    }
    out
}

/// Fold an arbitrary seed string to a display code. A string that already
/// has the display layout passes through unchanged; anything else — any
/// free-text name — is hashed, never rejected.
pub fn string_to_crawford(input: &str) -> (r: String)
    ensures
        is_display_code(input@) ==> r@ == input@,
        !is_display_code(input@) ==> r@ == hashed_code(string_seed(input@)),
        is_display_code(r@),
{
    if is_display(input) {
        input.to_owned()
    } else {
        let h = fnv_of(input);
        code_from_hash(h)
    }
}

/// Relies on rand::random: a value of the requested type drawn from the
/// thread-local generator. Nothing is promised of the value.
pub assume_specification<T>[ rand::random::<T> ]() -> (r: T)
    where
        rand::distr::StandardUniform: rand::distr::Distribution<T>,
;

/// Draw a fresh display code. The code is random; only its layout is fixed.
pub fn generate_crawford_seed() -> (r: String)
    ensures
        is_display_code(r@),
{
    let h: u64 = rand::random();
    code_from_hash(h)
}

/// The 64-bit substrate seed a display code names: the fixed hash of the
/// code itself. Fails exactly on strings without the display layout.
pub fn crawford_to_seed(code: &str) -> (r: Result<u64, AstromapperError>)
    ensures
        match r {
            Ok(v) => is_display_code(code@) && v == string_seed(code@),
            Err(e) => !is_display_code(code@) && e == AstromapperError::InvalidSeedFormat,
        },
{
    if is_display(code) {
        Ok(fnv_of(code))
    } else {
        Err(AstromapperError::InvalidSeedFormat)
    }
}

/// The substrate seed that an arbitrary seed string leads to, through the
/// display-code round trip.
pub open spec fn seed_of_string(s: Seq<char>) -> u64 {
    if is_display_code(s) {
        string_seed(s)
    } else {
        string_seed(hashed_code(string_seed(s)))
    }
}

/// Seed a substrate from a seed string: the string is folded to its display
/// code and the code's hash seeds the stream.
pub fn init_rng(seed: &str) -> (r: Substrate)
    ensures
        r.index == 0,
        r.seed == seed_of_string(seed@),
{
    let code = string_to_crawford(seed);
    let v = fnv_of(code.as_str());
    Substrate::seed_with(v)
}

} // verus!
