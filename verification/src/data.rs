use vstd::prelude::*;

use vstd::string::StringExecFns;

verus! {

/// The built-in pool of world names, by index.
pub open spec fn spec_planet_names() -> Seq<Seq<char>> {
    seq![
        "Avalon"@,
        "Borealis"@,
        "Caldera"@,
        "Drossel"@,
        "Erebus"@,
        "Farhaven"@,
        "Gallia"@,
        "Hesper"@,
        "Iolanthe"@,
        "Jorund"@,
        "Kestrel"@,
        "Lyceum"@,
        "Meridian"@,
        "Novara"@,
        "Oberon"@,
        "Pelagia"@,
        "Quintara"@,
        "Rhiannon"@,
        "Solace"@,
        "Tenebra"@,
    ]
}

/// The name pool handed to world generation.
pub fn get_planet_names() -> (r: Vec<String>)
    ensures
        r.deep_view() == spec_planet_names(),
        r@.len() == 20,
{
    let mut r: Vec<String> = Vec::new();
    r.push(String::from_str("Avalon"));
    r.push(String::from_str("Borealis"));
    r.push(String::from_str("Caldera"));
    r.push(String::from_str("Drossel"));
    r.push(String::from_str("Erebus"));
    r.push(String::from_str("Farhaven"));
    r.push(String::from_str("Gallia"));
    r.push(String::from_str("Hesper"));
    r.push(String::from_str("Iolanthe"));
    r.push(String::from_str("Jorund"));
    r.push(String::from_str("Kestrel"));
    r.push(String::from_str("Lyceum"));
    r.push(String::from_str("Meridian"));
    r.push(String::from_str("Novara"));
    r.push(String::from_str("Oberon"));
    r.push(String::from_str("Pelagia"));
    r.push(String::from_str("Quintara"));
    r.push(String::from_str("Rhiannon"));
    r.push(String::from_str("Solace"));
    r.push(String::from_str("Tenebra"));
    proof {
        assert(r.deep_view() =~= spec_planet_names());
    }
    r
}

} // verus!
