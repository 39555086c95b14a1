use astromapper::tables::{atmosphere_table, hydrographics_table, temperature_dm};
use astromapper::{Base, Belt, EmptyOrbit, OrbitContent, OrbitType, Star, StarSize, StarType,
    Temperature, World};

#[test]
fn temperature_codes() {
    assert_eq!(Temperature::Frozen.to_code(), "F");
    assert_eq!(Temperature::Cold.to_code(), "C");
    assert_eq!(Temperature::Temperate.to_code(), "T");
    assert_eq!(Temperature::Hot.to_code(), "H");
    assert_eq!(Temperature::Roasting.to_code(), "R");
}

#[test]
fn base_codes() {
    assert_eq!(Base::Naval.to_code(), "N");
    assert_eq!(Base::Scout.to_code(), "S");
    assert_eq!(Base::Research.to_code(), "R");
    assert_eq!(Base::TAS.to_code(), "T");
    assert_eq!(Base::Imperial.to_code(), "I");
    assert_eq!(Base::PirateBase.to_code(), "P");
}

#[test]
fn profile_string_is_rebuilt_from_the_fields() {
    let mut w = World::new(2, 5);
    w.starport = 'A';
    w.size = 8;
    w.atmosphere = 6;
    w.hydrographics = 7;
    w.population = 6;
    w.government = 5;
    w.law_level = 4;
    w.tech_level = 10;
    w.update_uwp();
    assert_eq!(w.uwp, "A867654-A");

    let mut blank = World::new(0, 0);
    blank.update_uwp();
    assert_eq!(blank.uwp, "X000000-0");
}

#[test]
fn coordinate_labels_are_zero_padded() {
    let w = World::new(0, 0);
    assert_eq!(w.coords(), "0101");
    let w = World::new(9, 30);
    assert_eq!(w.coords(), "3110");
    let w = World::new(119, 119);
    assert_eq!(w.coords(), "120120");
}

#[test]
fn bases_and_trade_code_columns() {
    let mut w = World::new(0, 0);
    assert_eq!(w.bases_string(), ".");
    assert_eq!(w.trade_codes_string(), ".");
    w.bases.push(Base::Naval);
    w.bases.push(Base::Scout);
    assert_eq!(w.bases_string(), "NS");
    w.trade_codes.push("Ag".to_string());
    w.trade_codes.push("Ri".to_string());
    assert_eq!(w.trade_codes_string(), "Ag Ri");
}

#[test]
fn orbit_contents_report_their_kind() {
    let e = OrbitContent::Empty(EmptyOrbit { orbit_number: 3, au: 2400 });
    assert_eq!(e.orbit_number(), 3);
    assert_eq!(e.au(), 2400);
    assert_eq!(e.orbit_type(), OrbitType::Empty);
    assert_eq!(e.to_ascii(), "-");
    let b = OrbitContent::Belt(Belt { orbit_number: 1, au: 700 });
    assert_eq!(b.orbit_type(), OrbitType::Belt);
    assert_eq!(b.to_ascii(), "B");
}

#[test]
fn star_designations() {
    let star = Star::new(StarType::G, StarSize::V, true);
    assert_eq!(star.spectral, "G5");
    assert_eq!(star.to_string(), "G5V");
    let star = Star::new(StarType::M, StarSize::III, false);
    assert_eq!(star.to_string(), "M5III");
}

#[test]
fn duplicate_preserves_a_world() {
    let mut rng = astromapper::init_rng("TEST-SEED");
    let w = astromapper::WorldBuilder::new(3, 4).build(&mut rng);
    assert_eq!(w.duplicate(), w);
}

#[test]
fn volumes_report_coordinates_and_emptiness() {
    let v = astromapper::Volume::new(0, 0);
    assert!(v.is_empty());
    assert_eq!(v.coords(), "0101");
    let v = astromapper::Volume::new(39, 31);
    assert_eq!(v.coords(), "3240");
}

#[test]
fn atmosphere_and_hydrographics_tables() {
    assert_eq!(atmosphere_table(0), vec![0]);
    assert_eq!(atmosphere_table(2), vec![0, 0, 0, 1, 1, 1, 1, 1, 1, 1, 10, 10, 10]);
    assert_eq!(atmosphere_table(5), vec![0, 1, 2, 3, 4, 5, 6, 7, 8, 9, 10, 11, 12]);
    assert_eq!(hydrographics_table(0), vec![0; 11]);
    assert_eq!(hydrographics_table(11), vec![0; 11]);
    assert_eq!(hydrographics_table(5), vec![0, 1, 2, 3, 4, 5, 6, 7, 8, 9, 10]);
}

#[test]
fn temperature_modifier_table() {
    assert_eq!(temperature_dm(0, 2_000_001), 16);
    assert_eq!(temperature_dm(5, 1_000_000), 0);
    assert_eq!(temperature_dm(5, 499_999), -2);
    assert_eq!(temperature_dm(10, 1_500_000), -4);
    assert_eq!(temperature_dm(8, 600_000), -4);
}
