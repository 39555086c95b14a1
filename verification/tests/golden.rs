// A fixed seed pins one small scenario end to end; any change in the roll
// chain or the tables shows up here as a changed field.

use astromapper::{crawford_to_seed, Belt, EmptyOrbit, GasGiant, GiantSize, Hostile, Moon,
    OrbitContent, Rockball, SectorBuilder, StarSize, StarType, WorldBuilder};

#[test]
fn the_fixed_code_names_a_fixed_seed_value() {
    assert_eq!(crawford_to_seed("AAAAA-AAAAA").unwrap(), 7700390142455818102);
    let mut rng = astromapper::init_rng("AAAAA-AAAAA");
    assert_eq!(rng.seed, 7700390142455818102);
    assert_eq!(rng.index, 0);
    let _ = &mut rng;
}

#[test]
fn a_single_cell_sector_reproduces_its_golden_record() {
    let mut rng = astromapper::init_rng("AAAAA-AAAAA");
    let sec = SectorBuilder::new("Golden".to_string(), 1, 1, 1000).build(&mut rng);
    assert_eq!(sec.width, 1);
    assert_eq!(sec.height, 1);
    let v = sec.get_volume(0, 0).expect("full density populates the cell");

    assert!(v.world.is_none());
    assert_eq!(v.name, "Lyceum");
    let star = v.star.as_ref().expect("the cell rolled a system");
    assert_eq!(star.star_type, StarType::M);
    assert_eq!(star.star_size, StarSize::V);
    assert_eq!(star.spectral, "M8");
    assert_eq!(star.mass, 30);
    assert_eq!(star.luminosity, 40_000);
    assert_eq!(star.temperature, 3000);
    assert_eq!(star.bode_constant, 600);
    assert_eq!(
        star.orbits,
        vec![
            OrbitContent::Empty(EmptyOrbit { orbit_number: 0, au: 600 }),
            OrbitContent::Belt(Belt { orbit_number: 1, au: 1200 }),
            OrbitContent::Rockball(Rockball { orbit_number: 2, au: 2400 }),
            OrbitContent::GasGiant(GasGiant {
                orbit_number: 3,
                au: 4800,
                size: GiantSize::Small,
                moons: vec![
                    Moon { orbit: 0, orbital_radius: 2, size: 0 },
                    Moon { orbit: 1, orbital_radius: 45, size: 2 },
                    Moon { orbit: 2, orbital_radius: 1, size: 0 },
                ],
            }),
            OrbitContent::Hostile(Hostile {
                orbit_number: 4,
                au: 9600,
                atmosphere: 5,
                hydrographics: 0,
            }),
        ]
    );
}

#[test]
fn a_single_world_reproduces_its_golden_record() {
    let mut rng = astromapper::init_rng("AAAAA-AAAAA");
    let w = WorldBuilder::new(0, 0).build(&mut rng);
    assert_eq!(w.uwp, "DA77222-4");
    assert_eq!(w.starport, 'D');
    assert_eq!(w.size, 10);
    assert_eq!(w.atmosphere, 7);
    assert_eq!(w.hydrographics, 7);
    assert_eq!(w.population, 2);
    assert_eq!(w.government, 2);
    assert_eq!(w.law_level, 2);
    assert_eq!(w.tech_level, 4);
    assert_eq!(w.bases_string(), "S");
    assert_eq!(w.trade_codes, vec!["Lo".to_string(), "Lt".to_string()]);
    assert_eq!(w.factions, vec!["N".to_string(), "S".to_string(), "S".to_string()]);
    assert_eq!(w.name, "World-0101");
}
