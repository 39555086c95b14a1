use astromapper::{generate_sector, generate_volume, AstromapperError, OrbitContent, Star,
    StarBuilder, StarSize, StarType, TradeCode, World, WorldBuilder};

fn world_from(seed: &str) -> World {
    let mut rng = astromapper::init_rng(seed);
    WorldBuilder::new(0, 0).build(&mut rng)
}

fn uwp_shape_ok(uwp: &str) -> bool {
    let chars: Vec<char> = uwp.chars().collect();
    chars.len() == 9 && chars[7] == '-'
}

#[test]
fn generated_worlds_have_the_profile_shape() {
    for seed in ["AAAAA-AAAAA", "TEST-SEED", "alpha", "beta", "gamma", "delta"] {
        let w = world_from(seed);
        assert!(uwp_shape_ok(&w.uwp), "bad uwp {}", w.uwp);
        assert_eq!(w.uwp.chars().next().unwrap(), w.starport);
    }
}

#[test]
fn dependent_tables_stay_consistent() {
    for n in 0..64u32 {
        let seed = format!("seed-{}", n);
        let w = world_from(&seed);
        if w.atmosphere <= 1 || w.atmosphere >= 10 {
            assert_eq!(w.hydrographics, 0);
        }
        if w.population == 0 {
            assert_eq!(w.government, 0);
            assert_eq!(w.law_level, 0);
        }
        assert!(w.size <= 10);
        assert!(w.atmosphere <= 12);
        assert!(w.hydrographics <= 10);
        assert!(w.population <= 12);
        assert!(w.government <= 15);
        assert!(w.law_level <= 15);
        assert!(w.tech_level <= 15);
    }
}

#[test]
fn trade_codes_follow_the_predicates() {
    let mut w = World::new(0, 0);
    w.starport = 'C';
    w.atmosphere = 5;
    w.hydrographics = 6;
    w.population = 6;
    let codes = TradeCode::calculate(&w);
    assert!(codes.contains(&"Ag".to_string()));

    let mut w = World::new(0, 0);
    w.starport = 'X';
    w.size = 0;
    w.atmosphere = 0;
    w.hydrographics = 0;
    let codes = TradeCode::calculate(&w);
    assert!(codes.contains(&"As".to_string()));
    assert!(codes.contains(&"Va".to_string()));

    // A rich agricultural garden world.
    let mut w = World::new(0, 0);
    w.size = 6;
    w.atmosphere = 6;
    w.hydrographics = 5;
    w.population = 6;
    w.government = 5;
    w.law_level = 5;
    w.tech_level = 8;
    let codes = TradeCode::calculate(&w);
    assert_eq!(
        codes,
        vec!["Ag".to_string(), "Ga".to_string(), "Ni".to_string(), "Ri".to_string()]
    );
}

#[test]
fn every_generated_world_recomputes_its_trade_codes() {
    for n in 0..16u32 {
        let seed = format!("tc-{}", n);
        let w = world_from(&seed);
        let again = TradeCode::calculate(&w);
        assert_eq!(w.trade_codes, again);
    }
}

#[test]
fn stars_seat_at_most_one_world() {
    for n in 0..48u32 {
        let seed = format!("star-{}", n);
        let mut rng = astromapper::init_rng(&seed);
        let star = StarBuilder::build_primary(&mut rng);
        let worlds = star
            .orbits
            .iter()
            .filter(|o| matches!(o, OrbitContent::World(_)))
            .count();
        assert!(worlds <= 1, "seed {} seated {} worlds", seed, worlds);
    }
}

#[test]
fn orbit_distances_increase_outward() {
    let star = Star::new(StarType::G, StarSize::V, true);
    let mut last = 0u64;
    for n in 0..10u8 {
        let au = star.orbit_to_au(n);
        assert!(au > last);
        last = au;
    }
    assert_eq!(star.orbit_to_au(0), 300);
    assert_eq!(star.orbit_to_au(3), 2400);

    for n in 0..24u32 {
        let seed = format!("orbits-{}", n);
        let mut rng = astromapper::init_rng(&seed);
        let star = StarBuilder::build_primary(&mut rng);
        let aus: Vec<u64> = star.orbits.iter().map(|o| o.au()).collect();
        for pair in aus.windows(2) {
            assert!(pair[0] < pair[1], "seed {}: {:?}", seed, aus);
        }
    }
}

#[test]
fn au_to_orbit_inverts_the_spacing() {
    let star = Star::new(StarType::G, StarSize::V, true);
    assert_eq!(star.au_to_orbit(0), 0);
    for n in 0..10u8 {
        assert_eq!(star.au_to_orbit(star.orbit_to_au(n)), n);
    }
    // The half-power point between slots 0 (300 mau) and 1 (600 mau)
    // sits just above 424 mau.
    assert_eq!(star.au_to_orbit(424), 0);
    assert_eq!(star.au_to_orbit(425), 1);
}

#[test]
fn star_limits_use_the_fixed_point_scales() {
    let mut star = Star::new(StarType::G, StarSize::V, true);
    star.mass = 100;
    star.luminosity = 1_000_000;
    assert_eq!(star.inner_limit(), 100);
    assert_eq!(star.outer_limit(), 40_000);
    // sqrt(1.0 solar) is 1000 milli-AU: the biozone runs 0.95 to 1.35 AU.
    assert_eq!(star.biozone(), (950, 1350));
}

#[test]
fn isqrt_matches_its_bounds() {
    assert_eq!(astromapper::star::isqrt(0), 0);
    assert_eq!(astromapper::star::isqrt(15), 3);
    assert_eq!(astromapper::star::isqrt(16), 4);
    assert_eq!(astromapper::star::isqrt(1_000_000), 1000);
    assert_eq!(astromapper::star::isqrt(999_999), 999);
}

#[test]
fn invalid_density_is_rejected() {
    assert!(matches!(
        generate_sector("Test".to_string(), "AAAAA-AAAAA".to_string(), 0),
        Err(AstromapperError::InvalidDensity)
    ));
    assert!(matches!(
        generate_sector("Test".to_string(), "AAAAA-AAAAA".to_string(), 1001),
        Err(AstromapperError::InvalidDensity)
    ));
}

#[test]
fn generate_volume_is_deterministic() {
    let a = generate_volume("AAAAA-AAAAA".to_string(), 0, 0).unwrap();
    let b = generate_volume("AAAAA-AAAAA".to_string(), 0, 0).unwrap();
    assert_eq!(a, b);
    assert_eq!(a.row, 0);
    assert_eq!(a.col, 0);
}

#[test]
fn a_full_density_single_cell_sector_repeats_exactly() {
    let a = generate_sector("Golden".to_string(), "AAAAA-AAAAA".to_string(), 1000).unwrap();
    let b = generate_sector("Golden".to_string(), "AAAAA-AAAAA".to_string(), 1000).unwrap();
    assert_eq!(a, b);
    assert_eq!(a.width, 32);
    assert_eq!(a.height, 40);
    // At full density every cell's gate passes, so every cell is populated.
    for row in 0..40 {
        for col in 0..32 {
            assert!(a.get_volume(row, col).is_some());
        }
    }
}

#[test]
fn sectors_differ_between_seeds() {
    let a = generate_sector("S".to_string(), "AAAAA-AAAAA".to_string(), 500).unwrap();
    let b = generate_sector("S".to_string(), "BBBBB-BBBBB".to_string(), 500).unwrap();
    assert_ne!(a.volumes, b.volumes);
}

#[test]
fn system_count_counts_settled_volumes() {
    let sec = generate_sector("S".to_string(), "AAAAA-AAAAA".to_string(), 500).unwrap();
    let mut by_hand = 0usize;
    for row in 0..40 {
        for col in 0..32 {
            if let Some(v) = sec.get_volume(row, col) {
                if v.world.is_some() {
                    by_hand += 1;
                }
            }
        }
    }
    assert_eq!(sec.system_count(), by_hand);
}
