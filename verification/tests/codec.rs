use astromapper::{crawford_to_seed, generate_crawford_seed, init_rng, string_to_crawford,
    AstromapperError};
use astromapper::rng::{d6, roll, roll_2d6, roll_range, Substrate};

fn is_display_layout(s: &str) -> bool {
    let chars: Vec<char> = s.chars().collect();
    chars.len() == 11
        && chars
            .iter()
            .enumerate()
            .all(|(i, c)| {
                if i == 5 {
                    *c == '-'
                } else {
                    "ABCDEFGHJKLMNPQRSTUVWXYZ23456789".contains(*c)
                }
            })
}

#[test]
fn test_deterministic_rolls() {
    let mut rng = init_rng("TEST-SEED");
    let roll1 = roll_2d6(&mut rng);
    let roll2 = roll_2d6(&mut rng);

    let mut rng = init_rng("TEST-SEED");
    let roll3 = roll_2d6(&mut rng);
    let roll4 = roll_2d6(&mut rng);

    assert_eq!(roll1, roll3);
    assert_eq!(roll2, roll4);
}

#[test]
fn display_code_passes_through_unchanged() {
    assert_eq!(string_to_crawford("AAAAA-AAAAA"), "AAAAA-AAAAA");
    assert_eq!(string_to_crawford("ZR2K9-PQ8TW"), "ZR2K9-PQ8TW");
}

#[test]
fn free_text_is_hashed_to_a_display_code() {
    let a = string_to_crawford("the old republic");
    let b = string_to_crawford("the old republic");
    assert_eq!(a, b);
    assert!(is_display_layout(&a));
    // Out-of-alphabet strings never error; they fall through to the hash.
    let c = string_to_crawford("I0O1-illegal");
    assert!(is_display_layout(&c));
    assert_ne!(string_to_crawford("alpha"), string_to_crawford("beta"));
}

#[test]
fn generated_codes_have_the_display_layout() {
    let a = generate_crawford_seed();
    let b = generate_crawford_seed();
    assert!(is_display_layout(&a));
    assert!(is_display_layout(&b));
    assert_ne!(a, b);
}

#[test]
fn decoding_rejects_out_of_alphabet_codes() {
    assert!(matches!(crawford_to_seed("AAAAA-AAAA0"), Err(AstromapperError::InvalidSeedFormat)));
    assert!(matches!(crawford_to_seed("hello"), Err(AstromapperError::InvalidSeedFormat)));
    let v1 = crawford_to_seed("AAAAA-AAAAA").unwrap();
    let v2 = crawford_to_seed("AAAAA-AAAAA").unwrap();
    assert_eq!(v1, v2);
}

#[test]
fn seed_and_its_code_name_the_same_stream() {
    let code = string_to_crawford("an arbitrary campaign name");
    let mut rng1 = init_rng("an arbitrary campaign name");
    let mut rng2 = init_rng(&code);
    for _ in 0..16 {
        assert_eq!(d6(&mut rng1), d6(&mut rng2));
    }
}

#[test]
fn the_stream_varies_with_position_and_seed() {
    // A stream that ignored its seed or position would fail here.
    let mut rng = init_rng("TEST-SEED");
    let first = d6(&mut rng);
    let mut all_same = true;
    for _ in 0..32 {
        if d6(&mut rng) != first {
            all_same = false;
        }
    }
    assert!(!all_same);

    let a: Vec<u32> = {
        let mut rng = init_rng("AAAAA-AAAAA");
        (0..8).map(|_| roll(&mut rng, 2, 6)).collect()
    };
    let b: Vec<u32> = {
        let mut rng = init_rng("BBBBB-BBBBB");
        (0..8).map(|_| roll(&mut rng, 2, 6)).collect()
    };
    assert_ne!(a, b);
}

#[test]
fn rolls_stay_in_range() {
    let mut rng = Substrate::seed_with(12345);
    for _ in 0..100 {
        let d = d6(&mut rng);
        assert!((1..=6).contains(&d));
        let two = roll_2d6(&mut rng);
        assert!((2..=12).contains(&two));
        let idx = roll_range(&mut rng, 7);
        assert!(idx < 7);
    }
}
