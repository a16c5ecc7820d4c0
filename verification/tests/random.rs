use arplus::random::{Random, RandomGenerator};

#[test]
fn random_values_stay_below_the_modulo() {
    let mut generator = RandomGenerator::with_seed(42);
    for modulo in 1..=255u8 {
        for _ in 0..8 {
            assert!(generator.u8_mod(modulo) < modulo);
        }
    }
}

#[test]
fn the_seed_decides_the_sequence() {
    let mut a = RandomGenerator::with_seed(7);
    let mut b = RandomGenerator::with_seed(7);
    for _ in 0..32 {
        assert_eq!(a.u8_mod(200), b.u8_mod(200));
    }
}

#[test]
fn a_modulo_of_one_gives_zero() {
    let mut generator = RandomGenerator::with_seed(3);
    assert_eq!(generator.u8_mod(1), 0);
}
