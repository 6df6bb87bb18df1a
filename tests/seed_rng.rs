use earth::seed::{parse_seed, seed_text, SeedParseError};
use earth::EarthRng;

#[test]
fn seed_text_is_decimal() {
    assert_eq!(seed_text(0), b"0".to_vec());
    assert_eq!(seed_text(7), b"7".to_vec());
    assert_eq!(seed_text(1234567890), b"1234567890".to_vec());
    assert_eq!(seed_text(u64::MAX), b"18446744073709551615".to_vec());
}

#[test]
fn parse_seed_values() {
    assert_eq!(parse_seed(b"0"), Ok(0));
    assert_eq!(parse_seed(b"42"), Ok(42));
    assert_eq!(parse_seed(b"+7"), Ok(7));
    assert_eq!(parse_seed(b"007"), Ok(7));
    assert_eq!(parse_seed(b"18446744073709551615"), Ok(u64::MAX));
}

#[test]
fn parse_seed_errors() {
    for bad in [&b""[..], b"+", b"-1", b"12a", b" 12", b"12\n", b"18446744073709551616", b"\xff\xfe", b"99999999999999999999"] {
        assert_eq!(parse_seed(bad), Err(SeedParseError));
    }
}

#[test]
fn save_then_load_round_trips() {
    for seed in [0u64, 1, 9, 10, 99, 100, 4096, 987654321012345678, u64::MAX - 1, u64::MAX] {
        assert_eq!(parse_seed(&seed_text(seed)), Ok(seed));
        let mut rng = EarthRng::with_seed(3);
        assert_eq!(rng.load_seed(&seed_text(seed)), Ok(()));
        assert_eq!(rng.get_seed(), seed);
    }
}

#[test]
fn failed_load_keeps_state() {
    let mut rng = EarthRng::with_seed(55);
    assert_eq!(rng.load_seed(b"not a seed"), Err(SeedParseError));
    assert_eq!(rng.get_seed(), 55);
}

#[test]
fn draws_follow_fastrand() {
    let mut rng = EarthRng::with_seed(12345);
    let reference = fastrand::Rng::with_seed(12345);
    for _ in 0..50 {
        let v = rng.uniform_u64_range(1, 3);
        assert!((1..=3).contains(&v));
        assert_eq!(v, reference.u64(1..=3));
        assert_eq!(rng.get_seed(), reference.get_seed());
    }
    assert_ne!(rng.get_seed(), 12345);
}

#[test]
fn equal_seeds_draw_equal_streams() {
    let mut a = EarthRng::with_seed(2024);
    let mut b = EarthRng::new();
    b.seed(2024);
    for _ in 0..20 {
        assert_eq!(a.uniform_u64_range(0, 1000), b.uniform_u64_range(0, 1000));
    }
    let mut c = EarthRng::with_seed(5);
    assert_eq!(c.uniform_u64_range(8, 8), 8);
}
