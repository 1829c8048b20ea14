use rltk::{parse_dice_string, DiceType, RandomNumberGenerator};

#[test]
fn roll_str_1d6() {
    let mut rng = RandomNumberGenerator::new();
    assert!(rng.roll_str("1d6").is_ok());
}

#[test]
fn roll_str_3d6plus1() {
    let mut rng = RandomNumberGenerator::new();
    assert!(rng.roll_str("3d6+1").is_ok());
}

#[test]
fn roll_str_3d20minus1() {
    let mut rng = RandomNumberGenerator::new();
    assert!(rng.roll_str("3d20-1").is_ok());
}

#[test]
fn roll_str_error() {
    let mut rng = RandomNumberGenerator::new();
    assert!(rng.roll_str("blah").is_err());
}

#[test]
fn parse_exact_values() {
    assert_eq!(parse_dice_string("1d20"), Ok(DiceType::new(1, 20, 0)));
    assert_eq!(parse_dice_string("3d6+1"), Ok(DiceType::new(3, 6, 1)));
    assert_eq!(parse_dice_string("3d20-1"), Ok(DiceType::new(3, 20, -1)));
    assert_eq!(parse_dice_string("10d100+25"), Ok(DiceType::new(10, 100, 25)));
}

#[test]
fn parse_rejects_malformed() {
    assert!(parse_dice_string("").is_err());
    assert!(parse_dice_string("d6").is_err());
    assert!(parse_dice_string("3d").is_err());
    assert!(parse_dice_string("3d6+").is_err());
    assert!(parse_dice_string("x3d6").is_err());
    assert!(parse_dice_string("3d6 +1").is_err());
    assert!(parse_dice_string("3e6").is_err());
    assert!(parse_dice_string("3d6*1").is_err());
}

#[test]
fn parse_rejects_oversized_numbers() {
    assert!(parse_dice_string("99999999999d6").is_err());
    assert!(parse_dice_string("3d99999999999").is_err());
    assert!(parse_dice_string("3d6+99999999999").is_err());
}

#[test]
fn roll_str_rejects_unrollable() {
    // Parses as a dice expression, but a zero-sided die cannot be rolled.
    let mut rng = RandomNumberGenerator::seeded(5);
    assert!(rng.roll_str("3d0").is_err());
    // Nor can a total that overflows a 32-bit value.
    assert!(rng.roll_str("2000000d2000").is_err());
}

#[test]
fn test_roll_range() {
    let mut rng = RandomNumberGenerator::new();
    for _ in 0..100 {
        let n = rng.roll_dice(1, 20);
        assert!(n > 0 && n < 21);
    }
}

#[test]
fn range_stays_inside_bounds() {
    let mut rng = RandomNumberGenerator::seeded(7);
    for _ in 0..200 {
        let v = rng.range(1, 6);
        assert!((1..6).contains(&v));
    }
}

#[test]
fn roll_dice_bounds() {
    let mut rng = RandomNumberGenerator::seeded(99);
    for _ in 0..100 {
        let total = rng.roll_dice(3, 6);
        assert!((3..=18).contains(&total));
    }
}

#[test]
fn roll_applies_bonus() {
    let mut rng = RandomNumberGenerator::seeded(12345);
    for _ in 0..100 {
        let total = rng.roll(DiceType::new(3, 6, 1));
        assert!((4..=19).contains(&total));
    }
    for _ in 0..100 {
        let total = rng.roll(DiceType::new(3, 20, -1));
        assert!((2..=59).contains(&total));
    }
}

#[test]
fn zero_dice_roll_only_bonus() {
    let mut rng = RandomNumberGenerator::seeded(1);
    assert_eq!(rng.roll(DiceType::new(0, 6, 5)), 5);
}

#[test]
fn negative_dice_roll_zero() {
    let mut rng = RandomNumberGenerator::seeded(1);
    assert_eq!(rng.roll_dice(-3, 6), 0);
    assert_eq!(rng.roll(DiceType::new(-3, 6, 2)), 2);
}

#[test]
fn rand_draws_values() {
    let mut rng = RandomNumberGenerator::seeded(3);
    let draws: Vec<i32> = (0..16).map(|_| rng.rand::<i32>()).collect();
    assert!(draws.iter().any(|&v| v != draws[0]));
    let _flag: bool = rng.rand();
}

#[test]
fn next_u64_runs() {
    let mut rng = RandomNumberGenerator::seeded(42);
    let a = rng.next_u64();
    let b = rng.next_u64();
    let c = rng.next_u64();
    assert!(a != b || b != c);
}
