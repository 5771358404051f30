use genrand::assoc;
use genrand::entropy::RandEntropy;
use genrand::ranges::BoundedRange;
use genrand::ranges::LowerBoundedRange;
use genrand::ranges::UpperBoundedRange;
use genrand::stream;
use genrand::typeparam;

#[test]
fn bounded_u32_draws_stay_in_range() {
    let mut e = RandEntropy::from_seed(1);
    for _ in 0..2000 {
        let r: u32 = assoc::gen(&mut e, BoundedRange { start: 4u32, end: 321 });
        assert!((4..321).contains(&r));
    }
}

#[test]
fn bounded_u32_draws_stay_in_range_all_encodings() {
    let mut e = RandEntropy::from_seed(2);
    for _ in 0..500 {
        let r: u32 = stream::gen(&mut e, BoundedRange { start: 1000u32, end: 1003 });
        assert!((1000..1003).contains(&r));
        let r: u32 = typeparam::gen(&mut e, BoundedRange { start: 1000u32, end: 1003 });
        assert!((1000..1003).contains(&r));
    }
}

#[test]
fn bounded_i64_draws_stay_in_range() {
    let mut e = RandEntropy::from_seed(3);
    for _ in 0..2000 {
        let r: i64 = assoc::gen(&mut e, BoundedRange { start: -5i64, end: 5 });
        assert!((-5..5).contains(&r));
    }
}

#[test]
fn from_range_u32_draws_stay_at_or_above_start() {
    let mut e = RandEntropy::from_seed(4);
    for _ in 0..2000 {
        let r: u32 = assoc::gen(&mut e, LowerBoundedRange { start: 0xFFFF_FF00u32 });
        assert!(r >= 0xFFFF_FF00);
    }
}

#[test]
fn from_range_i64_draws_stay_at_or_above_start() {
    let mut e = RandEntropy::from_seed(5);
    for _ in 0..2000 {
        let r: i64 = typeparam::gen(&mut e, LowerBoundedRange { start: i64::MAX - 3 });
        assert!(r >= i64::MAX - 3);
    }
}

#[test]
fn to_range_u32_draws_stay_below_end() {
    let mut e = RandEntropy::from_seed(6);
    for _ in 0..2000 {
        let r: u32 = assoc::gen(&mut e, UpperBoundedRange { end: 7u32 });
        assert!(r < 7);
    }
}
