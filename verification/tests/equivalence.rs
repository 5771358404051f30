use genrand::assoc;
use genrand::entropy::ScriptedEntropy;
use genrand::ranges::BoundedRange;
use genrand::ranges::FullRange;
use genrand::ranges::LowerBoundedRange;
use genrand::stream;
use genrand::typeparam;

fn script() -> Vec<u64> {
    // A mix of small, large and rejected-by-narrow-widths words.
    let mut v = Vec::new();
    let mut x: u64 = 0x9E37_79B9_7F4A_7C15;
    for _ in 0..200 {
        x = x.wrapping_mul(6364136223846793005).wrapping_add(1442695040888963407);
        v.push(x);
    }
    v
}

#[test]
fn encodings_agree_on_bounded_u32() {
    let mut a = ScriptedEntropy::from_script(script());
    let mut b = ScriptedEntropy::from_script(script());
    let mut c = ScriptedEntropy::from_script(script());
    for _ in 0..40 {
        let ra: u32 = assoc::gen(&mut a, BoundedRange { start: 4u32, end: 321 });
        let rb: u32 = stream::gen(&mut b, BoundedRange { start: 4u32, end: 321 });
        let rc: u32 = typeparam::gen(&mut c, BoundedRange { start: 4u32, end: 321 });
        assert_eq!(ra, rb);
        assert_eq!(ra, rc);
    }
    assert_eq!(a.pos, b.pos);
    assert_eq!(a.pos, c.pos);
}

#[test]
fn encodings_agree_on_full_u32() {
    let mut a = ScriptedEntropy::from_script(script());
    let mut b = ScriptedEntropy::from_script(script());
    let mut c = ScriptedEntropy::from_script(script());
    for _ in 0..40 {
        let ra: u32 = assoc::gen(&mut a, FullRange);
        let rb: u32 = stream::gen(&mut b, FullRange);
        let rc: u32 = typeparam::gen(&mut c, FullRange);
        assert_eq!(ra, rb);
        assert_eq!(ra, rc);
    }
}

#[test]
fn encodings_agree_on_bounded_i64() {
    let mut a = ScriptedEntropy::from_script(script());
    let mut b = ScriptedEntropy::from_script(script());
    let mut c = ScriptedEntropy::from_script(script());
    for _ in 0..40 {
        let ra: i64 = assoc::gen(&mut a, BoundedRange { start: -1000i64, end: 1000 });
        let rb: i64 = stream::gen(&mut b, BoundedRange { start: -1000i64, end: 1000 });
        let rc: i64 = typeparam::gen(&mut c, BoundedRange { start: -1000i64, end: 1000 });
        assert_eq!(ra, rb);
        assert_eq!(ra, rc);
    }
}

#[test]
fn encodings_agree_on_full_i64() {
    let mut a = ScriptedEntropy::from_script(script());
    let mut b = ScriptedEntropy::from_script(script());
    let mut c = ScriptedEntropy::from_script(script());
    for _ in 0..40 {
        let ra: i64 = assoc::gen(&mut a, FullRange);
        let rb: i64 = stream::gen(&mut b, FullRange);
        let rc: i64 = typeparam::gen(&mut c, FullRange);
        assert_eq!(ra, rb);
        assert_eq!(ra, rc);
    }
}

#[test]
fn assoc_and_typeparam_agree_on_from_ranges() {
    // The stream encoding has no from-range form, as in the study.
    let mut a = ScriptedEntropy::from_script(script());
    let mut c = ScriptedEntropy::from_script(script());
    for _ in 0..40 {
        let ra: u32 = assoc::gen(&mut a, LowerBoundedRange { start: 123456789u32 });
        let rc: u32 = typeparam::gen(&mut c, LowerBoundedRange { start: 123456789u32 });
        assert_eq!(ra, rc);
    }
    let mut a = ScriptedEntropy::from_script(script());
    let mut c = ScriptedEntropy::from_script(script());
    for _ in 0..40 {
        let ra: i64 = assoc::gen(&mut a, LowerBoundedRange { start: -77i64 });
        let rc: i64 = typeparam::gen(&mut c, LowerBoundedRange { start: -77i64 });
        assert_eq!(ra, rc);
    }
}
