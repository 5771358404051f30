use genrand::assoc;
use genrand::entropy::RandEntropy;
use genrand::entropy::ScriptedEntropy;
use genrand::ranges::BoundedRange;
use genrand::ranges::FullRange;
use genrand::stream;
use genrand::typeparam;

fn script() -> Vec<u64> {
    let mut v = Vec::new();
    let mut x: u64 = 0x1234_5678_9ABC_DEF0;
    for _ in 0..150 {
        x = x.wrapping_mul(2862933555777941757).wrapping_add(3037000493);
        v.push(x);
    }
    v
}

#[test]
fn iterator_never_terminates() {
    let e = ScriptedEntropy::from_script(vec![1, 2, 3]);
    let mut it = assoc::gen_iter::<u32, _, _>(e, BoundedRange { start: 4u32, end: 321 });
    // The script is exhausted long before the thousandth draw; the
    // iterator keeps yielding values regardless.
    for _ in 0..1000 {
        assert!(it.next().is_some());
    }
}

#[test]
fn iterator_never_terminates_on_real_source() {
    let e = RandEntropy::from_seed(7);
    let mut it = stream::gen_iter::<u32, _, _>(e, FullRange);
    for _ in 0..1000 {
        assert!(it.next().is_some());
    }
}

#[test]
fn taking_100_equals_100_scalar_draws() {
    let mut it = assoc::gen_iter::<u32, _, _>(
        ScriptedEntropy::from_script(script()),
        BoundedRange { start: 4u32, end: 321 },
    );
    let from_iter = it.take(100);
    let mut e = ScriptedEntropy::from_script(script());
    let mut from_scalar = Vec::new();
    for _ in 0..100 {
        let r: u32 = assoc::gen(&mut e, BoundedRange { start: 4u32, end: 321 });
        from_scalar.push(r);
    }
    assert_eq!(from_iter, from_scalar);
}

#[test]
fn taking_100_equals_100_scalar_draws_on_cloned_real_source() {
    let e = RandEntropy::from_seed(42);
    let mut it = assoc::gen_iter::<u32, _, _>(e.clone(), BoundedRange { start: 4u32, end: 321 });
    let from_iter = it.take(100);
    let mut e2 = e.clone();
    let mut from_scalar = Vec::new();
    for _ in 0..100 {
        let r: u32 = assoc::gen(&mut e2, BoundedRange { start: 4u32, end: 321 });
        from_scalar.push(r);
    }
    assert_eq!(from_iter, from_scalar);
}

#[test]
fn iterators_agree_across_encodings() {
    let mut ia = assoc::gen_iter::<u32, _, _>(
        ScriptedEntropy::from_script(script()),
        BoundedRange { start: 4u32, end: 321 },
    );
    let mut ib = stream::gen_iter::<u32, _, _>(
        ScriptedEntropy::from_script(script()),
        BoundedRange { start: 4u32, end: 321 },
    );
    let mut ic = typeparam::gen_iter::<u32, _, _>(
        ScriptedEntropy::from_script(script()),
        BoundedRange { start: 4u32, end: 321 },
    );
    let va = ia.take(100);
    let vb = ib.take(100);
    let vc = ic.take(100);
    assert_eq!(va, vb);
    assert_eq!(va, vc);
}

#[test]
fn iterator_take_i64_matches_scalar() {
    let mut it = typeparam::gen_iter::<i64, _, _>(
        ScriptedEntropy::from_script(script()),
        BoundedRange { start: -5i64, end: 5 },
    );
    let from_iter = it.take(50);
    let mut e = ScriptedEntropy::from_script(script());
    let mut from_scalar = Vec::new();
    for _ in 0..50 {
        let r: i64 = typeparam::gen(&mut e, BoundedRange { start: -5i64, end: 5 });
        from_scalar.push(r);
    }
    assert_eq!(from_iter, from_scalar);
}

#[test]
fn cloned_sources_replay_the_same_sequence() {
    let e = RandEntropy::from_seed(99);
    let mut a = e.clone();
    let mut b = e.clone();
    for _ in 0..200 {
        let ra: i64 = assoc::gen(&mut a, FullRange);
        let rb: i64 = assoc::gen(&mut b, FullRange);
        assert_eq!(ra, rb);
    }
}
