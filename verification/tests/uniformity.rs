use genrand::assoc;
use genrand::entropy::RandEntropy;
use genrand::ranges::BoundedRange;

#[test]
fn chi_square_over_a_million_draws() {
    // 10^6 draws over a width-10 interval; with a fixed seed the outcome
    // is reproducible. The chi-square statistic over 9 degrees of freedom
    // must stay under the 27.877 critical value (significance 0.001).
    let n: u64 = 1_000_000;
    let width = 10usize;
    let mut counts = vec![0u64; width];
    let mut e = RandEntropy::from_seed(20230917);
    for _ in 0..n {
        let r: u32 = assoc::gen(&mut e, BoundedRange { start: 40u32, end: 50 });
        counts[(r - 40) as usize] += 1;
    }
    let expected = n as f64 / width as f64;
    let mut chi2 = 0.0f64;
    for &c in &counts {
        let d = c as f64 - expected;
        chi2 += d * d / expected;
    }
    assert!(chi2 < 27.877, "chi-square too large: {chi2}");
    // Each empirical frequency is close to 1/width as well.
    for &c in &counts {
        let dev = (c as f64 - expected).abs() / expected;
        assert!(dev < 0.01, "bin deviates too much: {dev}");
    }
}
