use genrand::sampler::compute_zone32;
use genrand::sampler::compute_zone64;

#[test]
fn zone32_concrete_value_for_width_317() {
    // 2^32 - 1 = 4294967295 and 4294967295 mod 317 = 231.
    assert_eq!(4294967295u32 % 317, 231);
    assert_eq!(compute_zone32(317), 4294967064);
}

#[test]
fn zone32_divisible_and_reconstructs_max() {
    for w in [1u32, 2, 3, 5, 317, 1024, 65536, 4294967294, 4294967295] {
        let z = compute_zone32(w);
        assert_eq!(z % w, 0);
        assert_eq!(z + (u32::MAX % w), u32::MAX);
        assert!(w <= z);
    }
}

#[test]
fn zone64_divisible_and_reconstructs_max() {
    for w in [1u64, 2, 10, 317, 1 << 33, u64::MAX - 1, u64::MAX] {
        let z = compute_zone64(w);
        assert_eq!(z % w, 0);
        assert_eq!(z + (u64::MAX % w), u64::MAX);
        assert!(w <= z);
    }
}

#[test]
fn zone64_concrete_value_for_width_10() {
    // 2^64 - 1 ends in ...551615, so the remainder mod 10 is 5.
    assert_eq!(compute_zone64(10), u64::MAX - 5);
}

#[test]
fn zone32_power_of_two_keeps_everything() {
    // When the width divides 2^32 the rejected tail is empty.
    assert_eq!(compute_zone32(1024), u32::MAX - 1023);
    assert_eq!(compute_zone32(1), u32::MAX);
}
