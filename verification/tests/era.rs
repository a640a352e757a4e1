use runtime_override::era::Era;

#[test]
fn mortal_keeps_a_power_of_two_period() {
    assert_eq!(Era::mortal(64, 42), Era::Mortal(64, 42));
    assert_eq!(Era::mortal(128, 999), Era::Mortal(128, 103));
}

#[test]
fn mortal_rounds_the_period_up_to_a_power_of_two() {
    assert_eq!(Era::mortal(100, 300), Era::Mortal(128, 300 % 128));
    assert_eq!(Era::mortal(5, 9), Era::Mortal(8, 1));
}

#[test]
fn mortal_clamps_small_periods_to_four() {
    assert_eq!(Era::mortal(0, 5), Era::Mortal(4, 1));
    assert_eq!(Era::mortal(1, 6), Era::Mortal(4, 2));
    assert_eq!(Era::mortal(3, 7), Era::Mortal(4, 3));
}

#[test]
fn mortal_clamps_large_periods_to_65536() {
    assert_eq!(Era::mortal(1 << 20, 70000), Era::Mortal(65536, 4464));
    assert_eq!(Era::mortal(u64::MAX, 70000), Era::Mortal(65536, 4464));
}

#[test]
fn mortal_quantizes_the_phase_of_long_periods() {
    // period 32768: phase rounded down to a multiple of 8
    assert_eq!(Era::mortal(32768, 20003), Era::Mortal(32768, 20000));
    // period 65536: multiple of 16
    assert_eq!(Era::mortal(65536, 65535), Era::Mortal(65536, 65520));
    // period 4096: factor 1
    assert_eq!(Era::mortal(4096, 4095), Era::Mortal(4096, 4095));
}

#[test]
fn mortal_era_covers_the_block_it_is_made_at() {
    for &(period, current) in &[(64u64, 42u64), (32768, 20003), (65536, 1_000_000), (0, 0), (7, 123456)] {
        match Era::mortal(period, current) {
            Era::Mortal(p, phase) => {
                let birth = (current.max(phase) - phase) / p * p + phase;
                assert!(birth <= current);
                assert!(current < birth + p);
                assert!(current - birth < (p / 4096).max(1));
            }
            Era::Immortal => panic!("mortal era expected"),
        }
    }
}
