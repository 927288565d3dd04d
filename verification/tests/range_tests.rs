use ionpak::range::{emission_range_for, EmissionRange};

#[test]
fn classification_thresholds_are_exact() {
    assert_eq!(emission_range_for(0), EmissionRange::Low);
    assert_eq!(emission_range_for(119_999), EmissionRange::Low);
    assert_eq!(emission_range_for(120_000), EmissionRange::Low);
    assert_eq!(emission_range_for(120_001), EmissionRange::Med);
    assert_eq!(emission_range_for(7_999_999), EmissionRange::Med);
    assert_eq!(emission_range_for(8_000_000), EmissionRange::Med);
    assert_eq!(emission_range_for(8_000_001), EmissionRange::High);
}

#[test]
fn classification_is_monotone() {
    fn rank(r: EmissionRange) -> u8 {
        match r {
            EmissionRange::Low => 0,
            EmissionRange::Med => 1,
            EmissionRange::High => 2,
        }
    }
    let samples: [i64; 9] = [
        0,
        100,
        119_999,
        120_000,
        120_001,
        4_000_000,
        8_000_000,
        8_000_001,
        1_000_000_000,
    ];
    for pair in samples.windows(2) {
        assert!(rank(emission_range_for(pair[0])) <= rank(emission_range_for(pair[1])));
    }
}
