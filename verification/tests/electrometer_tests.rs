use ionpak::electrometer::Electrometer;
use ionpak::range::ElectrometerRange;

#[test]
fn constant_in_range_stream_emits_block_average() {
    let mut e = Electrometer::new();
    for _ in 0..511 {
        let changed = e.adc_input(2000);
        assert!(changed.is_none());
        assert!(e.get_status().ic.is_none());
    }
    let changed = e.adc_input(2000);
    assert!(changed.is_none());
    assert_eq!(e.range, ElectrometerRange::Med);
    // (2000 - 96) counts at 75750 femtoamperes per count on the medium
    // range; a constant block's average is the per-sample value itself
    let ic = e.get_status().ic.expect("block complete");
    assert_eq!(ic, 144_228_000);
    // cross-check against the real-valued conversion (value-offset)/gain
    let amperes = (ic as f64) * 1e-15;
    let expected = (2000.0 - 96.0) / 13201320132.0132;
    assert!((amperes - expected).abs() / expected < 1e-6);
    // the accumulator starts fresh
    assert_eq!(e.ic_buffer, 0);
    assert_eq!(e.ic_buffer_count, 0);
}

#[test]
fn single_over_threshold_sample_does_not_switch_range() {
    let mut e = Electrometer::new();
    assert!(e.adc_input(4000).is_none());
    assert_eq!(e.range, ElectrometerRange::Med);
    assert_eq!(e.out_of_range_count, 1);
    // an in-range sample clears the debounce run
    assert!(e.adc_input(2000).is_none());
    assert_eq!(e.out_of_range_count, 0);
}

#[test]
fn debounced_run_switches_range_up_and_settles() {
    let mut e = Electrometer::new();
    for i in 0..74 {
        assert!(e.adc_input(4000).is_none(), "sample {} switched early", i);
        assert_eq!(e.range, ElectrometerRange::Med);
    }
    assert_eq!(e.out_of_range_count, 74);
    let changed = e.adc_input(4000);
    assert_eq!(changed, Some(ElectrometerRange::High));
    assert_eq!(e.range, ElectrometerRange::High);
    assert_eq!(e.out_of_range_count, 0);
    assert_eq!(e.ignore_count, 150);
    assert!(e.get_status().ic.is_none());

    // the settling samples are discarded and do not reach the average
    for _ in 0..150 {
        assert!(e.adc_input(4000).is_none());
    }
    assert_eq!(e.ignore_count, 0);
    assert_eq!(e.ic_buffer, 0);
    assert_eq!(e.ic_buffer_count, 0);

    // the next full block averages only post-settling samples, on the
    // high range's gain
    for _ in 0..512 {
        assert!(e.adc_input(2000).is_none());
    }
    assert_eq!(e.get_status().ic, Some((2000 - 96) * 7_500_750));
}

#[test]
fn range_down_is_single_step_and_stops_at_low() {
    let mut e = Electrometer::new();
    for _ in 0..74 {
        assert!(e.adc_input(50).is_none());
    }
    assert_eq!(e.adc_input(50), Some(ElectrometerRange::Low));
    for _ in 0..150 {
        e.adc_input(50);
    }
    // at the lowest range an under-threshold sample is no candidate:
    // the counter stays clear and the sample feeds the average
    for _ in 0..100 {
        assert!(e.adc_input(50).is_none());
    }
    assert_eq!(e.range, ElectrometerRange::Low);
    assert_eq!(e.out_of_range_count, 0);
    assert_eq!(e.ic_buffer_count, 100);
}

#[test]
fn saturated_sample_at_high_range_resets_debounce() {
    let mut e = Electrometer::new();
    for _ in 0..74 {
        e.adc_input(4000);
    }
    assert_eq!(e.adc_input(4000), Some(ElectrometerRange::High));
    for _ in 0..150 {
        e.adc_input(4000);
    }
    // already at the highest range: over-threshold samples are no
    // candidates and simply accumulate
    for _ in 0..10 {
        assert!(e.adc_input(4000).is_none());
    }
    assert_eq!(e.range, ElectrometerRange::High);
    assert_eq!(e.out_of_range_count, 0);
    assert_eq!(e.ic_buffer_count, 10);
}
