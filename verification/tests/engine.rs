use gauge::fixed::{clamp_i64, normalized, FP_ONE};
use gauge::trig::{atan2_mdeg, cos_mdeg, isqrt, sin_mdeg, wrap_mdeg};
use gauge::anim::{lerp, HighlightBounds, Needle};
use gauge::state::{AppState, UpdateBatch};
use gauge::instrument::{Instrument, InstrumentCommand, InstrumentConfig};
use gauge::rng::random_below;
use gauge::text::{format_frac3, i64_to_string, u64_to_string};

fn batch(
    needle1: Option<i64>,
    needle2: Option<i64>,
    lo: Option<i64>,
    hi: Option<i64>,
    readout: Option<i64>,
) -> UpdateBatch {
    UpdateBatch { needle1, needle2, highlight_lower: lo, highlight_upper: hi, readout }
}

#[test]
fn clamp_works() {
    assert_eq!(clamp_i64(5, 0, 10), 5);
    assert_eq!(clamp_i64(-5, 0, 10), 0);
    assert_eq!(clamp_i64(15, 0, 10), 10);
}

#[test]
fn normalization_exact_inside_range() {
    // 50 inside [0, 100] normalizes to exactly one half: no clamping.
    assert_eq!(normalized(50_000_000, 0, 100_000_000), 500_000);
    assert_eq!(normalized(25_000_000, 0, 100_000_000), 250_000);
    assert_eq!(normalized(0, 0, 100_000_000), 0);
    assert_eq!(normalized(100_000_000, 0, 100_000_000), FP_ONE);
}

#[test]
fn normalization_pins_out_of_range() {
    assert_eq!(normalized(150_000_000, 0, 100_000_000), FP_ONE);
    assert_eq!(normalized(-10_000_000, 0, 100_000_000), 0);
}

#[test]
fn normalization_with_shifted_range() {
    // 30 in [20, 80] is one sixth of the way up.
    assert_eq!(normalized(30_000_000, 20_000_000, 80_000_000), 166_666);
}

#[test]
fn isqrt_exact() {
    assert_eq!(isqrt(0), 0);
    assert_eq!(isqrt(1), 1);
    assert_eq!(isqrt(15), 3);
    assert_eq!(isqrt(16), 4);
    assert_eq!(isqrt(1_000_000_000_000), 1_000_000);
}

#[test]
fn sine_axis_values() {
    assert_eq!(sin_mdeg(0), 0);
    assert_eq!(sin_mdeg(90_000), FP_ONE);
    assert_eq!(sin_mdeg(180_000), 0);
    assert_eq!(sin_mdeg(270_000), -FP_ONE);
}

#[test]
fn cosine_axis_values() {
    assert_eq!(cos_mdeg(0), FP_ONE);
    assert_eq!(cos_mdeg(90_000), 0);
    assert_eq!(cos_mdeg(180_000), -FP_ONE);
    assert_eq!(cos_mdeg(270_000), 0);
}

#[test]
fn sine_is_close_to_the_real_thing() {
    // Bhaskara's approximation: within two thousandths over the circle.
    for deg in 0..360 {
        let got = sin_mdeg(deg * 1000) as f64 / 1_000_000.0;
        let want = (deg as f64).to_radians().sin();
        assert!((got - want).abs() < 0.002, "sin({deg}): {got} vs {want}");
    }
}

#[test]
fn atan2_axes() {
    assert_eq!(atan2_mdeg(0, 10), 0);
    assert_eq!(atan2_mdeg(10, 0), 90_000);
    assert_eq!(atan2_mdeg(0, -10), 180_000);
    assert_eq!(atan2_mdeg(-10, 0), 270_000);
    assert_eq!(atan2_mdeg(10, 10), 45_000);
}

#[test]
fn wrap_brings_angles_into_one_turn() {
    assert_eq!(wrap_mdeg(360_000), 0);
    assert_eq!(wrap_mdeg(450_000), 90_000);
    assert_eq!(wrap_mdeg(-90_000), 270_000);
    assert_eq!(wrap_mdeg(123_456), 123_456);
}

#[test]
fn smoothing_step_takes_a_rounded_tenth() {
    assert_eq!(lerp(0, 1_000_000), 100_000);
    assert_eq!(lerp(1_000_000, 0), 900_000);
    assert_eq!(lerp(500_000, 500_000), 500_000);
    // Any nonzero error closes by at least one micro-unit.
    assert_eq!(lerp(500_000, 500_009), 500_001);
    assert_eq!(lerp(500_000, 500_001), 500_001);
    assert_eq!(lerp(500_001, 500_000), 500_000);
}

#[test]
fn smoothing_converges_within_bounded_iterations() {
    // From any start in [0, 1], repeated advancing shrinks the error by
    // exactly nine tenths (rounded down) per step, never leaves the unit
    // interval, and lands exactly on the target within 200 steps.
    for start in [0i64, 250_000, 500_000, 999_999] {
        let mut n = Needle::new();
        n.set_target_pos(750_000);
        n.pos = start;
        let mut last_err = (750_000i64 - start).abs();
        for _ in 0..200 {
            n.update_position();
            let err = (750_000i64 - n.pos).abs();
            assert_eq!(err, 9 * last_err / 10, "decay law broken");
            assert!(n.pos >= 0 && n.pos <= FP_ONE);
            last_err = err;
        }
        assert_eq!(last_err, 0, "did not reach the target");
    }
}

#[test]
fn needle_target_clamps_into_unit_band() {
    let mut n = Needle::new();
    n.set_target_pos(2_000_000);
    assert_eq!(n.target_pos, FP_ONE);
    n.set_target_pos(-5);
    assert_eq!(n.target_pos, 0);
}

#[test]
fn highlight_bounds_smooth_both_scalars() {
    let mut b = HighlightBounds::new(0, 1_000_000);
    b.set_target_bounds(1_000_000, 2_000_000);
    b.update_position();
    assert_eq!(b.get_bounds(), (100_000, 1_100_000));
}

#[test]
fn random_draws_stay_below_their_bound() {
    for _ in 0..1000 {
        assert!(random_below(7) < 7);
        assert!(random_below(1) == 0);
    }
}

#[test]
fn idle_walk_keeps_the_needle_well_formed() {
    let mut n = Needle::new();
    for _ in 0..10_000 {
        n.update_random();
        assert!(n.target_pos >= 0 && n.target_pos <= FP_ONE);
        assert_eq!(n.pos, 500_000);
    }
}

#[test]
fn drain_applies_the_last_batch_per_slot() {
    let mut st = AppState::new(0, 100_000_000);
    let batches = vec![
        batch(Some(10_000_000), None, None, None, None),
        batch(Some(75_000_000), None, None, None, Some(75_000_000)),
    ];
    st.update(&batches);
    let n1 = st.needle1.as_ref().expect("needle created");
    assert_eq!(n1.target_pos, 750_000);
    assert_eq!(st.value1, Some(75_000_000));
    assert_eq!(st.readout_value, Some(75_000_000));
    assert!(st.needle2.is_none());
    assert!(!st.is_out_of_range());
}

#[test]
fn drain_without_slot_destroys_the_needle() {
    let mut st = AppState::new(0, 100_000_000);
    st.update(&vec![batch(Some(50_000_000), Some(20_000_000), None, None, None)]);
    assert!(st.needle1.is_some());
    assert!(st.needle2.is_some());
    st.update(&vec![batch(Some(50_000_000), None, None, None, None)]);
    assert!(st.needle1.is_some());
    assert!(st.needle2.is_none());
}

#[test]
fn out_of_range_checks_the_raw_value() {
    let mut st = AppState::new(0, 100_000_000);
    st.update(&vec![batch(Some(150_000_000), None, None, None, None)]);
    assert!(st.is_out_of_range());
    // The needle itself pegs at full scale.
    assert_eq!(st.needle1.as_ref().unwrap().target_pos, FP_ONE);
    st.update(&vec![batch(Some(50_000_000), None, None, None, None)]);
    assert!(!st.is_out_of_range());
}

#[test]
fn highlight_override_shuts_out_streamed_bounds() {
    let mut st = AppState::new(0, 100_000_000);
    st.set_highlight_override(20_000_000, 80_000_000);
    st.update(&vec![batch(None, None, Some(1_000_000), Some(2_000_000), None)]);
    let b = st.highlight_bounds.as_ref().expect("bounds kept");
    assert_eq!(b.target_lower, 20_000_000);
    assert_eq!(b.target_upper, 80_000_000);
}

#[test]
fn streamed_bounds_sort_and_smooth() {
    let mut st = AppState::new(0, 100_000_000);
    st.update(&vec![batch(None, None, Some(80_000_000), Some(20_000_000), None)]);
    let b = st.highlight_bounds.as_ref().expect("bounds created");
    assert_eq!(b.target_lower, 20_000_000);
    assert_eq!(b.target_upper, 80_000_000);
    st.update(&vec![batch(None, None, None, None, None)]);
    assert!(st.highlight_bounds.is_none());
}

#[test]
fn fresh_needle_starts_at_mid_scale_then_advances() {
    // A needle created by a drain starts at mid-scale, so the one
    // advance of that drain moves it a rounded tenth toward its target.
    let mut st = AppState::new(0, 100_000_000);
    st.update(&vec![batch(Some(75_000_000), None, None, None, None)]);
    let n1 = st.needle1.as_ref().unwrap();
    assert_eq!(n1.target_pos, 750_000);
    assert_eq!(n1.pos, 525_000);
}

#[test]
fn override_bounds_survive_every_drain() {
    let mut st = AppState::new(0, 100_000_000);
    st.set_highlight_override(20_000_000, 80_000_000);
    // A drain that carries no bound slots must not destroy the bounds.
    st.update(&vec![batch(Some(10_000_000), None, None, None, None)]);
    let b = st.highlight_bounds.as_ref().expect("bounds survive");
    assert_eq!((b.target_lower, b.target_upper), (20_000_000, 80_000_000));
}

#[test]
fn highlight_command_last_writer_wins() {
    let mut st = AppState::new(0, 100_000_000);
    st.update_with_commands(&vec![
        InstrumentCommand::SetHighlightBounds(1_000_000, 2_000_000),
        InstrumentCommand::SetHighlightBounds(90_000_000, 30_000_000),
    ]);
    let b = st.highlight_bounds.as_ref().expect("bounds created");
    // The last command decides, order-normalized.
    assert_eq!((b.target_lower, b.target_upper), (30_000_000, 90_000_000));
}

#[test]
fn commands_last_writer_wins() {
    let mut st = AppState::new(0, 100_000_000);
    st.update_with_commands(&vec![
        InstrumentCommand::SetPrimaryNeedle(10_000_000),
        InstrumentCommand::SetReadout(42_000_000),
        InstrumentCommand::SetPrimaryNeedle(90_000_000),
    ]);
    assert_eq!(st.needle1.as_ref().unwrap().target_pos, 900_000);
    assert_eq!(st.readout_value, Some(42_000_000));
}

#[test]
fn all_needles_command_feeds_every_channel() {
    let mut st = AppState::new(0, 100_000_000);
    st.update_with_commands(&vec![InstrumentCommand::SetAllNeedles(
        50_000_000, 25_000_000, 30_000_000, 45_000_000,
    )]);
    assert_eq!(st.needle1.as_ref().unwrap().target_pos, 500_000);
    assert_eq!(st.needle2.as_ref().unwrap().target_pos, 250_000);
    // Chronograph channels normalize against their own 0..60 range.
    assert_eq!(st.chronograph.as_ref().unwrap().target_pos, 500_000);
    assert_eq!(st.secondary_chronograph.as_ref().unwrap().target_pos, 750_000);
}

#[test]
fn instrument_setters_clamp_into_their_ranges() {
    let config = InstrumentConfig::default();
    let mut inst = Instrument::new(config);
    inst.set_value(150_000_000);
    assert_eq!(inst.state.primary_value, 100_000_000);
    assert_eq!(inst.state.readout_value, Some(100_000_000));
    inst.set_primary_value(-5);
    assert_eq!(inst.state.primary_value, 0);
    inst.set_chronograph_value(75_000_000);
    assert_eq!(inst.state.chronograph_value, Some(60_000_000));
    // The raw value is retained beside the clamped one, so the
    // out-of-range alert can compare against the range.
    inst.set_value(150_000_000);
    assert_eq!(inst.state.primary_value, 100_000_000);
    assert_eq!(inst.state.primary_raw, 150_000_000);
}

#[test]
fn decimal_formatting_is_exact() {
    assert_eq!(u64_to_string(0).as_str(), "0");
    assert_eq!(u64_to_string(7).as_str(), "7");
    assert_eq!(u64_to_string(12345).as_str(), "12345");
    assert_eq!(i64_to_string(-42).as_str(), "-42");
    assert_eq!(i64_to_string(100).as_str(), "100");
    assert_eq!(format_frac3(0).as_str(), "000");
    assert_eq!(format_frac3(7).as_str(), "007");
    assert_eq!(format_frac3(999).as_str(), "999");
}
