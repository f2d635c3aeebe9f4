use axis_effects::Axis;
use axis_effects::DynEffect;
use axis_effects::effects::Smooth;
use axis_effects::effects::Step;

#[test]
fn basic_output() {
    let mut axis = Axis::new(0, 4, false);
    let mut chain: Vec<DynEffect> = Vec::new();
    axis.update(5, &mut chain);
    assert_eq!(axis.output(0, 4), 4);
}

#[test]
fn step_filter() {
    let mut axis = Axis::new(0, 128, false);
    axis.step_filter_factor = 10;
    let mut chain: Vec<DynEffect> = Vec::new();

    for i in 0..9 {
        axis.update(i, &mut chain);
    }
    assert_eq!(axis.output(0, 128), 0);
    axis.update(10, &mut chain);
    assert_eq!(axis.output(0, 128), 10);
}

#[test]
fn step_chain_scenario() {
    let mut axis = Axis::new(0, 128, false);
    let mut chain: Vec<DynEffect> = vec![DynEffect::from(Step::new(10))];

    for i in 0..9 {
        axis.update(i, &mut chain);
        assert_eq!(axis.output(0, 128), 0);
    }
    axis.update(10, &mut chain);
    assert_eq!(axis.output(0, 128), 10);
}

#[test]
fn step_handle_accepts_and_suppresses() {
    let mut handle = DynEffect::from(Step::new(5));
    assert_eq!(handle.update(3), 0);
    assert_eq!(handle.update(5), 5);
    assert_eq!(handle.update(8), 5);
    assert_eq!(handle.update(10), 10);
}

#[test]
fn smooth_ramps_toward_target() {
    let mut handle = DynEffect::from(Smooth::new(3));
    assert_eq!(handle.update(100), 3);
    assert_eq!(handle.update(100), 6);
    assert_eq!(handle.update(100), 9);
}

#[test]
fn smooth_clamps_down_to_lower_target() {
    let mut handle = DynEffect::from(Smooth::new(2));
    assert_eq!(handle.update(10), 2);
    assert_eq!(handle.update(10), 4);
    assert_eq!(handle.update(1), 1);
    assert_eq!(handle.update(10), 3);
}

#[test]
fn smooth_saturates_at_domain_top() {
    let mut handle = DynEffect::from(Smooth::new(u16::MAX));
    assert_eq!(handle.update(u16::MAX), u16::MAX);
    assert_eq!(handle.update(u16::MAX), u16::MAX);
}

#[test]
fn smooth_in_axis_chain() {
    let mut axis = Axis::new(0, 128, false);
    let mut chain: Vec<DynEffect> = vec![DynEffect::from(Smooth::new(4))];
    axis.update(100, &mut chain);
    assert_eq!(axis.output(0, 128), 4);
    axis.update(100, &mut chain);
    assert_eq!(axis.output(0, 128), 8);
}

#[test]
fn two_stage_chain_applies_in_order() {
    // The step stage suppresses the small move, so the smoother keeps
    // ramping toward the step stage's baseline, not toward the raw input.
    let mut axis = Axis::new(0, 128, false);
    let mut chain: Vec<DynEffect> =
        vec![DynEffect::from(Step::new(10)), DynEffect::from(Smooth::new(2))];
    axis.update(100, &mut chain);
    assert_eq!(axis.output(0, 128), 2);
    axis.update(95, &mut chain);
    assert_eq!(axis.output(0, 128), 4);
}

#[test]
fn rescales_into_requested_range() {
    let mut axis = Axis::new(0, 128, false);
    let mut chain: Vec<DynEffect> = Vec::new();
    axis.update(50, &mut chain);
    assert_eq!(axis.output(0, 128), 50);
    assert_eq!(axis.output(0, 64), 25);
    assert_eq!(axis.output(10, 20), 13);
}

#[test]
fn identity_chain_rescale() {
    let mut axis = Axis::new(0, 100, false);
    let mut chain: Vec<DynEffect> = Vec::new();
    axis.update(42, &mut chain);
    assert_eq!(axis.output(0, 200), 84);
}

#[test]
fn clamps_raw_reading_above_max() {
    let mut axis = Axis::new(0, 128, false);
    let mut chain: Vec<DynEffect> = Vec::new();
    axis.update(u16::MAX, &mut chain);
    assert_eq!(axis.output(0, 128), 128);
}

#[test]
fn clamps_raw_reading_below_min() {
    let mut axis = Axis::new(20, 120, false);
    let mut chain: Vec<DynEffect> = Vec::new();
    axis.update(5, &mut chain);
    assert_eq!(axis.output(0, 100), 0);
}

#[test]
fn reversed_reflects_about_range() {
    let mut axis = Axis::new(0, 100, true);
    let mut chain: Vec<DynEffect> = Vec::new();
    axis.update(30, &mut chain);
    assert_eq!(axis.output(0, 100), 70);
}

#[test]
fn reversed_matches_reflected_forward_axis() {
    let (min, max, v) = (10u16, 90u16, 25u16);

    let mut reversed = Axis::new(min, max, true);
    let mut forward = Axis::new(min, max, false);
    let mut chain: Vec<DynEffect> = Vec::new();

    reversed.update(v, &mut chain);
    forward.update(max - (v - min), &mut chain);
    assert_eq!(reversed.output(0, 128), forward.output(0, 128));
}

#[test]
fn reversed_saturates_beyond_max() {
    let mut axis = Axis::new(0, 10, true);
    let mut chain: Vec<DynEffect> = Vec::new();
    axis.update(20, &mut chain);
    assert_eq!(axis.output(0, 10), 0);
}

#[test]
fn degenerate_range_reads_out_range_min() {
    let mut axis = Axis::new(5, 5, false);
    let mut chain: Vec<DynEffect> = Vec::new();
    axis.update(9, &mut chain);
    assert_eq!(axis.output(7, 10), 7);
}

#[test]
fn dead_zone_boundary_is_accepted() {
    let mut axis = Axis::new(0, 128, false);
    axis.step_filter_factor = 10;
    let mut chain: Vec<DynEffect> = Vec::new();
    axis.update(9, &mut chain);
    assert_eq!(axis.output(0, 128), 0);
    axis.update(18, &mut chain);
    assert_eq!(axis.output(0, 128), 18);
    axis.update(27, &mut chain);
    assert_eq!(axis.output(0, 128), 18);
    axis.update(28, &mut chain);
    assert_eq!(axis.output(0, 128), 28);
}

#[test]
fn transforms_fit_fixed_footprint() {
    assert!(std::mem::size_of::<Smooth>() <= axis_effects::MAX_EFFECT_SIZE);
    assert!(std::mem::size_of::<Step>() <= axis_effects::MAX_EFFECT_SIZE);
    assert!(std::mem::size_of::<DynEffect>() <= axis_effects::MAX_EFFECT_SIZE);
}
