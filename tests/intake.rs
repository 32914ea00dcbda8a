use aubie2::angle::DEGREE;
use aubie2::color_sort::{ColorSort, SortCommands, SortInputs};
use aubie2::image::Image;
use aubie2::intake::{
    hood_levels, ElementColor, HoodLevels, HoodPosition, IntakeStage, ALL_STAGES, BACK_BOTTOM,
    BACK_TOP, FRONT_BOTTOM, FRONT_TOP,
};

#[test]
fn hood_defaults_closed() {
    assert_eq!(HoodPosition::default(), HoodPosition::Closed);
}

#[test]
fn hood_levels_per_position() {
    assert_eq!(hood_levels(HoodPosition::Closed), HoodLevels { hood_low: false, hood_high: false });
    assert_eq!(hood_levels(HoodPosition::Half), HoodLevels { hood_low: true, hood_high: false });
    assert_eq!(hood_levels(HoodPosition::High), HoodLevels { hood_low: false, hood_high: true });
}

#[test]
fn stage_sets() {
    let all = IntakeStage::all();
    assert_eq!(all.bits, ALL_STAGES);
    let front_top = IntakeStage::from_bits_truncate(FRONT_TOP);
    let rest = all.symmetric_difference(front_top);
    assert!(!rest.contains(front_top));
    assert!(rest.contains(IntakeStage::from_bits_truncate(FRONT_BOTTOM)));
    assert!(rest.contains(IntakeStage::from_bits_truncate(BACK_BOTTOM | BACK_TOP)));
    assert!(all.contains(rest));
    assert_eq!(rest.union(front_top), all);
    assert_eq!(IntakeStage::from_bits_truncate(0xff), all);
    assert!(all.contains(IntakeStage::empty()));
    assert!(!IntakeStage::empty().contains(front_top));
}

fn inputs(now: u64, proximity: i64, hue_deg: i64) -> SortInputs {
    SortInputs {
        now_ms: now,
        reject_color: Some(ElementColor::Blue),
        proximity: Some(proximity),
        hue: Some(hue_deg * DEGREE),
        emergency_override: false,
        ejector_high: Some(false),
    }
}

#[test]
fn rejected_ring_raises_ejector_for_a_second() {
    let mut sort = ColorSort::new(0);
    assert_eq!(sort.step(&inputs(10, 500_000, 220)), SortCommands { release: false, ejector: Some(true) });
    assert!(sort.rejecting && sort.in_prox);
    assert_eq!(sort.step(&inputs(500, 0, 0)), SortCommands { release: false, ejector: Some(true) });
    assert!(!sort.in_prox);
    assert_eq!(sort.step(&inputs(1100, 0, 0)), SortCommands { release: false, ejector: Some(false) });
    assert!(!sort.rejecting);
}

#[test]
fn kept_ring_releases_ejector() {
    let mut sort = ColorSort::new(0);
    sort.step(&inputs(10, 500_000, 220));
    let c = sort.step(&inputs(20, 500_000, 10));
    assert_eq!(c, SortCommands { release: true, ejector: None });
    assert!(!sort.rejecting);
}

#[test]
fn red_rejection_sees_wrapped_red_hue() {
    let mut sort = ColorSort::new(0);
    let mut inp = inputs(10, 500_000, 350);
    inp.reject_color = Some(ElementColor::Red);
    assert_eq!(sort.step(&inp).ejector, Some(true));
}

#[test]
fn no_reject_color_lowers_raised_ejector() {
    let mut sort = ColorSort::new(0);
    let mut inp = inputs(10, 500_000, 220);
    inp.reject_color = None;
    inp.ejector_high = Some(true);
    assert_eq!(sort.step(&inp), SortCommands { release: false, ejector: Some(false) });
    assert!(!sort.in_prox);
}

#[test]
fn emergency_override_raises_lowered_ejector() {
    let mut sort = ColorSort::new(0);
    let mut inp = inputs(10, 0, 100);
    inp.emergency_override = true;
    assert_eq!(sort.step(&inp).ejector, Some(true));
    inp.ejector_high = Some(true);
    assert_eq!(sort.step(&inp).ejector, None);
    inp.ejector_high = None;
    assert_eq!(sort.step(&inp).ejector, None);
}

#[test]
fn image_buffer_length_checked() {
    assert!(Image::<2, 3>::from_buffer(vec![0u32; 24]).is_some());
    assert!(Image::<2, 3>::from_buffer(vec![0u32; 6]).is_none());
    let img = Image::<1, 1>::from_buffer(vec![1, 2, 3, 4]).unwrap();
    assert_eq!(img.buffer(), &vec![1, 2, 3, 4]);
}
