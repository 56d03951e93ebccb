use simple_image_tool::scale::decide_scale;
use simple_image_tool::IMAGE_MAX_WIDTH;

#[test]
fn small_width_keeps_original() {
    let d = decide_scale(1000, 5000, IMAGE_MAX_WIDTH);
    assert!(d.keep_original);
    assert_eq!(d.target_width, 1000);
    assert_eq!(d.target_height, 5000);
}

#[test]
fn small_height_keeps_original() {
    // The rule is an OR of "less than": a wide image with a small height is
    // kept at its original resolution, a documented behavior rather than a
    // defect to fix.
    let d = decide_scale(4000, 2000, IMAGE_MAX_WIDTH);
    assert!(d.keep_original);
    assert_eq!(d.target_width, 4000);
    assert_eq!(d.target_height, 2000);
}

#[test]
fn both_small_keeps_original() {
    let d = decide_scale(1, 1, IMAGE_MAX_WIDTH);
    assert!(d.keep_original);
    assert_eq!(d.target_width, 1);
    assert_eq!(d.target_height, 1);
}

#[test]
fn both_at_threshold_scales() {
    let d = decide_scale(3072, 3072, IMAGE_MAX_WIDTH);
    assert!(!d.keep_original);
    assert_eq!(d.target_width, 3072);
    assert_eq!(d.target_height, 3072);
}

#[test]
fn two_to_one_ratio_halves_height() {
    let d = decide_scale(6144, 3072, IMAGE_MAX_WIDTH);
    assert!(!d.keep_original);
    assert_eq!(d.target_width, 3072);
    assert_eq!(d.target_height, 1536);
}

#[test]
fn rounded_height_is_exact() {
    // round(5000 / 4000 * 3072) = round(3840) = 3840
    let d = decide_scale(4000, 5000, IMAGE_MAX_WIDTH);
    assert!(!d.keep_original);
    assert_eq!(d.target_width, 3072);
    assert_eq!(d.target_height, 3840);
}

#[test]
fn rounding_goes_half_up() {
    // 3073 * 3072 / 3074 = 3071.0006..., rounds down to 3071.
    let d = decide_scale(3074, 3073, IMAGE_MAX_WIDTH);
    assert!(!d.keep_original);
    assert_eq!(d.target_width, 3072);
    assert_eq!(d.target_height, 3071);
    // 5000 * 3072 / 4999 = 3072.61..., rounds up to 3073.
    let d2 = decide_scale(4999, 5000, IMAGE_MAX_WIDTH);
    assert!(!d2.keep_original);
    assert_eq!(d2.target_height, 3073);
    // 3073 * 3072 / 6144 = 1536.5 exactly: half rounds up.
    let d3 = decide_scale(6144, 3073, IMAGE_MAX_WIDTH);
    assert!(!d3.keep_original);
    assert_eq!(d3.target_height, 1537);
}

#[test]
fn just_below_threshold_keeps_original() {
    let d = decide_scale(3071, 9000, IMAGE_MAX_WIDTH);
    assert!(d.keep_original);
    let d2 = decide_scale(9000, 3071, IMAGE_MAX_WIDTH);
    assert!(d2.keep_original);
}

#[test]
fn custom_threshold_is_honored() {
    let d = decide_scale(200, 100, 100);
    assert!(!d.keep_original);
    assert_eq!(d.target_width, 100);
    assert_eq!(d.target_height, 50);
    let d2 = decide_scale(200, 99, 100);
    assert!(d2.keep_original);
}
