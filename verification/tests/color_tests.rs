use realsense_tools::jet_colormap;
use realsense_tools::lerp_color;
use realsense_tools::Color;

#[test]
fn jet_at_zero_is_blue() {
    let c = jet_colormap(0, 4000);
    assert_eq!(c, Color { r: 0, g: 0, b: 255 });
}

#[test]
fn jet_at_quarter_is_cyan() {
    let c = jet_colormap(1000, 4000);
    assert_eq!(c, Color { r: 0, g: 255, b: 255 });
}

#[test]
fn jet_at_half_is_yellow() {
    let c = jet_colormap(2000, 4000);
    assert_eq!(c, Color { r: 255, g: 255, b: 0 });
}

#[test]
fn jet_at_three_quarters_is_red() {
    let c = jet_colormap(3000, 4000);
    assert_eq!(c, Color { r: 255, g: 0, b: 0 });
}

#[test]
fn jet_at_full_range_is_black() {
    let c = jet_colormap(4000, 4000);
    assert_eq!(c, Color { r: 0, g: 0, b: 0 });
}

#[test]
fn jet_clamps_past_full_range() {
    let c = jet_colormap(5000, 4000);
    assert_eq!(c, Color { r: 0, g: 0, b: 0 });
}

#[test]
fn jet_first_segment_midpoint() {
    // 500/4000 sits halfway between blue and cyan: green is 255/2 rounded
    // down.
    let c = jet_colormap(500, 4000);
    assert_eq!(c, Color { r: 0, g: 127, b: 255 });
}

#[test]
fn jet_second_segment_midpoint() {
    let c = jet_colormap(1500, 4000);
    assert_eq!(c, Color { r: 127, g: 255, b: 127 });
}

#[test]
fn jet_stays_red_between_three_quarters_and_four_fifths() {
    // The last segment only starts at 4/5, so 3100/4000 is still fully
    // red.
    let c = jet_colormap(3100, 4000);
    assert_eq!(c, Color { r: 255, g: 0, b: 0 });
}

#[test]
fn jet_last_segment_midpoint() {
    // 3600/4000 is halfway between 4/5 and 1: red fades to 127.
    let c = jet_colormap(3600, 4000);
    assert_eq!(c, Color { r: 127, g: 0, b: 0 });
}

#[test]
fn lerp_midpoint_of_black_and_white() {
    let black = Color { r: 0, g: 0, b: 0 };
    let white = Color { r: 255, g: 255, b: 255 };
    let c = lerp_color(5, 0, black, 10, white);
    assert_eq!(c, Color { r: 127, g: 127, b: 127 });
}

#[test]
fn lerp_exact_third() {
    let black = Color { r: 0, g: 0, b: 0 };
    let white = Color { r: 255, g: 255, b: 255 };
    let c = lerp_color(1, 0, black, 3, white);
    assert_eq!(c, Color { r: 85, g: 85, b: 85 });
}

#[test]
fn lerp_clamps_below_interval() {
    let a = Color { r: 10, g: 20, b: 30 };
    let b = Color { r: 200, g: 100, b: 50 };
    let c = lerp_color(0, 5, a, 10, b);
    assert_eq!(c, a);
}

#[test]
fn lerp_clamps_above_interval() {
    let a = Color { r: 10, g: 20, b: 30 };
    let b = Color { r: 200, g: 100, b: 50 };
    let c = lerp_color(99, 5, a, 10, b);
    assert_eq!(c, b);
}

#[test]
fn lerp_descending_channel_rounds_down() {
    // 255 to 0 at one third: 255 - 85 = 170.
    let a = Color { r: 255, g: 0, b: 255 };
    let b = Color { r: 0, g: 0, b: 0 };
    let c = lerp_color(1, 0, a, 3, b);
    assert_eq!(c, Color { r: 170, g: 0, b: 170 });
}
