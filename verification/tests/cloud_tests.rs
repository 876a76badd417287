use realsense_tools::emitter_frame_matches;
use realsense_tools::instance_translations;
use realsense_tools::point_cloud_buffers;
use realsense_tools::DepthFrame;
use realsense_tools::InfraredFrame;

#[test]
fn point_cloud_keeps_only_readings_past_the_cutoff() {
    let depth = DepthFrame::new(2, 2, vec![100, 201, 4000, 4500]).unwrap();
    let infrared = InfraredFrame::new(2, 2, vec![10, 20, 30, 40]).unwrap();
    let (heights, rgba) = point_cloud_buffers(&depth, &infrared);
    assert_eq!(heights, vec![0, 3799, 0, 0]);
    assert_eq!(
        rgba,
        vec![0, 0, 0, 0, 20, 20, 20, 255, 30, 30, 30, 255, 40, 40, 40, 255]
    );
}

#[test]
fn point_cloud_boundary_reading_is_dropped() {
    let depth = DepthFrame::new(1, 1, vec![200]).unwrap();
    let infrared = InfraredFrame::new(1, 1, vec![99]).unwrap();
    let (heights, rgba) = point_cloud_buffers(&depth, &infrared);
    assert_eq!(heights, vec![0]);
    assert_eq!(rgba, vec![0, 0, 0, 0]);
}

#[test]
fn point_cloud_height_is_distance_from_far_end() {
    let depth = DepthFrame::new(1, 1, vec![1000]).unwrap();
    let infrared = InfraredFrame::new(1, 1, vec![128]).unwrap();
    let (heights, rgba) = point_cloud_buffers(&depth, &infrared);
    assert_eq!(heights, vec![3000]);
    assert_eq!(rgba, vec![128, 128, 128, 255]);
}

#[test]
fn translations_of_a_two_by_two_grid() {
    let r = instance_translations(2, 2);
    assert_eq!(r, vec![-2, 2, 0, 2, -2, 0, 0, 0]);
}

#[test]
fn translations_of_the_camera_grid() {
    let r = instance_translations(640, 480);
    assert_eq!(r.len(), 2 * 640 * 480);
    // Top-left pixel.
    assert_eq!(r[0], -640);
    assert_eq!(r[1], 480);
    // Bottom-right pixel.
    assert_eq!(r[2 * 640 * 480 - 2], 638);
    assert_eq!(r[2 * 640 * 480 - 1], -478);
}

#[test]
fn emitter_match_needs_a_frame() {
    assert!(!emitter_frame_matches(0, Some(0), 0));
}

#[test]
fn emitter_match_needs_metadata() {
    assert!(!emitter_frame_matches(1, None, 0));
}

#[test]
fn emitter_match_needs_the_expected_mode() {
    assert!(!emitter_frame_matches(1, Some(1), 0));
    assert!(emitter_frame_matches(2, Some(0), 0));
    assert!(emitter_frame_matches(1, Some(1), 1));
}
