use realsense_tools::ColorFrame;
use realsense_tools::DepthFrame;
use realsense_tools::InfraredFrame;

#[test]
fn depth_frame_accepts_matching_buffer() {
    let f = DepthFrame::new(2, 2, vec![1, 2, 3, 4]).unwrap();
    assert_eq!(f.width, 2);
    assert_eq!(f.height, 2);
    assert_eq!(f.get(0, 0), 1);
    assert_eq!(f.get(1, 0), 2);
    assert_eq!(f.get(0, 1), 3);
    assert_eq!(f.get(1, 1), 4);
}

#[test]
fn depth_frame_rejects_short_buffer() {
    assert!(DepthFrame::new(2, 2, vec![1, 2, 3]).is_none());
}

#[test]
fn depth_frame_rejects_overflowing_dimensions() {
    assert!(DepthFrame::new(usize::MAX, 2, vec![]).is_none());
}

#[test]
fn infrared_frame_accepts_matching_buffer() {
    let f = InfraredFrame::new(3, 1, vec![9, 8, 7]).unwrap();
    assert_eq!(f.get(0, 0), 9);
    assert_eq!(f.get(2, 0), 7);
}

#[test]
fn infrared_frame_rejects_long_buffer() {
    assert!(InfraredFrame::new(3, 1, vec![9, 8, 7, 6]).is_none());
}

#[test]
fn color_frame_accepts_three_bytes_per_pixel() {
    let f = ColorFrame::new(2, 1, vec![1, 2, 3, 4, 5, 6]).unwrap();
    assert_eq!(f.get(0, 0), (1, 2, 3));
    assert_eq!(f.get(1, 0), (4, 5, 6));
}

#[test]
fn color_frame_rejects_one_byte_per_pixel() {
    assert!(ColorFrame::new(2, 1, vec![1, 2]).is_none());
}
