use realsense_tools::bgr_to_rgb_bytes;
use realsense_tools::color_frame_to_rgb_img;
use realsense_tools::depth_frame_to_rgb_img;
use realsense_tools::depth_to_rgb_bytes;
use realsense_tools::infrared_frame_to_rgb_img;
use realsense_tools::y8_to_rgb_bytes;
use realsense_tools::ColorFrame;
use realsense_tools::DepthFrame;
use realsense_tools::InfraredFrame;

#[test]
fn bgr_bytes_swap_first_and_third() {
    let out = bgr_to_rgb_bytes(&vec![1, 2, 3, 4, 5, 6]);
    assert_eq!(out, vec![3, 2, 1, 6, 5, 4]);
}

#[test]
fn bgr_bytes_empty() {
    let out = bgr_to_rgb_bytes(&vec![]);
    assert_eq!(out, Vec::<u8>::new());
}

#[test]
fn y8_bytes_triple_each_intensity() {
    let out = y8_to_rgb_bytes(&vec![7, 9]);
    assert_eq!(out, vec![7, 7, 7, 9, 9, 9]);
}

#[test]
fn depth_bytes_color_each_reading() {
    let out = depth_to_rgb_bytes(&vec![0, 2000, 3600]);
    assert_eq!(out, vec![0, 0, 255, 255, 255, 0, 127, 0, 0]);
}

#[test]
fn color_frame_image_holds_swapped_bytes() {
    let f = ColorFrame::new(2, 1, vec![10, 20, 30, 40, 50, 60]).unwrap();
    let img = color_frame_to_rgb_img(&f).inner;
    assert_eq!(img.width(), 2);
    assert_eq!(img.height(), 1);
    assert_eq!(img.into_raw(), vec![30, 20, 10, 60, 50, 40]);
}

#[test]
fn infrared_frame_image_is_grayscale() {
    let f = InfraredFrame::new(1, 2, vec![11, 22]).unwrap();
    let img = infrared_frame_to_rgb_img(&f).inner;
    assert_eq!(img.width(), 1);
    assert_eq!(img.height(), 2);
    assert_eq!(img.into_raw(), vec![11, 11, 11, 22, 22, 22]);
}

#[test]
fn depth_frame_image_runs_the_colormap() {
    let f = DepthFrame::new(2, 1, vec![0, 1000]).unwrap();
    let img = depth_frame_to_rgb_img(&f).inner;
    assert_eq!(img.into_raw(), vec![0, 0, 255, 0, 255, 255]);
}

#[test]
fn depth_frame_image_rebuilds_with_the_image_crate() {
    let f = DepthFrame::new(1, 1, vec![3000]).unwrap();
    let img = depth_frame_to_rgb_img(&f).inner;
    assert_eq!(*img.get_pixel(0, 0), image::Rgb([255, 0, 0]));
    let raw = img.into_raw();
    let rebuilt = image::RgbImage::from_raw(1, 1, raw).unwrap();
    assert_eq!(*rebuilt.get_pixel(0, 0), image::Rgb([255, 0, 0]));
}
