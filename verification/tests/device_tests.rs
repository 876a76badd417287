use realsense_tools::find_realsense;
use realsense_tools::grid_columns;
use realsense_tools::info_or_na;
use realsense_tools::is_realsense_name;
use realsense_tools::select_device_action;
use realsense_tools::DeviceAction;

#[test]
fn realsense_names_are_recognized_by_prefix() {
    assert!(is_realsense_name("Intel RealSense D435"));
    assert!(is_realsense_name("Intel RealSense"));
    assert!(!is_realsense_name("Intel RealSens"));
    assert!(!is_realsense_name("intel realsense d435"));
    assert!(!is_realsense_name(""));
    assert!(!is_realsense_name("Webcam (Intel RealSense)"));
}

#[test]
fn find_realsense_returns_the_first_match() {
    let names = vec![
        String::from("Some Webcam"),
        String::from("Intel RealSense D415"),
        String::from("Intel RealSense D435"),
    ];
    assert_eq!(find_realsense(&names), Some(1));
}

#[test]
fn find_realsense_with_no_match() {
    let names = vec![String::from("Some Webcam")];
    assert_eq!(find_realsense(&names), None);
    assert_eq!(find_realsense(&vec![]), None);
}

#[test]
fn selection_with_no_devices() {
    let r = select_device_action(0, 0, "Intel RealSense D435", "123", None);
    assert_eq!(r, DeviceAction::NoDevices);
}

#[test]
fn selection_past_the_device_list() {
    let r = select_device_action(2, 2, "Intel RealSense D435", "123", None);
    assert_eq!(r, DeviceAction::DeviceGone);
}

#[test]
fn selection_of_a_foreign_device() {
    let r = select_device_action(0, 1, "Some Webcam", "123", None);
    assert_eq!(r, DeviceAction::NotRealSense);
}

#[test]
fn selection_keeps_a_pipeline_on_the_same_serial() {
    let r = select_device_action(0, 1, "Intel RealSense D435", "123", Some("123"));
    assert_eq!(r, DeviceAction::KeepCurrent);
}

#[test]
fn selection_restarts_on_another_serial() {
    let r = select_device_action(0, 1, "Intel RealSense D435", "123", Some("456"));
    assert_eq!(r, DeviceAction::StartNew);
}

#[test]
fn selection_starts_without_a_pipeline() {
    let r = select_device_action(0, 1, "Intel RealSense D435", "123", None);
    assert_eq!(r, DeviceAction::StartNew);
}

#[test]
fn info_falls_back_to_placeholder() {
    assert_eq!(info_or_na(Some(String::from("943222070774"))), "943222070774");
    assert_eq!(info_or_na(None), "N/A");
}

#[test]
fn grid_grows_with_the_frame_count() {
    assert_eq!(grid_columns(0), 1);
    assert_eq!(grid_columns(1), 1);
    assert_eq!(grid_columns(2), 2);
    assert_eq!(grid_columns(4), 2);
    assert_eq!(grid_columns(5), 3);
    assert_eq!(grid_columns(6), 3);
}
