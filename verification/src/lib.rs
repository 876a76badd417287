//! Verified core of a RealSense viewer: color mapping, frame-to-image
//! conversion, point-cloud buffer construction, and the pipeline
//! configuration and device-selection decisions.
pub mod cloud;
pub mod color;
pub mod config;
pub mod convert;
pub mod device;
pub mod frame;
pub mod img;
pub mod panel;

pub use cloud::emitter_frame_matches;
pub use cloud::instance_translations;
pub use cloud::point_cloud_buffers;
pub use cloud::DEPTH_NEAR_CUTOFF_MM;
pub use color::jet_colormap;
pub use color::lerp_color;
pub use color::Color;
pub use config::cloud_sensor_option_plan;
pub use config::cloud_stream_requests;
pub use config::OptionCommand;
pub use config::SensorOption;
pub use config::StreamDirective;
pub use config::StreamFormat;
pub use config::StreamKind;
pub use config::StreamRequest;
pub use config::ViewerSettings;
pub use convert::bgr_to_rgb_bytes;
pub use convert::color_frame_to_rgb_img;
pub use convert::depth_frame_to_rgb_img;
pub use convert::depth_to_rgb_bytes;
pub use convert::infrared_frame_to_rgb_img;
pub use convert::y8_to_rgb_bytes;
pub use convert::DEPTH_RANGE_MM;
pub use device::find_realsense;
pub use device::info_or_na;
pub use device::is_realsense_name;
pub use device::select_device_action;
pub use device::DeviceAction;
pub use frame::ColorFrame;
pub use frame::DepthFrame;
pub use frame::InfraredFrame;
pub use img::RgbImageBuf;
pub use panel::grid_columns;
