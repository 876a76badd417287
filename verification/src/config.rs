//! The viewer's stream toggles and sensor options, and the exact
//! configuration plans built from them: which streams to enable or
//! disable, with which parameters, and which sensor options to set.
use vstd::prelude::*;

verus! {

/// Width requested for the viewer's image streams; the height is left to
/// the device.
pub const VIEWER_STREAM_WIDTH: usize = 640;

/// Frame rate requested for the viewer's image streams.
pub const VIEWER_STREAM_FPS: usize = 30;

/// Width of the frames the point-cloud viewer requests.
pub const CLOUD_FRAME_WIDTH: usize = 640;

/// Height of the frames the point-cloud viewer requests.
pub const CLOUD_FRAME_HEIGHT: usize = 480;

/// The stream toggles and sensor options the viewer exposes.
#[derive(Clone, Copy, Debug, PartialEq, Eq, Structural)]
pub struct ViewerSettings {
    pub depth_stream_enabled: bool,
    pub color_stream_enabled: bool,
    pub infrared_1_stream_enabled: bool,
    pub infrared_2_stream_enabled: bool,
    pub accel_stream_enabled: bool,
    pub gyro_stream_enabled: bool,
    pub global_time_enabled: bool,
    pub auto_exposure_enabled: bool,
    pub emitter_enabled: bool,
    pub emitter_on_off: bool,
    pub emitter_always_on: bool,
}

/// The settings the viewer starts with: every stream and option on,
/// except the emitter interleave modes.
pub open spec fn spec_default_settings() -> ViewerSettings {
    ViewerSettings {
        depth_stream_enabled: true,
        color_stream_enabled: true,
        infrared_1_stream_enabled: true,
        infrared_2_stream_enabled: true,
        accel_stream_enabled: true,
        gyro_stream_enabled: true,
        global_time_enabled: true,
        auto_exposure_enabled: true,
        emitter_enabled: true,
        emitter_on_off: false,
        emitter_always_on: false,
    }
}

/// At least one stream must be on for a pipeline to start.
pub open spec fn spec_any_stream_enabled(s: ViewerSettings) -> bool {
    ||| s.depth_stream_enabled
    ||| s.color_stream_enabled
    ||| s.infrared_1_stream_enabled
    ||| s.infrared_2_stream_enabled
    ||| s.accel_stream_enabled
    ||| s.gyro_stream_enabled
}

/// A kind of camera stream.
#[derive(Clone, Copy, Debug, PartialEq, Eq, Structural)]
pub enum StreamKind {
    Depth,
    Color,
    Infrared,
    Gyro,
    Accel,
}

/// A pixel or sample format to request for a stream.
#[derive(Clone, Copy, Debug, PartialEq, Eq, Structural)]
pub enum StreamFormat {
    Z16,
    Bgr8,
    Y8,
    Any,
}

/// The parameters a stream is enabled with; a zero width, height or frame
/// rate leaves the choice to the device.
#[derive(Clone, Copy, Debug, PartialEq, Eq)]
pub struct StreamRequest {
    pub kind: StreamKind,
    pub index: Option<usize>,
    pub width: usize,
    pub height: usize,
    pub format: StreamFormat,
    pub framerate: usize,
}

/// One step of a configuration plan: enable a stream with its parameters,
/// or disable it (at an index, for indexed streams).
#[derive(Clone, Copy, Debug, PartialEq, Eq)]
pub enum StreamDirective {
    Enable(StreamRequest),
    Disable(StreamKind, Option<usize>),
}

/// The directive the settings give for the depth stream.
pub open spec fn spec_depth_directive(s: ViewerSettings) -> StreamDirective {
    if s.depth_stream_enabled {
        StreamDirective::Enable(
            StreamRequest {
                kind: StreamKind::Depth,
                index: None,
                width: VIEWER_STREAM_WIDTH as usize,
                height: 0,
                format: StreamFormat::Z16,
                framerate: VIEWER_STREAM_FPS as usize,
            },
        )
    } else {
        StreamDirective::Disable(StreamKind::Depth, None)
    }
}

/// The directive the settings give for the color stream.
pub open spec fn spec_color_directive(s: ViewerSettings) -> StreamDirective {
    if s.color_stream_enabled {
        StreamDirective::Enable(
            StreamRequest {
                kind: StreamKind::Color,
                index: None,
                width: VIEWER_STREAM_WIDTH as usize,
                height: 0,
                format: StreamFormat::Bgr8,
                framerate: VIEWER_STREAM_FPS as usize,
            },
        )
    } else {
        StreamDirective::Disable(StreamKind::Color, None)
    }
}

/// The directive the settings give for an infrared stream; the device
/// counts them from one.
pub open spec fn spec_infrared_directive(enabled: bool, index: usize) -> StreamDirective {
    if enabled {
        StreamDirective::Enable(
            StreamRequest {
                kind: StreamKind::Infrared,
                index: Some(index),
                width: VIEWER_STREAM_WIDTH as usize,
                height: 0,
                format: StreamFormat::Y8,
                framerate: VIEWER_STREAM_FPS as usize,
            },
        )
    } else {
        StreamDirective::Disable(StreamKind::Infrared, Some(index))
    }
}

/// The directive the settings give for a motion stream (gyroscope or
/// accelerometer): format and rate are left to the device.
pub open spec fn spec_motion_directive(enabled: bool, kind: StreamKind) -> StreamDirective {
    if enabled {
        StreamDirective::Enable(
            StreamRequest {
                kind: kind,
                index: None,
                width: 0,
                height: 0,
                format: StreamFormat::Any,
                framerate: 0,
            },
        )
    } else {
        StreamDirective::Disable(kind, None)
    }
}

/// The full configuration plan the settings give, in the order the
/// streams are configured: depth, color, the two infrared streams, gyro,
/// accel.
pub open spec fn spec_stream_directives(s: ViewerSettings) -> Seq<StreamDirective> {
    seq![
        spec_depth_directive(s),
        spec_color_directive(s),
        spec_infrared_directive(s.infrared_1_stream_enabled, 1),
        spec_infrared_directive(s.infrared_2_stream_enabled, 2),
        spec_motion_directive(s.gyro_stream_enabled, StreamKind::Gyro),
        spec_motion_directive(s.accel_stream_enabled, StreamKind::Accel),
    ]
}

/// A sensor option the viewer sets on every sensor that supports it.
#[derive(Clone, Copy, Debug, PartialEq, Eq, Structural)]
pub enum SensorOption {
    GlobalTimeEnabled,
    EnableAutoExposure,
    EmitterEnabled,
    EmitterOnOff,
    EmitterAlwaysOn,
}

/// A sensor option together with the on/off value to set it to.
#[derive(Clone, Copy, Debug, PartialEq, Eq, Structural)]
pub struct OptionCommand {
    pub option: SensorOption,
    pub value: bool,
}

/// The sensor options the settings ask for, in the order they are
/// applied.
pub open spec fn spec_sensor_option_plan(s: ViewerSettings) -> Seq<OptionCommand> {
    seq![
        OptionCommand { option: SensorOption::GlobalTimeEnabled, value: s.global_time_enabled },
        OptionCommand { option: SensorOption::EnableAutoExposure, value: s.auto_exposure_enabled },
        OptionCommand { option: SensorOption::EmitterEnabled, value: s.emitter_enabled },
        OptionCommand { option: SensorOption::EmitterOnOff, value: s.emitter_on_off },
        OptionCommand { option: SensorOption::EmitterAlwaysOn, value: s.emitter_always_on },
    ]
}

impl ViewerSettings {
    /// The settings the viewer starts with.
    pub fn new() -> (r: ViewerSettings)
        ensures
            r == spec_default_settings(),
    {
        ViewerSettings {
            depth_stream_enabled: true,
            color_stream_enabled: true,
            infrared_1_stream_enabled: true,
            infrared_2_stream_enabled: true,
            accel_stream_enabled: true,
            gyro_stream_enabled: true,
            global_time_enabled: true,
            auto_exposure_enabled: true,
            emitter_enabled: true,
            emitter_on_off: false,
            emitter_always_on: false,
        }
    }

    /// Whether any stream is on: a pipeline can only start with at least
    /// one.
    pub fn any_stream_enabled(&self) -> (r: bool)
        ensures
            r == spec_any_stream_enabled(*self),
    {
        self.depth_stream_enabled || self.color_stream_enabled || self.infrared_1_stream_enabled
            || self.infrared_2_stream_enabled || self.accel_stream_enabled
            || self.gyro_stream_enabled
    }

    /// The configuration plan for these settings: one directive per
    /// stream, in the order the streams are configured.
    pub fn stream_directives(&self) -> (r: Vec<StreamDirective>)
        ensures
            r@ == spec_stream_directives(*self),
    {
        let mut r: Vec<StreamDirective> = Vec::new();
        if self.depth_stream_enabled {
            r.push(
                StreamDirective::Enable(
                    StreamRequest {
                        kind: StreamKind::Depth,
                        index: None,
                        width: VIEWER_STREAM_WIDTH,
                        height: 0,
                        format: StreamFormat::Z16,
                        framerate: VIEWER_STREAM_FPS,
                    },
                ),
            );
        } else {
            r.push(StreamDirective::Disable(StreamKind::Depth, None));
        }
        if self.color_stream_enabled {
            r.push(
                StreamDirective::Enable(
                    StreamRequest {
                        kind: StreamKind::Color,
                        index: None,
                        width: VIEWER_STREAM_WIDTH,
                        height: 0,
                        format: StreamFormat::Bgr8,
                        framerate: VIEWER_STREAM_FPS,
                    },
                ),
            );
        } else {
            r.push(StreamDirective::Disable(StreamKind::Color, None));
        }
        if self.infrared_1_stream_enabled {
            r.push(
                StreamDirective::Enable(
                    StreamRequest {
                        kind: StreamKind::Infrared,
                        index: Some(1),
                        width: VIEWER_STREAM_WIDTH,
                        height: 0,
                        format: StreamFormat::Y8,
                        framerate: VIEWER_STREAM_FPS,
                    },
                ),
            );
        } else {
            r.push(StreamDirective::Disable(StreamKind::Infrared, Some(1)));
        }
        if self.infrared_2_stream_enabled {
            r.push(
                StreamDirective::Enable(
                    StreamRequest {
                        kind: StreamKind::Infrared,
                        index: Some(2),
                        width: VIEWER_STREAM_WIDTH,
                        height: 0,
                        format: StreamFormat::Y8,
                        framerate: VIEWER_STREAM_FPS,
                    },
                ),
            );
        } else {
            r.push(StreamDirective::Disable(StreamKind::Infrared, Some(2)));
        }
        if self.gyro_stream_enabled {
            r.push(
                StreamDirective::Enable(
                    StreamRequest {
                        kind: StreamKind::Gyro,
                        index: None,
                        width: 0,
                        height: 0,
                        format: StreamFormat::Any,
                        framerate: 0,
                    },
                ),
            );
        } else {
            r.push(StreamDirective::Disable(StreamKind::Gyro, None));
        }
        if self.accel_stream_enabled {
            r.push(
                StreamDirective::Enable(
                    StreamRequest {
                        kind: StreamKind::Accel,
                        index: None,
                        width: 0,
                        height: 0,
                        format: StreamFormat::Any,
                        framerate: 0,
                    },
                ),
            );
        } else {
            r.push(StreamDirective::Disable(StreamKind::Accel, None));
        }
        proof {
            assert(r@ =~= spec_stream_directives(*self));
        }
        r
    }

    /// The sensor options these settings ask for, in the order they are
    /// applied.
    pub fn sensor_option_plan(&self) -> (r: Vec<OptionCommand>)
        ensures
            r@ == spec_sensor_option_plan(*self),
    {
        let mut r: Vec<OptionCommand> = Vec::new();
        r.push(
            OptionCommand { option: SensorOption::GlobalTimeEnabled, value: self.global_time_enabled },
        );
        r.push(
            OptionCommand {
                option: SensorOption::EnableAutoExposure,
                value: self.auto_exposure_enabled,
            },
        );
        r.push(OptionCommand { option: SensorOption::EmitterEnabled, value: self.emitter_enabled });
        r.push(OptionCommand { option: SensorOption::EmitterOnOff, value: self.emitter_on_off });
        r.push(
            OptionCommand { option: SensorOption::EmitterAlwaysOn, value: self.emitter_always_on },
        );
        proof {
            assert(r@ =~= spec_sensor_option_plan(*self));
        }
        r
    }
}

/// The streams the point-cloud viewer always requests: depth and the
/// first infrared stream, both at the fixed frame size.
pub open spec fn spec_cloud_stream_requests() -> Seq<StreamRequest> {
    seq![
        StreamRequest {
            kind: StreamKind::Depth,
            index: None,
            width: CLOUD_FRAME_WIDTH as usize,
            height: CLOUD_FRAME_HEIGHT as usize,
            format: StreamFormat::Z16,
            framerate: VIEWER_STREAM_FPS as usize,
        },
        StreamRequest {
            kind: StreamKind::Infrared,
            index: Some(1),
            width: CLOUD_FRAME_WIDTH as usize,
            height: CLOUD_FRAME_HEIGHT as usize,
            format: StreamFormat::Y8,
            framerate: VIEWER_STREAM_FPS as usize,
        },
    ]
}

/// The stream requests of the point-cloud viewer: a depth stream and the
/// first infrared stream at the fixed frame size.
pub fn cloud_stream_requests() -> (r: Vec<StreamRequest>)
    ensures
        r@ == spec_cloud_stream_requests(),
{
    let mut r: Vec<StreamRequest> = Vec::new();
    r.push(
        StreamRequest {
            kind: StreamKind::Depth,
            index: None,
            width: CLOUD_FRAME_WIDTH,
            height: CLOUD_FRAME_HEIGHT,
            format: StreamFormat::Z16,
            framerate: VIEWER_STREAM_FPS,
        },
    );
    r.push(
        StreamRequest {
            kind: StreamKind::Infrared,
            index: Some(1),
            width: CLOUD_FRAME_WIDTH,
            height: CLOUD_FRAME_HEIGHT,
            format: StreamFormat::Y8,
            framerate: VIEWER_STREAM_FPS,
        },
    );
    proof {
        assert(r@ =~= spec_cloud_stream_requests());
    }
    r
}

/// The sensor options the point-cloud viewer sets: emitter on, emitter
/// interleave on, and auto exposure as asked.
pub open spec fn spec_cloud_sensor_option_plan(enable_auto_exposure: bool) -> Seq<OptionCommand> {
    seq![
        OptionCommand { option: SensorOption::EmitterEnabled, value: true },
        OptionCommand { option: SensorOption::EmitterOnOff, value: true },
        OptionCommand { option: SensorOption::EnableAutoExposure, value: enable_auto_exposure },
    ]
}

/// The sensor options the point-cloud viewer applies, in order: the
/// emitter is turned on, interleave mode is turned on so infrared frames
/// without the emitter pattern arrive too, and auto exposure follows the
/// caller.
pub fn cloud_sensor_option_plan(enable_auto_exposure: bool) -> (r: Vec<OptionCommand>)
    ensures
        r@ == spec_cloud_sensor_option_plan(enable_auto_exposure),
{
    let mut r: Vec<OptionCommand> = Vec::new();
    r.push(OptionCommand { option: SensorOption::EmitterEnabled, value: true });
    r.push(OptionCommand { option: SensorOption::EmitterOnOff, value: true });
    r.push(OptionCommand { option: SensorOption::EnableAutoExposure, value: enable_auto_exposure });
    proof {
        assert(r@ =~= spec_cloud_sensor_option_plan(enable_auto_exposure));
    }
    r
}

} // verus!
