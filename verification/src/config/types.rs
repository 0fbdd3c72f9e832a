//! The sections of the configuration and the values they have where nothing is
//! said.

use vstd::prelude::*;
use crate::compositor::CompositorType;
use crate::text::same_text;

verus! {

/// A single-precision number, as the bits of its IEEE 754 encoding.
#[derive(Clone, Copy, Debug, PartialEq, Eq, Structural)]
pub struct Single {
    pub bits: u32,
}

/// Where and how the server listens.
#[derive(Clone, Debug)]
pub struct ServerConfig {
    /// Address and port to listen on.
    pub listen_addr: String,
    /// Whether a virtual socket is used instead of TCP.
    pub use_vsock: bool,
    /// Port of the virtual socket.
    pub vsock_port: u16,
    /// Largest number of connections at a time.
    pub max_connections: usize,
    /// Time limit of a session in seconds, 0 for none.
    pub session_timeout: u64,
    /// Whether the screen is captured through desktop portals.
    pub use_portals: bool,
    /// Whether clients see the desktop without controlling it.
    pub view_only: bool,
}

impl ServerConfig {
    /// The values of this section where nothing is said.
    pub open spec fn is_default(&self) -> bool {
        &&& self.listen_addr@ == "0.0.0.0:3389"@
        &&& !self.use_vsock
        &&& self.vsock_port == 3389
        &&& self.max_connections == 10
        &&& self.session_timeout == 0
        &&& self.use_portals
        &&& !self.view_only
    }
}

impl Default for ServerConfig {
    fn default() -> (r: Self)
        ensures
            r.is_default(),
    {
        ServerConfig {
            listen_addr: "0.0.0.0:3389".to_owned(),
            use_vsock: false,
            vsock_port: 3389,
            max_connections: 10,
            session_timeout: 0,
            use_portals: true,
            view_only: false,
        }
    }
}

/// Video encoding.
#[derive(Clone, Debug)]
pub struct VideoConfig {
    /// Frames per second to aim at.
    pub target_fps: u32,
    /// How the cursor is drawn: `embedded`, `metadata` or `hidden`.
    pub cursor_mode: String,
}

impl VideoConfig {
    /// The values of this section where nothing is said.
    pub open spec fn is_default(&self) -> bool {
        &&& self.target_fps == 30
        &&& self.cursor_mode@ == "metadata"@
    }
}

impl Default for VideoConfig {
    fn default() -> (r: Self)
        ensures
            r.is_default(),
    {
        VideoConfig {
            target_fps: 30,
            cursor_mode: "metadata".to_owned(),
        }
    }
}

/// The Wayland protocol that captures the screen.
#[derive(Clone, Debug)]
pub struct CaptureProtocolConfig {
    /// Preferred protocol: `auto`, `ext` or `wlr`.
    pub protocol: String,
    /// Whether another protocol is tried.
    pub allow_fallback: bool,
    /// Time limit of the handshake in milliseconds, 0 for none.
    pub handshake_timeout_ms: u64,
}

impl CaptureProtocolConfig {
    /// The values of this section where nothing is said.
    pub open spec fn is_default(&self) -> bool {
        &&& self.protocol@ == "auto"@
        &&& self.allow_fallback
        &&& self.handshake_timeout_ms == 5000
    }
}

impl Default for CaptureProtocolConfig {
    fn default() -> (r: Self)
        ensures
            r.is_default(),
    {
        CaptureProtocolConfig {
            protocol: "auto".to_owned(),
            allow_fallback: true,
            handshake_timeout_ms: 5000,
        }
    }
}

/// Keyboard, pointer and touch input.
#[derive(Clone, Debug)]
pub struct InputConfig {
    /// Input protocol: `auto`, `libei` or `wlr`.
    pub input_protocol: String,
    /// Older setting that `auto` gives way to.
    pub use_libei: Option<bool>,
    /// Keyboard layout: `auto` or the name of a layout.
    pub keyboard_layout: String,
    /// Whether touch input is passed on.
    pub enable_touch: bool,
}

impl InputConfig {
    /// The values of this section where nothing is said.
    pub open spec fn is_default(&self) -> bool {
        &&& self.input_protocol@ == "auto"@
        &&& self.use_libei is None
        &&& self.keyboard_layout@ == "auto"@
        &&& !self.enable_touch
    }
}

impl Default for InputConfig {
    fn default() -> (r: Self)
        ensures
            r.is_default(),
    {
        InputConfig {
            input_protocol: "auto".to_owned(),
            use_libei: None,
            keyboard_layout: "auto".to_owned(),
            enable_touch: false,
        }
    }
}

/// Clipboard synchronisation.
#[derive(Clone, Debug)]
pub struct ClipboardConfig {
    /// Whether the clipboard is synchronised.
    pub enabled: bool,
    /// Largest amount of clipboard data in bytes.
    pub max_size: usize,
    /// Least time between two clipboard events in milliseconds, 0 for no limit.
    pub rate_limit_ms: u64,
    /// Allowed MIME types; none given allows all.
    pub allowed_types: Vec<String>,
    /// Preferred protocol: `auto`, `ext` or `wlr`.
    pub protocol: String,
    /// Whether another protocol is tried.
    pub allow_fallback: bool,
    /// Whether KDE's clipboard manager is asked to leave the clipboard alone.
    pub kde_syncselection_hint: bool,
    /// Name of the strategy to use whatever the environment.
    pub strategy_override: Option<String>,
}

impl ClipboardConfig {
    /// The values of this section where nothing is said.
    pub open spec fn is_default(&self) -> bool {
        &&& self.enabled
        &&& self.max_size == 10_485_760
        &&& self.rate_limit_ms == 200
        &&& self.allowed_types@.len() == 0
        &&& self.protocol@ == "auto"@
        &&& self.allow_fallback
        &&& !self.kde_syncselection_hint
        &&& self.strategy_override is None
    }
}

impl Default for ClipboardConfig {
    fn default() -> (r: Self)
        ensures
            r.is_default(),
    {
        ClipboardConfig {
            enabled: true,
            max_size: 10_485_760,
            rate_limit_ms: 200,
            allowed_types: Vec::new(),
            protocol: "auto".to_owned(),
            allow_fallback: true,
            kde_syncselection_hint: false,
            strategy_override: None,
        }
    }
}

/// Several monitors.
#[derive(Clone, Debug)]
pub struct MultiMonitorConfig {
    /// Whether several monitors are supported.
    pub enabled: bool,
    /// Largest number of monitors.
    pub max_monitors: usize,
}

impl MultiMonitorConfig {
    /// The values of this section where nothing is said.
    pub open spec fn is_default(&self) -> bool {
        &&& self.enabled
        &&& self.max_monitors == 4
    }
}

impl Default for MultiMonitorConfig {
    fn default() -> (r: Self)
        ensures
            r.is_default(),
    {
        MultiMonitorConfig {
            enabled: true,
            max_monitors: 4,
        }
    }
}

/// Frame rate that follows the activity on the screen.
#[derive(Clone, Debug)]
pub struct AdaptiveFpsConfig {
    /// Whether the frame rate adapts.
    pub enabled: bool,
    /// Frame rate of a still screen.
    pub min_fps: u32,
    /// Frame rate at high activity.
    pub max_fps: u32,
    /// Part of the screen that changes at high activity.
    pub high_activity_threshold: Single,
    /// Part of the screen that changes at medium activity.
    pub medium_activity_threshold: Single,
    /// Part of the screen that changes at low activity.
    pub low_activity_threshold: Single,
}

impl AdaptiveFpsConfig {
    /// The values of this section where nothing is said.
    pub open spec fn is_default(&self) -> bool {
        &&& self.enabled
        &&& self.min_fps == 5
        &&& self.max_fps == 30
        &&& self.high_activity_threshold.bits == 0x3e99999a
        &&& self.medium_activity_threshold.bits == 0x3dcccccd
        &&& self.low_activity_threshold.bits == 0x3c23d70a
    }
}

impl Default for AdaptiveFpsConfig {
    fn default() -> (r: Self)
        ensures
            r.is_default(),
    {
        AdaptiveFpsConfig {
            enabled: true,
            min_fps: default_min_fps(),
            max_fps: default_max_fps(),
            high_activity_threshold: default_high_activity(),
            medium_activity_threshold: default_medium_activity(),
            low_activity_threshold: default_low_activity(),
        }
    }
}

/// Latency against quality.
#[derive(Clone, Debug)]
pub struct LatencyConfig {
    /// `interactive`, `balanced` or `quality`.
    pub mode: String,
    /// Longest delay of a frame in interactive mode.
    pub interactive_max_delay_ms: u32,
    /// Longest delay of a frame in balanced mode.
    pub balanced_max_delay_ms: u32,
    /// Longest delay of a frame in quality mode.
    pub quality_max_delay_ms: u32,
    /// Change that is sent at once in balanced mode.
    pub balanced_damage_threshold: Single,
    /// Change that is sent at once in quality mode.
    pub quality_damage_threshold: Single,
}

impl LatencyConfig {
    /// The values of this section where nothing is said.
    pub open spec fn is_default(&self) -> bool {
        &&& self.mode@ == "balanced"@
        &&& self.interactive_max_delay_ms == 16
        &&& self.balanced_max_delay_ms == 33
        &&& self.quality_max_delay_ms == 100
        &&& self.balanced_damage_threshold.bits == 0x3ca3d70a
        &&& self.quality_damage_threshold.bits == 0x3d4ccccd
    }
}

impl Default for LatencyConfig {
    fn default() -> (r: Self)
        ensures
            r.is_default(),
    {
        LatencyConfig {
            mode: default_latency_mode(),
            interactive_max_delay_ms: default_interactive_delay(),
            balanced_max_delay_ms: default_balanced_delay(),
            quality_max_delay_ms: default_quality_delay(),
            balanced_damage_threshold: default_balanced_threshold(),
            quality_damage_threshold: default_quality_threshold(),
        }
    }
}

/// Performance.
#[derive(Clone, Debug)]
pub struct PerformanceConfig {
    /// Number of encoder threads, 0 to choose.
    pub encoder_threads: usize,
    /// Number of network threads, 0 to choose.
    pub network_threads: usize,
    /// Number of frame buffers.
    pub buffer_pool_size: usize,
    /// Whether copies are avoided.
    pub zero_copy: bool,
    /// Adaptive frame rate.
    pub adaptive_fps: AdaptiveFpsConfig,
    /// Latency.
    pub latency: LatencyConfig,
}

impl PerformanceConfig {
    /// The values of this section where nothing is said.
    pub open spec fn is_default(&self) -> bool {
        &&& self.encoder_threads == 0
        &&& self.network_threads == 0
        &&& self.buffer_pool_size == 16
        &&& self.zero_copy
        &&& self.adaptive_fps.is_default()
        &&& self.latency.is_default()
    }
}

impl Default for PerformanceConfig {
    fn default() -> (r: Self)
        ensures
            r.is_default(),
    {
        PerformanceConfig {
            encoder_threads: 0,
            network_threads: 0,
            buffer_pool_size: 16,
            zero_copy: true,
            adaptive_fps: AdaptiveFpsConfig::default(),
            latency: LatencyConfig::default(),
        }
    }
}

/// Prediction of the cursor position.
#[derive(Clone, Debug)]
pub struct CursorPredictorConfig {
    /// Number of samples that are kept.
    pub history_size: usize,
    /// How far ahead the position is predicted, in milliseconds.
    pub lookahead_ms: Single,
    /// Smoothing of the velocity.
    pub velocity_smoothing: Single,
    /// Smoothing of the acceleration.
    pub acceleration_smoothing: Single,
    /// Longest predicted distance in pixels.
    pub max_prediction_distance: i32,
    /// Least velocity that is predicted, in pixels per second.
    pub min_velocity_threshold: Single,
    /// How fast the prediction returns when the cursor stops.
    pub stop_convergence_rate: Single,
}

impl CursorPredictorConfig {
    /// The values of this section where nothing is said.
    pub open spec fn is_default(&self) -> bool {
        &&& self.history_size == 8
        &&& self.lookahead_ms.bits == 0x42480000
        &&& self.velocity_smoothing.bits == 0x3ecccccd
        &&& self.acceleration_smoothing.bits == 0x3e4ccccd
        &&& self.max_prediction_distance == 100
        &&& self.min_velocity_threshold.bits == 0x42480000
        &&& self.stop_convergence_rate.bits == 0x3f000000
    }
}

impl Default for CursorPredictorConfig {
    fn default() -> (r: Self)
        ensures
            r.is_default(),
    {
        CursorPredictorConfig {
            history_size: default_history_size(),
            lookahead_ms: default_lookahead_ms(),
            velocity_smoothing: default_velocity_smoothing(),
            acceleration_smoothing: default_accel_smoothing(),
            max_prediction_distance: default_max_prediction(),
            min_velocity_threshold: default_min_velocity(),
            stop_convergence_rate: default_convergence(),
        }
    }
}

/// Drawing of the cursor.
#[derive(Clone, Debug)]
pub struct CursorConfig {
    /// `metadata`, `painted`, `hidden` or `predictive`.
    pub mode: String,
    /// Whether the mode follows the latency.
    pub auto_mode: bool,
    /// Latency from which the position is predicted.
    pub predictive_latency_threshold_ms: u32,
    /// Updates of the cursor per second.
    pub cursor_update_fps: u32,
    /// Prediction.
    pub predictor: CursorPredictorConfig,
}

impl CursorConfig {
    /// The values of this section where nothing is said.
    pub open spec fn is_default(&self) -> bool {
        &&& self.mode@ == "metadata"@
        &&& self.auto_mode
        &&& self.predictive_latency_threshold_ms == 100
        &&& self.cursor_update_fps == 60
        &&& self.predictor.is_default()
    }
}

impl Default for CursorConfig {
    fn default() -> (r: Self)
        ensures
            r.is_default(),
    {
        CursorConfig {
            mode: default_cursor_mode(),
            auto_mode: true,
            predictive_latency_threshold_ms: default_predictive_threshold(),
            cursor_update_fps: default_cursor_fps(),
            predictor: CursorPredictorConfig::default(),
        }
    }
}

/// Logging.
#[derive(Clone, Debug)]
pub struct LoggingConfig {
    /// `trace`, `debug`, `info`, `warn` or `error`.
    pub level: String,
    /// Directory of the log files.
    pub log_dir: Option<String>,
    /// Whether metrics are collected.
    pub metrics: bool,
}

impl LoggingConfig {
    /// The values of this section where nothing is said.
    pub open spec fn is_default(&self) -> bool {
        &&& self.level@ == "info"@
        &&& self.log_dir is None
        &&& self.metrics
    }
}

impl Default for LoggingConfig {
    fn default() -> (r: Self)
        ensures
            r.is_default(),
    {
        LoggingConfig {
            level: "info".to_owned(),
            log_dir: None,
            metrics: true,
        }
    }
}

/// Frame processor.
#[derive(Clone, Debug)]
pub struct ProcessorConfig {
    /// Frames per second to aim at.
    pub target_fps: u32,
    /// Largest number of waiting frames.
    pub max_queue_depth: usize,
    /// Whether the quality adapts.
    pub adaptive_quality: bool,
    /// Change that is processed.
    pub damage_threshold: Single,
    /// Whether frames are dropped when the queue is full.
    pub drop_on_full_queue: bool,
    /// Whether metrics are collected.
    pub enable_metrics: bool,
}

impl ProcessorConfig {
    /// The values of this section where nothing is said.
    pub open spec fn is_default(&self) -> bool {
        &&& self.target_fps == 30
        &&& self.max_queue_depth == 30
        &&& self.adaptive_quality
        &&& self.damage_threshold.bits == 0x3d4ccccd
        &&& self.drop_on_full_queue
        &&& self.enable_metrics
    }
}

impl Default for ProcessorConfig {
    fn default() -> (r: Self)
        ensures
            r.is_default(),
    {
        ProcessorConfig {
            target_fps: 30,
            max_queue_depth: 30,
            adaptive_quality: true,
            damage_threshold: Single { bits: 0x3d4ccccd },
            drop_on_full_queue: true,
            enable_metrics: true,
        }
    }
}

/// Frame dispatcher.
#[derive(Clone, Debug)]
pub struct DispatcherConfig {
    /// Number of frames a stream may hold.
    pub channel_size: usize,
    /// Whether frames have priorities.
    pub priority_dispatch: bool,
    /// Age in milliseconds from which a frame is dropped.
    pub max_frame_age_ms: u64,
    /// Whether full streams slow the source down.
    pub enable_backpressure: bool,
    /// Fill level at which the source is slowed down.
    pub high_water_mark: Single,
    /// Fill level at which it is released.
    pub low_water_mark: Single,
    /// Whether streams share the load.
    pub load_balancing: bool,
}

impl DispatcherConfig {
    /// The values of this section where nothing is said.
    pub open spec fn is_default(&self) -> bool {
        &&& self.channel_size == 30
        &&& self.priority_dispatch
        &&& self.max_frame_age_ms == 150
        &&& self.enable_backpressure
        &&& self.high_water_mark.bits == 0x3f4ccccd
        &&& self.low_water_mark.bits == 0x3f000000
        &&& self.load_balancing
    }
}

impl Default for DispatcherConfig {
    fn default() -> (r: Self)
        ensures
            r.is_default(),
    {
        DispatcherConfig {
            channel_size: 30,
            priority_dispatch: true,
            max_frame_age_ms: 150,
            enable_backpressure: true,
            high_water_mark: Single { bits: 0x3f4ccccd },
            low_water_mark: Single { bits: 0x3f000000 },
            load_balancing: true,
        }
    }
}

/// Bitmap converter.
#[derive(Clone, Debug)]
pub struct ConverterConfig {
    /// Number of buffers.
    pub buffer_pool_size: usize,
    /// Whether vector instructions are used.
    pub enable_simd: bool,
    /// Change from which the whole frame is converted.
    pub damage_threshold: Single,
    /// Whether statistics are collected.
    pub enable_statistics: bool,
}

impl ConverterConfig {
    /// The values of this section where nothing is said.
    pub open spec fn is_default(&self) -> bool {
        &&& self.buffer_pool_size == 8
        &&& self.enable_simd
        &&& self.damage_threshold.bits == 0x3f400000
        &&& self.enable_statistics
    }
}

impl Default for ConverterConfig {
    fn default() -> (r: Self)
        ensures
            r.is_default(),
    {
        ConverterConfig {
            buffer_pool_size: 8,
            enable_simd: true,
            damage_threshold: Single { bits: 0x3f400000 },
            enable_statistics: true,
        }
    }
}

/// Video pipeline.
#[derive(Clone, Debug)]
pub struct VideoPipelineConfig {
    /// Frame processor.
    pub processor: ProcessorConfig,
    /// Frame dispatcher.
    pub dispatcher: DispatcherConfig,
    /// Bitmap converter.
    pub converter: ConverterConfig,
}

impl VideoPipelineConfig {
    /// The values of this section where nothing is said.
    pub open spec fn is_default(&self) -> bool {
        &&& self.processor.is_default()
        &&& self.dispatcher.is_default()
        &&& self.converter.is_default()
    }
}

impl Default for VideoPipelineConfig {
    fn default() -> (r: Self)
        ensures
            r.is_default(),
    {
        VideoPipelineConfig {
            processor: ProcessorConfig::default(),
            dispatcher: DispatcherConfig::default(),
            converter: ConverterConfig::default(),
        }
    }
}

/// Graphics pipeline.
#[derive(Clone, Debug)]
pub struct EgfxConfig {
    /// Whether the graphics pipeline is used.
    pub enabled: bool,
    /// H.264 level: `auto` or a number.
    pub h264_level: String,
    /// H.264 bit rate in kilobits per second.
    pub h264_bitrate: u32,
    /// Compression: `never`, `auto` or `always`.
    pub zgfx_compression: String,
    /// Largest number of unacknowledged frames.
    pub max_frames_in_flight: u32,
    /// Time limit of an acknowledgement in milliseconds.
    pub frame_ack_timeout: u64,
    /// Seconds between two key frames, 0 for none.
    pub periodic_idr_interval: u32,
    /// Codec: `auto`, `avc420` or `avc444`.
    pub codec: String,
    /// Least quantisation parameter.
    pub qp_min: u8,
    /// Largest quantisation parameter.
    pub qp_max: u8,
    /// Usual quantisation parameter.
    pub qp_default: u8,
    /// Bit rate of the auxiliary stream against the main one.
    pub avc444_aux_bitrate_ratio: Single,
    /// Colour matrix: `auto`, `openh264`, `bt709`, `bt601` or `srgb`.
    pub color_matrix: String,
    /// Colour range: `auto`, `limited` or `full`.
    pub color_range: String,
    /// Whether AVC444 is used where the client has it.
    pub avc444_enabled: bool,
    /// Whether the auxiliary stream may be left out.
    pub avc444_enable_aux_omission: bool,
    /// Largest number of frames without the auxiliary stream.
    pub avc444_max_aux_interval: u32,
    /// Change from which the auxiliary stream is sent.
    pub avc444_aux_change_threshold: Single,
    /// Whether the auxiliary stream returns with a key frame.
    pub avc444_force_aux_idr_on_return: bool,
}

impl EgfxConfig {
    /// The values of this section where nothing is said.
    pub open spec fn is_default(&self) -> bool {
        &&& self.enabled
        &&& self.h264_level@ == "auto"@
        &&& self.h264_bitrate == 5000
        &&& self.zgfx_compression@ == "never"@
        &&& self.max_frames_in_flight == 3
        &&& self.frame_ack_timeout == 5000
        &&& self.periodic_idr_interval == 5
        &&& self.codec@ == "auto"@
        &&& self.qp_min == 10
        &&& self.qp_max == 40
        &&& self.qp_default == 23
        &&& self.avc444_aux_bitrate_ratio.bits == 0x3f000000
        &&& self.color_matrix@ == "auto"@
        &&& self.color_range@ == "auto"@
        &&& self.avc444_enabled
        &&& self.avc444_enable_aux_omission
        &&& self.avc444_max_aux_interval == 30
        &&& self.avc444_aux_change_threshold.bits == 0x3d4ccccd
        &&& !self.avc444_force_aux_idr_on_return
    }
}

impl Default for EgfxConfig {
    fn default() -> (r: Self)
        ensures
            r.is_default(),
    {
        EgfxConfig {
            enabled: true,
            h264_level: "auto".to_owned(),
            h264_bitrate: 5000,
            zgfx_compression: "never".to_owned(),
            max_frames_in_flight: 3,
            frame_ack_timeout: 5000,
            periodic_idr_interval: 5,
            codec: "auto".to_owned(),
            qp_min: 10,
            qp_max: 40,
            qp_default: 23,
            avc444_aux_bitrate_ratio: Single { bits: 0x3f000000 },
            color_matrix: "auto".to_owned(),
            color_range: "auto".to_owned(),
            avc444_enabled: true,
            avc444_enable_aux_omission: true,
            avc444_max_aux_interval: 30,
            avc444_aux_change_threshold: Single { bits: 0x3d4ccccd },
            avc444_force_aux_idr_on_return: false,
        }
    }
}

/// Detection of changed regions.
#[derive(Clone, Debug)]
pub struct DamageTrackingConfig {
    /// Whether only changed regions are sent.
    pub enabled: bool,
    /// `pipewire`, `diff` or `hybrid`.
    pub method: String,
    /// Width and height of a compared tile in pixels.
    pub tile_size: usize,
    /// Part of a tile that must change.
    pub diff_threshold: Single,
    /// Difference from which a pixel has changed.
    pub pixel_threshold: u8,
    /// Distance in pixels within which tiles are merged.
    pub merge_distance: u32,
    /// Least area of a region in pixels.
    pub min_region_area: u64,
}

impl DamageTrackingConfig {
    /// The values of this section where nothing is said.
    pub open spec fn is_default(&self) -> bool {
        &&& self.enabled
        &&& self.method@ == "diff"@
        &&& self.tile_size == 16
        &&& self.diff_threshold.bits == 0x3c23d70a
        &&& self.pixel_threshold == 1
        &&& self.merge_distance == 16
        &&& self.min_region_area == 64
    }
}

impl Default for DamageTrackingConfig {
    fn default() -> (r: Self)
        ensures
            r.is_default(),
    {
        DamageTrackingConfig {
            enabled: true,
            method: "diff".to_owned(),
            tile_size: default_tile_size(),
            diff_threshold: default_diff_threshold(),
            pixel_threshold: default_pixel_threshold(),
            merge_distance: default_merge_distance(),
            min_region_area: default_min_region_area(),
        }
    }
}

/// Hardware encoding.
#[derive(Clone, Debug)]
pub struct HardwareEncodingConfig {
    /// Whether the hardware encodes.
    pub enabled: bool,
    /// Device of the encoder.
    pub vaapi_device: String,
    /// Whether frames are handed over without a copy.
    pub enable_dmabuf_zerocopy: bool,
    /// Whether software encodes if the hardware fails.
    pub fallback_to_software: bool,
    /// `speed`, `balanced` or `quality`.
    pub quality_preset: String,
    /// Whether NVENC goes before VA-API.
    pub prefer_nvenc: bool,
}

impl HardwareEncodingConfig {
    /// The values of this section where nothing is said.
    pub open spec fn is_default(&self) -> bool {
        &&& !self.enabled
        &&& self.vaapi_device@ == "/dev/dri/renderD128"@
        &&& self.enable_dmabuf_zerocopy
        &&& self.fallback_to_software
        &&& self.quality_preset@ == "balanced"@
        &&& self.prefer_nvenc
    }
}

impl Default for HardwareEncodingConfig {
    fn default() -> (r: Self)
        ensures
            r.is_default(),
    {
        HardwareEncodingConfig {
            enabled: false,
            vaapi_device: "/dev/dri/renderD128".to_owned(),
            enable_dmabuf_zerocopy: true,
            fallback_to_software: true,
            quality_preset: "balanced".to_owned(),
            prefer_nvenc: true,
        }
    }
}

/// Display control.
#[derive(Clone, Debug)]
pub struct DisplayConfig {
    /// Whether the resolution may change.
    pub allow_resize: bool,
    /// Allowed resolutions; none given allows all.
    pub allowed_resolutions: Vec<String>,
    /// Whether scaling is supported.
    pub dpi_aware: bool,
    /// Whether the orientation may change.
    pub allow_rotation: bool,
}

impl DisplayConfig {
    /// The values of this section where nothing is said.
    pub open spec fn is_default(&self) -> bool {
        &&& self.allow_resize
        &&& self.allowed_resolutions@.len() == 0
        &&& !self.dpi_aware
        &&& !self.allow_rotation
    }
}

impl Default for DisplayConfig {
    fn default() -> (r: Self)
        ensures
            r.is_default(),
    {
        DisplayConfig {
            allow_resize: true,
            allowed_resolutions: Vec::new(),
            dpi_aware: false,
            allow_rotation: false,
        }
    }
}

/// Advanced video.
#[derive(Clone, Debug)]
pub struct AdvancedVideoConfig {
    /// Whether the encoder may skip frames.
    pub enable_frame_skip: bool,
    /// Change from which a new scene begins.
    pub scene_change_threshold: Single,
    /// Frames between two refreshes, 0 for new scenes only.
    pub intra_refresh_interval: u32,
    /// Whether the quality adapts.
    pub enable_adaptive_quality: bool,
}

impl AdvancedVideoConfig {
    /// The values of this section where nothing is said.
    pub open spec fn is_default(&self) -> bool {
        &&& self.enable_frame_skip
        &&& self.scene_change_threshold.bits == 0x3f333333
        &&& self.intra_refresh_interval == 300
        &&& !self.enable_adaptive_quality
    }
}

impl Default for AdvancedVideoConfig {
    fn default() -> (r: Self)
        ensures
            r.is_default(),
    {
        AdvancedVideoConfig {
            enable_frame_skip: true,
            scene_change_threshold: Single { bits: 0x3f333333 },
            intra_refresh_interval: 300,
            enable_adaptive_quality: false,
        }
    }
}

/// Audio.
#[derive(Clone, Debug)]
pub struct AudioConfig {
    /// Whether audio is sent.
    pub enabled: bool,
    /// Codec: `opus`, `pcm`, `adpcm` or `auto`.
    pub codec: String,
    /// Samples per second.
    pub sample_rate: u32,
    /// Number of channels.
    pub channels: u8,
    /// Length of a frame in milliseconds.
    pub frame_ms: u32,
    /// Opus bit rate in bits per second.
    pub opus_bitrate: u32,
}

impl AudioConfig {
    /// The values of this section where nothing is said.
    pub open spec fn is_default(&self) -> bool {
        &&& self.enabled
        &&& self.codec@ == "auto"@
        &&& self.sample_rate == 48000
        &&& self.channels == 2
        &&& self.frame_ms == 20
        &&& self.opus_bitrate == 64000
    }
}

impl Default for AudioConfig {
    fn default() -> (r: Self)
        ensures
            r.is_default(),
    {
        AudioConfig {
            enabled: default_audio_enabled(),
            codec: default_audio_codec(),
            sample_rate: default_audio_sample_rate(),
            channels: default_audio_channels(),
            frame_ms: default_audio_frame_ms(),
            opus_bitrate: default_opus_bitrate(),
        }
    }
}

/// State of the configuration window.
#[derive(Clone, Debug)]
pub struct GuiStateConfig {
    /// Whether advanced options are shown.
    pub expert_mode: bool,
    /// Whether all graphics options are shown.
    pub egfx_expert_mode: bool,
    /// Whether this section is open.
    pub video_pipeline_expanded: bool,
    /// Whether this section is open.
    pub adaptive_fps_expanded: bool,
    /// Whether this section is open.
    pub latency_expanded: bool,
    /// Whether this section is open.
    pub damage_tracking_expanded: bool,
    /// Whether this section is open.
    pub hardware_encoding_expanded: bool,
    /// Whether this section is open.
    pub display_expanded: bool,
    /// Whether this section is open.
    pub advanced_video_expanded: bool,
    /// Whether this section is open.
    pub cursor_expanded: bool,
    /// Whether this section is open.
    pub cursor_predictor_expanded: bool,
    /// Whether the log follows its end.
    pub log_auto_scroll: bool,
    /// Level of the shown log messages.
    pub log_filter_level: String,
    /// Whether closing the window stops the server.
    pub close_stops_server: bool,
}

impl GuiStateConfig {
    /// The values of this section where nothing is said.
    pub open spec fn is_default(&self) -> bool {
        &&& !self.expert_mode
        &&& !self.egfx_expert_mode
        &&& !self.video_pipeline_expanded
        &&& self.adaptive_fps_expanded
        &&& self.latency_expanded
        &&& self.damage_tracking_expanded
        &&& self.hardware_encoding_expanded
        &&& self.display_expanded
        &&& !self.advanced_video_expanded
        &&& self.cursor_expanded
        &&& !self.cursor_predictor_expanded
        &&& self.log_auto_scroll
        &&& self.log_filter_level@ == "info"@
        &&& self.close_stops_server
    }
}

impl Default for GuiStateConfig {
    fn default() -> (r: Self)
        ensures
            r.is_default(),
    {
        GuiStateConfig {
            expert_mode: false,
            egfx_expert_mode: false,
            video_pipeline_expanded: false,
            adaptive_fps_expanded: true,
            latency_expanded: true,
            damage_tracking_expanded: true,
            hardware_encoding_expanded: true,
            display_expanded: true,
            advanced_video_expanded: false,
            cursor_expanded: true,
            cursor_predictor_expanded: false,
            log_auto_scroll: true,
            log_filter_level: default_log_filter(),
            close_stops_server: true,
        }
    }
}

/// Desktop notifications.
#[derive(Clone, Debug)]
pub struct NotificationConfig {
    /// Whether errors are notified.
    pub on_error: bool,
    /// Whether an expiring certificate is notified.
    pub on_cert_expiry: bool,
}

impl NotificationConfig {
    /// The values of this section where nothing is said.
    pub open spec fn is_default(&self) -> bool {
        &&& self.on_error
        &&& self.on_cert_expiry
    }
}

impl Default for NotificationConfig {
    fn default() -> (r: Self)
        ensures
            r.is_default(),
    {
        NotificationConfig {
            on_error: true,
            on_cert_expiry: true,
        }
    }
}

/// Certificates, security mode and authentication.
#[derive(Clone, Debug)]
pub struct SecurityConfig {
    /// Path of the certificate.
    pub cert_path: String,
    /// Path of the private key.
    pub key_path: String,
    /// Older setting that chooses the mode `hybrid`.
    pub enable_nla: bool,
    /// `tls`, `hybrid` or `auto`.
    pub security_mode: String,
    /// `pam` or `none`.
    pub auth_method: String,
    /// Whether TLS 1.3 is demanded.
    pub require_tls_13: bool,
}

/// The value that a missing setting has: security mode.
pub fn default_security_mode() -> (r: String)
    ensures
        r@ == "auto"@,
{
    "auto".to_owned()
}

/// The value that a missing setting has: protocol auto.
pub fn default_protocol_auto() -> (r: String)
    ensures
        r@ == "auto"@,
{
    "auto".to_owned()
}

/// The value that a missing setting has: handshake timeout.
pub fn default_handshake_timeout() -> (r: u64)
    ensures
        r == 5000,
{
    5000
}

/// The value that a missing setting has: input protocol.
pub fn default_input_protocol() -> (r: String)
    ensures
        r@ == "auto"@,
{
    "auto".to_owned()
}

/// The value that a missing setting has: rate limit ms.
pub fn default_rate_limit_ms() -> (r: u64)
    ensures
        r == 200,
{
    200
}

/// The value that a missing setting has: min fps.
pub fn default_min_fps() -> (r: u32)
    ensures
        r == 5,
{
    5
}

/// The value that a missing setting has: max fps.
pub fn default_max_fps() -> (r: u32)
    ensures
        r == 30,
{
    30
}

/// The value that a missing setting has: high activity.
pub fn default_high_activity() -> (r: Single)
    ensures
        r.bits == 0x3e99999a,
{
    Single { bits: 0x3e99999a }
}

/// The value that a missing setting has: medium activity.
pub fn default_medium_activity() -> (r: Single)
    ensures
        r.bits == 0x3dcccccd,
{
    Single { bits: 0x3dcccccd }
}

/// The value that a missing setting has: low activity.
pub fn default_low_activity() -> (r: Single)
    ensures
        r.bits == 0x3c23d70a,
{
    Single { bits: 0x3c23d70a }
}

/// The value that a missing setting has: latency mode.
pub fn default_latency_mode() -> (r: String)
    ensures
        r@ == "balanced"@,
{
    "balanced".to_owned()
}

/// The value that a missing setting has: interactive delay.
pub fn default_interactive_delay() -> (r: u32)
    ensures
        r == 16,
{
    16
}

/// The value that a missing setting has: balanced delay.
pub fn default_balanced_delay() -> (r: u32)
    ensures
        r == 33,
{
    33
}

/// The value that a missing setting has: quality delay.
pub fn default_quality_delay() -> (r: u32)
    ensures
        r == 100,
{
    100
}

/// The value that a missing setting has: balanced threshold.
pub fn default_balanced_threshold() -> (r: Single)
    ensures
        r.bits == 0x3ca3d70a,
{
    Single { bits: 0x3ca3d70a }
}

/// The value that a missing setting has: quality threshold.
pub fn default_quality_threshold() -> (r: Single)
    ensures
        r.bits == 0x3d4ccccd,
{
    Single { bits: 0x3d4ccccd }
}

/// The value that a missing setting has: cursor mode.
pub fn default_cursor_mode() -> (r: String)
    ensures
        r@ == "metadata"@,
{
    "metadata".to_owned()
}

/// The value that a missing setting has: predictive threshold.
pub fn default_predictive_threshold() -> (r: u32)
    ensures
        r == 100,
{
    100
}

/// The value that a missing setting has: cursor fps.
pub fn default_cursor_fps() -> (r: u32)
    ensures
        r == 60,
{
    60
}

/// The value that a missing setting has: history size.
pub fn default_history_size() -> (r: usize)
    ensures
        r == 8,
{
    8
}

/// The value that a missing setting has: lookahead ms.
pub fn default_lookahead_ms() -> (r: Single)
    ensures
        r.bits == 0x42480000,
{
    Single { bits: 0x42480000 }
}

/// The value that a missing setting has: velocity smoothing.
pub fn default_velocity_smoothing() -> (r: Single)
    ensures
        r.bits == 0x3ecccccd,
{
    Single { bits: 0x3ecccccd }
}

/// The value that a missing setting has: accel smoothing.
pub fn default_accel_smoothing() -> (r: Single)
    ensures
        r.bits == 0x3e4ccccd,
{
    Single { bits: 0x3e4ccccd }
}

/// The value that a missing setting has: max prediction.
pub fn default_max_prediction() -> (r: i32)
    ensures
        r == 100,
{
    100
}

/// The value that a missing setting has: min velocity.
pub fn default_min_velocity() -> (r: Single)
    ensures
        r.bits == 0x42480000,
{
    Single { bits: 0x42480000 }
}

/// The value that a missing setting has: convergence.
pub fn default_convergence() -> (r: Single)
    ensures
        r.bits == 0x3f000000,
{
    Single { bits: 0x3f000000 }
}

/// The value that a missing setting has: avc444 aux ratio.
pub fn default_avc444_aux_ratio() -> (r: Single)
    ensures
        r.bits == 0x3f000000,
{
    Single { bits: 0x3f000000 }
}

/// The value that a missing setting has: aux interval.
pub fn default_aux_interval() -> (r: u32)
    ensures
        r == 30,
{
    30
}

/// The value that a missing setting has: aux threshold.
pub fn default_aux_threshold() -> (r: Single)
    ensures
        r.bits == 0x3d4ccccd,
{
    Single { bits: 0x3d4ccccd }
}

/// The value that a missing setting has: false.
pub fn default_false() -> (r: bool)
    ensures
        !r,
{
    false
}

/// The value that a missing setting has: periodic idr interval.
pub fn default_periodic_idr_interval() -> (r: u32)
    ensures
        r == 5,
{
    5
}

/// The value that a missing setting has: color matrix.
pub fn default_color_matrix() -> (r: String)
    ensures
        r@ == "auto"@,
{
    "auto".to_owned()
}

/// The value that a missing setting has: color range.
pub fn default_color_range() -> (r: String)
    ensures
        r@ == "auto"@,
{
    "auto".to_owned()
}

/// The value that a missing setting has: true.
pub fn default_true() -> (r: bool)
    ensures
        r,
{
    true
}

/// The value that a missing setting has: tile size.
pub fn default_tile_size() -> (r: usize)
    ensures
        r == 16,
{
    16
}

/// The value that a missing setting has: diff threshold.
pub fn default_diff_threshold() -> (r: Single)
    ensures
        r.bits == 0x3c23d70a,
{
    Single { bits: 0x3c23d70a }
}

/// The value that a missing setting has: pixel threshold.
pub fn default_pixel_threshold() -> (r: u8)
    ensures
        r == 1,
{
    1
}

/// The value that a missing setting has: merge distance.
pub fn default_merge_distance() -> (r: u32)
    ensures
        r == 16,
{
    16
}

/// The value that a missing setting has: min region area.
pub fn default_min_region_area() -> (r: u64)
    ensures
        r == 64,
{
    64
}

/// The value that a missing setting has: prefer nvenc.
pub fn default_prefer_nvenc() -> (r: bool)
    ensures
        r,
{
    true
}

/// The value that a missing setting has: audio enabled.
pub fn default_audio_enabled() -> (r: bool)
    ensures
        r,
{
    true
}

/// The value that a missing setting has: audio codec.
pub fn default_audio_codec() -> (r: String)
    ensures
        r@ == "auto"@,
{
    "auto".to_owned()
}

/// The value that a missing setting has: audio sample rate.
pub fn default_audio_sample_rate() -> (r: u32)
    ensures
        r == 48000,
{
    48000
}

/// The value that a missing setting has: audio channels.
pub fn default_audio_channels() -> (r: u8)
    ensures
        r == 2,
{
    2
}

/// The value that a missing setting has: audio frame ms.
pub fn default_audio_frame_ms() -> (r: u32)
    ensures
        r == 20,
{
    20
}

/// The value that a missing setting has: opus bitrate.
pub fn default_opus_bitrate() -> (r: u32)
    ensures
        r == 64000,
{
    64000
}

/// The value that a missing setting has: log filter.
pub fn default_log_filter() -> (r: String)
    ensures
        r@ == "info"@,
{
    "info".to_owned()
}

/// The input protocol that the settings ask for: an explicit one, else what the
/// older setting says, else `auto`.
pub open spec fn protocol_of(input: &InputConfig) -> Seq<char> {
    if input.input_protocol@ != "auto"@ {
        input.input_protocol@
    } else {
        match input.use_libei {
            Some(true) => "libei"@,
            Some(false) => "wlr"@,
            None => "auto"@,
        }
    }
}

/// Whether input goes through libei on `compositor`.
pub open spec fn uses_libei(input: &InputConfig, compositor: &CompositorType) -> bool {
    if protocol_of(input) == "libei"@ {
        true
    } else if protocol_of(input) == "wlr"@ {
        false
    } else {
        compositor is Gnome || compositor is Kde
    }
}

impl InputConfig {
    /// The input protocol that the settings ask for.
    pub fn effective_protocol(&self) -> (r: &str)
        ensures
            r@ == protocol_of(self),
    {
        if !same_text(self.input_protocol.as_str(), "auto") {
            return self.input_protocol.as_str();
        }
        match self.use_libei {
            Some(true) => "libei",
            Some(false) => "wlr",
            None => "auto",
        }
    }

    /// Whether the settings ask for libei, whatever the compositor.
    pub fn prefers_libei(&self) -> (r: bool)
        ensures
            r == (protocol_of(self) == "libei"@),
    {
        same_text(self.effective_protocol(), "libei")
    }

    /// Whether input goes through libei on `compositor`; else it goes through the
    /// virtual input protocols.
    pub fn resolve_for_compositor(&self, compositor: &CompositorType) -> (r: bool)
        ensures
            r == uses_libei(self, compositor),
    {
        let protocol = self.effective_protocol();
        if same_text(protocol, "libei") {
            true
        } else if same_text(protocol, "wlr") {
            false
        } else {
            match compositor {
                CompositorType::Gnome { .. } | CompositorType::Kde { .. } => true,
                _ => false,
            }
        }
    }
}

/// A protocol that is named is used. Where it is left to the server, the older setting
/// decides, and where that says nothing libei is used on the two desktops that have it.
pub proof fn named_protocols_are_used(input: &InputConfig, compositor: &CompositorType)
    ensures
        input.input_protocol@ != "auto"@ ==> protocol_of(input) == input.input_protocol@,
        input.input_protocol@ == "auto"@ && input.use_libei == Some(true) ==> uses_libei(
            input,
            compositor,
        ),
        input.input_protocol@ == "auto"@ && input.use_libei == Some(false) ==> !uses_libei(
            input,
            compositor,
        ),
        input.input_protocol@ == "auto"@ && input.use_libei is None ==> (uses_libei(
            input,
            compositor,
        ) <==> compositor is Gnome || compositor is Kde),
        input.input_protocol@ == "libei"@ ==> uses_libei(input, compositor),
        input.input_protocol@ == "wlr"@ ==> !uses_libei(input, compositor),
{
    reveal_strlit("auto");
    reveal_strlit("libei");
    reveal_strlit("wlr");
    assert("auto"@.len() == 4 && "libei"@.len() == 5 && "wlr"@.len() == 3);
}

} // verus!
