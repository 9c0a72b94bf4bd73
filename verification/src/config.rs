//! Settings: their values, their presets and their migration.

use vstd::prelude::*;
use vstd::string::*;

use crate::model::{Platform, PublishTarget, Visibility};
use crate::paths;
use crate::paths::HostSystem;
use crate::services::json;
use crate::services::places;
use crate::text;

verus! {

/// The engine that records the replay buffer.
#[derive(Debug, Clone, Copy, PartialEq, Eq, Structural)]
pub enum CaptureEngine {
    Auto,
    Obs,
    Ffmpeg,
}

impl CaptureEngine {
    pub const ALL: [Self; 3] = [Self::Auto, Self::Obs, Self::Ffmpeg];

    /// The engine's name.
    pub open spec fn name(self) -> Seq<char> {
        match self {
            CaptureEngine::Auto => "Automatic (OBS preferred)"@,
            CaptureEngine::Obs => "OBS engine"@,
            CaptureEngine::Ffmpeg => "Legacy FFmpeg"@,
        }
    }

    /// The engine's name.
    pub fn label(self) -> (r: &'static str)
        ensures
            r@ == self.name(),
    {
        match self {
            Self::Auto => "Automatic (OBS preferred)",
            Self::Obs => "OBS engine",
            Self::Ffmpeg => "Legacy FFmpeg",
        }
    }

    /// What choosing the engine means.
    pub fn description(self) -> (r: &'static str)
        ensures
            r@ == (match self {
                CaptureEngine::Auto => "Uses the bundled OBS engine and falls back to FFmpeg if OBS cannot start."@,
                CaptureEngine::Obs => "GPU-native OBS capture, audio mixing, encoding, and replay buffering."@,
                CaptureEngine::Ffmpeg => "Compatibility backend retained for troubleshooting."@,
            }),
    {
        match self {
            Self::Auto => "Uses the bundled OBS engine and falls back to FFmpeg if OBS cannot start.",
            Self::Obs => "GPU-native OBS capture, audio mixing, encoding, and replay buffering.",
            Self::Ffmpeg => "Compatibility backend retained for troubleshooting.",
        }
    }
}

/// A preset of size, frame rate and bitrate.
#[derive(Debug, Clone, Copy, PartialEq, Eq, Structural)]
pub enum CaptureQuality {
    Low,
    Standard,
    High,
    Custom,
}

impl CaptureQuality {
    pub const ALL: [Self; 4] = [Self::Low, Self::Standard, Self::High, Self::Custom];

    /// The preset's name.
    pub fn label(self) -> (r: &'static str)
        ensures
            r@ == (match self {
                CaptureQuality::Low => "Low quality"@,
                CaptureQuality::Standard => "Standard"@,
                CaptureQuality::High => "High quality"@,
                CaptureQuality::Custom => "Custom"@,
            }),
    {
        match self {
            Self::Low => "Low quality",
            Self::Standard => "Standard",
            Self::High => "High quality",
            Self::Custom => "Custom",
        }
    }

    /// What the preset sets.
    pub fn description(self) -> (r: &'static str)
        ensures
            r@ == (match self {
                CaptureQuality::Low => "720p 30 FPS · 5 Mbps"@,
                CaptureQuality::Standard => "1080p 60 FPS · 12 Mbps"@,
                CaptureQuality::High => "1080p 60 FPS · 24 Mbps"@,
                CaptureQuality::Custom => "Choose every setting"@,
            }),
    {
        match self {
            Self::Low => "720p 30 FPS · 5 Mbps",
            Self::Standard => "1080p 60 FPS · 12 Mbps",
            Self::High => "1080p 60 FPS · 24 Mbps",
            Self::Custom => "Choose every setting",
        }
    }
}

/// What encodes the video.
#[derive(Debug, Clone, Copy, PartialEq, Eq, Structural)]
pub enum EncoderBackend {
    Auto,
    Software,
    Nvidia,
    Amd,
    Intel,
}

impl EncoderBackend {
    pub const ALL: [Self; 5] = [Self::Auto, Self::Nvidia, Self::Amd, Self::Intel, Self::Software];

    /// The encoder's name.
    pub open spec fn name(self) -> Seq<char> {
        match self {
            EncoderBackend::Auto => "Automatic (recommended)"@,
            EncoderBackend::Software => "CPU (software)"@,
            EncoderBackend::Nvidia => "NVIDIA NVENC"@,
            EncoderBackend::Amd => "AMD AMF"@,
            EncoderBackend::Intel => "Intel Quick Sync"@,
        }
    }

    /// The encoder's name.
    pub fn label(self) -> (r: &'static str)
        ensures
            r@ == self.name(),
    {
        match self {
            Self::Auto => "Automatic (recommended)",
            Self::Software => "CPU (software)",
            Self::Nvidia => "NVIDIA NVENC",
            Self::Amd => "AMD AMF",
            Self::Intel => "Intel Quick Sync",
        }
    }
}

/// The format of the encoded video.
#[derive(Debug, Clone, Copy, PartialEq, Eq, Structural)]
pub enum VideoCodec {
    H264,
    H265,
}

impl VideoCodec {
    pub const ALL: [Self; 2] = [Self::H264, Self::H265];

    /// The codec's name.
    pub fn label(self) -> (r: &'static str)
        ensures
            r@ == (match self {
                VideoCodec::H264 => "H.264 (compatible)"@,
                VideoCodec::H265 => "H.265 (smaller files)"@,
            }),
    {
        match self {
            Self::H264 => "H.264 (compatible)",
            Self::H265 => "H.265 (smaller files)",
        }
    }
}

/// How the display is fitted into the video frame.
#[derive(Debug, Clone, Copy, PartialEq, Eq, Structural)]
pub enum VideoAspectRatio {
    Stretch16By9,
    Fit16By9,
    Game,
    Crop16By9,
}

impl VideoAspectRatio {
    pub const ALL: [Self; 4] = [Self::Stretch16By9, Self::Fit16By9, Self::Game, Self::Crop16By9];

    /// The mode's name.
    pub fn label(self) -> (r: &'static str)
        ensures
            r@ == (match self {
                VideoAspectRatio::Stretch16By9 => "Stretch to Fit 16:9"@,
                VideoAspectRatio::Fit16By9 => "Fit 16:9 with Black Bars"@,
                VideoAspectRatio::Game => "Game Aspect Ratio"@,
                VideoAspectRatio::Crop16By9 => "Crop to 16:9"@,
            }),
    {
        match self {
            Self::Stretch16By9 => "Stretch to Fit 16:9",
            Self::Fit16By9 => "Fit 16:9 with Black Bars",
            Self::Game => "Game Aspect Ratio",
            Self::Crop16By9 => "Crop to 16:9",
        }
    }

    /// What the mode does to the picture.
    pub fn description(self) -> (r: &'static str)
        ensures
            r@ == (match self {
                VideoAspectRatio::Stretch16By9 => "Fills the whole 16:9 frame; ultrawide footage may look stretched."@,
                VideoAspectRatio::Fit16By9 => "Keeps the original proportions and adds black bars when needed."@,
                VideoAspectRatio::Game => "Keeps your selected display's aspect ratio without bars or cropping."@,
                VideoAspectRatio::Crop16By9 => "Fills a 16:9 frame and trims overflow from the center."@,
            }),
    {
        match self {
            Self::Stretch16By9 => "Fills the whole 16:9 frame; ultrawide footage may look stretched.",
            Self::Fit16By9 => "Keeps the original proportions and adds black bars when needed.",
            Self::Game => "Keeps your selected display's aspect ratio without bars or cropping.",
            Self::Crop16By9 => "Fills a 16:9 frame and trims overflow from the center.",
        }
    }
}

/// The key held down with a hotkey.
#[derive(Debug, Clone, Copy, PartialEq, Eq, Structural)]
pub enum HotkeyModifier {
    Plain,
    Control,
    Alt,
    Shift,
}

impl HotkeyModifier {
    pub const ALL: [Self; 4] = [Self::Plain, Self::Control, Self::Alt, Self::Shift];

    /// The modifier's name.
    pub open spec fn name(self) -> Seq<char> {
        match self {
            HotkeyModifier::Plain => "None"@,
            HotkeyModifier::Control => "Ctrl"@,
            HotkeyModifier::Alt => "Alt"@,
            HotkeyModifier::Shift => "Shift"@,
        }
    }

    /// The modifier's name.
    pub fn label(self) -> (r: &'static str)
        ensures
            r@ == self.name(),
    {
        match self {
            Self::Plain => "None",
            Self::Control => "Ctrl",
            Self::Alt => "Alt",
            Self::Shift => "Shift",
        }
    }
}

/// A shortcut that saves the previous seconds as a clip.
#[derive(Debug)]
pub struct ClipHotkey {
    pub enabled: bool,
    pub key: String,
    pub modifier: HotkeyModifier,
    pub clip_seconds: u32,
}

impl Clone for ClipHotkey {
    fn clone(&self) -> (r: Self)
        ensures
            r == *self,
    {
        ClipHotkey {
            enabled: self.enabled,
            key: self.key.clone(),
            modifier: self.modifier,
            clip_seconds: self.clip_seconds,
        }
    }
}

impl ClipHotkey {
    /// An enabled hotkey with these values.
    pub open spec fn is(self, key: Seq<char>, modifier: HotkeyModifier, clip_seconds: u32) -> bool {
        &&& self.enabled
        &&& self.key@ == key
        &&& self.modifier == modifier
        &&& self.clip_seconds == clip_seconds
    }

    /// An enabled hotkey.
    pub fn new(key: &str, modifier: HotkeyModifier, clip_seconds: u32) -> (r: Self)
        ensures
            r.is(key@, modifier, clip_seconds),
    {
        Self { enabled: true, key: key.to_owned(), modifier, clip_seconds }
    }

    /// The keys to press, and what they save.
    pub open spec fn label_text(self) -> Seq<char> {
        let keys = if self.modifier == HotkeyModifier::Plain {
            self.key@
        } else {
            self.modifier.name() + " + "@ + self.key@
        };
        keys + " saves the previous "@ + text::decimal(self.clip_seconds as nat) + " sec"@
    }

    /// The keys to press, and what they save.
    pub fn label(&self) -> (r: String)
        ensures
            r@ == self.label_text(),
    {
        let mut out = if self.modifier == HotkeyModifier::Plain {
            self.key.clone()
        } else {
            let mut keys = self.modifier.label().to_owned();
            keys.append(" + ");
            keys.append(self.key.as_str());
            keys
        };
        out.append(" saves the previous ");
        text::push_decimal(&mut out, self.clip_seconds as u64);
        out.append(" sec");
        out
    }
}

/// Why settings could not be read or written.
#[derive(Debug)]
pub enum ConfigError {
    NoDataDirectory,
    Io(String),
    Json(String),
}

impl ConfigError {
    /// The message shown for the error.
    pub fn message(&self) -> (r: String)
        ensures
            r@ == (match *self {
                ConfigError::NoDataDirectory =>
                    "could not determine an application data directory"@,
                ConfigError::Io(error) => "could not read or write configuration: "@ + error@,
                ConfigError::Json(error) => "configuration is invalid: "@ + error@,
            }),
    {
        match self {
            Self::NoDataDirectory =>
                "could not determine an application data directory".to_owned(),
            Self::Io(error) => {
                let mut out = "could not read or write configuration: ".to_owned();
                out.append(error.as_str());
                out
            },
            Self::Json(error) => {
                let mut out = "configuration is invalid: ".to_owned();
                out.append(error.as_str());
                out
            },
        }
    }
}

/// The shortest and the longest clip that can be asked for.
pub const SHORTEST_CLIP_SECONDS: u32 = 5;

pub const LONGEST_CLIP_SECONDS: u32 = 300;

/// Every setting. Account secrets are not among them.
#[derive(Debug)]
pub struct AppConfig {
    pub config_version: u32,
    pub capture_engine: CaptureEngine,
    pub ffmpeg_path: String,
    pub start_with_windows: bool,
    pub start_minimized_on_system_start: bool,
    pub minimize_to_tray: bool,
    pub clip_seconds: u32,
    pub clip_hotkeys: Vec<ClipHotkey>,
    pub segment_seconds: u32,
    pub frame_rate: u32,
    pub quality: CaptureQuality,
    pub encoder: EncoderBackend,
    pub video_codec: VideoCodec,
    pub video_aspect_ratio: VideoAspectRatio,
    pub video_bitrate_mbps: u32,
    pub output_width: u32,
    pub output_height: u32,
    pub capture_cursor: bool,
    pub animated_cursor_compatibility: bool,
    /// Windows display device name, such as `\\.\DISPLAY1`. None selects the primary display.
    pub capture_monitor: Option<String>,
    pub desktop_audio_enabled: bool,
    pub desktop_audio_device: Option<String>,
    pub desktop_audio_volume_percent: u32,
    pub microphone_enabled: bool,
    pub microphone_device: Option<String>,
    pub microphone_volume_percent: u32,
    pub separate_audio_tracks: bool,
    pub microphone_noise_suppression: bool,
    pub microphone_mono: bool,
    pub clips_directory: String,
    pub buffer_directory: String,
    pub auto_queue_after_clip: bool,
    pub publish_targets: Vec<PublishTarget>,
    pub youtube_client_id: String,
    pub odysee_api_url: String,
    pub odysee_bid: String,
    pub odysee_channel_id: String,
}

impl AppConfig {
    /// The two hold the same settings.
    pub open spec fn alike(self, other: AppConfig) -> bool {
        &&& self.clip_hotkeys@ == other.clip_hotkeys@
        &&& self.publish_targets@ == other.publish_targets@
        &&& self == (AppConfig {
            clip_hotkeys: self.clip_hotkeys,
            publish_targets: self.publish_targets,
            ..other
        })
    }
}

impl Clone for AppConfig {
    fn clone(&self) -> (r: Self)
        ensures
            r.alike(*self),
    {
        let clip_hotkeys = self.clip_hotkeys.clone();
        assert(clip_hotkeys@ =~= self.clip_hotkeys@);
        let publish_targets = self.publish_targets.clone();
        assert(publish_targets@ =~= self.publish_targets@);
        AppConfig {
            config_version: self.config_version,
            capture_engine: self.capture_engine,
            ffmpeg_path: self.ffmpeg_path.clone(),
            start_with_windows: self.start_with_windows,
            start_minimized_on_system_start: self.start_minimized_on_system_start,
            minimize_to_tray: self.minimize_to_tray,
            clip_seconds: self.clip_seconds,
            clip_hotkeys,
            segment_seconds: self.segment_seconds,
            frame_rate: self.frame_rate,
            quality: self.quality,
            encoder: self.encoder,
            video_codec: self.video_codec,
            video_aspect_ratio: self.video_aspect_ratio,
            video_bitrate_mbps: self.video_bitrate_mbps,
            output_width: self.output_width,
            output_height: self.output_height,
            capture_cursor: self.capture_cursor,
            animated_cursor_compatibility: self.animated_cursor_compatibility,
            capture_monitor: text::copied(&self.capture_monitor),
            desktop_audio_enabled: self.desktop_audio_enabled,
            desktop_audio_device: text::copied(&self.desktop_audio_device),
            desktop_audio_volume_percent: self.desktop_audio_volume_percent,
            microphone_enabled: self.microphone_enabled,
            microphone_device: text::copied(&self.microphone_device),
            microphone_volume_percent: self.microphone_volume_percent,
            separate_audio_tracks: self.separate_audio_tracks,
            microphone_noise_suppression: self.microphone_noise_suppression,
            microphone_mono: self.microphone_mono,
            clips_directory: self.clips_directory.clone(),
            buffer_directory: self.buffer_directory.clone(),
            auto_queue_after_clip: self.auto_queue_after_clip,
            publish_targets,
            youtube_client_id: self.youtube_client_id.clone(),
            odysee_api_url: self.odysee_api_url.clone(),
            odysee_bid: self.odysee_bid.clone(),
            odysee_channel_id: self.odysee_channel_id.clone(),
        }
    }
}

/// The reverse domain, organization and application that name the program's
/// directories.
pub const QUALIFIER: &'static str = "tv";

pub const ORGANIZATION: &'static str = "Xyra";

pub const APPLICATION: &'static str = "Xyra";

/// The directory used where the system names none.
pub const FALLBACK_DIRECTORY: &'static str = ".xyra";

/// `path` is one of the bare commands that FFmpeg is run by.
pub open spec fn is_bare_command(host: HostSystem, path: Seq<char>) -> bool {
    paths::path_eq(host, path, "ffmpeg"@) || paths::path_eq(host, path, "ffmpeg.exe"@)
}

/// Where the program keeps its own FFmpeg, below the data directory `base`.
pub open spec fn managed_path(host: HostSystem, base: Seq<char>) -> Seq<char> {
    let plain = paths::join_path(host, paths::join_path(host, base, "runtime"@), "ffmpeg"@);
    if host == HostSystem::Windows {
        plain + ".exe"@
    } else {
        plain
    }
}

/// Where the program keeps its own FFmpeg, below the data directory `base`.
pub fn managed_ffmpeg_path_from(host: HostSystem, base: &str) -> (r: String)
    ensures
        r@ == managed_path(host, base@),
{
    let runtime = paths::joined(host, base, "runtime");
    let mut out = paths::joined(host, runtime.as_str(), "ffmpeg");
    if host == HostSystem::Windows {
        out.append(".exe");
    }
    out
}

/// The directory for the program's data, given the one that the system names.
pub open spec fn data_base(named: Option<String>) -> Seq<char> {
    match named {
        Some(dir) => dir@,
        None => FALLBACK_DIRECTORY@,
    }
}

/// The directory for the program's data, given the one that the system names.
pub fn data_directory(named: Option<String>) -> (r: String)
    ensures
        r@ == data_base(named),
{
    match named {
        Some(dir) => dir,
        None => FALLBACK_DIRECTORY.to_owned(),
    }
}

/// Where the program keeps its own FFmpeg on this machine.
pub fn managed_ffmpeg_path(host: HostSystem) -> (r: String)
    ensures
        exists|named: Option<String>| #[trigger]
            places::is_local_data_dir(QUALIFIER, ORGANIZATION, APPLICATION, named) && r@
                == managed_path(host, data_base(named)),
{
    let base = data_directory(places::local_data_dir(QUALIFIER, ORGANIZATION, APPLICATION));
    managed_ffmpeg_path_from(host, base.as_str())
}

/// The settings file in the configuration directory `dir`.
pub fn config_path_in(host: HostSystem, dir: Option<String>) -> (r: Result<String, ConfigError>)
    ensures
        match dir {
            Some(dir) => r matches Ok(path) && path@ == paths::join_path(
                host,
                dir@,
                "config.json"@,
            ),
            None => r == Err::<String, _>(ConfigError::NoDataDirectory),
        },
{
    match dir {
        Some(dir) => Ok(paths::joined(host, dir.as_str(), "config.json")),
        None => Err(ConfigError::NoDataDirectory),
    }
}

/// The settings file on this machine.
pub fn config_path(host: HostSystem) -> (r: Result<String, ConfigError>)
    ensures
        exists|dir: Option<String>| #[trigger]
            places::is_configuration_dir(QUALIFIER, ORGANIZATION, APPLICATION, dir) && match dir {
                Some(dir) => r matches Ok(path) && path@ == paths::join_path(
                    host,
                    dir@,
                    "config.json"@,
                ),
                None => r == Err::<String, _>(ConfigError::NoDataDirectory),
            },
{
    config_path_in(host, places::configuration_dir(QUALIFIER, ORGANIZATION, APPLICATION))
}

impl AppConfig {
    /// These are the settings of a new installation that keeps its files below `base`.
    pub open spec fn is_default(self, host: HostSystem, base: Seq<char>) -> bool {
        &&& self.config_version == 3
        &&& self.capture_engine == CaptureEngine::Auto
        &&& self.ffmpeg_path@ == managed_path(host, base)
        &&& !self.start_with_windows
        &&& self.start_minimized_on_system_start
        &&& self.minimize_to_tray
        &&& self.clip_seconds == 30
        &&& self.clip_hotkeys@.len() == 3
        &&& self.clip_hotkeys@[0].is("F8"@, HotkeyModifier::Plain, 30)
        &&& self.clip_hotkeys@[1].is("F7"@, HotkeyModifier::Plain, 60)
        &&& self.clip_hotkeys@[2].is("F6"@, HotkeyModifier::Plain, 120)
        &&& self.segment_seconds == 2
        &&& self.frame_rate == 60
        &&& self.quality == CaptureQuality::Standard
        &&& self.encoder == EncoderBackend::Auto
        &&& self.video_codec == VideoCodec::H264
        &&& self.video_aspect_ratio == VideoAspectRatio::Stretch16By9
        &&& self.video_bitrate_mbps == 12
        &&& self.output_width == 1920
        &&& self.output_height == 1080
        &&& self.capture_cursor
        &&& !self.animated_cursor_compatibility
        &&& self.capture_monitor is None
        &&& self.desktop_audio_enabled
        &&& self.desktop_audio_device is None
        &&& self.desktop_audio_volume_percent == 100
        &&& self.microphone_enabled
        &&& self.microphone_device is None
        &&& self.microphone_volume_percent == 80
        &&& self.separate_audio_tracks
        &&& !self.microphone_noise_suppression
        &&& !self.microphone_mono
        &&& self.clips_directory@ == paths::join_path(host, base, "clips"@)
        &&& self.buffer_directory@ == paths::join_path(host, base, "buffer"@)
        &&& !self.auto_queue_after_clip
        &&& self.publish_targets@ == seq![
            PublishTarget {
                platform: Platform::YouTube,
                enabled: false,
                visibility: Visibility::Public,
            },
            PublishTarget {
                platform: Platform::Odysee,
                enabled: false,
                visibility: Visibility::Public,
            },
        ]
        &&& self.youtube_client_id@ == ""@
        &&& self.odysee_api_url@ == "http://127.0.0.1:5279"@
        &&& self.odysee_bid@ == "0.01"@
        &&& self.odysee_channel_id@ == ""@
    }

    /// The settings of a new installation that keeps its files below `base`.
    pub fn new_in(host: HostSystem, base: &str) -> (r: Self)
        ensures
            r.is_default(host, base@),
    {
        let clip_hotkeys = vec![
            ClipHotkey::new("F8", HotkeyModifier::Plain, 30),
            ClipHotkey::new("F7", HotkeyModifier::Plain, 60),
            ClipHotkey::new("F6", HotkeyModifier::Plain, 120),
        ];
        let publish_targets = vec![
            PublishTarget::new(Platform::YouTube),
            PublishTarget::new(Platform::Odysee),
        ];
        proof {
            reveal_strlit("");
        }
        AppConfig {
            config_version: 3,
            capture_engine: CaptureEngine::Auto,
            ffmpeg_path: managed_ffmpeg_path_from(host, base),
            start_with_windows: false,
            start_minimized_on_system_start: true,
            minimize_to_tray: true,
            clip_seconds: 30,
            clip_hotkeys,
            segment_seconds: 2,
            frame_rate: 60,
            quality: CaptureQuality::Standard,
            encoder: EncoderBackend::Auto,
            video_codec: VideoCodec::H264,
            video_aspect_ratio: VideoAspectRatio::Stretch16By9,
            video_bitrate_mbps: 12,
            output_width: 1920,
            output_height: 1080,
            capture_cursor: true,
            animated_cursor_compatibility: false,
            capture_monitor: None,
            desktop_audio_enabled: true,
            desktop_audio_device: None,
            desktop_audio_volume_percent: 100,
            microphone_enabled: true,
            microphone_device: None,
            microphone_volume_percent: 80,
            separate_audio_tracks: true,
            microphone_noise_suppression: false,
            microphone_mono: false,
            clips_directory: paths::joined(host, base, "clips"),
            buffer_directory: paths::joined(host, base, "buffer"),
            auto_queue_after_clip: false,
            publish_targets,
            youtube_client_id: "".to_owned(),
            odysee_api_url: "http://127.0.0.1:5279".to_owned(),
            odysee_bid: "0.01".to_owned(),
            odysee_channel_id: "".to_owned(),
        }
    }
}

impl Default for AppConfig {
    /// The settings of a new installation on this machine.
    fn default() -> (r: Self)
        ensures
            exists|host: HostSystem, named: Option<String>|
                #![trigger call_ensures(HostSystem::current, (), host), places::is_local_data_dir(QUALIFIER, ORGANIZATION, APPLICATION, named)]
                call_ensures(HostSystem::current, (), host) && places::is_local_data_dir(
                    QUALIFIER,
                    ORGANIZATION,
                    APPLICATION,
                    named,
                ) && r.is_default(host, data_base(named)),
    {
        let current = HostSystem::current;
        let host = current();
        let base = data_directory(places::local_data_dir(QUALIFIER, ORGANIZATION, APPLICATION));
        AppConfig::new_in(host, base.as_str())
    }
}

/// The longest clip that an enabled hotkey among `hotkeys` saves, 0 where there is none.
pub open spec fn longest_enabled(hotkeys: Seq<ClipHotkey>) -> nat
    decreases hotkeys.len(),
{
    if hotkeys.len() == 0 {
        0
    } else {
        let before = longest_enabled(hotkeys.drop_last());
        if hotkeys.last().enabled && hotkeys.last().clip_seconds > before {
            hotkeys.last().clip_seconds as nat
        } else {
            before
        }
    }
}

/// The four values that a preset sets: width, height, frame rate and bitrate.
pub open spec fn preset(quality: CaptureQuality) -> Option<(u32, u32, u32, u32)> {
    match quality {
        CaptureQuality::Low => Some((1280, 720, 30, 5)),
        CaptureQuality::Standard => Some((1920, 1080, 60, 12)),
        CaptureQuality::High => Some((1920, 1080, 60, 24)),
        CaptureQuality::Custom => None,
    }
}

/// `n` moved into `low..=high`.
pub open spec fn clamped(n: u32, low: u32, high: u32) -> u32 {
    if n < low {
        low
    } else if n > high {
        high
    } else {
        n
    }
}

/// `n` moved into `low..=high`.
fn clamp(n: u32, low: u32, high: u32) -> (r: u32)
    ensures
        r == clamped(n, low, high),
{
    if n < low {
        low
    } else if n > high {
        high
    } else {
        n
    }
}

/// `n` lowered to an even number, after raising it to at least `least`.
pub open spec fn even_at_least(n: int, least: int) -> int {
    (if n < least {
        least
    } else {
        n
    }) / 2 * 2
}

/// `n` lowered to an even number, after raising it to at least `least`.
pub fn even_size(n: u32, least: u32) -> (r: u32)
    ensures
        r == even_at_least(n as int, least as int),
{
    (if n < least {
        least
    } else {
        n
    }) / 2 * 2
}

impl AppConfig {
    /// The seconds of history that the replay buffer keeps: the longest of what the
    /// clip button and the enabled hotkeys save, and at least 5.
    pub open spec fn buffer_seconds(self) -> nat {
        let longest = longest_enabled(self.clip_hotkeys@);
        let wanted = if self.clip_seconds > longest {
            self.clip_seconds as nat
        } else {
            longest
        };
        if wanted > SHORTEST_CLIP_SECONDS {
            wanted
        } else {
            SHORTEST_CLIP_SECONDS as nat
        }
    }

    /// The seconds of history that the replay buffer keeps.
    pub fn max_buffer_seconds(&self) -> (r: u32)
        ensures
            r == self.buffer_seconds(),
    {
        let mut longest: u32 = 0;
        let mut i: usize = 0;
        while i < self.clip_hotkeys.len()
            invariant
                i <= self.clip_hotkeys.len(),
                longest == longest_enabled(self.clip_hotkeys@.take(i as int)),
            decreases self.clip_hotkeys.len() - i,
        {
            assert(self.clip_hotkeys@.take(i + 1).drop_last() =~= self.clip_hotkeys@.take(
                i as int,
            ));
            if self.clip_hotkeys[i].enabled && self.clip_hotkeys[i].clip_seconds > longest {
                longest = self.clip_hotkeys[i].clip_seconds;
            }
            i += 1;
        }
        assert(self.clip_hotkeys@.take(i as int) =~= self.clip_hotkeys@);
        if self.clip_seconds > longest {
            longest = self.clip_seconds;
        }
        if longest > SHORTEST_CLIP_SECONDS {
            longest
        } else {
            SHORTEST_CLIP_SECONDS
        }
    }

    /// These settings under the preset `quality`.
    pub open spec fn with_quality(self, quality: CaptureQuality) -> AppConfig {
        let (width, height, rate, bitrate) = preset(quality).unwrap_or(
            (self.output_width, self.output_height, self.frame_rate, self.video_bitrate_mbps),
        );
        AppConfig {
            quality,
            output_width: width,
            output_height: height,
            frame_rate: rate,
            video_bitrate_mbps: bitrate,
            ..self
        }
    }

    /// Chooses a preset; the custom one leaves every value as it is.
    pub fn apply_quality(&mut self, quality: CaptureQuality)
        ensures
            *final(self) == old(self).with_quality(quality),
    {
        let values: Option<(u32, u32, u32, u32)> = match quality {
            CaptureQuality::Low => Some((1280, 720, 30, 5)),
            CaptureQuality::Standard => Some((1920, 1080, 60, 12)),
            CaptureQuality::High => Some((1920, 1080, 60, 24)),
            CaptureQuality::Custom => None,
        };
        self.quality = quality;
        if let Some((width, height, rate, bitrate)) = values {
            self.output_width = width;
            self.output_height = height;
            self.frame_rate = rate;
            self.video_bitrate_mbps = bitrate;
        }
    }

    /// The encoder after migration: settings without a version chose the processor
    /// only because nothing else was offered.
    pub open spec fn migrated_encoder(self, versioned: bool) -> EncoderBackend {
        if !versioned && self.encoder == EncoderBackend::Software {
            EncoderBackend::Auto
        } else {
            self.encoder
        }
    }

    /// The version of the settings that were read; those without one count as the second.
    pub open spec fn read_version(self, versioned: bool) -> u32 {
        if versioned {
            self.config_version
        } else {
            2
        }
    }

    /// The FFmpeg path is one of the bare commands that early versions wrote.
    pub open spec fn has_bare_ffmpeg(self, host: HostSystem) -> bool {
        is_bare_command(host, self.ffmpeg_path@)
    }

    /// `after` is what these settings become when they are read from a file.
    pub open spec fn migrates_to(
        self,
        after: AppConfig,
        versioned: bool,
        host: HostSystem,
        managed: Seq<char>,
    ) -> bool {
        let old_version = self.read_version(versioned) < 3;
        &&& after.encoder == self.migrated_encoder(versioned)
        &&& after.config_version == if old_version {
            3
        } else {
            self.read_version(versioned)
        }
        &&& after.capture_engine == if old_version {
            CaptureEngine::Auto
        } else {
            self.capture_engine
        }
        &&& after.frame_rate == clamped(self.frame_rate, 24, 120)
        &&& after.video_bitrate_mbps == clamped(self.video_bitrate_mbps, 2, 100)
        &&& after.segment_seconds == clamped(self.segment_seconds, 1, 10)
        &&& if self.has_bare_ffmpeg(host) {
            after.ffmpeg_path@ == managed
        } else {
            after.ffmpeg_path == self.ffmpeg_path
        }
        &&& after == (AppConfig {
            encoder: after.encoder,
            config_version: after.config_version,
            capture_engine: after.capture_engine,
            frame_rate: after.frame_rate,
            video_bitrate_mbps: after.video_bitrate_mbps,
            segment_seconds: after.segment_seconds,
            ffmpeg_path: after.ffmpeg_path,
            ..self
        })
    }

    /// Brings settings that were read from a file up to date: `versioned` tells whether
    /// the file named a version, `managed` is the program's own FFmpeg.
    pub fn migrate(self, versioned: bool, host: HostSystem, managed: &str) -> (r: Self)
        ensures
            self.migrates_to(r, versioned, host, managed@),
    {
        let version: u32 = if versioned {
            self.config_version
        } else {
            2
        };
        let bare = paths::same_path(host, self.ffmpeg_path.as_str(), "ffmpeg") || paths::same_path(
            host,
            self.ffmpeg_path.as_str(),
            "ffmpeg.exe",
        );
        AppConfig {
            encoder: if !versioned && self.encoder == EncoderBackend::Software {
                EncoderBackend::Auto
            } else {
                self.encoder
            },
            capture_engine: if version < 3 {
                CaptureEngine::Auto
            } else {
                self.capture_engine
            },
            config_version: if version < 3 {
                3
            } else {
                version
            },
            frame_rate: clamp(self.frame_rate, 24, 120),
            video_bitrate_mbps: clamp(self.video_bitrate_mbps, 2, 100),
            segment_seconds: clamp(self.segment_seconds, 1, 10),
            ffmpeg_path: if bare {
                managed.to_owned()
            } else {
                self.ffmpeg_path
            },
            ..self
        }
    }

    /// `loaded` is what comes of the file `document`, which parses to `parsed`: a file that
    /// is no JSON or no settings is refused with the parser's message, other settings are
    /// brought up to date.
    pub open spec fn is_loaded(
        document: Seq<u8>,
        parsed: Result<AppConfig, String>,
        host: HostSystem,
        managed: Seq<char>,
        loaded: Result<AppConfig, ConfigError>,
    ) -> bool {
        match json::json_member(document, "config_version"@) {
            Err(message) => loaded matches Err(ConfigError::Json(shown)) && shown@ == message,
            Ok(version) => match parsed {
                Err(message) => loaded == Err::<AppConfig, _>(ConfigError::Json(message)),
                Ok(read) => loaded matches Ok(config) && read.migrates_to(
                    config,
                    version is Some,
                    host,
                    managed,
                ),
            },
        }
    }

    /// The settings in the file `document`, which parses to `parsed`.
    pub fn load(
        document: &[u8],
        parsed: Result<AppConfig, String>,
        host: HostSystem,
        managed: &str,
    ) -> (r: Result<AppConfig, ConfigError>)
        ensures
            AppConfig::is_loaded(document@, parsed, host, managed@, r),
    {
        match json::read_member(document, "config_version") {
            Err(message) => Err(ConfigError::Json(message)),
            Ok(version) => match parsed {
                Err(message) => Err(ConfigError::Json(message)),
                Ok(read) => Ok(read.migrate(version.is_some(), host, managed)),
            },
        }
    }
}

/// The longest enabled hotkey is at least as long as each enabled one, and is one of
/// them unless it is 0.
proof fn lemma_longest_enabled(hotkeys: Seq<ClipHotkey>)
    ensures
        forall|i: int|
            0 <= i < hotkeys.len() && (#[trigger] hotkeys[i]).enabled ==> hotkeys[i].clip_seconds
                <= longest_enabled(hotkeys),
        longest_enabled(hotkeys) > 0 ==> exists|i: int|
            0 <= i < hotkeys.len() && (#[trigger] hotkeys[i]).enabled && hotkeys[i].clip_seconds
                == longest_enabled(hotkeys),
    decreases hotkeys.len(),
{
    if hotkeys.len() > 0 {
        let front = hotkeys.drop_last();
        lemma_longest_enabled(front);
        assert forall|i: int|
            0 <= i < hotkeys.len() && (#[trigger] hotkeys[i]).enabled implies hotkeys[i].clip_seconds
            <= longest_enabled(hotkeys) by {
            if i < front.len() {
                assert(front[i] == hotkeys[i]);
            }
        }
        if longest_enabled(hotkeys) > 0 {
            if longest_enabled(hotkeys) == longest_enabled(front) {
                let k = choose|k: int|
                    0 <= k < front.len() && (#[trigger] front[k]).enabled && front[k].clip_seconds
                        == longest_enabled(front);
                assert(hotkeys[k] == front[k]);
            } else {
                assert(hotkeys[hotkeys.len() - 1] == hotkeys.last());
            }
        }
    }
}

/// The replay buffer is long enough for the clip button and for every enabled hotkey,
/// is never shorter than 5 seconds, and is no longer than one of these asks for.
/// Hotkeys that are switched off play no part.
pub proof fn buffer_serves_every_enabled_hotkey(config: AppConfig)
    ensures
        config.buffer_seconds() >= 5,
        config.buffer_seconds() >= config.clip_seconds,
        forall|i: int|
            0 <= i < config.clip_hotkeys@.len() && (#[trigger] config.clip_hotkeys@[i]).enabled
                ==> config.buffer_seconds() >= config.clip_hotkeys@[i].clip_seconds,
        config.buffer_seconds() == 5 || config.buffer_seconds() == config.clip_seconds || exists|
            i: int,
        |
            0 <= i < config.clip_hotkeys@.len() && (#[trigger] config.clip_hotkeys@[i]).enabled
                && config.buffer_seconds() == config.clip_hotkeys@[i].clip_seconds,
{
    lemma_longest_enabled(config.clip_hotkeys@);
}

/// The last preset chosen decides: what was chosen before it leaves no trace.
pub proof fn last_preset_wins(config: AppConfig, first: CaptureQuality, second: CaptureQuality)
    requires
        second != CaptureQuality::Custom,
    ensures
        config.with_quality(first).with_quality(second) == config.with_quality(second),
{
}

/// The custom preset keeps the values that are set, whatever preset set them.
pub proof fn custom_keeps_the_values(config: AppConfig)
    ensures
        config.with_quality(CaptureQuality::Custom) == (AppConfig {
            quality: CaptureQuality::Custom,
            ..config
        }),
{
}

/// Current settings inside their ranges, with an FFmpeg path that is no bare command, lose
/// nothing when they are loaded from a file that names their version and parses to them.
pub proof fn current_settings_are_kept(
    document: Seq<u8>,
    config: AppConfig,
    host: HostSystem,
    managed: Seq<char>,
    loaded: Result<AppConfig, ConfigError>,
)
    requires
        json::json_member(document, "config_version"@) matches Ok(Some(_)),
        config.config_version >= 3,
        24 <= config.frame_rate <= 120,
        2 <= config.video_bitrate_mbps <= 100,
        1 <= config.segment_seconds <= 10,
        !config.has_bare_ffmpeg(host),
        AppConfig::is_loaded(document, Ok(config), host, managed, loaded),
    ensures
        loaded == Ok::<AppConfig, ConfigError>(config),
{
}

/// The program's own FFmpeg is named by its place, never by a bare command.
pub proof fn managed_ffmpeg_is_no_bare_command(host: HostSystem, base: Seq<char>)
    ensures
        !is_bare_command(host, managed_path(host, base)),
{
    reveal_strlit("runtime");
    reveal_strlit("ffmpeg");
    reveal_strlit("ffmpeg.exe");
    reveal_strlit(".exe");
    assert("ffmpeg"@ + ".exe"@ =~= "ffmpeg.exe"@);
    let outer = paths::join_path(host, base, "runtime"@);
    let name = if host == HostSystem::Windows {
        "ffmpeg.exe"@
    } else {
        "ffmpeg"@
    };
    assert(managed_path(host, base) =~= paths::join_path(host, outer, name));
    paths::lemma_nested_is_not_plain(host, base, "runtime"@, name, "ffmpeg"@);
    paths::lemma_nested_is_not_plain(host, base, "runtime"@, name, "ffmpeg.exe"@);
}

/// Settings that were loaded once are current and inside their ranges, with an FFmpeg path
/// that is no bare command, and lose nothing when they are saved and loaded again: from a
/// file that names their version and parses to them.
pub proof fn loaded_settings_are_kept(
    first: Seq<u8>,
    parsed: Result<AppConfig, String>,
    host: HostSystem,
    base: Seq<char>,
    config: AppConfig,
    saved: Seq<u8>,
    again: Result<AppConfig, ConfigError>,
)
    requires
        AppConfig::is_loaded(first, parsed, host, managed_path(host, base), Ok(config)),
        json::json_member(saved, "config_version"@) matches Ok(Some(_)),
        AppConfig::is_loaded(saved, Ok(config), host, managed_path(host, base), again),
    ensures
        config.config_version >= 3,
        24 <= config.frame_rate <= 120,
        2 <= config.video_bitrate_mbps <= 100,
        1 <= config.segment_seconds <= 10,
        !config.has_bare_ffmpeg(host),
        again == Ok::<AppConfig, ConfigError>(config),
{
    managed_ffmpeg_is_no_bare_command(host, base);
    current_settings_are_kept(saved, config, host, managed_path(host, base), again);
}

/// A clip of this length can be asked for.
pub open spec fn is_offered(seconds: u32) -> bool {
    SHORTEST_CLIP_SECONDS <= seconds <= LONGEST_CLIP_SECONDS
}

/// Every length in the settings can be asked for, that of hotkeys which are switched off too.
pub open spec fn lengths_are_offered(config: AppConfig) -> bool {
    is_offered(config.clip_seconds) && forall|i: int|
        0 <= i < config.clip_hotkeys@.len() ==> is_offered(
            (#[trigger] config.clip_hotkeys@[i]).clip_seconds,
        )
}

/// The lengths of a new installation can be asked for, and the replay buffer then keeps
/// between 5 and 300 seconds.
pub proof fn buffer_stays_in_its_range(config: AppConfig)
    ensures
        forall|host: HostSystem, base: Seq<char>| #[trigger]
            config.is_default(host, base) ==> lengths_are_offered(config),
        lengths_are_offered(config) ==> SHORTEST_CLIP_SECONDS <= config.buffer_seconds()
            <= LONGEST_CLIP_SECONDS,
{
    lemma_longest_enabled(config.clip_hotkeys@);
}

/// Settings that were read once stay as they are when they are read again.
pub proof fn migration_happens_once(
    config: AppConfig,
    once: AppConfig,
    twice: AppConfig,
    versioned: bool,
    host: HostSystem,
    managed: Seq<char>,
)
    requires
        config.migrates_to(once, versioned, host, managed),
        once.migrates_to(twice, true, host, managed),
    ensures
        twice == (AppConfig { ffmpeg_path: twice.ffmpeg_path, ..once }),
        twice.ffmpeg_path@ == once.ffmpeg_path@,
{
}

/// An encoder chosen in versioned settings, and an engine chosen in current ones, are
/// kept; recording values always end up in their ranges.
pub proof fn migration_respects_choices(
    config: AppConfig,
    after: AppConfig,
    versioned: bool,
    host: HostSystem,
    managed: Seq<char>,
)
    requires
        config.migrates_to(after, versioned, host, managed),
    ensures
        versioned ==> after.encoder == config.encoder,
        versioned && config.config_version >= 3 ==> after.capture_engine == config.capture_engine,
        after.config_version >= 3,
        24 <= after.frame_rate <= 120,
        2 <= after.video_bitrate_mbps <= 100,
        1 <= after.segment_seconds <= 10,
{
}

/// A new installation publishes nothing on its own: no destination is enabled and
/// clips are not queued when they are saved.
pub proof fn clips_stay_local_by_default(config: AppConfig, host: HostSystem, base: Seq<char>)
    requires
        config.is_default(host, base),
    ensures
        !config.auto_queue_after_clip,
        forall|i: int|
            0 <= i < config.publish_targets@.len() ==> !(#[trigger] config.publish_targets@[i]).enabled,
{
}

} // verus!
