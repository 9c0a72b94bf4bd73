//! Recording with the OBS engine.

use vstd::prelude::*;
use vstd::string::*;

use crate::capture_args;
use crate::config;
use crate::config::{AppConfig, EncoderBackend, VideoAspectRatio, VideoCodec};
use crate::display;
use crate::display::MonitorInfo;
use crate::model::Clip;
use crate::paths;
use crate::paths::HostSystem;
use crate::services::clock;
use crate::services::clock::Timestamp;
use crate::text;
use crate::windows_audio;

verus! {

/// The version of the OBS runtime that comes with the program.
pub const OBS_RUNTIME_VERSION: &'static str = "32.2.1";

/// Why the OBS engine failed.
#[derive(Debug)]
pub enum ObsCaptureError {
    RuntimeMissing,
    UnsupportedPlatform,
    Engine(String),
    Replay(String),
}

impl ObsCaptureError {
    /// The message shown for the error.
    pub open spec fn text(self) -> Seq<char> {
        match self {
            ObsCaptureError::RuntimeMissing => "the bundled OBS "@ + OBS_RUNTIME_VERSION@
                + " runtime is missing or incomplete"@,
            ObsCaptureError::UnsupportedPlatform =>
                "OBS capture is only supported on Windows in this alpha"@,
            ObsCaptureError::Engine(error) => "OBS engine failed: "@ + error@,
            ObsCaptureError::Replay(error) => "could not finalize the OBS replay: "@ + error@,
        }
    }

    /// The message shown for the error.
    pub fn message(&self) -> (r: String)
        ensures
            r@ == self.text(),
    {
        match self {
            Self::RuntimeMissing => {
                let mut out = "the bundled OBS ".to_owned();
                out.append(OBS_RUNTIME_VERSION);
                out.append(" runtime is missing or incomplete");
                out
            },
            Self::UnsupportedPlatform =>
                "OBS capture is only supported on Windows in this alpha".to_owned(),
            Self::Engine(error) => {
                let mut out = "OBS engine failed: ".to_owned();
                out.append(error.as_str());
                out
            },
            Self::Replay(error) => {
                let mut out = "could not finalize the OBS replay: ".to_owned();
                out.append(error.as_str());
                out
            },
        }
    }
}

/// A running OBS engine: its encoder, and how much history it keeps.
#[derive(Debug, Clone, Copy)]
pub struct ObsCaptureEngine {
    pub active_encoder: EncoderBackend,
    pub max_buffer_seconds: u32,
}

/// A request to save a clip from the OBS replay buffer.
#[derive(Debug)]
pub struct ObsReplayRequest {
    pub ffmpeg_path: String,
    pub requested_seconds: u32,
    pub max_buffer_seconds: u32,
}

/// What the name of an OBS encoder tells of the hardware behind it.
pub open spec fn backend_of(id: Seq<char>) -> EncoderBackend {
    let lower = text::ascii_lowered(id);
    if text::contains(lower, "nvenc"@) {
        EncoderBackend::Nvidia
    } else if text::contains(lower, "amf"@) {
        EncoderBackend::Amd
    } else if text::contains(lower, "qsv"@) {
        EncoderBackend::Intel
    } else {
        EncoderBackend::Software
    }
}

/// What the name of an OBS encoder tells of the hardware behind it.
pub fn encoder_backend_from_id(id: &str) -> (r: EncoderBackend)
    ensures
        r == backend_of(id@),
{
    let lower = text::lowered(id);
    if text::has(lower.as_str(), "nvenc") {
        EncoderBackend::Nvidia
    } else if text::has(lower.as_str(), "amf") {
        EncoderBackend::Amd
    } else if text::has(lower.as_str(), "qsv") {
        EncoderBackend::Intel
    } else {
        EncoderBackend::Software
    }
}

impl ObsReplayRequest {
    /// This is the request for `clip_seconds` to `engine`; at least one second is asked
    /// for.
    pub open spec fn asks(self, engine: ObsCaptureEngine, config: AppConfig, clip_seconds: u32) -> bool {
        &&& self.ffmpeg_path@ == config.ffmpeg_path@
        &&& self.requested_seconds == if clip_seconds < 1 {
            1
        } else {
            clip_seconds
        }
        &&& self.max_buffer_seconds == engine.max_buffer_seconds
    }
}

impl ObsCaptureEngine {
    /// The engine once its replay buffer has started: its encoder is the one that OBS
    /// reports, the processor where it reports none.
    pub fn started(config: &AppConfig, encoder_id: &Option<String>) -> (r: Self)
        ensures
            r.active_encoder == match *encoder_id {
                Some(id) => backend_of(id@),
                None => EncoderBackend::Software,
            },
            r.max_buffer_seconds == config.buffer_seconds(),
    {
        ObsCaptureEngine {
            active_encoder: match encoder_id {
                Some(id) => encoder_backend_from_id(id.as_str()),
                None => EncoderBackend::Software,
            },
            max_buffer_seconds: config.max_buffer_seconds(),
        }
    }

    /// The encoder in use.
    pub fn active_encoder(&self) -> (r: EncoderBackend)
        ensures
            r == self.active_encoder,
    {
        self.active_encoder
    }

    /// The request to save the last `requested_seconds`; refused where the replay buffer
    /// no longer runs.
    pub fn request_replay(&self, running: bool, config: &AppConfig, requested_seconds: u32) -> (r:
        Result<ObsReplayRequest, ObsCaptureError>)
        ensures
            match r {
                Ok(request) => running && request.asks(*self, *config, requested_seconds),
                Err(error) => !running && (error matches ObsCaptureError::Replay(message)
                    && message@ == "the OBS replay buffer is not running"@),
            },
    {
        if !running {
            return Err(
                ObsCaptureError::Replay("the OBS replay buffer is not running".to_owned()),
            );
        }
        Ok(
            ObsReplayRequest {
                ffmpeg_path: config.ffmpeg_path.clone(),
                requested_seconds: if requested_seconds < 1 {
                    1
                } else {
                    requested_seconds
                },
                max_buffer_seconds: self.max_buffer_seconds,
            },
        )
    }
}

/// How the saved replay becomes a clip.
#[derive(Debug)]
pub enum ObsCompletion {
    Keep(Clip),
    Trim(ObsTrim),
}

/// How FFmpeg cuts the saved replay down to what was asked for.
#[derive(Debug)]
pub struct ObsTrim {
    pub saved: String,
    pub trimmed: String,
    pub args: Vec<String>,
    pub requested_seconds: u32,
    pub max_buffer_seconds: u32,
}

/// The extension of the saved replay, `mp4` where it has none.
pub open spec fn replay_extension(host: HostSystem, saved: Seq<char>) -> Seq<char> {
    match paths::file_name(host, saved) {
        Some(name) => match paths::extension(name) {
            Some(extension) => extension,
            None => "mp4"@,
        },
        None => "mp4"@,
    }
}

/// The file that the cut replay is written to, beside the saved one.
pub open spec fn trimmed_path(
    host: HostSystem,
    saved: Seq<char>,
    stamp: Seq<char>,
    seconds: nat,
) -> Seq<char> {
    paths::with_file_name(
        host,
        saved,
        "xyra-"@ + stamp + "-"@ + text::decimal(seconds) + "s."@ + replay_extension(host, saved),
    )
}

/// The arguments that keep the last `seconds` of `saved`, without encoding them again.
pub open spec fn tail_args(saved: Seq<char>, trimmed: Seq<char>, seconds: nat) -> Seq<Seq<char>> {
    seq![
        "-y"@,
        "-sseof"@,
        "-"@ + text::decimal(seconds),
        "-i"@,
        saved,
        "-map"@,
        "0"@,
        "-c"@,
        "copy"@,
        "-avoid_negative_ts"@,
        "make_zero"@,
        trimmed,
    ]
}

impl ObsTrim {
    /// This cuts `saved` down to the last `seconds`.
    pub open spec fn cuts(
        self,
        host: HostSystem,
        saved: Seq<char>,
        stamp: Seq<char>,
        seconds: u32,
        most: u32,
    ) -> bool {
        let trimmed = trimmed_path(host, saved, stamp, seconds as nat);
        &&& self.saved@ == saved
        &&& self.trimmed@ == trimmed
        &&& self.args.deep_view() == tail_args(saved, trimmed, seconds as nat)
        &&& self.requested_seconds == seconds
        &&& self.max_buffer_seconds == most
    }

    /// How FFmpeg cuts `saved` down to the last `seconds`, named after the time `stamp`.
    pub fn plan(host: HostSystem, saved: String, stamp: &str, seconds: u32, most: u32) -> (r: ObsTrim)
        ensures
            r.cuts(host, saved@, stamp@, seconds, most),
    {
        let mut extension: Option<String> = None;
        if let Some(name) = paths::name_of(host, saved.as_str()) {
            extension = paths::extension_of(name.as_str());
        }
        let mut name = "xyra-".to_owned();
        name.append(stamp);
        name.append("-");
        text::push_decimal(&mut name, seconds as u64);
        name.append("s.");
        match extension {
            Some(found) => name.append(found.as_str()),
            None => name.append("mp4"),
        }
        let trimmed = paths::sibling(host, saved.as_str(), name.as_str());
        let mut length = "-".to_owned();
        text::push_decimal(&mut length, seconds as u64);
        let mut args: Vec<String> = Vec::new();
        text::push_texts(&mut args, &["-y", "-sseof"]);
        text::push_text(&mut args, length.as_str());
        text::push_text(&mut args, "-i");
        text::push_text(&mut args, saved.as_str());
        text::push_texts(
            &mut args,
            &["-map", "0", "-c", "copy", "-avoid_negative_ts", "make_zero"],
        );
        text::push_text(&mut args, trimmed.as_str());
        assert(args.deep_view() =~= tail_args(saved@, trimmed@, seconds as nat));
        ObsTrim { saved, trimmed, args, requested_seconds: seconds, max_buffer_seconds: most }
    }

    /// The clip, once FFmpeg was run: the cut replay where it was written, else the whole
    /// one. The second value tells whether the whole replay can be removed.
    pub fn finish(self, written: bool) -> (r: (Clip, bool))
        ensures
            r.1 == written,
            r.0.is_new(),
            written ==> r.0.path == self.trimmed && r.0.duration_millis == self.requested_seconds
                * 1000,
            !written ==> r.0.path == self.saved && r.0.duration_millis == self.max_buffer_seconds
                * 1000,
    {
        if written {
            (Clip::new(self.trimmed, self.requested_seconds as u64 * 1000), true)
        } else {
            (Clip::new(self.saved, self.max_buffer_seconds as u64 * 1000), false)
        }
    }
}

impl ObsReplayRequest {
    /// The seconds that the clip will have: no more than the buffer keeps.
    pub open spec fn clip_seconds(self) -> u32 {
        if self.requested_seconds < self.max_buffer_seconds {
            self.requested_seconds
        } else {
            self.max_buffer_seconds
        }
    }

    /// The replay has to be cut: it holds more than was asked for and FFmpeg is there.
    pub open spec fn cuts(self, ffmpeg_present: bool) -> bool {
        self.clip_seconds() < self.max_buffer_seconds && ffmpeg_present
    }

    /// How the replay that OBS has saved becomes a clip, named after the current time
    /// where it has to be cut.
    pub fn complete(self, host: HostSystem, saved: Result<String, String>, ffmpeg_present: bool) -> (r:
        Result<ObsCompletion, ObsCaptureError>)
        ensures
            match saved {
                Err(error) => r == Err::<ObsCompletion, _>(ObsCaptureError::Replay(error)),
                Ok(path) => if self.cuts(ffmpeg_present) {
                    exists|now: Timestamp| #[trigger]
                        clock::was_read(now) && clock::utc_text(
                            now.seconds,
                            now.nanos,
                            clock::FILE_STAMP@,
                        ) is Some && (r matches Ok(ObsCompletion::Trim(trim)) && trim.cuts(
                            host,
                            path@,
                            clock::utc_text(now.seconds, now.nanos, clock::FILE_STAMP@).unwrap(),
                            self.clip_seconds(),
                            self.max_buffer_seconds,
                        ))
                } else {
                    r matches Ok(ObsCompletion::Keep(clip)) && clip.path == path
                        && clip.duration_millis == self.clip_seconds() * 1000 && clip.is_new()
                },
            },
    {
        match saved {
            Err(error) => Err(ObsCaptureError::Replay(error)),
            Ok(path) => {
                let requested: u32 = if self.requested_seconds < self.max_buffer_seconds {
                    self.requested_seconds
                } else {
                    self.max_buffer_seconds
                };
                if requested >= self.max_buffer_seconds || !ffmpeg_present {
                    Ok(ObsCompletion::Keep(Clip::new(path, requested as u64 * 1000)))
                } else {
                    let now = clock::now();
                    let stamp = clock::format_utc(now, clock::FILE_STAMP).unwrap();
                    Ok(
                        ObsCompletion::Trim(
                            ObsTrim::plan(
                                host,
                                path,
                                stamp.as_str(),
                                requested,
                                self.max_buffer_seconds,
                            ),
                        ),
                    )
                }
            },
        }
    }
}

/// What is found of an OBS runtime below a directory.
#[derive(Debug)]
pub struct RuntimeProbe {
    pub root: String,
    pub obs_dll: bool,
    pub installed_obs_dll: bool,
    pub libobs_data: bool,
    pub curated_plugins: bool,
    pub obs_plugins: bool,
}

/// Where the parts of an OBS runtime lie below a directory.
#[derive(Debug)]
pub struct RuntimePaths {
    pub obs_dll: String,
    pub installed_obs_dll: String,
    pub libobs_data: String,
    pub curated_plugins: String,
    pub obs_plugins: String,
}

/// `below/first/second`.
pub open spec fn two_below(host: HostSystem, below: Seq<char>, first: Seq<char>, second: Seq<char>) -> Seq<
    char,
> {
    paths::join_path(host, paths::join_path(host, below, first), second)
}

/// `below/first/second`.
fn join_two(host: HostSystem, below: &str, first: &str, second: &str) -> (r: String)
    ensures
        r@ == two_below(host, below@, first@, second@),
{
    let inner = paths::joined(host, below, first);
    paths::joined(host, inner.as_str(), second)
}

/// Where the parts of an OBS runtime lie below `root`.
pub fn runtime_paths(host: HostSystem, root: &str) -> (r: RuntimePaths)
    ensures
        r.obs_dll@ == paths::join_path(host, root@, "obs.dll"@),
        r.installed_obs_dll@ == paths::join_path(
            host,
            two_below(host, root@, "bin"@, "64bit"@),
            "obs.dll"@,
        ),
        r.libobs_data@ == two_below(host, root@, "data"@, "libobs"@),
        r.curated_plugins@ == two_below(host, root@, "xyra-plugins"@, "64bit"@),
        r.obs_plugins@ == two_below(host, root@, "obs-plugins"@, "64bit"@),
{
    let installed = join_two(host, root, "bin", "64bit");
    RuntimePaths {
        obs_dll: paths::joined(host, root, "obs.dll"),
        installed_obs_dll: paths::joined(host, installed.as_str(), "obs.dll"),
        libobs_data: join_two(host, root, "data", "libobs"),
        curated_plugins: join_two(host, root, "xyra-plugins", "64bit"),
        obs_plugins: join_two(host, root, "obs-plugins", "64bit"),
    }
}

impl RuntimeProbe {
    /// The runtime can be used: its library, its data and some plugins are there.
    pub open spec fn is_complete(self) -> bool {
        (self.obs_dll || self.installed_obs_dll) && self.libobs_data && (self.curated_plugins
            || self.obs_plugins)
    }

    /// Whether the runtime can be used.
    pub fn runtime_complete(&self) -> (r: bool)
        ensures
            r == self.is_complete(),
    {
        (self.obs_dll || self.installed_obs_dll) && self.libobs_data && (self.curated_plugins
            || self.obs_plugins)
    }
}

/// The directories in which a runtime is looked for, where they are known: the
/// configured one, the program's own, and that of an OBS installation.
pub open spec fn candidates(
    host: HostSystem,
    configured: Option<Seq<char>>,
    executable_dir: Option<Seq<char>>,
    program_files: Option<Seq<char>>,
) -> Seq<Seq<char>> {
    (match configured {
        Some(dir) => seq![dir],
        None => Seq::empty(),
    }) + (match executable_dir {
        Some(dir) => seq![dir],
        None => Seq::empty(),
    }) + (match program_files {
        Some(dir) => seq![paths::join_path(host, dir, "obs-studio"@)],
        None => Seq::empty(),
    })
}

/// The directories in which a runtime is looked for.
pub fn runtime_candidates(
    host: HostSystem,
    configured: &Option<String>,
    executable_dir: &Option<String>,
    program_files: &Option<String>,
) -> (r: Vec<String>)
    ensures
        r.deep_view() == candidates(
            host,
            text::shown(*configured),
            text::shown(*executable_dir),
            text::shown(*program_files),
        ),
{
    let mut out: Vec<String> = Vec::new();
    if let Some(dir) = configured {
        text::push_text(&mut out, dir.as_str());
    }
    if let Some(dir) = executable_dir {
        text::push_text(&mut out, dir.as_str());
    }
    if let Some(dir) = program_files {
        let installed = paths::joined(host, dir.as_str(), "obs-studio");
        text::push_text(&mut out, installed.as_str());
    }
    assert(out.deep_view() =~= candidates(
        host,
        text::shown(*configured),
        text::shown(*executable_dir),
        text::shown(*program_files),
    ));
    out
}

/// `i` is the first complete runtime.
pub open spec fn first_complete(probes: Seq<RuntimeProbe>, i: int) -> bool {
    0 <= i < probes.len() && probes[i].is_complete() && forall|j: int|
        0 <= j < i ==> !(#[trigger] probes[j]).is_complete()
}

/// No runtime is complete.
pub open spec fn none_complete(probes: Seq<RuntimeProbe>) -> bool {
    forall|i: int| 0 <= i < probes.len() ==> !(#[trigger] probes[i]).is_complete()
}

/// The first complete runtime.
pub fn find_runtime_root(probes: &Vec<RuntimeProbe>) -> (r: Option<usize>)
    ensures
        match r {
            Some(i) => first_complete(probes@, i as int),
            None => none_complete(probes@),
        },
{
    let mut i: usize = 0;
    while i < probes.len()
        invariant
            i <= probes.len(),
            forall|j: int| 0 <= j < i ==> !(#[trigger] probes@[j]).is_complete(),
        decreases probes.len() - i,
    {
        if probes[i].runtime_complete() {
            return Some(i);
        }
        i += 1;
    }
    None
}

/// Whether any complete runtime was found.
pub fn runtime_available(probes: &Vec<RuntimeProbe>) -> (r: bool)
    ensures
        r == !none_complete(probes@),
{
    find_runtime_root(probes).is_some()
}

/// The directory with the runtime's programs and libraries.
pub open spec fn binaries(host: HostSystem, root: Seq<char>, obs_dll: bool) -> Seq<char> {
    if obs_dll {
        root
    } else {
        two_below(host, root, "bin"@, "64bit"@)
    }
}

/// The directory with the runtime's programs and libraries: the root itself where the
/// library lies there.
pub fn binary_directory(host: HostSystem, probe: &RuntimeProbe) -> (r: String)
    ensures
        r@ == binaries(host, probe.root@, probe.obs_dll),
{
    if probe.obs_dll {
        probe.root.clone()
    } else {
        join_two(host, probe.root.as_str(), "bin", "64bit")
    }
}

/// The programs that have to lie beside the program itself; the first one it cannot do
/// without.
pub open spec fn helper_names() -> Seq<Seq<char>> {
    seq![
        "obs-ffmpeg-mux.exe"@,
        "obs-nvenc-test.exe"@,
        "obs-amf-test.exe"@,
        "obs-qsv-test.exe"@,
    ]
}

/// The names of the helper programs.
pub fn helpers() -> (r: Vec<String>)
    ensures
        r.deep_view() == helper_names(),
{
    let mut out: Vec<String> = Vec::new();
    text::push_texts(
        &mut out,
        &["obs-ffmpeg-mux.exe", "obs-nvenc-test.exe", "obs-amf-test.exe", "obs-qsv-test.exe"],
    );
    out
}

/// Whether a helper program has to be copied: it is there and not yet beside the program.
pub fn copies_helper(beside_program: bool, in_runtime: bool) -> (r: bool)
    ensures
        r == (!beside_program && in_runtime),
{
    !beside_program && in_runtime
}

/// Why a helper program could not be copied.
pub fn helper_error(source: &str, error: &str) -> (r: ObsCaptureError)
    ensures
        r matches ObsCaptureError::Engine(message) && message@ == "could not stage OBS helper "@
            + source@ + " beside Xyra: "@ + error@,
{
    let mut message = "could not stage OBS helper ".to_owned();
    message.append(source);
    message.append(" beside Xyra: ");
    message.append(error);
    ObsCaptureError::Engine(message)
}

/// How OBS fits the display into the frame.
#[derive(Debug, Clone, Copy, PartialEq, Eq, Structural)]
pub enum BoundsKind {
    Stretch,
    ScaleInner,
    ScaleOuter,
}

/// How OBS fits the display into the frame, and whether it cuts off what is outside.
pub open spec fn bounds(mode: VideoAspectRatio) -> (BoundsKind, bool) {
    match mode {
        VideoAspectRatio::Stretch16By9 => (BoundsKind::Stretch, false),
        VideoAspectRatio::Fit16By9 => (BoundsKind::ScaleInner, false),
        VideoAspectRatio::Game => (BoundsKind::ScaleInner, false),
        VideoAspectRatio::Crop16By9 => (BoundsKind::ScaleOuter, true),
    }
}

/// How OBS fits the display into the frame, and whether it cuts off what is outside.
pub fn video_bounds(mode: VideoAspectRatio) -> (r: (BoundsKind, bool))
    ensures
        r == bounds(mode),
{
    match mode {
        VideoAspectRatio::Stretch16By9 => (BoundsKind::Stretch, false),
        VideoAspectRatio::Fit16By9 | VideoAspectRatio::Game => (BoundsKind::ScaleInner, false),
        VideoAspectRatio::Crop16By9 => (BoundsKind::ScaleOuter, true),
    }
}

/// A sound source of OBS.
#[derive(Debug)]
pub struct ObsAudioSource {
    pub source_id: &'static str,
    pub source_name: &'static str,
    pub endpoint_id: String,
    pub volume_percent: u32,
    pub mixers: u32,
    pub noise_suppression: bool,
}

/// The mix and each source get a track of their own.
pub open spec fn tracks_apart(config: AppConfig) -> bool {
    config.separate_audio_tracks && config.desktop_audio_enabled && config.microphone_enabled
}

/// The endpoint that a device stands for: the system's default one where none is chosen
/// or the device is no endpoint of that direction.
pub open spec fn endpoint_or_default(device: Option<String>, prefix: Seq<char>) -> Seq<char> {
    match device {
        Some(id) => match windows_audio::behind(id@, prefix) {
            Some(name) => name,
            None => "default"@,
        },
        None => "default"@,
    }
}

/// A volume is at most doubled.
pub open spec fn capped(percent: u32) -> u32 {
    if percent > 200 {
        200
    } else {
        percent
    }
}

/// A volume is at most doubled.
fn cap(percent: u32) -> (r: u32)
    ensures
        r == capped(percent),
{
    if percent > 200 {
        200
    } else {
        percent
    }
}

impl ObsAudioSource {
    /// This source records the desktop. Its sound goes into the mix, and into the second
    /// track where tracks are kept apart.
    pub open spec fn records_desktop(self, config: AppConfig) -> bool {
        &&& self.source_id@ == "wasapi_output_capture"@
        &&& self.source_name@ == "xyra-desktop-audio"@
        &&& self.endpoint_id@ == endpoint_or_default(
            config.desktop_audio_device,
            windows_audio::WASAPI_RENDER_PREFIX@,
        )
        &&& self.volume_percent == capped(config.desktop_audio_volume_percent)
        &&& self.mixers == if tracks_apart(config) {
            3u32
        } else {
            1u32
        }
        &&& !self.noise_suppression
    }

    /// This source records the microphone. Its sound goes into the mix, and into the
    /// third track where tracks are kept apart.
    pub open spec fn records_microphone(self, config: AppConfig) -> bool {
        &&& self.source_id@ == "wasapi_input_capture"@
        &&& self.source_name@ == "xyra-microphone"@
        &&& self.endpoint_id@ == endpoint_or_default(
            config.microphone_device,
            windows_audio::WASAPI_CAPTURE_PREFIX@,
        )
        &&& self.volume_percent == capped(config.microphone_volume_percent)
        &&& self.mixers == if tracks_apart(config) {
            5u32
        } else {
            1u32
        }
        &&& self.noise_suppression == config.microphone_noise_suppression
    }
}

/// The source that records the desktop, where the settings ask for it.
pub fn desktop_source(config: &AppConfig) -> (r: Option<ObsAudioSource>)
    ensures
        match r {
            Some(source) => config.desktop_audio_enabled && source.records_desktop(*config),
            None => !config.desktop_audio_enabled,
        },
{
    if !config.desktop_audio_enabled {
        return None;
    }
    let mut endpoint_id = "default".to_owned();
    if let Some(device) = &config.desktop_audio_device {
        if let Some(name) = windows_audio::wasapi_endpoint_id(device.as_str()) {
            endpoint_id = name.to_owned();
        }
    }
    let apart = config.separate_audio_tracks && config.microphone_enabled;
    Some(
        ObsAudioSource {
            source_id: "wasapi_output_capture",
            source_name: "xyra-desktop-audio",
            endpoint_id,
            volume_percent: cap(config.desktop_audio_volume_percent),
            mixers: if apart {
                3
            } else {
                1
            },
            noise_suppression: false,
        },
    )
}

/// The source that records the microphone, where the settings ask for it.
pub fn microphone_source(config: &AppConfig) -> (r: Option<ObsAudioSource>)
    ensures
        match r {
            Some(source) => config.microphone_enabled && source.records_microphone(*config),
            None => !config.microphone_enabled,
        },
{
    if !config.microphone_enabled {
        return None;
    }
    let mut endpoint_id = "default".to_owned();
    if let Some(device) = &config.microphone_device {
        if let Some(name) = windows_audio::wasapi_capture_endpoint_id(device.as_str()) {
            endpoint_id = name.to_owned();
        }
    }
    let apart = config.separate_audio_tracks && config.desktop_audio_enabled;
    Some(
        ObsAudioSource {
            source_id: "wasapi_input_capture",
            source_name: "xyra-microphone",
            endpoint_id,
            volume_percent: cap(config.microphone_volume_percent),
            mixers: if apart {
                5
            } else {
                1
            },
            noise_suppression: config.microphone_noise_suppression,
        },
    )
}

/// The memory for the replay buffer, in megabytes: twice what the history takes at the
/// video bitrate, and 64 more, between 128 and 8192.
pub open spec fn buffer_megabytes(bitrate_mbps: int, seconds: int) -> int {
    let wanted = capture_args::pieces_for(bitrate_mbps * seconds, 8) * 2 + 64;
    if wanted < 128 {
        128
    } else if wanted > 8192 {
        8192
    } else {
        wanted
    }
}

/// The memory for the replay buffer, in megabytes.
pub fn max_size_mb(bitrate_mbps: u32, seconds: u32) -> (r: i64)
    ensures
        r == buffer_megabytes(bitrate_mbps as int, seconds as int),
{
    assert(0 <= bitrate_mbps * seconds <= 0xffff_ffff * 0xffff_ffff) by (nonlinear_arith)
        requires
            0 <= bitrate_mbps <= u32::MAX,
            0 <= seconds <= u32::MAX,
    ;
    let megabits: u64 = bitrate_mbps as u64 * seconds as u64;
    let megabytes: u64 = megabits / 8 + (if megabits % 8 == 0 {
        0u64
    } else {
        1u64
    });
    let wanted: u64 = megabytes * 2 + 64;
    if wanted < 128 {
        128
    } else if wanted > 8192 {
        8192
    } else {
        wanted as i64
    }
}

/// Unless memory runs out, the buffer holds the whole history at the video bitrate, with
/// as much room again.
pub proof fn buffer_memory_holds_the_history(bitrate_mbps: int, seconds: int)
    requires
        bitrate_mbps >= 0,
        seconds >= 0,
    ensures
        128 <= buffer_megabytes(bitrate_mbps, seconds) <= 8192,
        buffer_megabytes(bitrate_mbps, seconds) < 8192 ==> buffer_megabytes(bitrate_mbps, seconds)
            * 8 >= 2 * bitrate_mbps * seconds,
{
    assert(2 * bitrate_mbps * seconds == 2 * (bitrate_mbps * seconds)) by (nonlinear_arith);
}

/// The size of the frame, where the display would be scaled to `scaled` to keep its
/// proportions: only the mode that keeps them looks at it.
pub open spec fn obs_frame(config: AppConfig, scaled: (u32, u32)) -> (int, int) {
    if config.video_aspect_ratio == VideoAspectRatio::Game {
        (config::even_at_least(scaled.0 as int, 2), config::even_at_least(scaled.1 as int, 2))
    } else {
        (
            config::even_at_least(config.output_width as int, 640),
            config::even_at_least(config.output_height as int, 360),
        )
    }
}

/// The size of the frame.
pub fn obs_output_dimensions(config: &AppConfig, scaled: (u32, u32)) -> (r: (u32, u32))
    ensures
        r.0 == obs_frame(*config, scaled).0,
        r.1 == obs_frame(*config, scaled).1,
{
    if config.video_aspect_ratio == VideoAspectRatio::Game {
        (config::even_size(scaled.0, 2), config::even_size(scaled.1, 2))
    } else {
        (config::even_size(config.output_width, 640), config::even_size(config.output_height, 360))
    }
}

/// How the OBS engine is set up.
#[derive(Debug)]
pub struct ObsPlan {
    pub libobs_data: String,
    pub plugin_bin: String,
    pub plugin_data: String,
    pub working_directory: Option<String>,
    pub monitor: MonitorInfo,
    pub output_width: u32,
    pub output_height: u32,
    pub bounds: BoundsKind,
    pub crop_to_bounds: bool,
    pub desktop: Option<ObsAudioSource>,
    pub microphone: Option<ObsAudioSource>,
    pub separate_tracks: bool,
    pub max_time_seconds: u32,
    pub max_size_mb: i64,
    pub video_bitrate_kbps: u32,
    pub codec: VideoCodec,
    pub software_encoder: bool,
}

/// The tracks that come beside the mix where tracks are kept apart.
pub const DESKTOP_TRACK: &'static str = "xyra-desktop-track";

pub const MICROPHONE_TRACK: &'static str = "xyra-microphone-track";

/// The pattern of a replay's file name.
pub const REPLAY_FORMAT: &'static str = "xyra-%CCYY%MM%DD-%hh%mm%ss";

/// The bitrate of every audio track, in kilobits per second.
pub const AUDIO_BITRATE_KBPS: u32 = 192;

impl ObsPlan {
    /// The plan sets up the files of the runtime.
    pub open spec fn uses_runtime(self, host: HostSystem, probe: RuntimeProbe, curated_root: bool) -> bool {
        let root = probe.root@;
        &&& self.libobs_data@ == two_below(host, root, "data"@, "libobs"@)
        &&& self.plugin_bin@ == if probe.curated_plugins {
            two_below(host, root, "xyra-plugins"@, "64bit"@)
        } else {
            two_below(host, root, "obs-plugins"@, "64bit"@)
        }
        &&& self.plugin_data@ == paths::join_path(
            host,
            two_below(host, root, "data"@, "obs-plugins"@),
            "%module%"@,
        )
        &&& match self.working_directory {
            Some(dir) => curated_root && dir@ == two_below(host, root, "bin"@, "64bit"@),
            None => !curated_root,
        }
    }

    /// The plan records what the settings ask for.
    pub open spec fn records(self, config: AppConfig, scaled: (u32, u32)) -> bool {
        let frame = obs_frame(config, scaled);
        &&& self.output_width == frame.0
        &&& self.output_height == frame.1
        &&& (self.bounds, self.crop_to_bounds) == bounds(config.video_aspect_ratio)
        &&& match self.desktop {
            Some(source) => config.desktop_audio_enabled && source.records_desktop(config),
            None => !config.desktop_audio_enabled,
        }
        &&& match self.microphone {
            Some(source) => config.microphone_enabled && source.records_microphone(config),
            None => !config.microphone_enabled,
        }
        &&& self.separate_tracks == tracks_apart(config)
        &&& self.max_time_seconds == config.buffer_seconds()
        &&& self.max_size_mb == buffer_megabytes(
            config.video_bitrate_mbps as int,
            config.buffer_seconds() as int,
        )
        &&& self.video_bitrate_kbps == capture_args::saturated(config.video_bitrate_mbps * 1000)
        &&& self.codec == config.video_codec
        &&& self.software_encoder == (config.encoder == EncoderBackend::Software)
    }
}

impl ObsCaptureEngine {
    /// How the engine is set up with the runtime that was found, if any, and the display
    /// that was chosen, if any; only on Windows is there such an engine. `curated_root`
    /// tells whether the runtime came with the program, `scaled` what the display would be
    /// scaled to.
    pub fn start(
        host: HostSystem,
        config: &AppConfig,
        runtime: Option<&RuntimeProbe>,
        curated_root: bool,
        monitor: Option<MonitorInfo>,
        scaled: (u32, u32),
    ) -> (r: Result<ObsPlan, ObsCaptureError>)
        ensures
            host != HostSystem::Windows ==> r == Err::<ObsPlan, _>(
                ObsCaptureError::UnsupportedPlatform,
            ),
            host == HostSystem::Windows ==> match runtime {
                None => r == Err::<ObsPlan, _>(ObsCaptureError::RuntimeMissing),
                Some(probe) => match monitor {
                    None => r matches Err(ObsCaptureError::Engine(message)) && message@
                        == "no Windows display was found"@,
                    Some(display) => r matches Ok(plan) && plan.monitor == display
                        && plan.uses_runtime(host, *probe, curated_root) && plan.records(
                        *config,
                        scaled,
                    ),
                },
            },
    {
        if host != HostSystem::Windows {
            return Err(ObsCaptureError::UnsupportedPlatform);
        }
        let probe = match runtime {
            None => {
                return Err(ObsCaptureError::RuntimeMissing);
            },
            Some(probe) => probe,
        };
        let display = match monitor {
            None => {
                return Err(ObsCaptureError::Engine("no Windows display was found".to_owned()));
            },
            Some(display) => display,
        };
        let root = probe.root.as_str();
        let plugin_bin = if probe.curated_plugins {
            join_two(host, root, "xyra-plugins", "64bit")
        } else {
            join_two(host, root, "obs-plugins", "64bit")
        };
        let all_plugin_data = join_two(host, root, "data", "obs-plugins");
        let working_directory = if curated_root {
            Some(join_two(host, root, "bin", "64bit"))
        } else {
            None
        };
        let (output_width, output_height) = obs_output_dimensions(config, scaled);
        let (kind, crop_to_bounds) = video_bounds(config.video_aspect_ratio);
        let seconds = config.max_buffer_seconds();
        let kbps: u64 = config.video_bitrate_mbps as u64 * 1000;
        Ok(
            ObsPlan {
                libobs_data: join_two(host, root, "data", "libobs"),
                plugin_bin,
                plugin_data: paths::joined(host, all_plugin_data.as_str(), "%module%"),
                working_directory,
                monitor: display,
                output_width,
                output_height,
                bounds: kind,
                crop_to_bounds,
                desktop: desktop_source(config),
                microphone: microphone_source(config),
                separate_tracks: config.separate_audio_tracks && config.desktop_audio_enabled
                    && config.microphone_enabled,
                max_time_seconds: seconds,
                max_size_mb: max_size_mb(config.video_bitrate_mbps, seconds),
                video_bitrate_kbps: if kbps > 0xffff_ffff {
                    0xffff_ffff
                } else {
                    kbps as u32
                },
                codec: config.video_codec,
                software_encoder: config.encoder == EncoderBackend::Software,
            },
        )
    }
}

/// A display as OBS lists it.
#[derive(Debug)]
pub struct ObsMonitor {
    pub name: String,
    pub primary: bool,
}

/// The display goes by `id`, in whatever case its letters are written.
pub open spec fn goes_by(monitor: ObsMonitor, id: Seq<char>) -> bool {
    text::ascii_lowered(monitor.name@) == text::ascii_lowered(id)
}

/// Some display goes by `id`.
pub open spec fn any_by_name(monitors: Seq<ObsMonitor>, id: Seq<char>) -> bool {
    exists|i: int| 0 <= i < monitors.len() && goes_by(#[trigger] monitors[i], id)
}

/// Some display is primary.
pub open spec fn any_main(monitors: Seq<ObsMonitor>) -> bool {
    exists|i: int| 0 <= i < monitors.len() && (#[trigger] monitors[i]).primary
}

/// `i` is the display to record: the first that goes by `id`, else the first primary
/// one, else the first.
pub open spec fn obs_choice(monitors: Seq<ObsMonitor>, id: Seq<char>, i: int) -> bool {
    &&& 0 <= i < monitors.len()
    &&& if any_by_name(monitors, id) {
        goes_by(monitors[i], id) && forall|j: int|
            0 <= j < i ==> !goes_by(#[trigger] monitors[j], id)
    } else if any_main(monitors) {
        monitors[i].primary && forall|j: int| 0 <= j < i ==> !(#[trigger] monitors[j]).primary
    } else {
        i == 0
    }
}

/// The display to record among those that OBS lists.
pub fn obs_monitor(monitors: &Vec<ObsMonitor>, id: &str) -> (r: Result<usize, ObsCaptureError>)
    ensures
        match r {
            Ok(i) => obs_choice(monitors@, id@, i as int),
            Err(error) => monitors@.len() == 0 && (error matches ObsCaptureError::Engine(message)
                && message@ == "OBS did not report a display"@),
        },
{
    let wanted = text::lowered(id);
    let mut i: usize = 0;
    while i < monitors.len()
        invariant
            i <= monitors.len(),
            wanted@ == text::ascii_lowered(id@),
            forall|j: int| 0 <= j < i ==> !goes_by(#[trigger] monitors@[j], id@),
        decreases monitors.len() - i,
    {
        let name = text::lowered(monitors[i].name.as_str());
        if text::same(name.as_str(), wanted.as_str()) {
            assert(goes_by(monitors@[i as int], id@));
            return Ok(i);
        }
        i += 1;
    }
    assert(!any_by_name(monitors@, id@));
    let mut k: usize = 0;
    while k < monitors.len()
        invariant
            k <= monitors.len(),
            !any_by_name(monitors@, id@),
            forall|j: int| 0 <= j < k ==> !(#[trigger] monitors@[j]).primary,
        decreases monitors.len() - k,
    {
        if monitors[k].primary {
            return Ok(k);
        }
        k += 1;
    }
    if monitors.len() > 0 {
        Ok(0)
    } else {
        Err(ObsCaptureError::Engine("OBS did not report a display".to_owned()))
    }
}

} // verus!
