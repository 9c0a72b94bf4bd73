//! What the OBS engine is asked to record, and what becomes of its replays.

use vstd::prelude::*;

use crate::config::{AppConfig, EncoderBackend, VideoAspectRatio};
use crate::display::MonitorInfo;
use crate::laws::publishing;
use crate::laws::reading;
use crate::model::Clip;
use crate::obs_capture;
use crate::obs_capture::{
    BoundsKind, ObsCaptureEngine, ObsCaptureError, ObsCompletion, ObsMonitor, ObsPlan,
    ObsReplayRequest, ObsTrim, RuntimeProbe,
};
use crate::paths::HostSystem;
use crate::services::clock;
use crate::text;

verus! {

/// OBS distorts the picture only where stretching was chosen, and cuts something off only
/// where cropping was; the two modes that keep the whole picture scale it into the frame.
pub proof fn pictures_are_distorted_on_request_only(mode: VideoAspectRatio, r: (BoundsKind, bool))
    requires
        call_ensures(obs_capture::video_bounds, (mode,), r),
    ensures
        r.0 == BoundsKind::Stretch <==> mode == VideoAspectRatio::Stretch16By9,
        r.1 <==> mode == VideoAspectRatio::Crop16By9,
        r.1 ==> r.0 == BoundsKind::ScaleOuter,
        mode == VideoAspectRatio::Fit16By9 || mode == VideoAspectRatio::Game ==> r.0
            == BoundsKind::ScaleInner && !r.1,
{
}

/// Stretching, fitting and cropping are three different things to OBS.
pub proof fn modes_are_fitted_differently(
    a: VideoAspectRatio,
    b: VideoAspectRatio,
    r: (BoundsKind, bool),
    s: (BoundsKind, bool),
)
    requires
        call_ensures(obs_capture::video_bounds, (a,), r),
        call_ensures(obs_capture::video_bounds, (b,), s),
        a != b,
        a != VideoAspectRatio::Game,
        b != VideoAspectRatio::Game,
    ensures
        r.0 != s.0,
{
}

/// `side` is `wanted`, or `least` where that is more, without its last odd pixel.
pub open spec fn is_even_side(side: int, wanted: int, least: int) -> bool {
    &&& side % 2 == 0
    &&& wanted >= least ==> side <= wanted < side + 2
    &&& wanted < least ==> side <= least < side + 2
}

/// The size of the frame is what the settings ask for; where the proportions of the display
/// are kept it is what the display is scaled to. Both sides are even.
pub proof fn frames_have_the_size_asked_for(config: AppConfig, scaled: (u32, u32), r: (u32, u32))
    requires
        call_ensures(obs_capture::obs_output_dimensions, (&config, scaled), r),
    ensures
        config.video_aspect_ratio == VideoAspectRatio::Game ==> is_even_side(
            r.0 as int,
            scaled.0 as int,
            2,
        ) && is_even_side(r.1 as int, scaled.1 as int, 2),
        config.video_aspect_ratio != VideoAspectRatio::Game ==> is_even_side(
            r.0 as int,
            config.output_width as int,
            640,
        ) && is_even_side(r.1 as int, config.output_height as int, 360),
{
}

/// The engine is set up exactly on Windows, with a runtime and a display; otherwise the
/// error tells which of these is missing.
pub proof fn engines_start_with_all_they_need(
    host: HostSystem,
    config: AppConfig,
    runtime: Option<&RuntimeProbe>,
    curated: bool,
    monitor: Option<MonitorInfo>,
    scaled: (u32, u32),
    r: Result<ObsPlan, ObsCaptureError>,
)
    requires
        call_ensures(
            ObsCaptureEngine::start,
            (host, &config, runtime, curated, monitor, scaled),
            r,
        ),
    ensures
        r is Ok <==> host == HostSystem::Windows && runtime is Some && monitor is Some,
        host != HostSystem::Windows ==> r.unwrap_err() is UnsupportedPlatform,
        host == HostSystem::Windows && runtime is None ==> r.unwrap_err() is RuntimeMissing,
        host == HostSystem::Windows && runtime is Some && monitor is None ==> r.unwrap_err()
            is Engine,
        r matches Ok(plan) ==> Some(plan.monitor) == monitor,
{
}

/// A set-up engine records the picture as the settings ask.
pub proof fn engines_record_the_picture_asked_for(
    host: HostSystem,
    config: AppConfig,
    runtime: Option<&RuntimeProbe>,
    curated: bool,
    monitor: Option<MonitorInfo>,
    scaled: (u32, u32),
    plan: ObsPlan,
    size: (u32, u32),
    fitted: (BoundsKind, bool),
)
    requires
        call_ensures(
            ObsCaptureEngine::start,
            (host, &config, runtime, curated, monitor, scaled),
            Ok::<ObsPlan, ObsCaptureError>(plan),
        ),
        call_ensures(obs_capture::obs_output_dimensions, (&config, scaled), size),
        call_ensures(obs_capture::video_bounds, (config.video_aspect_ratio,), fitted),
    ensures
        plan.output_width == size.0,
        plan.output_height == size.1,
        plan.bounds == fitted.0,
        plan.crop_to_bounds == fitted.1,
        plan.codec == config.video_codec,
        plan.software_encoder <==> config.encoder == EncoderBackend::Software,
        config.video_bitrate_mbps <= 4_000_000 ==> plan.video_bitrate_kbps
            == config.video_bitrate_mbps * 1000,
        config.video_bitrate_mbps > 4_294_967 ==> plan.video_bitrate_kbps == 0xffff_ffff,
{
}

/// A set-up engine keeps as much history as the settings ask for, in memory that holds it.
pub proof fn engines_keep_the_history_asked_for(
    host: HostSystem,
    config: AppConfig,
    runtime: Option<&RuntimeProbe>,
    curated: bool,
    monitor: Option<MonitorInfo>,
    scaled: (u32, u32),
    plan: ObsPlan,
    seconds: u32,
    megabytes: i64,
)
    requires
        call_ensures(
            ObsCaptureEngine::start,
            (host, &config, runtime, curated, monitor, scaled),
            Ok::<ObsPlan, ObsCaptureError>(plan),
        ),
        call_ensures(AppConfig::max_buffer_seconds, (&config,), seconds),
        call_ensures(obs_capture::max_size_mb, (config.video_bitrate_mbps, seconds), megabytes),
    ensures
        plan.max_time_seconds == seconds,
        plan.max_size_mb == megabytes,
{
}

/// The memory of the replay buffer is twice what the history takes at the video bitrate, and
/// 64 megabytes more, but never less than 128 nor more than 8192.
pub proof fn memory_is_twice_the_history(bitrate: u32, seconds: u32, r: i64)
    requires
        call_ensures(obs_capture::max_size_mb, (bitrate, seconds), r),
    ensures
        128 <= r <= 8192,
        128 < r < 8192 ==> 2 * (bitrate * seconds) <= (r - 64) * 8 < 2 * (bitrate * seconds) + 16,
        r == 128 ==> 2 * (bitrate * seconds) <= 64 * 8,
        r == 8192 ==> 2 * (bitrate * seconds) + 16 > (8192 - 64) * 8,
{
}

/// The sound of the desktop and of the microphone is recorded exactly where the settings ask
/// for it, from the endpoint that is chosen, and never louder than doubled.
pub proof fn sound_is_recorded_as_asked(
    config: AppConfig,
    desktop: Option<obs_capture::ObsAudioSource>,
    voice: Option<obs_capture::ObsAudioSource>,
)
    requires
        call_ensures(obs_capture::desktop_source, (&config,), desktop),
        call_ensures(obs_capture::microphone_source, (&config,), voice),
    ensures
        desktop is Some <==> config.desktop_audio_enabled,
        voice is Some <==> config.microphone_enabled,
        desktop matches Some(source) ==> {
            &&& source.source_id@ == "wasapi_output_capture"@
            &&& source.volume_percent <= 200
            &&& config.desktop_audio_volume_percent <= 200 ==> source.volume_percent
                == config.desktop_audio_volume_percent
            &&& config.desktop_audio_volume_percent > 200 ==> source.volume_percent == 200
            &&& !source.noise_suppression
        },
        voice matches Some(source) ==> {
            &&& source.source_id@ == "wasapi_input_capture"@
            &&& source.volume_percent <= 200
            &&& config.microphone_volume_percent <= 200 ==> source.volume_percent
                == config.microphone_volume_percent
            &&& config.microphone_volume_percent > 200 ==> source.volume_percent == 200
            &&& source.noise_suppression == config.microphone_noise_suppression
        },
{
}

/// A device that is an endpoint of its direction is recorded under the system's own name of
/// it, and the system's default one where none is chosen.
pub proof fn chosen_endpoints_are_recorded(
    config: AppConfig,
    name: Seq<char>,
    desktop: Option<obs_capture::ObsAudioSource>,
    voice: Option<obs_capture::ObsAudioSource>,
)
    requires
        call_ensures(obs_capture::desktop_source, (&config,), desktop),
        call_ensures(obs_capture::microphone_source, (&config,), voice),
    ensures
        desktop is Some && (config.desktop_audio_device matches Some(id) && id@ == "wasapi-render:"@ + name) ==> desktop.unwrap().endpoint_id@ == name,
        desktop is Some && config.desktop_audio_device is None ==> desktop.unwrap().endpoint_id@
            == "default"@,
        voice is Some && (config.microphone_device matches Some(id) && id@ == "wasapi-capture:"@ + name) ==> voice.unwrap().endpoint_id@ == name,
        voice is Some && (config.microphone_device matches Some(id) && id@ == "wasapi-render:"@ + name) ==> voice.unwrap().endpoint_id@ == "default"@,
        desktop is Some && (config.desktop_audio_device matches Some(id) && id@ == "wasapi-capture:"@ + name) ==> desktop.unwrap().endpoint_id@ == "default"@,
        voice is Some && config.microphone_device is None ==> voice.unwrap().endpoint_id@
            == "default"@,
{
    let render = "wasapi-render:"@;
    let capture = "wasapi-capture:"@;
    crate::windows_audio::endpoint_names_round_trip(name, render);
    crate::windows_audio::endpoint_names_round_trip(name, capture);
    reveal_strlit("wasapi-render:");
    reveal_strlit("wasapi-capture:");
    assert((render + name)[7] == 'r' && (capture + name)[7] == 'c');
    assert(render[7] == 'r' && capture[7] == 'c');
    if text::starts_with(render + name, capture) {
        assert((render + name).subrange(0, capture.len() as int)[7] == 'c');
    }
    if text::starts_with(capture + name, render) {
        assert((capture + name).subrange(0, render.len() as int)[7] == 'r');
    }
}

/// Both sources go into the mix; where tracks are kept apart and both are recorded, each
/// goes into one track more, and not into the same.
pub proof fn sources_share_the_mix_only(
    config: AppConfig,
    desktop: obs_capture::ObsAudioSource,
    voice: obs_capture::ObsAudioSource,
)
    requires
        call_ensures(
            obs_capture::desktop_source,
            (&config,),
            Some(desktop),
        ),
        call_ensures(
            obs_capture::microphone_source,
            (&config,),
            Some(voice),
        ),
    ensures
        desktop.mixers % 2 == 1 && voice.mixers % 2 == 1,
        config.separate_audio_tracks ==> desktop.mixers == 1 + 2 && voice.mixers == 1 + 4,
        !config.separate_audio_tracks ==> desktop.mixers == 1 && voice.mixers == 1,
        desktop.source_name@ != voice.source_name@,
{
    reveal_strlit("xyra-desktop-audio");
    reveal_strlit("xyra-microphone");
    assert("xyra-desktop-audio"@.len() == 18 && "xyra-microphone"@.len() == 15);
}

/// One source alone has no track beside the mix, and tracks are kept apart only where both
/// are recorded.
pub proof fn one_source_needs_no_track(
    host: HostSystem,
    config: AppConfig,
    runtime: Option<&RuntimeProbe>,
    curated: bool,
    monitor: Option<MonitorInfo>,
    scaled: (u32, u32),
    plan: ObsPlan,
)
    requires
        call_ensures(
            ObsCaptureEngine::start,
            (host, &config, runtime, curated, monitor, scaled),
            Ok::<ObsPlan, ObsCaptureError>(plan),
        ),
    ensures
        plan.desktop is Some <==> config.desktop_audio_enabled,
        plan.microphone is Some <==> config.microphone_enabled,
        plan.separate_tracks <==> config.separate_audio_tracks && plan.desktop is Some
            && plan.microphone is Some,
        plan.desktop is Some && plan.microphone is None ==> plan.desktop.unwrap().mixers == 1,
        plan.microphone is Some && plan.desktop is None ==> plan.microphone.unwrap().mixers == 1,
        plan.separate_tracks ==> plan.desktop.unwrap().mixers == 3
            && plan.microphone.unwrap().mixers == 5,
{
}

/// A runtime's files are found below its own directory: plugins made for the program before
/// those of an installation.
pub proof fn runtimes_are_used_from_their_directory(
    host: HostSystem,
    config: AppConfig,
    probe: RuntimeProbe,
    curated: bool,
    monitor: Option<MonitorInfo>,
    scaled: (u32, u32),
    root: &str,
    plan: ObsPlan,
    found: obs_capture::RuntimePaths,
)
    requires
        call_ensures(
            ObsCaptureEngine::start,
            (host, &config, Some(&probe), curated, monitor, scaled),
            Ok::<ObsPlan, ObsCaptureError>(plan),
        ),
        root@ == probe.root@,
        call_ensures(obs_capture::runtime_paths, (host, root), found),
    ensures
        plan.libobs_data@ == found.libobs_data@,
        probe.curated_plugins ==> plan.plugin_bin@ == found.curated_plugins@,
        !probe.curated_plugins ==> plan.plugin_bin@ == found.obs_plugins@,
        plan.working_directory is Some <==> curated,
        publishing::ends_with(found.obs_dll@, "obs.dll"@),
        publishing::ends_with(found.installed_obs_dll@, "obs.dll"@),
        publishing::ends_with(found.libobs_data@, "libobs"@),
        publishing::ends_with(found.curated_plugins@, "64bit"@),
        publishing::ends_with(found.obs_plugins@, "64bit"@),
        publishing::ends_with(plan.plugin_data@, "%module%"@),
        text::starts_with(found.obs_dll@, root@),
        text::starts_with(found.installed_obs_dll@, root@),
        text::starts_with(found.libobs_data@, root@),
        text::starts_with(found.curated_plugins@, root@),
        text::starts_with(found.obs_plugins@, root@),
        text::starts_with(plan.plugin_data@, root@),
{
    lemma_below(host, root@, "obs.dll"@);
    lemma_two_below(host, root@, "bin"@, "64bit"@);
    let installed = obs_capture::two_below(host, root@, "bin"@, "64bit"@);
    lemma_below(host, installed, "obs.dll"@);
    lemma_starts(found.installed_obs_dll@, installed, root@);
    lemma_two_below(host, root@, "data"@, "libobs"@);
    lemma_two_below(host, root@, "xyra-plugins"@, "64bit"@);
    lemma_two_below(host, root@, "obs-plugins"@, "64bit"@);
    lemma_two_below(host, root@, "data"@, "obs-plugins"@);
    let data = obs_capture::two_below(host, root@, "data"@, "obs-plugins"@);
    lemma_below(host, data, "%module%"@);
    lemma_starts(plan.plugin_data@, data, root@);
}

/// A path below a directory begins with the directory and ends with its own name.
pub proof fn lemma_below(host: HostSystem, base: Seq<char>, name: Seq<char>)
    ensures
        text::starts_with(crate::paths::join_path(host, base, name), base),
        publishing::ends_with(crate::paths::join_path(host, base, name), name),
{
    let path = crate::paths::join_path(host, base, name);
    assert(path.subrange(0, base.len() as int) =~= base);
    assert(path.skip(path.len() - name.len()) =~= name);
}

/// A path two directories below begins with the first and ends with its own name.
proof fn lemma_two_below(host: HostSystem, base: Seq<char>, first: Seq<char>, second: Seq<char>)
    ensures
        text::starts_with(obs_capture::two_below(host, base, first, second), base),
        publishing::ends_with(obs_capture::two_below(host, base, first, second), second),
{
    let inner = crate::paths::join_path(host, base, first);
    lemma_below(host, base, first);
    lemma_below(host, inner, second);
    lemma_starts(obs_capture::two_below(host, base, first, second), inner, base);
}

/// What begins with a text begins with the beginning of that text.
proof fn lemma_starts(s: Seq<char>, middle: Seq<char>, start: Seq<char>)
    requires
        text::starts_with(s, middle),
        text::starts_with(middle, start),
    ensures
        text::starts_with(s, start),
{
    assert(s.subrange(0, start.len() as int) =~= middle.subrange(0, start.len() as int)) by {
        assert(s.subrange(0, middle.len() as int) == middle);
        assert forall|i: int| 0 <= i < start.len() implies s[i] == middle[i] by {
            assert(s.subrange(0, middle.len() as int)[i] == s[i]);
        }
    }
}

/// A runtime can be used exactly where its library, its data and plugins are there.
pub proof fn complete_runtimes_can_be_used(probe: RuntimeProbe, r: bool)
    requires
        call_ensures(RuntimeProbe::runtime_complete, (&probe,), r),
    ensures
        !probe.libobs_data ==> !r,
        !probe.obs_dll && !probe.installed_obs_dll ==> !r,
        !probe.curated_plugins && !probe.obs_plugins ==> !r,
        probe.libobs_data && (probe.obs_dll || probe.installed_obs_dll) && (probe.curated_plugins
            || probe.obs_plugins) ==> r,
{
}

/// The first usable runtime is taken, and none only where none can be used; whether there is
/// one is told truly.
pub proof fn the_first_usable_runtime_is_taken(
    probes: Vec<RuntimeProbe>,
    r: Option<usize>,
    any: bool,
    k: int,
    usable: bool,
)
    requires
        call_ensures(obs_capture::find_runtime_root, (&probes,), r),
        call_ensures(obs_capture::runtime_available, (&probes,), any),
        0 <= k < probes@.len(),
        call_ensures(RuntimeProbe::runtime_complete, (&probes@[k],), usable),
    ensures
        any == r.is_some(),
        usable ==> (r matches Some(i) && i <= k),
        r matches Some(i) ==> i < probes@.len() && (k == i ==> usable),
{
    if r is Some {
        assert(probes@[r.unwrap() as int].is_complete());
    }
    if usable {
        assert(probes@[k].is_complete());
        if let Some(i) = r {
            assert(obs_capture::first_complete(probes@, i as int));
        }
    }
}

/// Runtimes are looked for where the user says, beside the program and in an installation,
/// in this order, as far as these places are known.
pub proof fn runtimes_are_looked_for_in_order(
    host: HostSystem,
    configured: Option<String>,
    beside: Option<String>,
    installed: Option<String>,
    r: Vec<String>,
)
    requires
        call_ensures(
            obs_capture::runtime_candidates,
            (host, &configured, &beside, &installed),
            r,
        ),
    ensures
        r@.len() == (if configured is Some {
            1int
        } else {
            0
        }) + (if beside is Some {
            1int
        } else {
            0
        }) + (if installed is Some {
            1int
        } else {
            0
        }),
        configured matches Some(dir) ==> r@[0]@ == dir@,
        configured is Some && beside is Some ==> r@[1]@ == beside.unwrap()@,
        configured is None && beside is Some ==> r@[0]@ == beside.unwrap()@,
        installed matches Some(dir) ==> text::starts_with(r@.last()@, dir@)
            && publishing::ends_with(r@.last()@, "obs-studio"@),
{
    assert(r.deep_view().len() == r@.len());
    if configured is Some {
        assert(r@[0]@ == r.deep_view()[0]);
    }
    if configured is Some && beside is Some {
        assert(r@[1]@ == r.deep_view()[1]);
    }
    if configured is None && beside is Some {
        assert(r@[0]@ == r.deep_view()[0]);
    }
    if let Some(dir) = installed {
        lemma_below(host, dir@, "obs-studio"@);
        assert(r@.last()@ == r.deep_view()[r@.len() - 1]);
    }
}

/// The programs and libraries lie in the root where the library does, else in the directory
/// of an installation.
pub proof fn libraries_are_found(host: HostSystem, probe: RuntimeProbe, r: String)
    requires
        call_ensures(obs_capture::binary_directory, (host, &probe), r),
    ensures
        probe.obs_dll ==> r@ == probe.root@,
        !probe.obs_dll ==> text::starts_with(r@, probe.root@) && publishing::ends_with(
            r@,
            "64bit"@,
        ),
{
    lemma_two_below(host, probe.root@, "bin"@, "64bit"@);
}

/// A helper is copied only where it is missing, and only where there is one to copy.
pub proof fn helpers_are_copied_once(beside: bool, present: bool, r: bool)
    requires
        call_ensures(obs_capture::copies_helper, (beside, present), r),
    ensures
        beside ==> !r,
        !present ==> !r,
        !beside && present ==> r,
{
}

/// The four helpers are programs, no two of them the same, and the one that writes files
/// comes first.
pub proof fn helpers_are_programs(r: Vec<String>, i: int)
    requires
        call_ensures(obs_capture::helpers, (), r),
        0 <= i < r@.len(),
    ensures
        r@.len() == 4,
        publishing::ends_with(r@[i]@, ".exe"@),
        text::starts_with(r@[i]@, "obs-"@),
        r@[0]@ == "obs-ffmpeg-mux.exe"@,
        text::contains(r@[1]@, "nvenc"@),
        text::contains(r@[2]@, "amf"@),
        text::contains(r@[3]@, "qsv"@),
{
    let all = r.deep_view();
    assert(all.len() == r@.len());
    assert(all[0] == r@[0]@ && all[1] == r@[1]@ && all[2] == r@[2]@ && all[3] == r@[3]@);
    assert(all[i] == r@[i]@);
    reveal_strlit(".exe");
    reveal_strlit("obs-");
    reveal_strlit("nvenc");
    reveal_strlit("amf");
    reveal_strlit("qsv");
    reveal_strlit("obs-ffmpeg-mux.exe");
    reveal_strlit("obs-nvenc-test.exe");
    reveal_strlit("obs-amf-test.exe");
    reveal_strlit("obs-qsv-test.exe");
    let s = r@[i]@;
    assert(s.skip(s.len() - 4) =~= ".exe"@);
    assert(s.subrange(0, 4) =~= "obs-"@);
    assert(r@[1]@.subrange(4, 9) =~= "nvenc"@);
    assert(text::occurs_at(r@[1]@, "nvenc"@, 4));
    assert(r@[2]@.subrange(4, 7) =~= "amf"@);
    assert(text::occurs_at(r@[2]@, "amf"@, 4));
    assert(r@[3]@.subrange(4, 7) =~= "qsv"@);
    assert(text::occurs_at(r@[3]@, "qsv"@, 4));
}

/// The maker of the hardware is told from the encoder's name, in whatever case it is
/// written; an encoder of none of them runs on the processor.
pub proof fn encoders_are_told_by_their_names(id: &str, low: String, r: EncoderBackend)
    requires
        call_ensures(obs_capture::encoder_backend_from_id, (id,), r),
        call_ensures(text::lowered, (id,), low),
    ensures
        r != EncoderBackend::Auto,
        text::contains(low@, "nvenc"@) <==> r == EncoderBackend::Nvidia,
        r == EncoderBackend::Amd ==> text::contains(low@, "amf"@),
        r == EncoderBackend::Intel ==> text::contains(low@, "qsv"@),
        text::contains(low@, "amf"@) ==> r == EncoderBackend::Nvidia || r == EncoderBackend::Amd,
        text::contains(low@, "qsv"@) ==> r != EncoderBackend::Software,
{
}

/// A started engine uses the encoder that OBS reports, the processor where it reports none,
/// and keeps the history that the settings ask for.
pub proof fn started_engines_tell_their_encoder(
    config: AppConfig,
    id: Option<String>,
    seconds: u32,
    r: ObsCaptureEngine,
    shown: EncoderBackend,
)
    requires
        call_ensures(ObsCaptureEngine::started, (&config, &id), r),
        call_ensures(AppConfig::max_buffer_seconds, (&config,), seconds),
        call_ensures(ObsCaptureEngine::active_encoder, (&r,), shown),
    ensures
        id is None ==> shown == EncoderBackend::Software,
        r.max_buffer_seconds == seconds,
        forall|name: &str, told: EncoderBackend|
            (id matches Some(given) && given@ == name@) && #[trigger] call_ensures(
                obs_capture::encoder_backend_from_id,
                (name,),
                told,
            ) ==> shown == told,
{
}

/// A replay can be asked for exactly while the buffer runs; at least one second is asked
/// for, and otherwise as many as wanted.
pub proof fn replays_are_asked_of_running_buffers(
    engine: ObsCaptureEngine,
    running: bool,
    config: AppConfig,
    seconds: u32,
    r: Result<ObsReplayRequest, ObsCaptureError>,
)
    requires
        call_ensures(ObsCaptureEngine::request_replay, (&engine, running, &config, seconds), r),
    ensures
        r is Ok <==> running,
        r matches Ok(request) ==> request.requested_seconds >= 1 && (seconds >= 1
            ==> request.requested_seconds == seconds) && (seconds == 0 ==> request.requested_seconds
            == 1) && request.max_buffer_seconds == engine.max_buffer_seconds
            && request.ffmpeg_path@ == config.ffmpeg_path@,
{
}

/// A replay that OBS could not save gives no clip. One that is as long as wanted, or that
/// cannot be cut, is kept as it is, and its clip lasts what was asked for as far as the
/// buffer reaches; a longer one is cut.
pub proof fn replays_become_clips(
    request: ObsReplayRequest,
    host: HostSystem,
    saved: Result<String, String>,
    ffmpeg: bool,
    r: Result<ObsCompletion, ObsCaptureError>,
)
    requires
        call_ensures(ObsReplayRequest::complete, (request, host, saved, ffmpeg), r),
    ensures
        r is Ok <==> saved is Ok,
        saved matches Err(error) ==> r == Err::<ObsCompletion, _>(ObsCaptureError::Replay(error)),
        (r matches Ok(done) && done is Trim) <==> saved is Ok && ffmpeg && request.requested_seconds
            < request.max_buffer_seconds,
        r matches Ok(ObsCompletion::Keep(clip)) ==> clip.path@ == saved.unwrap()@ && (
        request.requested_seconds <= request.max_buffer_seconds ==> clip.duration_millis
            == request.requested_seconds * 1000) && (request.requested_seconds
            >= request.max_buffer_seconds ==> clip.duration_millis == request.max_buffer_seconds
            * 1000),
        r matches Ok(ObsCompletion::Trim(trim)) ==> trim.saved@ == saved.unwrap()@
            && trim.requested_seconds == request.requested_seconds && trim.max_buffer_seconds
            == request.max_buffer_seconds,
{
}

/// Cutting keeps the end of the replay: as many seconds as wanted, counted from its end, of
/// the saved file, written to another file whose name tells the time and the seconds.
pub proof fn cut_replays_keep_the_end(
    host: HostSystem,
    saved: String,
    stamp: &str,
    seconds: u32,
    most: u32,
    r: ObsTrim,
)
    requires
        call_ensures(ObsTrim::plan, (host, saved, stamp, seconds, most), r),
    ensures
        r.saved@ == saved@,
        r.requested_seconds == seconds,
        r.max_buffer_seconds == most,
        exists|n: Seq<char>, ext: Seq<char>|
            #![trigger reading::writes(n, seconds as int), publishing::ends_with(r.trimmed@, "xyra-"@ + stamp@ + "-"@ + n + "s."@ + ext)]
            {
                &&& reading::writes(n, seconds as int)
                &&& publishing::ends_with(
                    r.trimmed@,
                    "xyra-"@ + stamp@ + "-"@ + n + "s."@ + ext,
                )
                &&& reading::gives(r.args.deep_view(), "-sseof"@, "-"@ + n)
            },
        reading::gives(r.args.deep_view(), "-i"@, saved@),
        reading::gives(r.args.deep_view(), "-c"@, "copy"@),
        reading::gives(r.args.deep_view(), "-map"@, "0"@),
        r.args.deep_view().last() == r.trimmed@,
        r.args.deep_view().contains("-y"@),
{
    let n = text::decimal(seconds as nat);
    reading::lemma_decimal_writes(seconds as nat);
    let args = r.args.deep_view();
    assert(args[0] == "-y"@);
    assert(args[1] == "-sseof"@ && args[2] == "-"@ + n);
    assert(args[3] == "-i"@ && args[4] == saved@);
    assert(args[5] == "-map"@ && args[6] == "0"@);
    assert(args[7] == "-c"@ && args[8] == "copy"@);
    let ext = obs_capture::replay_extension(host, saved@);
    let name = "xyra-"@ + stamp@ + "-"@ + n + "s."@ + ext;
    lemma_sibling_ends(host, saved@, name);
}

/// A file beside another has the name that was given to it.
pub proof fn lemma_sibling_ends(host: HostSystem, path: Seq<char>, name: Seq<char>)
    ensures
        publishing::ends_with(crate::paths::with_file_name(host, path, name), name),
{
    lemma_below(host, crate::paths::parent(host, path), name);
    lemma_below(host, path, name);
}

/// The clip is the cut replay, as long as wanted, where it was written; otherwise it is the
/// whole one, as long as the buffer, and that is then kept.
pub proof fn clips_are_what_was_written(trim: ObsTrim, written: bool, r: (Clip, bool))
    requires
        call_ensures(ObsTrim::finish, (trim, written), r),
    ensures
        r.1 <==> written,
        written ==> r.0.path@ == trim.trimmed@ && r.0.duration_millis == 1000
            * trim.requested_seconds,
        !written ==> r.0.path@ == trim.saved@ && r.0.duration_millis == 1000
            * trim.max_buffer_seconds,
        r.0.description@.len() == 0,
        clock::was_read(r.0.created_at),
{
}

/// The display that is recorded goes by the wanted name where one does, in whatever case;
/// else it is a primary one where there is one; else the first. Only without displays is
/// there none.
pub proof fn displays_are_found(
    monitors: Vec<ObsMonitor>,
    id: &str,
    r: Result<usize, ObsCaptureError>,
    k: int,
    name: &str,
    low: String,
    wanted: String,
)
    requires
        call_ensures(obs_capture::obs_monitor, (&monitors, id), r),
        0 <= k < monitors@.len(),
        name@ == monitors@[k].name@,
        call_ensures(text::lowered, (name,), low),
        call_ensures(text::lowered, (id,), wanted),
    ensures
        r matches Ok(i) && i < monitors@.len() && (low@ == wanted@ ==> i <= k),
        (r matches Ok(i) && i == k) ==> low@ == wanted@ || monitors@[k].primary || k == 0,
        (monitors@[k].primary && forall|j: int|
            0 <= j < monitors@.len() ==> text::ascii_lowered((#[trigger] monitors@[j]).name@) != wanted@)
            ==> r.unwrap() <= k,
{
    let i = r.unwrap() as int;
    assert(obs_capture::obs_choice(monitors@, id@, i));
    if low@ == wanted@ {
        assert(obs_capture::goes_by(monitors@[k], id@));
        assert(obs_capture::any_by_name(monitors@, id@));
    }
    if monitors@[k].primary {
        assert(obs_capture::any_main(monitors@));
    }
    if forall|j: int|
        0 <= j < monitors@.len() ==> text::ascii_lowered((#[trigger] monitors@[j]).name@) != wanted@ {
        assert forall|j: int| 0 <= j < monitors@.len() implies !obs_capture::goes_by(
            #[trigger] monitors@[j],
            id@,
        ) by {}
    }
    if i == k && obs_capture::any_by_name(monitors@, id@) {
        assert(obs_capture::goes_by(monitors@[k], id@));
    }
}

/// Messages about the engine end with what the engine said.
pub proof fn engine_errors_are_told(error: ObsCaptureError, r: String)
    requires
        call_ensures(ObsCaptureError::message, (&error,), r),
    ensures
        error matches ObsCaptureError::Engine(told) ==> publishing::ends_with(r@, told@)
            && text::starts_with(r@, "OBS engine failed: "@),
        error matches ObsCaptureError::Replay(told) ==> publishing::ends_with(r@, told@)
            && text::starts_with(r@, "could not finalize the OBS replay: "@),
        error is RuntimeMissing ==> text::contains(r@, "32.2.1"@) && publishing::ends_with(
            r@,
            " runtime is missing or incomplete"@,
        ),
        error is UnsupportedPlatform ==> r@
            == "OBS capture is only supported on Windows in this alpha"@,
{
    match error {
        ObsCaptureError::Engine(told) => {
            assert(r@.skip(r@.len() - told@.len()) =~= told@);
            let front = "OBS engine failed: "@;
            assert(r@.subrange(0, front.len() as int) =~= front);
        },
        ObsCaptureError::Replay(told) => {
            assert(r@.skip(r@.len() - told@.len()) =~= told@);
            let front = "could not finalize the OBS replay: "@;
            assert(r@.subrange(0, front.len() as int) =~= front);
        },
        ObsCaptureError::RuntimeMissing => {
            let front = "the bundled OBS "@;
            let version = "32.2.1"@;
            let end = " runtime is missing or incomplete"@;
            let at = front.len() as int;
            assert(r@.subrange(at, at + version.len()) =~= version);
            assert(text::occurs_at(r@, version, at));
            assert(r@.skip(r@.len() - end.len()) =~= end);
        },
        ObsCaptureError::UnsupportedPlatform => {},
    }
}

/// A helper that could not be copied is told with its path and the reason.
pub proof fn uncopied_helpers_are_told(source: &str, reason: &str, r: ObsCaptureError)
    requires
        call_ensures(obs_capture::helper_error, (source, reason), r),
    ensures
        r matches ObsCaptureError::Engine(told) && publishing::ends_with(told@, reason@)
            && text::contains(told@, source@),
{
    if let ObsCaptureError::Engine(told) = r {
        let front = "could not stage OBS helper "@;
        let at = front.len() as int;
        assert(told@.skip(told@.len() - reason@.len()) =~= reason@);
        assert(told@.subrange(at, at + source@.len()) =~= source@);
        assert(text::occurs_at(told@, source@, at));
    }
}

/// The tracks beside the mix have names of their own, and replays are named by the moment
/// they are saved at.
pub proof fn tracks_and_replays_have_their_names()
    ensures
        obs_capture::DESKTOP_TRACK@ != obs_capture::MICROPHONE_TRACK@,
        text::starts_with(obs_capture::REPLAY_FORMAT@, "xyra-"@),
        obs_capture::AUDIO_BITRATE_KBPS == 192,
{
    reveal_strlit("xyra-desktop-track");
    reveal_strlit("xyra-microphone-track");
    reveal_strlit("xyra-%CCYY%MM%DD-%hh%mm%ss");
    reveal_strlit("xyra-");
    assert("xyra-desktop-track"@[5] == 'd' && "xyra-microphone-track"@[5] == 'm');
    assert("xyra-%CCYY%MM%DD-%hh%mm%ss"@.subrange(0, 5) =~= "xyra-"@);
}

} // verus!
