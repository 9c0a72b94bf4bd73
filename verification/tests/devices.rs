use xyra::audio::{
    AudioDevice, enumerate_audio_devices, is_desktop_audio_device, is_microphone_device,
    parse_dshow_devices, quoted_value, recommended_desktop_audio, recommended_microphone,
};
use xyra::config::{AppConfig, EncoderBackend, VideoAspectRatio, VideoCodec};
use xyra::display::{MonitorInfo, RawMonitor, assumed_monitor, enumerate_monitors, selected_monitor};
use xyra::obs_capture::{
    BoundsKind, ObsCaptureEngine, ObsCaptureError, ObsCompletion, ObsMonitor, ObsReplayRequest,
    ObsTrim, RuntimeProbe, binary_directory, copies_helper, encoder_backend_from_id,
    find_runtime_root, helper_error, helpers, max_size_mb, obs_monitor, obs_output_dimensions,
    runtime_available, runtime_candidates, runtime_paths,
};
use xyra::order::{Rank, order_of};
use xyra::paths::HostSystem;
use xyra::session::sync_audio_device_selection;
use xyra::views::{audio_device_label, devices_text, scan_status};
use xyra::windows_audio::{
    AcceptOutcome, AcceptStep, Endpoint, LoopbackReport, SoundQueue, WASAPI_RENDER_PREFIX,
    WriteOutcome, WriteStep, accept_step, enumerate_capture_devices,
    enumerate_render_devices, find_endpoint, is_wasapi_render_id, loopback_started, wasapi_capture_endpoint_id, wasapi_endpoint_id,
};

#[test]
fn parses_audio_devices_and_recommends_roles() {
    let listing = r#"
[dshow @ 1] "Microphone (USB Mic)" (audio)
[dshow @ 1]   Alternative name "@device_mic"
[dshow @ 1] "SteelSeries Sonar - Stream" (audio)
[dshow @ 1]   Alternative name "@device_stream"
"#;
    let devices = parse_dshow_devices(listing);
    assert_eq!(devices.len(), 2);
    assert_eq!(recommended_microphone(&devices).unwrap().id, "@device_mic");
    assert_eq!(
        recommended_desktop_audio(&devices).unwrap().id,
        "@device_stream"
    );
    assert!(is_microphone_device(&devices[0]));
    assert!(!is_microphone_device(&devices[1]));
    assert!(is_desktop_audio_device(&devices[1]));
    assert!(is_desktop_audio_device(&AudioDevice {
        name: "Speakers".into(),
        id: format!("{WASAPI_RENDER_PREFIX}endpoint"),
    }));
}

fn device(name: &str, id: &str) -> AudioDevice {
    AudioDevice {
        name: name.to_owned(),
        id: id.to_owned(),
    }
}

#[test]
fn listings_with_gaps() {
    let devices = parse_dshow_devices(
        "\"cam\" (video)\r\n  Alternative name \"@cam\"\r\n\"a\" (audio)\r\n\"b\" (audio)\n  Alternative name none\n\"c \"q\" d\" (audio)",
    );
    assert_eq!(
        devices,
        [device("b", "b"), device("c \"q\" d", "c \"q\" d")]
    );
    assert_eq!(quoted_value("x \"only"), None);
    assert_eq!(quoted_value("none"), None);
    assert_eq!(quoted_value("\"\""), Some(String::new()));
}

#[test]
fn devices_of_all_sources_are_joined() {
    let all = enumerate_audio_devices(
        Some(vec![device("Speakers", "wasapi-render:s")]),
        None,
        Ok(b"\"M\xff\" (audio)\n".to_vec()),
    )
    .unwrap();
    assert_eq!(
        all,
        [
            device("Speakers", "wasapi-render:s"),
            device("M\u{fffd}", "M\u{fffd}")
        ]
    );
    assert_eq!(
        enumerate_audio_devices(Some(all), None, Err("no such file".to_owned())).unwrap_err(),
        "no such file"
    );
    assert!(enumerate_audio_devices(None, None, Ok(vec![])).unwrap().is_empty());
}

#[test]
fn roles_follow_names() {
    assert!(is_microphone_device(&device("Line", "wasapi-capture:x")));
    assert!(is_microphone_device(&device("My Mic", "1")));
    assert!(is_microphone_device(&device("MICRO", "1")));
    assert!(is_microphone_device(&device("Headset (X)", "1")));
    assert!(!is_microphone_device(&device("Microphone loopback", "1")));
    assert!(is_desktop_audio_device(&device("STEREO MIX", "1")));
    assert!(!is_desktop_audio_device(&device("Webcam", "1")));
    let odd = vec![device("Stereo Mix", "1"), device("Webcam", "2")];
    assert_eq!(recommended_microphone(&odd).unwrap().id, "2");
    assert!(recommended_microphone(&odd[..1]).is_none());
    assert!(recommended_desktop_audio(&odd[1..]).is_none());
}

#[test]
fn chosen_devices_are_kept_or_replaced() {
    let devices = vec![
        device("Speakers", "wasapi-render:s"),
        device("Microphone", "m"),
        device("Headset", "h"),
    ];
    let chosen = AppConfig {
        desktop_audio_device: Some("gone".to_owned()),
        microphone_device: Some("h".to_owned()),
        ..AppConfig::default()
    };
    let synced = sync_audio_device_selection(chosen, &devices);
    assert_eq!(
        synced.desktop_audio_device,
        Some("wasapi-render:s".to_owned())
    );
    assert_eq!(synced.microphone_device, Some("h".to_owned()));
    assert!(synced.desktop_audio_enabled && synced.microphone_enabled);
    let again = sync_audio_device_selection(synced.clone(), &devices);
    assert_eq!(again.desktop_audio_device, synced.desktop_audio_device);
    assert_eq!(again.microphone_device, synced.microphone_device);
    let none = sync_audio_device_selection(synced, &vec![]);
    assert_eq!(none.desktop_audio_device, None);
    assert!(!none.desktop_audio_enabled && !none.microphone_enabled);
}

#[test]
fn device_texts() {
    let devices = vec![device("Speakers", "wasapi-render:s"), device("Mic", "m")];
    assert_eq!(
        devices_text(&devices),
        "2 Windows audio endpoints detected: 1 playback/loopback and 1 microphone/input"
    );
    assert_eq!(
        audio_device_label(&devices, &Some("m".to_owned()), "none"),
        "Mic"
    );
    assert_eq!(
        audio_device_label(&devices, &Some("x".to_owned()), "none"),
        "none"
    );
    assert_eq!(audio_device_label(&devices, &None, "none"), "none");
    assert_eq!(
        scan_status(&Ok(1)),
        "Detected 1 Windows audio endpoint"
    );
    assert_eq!(
        scan_status(&Err("e".to_owned())),
        "Could not scan audio devices: e"
    );
}

#[test]
fn endpoints_have_prefixes() {
    assert!(is_wasapi_render_id("wasapi-render:x"));
    assert_eq!(wasapi_endpoint_id("wasapi-render:x"), Some("x"));
    assert_eq!(wasapi_endpoint_id("wasapi-capture:x"), None);
    assert_eq!(wasapi_capture_endpoint_id("wasapi-capture:\u{e4}"), Some("\u{e4}"));
    assert_eq!(wasapi_capture_endpoint_id("x"), None);
}

#[test]
fn the_default_endpoint_comes_first() {
    let endpoint = |id: &str, name: &str| Endpoint {
        id: id.to_owned(),
        name: name.to_owned(),
    };
    let found = vec![endpoint("1", "A"), endpoint("2", "B"), endpoint("3", "C")];
    assert_eq!(
        enumerate_render_devices(&found, &Some("2".to_owned())),
        [
            device("B  ·  Default Windows output", "wasapi-render:2"),
            device("A", "wasapi-render:1"),
            device("C", "wasapi-render:3"),
        ]
    );
    assert_eq!(enumerate_render_devices(&found, &None)[0].name, "A");
    assert_eq!(
        enumerate_capture_devices(&found),
        [
            device("A", "wasapi-capture:1"),
            device("B", "wasapi-capture:2"),
            device("C", "wasapi-capture:3"),
        ]
    );
    let ids = vec![None, Some("2".to_owned()), Some("3".to_owned())];
    assert_eq!(find_endpoint(&ids, "3"), Ok(2));
    assert_eq!(
        find_endpoint(&ids, "9").unwrap_err(),
        "The selected Windows playback device is no longer available"
    );
}

#[test]
fn the_relay_waits_for_ffmpeg() {
    assert!(matches!(accept_step(AcceptOutcome::Connected), AcceptStep::Stream));
    assert!(matches!(
        accept_step(AcceptOutcome::Nothing {
            stop_requested: true,
            past_deadline: true
        }),
        AcceptStep::Finish(Ok(()))
    ));
    assert!(matches!(
        accept_step(AcceptOutcome::Nothing {
            stop_requested: false,
            past_deadline: true
        }),
        AcceptStep::Finish(Err(_))
    ));
    assert!(matches!(
        accept_step(AcceptOutcome::Nothing {
            stop_requested: false,
            past_deadline: false
        }),
        AcceptStep::Wait
    ));
    assert!(matches!(
        accept_step(AcceptOutcome::Failed("e".to_owned())),
        AcceptStep::Finish(Err(_))
    ));
    assert!(loopback_started(LoopbackReport::Ready).is_ok());
    assert_eq!(
        loopback_started(LoopbackReport::NoReport("late".to_owned())).unwrap_err(),
        "WASAPI loopback did not start: late"
    );
    assert_eq!(
        loopback_started(LoopbackReport::Failed("e".to_owned())).unwrap_err(),
        "e"
    );
}

#[test]
fn the_relay_keeps_the_order_of_sound() {
    let mut queue = SoundQueue { bytes: vec![] };
    queue.receive(&vec![1, 2, 3], false);
    queue.receive(&vec![9, 9], true);
    assert_eq!(queue.bytes, [1, 2, 3, 0, 0]);
    assert!(matches!(
        queue.after_write(WriteOutcome::Written(2)),
        WriteStep::WriteMore
    ));
    assert_eq!(queue.bytes, [3, 0, 0]);
    assert!(matches!(
        queue.after_write(WriteOutcome::Busy),
        WriteStep::ReadMore
    ));
    assert!(matches!(
        queue.after_write(WriteOutcome::Written(3)),
        WriteStep::ReadMore
    ));
    assert!(matches!(
        queue.after_write(WriteOutcome::Written(0)),
        WriteStep::Finish(Ok(()))
    ));
    assert!(matches!(
        queue.after_write(WriteOutcome::Disconnected),
        WriteStep::Finish(Ok(()))
    ));
    assert!(matches!(
        queue.after_write(WriteOutcome::Failed("e".to_owned())),
        WriteStep::Finish(Err(_))
    ));
}

fn raw(id: &str, left: i32, top: i32, primary: bool) -> RawMonitor {
    RawMonitor {
        id: id.to_owned(),
        left,
        top,
        right: left + 1920,
        bottom: top + 1080,
        primary,
    }
}

#[test]
fn displays_are_ordered_by_place() {
    let monitors = enumerate_monitors(&vec![
        raw("\\\\.\\DISPLAY3", 1920, 0, false),
        raw("\\\\.\\DISPLAY2", -1920, 0, false),
        raw("\\\\.\\DISPLAY1", 0, 0, true),
    ]);
    let labels: Vec<String> = monitors.iter().map(MonitorInfo::display_label).collect();
    assert_eq!(
        labels,
        [
            "DISPLAY1 · 1920×1080 · Primary",
            "DISPLAY2 · 1920×1080",
            "DISPLAY3 · 1920×1080"
        ]
    );
    assert_eq!(monitors[0].output_index, 2);
    assert_eq!(monitors[1].x, -1920);
    let flat = enumerate_monitors(&vec![RawMonitor {
        id: "x".to_owned(),
        left: 2147483647,
        top: 5,
        right: -2147483648,
        bottom: 5,
        primary: false,
    }]);
    assert_eq!((flat[0].width, flat[0].height), (1, 1));
}

#[test]
fn displays_are_chosen() {
    let monitors = enumerate_monitors(&vec![raw("a", 0, 0, false), raw("b", 10, 0, true)]);
    let chosen = |id: Option<&str>| {
        selected_monitor(&monitors, &id.map(|value| value.to_owned()))
            .unwrap()
            .id
    };
    assert_eq!(chosen(Some("a")), "a");
    assert_eq!(chosen(Some("gone")), "b");
    assert_eq!(chosen(None), "b");
    let plain = vec![MonitorInfo {
        primary: false,
        ..assumed_monitor()
    }];
    assert_eq!(selected_monitor(&plain, &None).unwrap().id, "primary");
    assert!(selected_monitor(&vec![], &None).is_none());
    assert_eq!(
        assumed_monitor().display_label(),
        "Primary display · 1920×1080 · Primary"
    );
}

#[test]
fn ordering_is_stable() {
    let rank = |first: i128, second: i128| Rank {
        first,
        second,
        third: 0,
    };
    assert_eq!(
        order_of(&vec![rank(1, 0), rank(0, 5), rank(1, 0), rank(0, -5)]),
        [3, 1, 0, 2]
    );
}

#[test]
fn obs_encoders_are_recognized() {
    assert_eq!(encoder_backend_from_id("jim_NVENC"), EncoderBackend::Nvidia);
    assert_eq!(encoder_backend_from_id("h264_texture_amf"), EncoderBackend::Amd);
    assert_eq!(encoder_backend_from_id("obs_qsv11"), EncoderBackend::Intel);
    assert_eq!(encoder_backend_from_id("obs_x264"), EncoderBackend::Software);
    let config = AppConfig {
        clip_seconds: 200,
        ..AppConfig::default()
    };
    let engine = ObsCaptureEngine::started(&config, &Some("obs_qsv11".to_owned()));
    assert_eq!(engine.active_encoder(), EncoderBackend::Intel);
    assert_eq!(engine.max_buffer_seconds, 200);
    assert_eq!(
        ObsCaptureEngine::started(&config, &None).active_encoder(),
        EncoderBackend::Software
    );
}

fn probe(root: &str, complete: bool) -> RuntimeProbe {
    RuntimeProbe {
        root: root.to_owned(),
        obs_dll: complete,
        installed_obs_dll: false,
        libobs_data: true,
        curated_plugins: false,
        obs_plugins: true,
    }
}

#[test]
fn obs_runtimes_are_found() {
    let host = HostSystem::Windows;
    assert_eq!(
        runtime_candidates(
            host,
            &None,
            &Some("C:\\xyra".to_owned()),
            &Some("C:\\Programs".to_owned())
        ),
        ["C:\\xyra", "C:\\Programs\\obs-studio"]
    );
    let paths = runtime_paths(host, "R");
    assert_eq!(paths.installed_obs_dll, "R\\bin\\64bit\\obs.dll");
    assert_eq!(paths.libobs_data, "R\\data\\libobs");
    assert_eq!(paths.curated_plugins, "R\\xyra-plugins\\64bit");
    assert_eq!(paths.obs_plugins, "R\\obs-plugins\\64bit");
    assert_eq!(paths.obs_dll, "R\\obs.dll");
    let probes = vec![probe("a", false), probe("b", true), probe("c", true)];
    assert_eq!(find_runtime_root(&probes), Some(1));
    assert!(runtime_available(&probes));
    assert!(!runtime_available(&vec![probe("a", false)]));
    assert_eq!(binary_directory(host, &probes[0]), "a\\bin\\64bit");
    assert_eq!(binary_directory(host, &probes[1]), "b");
    assert_eq!(helpers()[0], "obs-ffmpeg-mux.exe");
    assert!(copies_helper(false, true) && !copies_helper(true, true));
    assert_eq!(
        helper_error("s", "e").message(),
        "OBS engine failed: could not stage OBS helper s beside Xyra: e"
    );
}

#[test]
fn obs_plans() {
    let config = AppConfig {
        desktop_audio_device: Some("wasapi-render:s".to_owned()),
        microphone_device: Some("dshow mic".to_owned()),
        desktop_audio_volume_percent: 250,
        microphone_noise_suppression: true,
        video_codec: VideoCodec::H265,
        video_aspect_ratio: VideoAspectRatio::Crop16By9,
        encoder: EncoderBackend::Software,
        ..AppConfig::default()
    };
    let runtime = probe("R", true);
    let plan = ObsCaptureEngine::start(
        HostSystem::Windows,
        &config,
        Some(&runtime),
        true,
        Some(assumed_monitor()),
        (7, 7),
    )
    .unwrap();
    assert_eq!(plan.plugin_bin, "R\\obs-plugins\\64bit");
    assert_eq!(plan.plugin_data, "R\\data\\obs-plugins\\%module%");
    assert_eq!(plan.working_directory, Some("R\\bin\\64bit".to_owned()));
    assert_eq!((plan.output_width, plan.output_height), (1920, 1080));
    assert_eq!(plan.bounds, BoundsKind::ScaleOuter);
    assert!(plan.crop_to_bounds && plan.separate_tracks && plan.software_encoder);
    let desktop = plan.desktop.unwrap();
    assert_eq!(desktop.endpoint_id, "s");
    assert_eq!((desktop.volume_percent, desktop.mixers), (200, 3));
    let microphone = plan.microphone.unwrap();
    assert_eq!(microphone.endpoint_id, "default");
    assert_eq!((microphone.volume_percent, microphone.mixers), (80, 5));
    assert!(microphone.noise_suppression);
    assert_eq!(plan.max_time_seconds, 120);
    assert_eq!(plan.max_size_mb, 424);
    assert_eq!(plan.video_bitrate_kbps, 12000);
    assert_eq!(plan.codec, VideoCodec::H265);

    let missing = ObsCaptureEngine::start(HostSystem::Windows, &config, None, true, None, (1, 1));
    assert!(matches!(missing, Err(ObsCaptureError::RuntimeMissing)));
    let blind = ObsCaptureEngine::start(
        HostSystem::Windows,
        &config,
        Some(&runtime),
        false,
        None,
        (1, 1),
    );
    assert_eq!(
        blind.unwrap_err().message(),
        "OBS engine failed: no Windows display was found"
    );
    let elsewhere = ObsCaptureEngine::start(
        HostSystem::Other,
        &config,
        Some(&runtime),
        true,
        Some(assumed_monitor()),
        (7, 7),
    );
    assert!(matches!(elsewhere, Err(ObsCaptureError::UnsupportedPlatform)));
    assert_eq!(
        ObsCaptureError::UnsupportedPlatform.message(),
        "OBS capture is only supported on Windows in this alpha"
    );
}

#[test]
fn obs_sizes() {
    assert_eq!(max_size_mb(0, 0), 128);
    assert_eq!(max_size_mb(100, 300), 7564);
    assert_eq!(max_size_mb(4294967295, 4294967295), 8192);
    let game = AppConfig {
        video_aspect_ratio: VideoAspectRatio::Game,
        ..AppConfig::default()
    };
    assert_eq!(obs_output_dimensions(&game, (1921, 1)), (1920, 2));
    assert_eq!(obs_output_dimensions(&AppConfig::default(), (3, 3)), (1920, 1080));
}

#[test]
fn obs_displays_are_matched() {
    let monitor = |name: &str, primary: bool| ObsMonitor {
        name: name.to_owned(),
        primary,
    };
    let all = vec![monitor("D1", false), monitor("D2", true), monitor("D3", false)];
    assert_eq!(obs_monitor(&all, "d3").unwrap(), 2);
    assert_eq!(obs_monitor(&all, "gone").unwrap(), 1);
    assert_eq!(obs_monitor(&vec![monitor("x", false)], "gone").unwrap(), 0);
    assert_eq!(
        obs_monitor(&vec![], "x").unwrap_err().message(),
        "OBS engine failed: OBS did not report a display"
    );
}

#[test]
fn obs_replays_are_cut() {
    let request = |seconds: u32| ObsReplayRequest {
        ffmpeg_path: "ff".to_owned(),
        requested_seconds: seconds,
        max_buffer_seconds: 60,
    };
    let saved = || Ok("clips/r.mkv".to_owned());
    match request(90).complete(HostSystem::Other, saved(), true).unwrap() {
        ObsCompletion::Keep(clip) => assert_eq!(clip.duration_millis, 60000),
        ObsCompletion::Trim(_) => panic!("nothing to cut"),
    }
    match request(30).complete(HostSystem::Other, saved(), false).unwrap() {
        ObsCompletion::Keep(clip) => assert_eq!(clip.duration_millis, 30000),
        ObsCompletion::Trim(_) => panic!("no FFmpeg"),
    }
    match request(30).complete(HostSystem::Other, saved(), true).unwrap() {
        ObsCompletion::Keep(_) => panic!("too long"),
        ObsCompletion::Trim(trim) => {
            assert!(trim.trimmed.ends_with("-30s.mkv"));
            let (clip, remove) = trim.finish(true);
            assert!(remove);
            assert_eq!(clip.duration_millis, 30000);
        }
    }
    let trim = ObsTrim::plan(HostSystem::Other, "clips/r".to_owned(), "T", 30, 60);
    assert_eq!(trim.trimmed, "clips/xyra-T-30s.mp4");
    assert_eq!(
        trim.args.join(" "),
        "-y -sseof -30 -i clips/r -map 0 -c copy -avoid_negative_ts make_zero clips/xyra-T-30s.mp4"
    );
    let (whole, remove) = trim.finish(false);
    assert!(!remove);
    assert_eq!((whole.path.as_str(), whole.duration_millis), ("clips/r", 60000));
    assert_eq!(
        request(30)
            .complete(HostSystem::Other, Err("e".to_owned()), true)
            .unwrap_err()
            .message(),
        "could not finalize the OBS replay: e"
    );
}
