use xyra::capture::{
    BufferFile, CaptureError, CaptureManager, Cleanup, EncoderStep, FinishStep, ProcessOutcome,
    Recorder, ReplaySaveRequest, StartStep, StopStep, failure_line, finish_step, list_segments,
    process_result, recording_command, recording_files, recording_source, replay_plan,
};
use xyra::capture_args::{
    capture_args, capture_args_with_loopback, concat_args, concat_list, device_listing_args,
    dda_software_filter, fit_inside, probe_args, probe_encoder, seconds_of, trim_args,
    video_filter,
};
use xyra::config::{AppConfig, CaptureEngine, EncoderBackend, VideoAspectRatio, VideoCodec};
use xyra::display::MonitorInfo;
use xyra::obs_capture::{ObsCaptureEngine, ObsCaptureError};
use xyra::paths::HostSystem;

fn display(width: u32, height: u32) -> MonitorInfo {
    MonitorInfo {
        output_index: 0,
        id: "display1".to_owned(),
        label: "Display 1".to_owned(),
        x: 0,
        y: 0,
        width,
        height,
        primary: true,
    }
}

#[test]
fn capture_uses_wrapped_two_second_segments() {
    let config = AppConfig::default();
    let monitor = MonitorInfo {
        output_index: 1,
        id: "display2".into(),
        label: "Display 2".into(),
        x: -1920,
        y: 0,
        width: 1920,
        height: 1080,
        primary: false,
    };
    for host in [HostSystem::Windows, HostSystem::Other] {
        let args = capture_args(host, &config, &monitor, "buffer.mp4");
        let joined = args.join(" ");
        assert!(joined.contains("-segment_time 2"));
        assert!(joined.contains(&format!(
            "-segment_wrap {}",
            config.max_buffer_seconds().div_ceil(config.segment_seconds) + 3
        )));
        assert!(joined.contains("gdigrab"));
        assert!(joined.contains("-offset_x -1920"));
        assert!(joined.contains("-video_size 1920x1080"));
        assert!(joined.contains("-c:v libx264"));
    }
}

#[test]
fn concat_list_uses_the_exact_capture_clock() {
    let list = concat_list(
        &vec!["segment-1.mp4".to_owned(), "segment-2.mp4".to_owned()],
        2,
    );
    assert_eq!(list.matches("duration 2.000000").count(), 1);
}

#[test]
fn capture_uses_selected_hardware_encoder_and_codec() {
    let config = AppConfig {
        encoder: EncoderBackend::Nvidia,
        video_codec: VideoCodec::H265,
        output_width: 2560,
        output_height: 1440,
        video_bitrate_mbps: 24,
        animated_cursor_compatibility: false,
        ..AppConfig::default()
    };
    let monitor = MonitorInfo {
        output_index: 0,
        id: "display1".into(),
        label: "Display 1".into(),
        x: 0,
        y: 0,
        width: 2560,
        height: 1440,
        primary: true,
    };
    for host in [HostSystem::Windows, HostSystem::Other] {
        let joined = capture_args(host, &config, &monitor, "buffer.mp4").join(" ");
        assert!(joined.contains("-c:v hevc_nvenc"));
        assert!(joined.contains("-preset p2 -tune ll -rc cbr -multipass disabled"));
        assert!(joined.contains("-rc-lookahead 0 -bf 0 -spatial-aq 0 -temporal-aq 0"));
        assert!(joined.contains("-b:v 24M"));
        if host == HostSystem::Windows {
            assert!(joined.contains("-f lavfi -i ddagrab=output_idx=0:framerate=60"));
            assert!(!joined.contains("-pix_fmt"));
            assert!(!joined.contains("-vf"));
        } else {
            assert!(joined.contains("gdigrab"));
        }
    }
}

#[test]
fn nvidia_downscale_uses_desktop_duplication_instead_of_gdi() {
    let monitor = MonitorInfo {
        output_index: 0,
        id: "display1".into(),
        label: "Display 1".into(),
        x: 0,
        y: 0,
        width: 2560,
        height: 1440,
        primary: true,
    };
    let fast = AppConfig {
        encoder: EncoderBackend::Nvidia,
        output_width: 1920,
        output_height: 1080,
        animated_cursor_compatibility: false,
        ..AppConfig::default()
    };
    let joined = capture_args(HostSystem::Windows, &fast, &monitor, "buffer.mp4").join(" ");
    assert!(joined.contains("ddagrab=output_idx=0"));
    assert!(joined.contains("hwdownload,format=bgra,scale=1920:1080:flags=fast_bilinear"));
    assert!(!joined.contains("gdigrab"));

    let compatible = AppConfig {
        animated_cursor_compatibility: true,
        ..fast
    };
    for host in [HostSystem::Windows, HostSystem::Other] {
        let joined = capture_args(host, &compatible, &monitor, "buffer.mp4").join(" ");
        assert!(joined.contains("gdigrab"));
        assert!(joined.contains("-draw_mouse 1"));
    }
}

#[test]
fn aspect_ratio_modes_build_distinct_video_filters() {
    let monitor = MonitorInfo {
        output_index: 0,
        id: "ultrawide".into(),
        label: "Ultrawide".into(),
        x: 0,
        y: 0,
        width: 3440,
        height: 1440,
        primary: true,
    };
    assert_eq!(
        video_filter(VideoAspectRatio::Stretch16By9, &monitor, 1920, 1080),
        "scale=1920:1080,setsar=1"
    );
    assert!(
        video_filter(VideoAspectRatio::Fit16By9, &monitor, 1920, 1080)
            .contains("force_original_aspect_ratio=decrease,pad=1920:1080")
    );
    assert_eq!(
        video_filter(VideoAspectRatio::Game, &monitor, 1920, 1080),
        "scale=1920:804,setsar=1"
    );
    assert!(
        video_filter(VideoAspectRatio::Crop16By9, &monitor, 1920, 1080)
            .contains("force_original_aspect_ratio=increase,crop=1920:1080")
    );
}

#[test]
fn capture_mixes_desktop_and_filtered_microphone_audio() {
    let config = AppConfig {
        desktop_audio_enabled: true,
        desktop_audio_device: Some("desktop-device".into()),
        desktop_audio_volume_percent: 100,
        microphone_enabled: true,
        microphone_device: Some("microphone-device".into()),
        microphone_volume_percent: 60,
        separate_audio_tracks: false,
        microphone_noise_suppression: true,
        microphone_mono: true,
        ..AppConfig::default()
    };
    let monitor = MonitorInfo {
        output_index: 0,
        id: "display1".into(),
        label: "Display 1".into(),
        x: 0,
        y: 0,
        width: 1920,
        height: 1080,
        primary: true,
    };
    let joined = capture_args(HostSystem::current(), &config, &monitor, "buffer.mp4").join(" ");
    assert!(joined.contains("-f dshow -audio_buffer_size 50 -i audio=desktop-device"));
    assert!(joined.contains("-i audio=microphone-device"));
    assert!(joined.contains("afftdn=nf=-25,pan=stereo|c0=c0|c1=c0,volume=0.60"));
    assert!(joined.contains("amix=inputs=2"));
    assert!(joined.contains("-map [audio_mix] -c:a aac -b:a 192k"));
}

#[test]
fn capture_accepts_native_wasapi_playback_audio() {
    let config = AppConfig {
        desktop_audio_enabled: true,
        desktop_audio_device: Some("wasapi-render:windows-endpoint".into()),
        microphone_enabled: false,
        ..AppConfig::default()
    };
    let monitor = MonitorInfo {
        output_index: 0,
        id: "display1".into(),
        label: "Display 1".into(),
        x: 0,
        y: 0,
        width: 1920,
        height: 1080,
        primary: true,
    };
    let joined = capture_args_with_loopback(
        HostSystem::current(),
        &config,
        &monitor,
        "buffer.mp4",
        Some(43123),
    )
    .join(" ");
    assert!(joined.contains("-f f32le -ar 48000 -ac 2"));
    assert!(joined.contains("tcp://127.0.0.1:43123"));
    assert!(!joined.contains("audio=wasapi-render"));
}

#[test]
fn separate_audio_tracks_are_named_and_mapped() {
    let config = AppConfig {
        desktop_audio_enabled: true,
        desktop_audio_device: Some("desktop-device".into()),
        microphone_enabled: true,
        microphone_device: Some("microphone-device".into()),
        separate_audio_tracks: true,
        ..AppConfig::default()
    };
    let monitor = MonitorInfo {
        output_index: 0,
        id: "display1".into(),
        label: "Display 1".into(),
        x: 0,
        y: 0,
        width: 1920,
        height: 1080,
        primary: true,
    };
    let joined = capture_args(HostSystem::current(), &config, &monitor, "buffer.mp4").join(" ");
    assert!(joined.contains("asplit=2[audio0_mix][audio0]"));
    assert!(joined.contains(
        "-map [audio_mix] -metadata:s:a:0 title=Game + Microphone Mix -disposition:a:0 default"
    ));
    assert!(joined.contains("-map [audio0] -metadata:s:a:1 title=Desktop Audio"));
    assert!(joined.contains("-map [audio1] -metadata:s:a:2 title=Microphone"));
    assert!(joined.contains("amix=inputs=2"));
}

#[test]
fn a_whole_recording_command() {
    let config = AppConfig {
        desktop_audio_enabled: false,
        microphone_enabled: true,
        microphone_device: Some("mic".to_owned()),
        microphone_volume_percent: 205,
        clip_seconds: 31,
        clip_hotkeys: vec![],
        ..AppConfig::default()
    };
    let args = recording_command(
        HostSystem::Other,
        config,
        EncoderBackend::Amd,
        &display(1920, 1080),
        "out.mp4",
        None,
    );
    assert_eq!(
        args.join(" "),
        "-hide_banner -loglevel warning -stats_period 30 -stats -y \
-thread_queue_size 1024 -f gdigrab -framerate 60 -draw_mouse 1 -offset_x 0 -offset_y 0 \
-video_size 1920x1080 -i desktop \
-thread_queue_size 1024 -use_wallclock_as_timestamps 1 -f dshow -audio_buffer_size 50 -i audio=mic \
-vf scale=1920:1080,setsar=1 -c:v h264_amf -pix_fmt yuv420p -quality speed \
-filter_complex [1:a]aresample=48000:async=1:first_pts=0,volume=2.00[audio0] -map 0:v:0 -map [audio0] \
-c:a aac -b:a 192k -ar 48000 \
-b:v 12M -maxrate 12M -bufsize 24M -g 120 -fps_mode cfr -force_key_frames expr:gte(t,n_forced*2) \
-f segment -segment_time 2 -segment_wrap 19 -reset_timestamps 1 out.mp4"
    );
}

#[test]
fn silence_is_recorded_without_audio() {
    let config = AppConfig {
        desktop_audio_enabled: false,
        microphone_enabled: false,
        ..AppConfig::default()
    };
    let joined = capture_args(HostSystem::Other, &config, &display(1920, 1080), "o").join(" ");
    assert!(joined.contains(" -an -b:v"));
    assert!(!joined.contains("-filter_complex"));
}

#[test]
fn ffmpeg_is_given_two_seconds_to_end() {
    assert_eq!(finish_step(true, 0), FinishStep::Done);
    assert_eq!(finish_step(true, 9000), FinishStep::Done);
    assert_eq!(finish_step(false, 0), FinishStep::Wait { millis: 25 });
    assert_eq!(finish_step(false, 1999), FinishStep::Wait { millis: 25 });
    assert_eq!(finish_step(false, 2000), FinishStep::Kill);
}

#[test]
fn recordings_open_each_source_once() {
    let mut config = AppConfig {
        desktop_audio_device: Some("d".to_owned()),
        microphone_device: Some("m".to_owned()),
        encoder: EncoderBackend::Nvidia,
        ..AppConfig::default()
    };
    let counts = |host: HostSystem, config: &AppConfig, monitor: &MonitorInfo| {
        let args = capture_args(host, config, monitor, "-i");
        assert_eq!(args.last().unwrap(), "-i");
        ["-i", "-an", "-vf", "gdigrab"]
            .map(|word| args[..args.len() - 1].iter().filter(|arg| *arg == word).count())
    };
    let windows = HostSystem::Windows;
    assert_eq!(counts(windows, &config, &display(1920, 1080)), [3, 0, 0, 0]);
    assert_eq!(counts(windows, &config, &display(1280, 720)), [3, 0, 1, 0]);
    assert_eq!(
        counts(HostSystem::Other, &config, &display(1920, 1080)),
        [3, 0, 1, 1]
    );
    config.desktop_audio_enabled = false;
    config.microphone_enabled = false;
    assert_eq!(counts(windows, &config, &display(1920, 1080)), [1, 1, 0, 0]);
}

#[test]
fn huge_values_saturate() {
    let config = AppConfig {
        video_bitrate_mbps: 4294967295,
        frame_rate: 4294967295,
        desktop_audio_enabled: false,
        microphone_enabled: false,
        ..AppConfig::default()
    };
    let joined = capture_args(HostSystem::Other, &config, &display(1920, 1080), "o").join(" ");
    assert!(joined.contains("-bufsize 4294967295M -g 4294967295 "));
}

#[test]
fn desktop_duplication_transforms_only_when_needed() {
    let monitor = display(3440, 1440);
    assert_eq!(
        dda_software_filter(VideoAspectRatio::Game, &monitor, 1920, 1080),
        "hwdownload,format=bgra,scale=1920:804:flags=fast_bilinear,setsar=1,format=nv12"
    );
    assert_eq!(
        dda_software_filter(VideoAspectRatio::Fit16By9, &monitor, 1280, 720),
        "hwdownload,format=bgra,scale=1280:720:force_original_aspect_ratio=decrease:flags=fast_bilinear,pad=1280:720:(ow-iw)/2:(oh-ih)/2:black,setsar=1,format=nv12"
    );
    assert_eq!(
        dda_software_filter(VideoAspectRatio::Crop16By9, &monitor, 1280, 720),
        "hwdownload,format=bgra,scale=1280:720:force_original_aspect_ratio=increase:flags=fast_bilinear,crop=1280:720,setsar=1,format=nv12"
    );
}

#[test]
fn fitted_sizes_are_even_and_inside() {
    assert_eq!(fit_inside(1920, 1080, 1920, 1080), (1920, 1080));
    assert_eq!(fit_inside(1080, 1920, 1920, 1080), (608, 1080));
    assert_eq!(fit_inside(4000, 1, 1280, 720), (1280, 2));
    assert_eq!(fit_inside(1, 4000, 1280, 720), (2, 720));
    assert_eq!(
        fit_inside(4294967295, 4294967295, 4294967295, 4294967295),
        (4294967294, 4294967294)
    );
}

#[test]
fn concat_list_quotes_paths() {
    let list = concat_list(
        &vec!["C:\\it's\\a.mp4".to_owned(), "b.mp4".to_owned(), "c.mp4".to_owned()],
        3,
    );
    assert_eq!(
        list,
        "file 'C:/it'\\''s/a.mp4'\nduration 3.000000\nfile 'b.mp4'\nduration 3.000000\nfile 'c.mp4'"
    );
    assert_eq!(concat_list(&vec![], 3), "");
}

#[test]
fn commands_for_files() {
    assert_eq!(
        concat_args("list.txt", "out.mp4").join(" "),
        "-y -f concat -safe 0 -i list.txt -map 0 -c copy out.mp4"
    );
    assert_eq!(
        trim_args("in.mp4", "out.mp4", 1500, 61007).join(" "),
        "-y -ss 1.500 -to 61.007 -i in.mp4 -map 0:v:0 -map 0:a? -c:v libx264 -preset fast -crf 18 -pix_fmt yuv420p -c:a aac out.mp4"
    );
    assert_eq!(
        CaptureManager::export_trimmed("in.mp4", "out.mp4", 0, 30000)[4],
        "30.000"
    );
    assert_eq!(seconds_of(45), "0.045");
    assert_eq!(
        device_listing_args().join(" "),
        "-hide_banner -list_devices true -f dshow -i dummy"
    );
    assert_eq!(probe_encoder(EncoderBackend::Auto), None);
    assert_eq!(probe_encoder(EncoderBackend::Intel), Some("h264_qsv"));
    assert!(
        probe_args("h264_qsv")
            .join(" ")
            .ends_with("color=size=256x256:rate=1 -frames:v 1 -an -c:v h264_qsv -f null -")
    );
}

#[test]
fn recorder_states() {
    let mut manager = CaptureManager::default();
    assert_eq!(manager.is_running(true), (false, Cleanup::Nothing));
    assert_eq!(manager.active_engine(), None);
    assert!(matches!(manager.stop(), Err(CaptureError::NotRunning)));
    assert!(matches!(
        manager.start(CaptureEngine::Auto),
        Ok(StartStep::TryObs)
    ));
    assert!(matches!(
        manager.start(CaptureEngine::Ffmpeg),
        Ok(StartStep::TryFfmpeg)
    ));

    let engine = ObsCaptureEngine {
        active_encoder: EncoderBackend::Nvidia,
        max_buffer_seconds: 120,
    };
    manager.obs_started(&engine);
    assert_eq!(manager.active_engine(), Some(CaptureEngine::Obs));
    assert_eq!(manager.active_encoder(), Some(EncoderBackend::Nvidia));
    assert!(matches!(
        manager.start(CaptureEngine::Ffmpeg),
        Err(CaptureError::AlreadyRunning)
    ));
    assert!(matches!(manager.stop(), Ok(StopStep::StopObs)));
    assert!(
        manager
            .obs_stopped(Err(ObsCaptureError::Engine("x".to_owned())))
            .is_err()
    );
    assert!(manager.obs_stopped(Ok(())).is_ok());
    assert_eq!(manager.active_encoder(), None);

    manager.ffmpeg_started(EncoderBackend::Software, true);
    assert_eq!(manager.recorder, Recorder::Ffmpeg { relayed: true });
    assert_eq!(
        manager.is_running(false),
        (false, Cleanup::ReapFfmpeg { relayed: true })
    );
    assert_eq!(manager.active_encoder(), None);
    manager.ffmpeg_started(EncoderBackend::Software, false);
    assert!(matches!(
        manager.stop(),
        Ok(StopStep::StopFfmpeg { relayed: false })
    ));
}

#[test]
fn only_the_automatic_choice_falls_back() {
    let error = ObsCaptureError::RuntimeMissing;
    assert!(matches!(
        CaptureManager::obs_failed(CaptureEngine::Auto, &error),
        Ok(StartStep::TryFfmpeg)
    ));
    let shown = CaptureManager::obs_failed(CaptureEngine::Obs, &error).unwrap_err();
    assert_eq!(
        shown.message(),
        "OBS capture failed: the bundled OBS 32.2.1 runtime is missing or incomplete"
    );
}

#[test]
fn encoders_are_tried_in_order() {
    assert!(matches!(
        CaptureManager::detect_encoder(&vec![]),
        EncoderStep::Try(EncoderBackend::Nvidia)
    ));
    assert!(matches!(
        CaptureManager::detect_encoder(&vec![false, false]),
        EncoderStep::Try(EncoderBackend::Intel)
    ));
    assert!(matches!(
        CaptureManager::detect_encoder(&vec![false, true]),
        EncoderStep::Use(EncoderBackend::Amd)
    ));
    assert!(matches!(
        CaptureManager::detect_encoder(&vec![false, false, false]),
        EncoderStep::Use(EncoderBackend::Software)
    ));
    assert!(matches!(
        CaptureManager::choose_encoder(EncoderBackend::Amd, &vec![]),
        EncoderStep::Try(EncoderBackend::Amd)
    ));
    assert!(matches!(
        CaptureManager::choose_encoder(EncoderBackend::Amd, &vec![true]),
        EncoderStep::Use(EncoderBackend::Amd)
    ));
    assert!(matches!(
        CaptureManager::choose_encoder(EncoderBackend::Amd, &vec![false]),
        EncoderStep::Unavailable("AMD AMF")
    ));
}

#[test]
fn capture_error_messages() {
    let messages = [
        CaptureError::FfmpegMissing("ff".to_owned()).message(),
        CaptureError::AlreadyRunning.message(),
        CaptureError::NotRunning.message(),
        CaptureError::EmptyBuffer.message(),
        CaptureError::EncoderUnavailable("AMD AMF").message(),
        CaptureError::Obs("o".to_owned()).message(),
        CaptureError::ProcessFailed("p".to_owned()).message(),
        CaptureError::Io("i".to_owned()).message(),
    ];
    assert_eq!(
        messages,
        [
            "FFmpeg was not found at 'ff'. Retry the bundled setup or choose a custom path in Settings.",
            "replay buffer is already running",
            "replay buffer is not running",
            "not enough buffered video yet; wait a few seconds",
            "AMD AMF is not available in the bundled FFmpeg build or graphics driver",
            "OBS capture failed: o",
            "media operation failed: p",
            "file operation failed: i",
        ]
    );
}

fn file(path: &str, modified: Option<i128>) -> BufferFile {
    BufferFile {
        path: path.to_owned(),
        modified,
    }
}

#[test]
fn segments_are_listed_by_age() {
    let files = vec![
        file("buffer/c.mp4", Some(30)),
        file("buffer/capture.log", Some(5)),
        file("buffer/a.mp4", Some(10)),
        file("buffer/d.MP4", Some(1)),
        file("buffer/b.mp4", None),
        file("buffer/e.mp4", Some(10)),
    ];
    assert_eq!(
        list_segments(HostSystem::Other, &files),
        ["buffer/b.mp4", "buffer/a.mp4", "buffer/e.mp4", "buffer/c.mp4"]
    );
}

#[test]
fn replays_take_the_newest_complete_segments() {
    let config = AppConfig {
        clips_directory: "clips".to_owned(),
        segment_seconds: 2,
        ..AppConfig::default()
    };
    let files = vec![
        file("b/1.mp4", Some(1)),
        file("b/2.mp4", Some(2)),
        file("b/3.mp4", Some(3)),
        file("b/4.mp4", Some(4)),
    ];
    let plan = replay_plan(HostSystem::Other, &config, &files, 3, true, "20240102-030405").unwrap();
    assert_eq!(plan.segments, ["b/2.mp4", "b/3.mp4"]);
    assert_eq!(plan.output, "clips/xyra-20240102-030405.mp4");
    assert_eq!(plan.list_path, "clips/xyra-20240102-030405.concat.txt");
    assert_eq!(plan.list, "file 'b/2.mp4'\nduration 2.000000\nfile 'b/3.mp4'");
    assert_eq!(plan.duration_millis, 4000);
    assert_eq!(plan.args[6], plan.list_path);

    let stopped = replay_plan(HostSystem::Other, &config, &files, 0, false, "s").unwrap();
    assert_eq!(stopped.segments, ["b/4.mp4"]);
    let all = replay_plan(HostSystem::Other, &config, &files, 300, false, "s").unwrap();
    assert_eq!(all.segments.len(), 4);

    let growing = vec![file("b/1.mp4", Some(1))];
    assert!(matches!(
        replay_plan(HostSystem::Other, &config, &growing, 30, true, "s"),
        Err(CaptureError::EmptyBuffer)
    ));
    assert!(matches!(
        CaptureManager::default().save_replay(HostSystem::Other, &config, &vec![]),
        Err(CaptureError::EmptyBuffer)
    ));
}

#[test]
fn saved_replays_become_clips() {
    let config = AppConfig {
        clips_directory: "clips".to_owned(),
        ..AppConfig::default()
    };
    let files = vec![file("b/1.mp4", Some(1))];
    let plan = CaptureManager::save_replay_snapshot(HostSystem::Other, &config, &files, 30, false)
        .unwrap();
    assert!(plan.output.starts_with("clips/xyra-2"));
    assert_eq!(plan.output.len(), "clips/xyra-20240102-030405.mp4".len());
    let output = plan.output.clone();
    let clip = plan
        .finish(ProcessOutcome::Finished {
            success: true,
            stderr: vec![],
        })
        .unwrap();
    assert_eq!(clip.path, output);
    assert_eq!(clip.duration_millis, 2000);
    assert!(clip.title.starts_with("Xyra clip 2"));
    assert_eq!(clip.title.len(), "Xyra clip 2024-01-02 03:04".len());
}

#[test]
fn failures_show_the_last_line() {
    assert_eq!(failure_line("one\r\ntwo\n"), "two");
    assert_eq!(failure_line(""), "unknown FFmpeg error");
    let failed = process_result(ProcessOutcome::Finished {
        success: false,
        stderr: vec![b'a', b'\n', 0xff, b'b'],
    });
    assert_eq!(
        failed.unwrap_err().message(),
        "media operation failed: \u{fffd}b"
    );
    let missing = process_result(ProcessOutcome::NotStarted("no".to_owned()));
    assert_eq!(missing.unwrap_err().message(), "media operation failed: no");
}

#[test]
fn requests_go_to_the_engine_that_records() {
    let config = AppConfig::default();
    let mut manager = CaptureManager::default();
    manager.ffmpeg_started(EncoderBackend::Software, false);
    match manager.request_replay_save(&config, 12, None, true).unwrap() {
        ReplaySaveRequest::Ffmpeg {
            config: kept,
            clip_seconds,
            capture_running,
        } => {
            assert_eq!(kept.buffer_directory, config.buffer_directory);
            assert_eq!(kept.clip_hotkeys.len(), 3);
            assert_eq!(clip_seconds, 12);
            assert!(capture_running);
        }
        ReplaySaveRequest::Obs(_) => panic!("FFmpeg records"),
    }
    let engine = ObsCaptureEngine {
        active_encoder: EncoderBackend::Software,
        max_buffer_seconds: 60,
    };
    match manager
        .request_replay_save(&config, 0, Some(&engine), true)
        .unwrap()
    {
        ReplaySaveRequest::Obs(request) => {
            assert_eq!(request.requested_seconds, 1);
            assert_eq!(request.max_buffer_seconds, 60);
        }
        ReplaySaveRequest::Ffmpeg { .. } => panic!("OBS records"),
    }
    assert_eq!(
        manager
            .request_replay_save(&config, 5, Some(&engine), false)
            .unwrap_err()
            .message(),
        "OBS capture failed: could not finalize the OBS replay: the OBS replay buffer is not running"
    );
}

#[test]
fn recordings_need_a_display() {
    let config = AppConfig {
        buffer_directory: "buf".to_owned(),
        desktop_audio_device: Some("wasapi-render:speakers".to_owned()),
        capture_monitor: Some("display1".to_owned()),
        ..AppConfig::default()
    };
    let files = recording_files(HostSystem::Windows, &config);
    assert_eq!(files.segments, "buf\\segment-%06d.mp4");
    assert_eq!(files.log, "buf\\capture.log");
    let source = recording_source(&config, &vec![display(800, 600)]).unwrap();
    assert_eq!(source.monitor.width, 800);
    assert_eq!(source.endpoint, Some("speakers".to_owned()));
    assert_eq!(
        recording_source(&config, &vec![]).unwrap_err().message(),
        "media operation failed: Windows did not report an available display"
    );
}
