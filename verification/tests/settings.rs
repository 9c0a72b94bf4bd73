use xyra::config::{
    AppConfig, CaptureEngine, CaptureQuality, ClipHotkey, ConfigError, EncoderBackend,
    HotkeyModifier, LONGEST_CLIP_SECONDS, SHORTEST_CLIP_SECONDS, VideoAspectRatio, VideoCodec,
    config_path, config_path_in, data_directory, managed_ffmpeg_path, managed_ffmpeg_path_from,
};
use xyra::model::{Platform, Visibility};
use xyra::paths::HostSystem;

#[test]
fn quality_presets_update_all_capture_values() {
    let mut config = AppConfig::default();
    config.apply_quality(CaptureQuality::Low);
    assert_eq!((config.output_width, config.output_height), (1280, 720));
    assert_eq!(config.frame_rate, 30);
    assert_eq!(config.video_bitrate_mbps, 5);

    config.apply_quality(CaptureQuality::Standard);
    assert_eq!((config.output_width, config.output_height), (1920, 1080));
    assert_eq!(config.frame_rate, 60);
    assert_eq!(config.video_bitrate_mbps, 12);
}

#[test]
fn longest_enabled_hotkey_controls_buffer_length() {
    let mut config = AppConfig {
        clip_seconds: 30,
        ..AppConfig::default()
    };
    config.clip_hotkeys[2].clip_seconds = 180;
    assert_eq!(config.max_buffer_seconds(), 180);
    config.clip_hotkeys[2].enabled = false;
    assert_eq!(config.max_buffer_seconds(), 60);
}

#[test]
fn the_buffer_is_never_shorter_than_five_seconds() {
    let config = AppConfig {
        clip_seconds: 1,
        clip_hotkeys: vec![],
        ..AppConfig::default()
    };
    assert_eq!(config.max_buffer_seconds(), 5);
}

#[test]
fn presets_overwrite_each_other() {
    let mut config = AppConfig::default();
    config.apply_quality(CaptureQuality::High);
    assert_eq!(config.video_bitrate_mbps, 24);
    config.output_width = 800;
    config.apply_quality(CaptureQuality::Custom);
    assert_eq!(config.quality, CaptureQuality::Custom);
    assert_eq!(config.output_width, 800);
    config.apply_quality(CaptureQuality::Low);
    assert_eq!(config.output_width, 1280);
}

#[test]
fn new_installations() {
    let config = AppConfig::new_in(HostSystem::Windows, "C:\\data");
    assert_eq!(config.ffmpeg_path, "C:\\data\\runtime\\ffmpeg.exe");
    assert_eq!(config.clips_directory, "C:\\data\\clips");
    assert_eq!(config.buffer_directory, "C:\\data\\buffer");
    assert_eq!(config.config_version, 3);
    assert!(!config.auto_queue_after_clip);
    assert!(config.publish_targets.iter().all(|target| !target.enabled));
    let keys: Vec<String> = config.clip_hotkeys.iter().map(|key| key.label()).collect();
    assert_eq!(
        keys,
        [
            "F8 saves the previous 30 sec",
            "F7 saves the previous 60 sec",
            "F6 saves the previous 120 sec",
        ]
    );
    assert_eq!(
        ClipHotkey::new("F5", HotkeyModifier::Control, 15).label(),
        "Ctrl + F5 saves the previous 15 sec"
    );
}

#[test]
fn directories_come_from_the_system() {
    assert_eq!(data_directory(None), ".xyra");
    assert_eq!(data_directory(Some("d".to_owned())), "d");
    assert_eq!(
        managed_ffmpeg_path_from(HostSystem::Other, "base"),
        "base/runtime/ffmpeg"
    );
    assert!(managed_ffmpeg_path(HostSystem::Other).ends_with("/runtime/ffmpeg"));
    assert_eq!(
        config_path_in(HostSystem::Other, Some("c".to_owned())).unwrap(),
        "c/config.json"
    );
    assert_eq!(
        config_path_in(HostSystem::Other, None).unwrap_err().message(),
        "could not determine an application data directory"
    );
    match config_path(HostSystem::Other) {
        Ok(path) => assert!(path.ends_with("/config.json")),
        Err(error) => assert!(matches!(error, ConfigError::NoDataDirectory)),
    }
}

fn old_settings() -> AppConfig {
    AppConfig {
        config_version: 1,
        encoder: EncoderBackend::Software,
        capture_engine: CaptureEngine::Ffmpeg,
        ffmpeg_path: "ffmpeg.exe".to_owned(),
        frame_rate: 500,
        video_bitrate_mbps: 1,
        segment_seconds: 0,
        ..AppConfig::default()
    }
}

#[test]
fn unversioned_settings_are_migrated() {
    let config = AppConfig::load(
        b"{\"encoder\": \"software\"}",
        Ok(old_settings()),
        HostSystem::Other,
        "managed",
    )
    .unwrap();
    assert_eq!(config.encoder, EncoderBackend::Auto);
    assert_eq!(config.capture_engine, CaptureEngine::Auto);
    assert_eq!(config.config_version, 3);
    assert_eq!(config.ffmpeg_path, "managed");
    assert_eq!(config.frame_rate, 120);
    assert_eq!(config.video_bitrate_mbps, 2);
    assert_eq!(config.segment_seconds, 1);
}

#[test]
fn versioned_settings_keep_their_choices() {
    let config = AppConfig::load(
        b"{\"config_version\": 3}",
        Ok(AppConfig {
            config_version: 3,
            ffmpeg_path: "/opt/ffmpeg".to_owned(),
            ..old_settings()
        }),
        HostSystem::Other,
        "managed",
    )
    .unwrap();
    assert_eq!(config.encoder, EncoderBackend::Software);
    assert_eq!(config.capture_engine, CaptureEngine::Ffmpeg);
    assert_eq!(config.ffmpeg_path, "/opt/ffmpeg");
    let again = config.migrate(true, HostSystem::Other, "managed");
    assert_eq!(again.frame_rate, 120);
    assert_eq!(again.ffmpeg_path, "/opt/ffmpeg");
}

#[test]
fn broken_settings_are_refused() {
    let broken = AppConfig::load(b"{", Ok(AppConfig::default()), HostSystem::Other, "m");
    assert!(matches!(broken, Err(ConfigError::Json(_))));
    assert!(
        broken
            .unwrap_err()
            .message()
            .starts_with("configuration is invalid: EOF while parsing")
    );
    let wrong = AppConfig::load(b"{}", Err("bad".to_owned()), HostSystem::Other, "m");
    assert_eq!(wrong.unwrap_err().message(), "configuration is invalid: bad");
    assert_eq!(
        ConfigError::Io("denied".to_owned()).message(),
        "could not read or write configuration: denied"
    );
}

#[test]
fn copies_hold_the_same_settings() {
    let config = AppConfig {
        capture_monitor: Some("m".to_owned()),
        ..AppConfig::default()
    };
    let copy = config.clone();
    assert_eq!(copy.capture_monitor, config.capture_monitor);
    assert_eq!(copy.clip_hotkeys[1].key, "F7");
    assert_eq!(copy.publish_targets, config.publish_targets);
    assert_eq!(copy.odysee_bid, "0.01");
}

#[test]
fn names_and_descriptions() {
    assert_eq!(CaptureEngine::Auto.label(), "Automatic (OBS preferred)");
    assert_eq!(
        CaptureEngine::Ffmpeg.description(),
        "Compatibility backend retained for troubleshooting."
    );
    assert_eq!(CaptureQuality::High.label(), "High quality");
    assert_eq!(
        CaptureQuality::Low.description(),
        "720p 30 FPS · 5 Mbps"
    );
    assert_eq!(EncoderBackend::Intel.label(), "Intel Quick Sync");
    assert_eq!(VideoCodec::H265.label(), "H.265 (smaller files)");
    assert_eq!(VideoAspectRatio::Game.label(), "Game Aspect Ratio");
    assert_eq!(
        VideoAspectRatio::Crop16By9.description(),
        "Fills a 16:9 frame and trims overflow from the center."
    );
    assert_eq!(HotkeyModifier::Plain.label(), "None");
    assert_eq!(CaptureEngine::ALL.len(), 3);
    assert_eq!(CaptureQuality::ALL.len(), 4);
    assert_eq!(EncoderBackend::ALL[1], EncoderBackend::Nvidia);
    assert_eq!(VideoCodec::ALL.len(), 2);
    assert_eq!(VideoAspectRatio::ALL.len(), 4);
    assert_eq!(HotkeyModifier::ALL.len(), 4);
    assert_eq!(Platform::ALL.len(), 2);
    assert_eq!(Platform::Odysee.label(), "Odysee");
    assert_eq!(Visibility::Unlisted.label(), "Unlisted");
    assert_eq!(Visibility::Private.youtube_value(), "private");
}

#[test]
fn current_settings_are_kept() {
    let config = AppConfig {
        ffmpeg_path: "tools/ffmpeg".to_owned(),
        encoder: EncoderBackend::Software,
        frame_rate: 24,
        video_bitrate_mbps: 100,
        segment_seconds: 10,
        ..AppConfig::default()
    };
    let kept = AppConfig::load(
        b"{\"config_version\":3}",
        Ok(config),
        HostSystem::Other,
        "managed",
    )
    .unwrap();
    assert_eq!(kept.ffmpeg_path, "tools/ffmpeg");
    assert_eq!(kept.encoder, EncoderBackend::Software);
    assert_eq!(
        (kept.frame_rate, kept.video_bitrate_mbps, kept.segment_seconds),
        (24, 100, 10)
    );
    assert_eq!(kept.config_version, 3);

    for host in [HostSystem::Windows, HostSystem::Other] {
        let managed = managed_ffmpeg_path_from(host, "");
        let old = AppConfig {
            ffmpeg_path: "ffmpeg".to_owned(),
            frame_rate: 1,
            ..AppConfig::default()
        };
        let once = AppConfig::load(b"{}", Ok(old), host, &managed).unwrap();
        assert_eq!(once.ffmpeg_path, managed);
        assert_eq!(once.frame_rate, 24);
        let twice =
            AppConfig::load(b"{\"config_version\":3}", Ok(once), host, "elsewhere").unwrap();
        assert_eq!(twice.ffmpeg_path, managed);
        assert_eq!(twice.frame_rate, 24);
    }
}

#[test]
fn buffer_stays_in_its_range() {
    let mut config = AppConfig::default();
    config.clip_seconds = LONGEST_CLIP_SECONDS;
    assert_eq!(config.max_buffer_seconds(), 300);
    config.clip_seconds = 1;
    config.clip_hotkeys.clear();
    assert_eq!(config.max_buffer_seconds(), SHORTEST_CLIP_SECONDS);
}
