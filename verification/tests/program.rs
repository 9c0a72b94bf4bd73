use xyra::capture::CaptureError;
use xyra::config::{AppConfig, ClipHotkey, EncoderBackend, HotkeyModifier, VideoAspectRatio};
use xyra::ffmpeg::{
    FfmpegInstaller, InstallState, install_directory, install_result, removes_broken,
};
use xyra::hotkeys::{HotkeyRefresh, KEYS, add_hotkey, is_warning, native_hotkey, shortcut_text};
use xyra::library::{
    ClipFile, clips_from, duration_fields, duration_text, is_video, probe_args, probed_fields,
    scan_clips,
};
use xyra::model::{Clip, PublishJob, PublishStatus};
use xyra::paths::{
    HostSystem, extended, extension_of, joined, name_of, same_path, sibling, stem_of,
};
use xyra::player::{
    AudioOutcome, FRAME_BYTES, FrameRead, FrameStep, PREVIEW_HEIGHT, PREVIEW_WIDTH, PlayerEvent,
    VideoPlayer, after_read, audio_args, decoded_audio, decoder_args, frame_position, reads_on,
};
use xyra::services::clock::Timestamp;
use xyra::session::{
    AutoSave, InstallFollowUp, SaveStep, Selection, auto_save_status, confirmed_settings,
    export_path, hides_on_close, initial_status, install_follow_up, is_installing, managed_button,
    restarts_installer, saved_status, settings_status, starts_hidden, toggle_status, visible_clips,
};
use xyra::startup::{registration_result, startup_command, unsupported_registration};
use xyra::system_tray::{
    TrayAction, TrayState, menu_action, opens_window, tray_icon_rgba,
};
use xyra::text;
use xyra::views::{
    ClipCardAction, Page, Tone, can_toggle, card_action, card_date, card_status, displays_text,
    empty_library, engine_badge, export_status, ffmpeg_status, format_time, history_text, job_line,
    length_text, publish_selection, quality_summary, repaint_millis, tenths_text,
    warns_of_slow_mode,
};

#[test]
fn startup_command_quotes_paths_and_marks_the_launch() {
    assert_eq!(
        startup_command(r"C:\Program Files\Xyra\xyra.exe"),
        r#""C:\Program Files\Xyra\xyra.exe" --autostart"#
    );
}

#[test]
fn registrations() {
    assert_eq!(registration_result(true, 0), Ok(()));
    assert_eq!(registration_result(false, 2), Ok(()));
    assert_eq!(registration_result(true, 2), Err(2));
    assert_eq!(registration_result(false, 5), Err(5));
    assert!(unsupported_registration(false).is_ok());
    assert_eq!(
        unsupported_registration(true).unwrap_err(),
        "automatic startup is currently supported on Windows"
    );
    let args = vec!["xyra".to_owned(), "--autostart".to_owned()];
    assert!(starts_hidden(&args, Some(true)));
    assert!(!starts_hidden(&args, Some(false)));
    assert!(!starts_hidden(&args, None));
    assert!(!starts_hidden(&vec!["--autostart2".to_owned()], Some(true)));
}

#[test]
fn progress_label_has_percentage() {
    let state = InstallState::Downloading {
        downloaded: 25,
        total: 100,
    };
    assert_eq!(state.label(), "Downloading FFmpeg 25%");
    assert_eq!(
        state.progress().map(|(part, whole)| part as f32 / whole as f32),
        Some(0.25)
    );
}

#[test]
fn installation_states() {
    let downloading = |downloaded: u64, total: u64| InstallState::Downloading { downloaded, total };
    assert_eq!(downloading(1, 0).label(), "Downloading FFmpeg...");
    assert_eq!(downloading(1, 0).progress(), None);
    assert_eq!(downloading(9, 3).progress(), Some((3, 3)));
    assert_eq!(
        downloading(18446744073709551615, 18446744073709551615).label(),
        "Downloading FFmpeg 1%"
    );
    assert_eq!(InstallState::Starting.progress(), Some((0, 1)));
    assert_eq!(InstallState::Unpacking.progress(), Some((1, 1)));
    assert_eq!(InstallState::Unpacking.label(), "Installing FFmpeg...");
    assert_eq!(InstallState::NotManaged.label(), "Custom FFmpeg path");
    assert_eq!(
        InstallState::Failed("x".to_owned()).label(),
        "FFmpeg setup failed"
    );

    let mut installer = FfmpegInstaller::new("f".to_owned(), false, true);
    assert!(matches!(installer.state(), InstallState::Starting));
    assert!(!installer.poll(vec![], false));
    assert!(installer.poll(vec![downloading(1, 2), InstallState::Unpacking], false));
    assert!(matches!(installer.state(), InstallState::Unpacking));
    assert!(installer.poll(vec![InstallState::Ready], true));
    assert!(!installer.poll(vec![InstallState::Starting], false));
    assert!(matches!(installer.state(), InstallState::Ready));
    assert_eq!(installer.destination(), "f");
    assert!(matches!(
        FfmpegInstaller::new("f".to_owned(), true, true).state(),
        InstallState::Ready
    ));
    assert!(matches!(
        FfmpegInstaller::new("f".to_owned(), false, false).state(),
        InstallState::NotManaged
    ));
    assert_eq!(
        install_directory(None).unwrap_err(),
        "managed FFmpeg path has no parent directory"
    );
    assert!(removes_broken(true, false) && !removes_broken(true, true));
    assert!(matches!(install_result(true), InstallState::Ready));
    assert!(matches!(install_result(false), InstallState::Failed(_)));
}

#[test]
fn loading_resets_timeline() {
    let mut player = VideoPlayer::default();
    player.load("clip.mp4".into(), 30_000);
    assert_eq!(player.position_millis() as f32 / 1000.0, 0.0);
    assert_eq!(player.duration_millis() as f32 / 1000.0, 30.0);
    assert!(!player.is_playing());
}

#[test]
fn playing_and_seeking() {
    let mut player = VideoPlayer::default();
    assert!(player.play().is_none());
    assert!(player.request_preview().is_none());
    player.load("clip.mp4".to_owned(), 30_000);
    let preview = player.request_preview().unwrap();
    assert!(preview.single_frame);
    assert!(!player.is_playing());
    assert!(!player.play().unwrap().single_frame);
    assert!(player.is_playing());
    let moved = player.seek(99_999).unwrap();
    assert_eq!((moved.start_millis, moved.single_frame), (30_000, false));
    player.pause();
    assert!(player.seek(5_000).unwrap().single_frame);
    assert!(!player.receive(PlayerEvent::Frame {
        position_millis: 40_000
    }));
    assert_eq!(player.position_millis(), 30_000);
    assert_eq!(player.play().unwrap().start_millis, 0);
    assert!(player.receive(PlayerEvent::Failed("broken".to_owned())));
    assert_eq!(player.error(), Some("broken"));
    assert!(!player.is_playing());
    player.play();
    assert_eq!(player.error(), None);
    player.install_audio(Err("no sound".to_owned()));
    assert_eq!(player.error(), Some("no sound"));
    assert!(player.is_playing());
    player.install_audio(Ok(()));
    assert!(player.receive(PlayerEvent::Ended));
    assert!(!player.is_playing());
}

#[test]
fn decoding() {
    assert_eq!(FRAME_BYTES, PREVIEW_WIDTH * PREVIEW_HEIGHT * 4);
    let mut player = VideoPlayer::default();
    player.load("c.mp4".to_owned(), 9_000);
    let still = player.seek(1_250).unwrap();
    assert_eq!(
        decoder_args(&still).join(" "),
        "-hide_banner -loglevel error -ss 1.250 -i c.mp4 -an -vf fps=60,scale=960:540:force_original_aspect_ratio=decrease,pad=960:540:(ow-iw)/2:(oh-ih)/2:black -pix_fmt rgba -f rawvideo pipe:1"
    );
    assert!(decoder_args(&player.play().unwrap()).contains(&"-re".to_owned()));
    assert_eq!(
        audio_args("c.mp4", 20).join(" "),
        "-hide_banner -loglevel error -ss 0.020 -i c.mp4 -map 0:a:0? -vn -ac 2 -ar 48000 -f f32le pipe:1"
    );
    assert_eq!(frame_position(1_000, 0), 1_000);
    assert_eq!(frame_position(1_000, 1), 1_017);
    assert_eq!(frame_position(1_000, 2), 1_033);
    assert_eq!(frame_position(1_000, 60), 2_000);
    assert_eq!(
        frame_position(18446744073709551615, 18446744073709551615),
        18446744073709551615
    );
    let finished = |success: bool, decoded_bytes: usize| {
        decoded_audio(AudioOutcome::Finished {
            success,
            stderr: b"x\nlast".to_vec(),
            decoded_bytes,
        })
    };
    assert!(finished(true, 4).is_ok());
    assert_eq!(finished(true, 3).unwrap_err(), "This clip has no audio track");
    assert_eq!(
        finished(false, 4).unwrap_err(),
        "Could not decode clip audio: last"
    );
    assert_eq!(
        decoded_audio(AudioOutcome::NotStarted("e".to_owned())).unwrap_err(),
        "Could not start FFmpeg audio decoder: e"
    );
    assert!(matches!(after_read(FrameRead::Whole), FrameStep::Deliver));
    assert!(matches!(after_read(FrameRead::EndOfVideo), FrameStep::Finish));
    assert!(matches!(
        after_read(FrameRead::Failed("e".to_owned())),
        FrameStep::Report(_)
    ));
    assert!(reads_on(false, false) && !reads_on(true, false) && !reads_on(false, true));
}

#[test]
fn shortcuts_are_read() {
    let key = |name: &str, modifier: HotkeyModifier| ClipHotkey::new(name, modifier, 30);
    let plain = native_hotkey(&key("F8", HotkeyModifier::Plain)).unwrap();
    let control = native_hotkey(&key("F8", HotkeyModifier::Control)).unwrap();
    let other = native_hotkey(&key("F9", HotkeyModifier::Plain)).unwrap();
    assert_ne!(plain, control);
    assert_ne!(plain, other);
    assert_eq!(plain, native_hotkey(&key("F8", HotkeyModifier::Plain)).unwrap());
    assert_eq!(shortcut_text(&key("F8", HotkeyModifier::Alt)), "Alt+F8");
    assert!(
        native_hotkey(&key("Nonsense", HotkeyModifier::Shift))
            .unwrap_err()
            .starts_with("Invalid hotkey Shift+Nonsense: ")
    );
    let home = ClipHotkey::new("Home", HotkeyModifier::Plain, 5);
    assert_eq!(
        native_hotkey(&home).unwrap(),
        "Home".parse::<global_hotkey::hotkey::HotKey>().unwrap().id()
    );
}

#[test]
fn shortcuts_are_registered_once() {
    let mut refresh = HotkeyRefresh::new();
    assert_eq!(refresh.status(), "0 global clip hotkeys active");
    let mut hotkey = ClipHotkey::new("F8", HotkeyModifier::Plain, 3);
    assert_eq!(refresh.consider(&hotkey, Ok(7)), Some(7));
    refresh.registered(&hotkey, 7, Ok(()));
    assert_eq!(refresh.status(), "1 global clip hotkey active");
    assert_eq!(refresh.pressed(7), Some(5));
    assert_eq!(refresh.pressed(8), None);
    assert_eq!(refresh.consider(&hotkey, Ok(7)), None);
    assert_eq!(
        refresh.status(),
        "F8 saves the previous 3 sec is assigned more than once"
    );
    assert!(is_warning(&refresh.status()));
    refresh.registered(&hotkey, 9, Err("busy".to_owned()));
    assert_eq!(refresh.consider(&hotkey, Err("bad".to_owned())), None);
    assert_eq!(
        refresh.status(),
        "F8 saves the previous 3 sec is assigned more than once  F8 saves the previous 3 sec could not be registered: busy  bad"
    );
    hotkey.enabled = false;
    assert_eq!(refresh.consider(&hotkey, Ok(11)), None);
    assert_eq!(refresh.failures.len(), 3);
    assert!(!is_warning("1 global clip hotkey active"));
}

#[test]
fn added_shortcuts_use_free_keys() {
    let mut hotkeys = AppConfig::default().clip_hotkeys;
    add_hotkey(&mut hotkeys, 15);
    assert_eq!(hotkeys[3].key, "F5");
    hotkeys[3].modifier = HotkeyModifier::Control;
    add_hotkey(&mut hotkeys, 15);
    assert_eq!(hotkeys[4].key, "F5");
    while hotkeys.len() < 8 {
        add_hotkey(&mut hotkeys, 15);
    }
    add_hotkey(&mut hotkeys, 15);
    assert_eq!(hotkeys.len(), 8);
    assert_eq!(hotkeys[7].key, "F11");
    assert_eq!(KEYS[7], "F12");
}

fn stamp(seconds: i64) -> Option<Timestamp> {
    Some(Timestamp { seconds, nanos: 0 })
}

fn found(path: &str, created: Option<Timestamp>, modified: Option<Timestamp>) -> ClipFile {
    ClipFile {
        path: path.to_owned(),
        created,
        modified,
        duration_millis: None,
        name_is_text: true,
    }
}

#[test]
fn clips_are_listed_newest_first() {
    let files = vec![
        found("clips/old.mp4", stamp(10), stamp(99)),
        found("clips/new.one.MKV", None, stamp(50)),
        found("clips/unknown.webm", None, None),
        found("clips/same.mp4", stamp(10), None),
    ];
    let now = Timestamp {
        seconds: 20,
        nanos: 5,
    };
    let clips = clips_from(HostSystem::Other, &files, now);
    let titles: Vec<&str> = clips.iter().map(|clip| clip.title.as_str()).collect();
    assert_eq!(titles, ["new.one", "unknown", "old", "same"]);
    assert_eq!(clips[1].created_at, now);
    assert_eq!(clips[0].duration_millis, 0);
    assert_eq!(scan_clips(HostSystem::Other, &files)[0].title, "unknown");
    let nameless = ClipFile {
        name_is_text: false,
        ..found("clips/\u{fffd}.mp4", None, None)
    };
    assert_eq!(
        clips_from(HostSystem::Other, &vec![nameless], now)[0].title,
        "Untitled clip"
    );
    assert!(is_video(HostSystem::Other, "a/b.WebM"));
    assert!(!is_video(HostSystem::Other, "a/mp4"));
    assert!(!is_video(HostSystem::Other, "a/.mp4"));
    assert!(!is_video(HostSystem::Other, "a/b.txt"));
}

#[test]
fn durations_are_found() {
    let output = "x\n  Duration: 00:01:30.50, start: 0.0, Duration: 9";
    assert_eq!(duration_text(output), Some("00:01:30.50".to_owned()));
    assert_eq!(duration_text("Duration: N/A"), Some("N/A".to_owned()));
    assert_eq!(duration_text("none"), None);
    let fields = |a: &str, b: &str, c: &str| Some((a.to_owned(), b.to_owned(), c.to_owned()));
    assert_eq!(duration_fields(" 00:01:30.50\n"), fields("00", "01", "30.50"));
    assert_eq!(duration_fields("1:2"), None);
    assert_eq!(duration_fields("1:2:3:4"), None);
    assert_eq!(
        probed_fields(b"\xffDuration: 1:02:03.4, b"),
        fields("1", "02", "03.4")
    );
    assert_eq!(probed_fields(b"nothing"), None);
    assert_eq!(probe_args("v").join(" "), "-hide_banner -i v");
}

#[test]
fn paths_as_text() {
    let (windows, other) = (HostSystem::Windows, HostSystem::Other);
    assert_eq!(HostSystem::from_backslash(true), windows);
    assert_eq!(HostSystem::from_backslash(false), other);
    assert_eq!(
        HostSystem::current(),
        HostSystem::from_backslash(std::path::is_separator('\\'))
    );
    assert_eq!(joined(other, "a/", "b"), "a/b");
    assert_eq!(joined(windows, "C:\\a", "b"), "C:\\a\\b");
    assert_eq!(name_of(other, "a/b.mp4/"), Some("b.mp4".to_owned()));
    assert_eq!(name_of(windows, "a\\b.mp4"), Some("b.mp4".to_owned()));
    assert_eq!(name_of(other, "a/.."), None);
    assert_eq!(extension_of("b.tar.gz"), Some("gz".to_owned()));
    assert_eq!(extension_of(".hidden"), None);
    assert_eq!(stem_of("b.tar.gz"), "b.tar");
    assert_eq!(extended(other, "a/b.mp4", "concat.txt"), "a/b.concat.txt");
    assert_eq!(sibling(other, "a/b.mp4", "c.mkv"), "a/c.mkv");
    assert!(same_path(other, "a//b/./c", "a/b/c"));
    assert!(!same_path(other, "/a", "a"));
    assert_eq!(export_path(other, "c/clip.mp4"), "c/clip-edited.mp4");
    assert_eq!(export_path(windows, "C:\\c\\clip.mkv"), "C:\\c\\clip-edited.mp4");
}

#[test]
fn paths_follow_the_rules_of_the_system() {
    let paths = [
        "", ".", "..", "/", "//", "a", "a/", "a/b", "a//b", "a/./b", "a/b/.", "a/b/..", "./b",
        "/b", "//b", "/.", "/./b", "a/b//", ".b", "a/.b", "b.c", "a/b.c/", "a./b", "...",
    ];
    let host = HostSystem::Other;
    for path in paths {
        let known = std::path::Path::new(path);
        assert_eq!(
            name_of(host, path).as_deref(),
            known.file_name().and_then(|name| name.to_str()),
            "{path}"
        );
        assert_eq!(
            sibling(host, path, "n"),
            known.with_file_name("n").to_str().unwrap(),
            "{path}"
        );
        assert_eq!(joined(host, path, "n"), known.join("n").to_str().unwrap(), "{path}");
        assert_eq!(
            extended(host, path, "x"),
            known.with_extension("x").to_str().unwrap(),
            "{path}"
        );
        for other in paths {
            assert_eq!(
                same_path(host, path, other),
                known == std::path::Path::new(other),
                "{path} {other}"
            );
        }
    }
}

#[test]
fn volumes_of_windows_paths() {
    let windows = HostSystem::Windows;
    assert_eq!(sibling(windows, "a/b", "n"), "a\\n");
    assert_eq!(sibling(windows, "a\\\\b", "n"), "a\\n");
    assert_eq!(sibling(windows, "C:b", "n"), "C:n");
    assert_eq!(sibling(windows, "C:\\b", "n"), "C:\\n");
    assert_eq!(sibling(windows, "C:", "n"), "C:n");
    assert_eq!(extended(windows, "a/b.mp4", "x"), "a/b.x");
    assert_eq!(name_of(windows, "C:"), None);
    assert_eq!(name_of(windows, r"\\s\h"), None);
    assert_eq!(name_of(windows, r"\\s\h\"), None);
    assert_eq!(name_of(windows, r"\\s\h\a"), Some("a".to_owned()));
    assert_eq!(name_of(windows, "//s/h/a"), Some("a".to_owned()));
    assert_eq!(name_of(windows, r"\\s"), Some("s".to_owned()));
    assert_eq!(name_of(windows, r"\\.\COM1"), None);
    assert_eq!(name_of(windows, r"\\?\C:\a/b"), Some("a/b".to_owned()));
    assert_eq!(name_of(windows, r"\\?\UNC\s\h"), None);
    assert_eq!(name_of(windows, r"\\?\UNC\s\h\a"), Some("a".to_owned()));
    assert_eq!(sibling(windows, r"\\s\h\a", "n"), r"\\s\h\n");
    assert_eq!(joined(windows, r"\\s\h", "n"), r"\\s\h\n");
    assert_eq!(sibling(windows, r"\\?\C:\a", "n"), r"\\?\C:\n");
    assert!(same_path(windows, r"c:\a", "C:/a"));
    assert!(same_path(windows, r"\\s\h", "//s/h/"));
    assert!(same_path(windows, r"\\?\c:\a", r"\\?\C:\a"));
    assert!(!same_path(windows, r"\\s\h", r"\s\h"));
    assert!(!same_path(windows, "C:a", r"C:\a"));
    assert!(!same_path(windows, r"\\?\C:\a", r"C:\a"));
    assert!(name_of(HostSystem::Other, r"\\s\h").is_some());
}

#[test]
fn clips_bear_drawn_identifiers() {
    let clip = Clip::new("c.mp4".to_owned(), 1);
    assert_eq!((clip.id >> 76) & 0xf, 4);
    assert_eq!((clip.id >> 62) & 3, 2);
    assert!(clip.created_at.seconds > 0);
}

#[test]
fn texts() {
    assert_eq!(text::signed_text(-2147483648), "-2147483648");
    assert_eq!(text::decimal_text(18446744073709551615), "18446744073709551615");
    assert_eq!(text::trimmed("\u{2003} a b\u{85}\n"), "a b");
    assert_eq!(text::pieces("a::b", ':'), ["a", "", "b"]);
    assert_eq!(text::lines_of("a\r\n\nb\r"), ["a", "", "b\r"]);
    assert_eq!(text::word_two(" a\tb c"), Some("b".to_owned()));
    assert_eq!(text::word_two("a "), None);
    assert_eq!(text::removed("xaaay", "aa"), "xay");
    assert_eq!(text::before("a,b", ","), "a");
}

#[test]
fn saving_waits_for_a_rest() {
    let mut saving = AutoSave::new("a".to_owned());
    assert_eq!(saving.poll("a", 1000), SaveStep::Nothing);
    assert_eq!(saving.poll("b", 1000), SaveStep::Wait(350));
    assert_eq!(saving.poll("c", 1349), SaveStep::Wait(1));
    assert_eq!(saving.poll("c", 1350), SaveStep::Save);
    saving.finished("c".to_owned(), 1350, false);
    assert_eq!(saving.poll("c", 1351), SaveStep::Wait(1999));
    assert_eq!(saving.poll("c", 3350), SaveStep::Save);
    saving.finished("c".to_owned(), 3350, true);
    assert_eq!(saving.poll("c", 3351), SaveStep::Nothing);
    assert_eq!(saving.poll("d", 4000), SaveStep::Wait(350));
    assert_eq!(saving.poll("c", 9000), SaveStep::Nothing);
    assert_eq!(saving.due, None);
    assert_eq!(auto_save_status(&Ok(()), &Ok(())), None);
    assert_eq!(
        auto_save_status(&Ok(()), &Err("e".to_owned())),
        Some("Settings saved, but Windows startup failed: e".to_owned())
    );
    assert_eq!(
        auto_save_status(&Err("e".to_owned()), &Ok(())),
        Some("Could not auto-save settings: e".to_owned())
    );
}

#[test]
fn statuses() {
    let ready = InstallState::Ready;
    assert_eq!(initial_status(true, &ready, None, None, false), "Ready to capture");
    assert_eq!(initial_status(false, &InstallState::Starting, None, None, false), "Preparing FFmpeg...");
    assert_eq!(
        initial_status(true, &ready, Some("e".to_owned()), None, false),
        "Could not update Windows startup: e"
    );
    assert_eq!(
        initial_status(true, &ready, Some("e".to_owned()), None, true),
        "Xyra started in the system tray"
    );
    assert_eq!(
        initial_status(true, &ready, None, Some("e".to_owned()), true),
        "System tray is unavailable: e"
    );
    assert_eq!(toggle_status(true, Ok(())), "Replay buffer stopped");
    assert_eq!(toggle_status(false, Ok(())), "Replay buffer is recording");
    assert_eq!(
        toggle_status(false, Err(CaptureError::NotRunning)),
        "replay buffer is not running"
    );
    let clip = Clip::new("c.mp4".to_owned(), 29_500);
    assert_eq!(
        saved_status(&Ok(clip)),
        "Saved the previous 30 sec to c.mp4"
    );
    assert!(hides_on_close(true, true, true, false));
    assert!(!hides_on_close(true, true, true, true));
    assert!(!hides_on_close(true, true, false, false));
    let follow_up = install_follow_up(&InstallState::Failed("e".to_owned()));
    assert_eq!(follow_up.0, InstallFollowUp::MarkMissing);
    assert_eq!(follow_up.1, "FFmpeg setup failed: e");
    assert_eq!(install_follow_up(&ready).0, InstallFollowUp::UseInstalled);
    assert_eq!(
        settings_status(Ok(()), Ok(()), true, &ready),
        "Settings saved. FFmpeg is ready."
    );
    assert_eq!(
        settings_status(Ok(()), Ok(()), false, &InstallState::NotManaged),
        "Custom FFmpeg path"
    );
    assert_eq!(settings_status(Err("e".to_owned()), Ok(()), true, &ready), "e");
}

#[test]
fn settings_are_confirmed() {
    let config = AppConfig {
        output_width: 641,
        output_height: 1,
        ..AppConfig::default()
    };
    let confirmed = confirmed_settings(config, " /opt/ff ");
    assert_eq!(confirmed.ffmpeg_path, "/opt/ff");
    assert_eq!((confirmed.output_width, confirmed.output_height), (640, 360));
    let host = HostSystem::Other;
    let busy = InstallState::Unpacking;
    assert!(is_installing(&busy));
    assert!(!restarts_installer(host, "a/b", "a//b", &busy));
    assert!(restarts_installer(host, "a/b", "a/c", &busy));
    assert!(restarts_installer(host, "a/b", "a/b", &InstallState::Ready));
    assert_eq!(managed_button(host, "m", "m", &InstallState::Ready), None);
    assert_eq!(
        managed_button(host, "m", "m", &InstallState::Failed("e".to_owned())),
        Some(("Retry bundled FFmpeg", true))
    );
    assert_eq!(
        managed_button(host, "x", "m", &busy),
        Some(("Use bundled FFmpeg", false))
    );
}

#[test]
fn clips_are_found_and_opened() {
    let mut clips = vec![
        Clip::new("a.mp4".to_owned(), 1000),
        Clip::new("b.mp4".to_owned(), 2000),
    ];
    clips[0].title = "Épic WIN".to_owned();
    clips[1].title = "fail".to_owned();
    assert_eq!(visible_clips(&clips, "éPIC w"), [0]);
    assert_eq!(visible_clips(&clips, ""), [0, 1]);
    assert!(visible_clips(&clips, "zzz").is_empty());
    let mut selection = Selection::new();
    assert!(selection.clip(&clips).is_none());
    assert!(selection.select(&clips, 1));
    assert_eq!(selection.clip(&clips).unwrap().title, "fail");
    assert_eq!(selection.project.unwrap().trim_end_millis, 2000);
    assert!(!selection.select(&clips, 7));
    assert!(selection.clip(&clips).is_none());
    assert_eq!(selection.project.unwrap().trim_end_millis, 2000);
}

#[test]
fn tray_menu() {
    assert_eq!(menu_action("xyra.tray.open"), Some(TrayAction::Show));
    assert_eq!(
        menu_action("xyra.tray.capture"),
        Some(TrayAction::ToggleReplayBuffer)
    );
    assert_eq!(menu_action("xyra.tray.save"), Some(TrayAction::SaveClip));
    assert_eq!(menu_action("xyra.tray.quit"), Some(TrayAction::Quit));
    assert_eq!(menu_action("other"), None);
    assert!(opens_window(true, false, true) && !opens_window(true, false, false));
    let mut state = TrayState::new();
    let texts = state.update(false, 0).unwrap();
    assert_eq!(texts.save, "Save last 5 seconds");
    assert_eq!(texts.tooltip, "Xyra — Replay buffer stopped");
    assert!(state.update(false, 0).is_none());
    let running = state.update(true, 30).unwrap();
    assert_eq!(running.status, "Replay buffer: Recording");
    assert_eq!(running.capture, "Stop replay buffer");
    assert!(running.save_enabled);
    let icon = tray_icon_rgba();
    assert_eq!(icon.len(), 4096);
    assert_eq!(&icon[..4], &[0, 0, 0, 0]);
    let at = |x: usize, y: usize| icon[(y * 32 + x) * 4];
    assert_eq!(at(16, 16), 245);
    assert_eq!(at(16, 4), 112);
    assert_eq!(at(1, 16), 112);
    assert_eq!(at(0, 16), 0);
}

#[test]
fn page_texts() {
    assert_eq!(Page::Editor.title(), "Editor");
    assert_eq!(
        ffmpeg_status(&InstallState::Ready, false),
        ("Setup required".to_owned(), Tone::Warning)
    );
    assert_eq!(
        ffmpeg_status(&InstallState::Starting, false),
        ("Preparing FFmpeg...".to_owned(), Tone::Working)
    );
    assert_eq!(
        ffmpeg_status(&InstallState::Failed("e".to_owned()), false),
        ("Setup failed".to_owned(), Tone::Danger)
    );
    assert_eq!(
        engine_badge(true, &InstallState::Ready, true),
        ("Recording".to_owned(), Tone::Danger)
    );
    assert_eq!(
        engine_badge(false, &InstallState::Ready, true),
        ("Ready".to_owned(), Tone::Success)
    );
    assert!(can_toggle(false, true) && !can_toggle(false, false));
    assert_eq!(format_time(59_499), "0:59");
    assert_eq!(format_time(59_500), "1:00");
    assert_eq!(format_time(3_605_000), "60:05");
    assert_eq!(length_text(2_500), "2s");
    assert_eq!(length_text(3_500), "4s");
    assert_eq!(tenths_text(1_260), "1.3s");
    assert_eq!(tenths_text(1_250), "1.2s");
    assert_eq!(repaint_millis(true), 16);
    assert_eq!(displays_text(1), "Only the selected display is recorded · 1 display detected");
    assert_eq!(
        history_text(&AppConfig::default()),
        "Replay history retained: 120 sec. Restart a running replay buffer after increasing this value."
    );
    assert_eq!(
        quality_summary(&AppConfig::default()),
        "1920×1080 · 60 FPS · 12 Mbps   —   Hardware encoding requires a compatible GPU and driver"
    );
    let intel = AppConfig {
        encoder: EncoderBackend::Intel,
        video_aspect_ratio: VideoAspectRatio::Game,
        ..AppConfig::default()
    };
    assert!(warns_of_slow_mode(&intel));
    assert!(!warns_of_slow_mode(&AppConfig::default()));
}

#[test]
fn cards() {
    let mut clip = Clip::new("c.mp4".to_owned(), 1000);
    clip.created_at = Timestamp {
        seconds: 1_700_000_000,
        nanos: 0,
    };
    assert_eq!(card_date(&clip), "Nov 14, 22:13");
    clip.created_at.seconds = 9_223_372_036_854_775_807;
    assert_eq!(card_date(&clip), "");
    assert_eq!(card_action(true, true, true), Some(ClipCardAction::RevealInExplorer));
    assert_eq!(card_action(false, true, true), Some(ClipCardAction::Play));
    assert_eq!(card_action(false, false, true), Some(ClipCardAction::OpenEditor));
    assert_eq!(card_action(false, false, false), None);
    assert_eq!(card_status(ClipCardAction::Play, "t", Ok(())), "Playing t");
    assert_eq!(
        card_status(ClipCardAction::Play, "t", Err("e".to_owned())),
        "Could not play clip: e"
    );
    assert_eq!(
        card_status(ClipCardAction::OpenEditor, "t", Ok(())),
        "Opened t in the editor"
    );
    assert_eq!(
        card_status(ClipCardAction::RevealInExplorer, "t", Ok(())),
        "Showing t in File Explorer"
    );
    assert_eq!(empty_library(false).0, "Your best moments will show up here");
    assert_eq!(empty_library(true).1, "Try a different search.");
    assert_eq!(export_status("o.mp4", Ok(())), "Exported o.mp4");
    assert_eq!(publish_selection(None), "Choose a clip from Library");
    let job = |status: PublishStatus| PublishJob {
        id: 1,
        clip_id: 2,
        clip_path: "c".to_owned(),
        title: "t".to_owned(),
        description: String::new(),
        targets: vec![],
        created_at: clip.created_at,
        status,
    };
    assert_eq!(job_line(&job(PublishStatus::Queued)), "t  -  queued");
    assert_eq!(
        job_line(&job(PublishStatus::Failed("e".to_owned()))),
        "t  -  failed: e"
    );
}
