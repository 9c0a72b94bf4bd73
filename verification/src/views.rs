//! What the pages show.

use vstd::prelude::*;
use vstd::string::*;

use crate::audio;
use crate::audio::AudioDevice;
use crate::capture::CaptureError;
use crate::capture_args;
use crate::config::{AppConfig, EncoderBackend, VideoAspectRatio};
use crate::ffmpeg::InstallState;
use crate::model::{Clip, PublishJob, PublishStatus};
use crate::services::clock;
use crate::text;

verus! {

/// The pages.
#[derive(Debug, Clone, Copy, PartialEq, Eq, Structural)]
pub enum Page {
    Library,
    Editor,
    Publish,
    Settings,
}

impl Page {
    /// The page's title.
    pub fn title(self) -> (r: &'static str)
        ensures
            r@ == match self {
                Page::Library => "Library"@,
                Page::Editor => "Editor"@,
                Page::Publish => "Publish"@,
                Page::Settings => "Settings"@,
            },
    {
        match self {
            Self::Library => "Library",
            Self::Editor => "Editor",
            Self::Publish => "Publish",
            Self::Settings => "Settings",
        }
    }
}

/// What a text is about, which decides its color.
#[derive(Debug, Clone, Copy, PartialEq, Eq, Structural)]
pub enum Tone {
    Success,
    Working,
    Warning,
    Danger,
}

/// The state of FFmpeg.
pub open spec fn ffmpeg_words(state: InstallState, ready: bool) -> Seq<char> {
    if ready {
        "Ready"@
    } else {
        match state {
            InstallState::Failed(_) => "Setup failed"@,
            InstallState::NotManaged => "Setup required"@,
            InstallState::Ready => "Setup required"@,
            _ => state.text(),
        }
    }
}

/// What the state of FFmpeg is about.
pub open spec fn ffmpeg_tone(state: InstallState, ready: bool) -> Tone {
    if ready {
        Tone::Success
    } else {
        match state {
            InstallState::Failed(_) => Tone::Danger,
            InstallState::NotManaged => Tone::Warning,
            InstallState::Ready => Tone::Warning,
            _ => Tone::Working,
        }
    }
}

/// The state of FFmpeg: whether it works counts for more than how it was installed.
pub fn ffmpeg_status(state: &InstallState, ready: bool) -> (r: (String, Tone))
    ensures
        r.0@ == ffmpeg_words(*state, ready),
        r.1 == ffmpeg_tone(*state, ready),
{
    if ready {
        return ("Ready".to_owned(), Tone::Success);
    }
    match state {
        InstallState::Failed(_) => ("Setup failed".to_owned(), Tone::Danger),
        InstallState::NotManaged => ("Setup required".to_owned(), Tone::Warning),
        InstallState::Ready => ("Setup required".to_owned(), Tone::Warning),
        _ => (state.label(), Tone::Working),
    }
}

/// The state of the recorder, or of FFmpeg where nothing records.
pub fn engine_badge(running: bool, state: &InstallState, ready: bool) -> (r: (String, Tone))
    ensures
        r.0@ == if running {
            "Recording"@
        } else {
            ffmpeg_words(*state, ready)
        },
        r.1 == if running {
            Tone::Danger
        } else {
            ffmpeg_tone(*state, ready)
        },
{
    if running {
        ("Recording".to_owned(), Tone::Danger)
    } else {
        ffmpeg_status(state, ready)
    }
}

/// Whether recording can be started or stopped: it can be stopped whatever happens.
pub fn can_toggle(ffmpeg_ready: bool, running: bool) -> (r: bool)
    ensures
        r == (ffmpeg_ready || running),
{
    ffmpeg_ready || running
}

/// A time as minutes and seconds, to the nearest second, halves up.
pub open spec fn clock_text(millis: nat) -> Seq<char> {
    let total = capture_args::nearest(millis as int, 1000) as nat;
    text::decimal(total / 60) + ":"@ + text::padded(total % 60, 2)
}

/// A time as minutes and seconds.
pub fn format_time(millis: u64) -> (r: String)
    ensures
        r@ == clock_text(millis as nat),
{
    let total: u64 = millis / 1000 + (if millis % 1000 >= 500 {
        1u64
    } else {
        0u64
    });
    let mut out = text::decimal_text(total / 60);
    out.append(":");
    text::push_padded(&mut out, total % 60, 2);
    out
}

/// The quotient of `n` and `d`, rounded to the nearest integer, halves to the even one.
pub open spec fn nearest_even(n: nat, d: nat) -> nat {
    let q = n / d;
    let rest = n % d;
    if 2 * rest > d || 2 * rest == d && q % 2 == 1 {
        q + 1
    } else {
        q
    }
}

/// A length in whole seconds, with its unit.
pub fn length_text(millis: u64) -> (r: String)
    ensures
        r@ == text::decimal(nearest_even(millis as nat, 1000)) + "s"@,
{
    let q: u64 = millis / 1000;
    let rest: u64 = millis % 1000;
    let mut out = text::decimal_text(
        if rest > 500 || rest == 500 && q % 2 == 1 {
            q + 1
        } else {
            q
        },
    );
    out.append("s");
    out
}

/// A time in seconds with one decimal, and its unit.
pub fn tenths_text(millis: u64) -> (r: String)
    ensures
        r@ == text::decimal(nearest_even(millis as nat, 100) / 10) + "."@ + text::decimal(
            nearest_even(millis as nat, 100) % 10,
        ) + "s"@,
{
    let q: u64 = millis / 100;
    let rest: u64 = millis % 100;
    let tenths: u64 = if rest > 50 || rest == 50 && q % 2 == 1 {
        q + 1
    } else {
        q
    };
    let mut out = text::decimal_text(tenths / 10);
    out.append(".");
    text::push_decimal(&mut out, tenths % 10);
    out.append("s");
    out
}

/// When a clip was made, on its card; nothing for a time outside the calendar.
pub fn card_date(clip: &Clip) -> (r: String)
    ensures
        r@ == match clock::utc_text(
            clip.created_at.seconds,
            clip.created_at.nanos,
            clock::CARD_STAMP@,
        ) {
            Some(shown) => shown,
            None => Seq::empty(),
        },
{
    match clock::format_utc(clip.created_at, clock::CARD_STAMP) {
        Some(shown) => shown,
        None => String::new(),
    }
}

/// What the user did to a clip's card.
#[derive(Debug, Clone, Copy, PartialEq, Eq, Structural)]
pub enum ClipCardAction {
    OpenEditor,
    Play,
    RevealInExplorer,
}

/// What the user did to a clip's card: the menu counts before the play button, and that
/// before the card around it.
pub fn card_action(reveal_clicked: bool, play_clicked: bool, card_clicked: bool) -> (r: Option<
    ClipCardAction,
>)
    ensures
        r == if reveal_clicked {
            Some(ClipCardAction::RevealInExplorer)
        } else if play_clicked {
            Some(ClipCardAction::Play)
        } else if card_clicked {
            Some(ClipCardAction::OpenEditor)
        } else {
            None
        },
{
    if reveal_clicked {
        Some(ClipCardAction::RevealInExplorer)
    } else if play_clicked {
        Some(ClipCardAction::Play)
    } else if card_clicked {
        Some(ClipCardAction::OpenEditor)
    } else {
        None
    }
}

/// What is shown after something was done to a clip.
pub fn card_status(action: ClipCardAction, title: &str, outcome: Result<(), String>) -> (r: String)
    ensures
        r@ == match (action, outcome) {
            (ClipCardAction::OpenEditor, _) => "Opened "@ + title@ + " in the editor"@,
            (ClipCardAction::Play, Ok(_)) => "Playing "@ + title@,
            (ClipCardAction::Play, Err(error)) => "Could not play clip: "@ + error@,
            (ClipCardAction::RevealInExplorer, Ok(_)) => "Showing "@ + title@
                + " in File Explorer"@,
            (ClipCardAction::RevealInExplorer, Err(error)) => "Could not open File Explorer: "@
                + error@,
        },
{
    match action {
        ClipCardAction::OpenEditor => {
            let mut out = "Opened ".to_owned();
            out.append(title);
            out.append(" in the editor");
            out
        },
        ClipCardAction::Play => match outcome {
            Ok(_) => {
                let mut out = "Playing ".to_owned();
                out.append(title);
                out
            },
            Err(error) => {
                let mut out = "Could not play clip: ".to_owned();
                out.append(error.as_str());
                out
            },
        },
        ClipCardAction::RevealInExplorer => match outcome {
            Ok(_) => {
                let mut out = "Showing ".to_owned();
                out.append(title);
                out.append(" in File Explorer");
                out
            },
            Err(error) => {
                let mut out = "Could not open File Explorer: ".to_owned();
                out.append(error.as_str());
                out
            },
        },
    }
}

/// What the library shows in place of clips: a heading, a hint, and whether it tells how
/// to start recording.
pub fn empty_library(has_clips: bool) -> (r: (&'static str, &'static str, bool))
    ensures
        r.0@ == if has_clips {
            "No matching clips"@
        } else {
            "Your best moments will show up here"@
        },
        r.1@ == if has_clips {
            "Try a different search."@
        } else {
            "Start the replay buffer, play a game, then save your last moment."@
        },
        r.2 == !has_clips,
{
    if has_clips {
        ("No matching clips", "Try a different search.", false)
    } else {
        (
            "Your best moments will show up here",
            "Start the replay buffer, play a game, then save your last moment.",
            true,
        )
    }
}

/// What is shown after an export.
pub fn export_status(output: &str, outcome: Result<(), CaptureError>) -> (r: String)
    ensures
        r@ == match outcome {
            Ok(_) => "Exported "@ + output@,
            Err(error) => error.text(),
        },
{
    match outcome {
        Ok(_) => {
            let mut out = "Exported ".to_owned();
            out.append(output);
            out
        },
        Err(error) => error.message(),
    }
}

/// The clip that would be published.
pub fn publish_selection(clip: Option<&Clip>) -> (r: String)
    ensures
        r@ == match clip {
            Some(clip) => clip.title@,
            None => "Choose a clip from Library"@,
        },
{
    match clip {
        Some(clip) => clip.title.clone(),
        None => "Choose a clip from Library".to_owned(),
    }
}

/// How far a job has come, in words.
pub open spec fn job_words(status: PublishStatus) -> Seq<char> {
    match status {
        PublishStatus::Queued => "queued"@,
        PublishStatus::Uploading { platform, progress_percent } => "uploading to "@
            + platform.name() + ", "@ + text::decimal(progress_percent as nat) + "%"@,
        PublishStatus::Complete => "complete"@,
        PublishStatus::Failed(error) => "failed: "@ + error@,
    }
}

/// The line for a job in the queue.
pub fn job_line(job: &PublishJob) -> (r: String)
    ensures
        r@ == job.title@ + "  -  "@ + job_words(job.status),
{
    let words = match &job.status {
        PublishStatus::Queued => "queued".to_owned(),
        PublishStatus::Uploading { platform, progress_percent } => {
            let mut out = "uploading to ".to_owned();
            out.append((*platform).label());
            out.append(", ");
            text::push_decimal(&mut out, *progress_percent as u64);
            out.append("%");
            out
        },
        PublishStatus::Complete => "complete".to_owned(),
        PublishStatus::Failed(error) => {
            let mut out = "failed: ".to_owned();
            out.append(error.as_str());
            out
        },
    };
    let mut out = job.title.clone();
    out.append("  -  ");
    out.append(words.as_str());
    out
}

/// `i` is the first device with the identifier `id`.
pub open spec fn first_device(devices: Seq<AudioDevice>, id: Seq<char>, i: int) -> bool {
    0 <= i < devices.len() && devices[i].id@ == id && forall|j: int|
        0 <= j < i ==> (#[trigger] devices[j]).id@ != id
}

/// `label` is the name of the device `selected`, or `fallback` where none is chosen or it
/// is not there.
pub open spec fn is_device_label(
    devices: Seq<AudioDevice>,
    selected: Option<Seq<char>>,
    fallback: Seq<char>,
    label: Seq<char>,
) -> bool {
    match selected {
        Some(id) => {
            ||| exists|i: int| #[trigger] first_device(devices, id, i) && label == devices[i].name@
            ||| (forall|i: int| 0 <= i < devices.len() ==> (#[trigger] devices[i]).id@ != id)
                && label == fallback
        },
        None => label == fallback,
    }
}

/// The name of the chosen device, or `fallback` where none is chosen or it is not there.
pub fn audio_device_label(devices: &Vec<AudioDevice>, selected: &Option<String>, fallback: &str) -> (r:
    String)
    ensures
        is_device_label(devices@, text::shown(*selected), fallback@, r@),
{
    if let Some(id) = selected {
        let mut i: usize = 0;
        while i < devices.len()
            invariant
                i <= devices.len(),
                *selected == Some(*id),
                forall|j: int| 0 <= j < i ==> (#[trigger] devices@[j]).id@ != id@,
            decreases devices.len() - i,
        {
            if text::same(devices[i].id.as_str(), id.as_str()) {
                assert(first_device(devices@, id@, i as int));
                return devices[i].name.clone();
            }
            i += 1;
        }
    }
    fallback.to_owned()
}

/// How many of the devices carry the sound of the desktop.
pub open spec fn desktop_count(devices: Seq<AudioDevice>) -> nat
    decreases devices.len(),
{
    if devices.len() == 0 {
        0
    } else {
        desktop_count(devices.drop_last()) + if devices.last().is_desktop() {
            1nat
        } else {
            0nat
        }
    }
}

/// How many devices there are, and of which kind.
pub fn devices_text(devices: &Vec<AudioDevice>) -> (r: String)
    ensures
        r@ == text::decimal(devices@.len()) + " Windows audio endpoint"@ + text::plural(
            devices@.len(),
        ) + " detected: "@ + text::decimal(desktop_count(devices@)) + " playback/loopback and "@
            + text::decimal((devices@.len() - desktop_count(devices@)) as nat)
            + " microphone/input"@,
{
    let mut desktop: usize = 0;
    let mut i: usize = 0;
    while i < devices.len()
        invariant
            desktop <= i <= devices.len(),
            desktop == desktop_count(devices@.take(i as int)),
        decreases devices.len() - i,
    {
        assert(devices@.take(i + 1).drop_last() =~= devices@.take(i as int));
        if audio::is_desktop_audio_device(&devices[i]) {
            desktop += 1;
        }
        i += 1;
    }
    assert(devices@.take(i as int) =~= devices@);
    let mut out = text::decimal_text(devices.len() as u64);
    out.append(" Windows audio endpoint");
    out.append(text::plural_of(devices.len()));
    out.append(" detected: ");
    text::push_decimal(&mut out, desktop as u64);
    out.append(" playback/loopback and ");
    text::push_decimal(&mut out, (devices.len() - desktop) as u64);
    out.append(" microphone/input");
    out
}

/// What is shown after the devices were looked for.
pub fn scan_status(outcome: &Result<usize, String>) -> (r: String)
    ensures
        r@ == match *outcome {
            Ok(count) => "Detected "@ + text::decimal(count as nat) + " Windows audio endpoint"@
                + text::plural(count as nat),
            Err(error) => "Could not scan audio devices: "@ + error@,
        },
{
    match outcome {
        Ok(count) => {
            let mut out = "Detected ".to_owned();
            text::push_decimal(&mut out, *count as u64);
            out.append(" Windows audio endpoint");
            out.append(text::plural_of(*count));
            out
        },
        Err(error) => {
            let mut out = "Could not scan audio devices: ".to_owned();
            out.append(error.as_str());
            out
        },
    }
}

/// What is recorded, where a preset decides it.
pub fn quality_summary(config: &AppConfig) -> (r: String)
    ensures
        r@ == text::decimal(config.output_width as nat) + "×"@ + text::decimal(
            config.output_height as nat,
        ) + " · "@ + text::decimal(config.frame_rate as nat) + " FPS · "@ + text::decimal(
            config.video_bitrate_mbps as nat,
        ) + " Mbps   —   "@ + if config.encoder == EncoderBackend::Software {
            "CPU encoding works on every PC"@
        } else {
            "Hardware encoding requires a compatible GPU and driver"@
        },
{
    let mut out = text::decimal_text(config.output_width as u64);
    out.append("×");
    text::push_decimal(&mut out, config.output_height as u64);
    out.append(" · ");
    text::push_decimal(&mut out, config.frame_rate as u64);
    out.append(" FPS · ");
    text::push_decimal(&mut out, config.video_bitrate_mbps as u64);
    out.append(" Mbps   —   ");
    out.append(
        if config.encoder == EncoderBackend::Software {
            "CPU encoding works on every PC"
        } else {
            "Hardware encoding requires a compatible GPU and driver"
        },
    );
    out
}

/// How many displays there are.
pub fn displays_text(count: usize) -> (r: String)
    ensures
        r@ == "Only the selected display is recorded · "@ + text::decimal(count as nat)
            + " display"@ + text::plural(count as nat) + " detected"@,
{
    let mut out = "Only the selected display is recorded · ".to_owned();
    text::push_decimal(&mut out, count as u64);
    out.append(" display");
    out.append(text::plural_of(count));
    out.append(" detected");
    out
}

/// Whether the chosen mode may be slow on the chosen encoder.
pub fn warns_of_slow_mode(config: &AppConfig) -> (r: bool)
    ensures
        r == (config.encoder == EncoderBackend::Intel && config.video_aspect_ratio
            == VideoAspectRatio::Game),
{
    config.encoder == EncoderBackend::Intel && config.video_aspect_ratio == VideoAspectRatio::Game
}

/// How much history is kept.
pub fn history_text(config: &AppConfig) -> (r: String)
    ensures
        r@ == "Replay history retained: "@ + text::decimal(config.buffer_seconds())
            + " sec. Restart a running replay buffer after increasing this value."@,
{
    let mut out = "Replay history retained: ".to_owned();
    text::push_decimal(&mut out, config.max_buffer_seconds() as u64);
    out.append(" sec. Restart a running replay buffer after increasing this value.");
    out
}

/// After how many milliseconds the window is drawn again: often while a clip is played.
pub fn repaint_millis(playing: bool) -> (r: u64)
    ensures
        r == if playing {
            16u64
        } else {
            250u64
        },
{
    if playing {
        16
    } else {
        250
    }
}

} // verus!
