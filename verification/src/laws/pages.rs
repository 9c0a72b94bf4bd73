//! What the pages show of the program's state.

use vstd::prelude::*;

use crate::audio::AudioDevice;
use crate::capture::CaptureError;
use crate::config::{AppConfig, EncoderBackend, VideoAspectRatio};
use crate::ffmpeg::InstallState;
use crate::laws::publishing;
use crate::laws::reading;
use crate::model::{Clip, Platform, PublishJob, PublishStatus};
use crate::services::clock;
use crate::text;
use crate::views;
use crate::views::{ClipCardAction, Page, Tone};

verus! {

/// No two pages have one title.
pub proof fn pages_are_told_apart(a: Page, b: Page, r: &'static str, s: &'static str)
    requires
        call_ensures(Page::title, (a,), r),
        call_ensures(Page::title, (b,), s),
    ensures
        r@ == s@ ==> a == b,
        a == Page::Library ==> r@ == "Library"@,
        a == Page::Editor ==> r@ == "Editor"@,
        a == Page::Publish ==> r@ == "Publish"@,
        a == Page::Settings ==> r@ == "Settings"@,
{
    reveal_strlit("Library");
    reveal_strlit("Editor");
    reveal_strlit("Publish");
    reveal_strlit("Settings");
    assert("Library"@[0] == 'L' && "Editor"@[0] == 'E' && "Publish"@[0] == 'P' && "Settings"@[0]
        == 'S');
}

/// FFmpeg is shown as ready exactly where it works, as failed only where its installation
/// failed, as wanting where nothing is done about it, and else in the installation's words.
pub proof fn ffmpeg_is_shown_as_it_is(
    state: InstallState,
    ready: bool,
    words: String,
    r: (String, Tone),
)
    requires
        call_ensures(views::ffmpeg_status, (&state, ready), r),
        call_ensures(InstallState::label, (&state,), words),
    ensures
        r.1 == Tone::Success <==> ready,
        ready ==> r.0@ == "Ready"@,
        !ready && state is Failed ==> r.1 == Tone::Danger && r.0@ == "Setup failed"@,
        !ready && (state is NotManaged || state is Ready) ==> r.1 == Tone::Warning && r.0@
            == "Setup required"@,
        !ready && (state is Starting || state is Downloading || state is Unpacking) ==> r.1
            == Tone::Working && r.0@ == words@,
{
}

/// A running recorder is shown as such, whatever the state of FFmpeg, and can be stopped; one
/// that rests can be started only where FFmpeg works.
pub proof fn recording_is_shown_first(
    running: bool,
    state: InstallState,
    ready: bool,
    r: (String, Tone),
    rest: (String, Tone),
    can: bool,
)
    requires
        call_ensures(views::engine_badge, (running, &state, ready), r),
        call_ensures(views::ffmpeg_status, (&state, ready), rest),
        call_ensures(views::can_toggle, (ready, running), can),
    ensures
        running ==> r.0@ == "Recording"@ && r.1 == Tone::Danger && can,
        !running ==> r.0@ == rest.0@ && r.1 == rest.1 && can == ready,
{
}

/// A time is shown as minutes and seconds, to the nearest second.
pub proof fn times_are_shown_in_minutes(millis: u64, r: String)
    requires
        call_ensures(views::format_time, (millis,), r),
    ensures
        exists|m: Seq<char>, s: Seq<char>, seconds: int|
            #![trigger shows_minutes(m, s, seconds)]
            shows_minutes(m, s, seconds) && r@ == m + ":"@ + s && -500 <= millis - 1000 * seconds
                < 500,
{
    let total = crate::capture_args::nearest(millis as int, 1000);
    reveal_with_fuel(reading::ten_to, 3);
    reading::lemma_decimal_writes((total as nat) / 60);
    reading::lemma_padded_writes((total as nat) % 60, 2);
    let m = text::decimal((total as nat) / 60);
    let s = text::padded((total as nat) % 60, 2);
    assert(shows_minutes(m, s, total));
}

/// The digits are the minutes, and the two digits the rest, of these seconds.
pub open spec fn shows_minutes(m: Seq<char>, s: Seq<char>, seconds: int) -> bool {
    reading::writes(m, seconds / 60) && reading::writes_wide(s, seconds % 60, 2)
}

/// A length is shown in seconds, to the nearest one.
pub proof fn lengths_are_shown_in_seconds(millis: u64, r: String)
    requires
        call_ensures(views::length_text, (millis,), r),
    ensures
        exists|n: Seq<char>, seconds: int|
            #![trigger reading::writes(n, seconds)]
            reading::writes(n, seconds) && r@ == n + "s"@ && -500 <= millis - 1000 * seconds <= 500
                && (millis % 1000 == 500 ==> seconds % 2 == 0),
{
    let seconds = views::nearest_even(millis as nat, 1000);
    reading::lemma_decimal_writes(seconds);
    assert(reading::writes(text::decimal(seconds), seconds as int));
}

/// A time in the editor is shown in tenths of seconds, to the nearest one.
pub proof fn edits_are_shown_in_tenths(millis: u64, r: String)
    requires
        call_ensures(views::tenths_text, (millis,), r),
    ensures
        exists|whole: Seq<char>, tenth: Seq<char>, tenths: int|
            #![trigger shows_tenths(whole, tenth, tenths)]
            shows_tenths(whole, tenth, tenths) && r@ == whole + "."@ + tenth + "s"@ && -50 <= millis
                - 100 * tenths <= 50 && (millis % 100 == 50 ==> tenths % 2 == 0),
{
    let n = views::nearest_even(millis as nat, 100);
    reading::lemma_decimal_writes(n / 10);
    reading::lemma_decimal_writes(n % 10);
    assert(shows_tenths(text::decimal(n / 10), text::decimal(n % 10), n as int));
}

/// The digits are the whole and the tenth of these tenths.
pub open spec fn shows_tenths(whole: Seq<char>, tenth: Seq<char>, tenths: int) -> bool {
    reading::writes(whole, tenths / 10) && reading::writes(tenth, tenths % 10)
}

/// A card shows when its clip was made, and nothing where that is no date.
pub proof fn cards_show_when_clips_were_made(clip: Clip, r: String)
    requires
        call_ensures(views::card_date, (&clip,), r),
    ensures
        clock::utc_text(clip.created_at.seconds, clip.created_at.nanos, "%b %d, %H:%M"@) matches Some(
            shown,
        ) ==> r@ == shown,
        clock::utc_text(clip.created_at.seconds, clip.created_at.nanos, "%b %d, %H:%M"@) is None
            ==> r@.len() == 0,
{
}

/// Of what is clicked at once the menu counts before the button and the button before the
/// card; nothing clicked asks for nothing.
pub proof fn clicks_count_from_the_inside(menu: bool, button: bool, card: bool, r: Option<ClipCardAction>)
    requires
        call_ensures(views::card_action, (menu, button, card), r),
    ensures
        r == Some(ClipCardAction::RevealInExplorer) <==> menu,
        r == Some(ClipCardAction::Play) <==> button && !menu,
        r == Some(ClipCardAction::OpenEditor) <==> card && !button && !menu,
        r is None <==> !menu && !button && !card,
{
}

/// What was done to a clip is told with its title, and what failed with the reason.
pub proof fn actions_are_told_with_the_title(
    action: ClipCardAction,
    title: &str,
    outcome: Result<(), String>,
    r: String,
)
    requires
        call_ensures(views::card_status, (action, title, outcome), r),
    ensures
        action == ClipCardAction::OpenEditor ==> r@ == "Opened "@ + title@ + " in the editor"@,
        action == ClipCardAction::Play && outcome is Ok ==> r@ == "Playing "@ + title@,
        action == ClipCardAction::RevealInExplorer && outcome is Ok ==> r@ == "Showing "@ + title@
            + " in File Explorer"@,
        action != ClipCardAction::OpenEditor ==> (outcome matches Err(reason)
            ==> text::starts_with(r@, "Could not "@) && publishing::ends_with(r@, reason@)),
{
    if action != ClipCardAction::OpenEditor {
        if let Err(reason) = outcome {
            reveal_strlit("Could not ");
            reveal_strlit("Could not play clip: ");
            reveal_strlit("Could not open File Explorer: ");
            assert(r@.subrange(0, 10) =~= "Could not "@);
            assert(r@.skip(r@.len() - reason@.len()) =~= reason@);
        }
    }
}

/// An empty library tells how to record; one where nothing was found asks for another search.
pub proof fn empty_libraries_help(filled: bool, r: (&'static str, &'static str, bool))
    requires
        call_ensures(views::empty_library, (filled,), r),
    ensures
        r.2 <==> !filled,
        filled ==> r.0@ == "No matching clips"@ && r.1@ == "Try a different search."@,
        !filled ==> r.0@ == "Your best moments will show up here"@ && text::starts_with(
            r.1@,
            "Start the replay buffer"@,
        ),
{
    reveal_strlit("Start the replay buffer");
    reveal_strlit("Start the replay buffer, play a game, then save your last moment.");
    assert("Start the replay buffer, play a game, then save your last moment."@.subrange(0, 23)
        =~= "Start the replay buffer"@);
}

/// An export is told with its file, a failed one with the reason.
pub proof fn exports_are_told(
    output: &str,
    outcome: Result<(), CaptureError>,
    r: String,
)
    requires
        call_ensures(views::export_status, (output, outcome), r),
    ensures
        outcome is Ok ==> r@ == "Exported "@ + output@,
        outcome matches Err(error) ==> forall|m: String| #[trigger]
            call_ensures(CaptureError::message, (&error,), m) ==> r@ == m@,
{
}

/// The clip to publish is shown by its title; without one the user is asked to choose.
pub proof fn clips_to_publish_are_shown(clip: Option<&Clip>, r: String)
    requires
        call_ensures(views::publish_selection, (clip,), r),
    ensures
        clip matches Some(chosen) ==> r@ == chosen.title@,
        clip is None ==> r@ == "Choose a clip from Library"@,
{
}

/// A job's line begins with its title and tells how far it has come: where it goes and how
/// many percents, or why it failed.
pub proof fn jobs_are_shown_with_their_progress(job: PublishJob, name: &'static str, r: String)
    requires
        call_ensures(views::job_line, (&job,), r),
    ensures
        text::starts_with(r@, job.title@ + "  -  "@),
        job.status is Queued ==> r@ == job.title@ + "  -  "@ + "queued"@,
        job.status is Complete ==> r@ == job.title@ + "  -  "@ + "complete"@,
        job.status matches PublishStatus::Failed(reason) ==> r@ == job.title@ + "  -  "@ + (
        "failed: "@ + reason@),
        job.status matches PublishStatus::Uploading { platform, progress_percent }
            ==> call_ensures(Platform::label, (platform,), name) ==> exists|n: Seq<char>|
            #![trigger reading::writes(n, progress_percent as int)]
            reading::writes(n, progress_percent as int) && r@ == job.title@ + "  -  "@ + (
            "uploading to "@ + name@ + ", "@ + n + "%"@),
{
    let front = job.title@ + "  -  "@;
    assert(r@.subrange(0, front.len() as int) =~= front);
    if let PublishStatus::Uploading { platform, progress_percent } = job.status {
        reading::lemma_decimal_writes(progress_percent as nat);
    }
}

/// The devices are counted, and of them those that carry the sound of the desktop; the rest
/// are the others.
pub proof fn devices_are_counted(devices: Vec<AudioDevice>, r: String)
    requires
        call_ensures(views::devices_text, (&devices,), r),
    ensures
        exists|n: Seq<char>, d: Seq<char>, m: Seq<char>, desktop: int| #[trigger]
            counts_devices(n, d, m, desktop, devices@) && r@ == n + " Windows audio endpoint"@ + (
            if devices@.len() == 1 {
                Seq::empty()
            } else {
                "s"@
            }) + " detected: "@ + d + " playback/loopback and "@ + m + " microphone/input"@,
{
    let desktop = views::desktop_count(devices@);
    lemma_count(devices@);
    reading::lemma_decimal_writes(devices@.len());
    reading::lemma_decimal_writes(desktop);
    reading::lemma_decimal_writes((devices@.len() - desktop) as nat);
    reveal_strlit("");
    let n = text::decimal(devices@.len());
    let d = text::decimal(desktop);
    let m = text::decimal((devices@.len() - desktop) as nat);
    assert(counts_devices(n, d, m, desktop as int, devices@));
    if devices@.len() == 1 {
        assert(""@ =~= Seq::<char>::empty());
    }
}

/// `desktop` of the devices carry the sound of the desktop, and the numbers are written.
pub open spec fn counts_devices(
    n: Seq<char>,
    d: Seq<char>,
    m: Seq<char>,
    desktop: int,
    devices: Seq<AudioDevice>,
) -> bool {
    &&& reading::writes(n, devices.len() as int)
    &&& reading::writes(d, desktop)
    &&& reading::writes(m, devices.len() - desktop)
    &&& desktop == devices.filter(|device: AudioDevice| device.is_desktop()).len()
}

/// Counting is counting.
proof fn lemma_count(devices: Seq<AudioDevice>)
    ensures
        views::desktop_count(devices) == devices.filter(
            |device: AudioDevice| device.is_desktop(),
        ).len(),
        views::desktop_count(devices) <= devices.len(),
    decreases devices.len(),
{
    reveal(Seq::filter);
    if devices.len() > 0 {
        lemma_count(devices.drop_last());
    }
}

/// A scan is told with the number of devices, or with the reason why there is none.
pub proof fn scans_are_told(outcome: Result<usize, String>, r: String)
    requires
        call_ensures(views::scan_status, (&outcome,), r),
    ensures
        outcome matches Ok(count) ==> exists|n: Seq<char>|
            #![trigger reading::writes(n, count as int)]
            {
                &&& reading::writes(n, count as int)
                &&& count == 1 ==> r@ == "Detected "@ + n + " Windows audio endpoint"@
                &&& count != 1 ==> r@ == "Detected "@ + n + " Windows audio endpoint"@ + "s"@
            },
        outcome matches Err(reason) ==> r@ == "Could not scan audio devices: "@ + reason@,
{
    if let Ok(count) = outcome {
        reading::lemma_decimal_writes(count as nat);
        reveal_strlit("");
        let n = text::decimal(count as nat);
        if count == 1 {
            assert(r@ =~= "Detected "@ + n + " Windows audio endpoint"@);
        }
    }
}

/// The summary tells the size, the rate and the bitrate of the settings, and whether the
/// processor encodes.
pub proof fn summaries_tell_the_settings(config: AppConfig, r: String)
    requires
        call_ensures(views::quality_summary, (&config,), r),
    ensures
        exists|w: Seq<char>, h: Seq<char>, f: Seq<char>, b: Seq<char>| #[trigger]
            writes_settings(w, h, f, b, config) && text::starts_with(
                r@,
                w + "×"@ + h + " · "@ + f + " FPS · "@ + b + " Mbps"@,
            ),
        config.encoder == EncoderBackend::Software ==> publishing::ends_with(
            r@,
            "CPU encoding works on every PC"@,
        ),
        config.encoder != EncoderBackend::Software ==> publishing::ends_with(
            r@,
            "Hardware encoding requires a compatible GPU and driver"@,
        ),
{
    let w = text::decimal(config.output_width as nat);
    let h = text::decimal(config.output_height as nat);
    let f = text::decimal(config.frame_rate as nat);
    let b = text::decimal(config.video_bitrate_mbps as nat);
    reading::lemma_decimal_writes(config.output_width as nat);
    reading::lemma_decimal_writes(config.output_height as nat);
    reading::lemma_decimal_writes(config.frame_rate as nat);
    reading::lemma_decimal_writes(config.video_bitrate_mbps as nat);
    assert(writes_settings(w, h, f, b, config));
    reveal_strlit(" Mbps");
    reveal_strlit(" Mbps   —   ");
    let front = w + "×"@ + h + " · "@ + f + " FPS · "@ + b + " Mbps"@;
    let full = w + "×"@ + h + " · "@ + f + " FPS · "@ + b + " Mbps   —   "@;
    assert(full.subrange(0, front.len() as int) =~= front);
    let end = if config.encoder == EncoderBackend::Software {
        "CPU encoding works on every PC"@
    } else {
        "Hardware encoding requires a compatible GPU and driver"@
    };
    assert(r@ == full + end);
    assert(r@.subrange(0, front.len() as int) =~= full.subrange(0, front.len() as int));
    assert(r@.skip(r@.len() - end.len()) =~= end);
}

/// The size, the rate and the bitrate of the settings are written.
pub open spec fn writes_settings(
    w: Seq<char>,
    h: Seq<char>,
    f: Seq<char>,
    b: Seq<char>,
    config: AppConfig,
) -> bool {
    &&& reading::writes(w, config.output_width as int)
    &&& reading::writes(h, config.output_height as int)
    &&& reading::writes(f, config.frame_rate as int)
    &&& reading::writes(b, config.video_bitrate_mbps as int)
}

/// The displays are counted.
pub proof fn displays_are_counted(count: usize, r: String)
    requires
        call_ensures(views::displays_text, (count,), r),
    ensures
        exists|n: Seq<char>|
            #![trigger reading::writes(n, count as int)]
            {
                &&& reading::writes(n, count as int)
                &&& count == 1 ==> r@ == "Only the selected display is recorded · "@ + n + " display"@
                    + " detected"@
                &&& count != 1 ==> r@ == "Only the selected display is recorded · "@ + n + " display"@
                    + "s"@ + " detected"@
            },
{
    reading::lemma_decimal_writes(count as nat);
    reveal_strlit("");
    let n = text::decimal(count as nat);
    if count == 1 {
        assert(r@ =~= "Only the selected display is recorded · "@ + n + " display"@ + " detected"@);
    }
}

/// A mode is warned of only where the display's proportions are kept on Intel's encoder.
pub proof fn slow_modes_are_warned_of(config: AppConfig, r: bool)
    requires
        call_ensures(views::warns_of_slow_mode, (&config,), r),
    ensures
        config.encoder != EncoderBackend::Intel ==> !r,
        config.video_aspect_ratio != VideoAspectRatio::Game ==> !r,
        config.encoder == EncoderBackend::Intel && config.video_aspect_ratio
            == VideoAspectRatio::Game ==> r,
{
}

/// The history that is shown is that which the buffer keeps.
pub proof fn history_is_shown(config: AppConfig, seconds: u32, r: String)
    requires
        call_ensures(views::history_text, (&config,), r),
        call_ensures(AppConfig::max_buffer_seconds, (&config,), seconds),
    ensures
        exists|n: Seq<char>|
            #![trigger reading::writes(n, seconds as int)]
            reading::writes(n, seconds as int) && text::starts_with(
                r@,
                "Replay history retained: "@ + n + " sec."@,
            ),
{
    reading::lemma_decimal_writes(seconds as nat);
    let n = text::decimal(seconds as nat);
    reveal_strlit(" sec.");
    reveal_strlit(" sec. Restart a running replay buffer after increasing this value.");
    let front = "Replay history retained: "@ + n + " sec."@;
    assert(r@.subrange(0, front.len() as int) =~= front);
}

/// The window is drawn sixty times a second while a clip plays, else four times.
pub proof fn playing_clips_are_drawn_often(a: u64, b: u64)
    requires
        call_ensures(views::repaint_millis, (true,), a),
        call_ensures(views::repaint_millis, (false,), b),
    ensures
        a == 1000int / 60,
        b == 1000int / 4,
{
}

} // verus!
