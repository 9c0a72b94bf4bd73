//! What the program decides while it runs.

use vstd::prelude::*;

use crate::audio;
use crate::audio::AudioDevice;
use crate::capture::CaptureError;
use crate::config;
use crate::config::AppConfig;
use crate::ffmpeg::InstallState;
use crate::laws::publishing;
use crate::laws::reading;
use crate::model::{Clip, EditProject, Platform, PublishJob, PublishTarget, Visibility};
use crate::paths;
use crate::paths::HostSystem;
use crate::publish;
use crate::publish::{PublishError, PublishQueue};
use crate::services::clock::Timestamp;
use crate::services::letters;
use crate::session;
use crate::session::{AutoSave, InstallFollowUp, SaveStep, Selection};
use crate::text;

verus! {

/// The window stays hidden at the start only where the system started the program and the
/// settings, which could be read, ask for it.
pub proof fn windows_hide_when_the_system_starts(
    arguments: Vec<String>,
    minimized: Option<bool>,
    r: bool,
    k: int,
)
    requires
        call_ensures(session::starts_hidden, (&arguments, minimized), r),
    ensures
        minimized != Some(true) ==> !r,
        r ==> arguments.deep_view().contains("--autostart"@),
        0 <= k < arguments@.len() && arguments@[k]@ == "--autostart"@ && minimized == Some(true)
            ==> r,
{
    if 0 <= k < arguments@.len() && arguments@[k]@ == "--autostart"@ {
        assert(arguments.deep_view()[k] == "--autostart"@);
    }
}

/// Closing hides the window only where it can be brought back and is wanted back: with an
/// icon, with the setting on, and not on the way out.
pub proof fn closing_hides_what_can_come_back(
    closing: bool,
    minimize: bool,
    tray: bool,
    quit: bool,
    r: bool,
)
    requires
        call_ensures(session::hides_on_close, (closing, minimize, tray, quit), r),
    ensures
        r ==> closing && minimize && tray && !quit,
        closing && minimize && tray && !quit ==> r,
{
}

/// At the start a missing icon is told before anything else, then that the window is hidden,
/// then a failed registration, then the state of FFmpeg.
pub proof fn the_worst_is_told_first(
    ready: bool,
    state: InstallState,
    startup: Option<String>,
    tray: Option<String>,
    hidden: bool,
    words: String,
    r: String,
)
    requires
        call_ensures(session::initial_status, (ready, &state, startup, tray, hidden), r),
        call_ensures(InstallState::label, (&state,), words),
    ensures
        tray matches Some(reason) ==> r@ == "System tray is unavailable: "@ + reason@,
        tray is None && hidden ==> r@ == "Xyra started in the system tray"@,
        tray is None && !hidden && startup is Some ==> r@ == "Could not update Windows startup: "@
            + startup.unwrap()@,
        tray is None && !hidden && startup is None && ready ==> r@ == "Ready to capture"@,
        tray is None && !hidden && startup is None && !ready ==> r@ == words@,
{
}

/// Changed settings rest 350 milliseconds from when the change is first seen, whatever they
/// change to meanwhile, and are saved then; settings that are as saved need nothing.
pub proof fn changed_settings_rest_before_they_are_saved(
    save: &mut AutoSave,
    current: &str,
    now: u64,
    r: SaveStep,
)
    requires
        now + 350 <= u64::MAX,
        call_ensures(AutoSave::poll, (save, current, now), r),
    ensures
        final(save).saved@ == old(save).saved@,
        r == SaveStep::Nothing <==> current@ == old(save).saved@,
        r == SaveStep::Nothing ==> final(save).due is None,
        current@ != old(save).saved@ && old(save).due is None ==> r == SaveStep::Wait(350)
            && final(save).due == Some((now + 350) as u64),
        current@ != old(save).saved@ && old(save).due is Some ==> final(save).due == old(save).due
            && (now >= old(save).due.unwrap() ==> r == SaveStep::Save) && (now < old(
            save).due.unwrap() ==> r == SaveStep::Wait((old(save).due.unwrap() - now) as u64)),
{
}

/// Settings that were saved are the saved ones; where saving failed it is tried again after
/// two seconds.
pub proof fn failed_saves_are_tried_again(
    save: &mut AutoSave,
    current: String,
    now: u64,
    success: bool,
)
    requires
        now + 2000 <= u64::MAX,
        call_ensures(AutoSave::finished, (save, current, now, success), ()),
    ensures
        success ==> final(save).saved@ == current@ && final(save).due is None,
        !success ==> final(save).saved@ == old(save).saved@ && final(save).due == Some(
            (now + 2000) as u64,
        ),
{
}

/// A new memory of saved settings has nothing to save.
pub proof fn fresh_settings_are_saved(saved: String, r: AutoSave)
    requires
        call_ensures(AutoSave::new, (saved,), r),
    ensures
        r.saved@ == saved@,
        r.due is None,
{
}

/// Saving by itself is silent where all went well; otherwise the reason is told, that of the
/// file before that of the registration.
pub proof fn silent_saves_went_well(
    saved: Result<(), String>,
    startup: Result<(), String>,
    r: Option<String>,
)
    requires
        call_ensures(session::auto_save_status, (&saved, &startup), r),
    ensures
        r is None <==> saved is Ok && startup is Ok,
        saved matches Err(reason) ==> r.unwrap()@ == "Could not auto-save settings: "@ + reason@,
        saved is Ok ==> (startup matches Err(reason) ==> r.unwrap()@
            == "Settings saved, but Windows startup failed: "@ + reason@),
{
}

/// Starting and stopping is told as what happened; a failure in its own words.
pub proof fn toggling_is_told(was_running: bool, outcome: Result<(), CaptureError>, r: String)
    requires
        call_ensures(session::toggle_status, (was_running, outcome), r),
    ensures
        outcome is Ok && was_running ==> r@ == "Replay buffer stopped"@,
        outcome is Ok && !was_running ==> r@ == "Replay buffer is recording"@,
        outcome matches Err(error) ==> forall|m: String| #[trigger]
            call_ensures(CaptureError::message, (&error,), m) ==> r@ == m@,
{
}

/// A saved clip is told with its length, to the nearest second, and its file.
pub proof fn saved_clips_are_told(outcome: Result<Clip, CaptureError>, r: String)
    requires
        call_ensures(session::saved_status, (&outcome,), r),
    ensures
        outcome matches Ok(clip) ==> exists|n: Seq<char>, seconds: int|
            #![trigger reading::writes(n, seconds)]
            {
                &&& reading::writes(n, seconds)
                &&& clip.duration_millis < 4_000_000_000_000 ==> -500 <= clip.duration_millis - 1000
                    * seconds < 500
                &&& r@ == "Saved the previous "@ + n + " sec to "@ + clip.path@
            },
        outcome matches Err(error) ==> forall|m: String| #[trigger]
            call_ensures(CaptureError::message, (&error,), m) ==> r@ == m@,
{
    if let Ok(clip) = outcome {
        let seconds = session::whole_seconds(clip.duration_millis as int);
        reading::lemma_decimal_writes(seconds);
        assert(reading::writes(text::decimal(seconds), seconds as int));
    }
}

/// A clip that is opened is edited as a whole; opening one that is not there keeps the edit.
pub proof fn opened_clips_are_kept_whole(
    selection: &mut Selection,
    clips: Vec<Clip>,
    index: usize,
    r: bool,
    found: Option<&Clip>,
    whole: EditProject,
)
    requires
        call_ensures(Selection::select, (selection, &clips, index), r),
        call_ensures(Selection::clip, (&*final(selection), &clips), found),
        index < clips@.len() ==> call_ensures(EditProject::for_clip, (&clips@[index as int],), whole),
    ensures
        r <==> index < clips@.len(),
        found is Some <==> r,
        found matches Some(clip) ==> *clip == clips@[index as int],
        r ==> (final(selection).project matches Some(edit) && edit.clip_id == whole.clip_id
            && edit.trim_start_millis == whole.trim_start_millis && edit.trim_end_millis
            == whole.trim_end_millis),
        !r ==> final(selection).project == old(selection).project,
{
}

/// At first no clip is open.
pub proof fn no_clip_is_open_at_first(clips: Vec<Clip>, r: Selection, found: Option<&Clip>)
    requires
        call_ensures(Selection::new, (), r),
        call_ensures(Selection::clip, (&r, &clips), found),
    ensures
        found is None,
        r.project is None,
{
}

/// A job carries its clip's own identifier, file, title and description, and exactly the
/// destinations it was made for; it waits in the queue.
pub proof fn jobs_carry_their_clip(
    clip: Clip,
    targets: Vec<PublishTarget>,
    id: u128,
    at: Timestamp,
    r: PublishJob,
)
    requires
        call_ensures(session::publish_job, (&clip, &targets, id, at), r),
    ensures
        r.id == id,
        r.clip_id == clip.id,
        r.clip_path@ == clip.path@,
        r.title@ == clip.title@,
        r.description@ == clip.description@,
        r.targets@ == targets@,
        r.created_at == at,
        r.status is Queued,
{
}

/// The targets can be published to: one is enabled, and none that is enabled asks of Odysee
/// for anything but a public claim.
pub open spec fn can_be_published(targets: Seq<PublishTarget>) -> bool {
    &&& exists|i: int| 0 <= i < targets.len() && (#[trigger] targets[i]).enabled
    &&& forall|i: int|
        0 <= i < targets.len() && (#[trigger] targets[i]).enabled && targets[i].platform
            == Platform::Odysee ==> targets[i].visibility == Visibility::Public
}

/// Queueing appends one job, of the clip and for the targets, exactly where there is a clip
/// and the targets can be published to; else the queue stays as it is and the user is told
/// why.
pub proof fn queueing_appends_one_job(
    queue: &mut PublishQueue,
    clip: Option<&Clip>,
    targets: Vec<PublishTarget>,
    r: String,
)
    requires
        call_ensures(session::queue_publish, (queue, clip, &targets), r),
    ensures
        clip is None ==> final(queue).jobs@ == old(queue).jobs@ && r@
            == "Select a clip before publishing"@,
        clip is Some && can_be_published(targets@) ==> {
            &&& r@ == "Upload queued"@
            &&& final(queue).jobs@.len() == old(queue).jobs@.len() + 1
            &&& final(queue).jobs@.drop_last() == old(queue).jobs@
            &&& final(queue).jobs@.last().clip_id == clip.unwrap().id
            &&& final(queue).jobs@.last().clip_path@ == clip.unwrap().path@
            &&& final(queue).jobs@.last().title@ == clip.unwrap().title@
            &&& final(queue).jobs@.last().description@ == clip.unwrap().description@
            &&& final(queue).jobs@.last().targets@ == targets@
            &&& final(queue).jobs@.last().status is Queued
        },
        clip is Some && !can_be_published(targets@) ==> final(queue).jobs@ == old(queue).jobs@,
{
    if let Some(given) = clip {
        lemma_queued(old(queue).jobs@, *given, targets@, final(queue).jobs@, r@);
    }
}

/// What a queued clip leaves in the queue.
proof fn lemma_queued(
    before: Seq<PublishJob>,
    clip: Clip,
    targets: Seq<PublishTarget>,
    after: Seq<PublishJob>,
    shown: Seq<char>,
)
    requires
        session::is_queued(before, Some(clip), targets, after, shown),
    ensures
        can_be_published(targets) ==> {
            &&& shown == "Upload queued"@
            &&& after.len() == before.len() + 1
            &&& after.drop_last() == before
            &&& session::publishes(after.last(), clip, targets)
        },
        !can_be_published(targets) ==> after == before,
{
    if session::is_appended(before, clip, targets, after) && shown == "Upload queued"@ {
        let job = choose|job: PublishJob| #[trigger]
            session::is_new_job(job, clip, targets) && publish::is_acceptable(job) && after
                == before.push(job);
        assert(after.drop_last() =~= before);
        assert(after.last() == job);
        publish::accepted_jobs_promise_no_false_privacy(job);
        assert(publish::any_enabled(job.targets@));
        assert(job.targets@ == targets);
    } else if !publish::any_enabled(targets) && after == before {
        assert(!can_be_published(targets)) by {
            if can_be_published(targets) {
                let i = choose|i: int| 0 <= i < targets.len() && (#[trigger] targets[i]).enabled;
                assert(publish::any_enabled(targets));
            }
        }
    } else {
        let i = choose|i: int| #[trigger]
            publish::first_refused(targets, i) && after == before && shown
                == targets[i].platform.name() + " does not support "@ + targets[i].visibility.name()
                + " visibility"@;
        assert(publish::is_refused(targets[i]));
        assert(targets[i].enabled);
    }
}

/// A saved clip comes first in the list and is queued at once exactly where the settings ask
/// for it; a clip that was not saved changes nothing.
pub proof fn saved_clips_come_first(
    clips: &mut Vec<Clip>,
    queue: &mut PublishQueue,
    config: AppConfig,
    outcome: Result<Clip, CaptureError>,
    told: String,
    r: (bool, String),
)
    requires
        call_ensures(session::take_saved, (clips, queue, &config, outcome), r),
        call_ensures(session::saved_status, (&outcome,), told),
    ensures
        r.0 <==> outcome is Ok,
        outcome is Err ==> final(clips)@ == old(clips)@ && final(queue).jobs@ == old(queue).jobs@
            && r.1@ == told@,
        outcome matches Ok(clip) ==> final(clips)@.len() == old(clips)@.len() + 1 && final(
            clips)@[0] == clip && final(clips)@.skip(1) == old(clips)@,
        outcome is Ok && !config.auto_queue_after_clip ==> final(queue).jobs@ == old(queue).jobs@
            && r.1@ == told@,
        outcome matches Ok(clip) ==> config.auto_queue_after_clip && can_be_published(
            config.publish_targets@,
        ) ==> final(queue).jobs@.len() == old(queue).jobs@.len() + 1 && final(
            queue).jobs@.drop_last() == old(queue).jobs@ && session::publishes(
            final(queue).jobs@.last(),
            clip,
            config.publish_targets@,
        ) && r.1@ == "Upload queued"@,
        outcome is Ok && config.auto_queue_after_clip && !can_be_published(config.publish_targets@)
            ==> final(queue).jobs@ == old(queue).jobs@,
{
    if let Ok(clip) = outcome {
        assert(final(clips)@.skip(1) =~= old(clips)@);
        if config.auto_queue_after_clip {
            lemma_queued(
                old(queue).jobs@,
                clip,
                config.publish_targets@,
                final(queue).jobs@,
                r.1@,
            );
        }
    }
}

/// Clips are queued by themselves only where the settings say so, and then for the settings'
/// own destinations.
pub proof fn clips_are_queued_on_request_only(config: AppConfig, r: Option<Vec<PublishTarget>>)
    requires
        call_ensures(session::auto_queue_targets, (&config,), r),
    ensures
        r is Some <==> config.auto_queue_after_clip,
        r matches Some(targets) ==> targets@ == config.publish_targets@,
{
}

/// What came of queueing is told: that it was queued, or the queue's own reason.
pub proof fn queueing_is_told(outcome: Result<(), PublishError>, r: String)
    requires
        call_ensures(session::queue_status, (&outcome,), r),
    ensures
        outcome is Ok ==> r@ == "Upload queued"@,
        outcome matches Err(error) ==> forall|m: String| #[trigger]
            call_ensures(PublishError::message, (&error,), m) ==> r@ == m@,
{
}

/// Once FFmpeg is installed it is used, where installing failed it counts as missing, and
/// until then nothing follows. An installation is under way from its start until one of the
/// two.
pub proof fn installed_ffmpeg_is_used(
    state: InstallState,
    words: String,
    r: (InstallFollowUp, String),
    installing: bool,
)
    requires
        call_ensures(session::install_follow_up, (&state,), r),
        call_ensures(InstallState::label, (&state,), words),
        call_ensures(session::is_installing, (&state,), installing),
    ensures
        r.0 == InstallFollowUp::UseInstalled <==> state is Ready,
        r.0 == InstallFollowUp::MarkMissing <==> state is Failed,
        state matches InstallState::Failed(reason) ==> r.1@ == "FFmpeg setup failed: "@ + reason@,
        state is Ready ==> r.1@ == "FFmpeg installed automatically. Capture is ready."@,
        !(state is Ready) && !(state is Failed) ==> r.1@ == words@,
        installing <==> !(state is Ready) && !(state is Failed) && !(state is NotManaged),
{
}

/// Settings that the user saves have the FFmpeg that was typed in, without blanks around it,
/// and a size that can be encoded; everything else stays.
pub proof fn saved_settings_can_be_used(
    before: AppConfig,
    typed: &str,
    trimmed: String,
    width: u32,
    height: u32,
    after: AppConfig,
)
    requires
        call_ensures(session::confirmed_settings, (before, typed), after),
        call_ensures(text::trimmed, (typed,), trimmed),
        call_ensures(config::even_size, (before.output_width, 640), width),
        call_ensures(config::even_size, (before.output_height, 360), height),
    ensures
        after.ffmpeg_path@ == trimmed@,
        after.output_width == width,
        after.output_height == height,
        after == (AppConfig {
            ffmpeg_path: after.ffmpeg_path,
            output_width: after.output_width,
            output_height: after.output_height,
            ..before
        }),
{
}

/// The installer is set up anew for another FFmpeg, and for the same one unless it is being
/// installed.
pub proof fn installers_are_restarted_when_needed(
    host: HostSystem,
    selected: &str,
    destination: &str,
    state: InstallState,
    same: bool,
    installing: bool,
    r: bool,
)
    requires
        call_ensures(session::restarts_installer, (host, selected, destination, &state), r),
        call_ensures(paths::same_path, (host, selected, destination), same),
        call_ensures(session::is_installing, (&state,), installing),
    ensures
        !same ==> r,
        same && installing ==> !r,
        same && !installing ==> r,
{
}

/// What came of saving is told: the file's failure, then the registration's, then the state
/// of FFmpeg.
pub proof fn saving_is_told(
    saved: Result<(), String>,
    startup: Result<(), String>,
    ready: bool,
    state: InstallState,
    words: String,
    r: String,
)
    requires
        call_ensures(session::settings_status, (saved, startup, ready, &state), r),
        call_ensures(InstallState::label, (&state,), words),
    ensures
        saved matches Err(reason) ==> r@ == reason@,
        saved is Ok ==> (startup matches Err(reason) ==> r@
            == "Settings saved, but Windows startup failed: "@ + reason@),
        saved is Ok && startup is Ok && ready ==> r@ == "Settings saved. FFmpeg is ready."@,
        saved is Ok && startup is Ok && !ready ==> r@ == words@,
{
}

/// The way back to the program's own FFmpeg is offered where another is used or its
/// installation failed, and can be taken unless it is being installed.
pub proof fn the_way_back_is_offered(
    host: HostSystem,
    destination: &str,
    managed: &str,
    state: InstallState,
    same: bool,
    installing: bool,
    r: Option<(&'static str, bool)>,
)
    requires
        call_ensures(session::managed_button, (host, destination, managed, &state), r),
        call_ensures(paths::same_path, (host, destination, managed), same),
        call_ensures(session::is_installing, (&state,), installing),
    ensures
        r is Some <==> !same || state is Failed,
        r matches Some(button) ==> button.1 == !installing && (same ==> button.0@
            == "Retry bundled FFmpeg"@) && (!same ==> button.0@ == "Use bundled FFmpeg"@),
{
}

/// A chosen desktop device that is there, and carries the sound of the desktop, is kept with
/// its switch; else the recommended one takes its place, and without one recording is
/// switched off.
pub proof fn desktop_devices_are_kept_or_replaced(
    before: AppConfig,
    devices: Vec<AudioDevice>,
    after: AppConfig,
    listed: &[AudioDevice],
    best: Option<&AudioDevice>,
    k: int,
)
    requires
        call_ensures(session::sync_audio_device_selection, (before, &devices), after),
        listed@ == devices@,
        call_ensures(audio::recommended_desktop_audio, (listed,), best),
        0 <= k < devices@.len(),
    ensures
        (before.desktop_audio_device matches Some(id) && id@ == devices@[k].id@)
            && devices@[k].is_desktop() ==> after.desktop_audio_device
            == before.desktop_audio_device && after.desktop_audio_enabled
            == before.desktop_audio_enabled,
        (before.desktop_audio_device is None || forall|j: int|
            0 <= j < devices@.len() && (#[trigger] devices@[j]).id@
                == before.desktop_audio_device.unwrap()@ ==> !devices@[j].is_desktop()) ==> (
        after.desktop_audio_device is Some <==> best is Some) && (best matches Some(device)
            ==> after.desktop_audio_device.unwrap()@ == device.id@) && (after.desktop_audio_enabled
            <==> before.desktop_audio_enabled && best is Some),
        after == (AppConfig {
            desktop_audio_device: after.desktop_audio_device,
            desktop_audio_enabled: after.desktop_audio_enabled,
            microphone_device: after.microphone_device,
            microphone_enabled: after.microphone_enabled,
            ..before
        }),
{
    if before.desktop_audio_device matches Some(id) && id@ == devices@[k].id@
        && devices@[k].is_desktop() {
        assert(session::desktop_valid(devices@, before.desktop_audio_device));
    }
    if before.desktop_audio_device is None || forall|j: int|
        0 <= j < devices@.len() && (#[trigger] devices@[j]).id@
            == before.desktop_audio_device.unwrap()@ ==> !devices@[j].is_desktop() {
        assert(!session::desktop_valid(devices@, before.desktop_audio_device));
        if let Some(name) = after.desktop_audio_device {
            let i = choose|i: int| #[trigger]
                audio::first_desktop(devices@, i) && name@ == devices@[i].id@;
            assert(devices@[i].is_desktop());
            if let Some(device) = best {
                let j = choose|j: int| #[trigger]
                    audio::first_desktop(devices@, j) && *device == devices@[j];
                assert(devices@[j].is_desktop());
                assert(i == j);
            }
        } else if let Some(device) = best {
            let j = choose|j: int| #[trigger]
                audio::first_desktop(devices@, j) && *device == devices@[j];
            assert(devices@[j].is_desktop());
        }
    }
}

/// A chosen microphone that is there, and is one, is kept with its switch; else the
/// recommended one takes its place, and without one recording is switched off.
pub proof fn microphones_are_kept_or_replaced(
    before: AppConfig,
    devices: Vec<AudioDevice>,
    after: AppConfig,
    listed: &[AudioDevice],
    best: Option<&AudioDevice>,
    k: int,
)
    requires
        call_ensures(session::sync_audio_device_selection, (before, &devices), after),
        listed@ == devices@,
        call_ensures(audio::recommended_microphone, (listed,), best),
        0 <= k < devices@.len(),
    ensures
        (before.microphone_device matches Some(id) && id@ == devices@[k].id@)
            && devices@[k].is_microphone() ==> after.microphone_device == before.microphone_device
            && after.microphone_enabled == before.microphone_enabled,
        (before.microphone_device is None || forall|j: int|
            0 <= j < devices@.len() && (#[trigger] devices@[j]).id@
                == before.microphone_device.unwrap()@ ==> !devices@[j].is_microphone()) ==> (
        after.microphone_device is Some <==> best is Some) && (best matches Some(device)
            ==> after.microphone_device.unwrap()@ == device.id@) && (after.microphone_enabled
            <==> before.microphone_enabled && best is Some),
{
    if before.microphone_device matches Some(id) && id@ == devices@[k].id@
        && devices@[k].is_microphone() {
        assert(session::microphone_valid(devices@, before.microphone_device));
    }
    if before.microphone_device is None || forall|j: int|
        0 <= j < devices@.len() && (#[trigger] devices@[j]).id@
            == before.microphone_device.unwrap()@ ==> !devices@[j].is_microphone() {
        assert(!session::microphone_valid(devices@, before.microphone_device));
        if let Some(name) = after.microphone_device {
            let i = choose|i: int| #[trigger]
                audio::microphone_choice(devices@, i) && name@ == devices@[i].id@;
            assert(0 <= i < devices@.len());
            if let Some(device) = best {
                let j = choose|j: int| #[trigger]
                    audio::microphone_choice(devices@, j) && *device == devices@[j];
                lemma_one_choice(devices@, i, j);
            } else {
                assert(devices@[i].is_desktop() && !devices@[i].is_microphone());
            }
        } else if let Some(device) = best {
            let j = choose|j: int| #[trigger]
                audio::microphone_choice(devices@, j) && *device == devices@[j];
            assert(devices@[j].is_desktop() && !devices@[j].is_microphone());
        }
    }
}

/// There is one device to record the voice with.
proof fn lemma_one_choice(devices: Seq<AudioDevice>, i: int, j: int)
    requires
        audio::microphone_choice(devices, i),
        audio::microphone_choice(devices, j),
    ensures
        i == j,
{
    if audio::any_microphone(devices) {
        assert(audio::first_microphone(devices, i));
        assert(audio::first_microphone(devices, j));
        if i < j {
            assert(devices[i].is_microphone());
        } else if j < i {
            assert(devices[j].is_microphone());
        }
    } else {
        assert(!devices[i].is_microphone() && !devices[j].is_microphone());
        if i < j {
            assert(devices[i].is_desktop());
        } else if j < i {
            assert(devices[j].is_desktop());
        }
    }
}

/// A search finds exactly the clips whose title holds it, in whatever case, in the order of
/// the list.
pub proof fn searches_find_titles(clips: Vec<Clip>, search: &str, r: Vec<usize>, k: usize)
    requires
        call_ensures(session::visible_clips, (&clips, search), r),
        k < clips@.len(),
    ensures
        r@.contains(k) <==> text::contains(
            letters::text_lower(clips@[k as int].title@),
            letters::text_lower(search@),
        ),
        forall|i: int| 0 <= i < r@.len() ==> (#[trigger] r@[i]) < clips@.len(),
        forall|i: int, j: int| 0 <= i < j < r@.len() ==> (#[trigger] r@[i]) < (#[trigger] r@[j]),
{
    lemma_found(clips@, search@, k as int);
    let found = r@.map_values(|i: usize| i as int);
    assert(found == session::found_clips(clips@, search@));
    assert(found.len() == r@.len());
    if r@.contains(k) {
        let i = r@.index_of(k);
        assert(found[i] == k as int);
        assert(found.contains(k as int));
    }
    if found.contains(k as int) {
        let i = found.index_of(k as int);
        assert(found[i] == r@[i] as int);
        assert(r@[i] == k);
    }
    assert forall|i: int| 0 <= i < r@.len() implies (#[trigger] r@[i]) < clips@.len() by {
        assert(found[i] == r@[i] as int);
    }
    assert forall|i: int, j: int| 0 <= i < j < r@.len() implies (#[trigger] r@[i]) < (#[trigger] r@[j]) by {
        assert(found[i] == r@[i] as int && found[j] == r@[j] as int);
    }
}

/// What is found matches, stands in order, and is all that matches.
proof fn lemma_found(clips: Seq<Clip>, search: Seq<char>, k: int)
    ensures
        0 <= k < clips.len() ==> (session::found_clips(clips, search).contains(k)
            <==> session::matches_search(clips[k], search)),
        forall|i: int|
            0 <= i < session::found_clips(clips, search).len() ==> 0 <= #[trigger] session::found_clips(
                clips,
                search,
            )[i] < clips.len(),
        forall|i: int, j: int|
            0 <= i < j < session::found_clips(clips, search).len()
                ==> #[trigger] session::found_clips(clips, search)[i]
                < #[trigger] session::found_clips(clips, search)[j],
    decreases clips.len(),
{
    if clips.len() > 0 {
        let front = clips.drop_last();
        let before = session::found_clips(front, search);
        let all = session::found_clips(clips, search);
        lemma_found(front, search, k);
        if session::matches_search(clips.last(), search) {
            assert(all == before.push(clips.len() - 1));
            assert(all[all.len() - 1] == clips.len() - 1);
            if before.contains(k) {
                let i = before.index_of(k);
                assert(all[i] == k);
            }
            if all.contains(k) && k < clips.len() - 1 {
                let i = all.index_of(k);
                assert(before[i] == k);
            }
        }
        if 0 <= k < front.len() {
            assert(front[k] == clips[k]);
        }
        if k == clips.len() - 1 && before.contains(k) {
            let i = before.index_of(k);
            assert(before[i] < front.len());
        }
    }
}

/// An edited clip is written beside the clip, under its name with `-edited` behind it, as
/// `mp4`.
pub proof fn edits_are_written_beside_their_clip(
    host: HostSystem,
    input: &str,
    name: Option<String>,
    shown: &str,
    stem: String,
    other: &str,
    beside: String,
    r: String,
)
    requires
        call_ensures(session::export_path, (host, input), r),
        call_ensures(paths::name_of, (host, input), name),
        name matches Some(found) ==> shown@ == found@,
        call_ensures(paths::stem_of, (shown,), stem),
        other@ == (if name is Some {
            stem@
        } else {
            "clip"@
        }) + "-edited.mp4"@,
        call_ensures(paths::sibling, (host, input, other), beside),
    ensures
        r@ == beside@,
        publishing::ends_with(r@, other@),
{
    crate::laws::obs::lemma_sibling_ends(host, input@, other@);
}

} // verus!
