//! What the program decides while it runs: when settings are saved, what closing the
//! window does, which devices are used, and what happens to a clip.

use vstd::prelude::*;
use vstd::string::*;

use crate::audio;
use crate::audio::AudioDevice;
use crate::capture::CaptureError;
use crate::capture_args;
use crate::config;
use crate::config::AppConfig;
use crate::ffmpeg::InstallState;
use crate::model::{Clip, EditProject, PublishJob, PublishStatus, PublishTarget};
use crate::paths;
use crate::paths::HostSystem;
use crate::publish;
use crate::publish::{PublishError, PublishQueue};
use crate::services::clock;
use crate::services::clock::Timestamp;
use crate::services::ids;
use crate::services::letters;
use crate::startup::AUTOSTART_FLAG;
use crate::text;

verus! {

/// Whether the window stays hidden at the start: the system launched the program, and
/// the settings, if they could be read, ask for it.
pub fn starts_hidden(arguments: &Vec<String>, minimized: Option<bool>) -> (r: bool)
    ensures
        r == (arguments.deep_view().contains(AUTOSTART_FLAG@) && minimized == Some(true)),
{
    let mut launched = false;
    let mut i: usize = 0;
    while i < arguments.len() && !launched
        invariant
            i <= arguments.len(),
            !launched ==> forall|j: int|
                0 <= j < i ==> arguments.deep_view()[j] != AUTOSTART_FLAG@,
            launched ==> arguments.deep_view().contains(AUTOSTART_FLAG@),
        decreases arguments.len() - i,
    {
        assert(arguments.deep_view()[i as int] == arguments@[i as int]@);
        if text::same(arguments[i].as_str(), AUTOSTART_FLAG) {
            launched = true;
        }
        i += 1;
    }
    match minimized {
        Some(wanted) => launched && wanted,
        None => false,
    }
}

/// Whether closing the window only hides it: the settings ask for it, the program can be
/// brought back from the notification area, and it was not told to quit.
pub fn hides_on_close(
    close_requested: bool,
    minimize_to_tray: bool,
    has_tray: bool,
    quit_requested: bool,
) -> (r: bool)
    ensures
        r == (close_requested && minimize_to_tray && has_tray && !quit_requested),
{
    close_requested && minimize_to_tray && has_tray && !quit_requested
}

/// What is shown at the start: what matters most, the last of these that applies.
pub fn initial_status(
    ffmpeg_ready: bool,
    state: &InstallState,
    startup_error: Option<String>,
    tray_error: Option<String>,
    started_hidden: bool,
) -> (r: String)
    ensures
        r@ == if tray_error is Some {
            "System tray is unavailable: "@ + tray_error->0@
        } else if started_hidden {
            "Xyra started in the system tray"@
        } else if startup_error is Some {
            "Could not update Windows startup: "@ + startup_error->0@
        } else if ffmpeg_ready {
            "Ready to capture"@
        } else {
            state.text()
        },
{
    if let Some(error) = tray_error {
        let mut out = "System tray is unavailable: ".to_owned();
        out.append(error.as_str());
        return out;
    }
    if started_hidden {
        return "Xyra started in the system tray".to_owned();
    }
    if let Some(error) = startup_error {
        let mut out = "Could not update Windows startup: ".to_owned();
        out.append(error.as_str());
        return out;
    }
    if ffmpeg_ready {
        "Ready to capture".to_owned()
    } else {
        state.label()
    }
}

/// When changed settings are saved. Times are milliseconds on the program's own clock.
#[derive(Debug)]
pub struct AutoSave {
    pub saved: String,
    pub due: Option<u64>,
}

/// What is to be done about settings that may have changed.
#[derive(Debug, Clone, Copy, PartialEq, Eq, Structural)]
pub enum SaveStep {
    Nothing,
    Wait(u64),
    Save,
}

/// How long changed settings rest before they are saved, and how long after a failure.
pub const SAVE_DELAY_MILLIS: u64 = 350;

pub const RETRY_DELAY_MILLIS: u64 = 2000;

impl AutoSave {
    /// The settings are saved as `saved`.
    pub fn new(saved: String) -> (r: Self)
        ensures
            r.saved == saved,
            r.due is None,
    {
        AutoSave { saved, due: None }
    }

    /// When settings that read `current` at the time `now` are to be saved, and what is to
    /// be done until then.
    pub open spec fn plan(saved: Seq<char>, due: Option<u64>, current: Seq<char>, now: u64) -> (
        Option<u64>,
        SaveStep,
    ) {
        if current == saved {
            (None, SaveStep::Nothing)
        } else {
            let time = match due {
                Some(time) => time,
                None => (now + SAVE_DELAY_MILLIS) as u64,
            };
            (
                Some(time),
                if now < time {
                    SaveStep::Wait((time - now) as u64)
                } else {
                    SaveStep::Save
                },
            )
        }
    }

    /// What is to be done when the settings read `current` at the time `now`: nothing
    /// where they are saved; else they are saved once they have rested long enough.
    pub fn poll(&mut self, current: &str, now: u64) -> (r: SaveStep)
        requires
            now + SAVE_DELAY_MILLIS <= u64::MAX,
        ensures
            final(self).saved == old(self).saved,
            (final(self).due, r) == AutoSave::plan(
                old(self).saved@,
                old(self).due,
                current@,
                now,
            ),
    {
        if text::same(current, self.saved.as_str()) {
            self.due = None;
            return SaveStep::Nothing;
        }
        let due: u64 = match self.due {
            Some(time) => time,
            None => now + SAVE_DELAY_MILLIS,
        };
        self.due = Some(due);
        if now < due {
            SaveStep::Wait(due - now)
        } else {
            SaveStep::Save
        }
    }

    /// Takes note of how saving `current` ended at the time `now`.
    pub fn finished(&mut self, current: String, now: u64, success: bool)
        requires
            now + RETRY_DELAY_MILLIS <= u64::MAX,
        ensures
            success ==> final(self).saved == current && final(self).due is None,
            !success ==> final(self).saved == old(self).saved && final(self).due == Some(
                (now + RETRY_DELAY_MILLIS) as u64,
            ),
    {
        if success {
            self.saved = current;
            self.due = None;
        } else {
            self.due = Some(now + RETRY_DELAY_MILLIS);
        }
    }
}

/// Every change is saved, and none at once: settings seen changed for the first time wait
/// their delay, whatever they change to meanwhile, and are saved when it is over; settings
/// that change back are left alone.
pub proof fn changes_are_saved_after_a_rest(
    saved: Seq<char>,
    first: Seq<char>,
    later: Seq<char>,
    now: u64,
    then: u64,
)
    requires
        first != saved,
        now <= then,
        now + SAVE_DELAY_MILLIS <= u64::MAX,
    ensures
        ({
            let (due, step) = AutoSave::plan(saved, None, first, now);
            &&& step == SaveStep::Wait(SAVE_DELAY_MILLIS)
            &&& due == Some((now + SAVE_DELAY_MILLIS) as u64)
            &&& later != saved ==> (AutoSave::plan(saved, due, later, then).1 == SaveStep::Save
                <==> then >= now + SAVE_DELAY_MILLIS)
            &&& later == saved ==> AutoSave::plan(saved, due, later, then) == (
                None::<u64>,
                SaveStep::Nothing,
            )
        }),
{
}

/// What is shown after settings were saved by themselves; nothing where all went well.
pub fn auto_save_status(saved: &Result<(), String>, startup: &Result<(), String>) -> (r: Option<
    String,
>)
    ensures
        match r {
            None => *saved is Ok && *startup is Ok,
            Some(shown) => match *saved {
                Err(error) => shown@ == "Could not auto-save settings: "@ + error@,
                Ok(_) => *startup matches Err(error) && shown@
                    == "Settings saved, but Windows startup failed: "@ + error@,
            },
        },
{
    match saved {
        Err(error) => {
            let mut out = "Could not auto-save settings: ".to_owned();
            out.append(error.as_str());
            Some(out)
        },
        Ok(_) => match startup {
            Err(error) => {
                let mut out = "Settings saved, but Windows startup failed: ".to_owned();
                out.append(error.as_str());
                Some(out)
            },
            Ok(_) => None,
        },
    }
}

/// What is shown after starting or stopping the replay buffer.
pub fn toggle_status(was_running: bool, outcome: Result<(), CaptureError>) -> (r: String)
    ensures
        r@ == match outcome {
            Ok(_) => if was_running {
                "Replay buffer stopped"@
            } else {
                "Replay buffer is recording"@
            },
            Err(error) => error.text(),
        },
{
    match outcome {
        Ok(_) => {
            if was_running {
                "Replay buffer stopped".to_owned()
            } else {
                "Replay buffer is recording".to_owned()
            }
        },
        Err(error) => error.message(),
    }
}

/// A time in whole seconds, halves up, as far as 32 bits count.
pub open spec fn whole_seconds(millis: int) -> nat {
    capture_args::saturated(capture_args::nearest(millis, 1000))
}

/// What is shown after a clip was saved, or not.
pub open spec fn saved_text(outcome: Result<Clip, CaptureError>) -> Seq<char> {
    match outcome {
        Ok(clip) => "Saved the previous "@ + text::decimal(
            whole_seconds(clip.duration_millis as int),
        ) + " sec to "@ + clip.path@,
        Err(error) => error.text(),
    }
}

/// What is shown after a clip was saved, or not.
pub fn saved_status(outcome: &Result<Clip, CaptureError>) -> (r: String)
    ensures
        r@ == saved_text(*outcome),
{
    match outcome {
        Ok(clip) => {
            let seconds: u64 = clip.duration_millis / 1000 + (if clip.duration_millis % 1000 >= 500 {
                1u64
            } else {
                0u64
            });
            let mut out = "Saved the previous ".to_owned();
            text::push_decimal(
                &mut out,
                if seconds > 0xffff_ffff {
                    0xffff_ffff
                } else {
                    seconds
                },
            );
            out.append(" sec to ");
            out.append(clip.path.as_str());
            out
        },
        Err(error) => error.message(),
    }
}

/// The clip that is open, and how it is edited.
#[derive(Debug, Clone, Copy)]
pub struct Selection {
    pub selected: Option<usize>,
    pub project: Option<EditProject>,
}

impl Selection {
    /// No clip is open.
    pub fn new() -> (r: Self)
        ensures
            r.selected is None,
            r.project is None,
    {
        Selection { selected: None, project: None }
    }

    /// Opens the clip at `index`; the whole of it is kept to begin with. The result tells
    /// whether there is such a clip.
    pub fn select(&mut self, clips: &Vec<Clip>, index: usize) -> (r: bool)
        ensures
            r == (index < clips@.len()),
            final(self).selected == Some(index),
            final(self).project == if index < clips@.len() {
                Some(
                    EditProject {
                        clip_id: clips@[index as int].id,
                        trim_start_millis: 0,
                        trim_end_millis: clips@[index as int].duration_millis,
                    },
                )
            } else {
                old(self).project
            },
    {
        self.selected = Some(index);
        if index < clips.len() {
            self.project = Some(EditProject::for_clip(&clips[index]));
            true
        } else {
            false
        }
    }

    /// The clip that is open.
    pub open spec fn open_clip(self, clips: Seq<Clip>) -> Option<Clip> {
        match self.selected {
            Some(index) if index < clips.len() => Some(clips[index as int]),
            _ => None,
        }
    }

    /// The clip that is open.
    pub fn clip<'a>(&self, clips: &'a Vec<Clip>) -> (r: Option<&'a Clip>)
        ensures
            match r {
                Some(clip) => self.open_clip(clips@) == Some(*clip),
                None => self.open_clip(clips@) is None,
            },
    {
        match self.selected {
            Some(index) => {
                if index < clips.len() {
                    Some(&clips[index])
                } else {
                    None
                }
            },
            None => None,
        }
    }
}

/// `job` publishes `clip` to `targets`.
pub open spec fn publishes(job: PublishJob, clip: Clip, targets: Seq<PublishTarget>) -> bool {
    &&& job.clip_id == clip.id
    &&& job.clip_path@ == clip.path@
    &&& job.title@ == clip.title@
    &&& job.description@ == clip.description@
    &&& job.targets@ == targets
    &&& job.status == PublishStatus::Queued
}

/// The job that publishes `clip` to `targets`.
pub fn publish_job(clip: &Clip, targets: &Vec<PublishTarget>, id: u128, created_at: Timestamp) -> (r:
    PublishJob)
    ensures
        publishes(r, *clip, targets@),
        r.id == id,
        r.created_at == created_at,
{
    let copied = targets.clone();
    assert(copied@ =~= targets@);
    PublishJob {
        id,
        clip_id: clip.id,
        clip_path: clip.path.clone(),
        title: clip.title.clone(),
        description: clip.description.clone(),
        targets: copied,
        created_at,
        status: PublishStatus::Queued,
    }
}

/// What is shown after a job was queued, or not.
pub fn queue_status(outcome: &Result<(), PublishError>) -> (r: String)
    ensures
        r@ == match *outcome {
            Ok(_) => "Upload queued"@,
            Err(PublishError::NoDestination) => "select at least one destination"@,
            Err(PublishError::UnsupportedVisibility(platform, visibility)) => platform@
                + " does not support "@ + visibility@ + " visibility"@,
        },
{
    match outcome {
        Ok(_) => "Upload queued".to_owned(),
        Err(error) => error.message(),
    }
}

/// `job` publishes `clip` to `targets`, under an identifier that was drawn for it and the
/// time that the clock gave.
pub open spec fn is_new_job(job: PublishJob, clip: Clip, targets: Seq<PublishTarget>) -> bool {
    publishes(job, clip, targets) && ids::is_drawn(job.id) && clock::was_read(job.created_at)
}

/// `after` are the jobs of `before` and a new one, which publishes `clip` to `targets`.
pub open spec fn is_appended(
    before: Seq<PublishJob>,
    clip: Clip,
    targets: Seq<PublishTarget>,
    after: Seq<PublishJob>,
) -> bool {
    exists|job: PublishJob| #[trigger]
        is_new_job(job, clip, targets) && publish::is_acceptable(job) && after == before.push(job)
}

/// `after` are the jobs of `before` once `clip` was to be queued for `targets`, and `shown`
/// is what the user is told: a new job is appended. Without a clip, or with targets that
/// cannot be published to, the queue stays as it is.
pub open spec fn is_queued(
    before: Seq<PublishJob>,
    clip: Option<Clip>,
    targets: Seq<PublishTarget>,
    after: Seq<PublishJob>,
    shown: Seq<char>,
) -> bool {
    match clip {
        None => after == before && shown == "Select a clip before publishing"@,
        Some(clip) => {
            ||| is_appended(before, clip, targets, after) && shown == "Upload queued"@
            ||| !publish::any_enabled(targets) && after == before && shown
                == "select at least one destination"@
            ||| exists|i: int| #[trigger]
                publish::first_refused(targets, i) && after == before && shown
                    == targets[i].platform.name() + " does not support "@
                    + targets[i].visibility.name() + " visibility"@
        },
    }
}

/// Queues a clip for publishing and tells what to show.
pub fn queue_publish(queue: &mut PublishQueue, clip: Option<&Clip>, targets: &Vec<PublishTarget>) -> (r:
    String)
    ensures
        old(queue).wf() ==> final(queue).wf(),
        is_queued(
            old(queue).jobs@,
            match clip {
                Some(clip) => Some(*clip),
                None => None,
            },
            targets@,
            final(queue).jobs@,
            r@,
        ),
{
    match clip {
        None => "Select a clip before publishing".to_owned(),
        Some(clip) => {
            let job = publish_job(clip, targets, ids::random_id(), clock::now());
            let ghost made = job;
            assert(publishes(made, *clip, targets@));
            let outcome = queue.enqueue(job);
            let shown = queue_status(&outcome);
            proof {
                assert(made.targets@ == targets@);
                match outcome {
                    Ok(_) => {
                        assert(is_new_job(made, *clip, targets@));
                        assert(is_appended(old(queue).jobs@, *clip, targets@, queue.jobs@));
                    },
                    Err(PublishError::NoDestination) => {},
                    Err(PublishError::UnsupportedVisibility(platform, visibility)) => {
                        let i = choose|i: int| #[trigger]
                            publish::first_refused(targets@, i) && platform@
                                == targets@[i].platform.name() && visibility@
                                == targets@[i].visibility.name();
                        assert(publish::first_refused(targets@, i));
                    },
                }
            }
            shown
        },
    }
}

/// The targets that a clip is queued for as soon as it is saved: none unless the settings
/// ask for it.
pub fn auto_queue_targets(config: &AppConfig) -> (r: Option<Vec<PublishTarget>>)
    ensures
        match r {
            Some(targets) => config.auto_queue_after_clip && targets@ == config.publish_targets@,
            None => !config.auto_queue_after_clip,
        },
{
    if config.auto_queue_after_clip {
        let targets = config.publish_targets.clone();
        assert(targets@ =~= config.publish_targets@);
        Some(targets)
    } else {
        None
    }
}

/// Takes a clip that was saved, or not: it comes first in the list, and is queued at once
/// where the settings ask for it. The result tells whether there is a clip, and what to
/// show.
pub fn take_saved(
    clips: &mut Vec<Clip>,
    queue: &mut PublishQueue,
    config: &AppConfig,
    outcome: Result<Clip, CaptureError>,
) -> (r: (bool, String))
    ensures
        old(queue).wf() ==> final(queue).wf(),
        match outcome {
            Err(_) => {
                &&& !r.0
                &&& r.1@ == saved_text(outcome)
                &&& final(clips)@ == old(clips)@
                &&& final(queue).jobs@ == old(queue).jobs@
            },
            Ok(clip) => {
                &&& r.0
                &&& final(clips)@ == seq![clip] + old(clips)@
                &&& if config.auto_queue_after_clip {
                    is_queued(
                        old(queue).jobs@,
                        Some(clip),
                        config.publish_targets@,
                        final(queue).jobs@,
                        r.1@,
                    )
                } else {
                    final(queue).jobs@ == old(queue).jobs@ && r.1@ == saved_text(outcome)
                }
            },
        },
{
    let mut shown = saved_status(&outcome);
    match outcome {
        Err(_) => (false, shown),
        Ok(clip) => {
            if let Some(targets) = auto_queue_targets(config) {
                shown = queue_publish(queue, Some(&clip), &targets);
            }
            clips.insert(0, clip);
            assert(clips@ =~= seq![clip] + old(clips)@);
            (true, shown)
        },
    }
}

/// What follows from a change of the installation's state.
#[derive(Debug, Clone, Copy, PartialEq, Eq, Structural)]
pub enum InstallFollowUp {
    UseInstalled,
    MarkMissing,
    Nothing,
}

/// What follows from a change of the installation's state, and what is shown.
pub fn install_follow_up(state: &InstallState) -> (r: (InstallFollowUp, String))
    ensures
        match *state {
            InstallState::Ready => r.0 == InstallFollowUp::UseInstalled && r.1@
                == "FFmpeg installed automatically. Capture is ready."@,
            InstallState::Failed(error) => r.0 == InstallFollowUp::MarkMissing && r.1@
                == "FFmpeg setup failed: "@ + error@,
            _ => r.0 == InstallFollowUp::Nothing && r.1@ == state.text(),
        },
{
    match state {
        InstallState::Ready => (
            InstallFollowUp::UseInstalled,
            "FFmpeg installed automatically. Capture is ready.".to_owned(),
        ),
        InstallState::Failed(error) => {
            let mut out = "FFmpeg setup failed: ".to_owned();
            out.append(error.as_str());
            (InstallFollowUp::MarkMissing, out)
        },
        _ => (InstallFollowUp::Nothing, state.label()),
    }
}

/// The installation is under way.
pub open spec fn under_way(state: InstallState) -> bool {
    state is Starting || state is Downloading || state is Unpacking
}

/// Whether the installation is under way.
pub fn is_installing(state: &InstallState) -> (r: bool)
    ensures
        r == under_way(*state),
{
    match state {
        InstallState::Starting => true,
        InstallState::Downloading { .. } => true,
        InstallState::Unpacking => true,
        _ => false,
    }
}

/// The settings as they are when the user saves them: the FFmpeg that was typed in, and a
/// size that can be encoded.
pub fn confirmed_settings(config: AppConfig, ffmpeg_input: &str) -> (r: AppConfig)
    ensures
        r.ffmpeg_path@ == text::trim(ffmpeg_input@),
        r.output_width == config::even_at_least(config.output_width as int, 640),
        r.output_height == config::even_at_least(config.output_height as int, 360),
        r == (AppConfig {
            ffmpeg_path: r.ffmpeg_path,
            output_width: r.output_width,
            output_height: r.output_height,
            ..config
        }),
{
    let ffmpeg_path = text::trimmed(ffmpeg_input);
    let output_width = config::even_size(config.output_width, 640);
    let output_height = config::even_size(config.output_height, 360);
    AppConfig { ffmpeg_path, output_width, output_height, ..config }
}

/// Whether the installer has to be set up anew for the FFmpeg at `selected`: it is another
/// one, or nothing is being installed.
pub fn restarts_installer(
    host: HostSystem,
    selected: &str,
    destination: &str,
    state: &InstallState,
) -> (r: bool)
    ensures
        r == (!paths::path_eq(host, selected@, destination@) || !under_way(*state)),
{
    !paths::same_path(host, selected, destination) || !is_installing(state)
}

/// What is shown after the user saved the settings.
pub fn settings_status(
    saved: Result<(), String>,
    startup: Result<(), String>,
    ffmpeg_ready: bool,
    state: &InstallState,
) -> (r: String)
    ensures
        r@ == match saved {
            Err(error) => error@,
            Ok(_) => match startup {
                Err(error) => "Settings saved, but Windows startup failed: "@ + error@,
                Ok(_) => if ffmpeg_ready {
                    "Settings saved. FFmpeg is ready."@
                } else {
                    state.text()
                },
            },
        },
{
    match saved {
        Err(error) => error,
        Ok(_) => match startup {
            Err(error) => {
                let mut out = "Settings saved, but Windows startup failed: ".to_owned();
                out.append(error.as_str());
                out
            },
            Ok(_) => {
                if ffmpeg_ready {
                    "Settings saved. FFmpeg is ready.".to_owned()
                } else {
                    state.label()
                }
            },
        },
    }
}

/// The button that goes back to the program's own FFmpeg, where it is of use: its text,
/// and whether it can be pressed.
pub fn managed_button(host: HostSystem, destination: &str, managed: &str, state: &InstallState) -> (r:
    Option<(&'static str, bool)>)
    ensures
        match r {
            Some(button) => {
                &&& !paths::path_eq(host, destination@, managed@) || *state is Failed
                &&& button.0@ == if paths::path_eq(host, destination@, managed@) {
                    "Retry bundled FFmpeg"@
                } else {
                    "Use bundled FFmpeg"@
                }
                &&& button.1 == !under_way(*state)
            },
            None => paths::path_eq(host, destination@, managed@) && !(*state is Failed),
        },
{
    let selected = paths::same_path(host, destination, managed);
    let failed = match state {
        InstallState::Failed(_) => true,
        _ => false,
    };
    if !selected || failed {
        Some(
            (
                if selected {
                    "Retry bundled FFmpeg"
                } else {
                    "Use bundled FFmpeg"
                },
                !is_installing(state),
            ),
        )
    } else {
        None
    }
}

/// The device `id` is among `devices` and carries the sound of the desktop.
pub open spec fn desktop_valid(devices: Seq<AudioDevice>, id: Option<String>) -> bool {
    id matches Some(name) && exists|i: int|
        0 <= i < devices.len() && (#[trigger] devices[i]).id@ == name@ && devices[i].is_desktop()
}

/// The device `id` is among `devices` and is a microphone.
pub open spec fn microphone_valid(devices: Seq<AudioDevice>, id: Option<String>) -> bool {
    id matches Some(name) && exists|i: int|
        0 <= i < devices.len() && (#[trigger] devices[i]).id@ == name@ && devices[i].is_microphone()
}

/// `id` is the device to record the desktop with, as far as there is one.
pub open spec fn desktop_pick(devices: Seq<AudioDevice>, id: Option<String>) -> bool {
    match id {
        Some(name) => exists|i: int| #[trigger]
            audio::first_desktop(devices, i) && name@ == devices[i].id@,
        None => forall|i: int| 0 <= i < devices.len() ==> !(#[trigger] devices[i]).is_desktop(),
    }
}

/// `id` is the device to record the voice with, as far as there is one.
pub open spec fn microphone_pick(devices: Seq<AudioDevice>, id: Option<String>) -> bool {
    match id {
        Some(name) => exists|i: int| #[trigger]
            audio::microphone_choice(devices, i) && name@ == devices[i].id@,
        None => forall|i: int|
            0 <= i < devices.len() ==> (#[trigger] devices[i]).is_desktop()
                && !devices[i].is_microphone(),
    }
}

/// `after` are the settings `before`, brought in line with the devices that are there: a
/// chosen device that is there, and fit for its role, is kept; else the recommended one
/// takes its place, and recording is switched off where there is none.
pub open spec fn synced(before: AppConfig, after: AppConfig, devices: Seq<AudioDevice>) -> bool {
    &&& if desktop_valid(devices, before.desktop_audio_device) {
        after.desktop_audio_device == before.desktop_audio_device && after.desktop_audio_enabled
            == before.desktop_audio_enabled
    } else {
        &&& desktop_pick(devices, after.desktop_audio_device)
        &&& after.desktop_audio_enabled == (before.desktop_audio_enabled
            && after.desktop_audio_device is Some)
    }
    &&& if microphone_valid(devices, before.microphone_device) {
        after.microphone_device == before.microphone_device && after.microphone_enabled
            == before.microphone_enabled
    } else {
        &&& microphone_pick(devices, after.microphone_device)
        &&& after.microphone_enabled == (before.microphone_enabled && after.microphone_device
            is Some)
    }
    &&& after == (AppConfig {
        desktop_audio_device: after.desktop_audio_device,
        desktop_audio_enabled: after.desktop_audio_enabled,
        microphone_device: after.microphone_device,
        microphone_enabled: after.microphone_enabled,
        ..before
    })
}

/// Whether the device `id` is there and carries the sound of the desktop.
fn has_desktop(devices: &Vec<AudioDevice>, id: &Option<String>) -> (r: bool)
    ensures
        r == desktop_valid(devices@, *id),
{
    match id {
        None => false,
        Some(name) => {
            let mut i: usize = 0;
            while i < devices.len()
                invariant
                    i <= devices.len(),
                    forall|j: int|
                        0 <= j < i ==> !((#[trigger] devices@[j]).id@ == name@
                            && devices@[j].is_desktop()),
                    *id == Some(*name),
                decreases devices.len() - i,
            {
                if text::same(devices[i].id.as_str(), name.as_str())
                    && audio::is_desktop_audio_device(&devices[i]) {
                    return true;
                }
                i += 1;
            }
            false
        },
    }
}

/// Whether the device `id` is there and is a microphone.
fn has_microphone(devices: &Vec<AudioDevice>, id: &Option<String>) -> (r: bool)
    ensures
        r == microphone_valid(devices@, *id),
{
    match id {
        None => false,
        Some(name) => {
            let mut i: usize = 0;
            while i < devices.len()
                invariant
                    i <= devices.len(),
                    forall|j: int|
                        0 <= j < i ==> !((#[trigger] devices@[j]).id@ == name@
                            && devices@[j].is_microphone()),
                    *id == Some(*name),
                decreases devices.len() - i,
            {
                if text::same(devices[i].id.as_str(), name.as_str())
                    && audio::is_microphone_device(&devices[i]) {
                    return true;
                }
                i += 1;
            }
            false
        },
    }
}

/// Brings the settings in line with the devices that are there.
pub fn sync_audio_device_selection(config: AppConfig, devices: &Vec<AudioDevice>) -> (r: AppConfig)
    ensures
        synced(config, r, devices@),
{
    let keep_desktop = has_desktop(devices, &config.desktop_audio_device);
    let keep_microphone = has_microphone(devices, &config.microphone_device);
    let desktop_audio_device: Option<String> = if keep_desktop {
        text::copied(&config.desktop_audio_device)
    } else {
        match audio::recommended_desktop_audio(devices.as_slice()) {
            Some(device) => Some(device.id.clone()),
            None => None,
        }
    };
    let microphone_device: Option<String> = if keep_microphone {
        text::copied(&config.microphone_device)
    } else {
        match audio::recommended_microphone(devices.as_slice()) {
            Some(device) => Some(device.id.clone()),
            None => None,
        }
    };
    let desktop_audio_enabled = config.desktop_audio_enabled && (keep_desktop
        || desktop_audio_device.is_some());
    let microphone_enabled = config.microphone_enabled && (keep_microphone
        || microphone_device.is_some());
    AppConfig {
        desktop_audio_device,
        desktop_audio_enabled,
        microphone_device,
        microphone_enabled,
        ..config
    }
}

/// Settings that are in line with the devices stay as they are when they are brought in
/// line again.
pub proof fn syncing_twice_changes_nothing(
    before: AppConfig,
    once: AppConfig,
    twice: AppConfig,
    devices: Seq<AudioDevice>,
)
    requires
        synced(before, once, devices),
        synced(once, twice, devices),
    ensures
        twice.desktop_audio_enabled == once.desktop_audio_enabled,
        twice.microphone_enabled == once.microphone_enabled,
        text::shown(twice.desktop_audio_device) == text::shown(once.desktop_audio_device),
        text::shown(twice.microphone_device) == text::shown(once.microphone_device),
{
    if !desktop_valid(devices, before.desktop_audio_device) {
        if let Some(name) = once.desktop_audio_device {
            let i = choose|i: int| #[trigger]
                audio::first_desktop(devices, i) && name@ == devices[i].id@;
            assert(devices[i].is_desktop() && devices[i].id@ == name@);
            assert(desktop_valid(devices, once.desktop_audio_device));
        } else if let Some(name) = twice.desktop_audio_device {
            let i = choose|i: int| #[trigger]
                audio::first_desktop(devices, i) && name@ == devices[i].id@;
            assert(devices[i].is_desktop());
        }
    }
    if !microphone_valid(devices, before.microphone_device) {
        if !microphone_valid(devices, once.microphone_device) {
            lemma_same_pick(devices, once.microphone_device, twice.microphone_device);
        }
    }
}

/// There is one device to record the voice with.
proof fn lemma_same_pick(devices: Seq<AudioDevice>, a: Option<String>, b: Option<String>)
    requires
        microphone_pick(devices, a),
        microphone_pick(devices, b),
    ensures
        text::shown(a) == text::shown(b),
{
    if let Some(x) = a {
        let i = choose|i: int| #[trigger]
            audio::microphone_choice(devices, i) && x@ == devices[i].id@;
        assert(0 <= i < devices.len());
        if let Some(y) = b {
            let j = choose|j: int| #[trigger]
                audio::microphone_choice(devices, j) && y@ == devices[j].id@;
            assert(0 <= j < devices.len());
            if audio::any_microphone(devices) {
                assert(audio::first_microphone(devices, i));
                assert(audio::first_microphone(devices, j));
                if i < j {
                    assert(devices[i].is_microphone());
                } else if j < i {
                    assert(devices[j].is_microphone());
                }
            } else {
                assert(!devices[i].is_microphone() && !devices[j].is_microphone());
                if i < j {
                    assert(devices[i].is_desktop());
                } else if j < i {
                    assert(devices[j].is_desktop());
                }
            }
        } else {
            assert(devices[i].is_desktop() && !devices[i].is_microphone());
        }
    } else if let Some(y) = b {
        let j = choose|j: int| #[trigger]
            audio::microphone_choice(devices, j) && y@ == devices[j].id@;
        assert(devices[j].is_desktop() && !devices[j].is_microphone());
    }
}

/// What is recorded of the desktop after the settings were brought in line is there, and
/// carries its sound.
pub proof fn synced_desktop_is_real(before: AppConfig, after: AppConfig, devices: Seq<AudioDevice>)
    requires
        synced(before, after, devices),
        after.desktop_audio_enabled,
    ensures
        desktop_valid(devices, after.desktop_audio_device),
{
    if !desktop_valid(devices, before.desktop_audio_device) {
        let name = after.desktop_audio_device->0;
        let i = choose|i: int| #[trigger]
            audio::first_desktop(devices, i) && name@ == devices[i].id@;
        assert(devices[i].is_desktop() && devices[i].id@ == name@);
    }
}

/// The title holds what was searched for, in whatever case it is written.
pub open spec fn matches_search(clip: Clip, search: Seq<char>) -> bool {
    text::contains(letters::text_lower(clip.title@), letters::text_lower(search))
}

/// Where the clips stand that match a search, in order.
pub open spec fn found_clips(clips: Seq<Clip>, search: Seq<char>) -> Seq<int>
    decreases clips.len(),
{
    if clips.len() == 0 {
        Seq::empty()
    } else {
        let before = found_clips(clips.drop_last(), search);
        if matches_search(clips.last(), search) {
            before.push(clips.len() - 1)
        } else {
            before
        }
    }
}

/// Where the clips stand that match a search, in order.
pub fn visible_clips(clips: &Vec<Clip>, search: &str) -> (r: Vec<usize>)
    ensures
        r@.map_values(|i: usize| i as int) == found_clips(clips@, search@),
{
    let wanted = letters::lower_text(search);
    let mut found: Vec<usize> = Vec::new();
    let mut i: usize = 0;
    assert(found@.map_values(|i: usize| i as int) =~= Seq::empty());
    while i < clips.len()
        invariant
            i <= clips.len(),
            wanted@ == letters::text_lower(search@),
            found@.map_values(|i: usize| i as int) == found_clips(clips@.take(i as int), search@),
        decreases clips.len() - i,
    {
        assert(clips@.take(i + 1).drop_last() =~= clips@.take(i as int));
        let ghost before = found@;
        let title = letters::lower_text(clips[i].title.as_str());
        if text::has(title.as_str(), wanted.as_str()) {
            found.push(i);
            assert(found@.map_values(|i: usize| i as int) =~= before.map_values(
                |i: usize| i as int,
            ).push(i as int));
        }
        i += 1;
    }
    assert(clips@.take(i as int) =~= clips@);
    found
}

/// The file that an edited clip is written to, beside it.
pub open spec fn edited_path(host: HostSystem, input: Seq<char>) -> Seq<char> {
    let stem = match paths::file_name(host, input) {
        Some(name) => paths::stem(name),
        None => "clip"@,
    };
    paths::with_file_name(host, input, stem + "-edited.mp4"@)
}

/// The file that an edited clip is written to.
pub fn export_path(host: HostSystem, input: &str) -> (r: String)
    ensures
        r@ == edited_path(host, input@),
{
    let mut name = match paths::name_of(host, input) {
        Some(name) => paths::stem_of(name.as_str()),
        None => "clip".to_owned(),
    };
    name.append("-edited.mp4");
    paths::sibling(host, input, name.as_str())
}

} // verus!
