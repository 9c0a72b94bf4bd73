//! The replay buffer: which engine records it, and how a clip is made from it.

use vstd::prelude::*;
use vstd::string::*;

use crate::capture_args;
use crate::config::{AppConfig, CaptureEngine, EncoderBackend, VideoAspectRatio};
use crate::display;
use crate::display::MonitorInfo;
use crate::model::Clip;
use crate::obs_capture::{ObsCaptureEngine, ObsCaptureError, ObsReplayRequest};
use crate::order;
use crate::order::Rank;
use crate::paths;
use crate::paths::HostSystem;
use crate::services::bytes;
use crate::services::clock;
use crate::services::clock::Timestamp;
use crate::text;
use crate::windows_audio;

verus! {

/// Why recording or saving failed.
#[derive(Debug)]
pub enum CaptureError {
    FfmpegMissing(String),
    AlreadyRunning,
    NotRunning,
    EmptyBuffer,
    EncoderUnavailable(&'static str),
    Obs(String),
    ProcessFailed(String),
    Io(String),
}

impl CaptureError {
    /// The message shown for the error.
    pub open spec fn text(self) -> Seq<char> {
        match self {
            CaptureError::FfmpegMissing(path) => "FFmpeg was not found at '"@ + path@
                + "'. Retry the bundled setup or choose a custom path in Settings."@,
            CaptureError::AlreadyRunning => "replay buffer is already running"@,
            CaptureError::NotRunning => "replay buffer is not running"@,
            CaptureError::EmptyBuffer => "not enough buffered video yet; wait a few seconds"@,
            CaptureError::EncoderUnavailable(name) => name@
                + " is not available in the bundled FFmpeg build or graphics driver"@,
            CaptureError::Obs(error) => "OBS capture failed: "@ + error@,
            CaptureError::ProcessFailed(error) => "media operation failed: "@ + error@,
            CaptureError::Io(error) => "file operation failed: "@ + error@,
        }
    }

    /// The message shown for the error.
    pub fn message(&self) -> (r: String)
        ensures
            r@ == self.text(),
    {
        match self {
            Self::FfmpegMissing(path) => {
                let mut out = "FFmpeg was not found at '".to_owned();
                out.append(path.as_str());
                out.append("'. Retry the bundled setup or choose a custom path in Settings.");
                out
            },
            Self::AlreadyRunning => "replay buffer is already running".to_owned(),
            Self::NotRunning => "replay buffer is not running".to_owned(),
            Self::EmptyBuffer => "not enough buffered video yet; wait a few seconds".to_owned(),
            Self::EncoderUnavailable(name) => {
                let mut out = (*name).to_owned();
                out.append(" is not available in the bundled FFmpeg build or graphics driver");
                out
            },
            Self::Obs(error) => {
                let mut out = "OBS capture failed: ".to_owned();
                out.append(error.as_str());
                out
            },
            Self::ProcessFailed(error) => {
                let mut out = "media operation failed: ".to_owned();
                out.append(error.as_str());
                out
            },
            Self::Io(error) => {
                let mut out = "file operation failed: ".to_owned();
                out.append(error.as_str());
                out
            },
        }
    }
}

/// What records at the moment. The FFmpeg recorder may have a relay beside it that
/// brings it the sound of a Windows endpoint.
#[derive(Debug, Clone, Copy, PartialEq, Eq, Structural)]
pub enum Recorder {
    Idle,
    Obs,
    Ffmpeg { relayed: bool },
}

/// The state of recording: what records, and with which encoder.
#[derive(Debug, Clone, Copy, PartialEq, Eq, Structural)]
pub struct CaptureManager {
    pub recorder: Recorder,
    pub active_encoder: Option<EncoderBackend>,
}

/// What is left to clean up of a recorder that has ended by itself.
#[derive(Debug, Clone, Copy, PartialEq, Eq, Structural)]
pub enum Cleanup {
    Nothing,
    DropObs,
    ReapFfmpeg { relayed: bool },
}

/// What starting does next.
#[derive(Debug, Clone, Copy, PartialEq, Eq, Structural)]
pub enum StartStep {
    TryObs,
    TryFfmpeg,
}

/// What stopping does next.
#[derive(Debug, Clone, Copy, PartialEq, Eq, Structural)]
pub enum StopStep {
    StopObs,
    StopFfmpeg { relayed: bool },
}

/// What waiting for FFmpeg to end does next.
#[derive(Debug, Clone, Copy, PartialEq, Eq, Structural)]
pub enum FinishStep {
    Done,
    Wait { millis: u64 },
    Kill,
}

/// How long FFmpeg is given to end by itself, in milliseconds.
pub const FINISH_MILLIS: u64 = 2000;

/// What follows once FFmpeg was asked to end and `waited_millis` have passed: it is looked
/// at every 25 milliseconds, and killed where it still runs after two seconds.
pub fn finish_step(exited: bool, waited_millis: u64) -> (r: FinishStep)
    ensures
        r == if exited {
            FinishStep::Done
        } else if waited_millis < FINISH_MILLIS {
            FinishStep::Wait { millis: 25 }
        } else {
            FinishStep::Kill
        },
{
    if exited {
        FinishStep::Done
    } else if waited_millis < FINISH_MILLIS {
        FinishStep::Wait { millis: 25 }
    } else {
        FinishStep::Kill
    }
}

/// What the search for an encoder does next.
#[derive(Debug, Clone, Copy)]
pub enum EncoderStep {
    Try(EncoderBackend),
    Use(EncoderBackend),
    Unavailable(&'static str),
}

/// The hardware encoders, in the order in which they are tried.
pub open spec fn hardware(i: int) -> EncoderBackend {
    if i == 0 {
        EncoderBackend::Nvidia
    } else if i == 1 {
        EncoderBackend::Amd
    } else {
        EncoderBackend::Intel
    }
}

/// `i` is the first of the trials that succeeded.
pub open spec fn first_success(tried: Seq<bool>, i: int) -> bool {
    0 <= i < tried.len() && tried[i] && forall|j: int| 0 <= j < i ==> !#[trigger] tried[j]
}

impl Default for CaptureManager {
    /// Nothing records.
    fn default() -> (r: Self)
        ensures
            r == (CaptureManager { recorder: Recorder::Idle, active_encoder: None }),
    {
        CaptureManager { recorder: Recorder::Idle, active_encoder: None }
    }
}

impl CaptureManager {
    /// The state is sound: whatever records has its encoder known.
    pub open spec fn wf(self) -> bool {
        self.recorder != Recorder::Idle ==> self.active_encoder is Some
    }

    /// Something records.
    pub open spec fn recording(self) -> bool {
        self.recorder != Recorder::Idle
    }

    /// Whether something records, when the recorder is found alive or not. A recorder
    /// that has ended by itself is forgotten, and the caller is told what to clean up.
    pub fn is_running(&mut self, alive: bool) -> (r: (bool, Cleanup))
        requires
            old(self).wf(),
        ensures
            final(self).wf(),
            r.0 == (old(self).recording() && alive),
            r.0 == final(self).recording(),
            r.0 || !old(self).recording() ==> *final(self) == *old(self) && r.1 == Cleanup::Nothing,
            old(self).recording() && !alive ==> {
                &&& *final(self) == (CaptureManager {
                    recorder: Recorder::Idle,
                    active_encoder: None,
                })
                &&& r.1 == match old(self).recorder {
                    Recorder::Ffmpeg { relayed } => Cleanup::ReapFfmpeg { relayed },
                    _ => Cleanup::DropObs,
                }
            },
    {
        match self.recorder {
            Recorder::Idle => (false, Cleanup::Nothing),
            _ if alive => (true, Cleanup::Nothing),
            Recorder::Obs => {
                *self = CaptureManager { recorder: Recorder::Idle, active_encoder: None };
                (false, Cleanup::DropObs)
            },
            Recorder::Ffmpeg { relayed } => {
                *self = CaptureManager { recorder: Recorder::Idle, active_encoder: None };
                (false, Cleanup::ReapFfmpeg { relayed })
            },
        }
    }

    /// Which engine to start first.
    pub fn start(&self, engine: CaptureEngine) -> (r: Result<StartStep, CaptureError>)
        ensures
            match r {
                Ok(step) => !self.recording() && step == (if engine == CaptureEngine::Ffmpeg {
                    StartStep::TryFfmpeg
                } else {
                    StartStep::TryObs
                }),
                Err(error) => self.recording() && error == CaptureError::AlreadyRunning,
            },
    {
        if self.recorder != Recorder::Idle {
            return Err(CaptureError::AlreadyRunning);
        }
        Ok(
            if engine == CaptureEngine::Ffmpeg {
                StartStep::TryFfmpeg
            } else {
                StartStep::TryObs
            },
        )
    }

    /// What to do when the OBS engine did not start: only the automatic choice falls
    /// back to FFmpeg.
    pub fn obs_failed(engine: CaptureEngine, error: &ObsCaptureError) -> (r: Result<
        StartStep,
        CaptureError,
    >)
        ensures
            match r {
                Ok(step) => engine == CaptureEngine::Auto && step == StartStep::TryFfmpeg,
                Err(shown) => engine != CaptureEngine::Auto && (shown matches CaptureError::Obs(
                    message,
                ) && message@ == error.text()),
            },
    {
        if engine == CaptureEngine::Auto {
            Ok(StartStep::TryFfmpeg)
        } else {
            Err(CaptureError::Obs(error.message()))
        }
    }

    /// Records that the OBS engine has started.
    pub fn obs_started(&mut self, engine: &ObsCaptureEngine)
        requires
            !old(self).recording(),
        ensures
            *final(self) == (CaptureManager {
                recorder: Recorder::Obs,
                active_encoder: Some(engine.active_encoder),
            }),
    {
        *self = CaptureManager {
            recorder: Recorder::Obs,
            active_encoder: Some(engine.active_encoder()),
        };
    }

    /// Records that FFmpeg has started.
    pub fn ffmpeg_started(&mut self, encoder: EncoderBackend, relayed: bool)
        requires
            !old(self).recording(),
        ensures
            *final(self) == (CaptureManager {
                recorder: Recorder::Ffmpeg { relayed },
                active_encoder: Some(encoder),
            }),
    {
        *self = CaptureManager {
            recorder: Recorder::Ffmpeg { relayed },
            active_encoder: Some(encoder),
        };
    }

    /// Forgets the recorder and tells how to stop it. Of OBS it is not known yet
    /// whether it will stop without an error.
    pub fn stop(&mut self) -> (r: Result<StopStep, CaptureError>)
        ensures
            final(self).recorder == Recorder::Idle,
            match old(self).recorder {
                Recorder::Idle => r == Err::<StopStep, _>(CaptureError::NotRunning) && *final(self)
                    == *old(self),
                Recorder::Obs => r == Ok::<_, CaptureError>(StopStep::StopObs)
                    && final(self).active_encoder == old(self).active_encoder,
                Recorder::Ffmpeg { relayed } => r == Ok::<_, CaptureError>(
                    StopStep::StopFfmpeg { relayed },
                ) && final(self).active_encoder is None,
            },
    {
        match self.recorder {
            Recorder::Idle => Err(CaptureError::NotRunning),
            Recorder::Obs => {
                self.recorder = Recorder::Idle;
                Ok(StopStep::StopObs)
            },
            Recorder::Ffmpeg { relayed } => {
                *self = CaptureManager { recorder: Recorder::Idle, active_encoder: None };
                Ok(StopStep::StopFfmpeg { relayed })
            },
        }
    }

    /// What stopping OBS ended with.
    pub fn obs_stopped(&mut self, outcome: Result<(), ObsCaptureError>) -> (r: Result<
        (),
        CaptureError,
    >)
        requires
            !old(self).recording(),
        ensures
            final(self).recorder == Recorder::Idle,
            match outcome {
                Ok(_) => r == Ok::<(), CaptureError>(()) && final(self).active_encoder is None,
                Err(error) => *final(self) == *old(self) && (r matches Err(
                    CaptureError::Obs(message),
                ) && message@ == error.text()),
            },
    {
        match outcome {
            Ok(_) => {
                self.active_encoder = None;
                Ok(())
            },
            Err(error) => Err(CaptureError::Obs(error.message())),
        }
    }

    /// The encoder in use.
    pub fn active_encoder(&self) -> (r: Option<EncoderBackend>)
        ensures
            r == self.active_encoder,
    {
        self.active_encoder
    }

    /// The engine in use.
    pub fn active_engine(&self) -> (r: Option<CaptureEngine>)
        ensures
            r == match self.recorder {
                Recorder::Idle => None,
                Recorder::Obs => Some(CaptureEngine::Obs),
                Recorder::Ffmpeg { .. } => Some(CaptureEngine::Ffmpeg),
            },
    {
        match self.recorder {
            Recorder::Idle => None,
            Recorder::Obs => Some(CaptureEngine::Obs),
            Recorder::Ffmpeg { .. } => Some(CaptureEngine::Ffmpeg),
        }
    }

    /// What the search for a hardware encoder does next, when the encoders tried so far
    /// worked or not: the first that works is used, the processor where none does.
    pub fn detect_encoder(tried: &Vec<bool>) -> (r: EncoderStep)
        requires
            tried@.len() <= 3,
        ensures
            match r {
                EncoderStep::Use(backend) => (exists|i: int|
                    #[trigger] first_success(tried@, i) && backend == hardware(i)) || backend
                    == EncoderBackend::Software && tried@.len() == 3 && !tried@.contains(true),
                EncoderStep::Try(backend) => tried@.len() < 3 && !tried@.contains(true) && backend
                    == hardware(tried@.len() as int),
                EncoderStep::Unavailable(_) => false,
            },
    {
        let mut i: usize = 0;
        while i < tried.len()
            invariant
                i <= tried.len() <= 3,
                forall|j: int| 0 <= j < i ==> !#[trigger] tried@[j],
            decreases tried.len() - i,
        {
            if tried[i] {
                assert(first_success(tried@, i as int));
                return EncoderStep::Use(
                    if i == 0 {
                        EncoderBackend::Nvidia
                    } else if i == 1 {
                        EncoderBackend::Amd
                    } else {
                        EncoderBackend::Intel
                    },
                );
            }
            i += 1;
        }
        if tried.len() == 0 {
            EncoderStep::Try(EncoderBackend::Nvidia)
        } else if tried.len() == 1 {
            EncoderStep::Try(EncoderBackend::Amd)
        } else if tried.len() == 2 {
            EncoderStep::Try(EncoderBackend::Intel)
        } else {
            EncoderStep::Use(EncoderBackend::Software)
        }
    }

    /// What the choice of the requested encoder does next: a named one is used if it
    /// works and is an error if it does not.
    pub fn choose_encoder(requested: EncoderBackend, tried: &Vec<bool>) -> (r: EncoderStep)
        requires
            tried@.len() <= 3,
        ensures
            if requested == EncoderBackend::Auto {
                match r {
                    EncoderStep::Use(backend) => (exists|i: int|
                        #[trigger] first_success(tried@, i) && backend == hardware(i)) || backend
                        == EncoderBackend::Software && tried@.len() == 3 && !tried@.contains(true),
                    EncoderStep::Try(backend) => tried@.len() < 3 && !tried@.contains(true)
                        && backend == hardware(tried@.len() as int),
                    EncoderStep::Unavailable(_) => false,
                }
            } else {
                match r {
                    EncoderStep::Try(backend) => tried@.len() == 0 && backend == requested,
                    EncoderStep::Use(backend) => tried@.len() > 0 && tried@[0] && backend
                        == requested,
                    EncoderStep::Unavailable(name) => tried@.len() > 0 && !tried@[0] && name@
                        == requested.name(),
                }
            },
    {
        if requested == EncoderBackend::Auto {
            Self::detect_encoder(tried)
        } else if tried.len() == 0 {
            EncoderStep::Try(requested)
        } else if tried[0] {
            EncoderStep::Use(requested)
        } else {
            EncoderStep::Unavailable(requested.label())
        }
    }
}

/// A file in the buffer directory, and when it was last written, in nanoseconds since
/// the Unix epoch, where the system tells.
#[derive(Debug)]
pub struct BufferFile {
    pub path: String,
    pub modified: Option<i128>,
}

/// The path names a finished or growing segment.
pub open spec fn is_segment(host: HostSystem, path: Seq<char>) -> bool {
    paths::file_name(host, path) matches Some(name) && paths::extension(name) == Some("mp4"@)
}

/// Whether the path names a segment.
fn names_segment(host: HostSystem, path: &str) -> (r: bool)
    ensures
        r == is_segment(host, path@),
{
    match paths::name_of(host, path) {
        Some(name) => match paths::extension_of(name.as_str()) {
            Some(extension) => text::same(extension.as_str(), "mp4"),
            None => false,
        },
        None => false,
    }
}

/// The segments among the files of the buffer directory.
pub open spec fn segment_files(host: HostSystem, files: Seq<BufferFile>) -> Seq<BufferFile> {
    files.filter(|file: BufferFile| is_segment(host, file.path@))
}

/// The oldest file ranks first; files whose time is not known rank before all others.
pub open spec fn file_rank(file: BufferFile) -> Rank {
    match file.modified {
        Some(time) => Rank { first: 1, second: time, third: 0 },
        None => Rank { first: 0, second: 0, third: 0 },
    }
}

/// The ranks of a list of files.
pub open spec fn file_ranks(files: Seq<BufferFile>) -> Seq<Rank> {
    files.map_values(|file: BufferFile| file_rank(file))
}

/// `listed` are the paths of the segments among `files`, from the oldest to the newest.
pub open spec fn lists_segments(
    host: HostSystem,
    files: Seq<BufferFile>,
    listed: Seq<Seq<char>>,
) -> bool {
    let found = segment_files(host, files);
    exists|picked: Seq<usize>| #[trigger]
        order::is_order(file_ranks(found), picked) && listed.len() == found.len() && forall|i: int|
            0 <= i < listed.len() ==> #[trigger] listed[i] == found[picked[i] as int].path@
}

/// The segments in the buffer directory, from the oldest to the newest.
pub fn list_segments(host: HostSystem, files: &Vec<BufferFile>) -> (r: Vec<String>)
    ensures
        lists_segments(host, files@, r.deep_view()),
{
    let ghost wanted = |file: BufferFile| is_segment(host, file.path@);
    let ghost found = segment_files(host, files@);
    let mut places: Vec<usize> = Vec::new();
    let mut ranks: Vec<Rank> = Vec::new();
    let mut i: usize = 0;
    assert(files@.take(0) =~= Seq::empty());
    proof {
        reveal(Seq::filter);
    }
    while i < files.len()
        invariant
            i <= files.len(),
            wanted == (|file: BufferFile| is_segment(host, file.path@)),
            places@.len() == files@.take(i as int).filter(wanted).len(),
            ranks@ == file_ranks(files@.take(i as int).filter(wanted)),
            forall|k: int|
                0 <= k < places@.len() ==> (#[trigger] places@[k]) < files.len()
                    && files@[places@[k] as int] == files@.take(i as int).filter(wanted)[k],
        decreases files.len() - i,
    {
        proof {
            reveal(Seq::filter);
        }
        let ghost before = files@.take(i as int).filter(wanted);
        assert(files@.take(i + 1).drop_last() =~= files@.take(i as int));
        if names_segment(host, files[i].path.as_str()) {
            places.push(i);
            ranks.push(
                match files[i].modified {
                    Some(time) => Rank { first: 1, second: time, third: 0 },
                    None => Rank { first: 0, second: 0, third: 0 },
                },
            );
            assert(files@.take(i + 1).filter(wanted) =~= before.push(files@[i as int]));
            assert(ranks@ =~= file_ranks(before.push(files@[i as int])));
        } else {
            assert(files@.take(i + 1).filter(wanted) =~= before);
        }
        i += 1;
    }
    assert(files@.take(i as int) =~= files@);
    let picked = order::order_of(&ranks);
    let mut listed: Vec<String> = Vec::new();
    let mut k: usize = 0;
    while k < picked.len()
        invariant
            k <= picked.len() == places.len() == found.len(),
            ranks@ == file_ranks(found),
            order::is_order(ranks@, picked@),
            forall|k: int|
                0 <= k < places@.len() ==> (#[trigger] places@[k]) < files.len()
                    && files@[places@[k] as int] == found[k],
            listed@.len() == k,
            forall|i: int|
                0 <= i < k ==> #[trigger] listed@[i]@ == found[picked@[i] as int].path@,
        decreases picked.len() - k,
    {
        let place: usize = places[picked[k]];
        listed.push(files[place].path.clone());
        k += 1;
    }
    assert(order::is_order(file_ranks(found), picked@));
    assert forall|i: int| 0 <= i < listed.deep_view().len() implies #[trigger] listed.deep_view()[i]
        == found[picked@[i] as int].path@ by {
        assert(listed@[i]@ == found[picked@[i] as int].path@);
    }
    listed
}

/// The listing is never open: the files decide it.
pub proof fn segment_listing_is_unique(
    host: HostSystem,
    files: Seq<BufferFile>,
    a: Seq<Seq<char>>,
    b: Seq<Seq<char>>,
)
    requires
        lists_segments(host, files, a),
        lists_segments(host, files, b),
    ensures
        a == b,
{
    let found = segment_files(host, files);
    let ranks = file_ranks(found);
    let x = choose|picked: Seq<usize>| #[trigger]
        order::is_order(ranks, picked) && a.len() == found.len() && forall|i: int|
            0 <= i < a.len() ==> #[trigger] a[i] == found[picked[i] as int].path@;
    let y = choose|picked: Seq<usize>| #[trigger]
        order::is_order(ranks, picked) && b.len() == found.len() && forall|i: int|
            0 <= i < b.len() ==> #[trigger] b[i] == found[picked[i] as int].path@;
    order::order_is_unique(ranks, x, y);
    assert(a =~= b);
}

/// The segments that are complete: FFmpeg may still be writing the newest one.
pub open spec fn complete_segments(listed: Seq<Seq<char>>, running: bool) -> Seq<Seq<char>> {
    if running && listed.len() > 0 {
        listed.drop_last()
    } else {
        listed
    }
}

/// How many segments a clip of `clip_seconds` takes; even an empty clip takes one.
pub open spec fn wanted_segments(clip_seconds: int, segment_seconds: int) -> int {
    capture_args::pieces_for(
        if clip_seconds < 1 {
            1
        } else {
            clip_seconds
        },
        segment_seconds,
    )
}

/// The segments that a clip is made of: the newest complete ones, as many as it takes or
/// as many as there are.
pub open spec fn replay_segments(
    listed: Seq<Seq<char>>,
    running: bool,
    clip_seconds: int,
    segment_seconds: int,
) -> Seq<Seq<char>> {
    let complete = complete_segments(listed, running);
    let wanted = wanted_segments(clip_seconds, segment_seconds);
    if complete.len() > wanted {
        complete.skip(complete.len() - wanted)
    } else {
        complete
    }
}

/// How FFmpeg makes a clip from segments: the files it reads and writes, and how long the
/// clip will be.
#[derive(Debug)]
pub struct ReplayPlan {
    pub segments: Vec<String>,
    pub output: String,
    pub list_path: String,
    pub list: String,
    pub args: Vec<String>,
    pub duration_millis: u64,
}

/// The clip's file in `directory`, named after the time at which it is saved.
pub open spec fn clip_path(host: HostSystem, directory: Seq<char>, stamp: Seq<char>) -> Seq<char> {
    paths::join_path(host, directory, "xyra-"@ + stamp + ".mp4"@)
}

impl ReplayPlan {
    /// This plan makes a clip of `clip_seconds` out of the listed segments.
    pub open spec fn makes(
        self,
        host: HostSystem,
        config: AppConfig,
        listed: Seq<Seq<char>>,
        clip_seconds: int,
        running: bool,
        stamp: Seq<char>,
    ) -> bool {
        let chosen = replay_segments(listed, running, clip_seconds, config.segment_seconds as int);
        let output = clip_path(host, config.clips_directory@, stamp);
        let list_path = paths::with_extension(host, output, "concat.txt"@);
        &&& self.segments.deep_view() == chosen
        &&& self.output@ == output
        &&& self.list_path@ == list_path
        &&& self.list@ == capture_args::list_text(chosen, config.segment_seconds as nat)
        &&& self.args.deep_view() == seq![
            "-y"@,
            "-f"@,
            "concat"@,
            "-safe"@,
            "0"@,
            "-i"@,
            list_path,
            "-map"@,
            "0"@,
            "-c"@,
            "copy"@,
            output,
        ]
        &&& self.duration_millis == chosen.len() * config.segment_seconds * 1000
    }
}

/// There are no more segments in a clip than it takes.
proof fn lemma_replay_length(
    listed: Seq<Seq<char>>,
    running: bool,
    clip_seconds: int,
    segment_seconds: int,
)
    requires
        segment_seconds > 0,
        clip_seconds >= 0,
    ensures
        wanted_segments(clip_seconds, segment_seconds) >= 1,
        replay_segments(listed, running, clip_seconds, segment_seconds).len() <= wanted_segments(
            clip_seconds,
            segment_seconds,
        ),
        replay_segments(listed, running, clip_seconds, segment_seconds).len() * segment_seconds
            < clip_seconds + segment_seconds + 1,
{
    let n = if clip_seconds < 1 {
        1
    } else {
        clip_seconds
    };
    capture_args::lemma_pieces_hold(n, segment_seconds);
    let wanted = capture_args::pieces_for(n, segment_seconds);
    let taken = replay_segments(listed, running, clip_seconds, segment_seconds).len() as int;
    assert(wanted >= 1) by (nonlinear_arith)
        requires
            n >= 1,
            segment_seconds > 0,
            n <= wanted * segment_seconds,
    ;
    assert(taken * segment_seconds <= wanted * segment_seconds) by (nonlinear_arith)
        requires
            taken <= wanted,
            segment_seconds > 0,
    ;
}

/// How a clip of `clip_seconds` is made out of the files in the buffer directory, named
/// after the time `stamp`.
pub fn replay_plan(
    host: HostSystem,
    config: &AppConfig,
    files: &Vec<BufferFile>,
    clip_seconds: u32,
    capture_running: bool,
    stamp: &str,
) -> (r: Result<ReplayPlan, CaptureError>)
    requires
        config.segment_seconds > 0,
    ensures
        exists|listed: Seq<Seq<char>>| #[trigger]
            lists_segments(host, files@, listed) && match r {
                Ok(plan) => complete_segments(listed, capture_running).len() > 0 && plan.makes(
                    host,
                    *config,
                    listed,
                    clip_seconds as int,
                    capture_running,
                    stamp@,
                ),
                Err(error) => complete_segments(listed, capture_running).len() == 0 && error
                    == CaptureError::EmptyBuffer,
            },
{
    let mut segments = list_segments(host, files);
    let ghost listed = segments.deep_view();
    let size: u64 = config.segment_seconds as u64;
    let seconds: u64 = if clip_seconds < 1 {
        1
    } else {
        clip_seconds as u64
    };
    assert(0 < (seconds + size - 1) / size as int <= seconds + size - 1) by (nonlinear_arith)
        requires
            size > 0,
            seconds >= 1,
    ;
    let wanted: u64 = (seconds + size - 1) / size;
    if capture_running && segments.len() > 0 {
        segments.pop();
        assert(segments.deep_view() =~= listed.drop_last());
    }
    assert(segments.deep_view() == complete_segments(listed, capture_running));
    if segments.len() == 0 {
        return Err(CaptureError::EmptyBuffer);
    }
    if segments.len() as u64 > wanted {
        let ghost complete = segments.deep_view();
        let cut: usize = segments.len() - wanted as usize;
        segments = segments.split_off(cut);
        assert(segments.deep_view() =~= complete.skip(cut as int));
    }
    let ghost chosen = replay_segments(
        listed,
        capture_running,
        clip_seconds as int,
        config.segment_seconds as int,
    );
    assert(segments.deep_view() == chosen);
    proof {
        lemma_replay_length(
            listed,
            capture_running,
            clip_seconds as int,
            config.segment_seconds as int,
        );
        assert(segments@.len() == chosen.len());
    }
    let mut name = "xyra-".to_owned();
    name.append(stamp);
    name.append(".mp4");
    let output = paths::joined(host, config.clips_directory.as_str(), name.as_str());
    let list_path = paths::extended(host, output.as_str(), "concat.txt");
    let list = capture_args::concat_list(&segments, config.segment_seconds);
    let args = capture_args::concat_args(list_path.as_str(), output.as_str());
    let duration_millis: u64 = segments.len() as u64 * size * 1000;
    Ok(ReplayPlan { segments, output, list_path, list, args, duration_millis })
}

/// How a process ended.
#[derive(Debug)]
pub enum ProcessOutcome {
    NotStarted(String),
    Finished { success: bool, stderr: Vec<u8> },
}

/// What FFmpeg said last, or that it said nothing.
pub open spec fn last_words(stderr: Seq<char>) -> Seq<char> {
    let lines = text::lines(stderr);
    if lines.len() > 0 {
        lines.last()
    } else {
        "unknown FFmpeg error"@
    }
}

/// What FFmpeg said last, or that it said nothing.
pub fn failure_line(stderr: &str) -> (r: String)
    ensures
        r@ == last_words(stderr@),
{
    let lines = text::lines_of(stderr);
    if lines.len() > 0 {
        assert(lines.deep_view()[lines@.len() - 1] == lines@[lines@.len() - 1]@);
        lines[lines.len() - 1].clone()
    } else {
        "unknown FFmpeg error".to_owned()
    }
}

/// Whether FFmpeg did what it was asked to.
pub fn process_result(outcome: ProcessOutcome) -> (r: Result<(), CaptureError>)
    ensures
        match outcome {
            ProcessOutcome::NotStarted(error) => r == Err::<(), _>(
                CaptureError::ProcessFailed(error),
            ),
            ProcessOutcome::Finished { success: true, .. } => r == Ok::<(), CaptureError>(()),
            ProcessOutcome::Finished { success: false, stderr } => r matches Err(
                CaptureError::ProcessFailed(line),
            ) && line@ == last_words(bytes::utf8_lossy(stderr@)),
        },
{
    match outcome {
        ProcessOutcome::NotStarted(error) => Err(CaptureError::ProcessFailed(error)),
        ProcessOutcome::Finished { success, stderr } => {
            if success {
                Ok(())
            } else {
                let shown = bytes::lossy_text(stderr.as_slice());
                Err(CaptureError::ProcessFailed(failure_line(shown.as_str())))
            }
        },
    }
}

impl ReplayPlan {
    /// The clip, once FFmpeg has run the plan.
    pub fn finish(self, outcome: ProcessOutcome) -> (r: Result<Clip, CaptureError>)
        ensures
            match outcome {
                ProcessOutcome::NotStarted(error) => r == Err::<Clip, _>(
                    CaptureError::ProcessFailed(error),
                ),
                ProcessOutcome::Finished { success: true, .. } => r matches Ok(clip) && clip.path
                    == self.output && clip.duration_millis == self.duration_millis
                    && clip.is_new(),
                ProcessOutcome::Finished { success: false, stderr } => r matches Err(
                    CaptureError::ProcessFailed(line),
                ) && line@ == last_words(bytes::utf8_lossy(stderr@)),
            },
    {
        match process_result(outcome) {
            Ok(_) => Ok(Clip::new(self.output, self.duration_millis)),
            Err(error) => Err(error),
        }
    }
}

/// A request to save a clip, ready to be carried out on another thread.
#[derive(Debug)]
pub enum ReplaySaveRequest {
    Obs(ObsReplayRequest),
    Ffmpeg { config: AppConfig, clip_seconds: u32, capture_running: bool },
}

impl CaptureManager {
    /// The request to save the last `clip_seconds`, from the engine that records. Where
    /// OBS records, `obs` is its state and `alive` tells whether it still does.
    pub fn request_replay_save(
        &self,
        config: &AppConfig,
        clip_seconds: u32,
        obs: Option<&ObsCaptureEngine>,
        alive: bool,
    ) -> (r: Result<ReplaySaveRequest, CaptureError>)
        ensures
            match obs {
                Some(engine) => match r {
                    Ok(request) => alive && (request matches ReplaySaveRequest::Obs(replay)
                        && replay.asks(*engine, *config, clip_seconds)),
                    Err(error) => !alive && (error matches CaptureError::Obs(message) && message@
                        == "could not finalize the OBS replay: the OBS replay buffer is not running"@),
                },
                None => r matches Ok(
                    ReplaySaveRequest::Ffmpeg { config: kept, clip_seconds: seconds, capture_running },
                ) && kept.alike(*config) && seconds == clip_seconds && capture_running == (
                self.recorder is Ffmpeg),
            },
    {
        match obs {
            Some(engine) => match engine.request_replay(alive, config, clip_seconds) {
                Ok(request) => Ok(ReplaySaveRequest::Obs(request)),
                Err(error) => {
                    proof {
                        reveal_strlit("could not finalize the OBS replay: ");
                        reveal_strlit("the OBS replay buffer is not running");
                        reveal_strlit(
                            "could not finalize the OBS replay: the OBS replay buffer is not running",
                        );
                        assert("could not finalize the OBS replay: "@
                            + "the OBS replay buffer is not running"@
                            =~= "could not finalize the OBS replay: the OBS replay buffer is not running"@);
                    }
                    Err(CaptureError::Obs(error.message()))
                },
            },
            None => Ok(
                ReplaySaveRequest::Ffmpeg {
                    config: config.clone(),
                    clip_seconds,
                    capture_running: matches!(self.recorder, Recorder::Ffmpeg { .. }),
                },
            ),
        }
    }

    /// How the last seconds are made into a clip that is named after the current time.
    /// It needs nothing of the recorder's state but whether it runs.
    pub fn save_replay_snapshot(
        host: HostSystem,
        config: &AppConfig,
        files: &Vec<BufferFile>,
        clip_seconds: u32,
        capture_running: bool,
    ) -> (r: Result<ReplayPlan, CaptureError>)
        requires
            config.segment_seconds > 0,
        ensures
            exists|listed: Seq<Seq<char>>, now: Timestamp|
                #![trigger lists_segments(host, files@, listed), clock::was_read(now)]
                lists_segments(host, files@, listed) && clock::was_read(now) && match r {
                    Ok(plan) => complete_segments(listed, capture_running).len() > 0
                        && clock::utc_text(now.seconds, now.nanos, clock::FILE_STAMP@) is Some
                        && plan.makes(
                        host,
                        *config,
                        listed,
                        clip_seconds as int,
                        capture_running,
                        clock::utc_text(now.seconds, now.nanos, clock::FILE_STAMP@).unwrap(),
                    ),
                    Err(error) => complete_segments(listed, capture_running).len() == 0 && error
                        == CaptureError::EmptyBuffer,
                },
    {
        let now = clock::now();
        let stamp = clock::format_utc(now, clock::FILE_STAMP).unwrap();
        replay_plan(host, config, files, clip_seconds, capture_running, stamp.as_str())
    }

    /// How the last `clip_seconds` are made into a clip.
    pub fn save_replay_duration(
        &self,
        host: HostSystem,
        config: &AppConfig,
        files: &Vec<BufferFile>,
        clip_seconds: u32,
    ) -> (r: Result<ReplayPlan, CaptureError>)
        requires
            config.segment_seconds > 0,
        ensures
            exists|listed: Seq<Seq<char>>, now: Timestamp|
                #![trigger lists_segments(host, files@, listed), clock::was_read(now)]
                lists_segments(host, files@, listed) && clock::was_read(now) && match r {
                    Ok(plan) => complete_segments(listed, self.recorder is Ffmpeg).len() > 0
                        && clock::utc_text(now.seconds, now.nanos, clock::FILE_STAMP@) is Some
                        && plan.makes(
                        host,
                        *config,
                        listed,
                        clip_seconds as int,
                        self.recorder is Ffmpeg,
                        clock::utc_text(now.seconds, now.nanos, clock::FILE_STAMP@).unwrap(),
                    ),
                    Err(error) => complete_segments(listed, self.recorder is Ffmpeg).len() == 0
                        && error == CaptureError::EmptyBuffer,
                },
    {
        Self::save_replay_snapshot(
            host,
            config,
            files,
            clip_seconds,
            matches!(self.recorder, Recorder::Ffmpeg { .. }),
        )
    }

    /// How the configured seconds are made into a clip.
    pub fn save_replay(&self, host: HostSystem, config: &AppConfig, files: &Vec<BufferFile>) -> (r:
        Result<ReplayPlan, CaptureError>)
        requires
            config.segment_seconds > 0,
        ensures
            exists|listed: Seq<Seq<char>>, now: Timestamp|
                #![trigger lists_segments(host, files@, listed), clock::was_read(now)]
                lists_segments(host, files@, listed) && clock::was_read(now) && match r {
                    Ok(plan) => complete_segments(listed, self.recorder is Ffmpeg).len() > 0
                        && clock::utc_text(now.seconds, now.nanos, clock::FILE_STAMP@) is Some
                        && plan.makes(
                        host,
                        *config,
                        listed,
                        config.clip_seconds as int,
                        self.recorder is Ffmpeg,
                        clock::utc_text(now.seconds, now.nanos, clock::FILE_STAMP@).unwrap(),
                    ),
                    Err(error) => complete_segments(listed, self.recorder is Ffmpeg).len() == 0
                        && error == CaptureError::EmptyBuffer,
                },
    {
        self.save_replay_duration(host, config, files, config.clip_seconds)
    }

    /// The arguments that export the part of `input` between two times.
    pub fn export_trimmed(input: &str, output: &str, start_millis: u64, end_millis: u64) -> (r: Vec<
        String,
    >)
        ensures
            r.deep_view() == seq![
                "-y"@,
                "-ss"@,
                capture_args::seconds_text(start_millis as nat),
                "-to"@,
                capture_args::seconds_text(end_millis as nat),
                "-i"@,
                input@,
                "-map"@,
                "0:v:0"@,
                "-map"@,
                "0:a?"@,
                "-c:v"@,
                "libx264"@,
                "-preset"@,
                "fast"@,
                "-crf"@,
                "18"@,
                "-pix_fmt"@,
                "yuv420p"@,
                "-c:a"@,
                "aac"@,
                output@,
            ],
    {
        capture_args::trim_args(input, output, start_millis, end_millis)
    }
}

/// A clip never holds the segment that is still being written, holds only the newest of
/// the others, and holds them in the order in which they were recorded.
pub proof fn replay_holds_the_newest_complete_segments(
    listed: Seq<Seq<char>>,
    running: bool,
    clip_seconds: int,
    segment_seconds: int,
)
    requires
        segment_seconds > 0,
        clip_seconds >= 0,
    ensures
        ({
            let chosen = replay_segments(listed, running, clip_seconds, segment_seconds);
            let end = if running && listed.len() > 0 {
                listed.len() - 1
            } else {
                listed.len() as int
            };
            &&& chosen.len() <= end
            &&& chosen == listed.subrange(end - chosen.len(), end)
        }),
{
    lemma_replay_length(listed, running, clip_seconds, segment_seconds);
    let chosen = replay_segments(listed, running, clip_seconds, segment_seconds);
    let end = if running && listed.len() > 0 {
        listed.len() - 1
    } else {
        listed.len() as int
    };
    assert(chosen =~= listed.subrange(end - chosen.len(), end));
}

/// Where enough was recorded, a clip is at least as long as was asked for, and less than
/// a segment and a second longer.
pub proof fn replay_is_long_enough(
    listed: Seq<Seq<char>>,
    running: bool,
    clip_seconds: int,
    segment_seconds: int,
)
    requires
        segment_seconds > 0,
        clip_seconds >= 0,
        complete_segments(listed, running).len() >= wanted_segments(clip_seconds, segment_seconds),
    ensures
        clip_seconds <= replay_segments(listed, running, clip_seconds, segment_seconds).len()
            * segment_seconds < clip_seconds + segment_seconds + 1,
{
    lemma_replay_length(listed, running, clip_seconds, segment_seconds);
    let n = if clip_seconds < 1 {
        1
    } else {
        clip_seconds
    };
    capture_args::lemma_pieces_hold(n, segment_seconds);
}

/// The wrapped buffer keeps enough complete segments for every clip that the settings
/// let the user ask for, while one more is being written.
pub proof fn buffer_serves_every_clip(config: AppConfig, clip_seconds: int)
    requires
        config.segment_seconds > 0,
        0 <= clip_seconds <= config.buffer_seconds(),
    ensures
        wanted_segments(clip_seconds, config.segment_seconds as int) <= capture_args::segment_wrap(
            config,
        ) - 3,
{
    let size = config.segment_seconds as int;
    let n = if clip_seconds < 1 {
        1
    } else {
        clip_seconds
    };
    let most = config.buffer_seconds() as int;
    assert((n + size - 1) / size <= (most + size - 1) / size) by (nonlinear_arith)
        requires
            size > 0,
            n <= most,
    ;
}

/// What FFmpeg writes into while it records.
#[derive(Debug)]
pub struct RecordingFiles {
    pub segments: String,
    pub log: String,
}

/// What FFmpeg writes into while it records.
pub fn recording_files(host: HostSystem, config: &AppConfig) -> (r: RecordingFiles)
    ensures
        r.segments@ == paths::join_path(host, config.buffer_directory@, "segment-%06d.mp4"@),
        r.log@ == paths::join_path(host, config.buffer_directory@, "capture.log"@),
{
    RecordingFiles {
        segments: paths::joined(host, config.buffer_directory.as_str(), "segment-%06d.mp4"),
        log: paths::joined(host, config.buffer_directory.as_str(), "capture.log"),
    }
}

/// What FFmpeg records.
#[derive(Debug)]
pub struct RecordingSource {
    pub monitor: MonitorInfo,
    pub endpoint: Option<String>,
}

/// The Windows endpoint whose sound has to be relayed to FFmpeg.
pub open spec fn relayed_endpoint(config: AppConfig) -> Option<Seq<char>> {
    match config.desktop_audio_device {
        Some(device) if config.desktop_audio_enabled => windows_audio::behind(
            device@,
            windows_audio::WASAPI_RENDER_PREFIX@,
        ),
        _ => None,
    }
}

/// What FFmpeg records, out of the displays that the system has.
pub fn recording_source(config: &AppConfig, monitors: &Vec<MonitorInfo>) -> (r: Result<
    RecordingSource,
    CaptureError,
>)
    ensures
        match r {
            Ok(source) => {
                &&& exists|i: int| #[trigger]
                    display::monitor_choice(
                        monitors@,
                        text::shown(config.capture_monitor),
                        i,
                    ) && source.monitor == monitors@[i]
                &&& text::shown(source.endpoint) == relayed_endpoint(*config)
            },
            Err(error) => monitors@.len() == 0 && (error matches CaptureError::ProcessFailed(
                message,
            ) && message@ == "Windows did not report an available display"@),
        },
{
    match display::selected_monitor(monitors, &config.capture_monitor) {
        None => Err(
            CaptureError::ProcessFailed("Windows did not report an available display".to_owned()),
        ),
        Some(monitor) => {
            let mut endpoint: Option<String> = None;
            if config.desktop_audio_enabled {
                if let Some(device) = &config.desktop_audio_device {
                    if let Some(name) = windows_audio::wasapi_endpoint_id(device.as_str()) {
                        endpoint = Some(name.to_owned());
                    }
                }
            }
            Ok(RecordingSource { monitor, endpoint })
        },
    }
}

/// The arguments that record with the encoder that was found.
pub fn recording_command(
    host: HostSystem,
    config: AppConfig,
    encoder: EncoderBackend,
    monitor: &MonitorInfo,
    output: &str,
    loopback_port: Option<u16>,
) -> (r: Vec<String>)
    requires
        config.segment_seconds > 0,
        config.video_aspect_ratio == VideoAspectRatio::Game ==> monitor.width > 0 || monitor.height
            > 0,
    ensures
        r.deep_view() == capture_args::recording_args(
            host,
            (AppConfig { encoder, ..config }),
            *monitor,
            output@,
            loopback_port,
        ),
{
    let used = AppConfig { encoder, ..config };
    capture_args::capture_args_with_loopback(host, &used, monitor, output, loopback_port)
}

} // verus!
