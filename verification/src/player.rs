//! Playing a clip: the position, and what FFmpeg is asked to decode.

use vstd::prelude::*;
use vstd::string::*;

use crate::capture;
use crate::capture_args;
use crate::services::bytes;
use crate::text;

verus! {

/// The size of the preview, in points.
pub const PREVIEW_WIDTH: usize = 960;

pub const PREVIEW_HEIGHT: usize = 540;

/// The bytes of one frame of the preview: four for each point.
pub const FRAME_BYTES: usize = 2073600;

/// What came from the decoder.
#[derive(Debug)]
pub enum PlayerEvent {
    Frame { position_millis: u64 },
    Ended,
    Failed(String),
}

/// What has to be decoded: one frame for a still picture, or everything from there on.
#[derive(Debug)]
pub struct DecodeRequest {
    pub path: String,
    pub start_millis: u64,
    pub single_frame: bool,
}

/// A clip that is played or paused. Times are whole milliseconds.
#[derive(Debug)]
pub struct VideoPlayer {
    pub path: Option<String>,
    pub duration_millis: u64,
    pub position_millis: u64,
    pub playing: bool,
    pub error: Option<String>,
}

impl Default for VideoPlayer {
    /// No clip.
    fn default() -> (r: Self)
        ensures
            r == (VideoPlayer {
                path: None,
                duration_millis: 0,
                position_millis: 0,
                playing: false,
                error: None,
            }),
    {
        VideoPlayer {
            path: None,
            duration_millis: 0,
            position_millis: 0,
            playing: false,
            error: None,
        }
    }
}

/// `millis`, at most `limit`.
pub open spec fn at_most(millis: u64, limit: u64) -> u64 {
    if millis > limit {
        limit
    } else {
        millis
    }
}

impl VideoPlayer {
    /// The position lies within the clip, and only a clip is played.
    pub open spec fn wf(self) -> bool {
        self.position_millis <= self.duration_millis && (self.playing ==> self.path is Some)
    }

    /// Takes another clip, at its start and paused.
    pub fn load(&mut self, path: String, duration_millis: u64)
        ensures
            *final(self) == (VideoPlayer {
                path: Some(path),
                duration_millis,
                position_millis: 0,
                playing: false,
                error: None,
            }),
            final(self).wf(),
    {
        *self = VideoPlayer {
            path: Some(path),
            duration_millis,
            position_millis: 0,
            playing: false,
            error: None,
        };
    }

    /// What to decode from the current position on; nothing without a clip. Errors of
    /// before are forgotten.
    pub fn spawn_decoder(&mut self, single_frame: bool) -> (r: Option<DecodeRequest>)
        ensures
            old(self).wf() ==> final(self).wf(),
            match old(self).path {
                None => r is None && *final(self) == *old(self),
                Some(path) => {
                    &&& *final(self) == (VideoPlayer {
                        playing: !single_frame,
                        error: None,
                        ..*old(self)
                    })
                    &&& r matches Some(request) && request.path@ == path@ && request.start_millis
                        == old(self).position_millis && request.single_frame == single_frame
                },
            },
    {
        match &self.path {
            None => None,
            Some(path) => {
                let request = DecodeRequest {
                    path: path.clone(),
                    start_millis: self.position_millis,
                    single_frame,
                };
                self.error = None;
                self.playing = !single_frame;
                Some(request)
            },
        }
    }

    /// What to decode for a still picture of the current position.
    pub fn request_preview(&mut self) -> (r: Option<DecodeRequest>)
        ensures
            old(self).wf() ==> final(self).wf(),
            match old(self).path {
                None => r is None && *final(self) == *old(self),
                Some(path) => {
                    &&& *final(self) == (VideoPlayer { playing: false, error: None, ..*old(self) })
                    &&& r matches Some(request) && request.path@ == path@ && request.start_millis
                        == old(self).position_millis && request.single_frame
                },
            },
    {
        self.spawn_decoder(true)
    }

    /// What to decode to play the clip; from its start where it had come to its end.
    pub fn play(&mut self) -> (r: Option<DecodeRequest>)
        ensures
            old(self).wf() ==> final(self).wf(),
            ({
                let start = if old(self).position_millis >= old(self).duration_millis
                    && old(self).duration_millis > 0 {
                    0u64
                } else {
                    old(self).position_millis
                };
                match old(self).path {
                    None => r is None && *final(self) == (VideoPlayer {
                        position_millis: start,
                        ..*old(self)
                    }),
                    Some(path) => {
                        &&& *final(self) == (VideoPlayer {
                            position_millis: start,
                            playing: true,
                            error: None,
                            ..*old(self)
                        })
                        &&& r matches Some(request) && request.path@ == path@
                            && request.start_millis == start && !request.single_frame
                    },
                }
            }),
    {
        if self.position_millis >= self.duration_millis && self.duration_millis > 0 {
            self.position_millis = 0;
        }
        self.spawn_decoder(false)
    }

    /// Stops where the clip is.
    pub fn pause(&mut self)
        ensures
            old(self).wf() ==> final(self).wf(),
            *final(self) == (VideoPlayer { playing: false, ..*old(self) }),
    {
        self.playing = false;
    }

    /// Moves within the clip, and goes on playing if it was played.
    pub fn seek(&mut self, position_millis: u64) -> (r: Option<DecodeRequest>)
        ensures
            old(self).wf() ==> final(self).wf(),
            final(self).position_millis <= final(self).duration_millis,
            ({
                let start = at_most(position_millis, old(self).duration_millis);
                match old(self).path {
                    None => r is None && *final(self) == (VideoPlayer {
                        position_millis: start,
                        ..*old(self)
                    }),
                    Some(path) => {
                        &&& *final(self) == (VideoPlayer {
                            position_millis: start,
                            error: None,
                            ..*old(self)
                        })
                        &&& r matches Some(request) && request.path@ == path@
                            && request.start_millis == start && request.single_frame
                            == !old(self).playing
                    },
                }
            }),
    {
        self.position_millis = if position_millis > self.duration_millis {
            self.duration_millis
        } else {
            position_millis
        };
        let single_frame = !self.playing;
        self.spawn_decoder(single_frame)
    }

    /// Takes note of how starting the sound ended; without sound the picture goes on.
    pub fn install_audio(&mut self, started: Result<(), String>)
        ensures
            old(self).wf() ==> final(self).wf(),
            *final(self) == match started {
                Ok(_) => *old(self),
                Err(error) => VideoPlayer { error: Some(error), ..*old(self) },
            },
    {
        if let Err(error) = started {
            self.error = Some(error);
        }
    }

    /// Takes what came from the decoder. The result tells whether the sound has to stop.
    pub fn receive(&mut self, event: PlayerEvent) -> (r: bool)
        ensures
            old(self).wf() ==> final(self).wf(),
            match event {
                PlayerEvent::Frame { position_millis } => !r && *final(self) == (VideoPlayer {
                    position_millis: at_most(position_millis, old(self).duration_millis),
                    ..*old(self)
                }),
                PlayerEvent::Ended => r && *final(self) == (VideoPlayer {
                    playing: false,
                    ..*old(self)
                }),
                PlayerEvent::Failed(error) => r && *final(self) == (VideoPlayer {
                    playing: false,
                    error: Some(error),
                    ..*old(self)
                }),
            },
    {
        match event {
            PlayerEvent::Frame { position_millis } => {
                self.position_millis = if position_millis > self.duration_millis {
                    self.duration_millis
                } else {
                    position_millis
                };
                false
            },
            PlayerEvent::Ended => {
                self.playing = false;
                true
            },
            PlayerEvent::Failed(error) => {
                self.playing = false;
                self.error = Some(error);
                true
            },
        }
    }

    /// Whether the clip is played.
    pub fn is_playing(&self) -> (r: bool)
        ensures
            r == self.playing,
    {
        self.playing
    }

    /// Where the clip is.
    pub fn position_millis(&self) -> (r: u64)
        ensures
            r == self.position_millis,
    {
        self.position_millis
    }

    /// How long the clip is.
    pub fn duration_millis(&self) -> (r: u64)
        ensures
            r == self.duration_millis,
    {
        self.duration_millis
    }

    /// What went wrong.
    pub fn error(&self) -> (r: Option<&str>)
        ensures
            match r {
                Some(shown) => self.error matches Some(error) && shown@ == error@,
                None => self.error is None,
            },
    {
        match &self.error {
            Some(error) => Some(error.as_str()),
            None => None,
        }
    }
}

/// What is shown where sound is asked for without a clip.
pub const NO_CLIP: &'static str = "No clip is loaded";

/// The arguments that make FFmpeg decode pictures, in real time where the clip is played.
pub fn decoder_args(request: &DecodeRequest) -> (r: Vec<String>)
    ensures
        r.deep_view() == seq![
            "-hide_banner"@,
            "-loglevel"@,
            "error"@,
            "-ss"@,
            capture_args::seconds_text(request.start_millis as nat),
        ] + (if request.single_frame {
            Seq::empty()
        } else {
            seq!["-re"@]
        }) + seq![
            "-i"@,
            request.path@,
            "-an"@,
            "-vf"@,
            "fps=60,scale=960:540:force_original_aspect_ratio=decrease,pad=960:540:(ow-iw)/2:(oh-ih)/2:black"@,
            "-pix_fmt"@,
            "rgba"@,
            "-f"@,
            "rawvideo"@,
            "pipe:1"@,
        ],
{
    let start = capture_args::seconds_of(request.start_millis);
    let mut args: Vec<String> = Vec::new();
    text::push_texts(&mut args, &["-hide_banner", "-loglevel", "error", "-ss"]);
    text::push_text(&mut args, start.as_str());
    if !request.single_frame {
        text::push_text(&mut args, "-re");
    }
    text::push_text(&mut args, "-i");
    text::push_text(&mut args, request.path.as_str());
    text::push_texts(
        &mut args,
        &[
            "-an",
            "-vf",
            "fps=60,scale=960:540:force_original_aspect_ratio=decrease,pad=960:540:(ow-iw)/2:(oh-ih)/2:black",
            "-pix_fmt",
            "rgba",
            "-f",
            "rawvideo",
            "pipe:1",
        ],
    );
    args
}

/// The arguments that make FFmpeg decode the sound from a position on.
pub fn audio_args(path: &str, position_millis: u64) -> (r: Vec<String>)
    ensures
        r.deep_view() == seq![
            "-hide_banner"@,
            "-loglevel"@,
            "error"@,
            "-ss"@,
            capture_args::seconds_text(position_millis as nat),
            "-i"@,
            path@,
            "-map"@,
            "0:a:0?"@,
            "-vn"@,
            "-ac"@,
            "2"@,
            "-ar"@,
            "48000"@,
            "-f"@,
            "f32le"@,
            "pipe:1"@,
        ],
{
    let start = capture_args::seconds_of(position_millis);
    let mut args: Vec<String> = Vec::new();
    text::push_texts(&mut args, &["-hide_banner", "-loglevel", "error", "-ss"]);
    text::push_text(&mut args, start.as_str());
    text::push_text(&mut args, "-i");
    text::push_text(&mut args, path);
    text::push_texts(
        &mut args,
        &["-map", "0:a:0?", "-vn", "-ac", "2", "-ar", "48000", "-f", "f32le", "pipe:1"],
    );
    args
}

/// How decoding the sound ended; a sample takes four bytes.
#[derive(Debug)]
pub enum AudioOutcome {
    NotStarted(String),
    Finished { success: bool, stderr: Vec<u8>, decoded_bytes: usize },
}

/// Whether there is sound to play.
pub fn decoded_audio(outcome: AudioOutcome) -> (r: Result<(), String>)
    ensures
        match outcome {
            AudioOutcome::NotStarted(error) => r matches Err(message) && message@
                == "Could not start FFmpeg audio decoder: "@ + error@,
            AudioOutcome::Finished { success: false, stderr, .. } => r matches Err(message)
                && message@ == "Could not decode clip audio: "@ + capture::last_words(
                bytes::utf8_lossy(stderr@),
            ),
            AudioOutcome::Finished { success: true, decoded_bytes, .. } => match r {
                Ok(_) => decoded_bytes >= 4,
                Err(message) => decoded_bytes < 4 && message@ == "This clip has no audio track"@,
            },
        },
{
    match outcome {
        AudioOutcome::NotStarted(error) => {
            let mut message = "Could not start FFmpeg audio decoder: ".to_owned();
            message.append(error.as_str());
            Err(message)
        },
        AudioOutcome::Finished { success, stderr, decoded_bytes } => {
            if !success {
                let shown = bytes::lossy_text(stderr.as_slice());
                let line = capture::failure_line(shown.as_str());
                let mut message = "Could not decode clip audio: ".to_owned();
                message.append(line.as_str());
                Err(message)
            } else if decoded_bytes < 4 {
                Err("This clip has no audio track".to_owned())
            } else {
                Ok(())
            }
        },
    }
}

/// The position of frame `index` of a decoder that started at `start_millis`, at 60
/// frames a second and to the nearest millisecond, as far as it can be counted.
pub open spec fn frame_time(start_millis: int, index: int) -> int {
    let time = start_millis + capture_args::nearest(index * 1000, 60);
    if time > u64::MAX {
        u64::MAX as int
    } else {
        time
    }
}

/// The position of a frame.
pub fn frame_position(start_millis: u64, index: u64) -> (r: u64)
    ensures
        r == frame_time(start_millis as int, index as int),
{
    let time: u128 = start_millis as u128 + (index as u128 * 1000 + 30) / 60;
    if time > 0xffff_ffff_ffff_ffff {
        0xffff_ffff_ffff_ffff
    } else {
        time as u64
    }
}

/// How reading one frame ended.
#[derive(Debug)]
pub enum FrameRead {
    Whole,
    EndOfVideo,
    Failed(String),
}

/// What the decoder's thread does after reading.
#[derive(Debug)]
pub enum FrameStep {
    Deliver,
    Finish,
    Report(String),
}

/// What the decoder's thread does after reading: the end of the video is no error.
pub fn after_read(read: FrameRead) -> (r: FrameStep)
    ensures
        match read {
            FrameRead::Whole => r is Deliver,
            FrameRead::EndOfVideo => r is Finish,
            FrameRead::Failed(error) => r matches FrameStep::Report(message) && message@
                == "Could not decode video frame: "@ + error@,
        },
{
    match read {
        FrameRead::Whole => FrameStep::Deliver,
        FrameRead::EndOfVideo => FrameStep::Finish,
        FrameRead::Failed(error) => {
            let mut message = "Could not decode video frame: ".to_owned();
            message.append(error.as_str());
            FrameStep::Report(message)
        },
    }
}

/// Whether the decoder's thread goes on after delivering a frame: not where one frame
/// was asked for, and not where nobody listens any more.
pub fn reads_on(single_frame: bool, listener_gone: bool) -> (r: bool)
    ensures
        r == (!single_frame && !listener_gone),
{
    !single_frame && !listener_gone
}

/// Frames never run backwards, and sixty of them make a second.
pub proof fn frames_keep_time(start_millis: int, index: int)
    requires
        start_millis >= 0,
        index >= 0,
        start_millis + index * 20 + 2000 <= u64::MAX,
    ensures
        frame_time(start_millis, 0) == start_millis,
        frame_time(start_millis, index) <= frame_time(start_millis, index + 1),
        frame_time(start_millis, index + 60) == frame_time(start_millis, index) + 1000,
{
}

} // verus!
