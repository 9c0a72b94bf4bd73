//! How clips are listed, measured and played.

use vstd::prelude::*;

use crate::capture;
use crate::capture_args;
use crate::laws::publishing;
use crate::laws::reading;
use crate::library;
use crate::library::ClipFile;
use crate::model::Clip;
use crate::order;
use crate::paths;
use crate::paths::HostSystem;
use crate::player;
use crate::player::{
    AudioOutcome, DecodeRequest, FrameRead, FrameStep, PlayerEvent, VideoPlayer,
};
use crate::services::bytes;
use crate::services::clock;
use crate::services::clock::Timestamp;
use crate::text;

verus! {

/// A clip that is taken is at its start and does not play; what went wrong before is
/// forgotten.
pub proof fn clips_are_loaded_at_their_start(
    player: &mut VideoPlayer,
    path: String,
    millis: u64,
    plays: bool,
    at: u64,
    length: u64,
    error: Option<&str>,
)
    requires
        call_ensures(VideoPlayer::load, (player, path, millis), ()),
        call_ensures(VideoPlayer::is_playing, (&*final(player),), plays),
        call_ensures(VideoPlayer::position_millis, (&*final(player),), at),
        call_ensures(VideoPlayer::duration_millis, (&*final(player),), length),
        call_ensures(VideoPlayer::error, (&*final(player),), error),
    ensures
        !plays,
        at == 0,
        length == millis,
        error is None,
        final(player).path matches Some(taken) && taken@ == path@,
{
}

/// Playing decodes the clip at hand from where it is, and from its start where it had come to
/// its end. Without a clip nothing plays.
pub proof fn clips_play_from_where_they_are(
    player: &mut VideoPlayer,
    r: Option<DecodeRequest>,
    plays: bool,
    at: u64,
)
    requires
        call_ensures(VideoPlayer::play, (player,), r),
        call_ensures(VideoPlayer::is_playing, (&*final(player),), plays),
        call_ensures(VideoPlayer::position_millis, (&*final(player),), at),
    ensures
        r is Some <==> old(player).path is Some,
        r matches Some(request) ==> plays && !request.single_frame && request.start_millis == at
            && request.path@ == old(player).path.unwrap()@,
        old(player).position_millis < old(player).duration_millis ==> at == old(player).position_millis,
        old(player).duration_millis > 0 && old(player).position_millis >= old(player).duration_millis ==> at == 0,
        final(player).duration_millis == old(player).duration_millis,
        final(player).path == old(player).path,
        r is Some ==> final(player).error is None,
{
}

/// A still picture is taken where the clip is, and stops it.
pub proof fn previews_show_where_the_clip_is(
    player: &mut VideoPlayer,
    r: Option<DecodeRequest>,
)
    requires
        call_ensures(VideoPlayer::request_preview, (player,), r),
    ensures
        r is Some <==> old(player).path is Some,
        r matches Some(request) ==> request.single_frame && request.start_millis == old(player).position_millis && request.path@ == old(player).path.unwrap()@ && !final(player).playing,
        final(player).position_millis == old(player).position_millis,
        final(player).duration_millis == old(player).duration_millis,
        final(player).path == old(player).path,
{
}

/// Pausing keeps everything but that the clip plays.
pub proof fn pausing_keeps_the_place(player: &mut VideoPlayer)
    requires
        call_ensures(VideoPlayer::pause, (player,), ()),
    ensures
        !final(player).playing,
        final(player).position_millis == old(player).position_millis,
        final(player).duration_millis == old(player).duration_millis,
        final(player).path == old(player).path,
        final(player).error == old(player).error,
{
}

/// Seeking goes where it is told within the clip and no further than its end; a clip that
/// plays goes on from there, one that rests shows one picture.
pub proof fn seeking_stays_within_the_clip(
    player: &mut VideoPlayer,
    millis: u64,
    r: Option<DecodeRequest>,
)
    requires
        call_ensures(VideoPlayer::seek, (player, millis), r),
    ensures
        millis <= old(player).duration_millis ==> final(player).position_millis == millis,
        millis > old(player).duration_millis ==> final(player).position_millis == old(player).duration_millis,
        final(player).playing == old(player).playing,
        final(player).duration_millis == old(player).duration_millis,
        final(player).path == old(player).path,
        r is Some <==> old(player).path is Some,
        r matches Some(request) ==> request.start_millis == final(player).position_millis
            && request.single_frame != old(player).playing && request.path@ == old(player).path.unwrap()@,
{
}

/// Without sound the picture goes on, and the reason is shown; with sound nothing changes.
pub proof fn pictures_go_on_without_sound(
    player: &mut VideoPlayer,
    started: Result<(), String>,
    error: Option<&str>,
)
    requires
        call_ensures(VideoPlayer::install_audio, (player, started), ()),
        call_ensures(VideoPlayer::error, (&*final(player),), error),
    ensures
        final(player).playing == old(player).playing,
        final(player).position_millis == old(player).position_millis,
        final(player).path == old(player).path,
        final(player).duration_millis == old(player).duration_millis,
        started matches Err(reason) ==> (error matches Some(shown) && shown@ == reason@),
        started is Ok ==> *final(player) == *old(player),
{
}

/// A frame moves the clip to its time, within the clip. The end and a failure stop the clip
/// and its sound, where it is, and a failure is shown.
pub proof fn decoded_frames_move_the_clip(
    player: &mut VideoPlayer,
    event: PlayerEvent,
    r: bool,
)
    requires
        call_ensures(VideoPlayer::receive, (player, event), r),
    ensures
        r <==> !(event is Frame),
        r ==> !final(player).playing && final(player).position_millis == old(player).position_millis,
        event matches PlayerEvent::Frame { position_millis } ==> final(player).playing == old(player).playing && final(player).position_millis <= old(player).duration_millis && (position_millis
            <= old(player).duration_millis ==> final(player).position_millis == position_millis) && (
        position_millis > old(player).duration_millis ==> final(player).position_millis == old(player).duration_millis) && final(player).error == old(player).error,
        event matches PlayerEvent::Failed(reason) ==> (final(player).error matches Some(shown)
            && shown@ == reason@),
        event is Ended ==> final(player).error == old(player).error,
        final(player).path == old(player).path,
        final(player).duration_millis == old(player).duration_millis,
{
}

/// The picture is decoded from where it was asked for, of the clip asked for, in real time
/// unless one frame is enough, into raw frames of the preview's size.
pub proof fn pictures_are_decoded_as_asked(request: DecodeRequest, start: String, r: Vec<String>)
    requires
        call_ensures(player::decoder_args, (&request,), r),
        call_ensures(capture_args::seconds_of, (request.start_millis,), start),
    ensures
        reading::gives(r.deep_view(), "-ss"@, start@),
        reading::gives(r.deep_view(), "-i"@, request.path@),
        reading::gives(r.deep_view(), "-pix_fmt"@, "rgba"@),
        reading::gives(r.deep_view(), "-f"@, "rawvideo"@),
        reading::gives(
            r.deep_view(),
            "-vf"@,
            "fps=60,scale=960:540:force_original_aspect_ratio=decrease,pad=960:540:(ow-iw)/2:(oh-ih)/2:black"@,
        ),
        r.deep_view()[5] == "-re"@ <==> !request.single_frame,
        r.deep_view().last() == "pipe:1"@,
        player::FRAME_BYTES == 4 * player::PREVIEW_WIDTH * player::PREVIEW_HEIGHT,
        player::PREVIEW_WIDTH == 960 && player::PREVIEW_HEIGHT == 540,
{
    let all = r.deep_view();
    let k: int = if request.single_frame {
        5
    } else {
        6
    };
    reveal_strlit("-re");
    reveal_strlit("-i");
    assert("-re"@.len() == 3 && "-i"@.len() == 2);
    assert(all[3] == "-ss"@ && all[4] == start@);
    assert(all[k] == "-i"@ && all[k + 1] == request.path@);
    assert(all[k + 3] == "-vf"@);
    assert(all[k + 4]
        == "fps=60,scale=960:540:force_original_aspect_ratio=decrease,pad=960:540:(ow-iw)/2:(oh-ih)/2:black"@);
    assert(all[k + 5] == "-pix_fmt"@ && all[k + 6] == "rgba"@);
    assert(all[k + 7] == "-f"@ && all[k + 8] == "rawvideo"@);
    assert(all[k + 3 + 1] == all[k + 4]);
    assert(all[k + 5 + 1] == all[k + 6]);
    assert(all[k + 7 + 1] == all[k + 8]);
}

/// The sound is decoded from where the clip is, as two channels of 48000 samples a second,
/// and its absence is no error of FFmpeg's.
pub proof fn sound_is_decoded_as_asked(path: &str, millis: u64, start: String, r: Vec<String>)
    requires
        call_ensures(player::audio_args, (path, millis), r),
        call_ensures(capture_args::seconds_of, (millis,), start),
    ensures
        reading::gives(r.deep_view(), "-ss"@, start@),
        reading::gives(r.deep_view(), "-i"@, path@),
        reading::gives(r.deep_view(), "-map"@, "0:a:0?"@),
        reading::gives(r.deep_view(), "-ac"@, "2"@),
        reading::gives(r.deep_view(), "-ar"@, "48000"@),
        reading::gives(r.deep_view(), "-f"@, "f32le"@),
        r.deep_view().contains("-vn"@),
        r.deep_view().last() == "pipe:1"@,
{
    let all = r.deep_view();
    assert(all[3] == "-ss"@ && all[4] == start@);
    assert(all[5] == "-i"@ && all[6] == path@);
    assert(all[7] == "-map"@ && all[8] == "0:a:0?"@);
    assert(all[9] == "-vn"@);
    assert(all[10] == "-ac"@ && all[11] == "2"@);
    assert(all[12] == "-ar"@ && all[13] == "48000"@);
    assert(all[14] == "-f"@ && all[15] == "f32le"@);
}

/// There is sound exactly where FFmpeg ran, succeeded and gave at least one sample; the
/// reason why there is none is told.
pub proof fn sound_needs_a_sample(outcome: AudioOutcome, r: Result<(), String>)
    requires
        call_ensures(player::decoded_audio, (outcome,), r),
    ensures
        r is Ok <==> (outcome matches AudioOutcome::Finished { success, decoded_bytes, .. } && success
            && decoded_bytes >= 4),
        outcome matches AudioOutcome::NotStarted(reason) ==> publishing::ends_with(
            r.unwrap_err()@,
            reason@,
        ),
        outcome matches AudioOutcome::Finished { success: false, stderr, .. }
            ==> publishing::ends_with(
            r.unwrap_err()@,
            capture::last_words(bytes::utf8_lossy(stderr@)),
        ),
{
    if let AudioOutcome::NotStarted(reason) = outcome {
        let told = r.unwrap_err()@;
        assert(told.skip(told.len() - reason@.len()) =~= reason@);
    }
    if let AudioOutcome::Finished { success, stderr, .. } = outcome {
        if !success {
            let told = r.unwrap_err()@;
            let line = capture::last_words(bytes::utf8_lossy(stderr@));
            assert(told.skip(told.len() - line.len()) =~= line);
        }
    }
}

/// Frames are timed at sixty a second from where decoding began, to the nearest millisecond,
/// and never run backwards.
pub proof fn frames_are_timed(start: u64, index: u64, next: u64, r: u64, s: u64)
    requires
        call_ensures(player::frame_position, (start, index), r),
        call_ensures(player::frame_position, (start, next), s),
        start + index * 17 < 0x8000_0000_0000_0000,
        start + next * 17 < 0x8000_0000_0000_0000,
    ensures
        index == 0 ==> r == start,
        -30 <= 60 * (r - start) - 1000 * index <= 30,
        index <= next ==> r <= s,
        next == index + 60 ==> s == r + 1000,
{
}

/// A whole frame is shown, the end of the video ends quietly, and a failure is told.
pub proof fn reading_ends_with_the_video(read: FrameRead, r: FrameStep)
    requires
        call_ensures(player::after_read, (read,), r),
    ensures
        r is Deliver <==> read is Whole,
        r is Finish <==> read is EndOfVideo,
        read matches FrameRead::Failed(reason) ==> (r matches FrameStep::Report(told)
            && publishing::ends_with(told@, reason@)),
{
    if let FrameRead::Failed(reason) = read {
        if let FrameStep::Report(told) = r {
            assert(told@.skip(told@.len() - reason@.len()) =~= reason@);
        }
    }
}

/// Decoding goes on only for a clip that plays and while somebody looks.
pub proof fn decoding_stops_when_done(single: bool, gone: bool, r: bool)
    requires
        call_ensures(player::reads_on, (single, gone), r),
    ensures
        single ==> !r,
        gone ==> !r,
        !single && !gone ==> r,
{
}

/// A file is a clip exactly where its name has the extension `mp4`, `mkv` or `webm`, in
/// whatever case.
pub proof fn clips_are_told_by_their_extension(
    host: HostSystem,
    path: &str,
    name: Option<String>,
    shown: &str,
    ext: Option<String>,
    given: &str,
    low: String,
    r: bool,
)
    requires
        call_ensures(library::is_video, (host, path), r),
        call_ensures(paths::name_of, (host, path), name),
        name matches Some(found) ==> found@ == shown@,
        call_ensures(paths::extension_of, (shown,), ext),
        ext matches Some(found) ==> found@ == given@,
        call_ensures(text::lowered, (given,), low),
    ensures
        name is None || ext is None ==> !r,
        name is Some && ext is Some ==> (r <==> low@ == "mp4"@ || low@ == "mkv"@ || low@ == "webm"@),
{
}

/// When a file was made: when it was created, else when it was changed, else now.
pub open spec fn made(file: ClipFile, now: Timestamp) -> Timestamp {
    if file.created is Some {
        file.created.unwrap()
    } else if file.modified is Some {
        file.modified.unwrap()
    } else {
        now
    }
}

/// `at` picks the files, every one once, none before one that is newer; files of one time
/// keep their order.
pub open spec fn picks_newest_first(files: Seq<ClipFile>, now: Timestamp, at: Seq<usize>) -> bool {
    &&& at.len() == files.len()
    &&& forall|i: int| 0 <= i < at.len() ==> (#[trigger] at[i]) < files.len()
    &&& forall|i: int, j: int|
        0 <= i < j < at.len() ==> {
            let a = made(files[#[trigger] at[i] as int], now);
            let b = made(files[#[trigger] at[j] as int], now);
            &&& at[i] != at[j]
            &&& a.seconds > b.seconds || a.seconds == b.seconds && (a.nanos > b.nanos || a.nanos
                == b.nanos && at[i] < at[j])
        }
}

/// Every file is listed once, the newest first, with its own path, time and length; one whose
/// length is not known counts as empty.
pub proof fn clips_are_listed_newest_first(
    host: HostSystem,
    files: Vec<ClipFile>,
    now: Timestamp,
    r: Vec<Clip>,
)
    requires
        call_ensures(library::clips_from, (host, &files, now), r),
    ensures
        r@.len() == files@.len(),
        exists|at: Seq<usize>| #[trigger]
            picks_newest_first(files@, now, at) && forall|i: int|
                0 <= i < r@.len() ==> {
                    let clip = #[trigger] r@[i];
                    let file = files@[at[i] as int];
                    &&& clip.path@ == file.path@
                    &&& clip.created_at == made(file, now)
                    &&& file.duration_millis is Some ==> clip.duration_millis
                        == file.duration_millis.unwrap()
                    &&& file.duration_millis is None ==> clip.duration_millis == 0
                    &&& clip.description@.len() == 0
                    &&& !file.name_is_text ==> clip.title@ == "Untitled clip"@
                },
{
    let ranks = library::clip_ranks(files@, now);
    let at = choose|at: Seq<usize>|
        #![trigger order::is_order(ranks, at)]
        {
            &&& order::is_order(ranks, at)
            &&& r@.len() == files@.len()
            &&& forall|i: int|
                0 <= i < r@.len() ==> library::lists(
                    #[trigger] r@[i],
                    host,
                    files@[at[i] as int],
                    now,
                )
        };
    assert(order::is_order(ranks, at));
    assert forall|i: int, j: int| 0 <= i < j < at.len() implies {
        let a = made(files@[#[trigger] at[i] as int], now);
        let b = made(files@[#[trigger] at[j] as int], now);
        &&& at[i] != at[j]
        &&& a.seconds > b.seconds || a.seconds == b.seconds && (a.nanos > b.nanos || a.nanos
            == b.nanos && at[i] < at[j])
    } by {
        assert(order::precedes(ranks, at[i] as int, at[j] as int));
        let a = files@[at[i] as int].made_at(now);
        let b = files@[at[j] as int].made_at(now);
        assert(ranks[at[i] as int].first == -(a.seconds as int));
        assert(ranks[at[j] as int].first == -(b.seconds as int));
        assert(ranks[at[i] as int].second == -(a.nanos as int));
        assert(ranks[at[j] as int].second == -(b.nanos as int));
    }
    assert(picks_newest_first(files@, now, at));
}

/// A clip whose file name is text is titled by it, without the extension.
pub proof fn clips_are_titled_by_their_file(
    host: HostSystem,
    files: Vec<ClipFile>,
    now: Timestamp,
    r: Vec<Clip>,
    path: &str,
    name: String,
    shown: &str,
    title: String,
)
    requires
        call_ensures(library::clips_from, (host, &files, now), r),
        files@.len() == 1,
        files@[0].name_is_text,
        path@ == files@[0].path@,
        call_ensures(paths::name_of, (host, path), Some(name)),
        shown@ == name@,
        call_ensures(paths::stem_of, (shown,), title),
    ensures
        r@.len() == 1,
        r@[0].title@ == title@,
{
    let ranks = library::clip_ranks(files@, now);
    let at = choose|at: Seq<usize>|
        #![trigger order::is_order(ranks, at)]
        {
            &&& order::is_order(ranks, at)
            &&& r@.len() == files@.len()
            &&& forall|i: int|
                0 <= i < r@.len() ==> library::lists(
                    #[trigger] r@[i],
                    host,
                    files@[at[i] as int],
                    now,
                )
        };
    assert(at[0] < 1);
    assert(library::lists(r@[0], host, files@[at[0] as int], now));
}

/// Looking at the directory gives the listing of the moment.
pub proof fn listings_are_of_the_moment(host: HostSystem, files: Vec<ClipFile>, r: Vec<Clip>)
    requires
        call_ensures(library::scan_clips, (host, &files), r),
    ensures
        exists|now: Timestamp| #[trigger]
            clock::was_read(now) && r@.len() == files@.len() && library::lists_clips(
                host,
                files@,
                now,
                r@,
            ),
{
}

/// The length that FFmpeg tells is what stands between the first `Duration: ` and the comma
/// behind it.
pub proof fn durations_are_found(
    output: &str,
    before: Seq<char>,
    told: Seq<char>,
    rest: Seq<char>,
    r: Option<String>,
)
    requires
        call_ensures(library::duration_text, (output,), r),
        output@ == before + "Duration: "@ + told + ","@ + rest,
        !text::contains((before + "Duration: "@).drop_last(), "Duration: "@),
        !told.contains(','),
        !text::contains(told + ","@ + rest, "Duration: "@),
    ensures
        r matches Some(found) && found@ == told,
{
    let mark = "Duration: "@;
    reveal_strlit("Duration: ");
    reveal_strlit(",");
    let s = output@;
    let at = before.len() as int;
    assert(s.subrange(at, at + mark.len()) =~= mark);
    assert(text::occurs_at(s, mark, at));
    let front = (before + mark).drop_last();
    assert forall|j: int| 0 <= j < at implies !text::occurs_at(s, mark, j) by {
        if text::occurs_at(s, mark, j) {
            assert(front.subrange(j, j + mark.len()) =~= s.subrange(j, j + mark.len()));
            assert(text::occurs_at(front, mark, j));
        }
    }
    text::lemma_first_is_found(s, mark, at);
    let tail = s.skip(at + mark.len());
    assert(tail =~= told + ","@ + rest);
    assert(text::up_to(tail, mark) == tail) by {
        if text::find(tail, mark) is Some {
            let i = text::find(tail, mark).unwrap();
            assert(text::contains(tail, mark));
        }
    }
    let comma = told.len() as int;
    assert(tail.subrange(comma, comma + 1) =~= ","@);
    assert(text::occurs_at(tail, ","@, comma));
    assert forall|j: int| 0 <= j < comma implies !text::occurs_at(tail, ","@, j) by {
        if text::occurs_at(tail, ","@, j) {
            assert(tail.subrange(j, j + 1)[0] == ',');
            assert(told[j] == ',');
        }
    }
    text::lemma_first_is_found(tail, ","@, comma);
    assert(tail.take(comma) =~= told);
}

/// No length is found where none is told.
pub proof fn no_duration_is_made_up(output: &str, r: Option<String>)
    requires
        call_ensures(library::duration_text, (output,), r),
    ensures
        r is Some <==> text::contains(output@, "Duration: "@),
{
    if text::contains(output@, "Duration: "@) {
        crate::laws::texts::lemma_first_exists(output@, "Duration: "@);
        let i = choose|i: int| text::first_at(output@, "Duration: "@, i);
        text::lemma_first_is_found(output@, "Duration: "@, i);
    }
}

/// Hours, minutes and seconds are read as they stand between colons.
pub proof fn times_are_taken_apart(
    timestamp: &str,
    h: Seq<char>,
    m: Seq<char>,
    s: Seq<char>,
    trimmed: String,
    r: Option<(String, String, String)>,
)
    requires
        call_ensures(library::duration_fields, (timestamp,), r),
        call_ensures(text::trimmed, (timestamp,), trimmed),
        !h.contains(':'),
        !m.contains(':'),
        !s.contains(':'),
    ensures
        trimmed@ == h.push(':') + m.push(':') + s ==> (r matches Some(fields) && fields.0@ == h
            && fields.1@ == m && fields.2@ == s),
        trimmed@ == h.push(':') + m ==> r is None,
        trimmed@ == h ==> r is None,
{
    text::lemma_split_one(h, ':');
    text::lemma_split_last(h, m, ':');
    let hm = h.push(':') + m;
    text::lemma_split_last(hm, s, ':');
    if trimmed@ == h.push(':') + m.push(':') + s {
        assert(trimmed@ =~= hm.push(':') + s);
        let parts = text::split(trimmed@, ':');
        assert(parts =~= seq![h, m, s]);
        assert(parts[0] == h && parts[1] == m && parts[2] == s);
    }
    if trimmed@ == hm {
        assert(text::split(trimmed@, ':').len() == 2);
    }
    if trimmed@ == h {
        assert(text::split(trimmed@, ':').len() == 1);
    }
}

/// FFmpeg is asked about the file itself, and to do nothing else.
pub proof fn files_are_described_by_ffmpeg(video: &str, r: Vec<String>)
    requires
        call_ensures(library::probe_args, (video,), r),
    ensures
        reading::gives(r.deep_view(), "-i"@, video@),
        r.deep_view().len() == 3,
        r.deep_view().last() == video@,
{
    let all = r.deep_view();
    assert(all[1] == "-i"@ && all[2] == video@);
}

/// A player begins without a clip, and without one there is nothing to decode; with one it
/// decodes from where it is.
pub proof fn players_begin_without_a_clip(
    r: VideoPlayer,
    player: &mut VideoPlayer,
    single: bool,
    request: Option<DecodeRequest>,
)
    requires
        call_ensures(<VideoPlayer as Default>::default, (), r),
        call_ensures(VideoPlayer::spawn_decoder, (player, single), request),
    ensures
        r.path is None && !r.playing && r.position_millis == 0 && r.duration_millis == 0
            && r.error is None,
        request is Some <==> old(player).path is Some,
        request is None ==> *final(player) == *old(player),
        request matches Some(wanted) ==> wanted.single_frame == single && wanted.start_millis == old(
            player).position_millis && wanted.path@ == old(player).path.unwrap()@ && final(
            player).playing != single && final(player).position_millis == old(
            player).position_millis,
{
}

/// The length of a file is read from what FFmpeg prints of it.
pub proof fn printed_durations_are_read(
    printed: &[u8],
    shown: &str,
    told: Option<String>,
    part: &str,
    fields: Option<(String, String, String)>,
    r: Option<(String, String, String)>,
)
    requires
        call_ensures(library::probed_fields, (printed,), r),
        shown@ == bytes::utf8_lossy(printed@),
        call_ensures(library::duration_text, (shown,), told),
        told matches Some(found) ==> found@ == part@,
        call_ensures(library::duration_fields, (part,), fields),
    ensures
        told is None ==> r is None,
        told is Some ==> (r is Some <==> fields is Some),
        told is Some ==> (r matches Some(read) ==> read.0@ == fields.unwrap().0@ && read.1@
            == fields.unwrap().1@ && read.2@ == fields.unwrap().2@),
{
}

/// What is shown where there is no clip says so.
pub proof fn missing_clips_are_told()
    ensures
        player::NO_CLIP@ == "No clip is loaded"@,
{
}

} // verus!
