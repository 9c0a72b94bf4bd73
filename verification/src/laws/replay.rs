//! What a saved replay holds, and in which order.

use vstd::prelude::*;

use crate::capture;
use crate::capture::{
    BufferFile, CaptureError, CaptureManager, Cleanup, EncoderStep, FinishStep, ProcessOutcome,
    Recorder, RecordingFiles, RecordingSource, ReplayPlan, ReplaySaveRequest, StartStep, StopStep,
};
use crate::capture_args;
use crate::config::{AppConfig, CaptureEngine, EncoderBackend};
use crate::display;
use crate::display::MonitorInfo;
use crate::laws::reading;
use crate::model::Clip;
use crate::obs_capture::{ObsCaptureEngine, ObsCaptureError};
use crate::order;
use crate::paths;
use crate::paths::HostSystem;
use crate::services::clock;
use crate::services::clock::Timestamp;
use crate::text;

verus! {

/// The positions among the first `n` items at which an item is wanted, in order.
pub open spec fn places<A>(items: Seq<A>, wanted: spec_fn(A) -> bool, n: int) -> Seq<int>
    decreases n,
{
    if n <= 0 {
        Seq::empty()
    } else if wanted(items[n - 1]) {
        places(items, wanted, n - 1).push(n - 1)
    } else {
        places(items, wanted, n - 1)
    }
}

/// The wanted items stand at their places, each once and in order.
pub proof fn lemma_places<A>(items: Seq<A>, wanted: spec_fn(A) -> bool, n: int)
    requires
        0 <= n <= items.len(),
    ensures
        items.take(n).filter(wanted).len() == places(items, wanted, n).len() <= n,
        forall|k: int|
            0 <= k < places(items, wanted, n).len() ==> {
                let at = #[trigger] places(items, wanted, n)[k];
                0 <= at < n && wanted(items[at]) && items.take(n).filter(wanted)[k] == items[at]
            },
        forall|j: int, k: int|
            0 <= j < k < places(items, wanted, n).len() ==> #[trigger] places(items, wanted, n)[j]
                < #[trigger] places(items, wanted, n)[k],
        forall|x: int|
            0 <= x < n && wanted(#[trigger] items[x]) ==> places(items, wanted, n).contains(x),
    decreases n,
{
    reveal(Seq::filter);
    if n > 0 {
        lemma_places(items, wanted, n - 1);
        let before = places(items, wanted, n - 1);
        let now = places(items, wanted, n);
        assert(items.take(n).drop_last() =~= items.take(n - 1));
        assert(items.take(n).last() == items[n - 1]);
        assert forall|x: int| 0 <= x < n && wanted(#[trigger] items[x]) implies now.contains(x) by {
            if x < n - 1 {
                assert(before.contains(x));
                let k = before.index_of(x);
                assert(now[k] == x);
            } else {
                assert(now[now.len() - 1] == x);
            }
        }
    } else {
        assert(items.take(n) =~= Seq::empty());
    }
}

/// `at` picks the segments out of the files, every one once, the oldest first. Files whose
/// time is not known come before all others, and files of one age keep their order.
pub open spec fn picks_by_age(host: HostSystem, files: Seq<BufferFile>, at: Seq<int>) -> bool {
    &&& forall|i: int|
        0 <= i < at.len() ==> 0 <= #[trigger] at[i] < files.len() && capture::is_segment(
            host,
            files[at[i]].path@,
        )
    &&& forall|x: int|
        0 <= x < files.len() && capture::is_segment(host, (#[trigger] files[x]).path@)
            ==> at.contains(x)
    &&& forall|i: int, j: int|
        0 <= i < j < at.len() ==> at[i] != at[j] && match (
            files[#[trigger] at[i]].modified,
            files[#[trigger] at[j]].modified,
        ) {
            (Some(s), Some(t)) => s < t || s == t && at[i] < at[j],
            (None, Some(_)) => true,
            (Some(_), None) => false,
            (None, None) => at[i] < at[j],
        }
}

/// The listing names the segments and nothing else, each once and the oldest first.
pub proof fn segments_are_listed_by_age(host: HostSystem, files: Vec<BufferFile>, r: Vec<String>)
    requires
        call_ensures(capture::list_segments, (host, &files), r),
    ensures
        exists|at: Seq<int>| #[trigger]
            picks_by_age(host, files@, at) && at.len() == r@.len() && forall|i: int|
                0 <= i < at.len() ==> (#[trigger] r@[i])@ == files@[at[i]].path@,
{
    let wanted = |file: BufferFile| capture::is_segment(host, file.path@);
    let found = capture::segment_files(host, files@);
    let n = files@.len() as int;
    lemma_places(files@, wanted, n);
    assert(files@.take(n) =~= files@);
    assert(found == files@.filter(wanted));
    let spots = places(files@, wanted, n);
    let ranks = capture::file_ranks(found);
    let picked = choose|picked: Seq<usize>| #[trigger]
        order::is_order(ranks, picked) && r.deep_view().len() == found.len() && forall|i: int|
            0 <= i < r.deep_view().len() ==> #[trigger] r.deep_view()[i] == found[picked[i] as int].path@;
    assert(order::is_order(ranks, picked));
    let at = Seq::new(picked.len(), |i: int| spots[picked[i] as int]);
    assert forall|i: int| 0 <= i < at.len() implies 0 <= #[trigger] at[i] < files@.len()
        && capture::is_segment(host, files@[at[i]].path@) by {
        assert(picked[i] < ranks.len());
        assert(wanted(files@[spots[picked[i] as int]]));
    }
    assert forall|x: int|
        0 <= x < files@.len() && capture::is_segment(host, (#[trigger] files@[x]).path@) implies at.contains(
    x) by {
        assert(wanted(files@[x]));
        assert(spots.contains(x));
        let k = spots.index_of(x);
        assert(files.len() == files@.len());
        assert(picked.contains(k as usize));
        let i = picked.index_of(k as usize);
        assert(at[i] == x);
    }
    assert forall|i: int, j: int| 0 <= i < j < at.len() implies at[i] != at[j] && match (
        files@[#[trigger] at[i]].modified,
        files@[#[trigger] at[j]].modified,
    ) {
        (Some(s), Some(t)) => s < t || s == t && at[i] < at[j],
        (None, Some(_)) => true,
        (Some(_), None) => false,
        (None, None) => at[i] < at[j],
    } by {
        let a = picked[i] as int;
        let b = picked[j] as int;
        assert(picked[i] < ranks.len() && picked[j] < ranks.len());
        assert(order::precedes(ranks, a, b));
        assert(found[a] == files@[spots[a]] && found[b] == files@[spots[b]]);
        if a < b {
            assert(spots[a] < spots[b]);
        } else if b < a {
            assert(spots[b] < spots[a]);
        }
    }
    assert(picks_by_age(host, files@, at));
    assert forall|i: int| 0 <= i < at.len() implies (#[trigger] r@[i])@ == files@[at[i]].path@ by {
        assert(r.deep_view()[i] == r@[i]@);
        assert(picked[i] < ranks.len());
        assert(found[picked[i] as int] == files@[spots[picked[i] as int]]);
    }
}

/// Of two segments whose times are known, the older one is listed first.
pub proof fn older_segments_come_first(
    host: HostSystem,
    files: Vec<BufferFile>,
    r: Vec<String>,
    a: int,
    b: int,
    s: i128,
    t: i128,
)
    requires
        call_ensures(capture::list_segments, (host, &files), r),
        0 <= a < files@.len(),
        0 <= b < files@.len(),
        capture::is_segment(host, files@[a].path@),
        capture::is_segment(host, files@[b].path@),
        files@[a].modified == Some(s),
        files@[b].modified == Some(t),
        s < t,
    ensures
        exists|i: int, j: int|
            #![trigger r@[i], r@[j]]
            0 <= i < j < r@.len() && r@[i]@ == files@[a].path@ && r@[j]@ == files@[b].path@,
{
    segments_are_listed_by_age(host, files, r);
    let at = choose|at: Seq<int>| #[trigger]
        picks_by_age(host, files@, at) && at.len() == r@.len() && forall|i: int|
            0 <= i < at.len() ==> (#[trigger] r@[i])@ == files@[at[i]].path@;
    assert(picks_by_age(host, files@, at));
    assert(at.contains(a) && at.contains(b));
    let i = at.index_of(a);
    let j = at.index_of(b);
    assert(at[i] == a && at[j] == b);
    if j < i {
        assert(files@[at[j]].modified == Some(t));
    }
    assert(r@[i]@ == files@[a].path@ && r@[j]@ == files@[b].path@);
}

/// A replay is the newest run of the listing that is complete: without the segment that may
/// still be written, as short as the clip allows, and all there is where that is less. It
/// fails where nothing is complete, and only there.
pub proof fn replays_are_the_newest_run(
    host: HostSystem,
    config: AppConfig,
    files: Vec<BufferFile>,
    seconds: u32,
    running: bool,
    stamp: &str,
    listed: Vec<String>,
    r: Result<ReplayPlan, CaptureError>,
)
    requires
        config.segment_seconds > 0,
        call_ensures(capture::list_segments, (host, &files), listed),
        call_ensures(
            capture::replay_plan,
            (host, &config, &files, seconds, running, stamp),
            r,
        ),
    ensures
        ({
            let end = if running && listed@.len() > 0 {
                listed@.len() - 1
            } else {
                listed@.len() as int
            };
            let size = config.segment_seconds as int;
            let least = if seconds == 0 {
                1
            } else {
                seconds as int
            };
            match r {
                Ok(plan) => {
                    let k = plan.segments@.len() as int;
                    &&& 0 < k <= end
                    &&& plan.segments.deep_view() == listed.deep_view().subrange(end - k, end)
                    &&& k < end ==> k * size >= least
                    &&& (k - 1) * size < least
                    &&& plan.duration_millis == k * size * 1000
                },
                Err(error) => end == 0 && error == CaptureError::EmptyBuffer,
            }
        }),
{
    let all = choose|all: Seq<Seq<char>>| #[trigger]
        capture::lists_segments(host, files@, all) && match r {
            Ok(plan) => capture::complete_segments(all, running).len() > 0 && plan.makes(
                host,
                config,
                all,
                seconds as int,
                running,
                stamp@,
            ),
            Err(error) => capture::complete_segments(all, running).len() == 0 && error
                == CaptureError::EmptyBuffer,
        };
    lemma_newest_run(host, config, files, seconds, running, stamp@, listed, all, r);
}

/// The replay is the newest run of the listing.
pub open spec fn is_newest_run(
    config: AppConfig,
    seconds: u32,
    running: bool,
    listed: Seq<Seq<char>>,
    r: Result<ReplayPlan, CaptureError>,
) -> bool {
    let end = if running && listed.len() > 0 {
        listed.len() - 1
    } else {
        listed.len() as int
    };
    let size = config.segment_seconds as int;
    let least = if seconds == 0 {
        1
    } else {
        seconds as int
    };
    match r {
        Ok(plan) => {
            let k = plan.segments@.len() as int;
            &&& 0 < k <= end
            &&& plan.segments.deep_view() == listed.subrange(end - k, end)
            &&& k < end ==> k * size >= least
            &&& (k - 1) * size < least
            &&& plan.duration_millis == k * size * 1000
        },
        Err(error) => end == 0 && error == CaptureError::EmptyBuffer,
    }
}

/// A planned replay is the newest run of the listing.
proof fn lemma_newest_run(
    host: HostSystem,
    config: AppConfig,
    files: Vec<BufferFile>,
    seconds: u32,
    running: bool,
    stamp: Seq<char>,
    listed: Vec<String>,
    all: Seq<Seq<char>>,
    r: Result<ReplayPlan, CaptureError>,
)
    requires
        config.segment_seconds > 0,
        capture::lists_segments(host, files@, listed.deep_view()),
        capture::lists_segments(host, files@, all),
        match r {
            Ok(plan) => capture::complete_segments(all, running).len() > 0 && plan.makes(
                host,
                config,
                all,
                seconds as int,
                running,
                stamp,
            ),
            Err(error) => capture::complete_segments(all, running).len() == 0 && error
                == CaptureError::EmptyBuffer,
        },
    ensures
        is_newest_run(config, seconds, running, listed.deep_view(), r),
{
    capture::segment_listing_is_unique(host, files@, all, listed.deep_view());
    assert(listed.deep_view().len() == listed@.len());
    let size = config.segment_seconds as int;
    let least = if seconds == 0 {
        1
    } else {
        seconds as int
    };
    capture_args::lemma_pieces_hold(least, size);
    capture::replay_holds_the_newest_complete_segments(all, running, seconds as int, size);
    let want = capture_args::pieces_for(least, size);
    assert(want >= 1) by (nonlinear_arith)
        requires
            want * size >= least,
            least >= 1,
            size > 0,
    ;
    if let Ok(plan) = r {
        let k = plan.segments.deep_view().len() as int;
        assert(k == plan.segments@.len());
        let whole = capture::complete_segments(all, running).len() as int;
        assert(k == if whole > want {
            want
        } else {
            whole
        });
        assert((k - 1) * size < least) by (nonlinear_arith)
            requires
                k <= want,
                want * size < least + size,
                size > 0,
        ;
    }
}

/// Saving the last seconds at once plans the newest run of the listing, into a file named
/// after a time that the clock gave.
pub proof fn saved_replays_are_the_newest_run(
    host: HostSystem,
    config: AppConfig,
    files: Vec<BufferFile>,
    seconds: u32,
    running: bool,
    listed: Vec<String>,
    r: Result<ReplayPlan, CaptureError>,
)
    requires
        config.segment_seconds > 0,
        call_ensures(capture::list_segments, (host, &files), listed),
        call_ensures(
            CaptureManager::save_replay_snapshot,
            (host, &config, &files, seconds, running),
            r,
        ),
    ensures
        is_newest_run(config, seconds, running, listed.deep_view(), r),
        r matches Ok(plan) ==> exists|now: Timestamp| #[trigger]
            clock::was_read(now) && (clock::utc_text(now.seconds, now.nanos, "%Y%m%d-%H%M%S"@) matches Some(
                stamp,
            ) && plan.output@ == paths::join_path(
                host,
                config.clips_directory@,
                "xyra-"@ + stamp + ".mp4"@,
            )),
{
    let (all, now) = choose|all: Seq<Seq<char>>, now: Timestamp|
        #![trigger capture::lists_segments(host, files@, all), clock::was_read(now)]
        capture::lists_segments(host, files@, all) && clock::was_read(now) && match r {
            Ok(plan) => capture::complete_segments(all, running).len() > 0 && clock::utc_text(
                now.seconds,
                now.nanos,
                clock::FILE_STAMP@,
            ) is Some && plan.makes(
                host,
                config,
                all,
                seconds as int,
                running,
                clock::utc_text(now.seconds, now.nanos, clock::FILE_STAMP@).unwrap(),
            ),
            Err(error) => capture::complete_segments(all, running).len() == 0 && error
                == CaptureError::EmptyBuffer,
        };
    assert(clock::was_read(now));
    lemma_newest_run(
        host,
        config,
        files,
        seconds,
        running,
        clock::utc_text(now.seconds, now.nanos, clock::FILE_STAMP@).unwrap(),
        listed,
        all,
        r,
    );
}

/// A recorder saves the seconds that are asked for, and the settings' own where none are
/// named; only FFmpeg's buffer may have a segment that is still being written.
pub proof fn recorders_save_the_newest_run(
    manager: CaptureManager,
    host: HostSystem,
    config: AppConfig,
    files: Vec<BufferFile>,
    seconds: u32,
    listed: Vec<String>,
    r: Result<ReplayPlan, CaptureError>,
    s: Result<ReplayPlan, CaptureError>,
)
    requires
        config.segment_seconds > 0,
        call_ensures(capture::list_segments, (host, &files), listed),
        call_ensures(
            CaptureManager::save_replay_duration,
            (&manager, host, &config, &files, seconds),
            r,
        ),
        call_ensures(CaptureManager::save_replay, (&manager, host, &config, &files), s),
    ensures
        is_newest_run(config, seconds, manager.recorder is Ffmpeg, listed.deep_view(), r),
        is_newest_run(
            config,
            config.clip_seconds,
            manager.recorder is Ffmpeg,
            listed.deep_view(),
            s,
        ),
{
    let running = manager.recorder is Ffmpeg;
    let (all, now) = choose|all: Seq<Seq<char>>, now: Timestamp|
        #![trigger capture::lists_segments(host, files@, all), clock::was_read(now)]
        capture::lists_segments(host, files@, all) && clock::was_read(now) && match r {
            Ok(plan) => capture::complete_segments(all, running).len() > 0 && clock::utc_text(
                now.seconds,
                now.nanos,
                clock::FILE_STAMP@,
            ) is Some && plan.makes(
                host,
                config,
                all,
                seconds as int,
                running,
                clock::utc_text(now.seconds, now.nanos, clock::FILE_STAMP@).unwrap(),
            ),
            Err(error) => capture::complete_segments(all, running).len() == 0 && error
                == CaptureError::EmptyBuffer,
        };
    lemma_newest_run(
        host,
        config,
        files,
        seconds,
        running,
        clock::utc_text(now.seconds, now.nanos, clock::FILE_STAMP@).unwrap(),
        listed,
        all,
        r,
    );
    let (both, later) = choose|all: Seq<Seq<char>>, now: Timestamp|
        #![trigger capture::lists_segments(host, files@, all), clock::was_read(now)]
        capture::lists_segments(host, files@, all) && clock::was_read(now) && match s {
            Ok(plan) => capture::complete_segments(all, running).len() > 0 && clock::utc_text(
                now.seconds,
                now.nanos,
                clock::FILE_STAMP@,
            ) is Some && plan.makes(
                host,
                config,
                all,
                config.clip_seconds as int,
                running,
                clock::utc_text(now.seconds, now.nanos, clock::FILE_STAMP@).unwrap(),
            ),
            Err(error) => capture::complete_segments(all, running).len() == 0 && error
                == CaptureError::EmptyBuffer,
        };
    lemma_newest_run(
        host,
        config,
        files,
        config.clip_seconds,
        running,
        clock::utc_text(later.seconds, later.nanos, clock::FILE_STAMP@).unwrap(),
        listed,
        both,
        s,
    );
}

/// A file of the buffer is a segment exactly where its name has the extension `mp4`.
pub proof fn segments_are_told_by_their_extension(
    host: HostSystem,
    files: Vec<BufferFile>,
    r: Vec<String>,
    k: int,
    path: &str,
    name: Option<String>,
    shown: &str,
    ext: Option<String>,
)
    requires
        call_ensures(capture::list_segments, (host, &files), r),
        0 <= k < files@.len(),
        path@ == files@[k].path@,
        call_ensures(paths::name_of, (host, path), name),
        name matches Some(found) ==> shown@ == found@,
        call_ensures(paths::extension_of, (shown,), ext),
    ensures
        name is Some && (ext matches Some(found) && found@ == "mp4"@) ==> exists|i: int|
            0 <= i < r@.len() && (#[trigger] r@[i])@ == files@[k].path@,
        files@.len() == 1 && (name is None || ext is None || ext.unwrap()@ != "mp4"@) ==> r@.len()
            == 0,
{
    segments_are_listed_by_age(host, files, r);
    let at = choose|at: Seq<int>| #[trigger]
        picks_by_age(host, files@, at) && at.len() == r@.len() && forall|i: int|
            0 <= i < at.len() ==> (#[trigger] r@[i])@ == files@[at[i]].path@;
    assert(picks_by_age(host, files@, at));
    if capture::is_segment(host, files@[k].path@) {
        assert(at.contains(k));
        let i = at.index_of(k);
        assert(r@[i]@ == files@[k].path@);
    } else if files@.len() == 1 && r@.len() > 0 {
        assert(0 <= at[0] < files@.len());
    }
}

/// What is recorded is the display that is selected.
pub proof fn recordings_take_the_selected_display(
    config: AppConfig,
    monitors: Vec<MonitorInfo>,
    source: RecordingSource,
    chosen: MonitorInfo,
)
    requires
        call_ensures(
            capture::recording_source,
            (&config, &monitors),
            Ok::<RecordingSource, CaptureError>(source),
        ),
        call_ensures(
            display::selected_monitor,
            (&monitors, &config.capture_monitor),
            Some(chosen),
        ),
    ensures
        source.monitor == chosen,
{
    let id = text::shown(config.capture_monitor);
    let i = choose|i: int| #[trigger]
        display::monitor_choice(monitors@, id, i) && source.monitor == monitors@[i];
    let j = choose|j: int| #[trigger]
        display::monitor_choice(monitors@, id, j) && chosen == monitors@[j];
    display::monitor_choice_is_unique(monitors@, id, i, j);
}

/// A recording is started with the encoder that was found, and else with the settings.
pub proof fn recordings_use_the_encoder_found(
    host: HostSystem,
    config: AppConfig,
    encoder: EncoderBackend,
    monitor: MonitorInfo,
    output: &str,
    port: Option<u16>,
    changed: AppConfig,
    r: Vec<String>,
    s: Vec<String>,
)
    requires
        call_ensures(
            capture::recording_command,
            (host, config, encoder, &monitor, output, port),
            r,
        ),
        changed == (AppConfig { encoder, ..config }),
        call_ensures(
            capture_args::capture_args_with_loopback,
            (host, &changed, &monitor, output, port),
            s,
        ),
    ensures
        r.deep_view() == s.deep_view(),
{
}

/// An export is a cut of the clip between the two times.
pub proof fn exports_are_cuts(
    input: &str,
    output: &str,
    start: u64,
    end: u64,
    r: Vec<String>,
    s: Vec<String>,
)
    requires
        call_ensures(CaptureManager::export_trimmed, (input, output, start, end), r),
        call_ensures(capture_args::trim_args, (input, output, start, end), s),
    ensures
        r.deep_view() == s.deep_view(),
{
}

/// What failed is told with what is known of it: the path, the encoder or the reason; and
/// what is missing is told in plain words.
pub proof fn failures_are_told(error: CaptureError, r: String)
    requires
        call_ensures(CaptureError::message, (&error,), r),
    ensures
        error matches CaptureError::FfmpegMissing(path) ==> r@ == "FFmpeg was not found at '"@ + path@
            + "'. Retry the bundled setup or choose a custom path in Settings."@,
        error matches CaptureError::EncoderUnavailable(name) ==> text::starts_with(r@, name@)
            && r@.len() > name@.len(),
        error matches CaptureError::Obs(reason) ==> r@ == "OBS capture failed: "@ + reason@,
        error matches CaptureError::ProcessFailed(reason) ==> r@ == "media operation failed: "@
            + reason@,
        error matches CaptureError::Io(reason) ==> r@ == "file operation failed: "@ + reason@,
        error is AlreadyRunning ==> r@ == "replay buffer is already running"@,
        error is NotRunning ==> r@ == "replay buffer is not running"@,
        error is EmptyBuffer ==> r@ == "not enough buffered video yet; wait a few seconds"@,
{
    if let CaptureError::EncoderUnavailable(name) = error {
        reveal_strlit(" is not available in the bundled FFmpeg build or graphics driver");
        assert(r@.subrange(0, name@.len() as int) =~= name@);
    }
}

/// The clip is written into the clips directory under the time it is saved at; FFmpeg reads
/// the list beside it and copies what it reads, and writes the clip last.
pub proof fn replays_are_written_where_they_belong(
    host: HostSystem,
    config: AppConfig,
    files: Vec<BufferFile>,
    seconds: u32,
    running: bool,
    stamp: &str,
    plan: ReplayPlan,
    list: String,
)
    requires
        config.segment_seconds > 0,
        call_ensures(
            capture::replay_plan,
            (host, &config, &files, seconds, running, stamp),
            Ok(plan),
        ),
        call_ensures(capture_args::concat_list, (&plan.segments, config.segment_seconds), list),
    ensures
        plan.output@ == paths::join_path(
            host,
            config.clips_directory@,
            seq!['x', 'y', 'r', 'a', '-'] + stamp@ + seq!['.', 'm', 'p', '4'],
        ),
        paths::file_name(host, plan.output@) is Some ==> plan.list_path@ != plan.output@,
        plan.args.deep_view().last() == plan.output@,
        reading::gives(plan.args.deep_view(), "-i"@, plan.list_path@),
        reading::gives(plan.args.deep_view(), "-f"@, "concat"@),
        reading::gives(plan.args.deep_view(), "-c"@, "copy"@),
        plan.list@ == list@,
{
    reveal_strlit("xyra-");
    reveal_strlit(".mp4");
    assert("xyra-"@ =~= seq!['x', 'y', 'r', 'a', '-']);
    assert(".mp4"@ =~= seq!['.', 'm', 'p', '4']);
    let args = plan.args.deep_view();
    assert(args[1] == "-f"@ && args[2] == "concat"@);
    assert(args[5] == "-i"@ && args[6] == plan.list_path@);
    assert(args[9] == "-c"@ && args[10] == "copy"@);
    reveal_strlit("concat.txt");
    let name = "concat.txt"@;
    assert(name.len() == 10 && name[9] == 't');
    let path = plan.list_path@;
    if paths::file_name(host, plan.output@) is Some {
        assert(path.last() == 't');
        assert(plan.output@.last() == '4');
    }
}

/// The list of one segment names it and nothing more; FFmpeg reads the path from it, with
/// slashes for backslashes.
pub proof fn lists_of_one_name_the_segment(path: String, seconds: u32, one: Vec<String>, r: String)
    requires
        one.deep_view() == seq![path@],
        call_ensures(capture_args::concat_list, (&one, seconds), r),
    ensures
        r@.len() >= 5,
        r@.take(5) == seq!['f', 'i', 'l', 'e', ' '],
        ({
            let read = capture_args::unquoted(r@.skip(5), false);
            &&& read.len() == path@.len()
            &&& forall|i: int|
                0 <= i < read.len() ==> #[trigger] read[i] == if path@[i] == '\\' {
                    '/'
                } else {
                    path@[i]
                }
        }),
{
    lemma_list_of_one(path@, seconds as nat);
    capture_args::listed_paths_are_read_back(path@);
    reveal_strlit("file ");
    reveal_strlit("file '");
    reveal_strlit("/");
    assert("file "@.len() == 5);
    assert(r@.take(5) =~= seq!['f', 'i', 'l', 'e', ' ']);
    crate::laws::texts::lemma_replace_one(path@, '\\', "/"@);
    assert(r@.skip(5) =~= capture_args::quoted_path(path@).skip(5));
}

/// A list of one is its one entry.
proof fn lemma_list_of_one(path: Seq<char>, seconds: nat)
    ensures
        capture_args::list_text(seq![path], seconds) == capture_args::quoted_path(path),
{
    let entries = Seq::new(
        1,
        |i: int| capture_args::list_entry(seq![path][i], seconds, i == seq![path].len() - 1),
    );
    assert(entries[0] == capture_args::quoted_path(path));
}

/// A segment more puts the length of the one before it behind that, and then the segment:
/// the order of the segments is the order of the list.
pub proof fn lists_grow_segment_by_segment(
    few: Vec<String>,
    path: String,
    one: Vec<String>,
    many: Vec<String>,
    seconds: u32,
    few_list: String,
    one_list: String,
    many_list: String,
)
    requires
        few@.len() > 0,
        one.deep_view() == seq![path@],
        many.deep_view() == few.deep_view().push(path@),
        call_ensures(capture_args::concat_list, (&few, seconds), few_list),
        call_ensures(capture_args::concat_list, (&one, seconds), one_list),
        call_ensures(capture_args::concat_list, (&many, seconds), many_list),
    ensures
        exists|length: Seq<char>|
            #![trigger reading::writes(length, seconds as int)]
            reading::writes(length, seconds as int) && many_list@ == few_list@ + "\nduration "@
                + length + ".000000\n"@ + one_list@,
{
    let all = few.deep_view();
    let n = all.len() as int;
    assert(n == few@.len());
    let grown = all.push(path@);
    let length = text::decimal(seconds as nat);
    reading::lemma_decimal_writes(seconds as nat);
    lemma_list_of_one(path@, seconds as nat);
    let short = Seq::new(
        all.len(),
        |i: int| capture_args::list_entry(all[i], seconds as nat, i == all.len() - 1),
    );
    let long = Seq::new(
        grown.len(),
        |i: int| capture_args::list_entry(grown[i], seconds as nat, i == grown.len() - 1),
    );
    reveal_strlit("\n");
    reveal_strlit(".000000");
    reveal_strlit(".000000\n");
    assert(".000000"@ + "\n"@ =~= ".000000\n"@);
    let tail = "\nduration "@ + length + ".000000"@;
    let front = long.drop_last();
    assert(front.drop_last() =~= short.drop_last()) by {
        assert forall|i: int| 0 <= i < n - 1 implies #[trigger] front[i] == short[i] by {
            assert(grown[i] == all[i]);
        }
    }
    assert(grown[n - 1] == all[n - 1]);
    assert(front.last() =~= short.last() + tail);
    assert(long.last() == capture_args::quoted_path(path@));
    if n > 1 {
        assert(text::join(front, "\n"@) =~= text::join(short, "\n"@) + tail);
    } else {
        assert(front[0] == front.last() && short[0] == short.last());
        assert(text::join(front, "\n"@) =~= text::join(short, "\n"@) + tail);
    }
    assert(text::join(long, "\n"@) =~= few_list@ + tail + "\n"@ + one_list@);
    assert(many_list@ =~= few_list@ + "\nduration "@ + length + ".000000\n"@ + one_list@);
}

/// A run of FFmpeg that succeeded is no error; one that failed, or did not start, is told
/// with what it said.
pub proof fn only_failed_runs_are_errors(outcome: ProcessOutcome, r: Result<(), CaptureError>)
    requires
        call_ensures(capture::process_result, (outcome,), r),
    ensures
        r is Ok <==> (outcome matches ProcessOutcome::Finished { success, .. } && success),
        r matches Err(error) ==> error is ProcessFailed,
        (outcome matches ProcessOutcome::NotStarted(why) && (r matches Err(
            CaptureError::ProcessFailed(shown),
        ) && shown == why)) || !(outcome is NotStarted),
{
}

/// What is shown of a failed run is the last line that FFmpeg printed.
pub proof fn the_last_line_is_shown(front: Seq<char>, last: Seq<char>, stderr: &str, r: String)
    requires
        call_ensures(capture::failure_line, (stderr,), r),
        !last.contains('\n'),
        last.len() > 0,
    ensures
        stderr@ == front.push('\n') + last ==> r@ == last,
        stderr@ == last ==> r@ == last,
        stderr@ == last.push('\n') && last.last() != '\r' ==> r@ == last,
        stderr@.len() == 0 ==> r@ == "unknown FFmpeg error"@,
{
    text::lemma_split_one(last, '\n');
    if stderr@ == front.push('\n') + last {
        text::lemma_split_last(front, last, '\n');
        assert(text::lines(stderr@).last() =~= last);
    }
    if stderr@ == last {
        assert(text::lines(stderr@).last() =~= last);
    }
    if stderr@ == last.push('\n') {
        let none = Seq::<char>::empty();
        assert(last.push('\n') + none =~= stderr@);
        text::lemma_split_last(last, none, '\n');
        assert(text::lines(stderr@).last() =~= text::without_return(last));
    }
}

/// A clip comes of a plan exactly where FFmpeg succeeded; it lies where the plan wrote it
/// and lasts as long.
pub proof fn clips_come_of_runs_that_succeed(
    plan: ReplayPlan,
    outcome: ProcessOutcome,
    run: Result<(), CaptureError>,
    r: Result<Clip, CaptureError>,
)
    requires
        call_ensures(capture::process_result, (outcome,), run),
        call_ensures(ReplayPlan::finish, (plan, outcome), r),
    ensures
        r is Ok <==> run is Ok,
        r matches Ok(clip) ==> clip.path@ == plan.output@ && clip.duration_millis
            == plan.duration_millis && clip.description@.len() == 0,
{
}

/// FFmpeg is waited for while it runs, for two seconds, and killed only then.
pub proof fn ffmpeg_is_killed_late(exited: bool, waited: u64, r: FinishStep)
    requires
        call_ensures(capture::finish_step, (exited, waited), r),
    ensures
        exited <==> r == FinishStep::Done,
        r == FinishStep::Kill <==> !exited && waited >= 2000,
        r matches FinishStep::Wait { millis } ==> millis == 25,
{
}

/// Recording never starts twice, an engine that was named is the only one tried, and the
/// automatic choice tries OBS first and then FFmpeg.
pub proof fn engines_are_tried_as_chosen(
    manager: CaptureManager,
    engine: CaptureEngine,
    error: ObsCaptureError,
    first: Result<StartStep, CaptureError>,
    then: Result<StartStep, CaptureError>,
)
    requires
        call_ensures(CaptureManager::start, (&manager, engine), first),
        call_ensures(CaptureManager::obs_failed, (engine, &error), then),
    ensures
        first is Ok <==> manager.recorder == Recorder::Idle,
        first matches Err(shown) ==> shown == CaptureError::AlreadyRunning,
        first matches Ok(step) ==> (step == StartStep::TryFfmpeg <==> engine
            == CaptureEngine::Ffmpeg),
        engine == CaptureEngine::Auto <==> then == Ok::<_, CaptureError>(StartStep::TryFfmpeg),
        engine == CaptureEngine::Obs ==> then is Err,
{
}

/// What was started runs until it is stopped or found dead, and is then forgotten.
pub proof fn recorders_run_until_they_end(
    manager: &mut CaptureManager,
    alive: bool,
    r: (bool, Cleanup),
)
    requires
        old(manager).wf(),
        call_ensures(CaptureManager::is_running, (manager, alive), r),
    ensures
        r.0 <==> old(manager).recorder != Recorder::Idle && alive,
        r.0 ==> *final(manager) == *old(manager),
        !r.0 ==> final(manager).recorder == Recorder::Idle,
        r.1 == Cleanup::DropObs <==> old(manager).recorder == Recorder::Obs && !alive,
        r.1 matches Cleanup::ReapFfmpeg { relayed } ==> old(manager).recorder == (
        Recorder::Ffmpeg { relayed }) && !alive,
        old(manager).recorder is Ffmpeg && !alive ==> r.1 is ReapFfmpeg,
{
}

/// Stopping ends the engine that runs, and fails where none does.
pub proof fn stopping_ends_what_runs(
    manager: &mut CaptureManager,
    r: Result<StopStep, CaptureError>,
)
    requires
        call_ensures(CaptureManager::stop, (manager,), r),
    ensures
        final(manager).recorder == Recorder::Idle,
        r is Err <==> old(manager).recorder == Recorder::Idle,
        r matches Err(error) ==> error == CaptureError::NotRunning,
        r == Ok::<_, CaptureError>(StopStep::StopObs) <==> old(manager).recorder == Recorder::Obs,
        r matches Ok(StopStep::StopFfmpeg { relayed }) ==> old(manager).recorder == (
        Recorder::Ffmpeg { relayed }),
{
}

/// The engine and the encoder in use are those that were started.
pub proof fn what_started_is_in_use(
    manager: &mut CaptureManager,
    encoder: EncoderBackend,
    relayed: bool,
    used: Option<EncoderBackend>,
    engine: Option<CaptureEngine>,
)
    requires
        call_ensures(CaptureManager::ffmpeg_started, (manager, encoder, relayed), ()),
        call_ensures(CaptureManager::active_encoder, (&*final(manager),), used),
        call_ensures(CaptureManager::active_engine, (&*final(manager),), engine),
    ensures
        used == Some(encoder),
        engine == Some(CaptureEngine::Ffmpeg),
        final(manager).recorder == (Recorder::Ffmpeg { relayed }),
{
}

/// OBS in use has the encoder that its engine reports.
pub proof fn obs_in_use_has_its_encoder(
    manager: &mut CaptureManager,
    obs: ObsCaptureEngine,
    used: Option<EncoderBackend>,
    engine: Option<CaptureEngine>,
)
    requires
        call_ensures(CaptureManager::obs_started, (manager, &obs), ()),
        call_ensures(CaptureManager::active_encoder, (&*final(manager),), used),
        call_ensures(CaptureManager::active_engine, (&*final(manager),), engine),
    ensures
        used == Some(obs.active_encoder),
        engine == Some(CaptureEngine::Obs),
{
}

/// Where nothing records, no engine is in use.
pub proof fn nothing_in_use_where_nothing_records(
    manager: CaptureManager,
    engine: Option<CaptureEngine>,
)
    requires
        call_ensures(CaptureManager::active_engine, (&manager,), engine),
    ensures
        engine is None <==> manager.recorder == Recorder::Idle,
{
}

/// OBS that stopped leaves no encoder in use; its error is told otherwise.
pub proof fn obs_stops_or_tells_why(
    manager: &mut CaptureManager,
    outcome: Result<(), ObsCaptureError>,
    r: Result<(), CaptureError>,
)
    requires
        call_ensures(CaptureManager::obs_stopped, (manager, outcome), r),
    ensures
        r is Ok <==> outcome is Ok,
        outcome is Ok ==> final(manager).active_encoder is None,
        final(manager).recorder == Recorder::Idle,
{
}

/// With the automatic choice NVIDIA's encoder is tried first, then AMD's, then Intel's; the
/// first that works is used and no other is tried. The processor encodes where none works.
pub proof fn the_first_encoder_that_works_is_used(tried: Vec<bool>, r: EncoderStep)
    requires
        tried@.len() <= 3,
        call_ensures(CaptureManager::choose_encoder, (EncoderBackend::Auto, &tried), r),
    ensures
        tried@.len() == 0 ==> r == EncoderStep::Try(EncoderBackend::Nvidia),
        tried@.len() > 0 && tried@[0] ==> r == EncoderStep::Use(EncoderBackend::Nvidia),
        tried@ == seq![false] ==> r == EncoderStep::Try(EncoderBackend::Amd),
        tried@.len() > 1 && !tried@[0] && tried@[1] ==> r == EncoderStep::Use(EncoderBackend::Amd),
        tried@ == seq![false, false] ==> r == EncoderStep::Try(EncoderBackend::Intel),
        tried@ == seq![false, false, true] ==> r == EncoderStep::Use(EncoderBackend::Intel),
        tried@ == seq![false, false, false] ==> r == EncoderStep::Use(EncoderBackend::Software),
{
    if tried@.len() > 0 {
        assert(tried@.contains(true) == (exists|i: int| 0 <= i < tried@.len() && tried@[i]));
    }
    if tried@.len() > 0 && tried@[0] {
        assert(tried@.contains(tried@[0]));
    }
    if tried@.len() > 1 && tried@[1] {
        assert(tried@.contains(tried@[1]));
    }
    if tried@.len() > 2 && tried@[2] {
        assert(tried@.contains(tried@[2]));
    }
    if tried@ == seq![false] {
        assert(!tried@[0]);
    }
    if tried@ == seq![false, false] {
        assert(!tried@[0] && !tried@[1]);
    }
    if tried@ == seq![false, false, true] {
        assert(!tried@[0] && !tried@[1] && tried@[2]);
    }
    if tried@ == seq![false, false, false] {
        assert(!tried@[0] && !tried@[1] && !tried@[2]);
    }
    match r {
        EncoderStep::Use(backend) => {
            if exists|i: int| #[trigger] capture::first_success(tried@, i) && backend
                == capture::hardware(i) {
                let i = choose|i: int| #[trigger]
                    capture::first_success(tried@, i) && backend == capture::hardware(i);
                assert(i == 0 || i == 1 || i == 2);
                assert(tried@[i]);
                if i > 0 {
                    assert(!tried@[0]);
                }
                if i > 1 {
                    assert(!tried@[1]);
                }
            }
        },
        _ => {},
    }
}

/// A named encoder is tried itself; it is used where it works and refused where it does not.
pub proof fn named_encoders_are_used_or_refused(
    requested: EncoderBackend,
    tried: Vec<bool>,
    r: EncoderStep,
)
    requires
        tried@.len() <= 3,
        requested != EncoderBackend::Auto,
        call_ensures(CaptureManager::choose_encoder, (requested, &tried), r),
    ensures
        tried@.len() == 0 <==> r == EncoderStep::Try(requested),
        tried@.len() > 0 && tried@[0] <==> r == EncoderStep::Use(requested),
        tried@.len() > 0 && !tried@[0] <==> r is Unavailable,
{
}

/// A clip is asked for from the engine that records, for the seconds that were asked for.
pub proof fn clips_are_asked_for_as_wanted(
    manager: CaptureManager,
    config: AppConfig,
    seconds: u32,
    obs: ObsCaptureEngine,
    alive: bool,
    from_obs: Result<ReplaySaveRequest, CaptureError>,
    from_buffer: Result<ReplaySaveRequest, CaptureError>,
)
    requires
        call_ensures(
            CaptureManager::request_replay_save,
            (&manager, &config, seconds, Some(&obs), alive),
            from_obs,
        ),
        call_ensures(
            CaptureManager::request_replay_save,
            (&manager, &config, seconds, None::<&ObsCaptureEngine>, alive),
            from_buffer,
        ),
    ensures
        from_obs is Ok <==> alive,
        from_obs matches Ok(request) ==> (request matches ReplaySaveRequest::Obs(replay)
            && replay.requested_seconds == if seconds == 0 {
            1
        } else {
            seconds
        } && replay.max_buffer_seconds == obs.max_buffer_seconds && replay.ffmpeg_path@
            == config.ffmpeg_path@),
        from_buffer matches Ok(ReplaySaveRequest::Ffmpeg { config: kept, clip_seconds, capture_running })
            && clip_seconds == seconds && kept.clips_directory@ == config.clips_directory@
            && kept.segment_seconds == config.segment_seconds && kept.buffer_directory@
            == config.buffer_directory@ && (capture_running <==> manager.recorder is Ffmpeg),
{
}

/// What FFmpeg records into lies in the buffer directory: numbered segments, and a log.
pub proof fn recordings_go_into_the_buffer(
    host: HostSystem,
    config: AppConfig,
    r: RecordingFiles,
)
    requires
        call_ensures(capture::recording_files, (host, &config), r),
    ensures
        r.segments@ == paths::join_path(host, config.buffer_directory@, "segment-%06d.mp4"@),
        r.log@ == paths::join_path(host, config.buffer_directory@, "capture.log"@),
        r.segments@ != r.log@,
{
    reveal_strlit("segment-%06d.mp4");
    reveal_strlit("capture.log");
    assert("segment-%06d.mp4"@.len() == 16 && "segment-%06d.mp4"@[15] == '4');
    assert("capture.log"@.len() == 11 && "capture.log"@[10] == 'g');
    assert(r.segments@.last() == '4' && r.log@.last() == 'g');
}

/// The display recorded is one of those there are, and sound is relayed exactly where the
/// desktop's is wanted and comes from a playback endpoint.
pub proof fn recordings_have_a_display(
    config: AppConfig,
    monitors: Vec<MonitorInfo>,
    r: Result<RecordingSource, CaptureError>,
)
    requires
        call_ensures(capture::recording_source, (&config, &monitors), r),
    ensures
        r is Ok <==> monitors@.len() > 0,
        r matches Ok(source) ==> monitors@.contains(source.monitor),
        r matches Ok(source) ==> (source.endpoint matches Some(name) ==> config.desktop_audio_enabled
            && (config.desktop_audio_device matches Some(device) && device@
            == "wasapi-render:"@ + name@)),
        r matches Ok(source) ==> (config.desktop_audio_enabled && (
        config.desktop_audio_device matches Some(device) && exists|name: Seq<char>|
            device@ == #[trigger] ("wasapi-render:"@ + name)) ==> source.endpoint is Some),
{
    if let Ok(source) = r {
        if let Some(device) = config.desktop_audio_device {
            let prefix = crate::windows_audio::WASAPI_RENDER_PREFIX@;
            if let Some(name) = source.endpoint {
                assert(device@ =~= prefix + device@.skip(prefix.len() as int)) by {
                    assert(device@.subrange(0, prefix.len() as int) == prefix);
                }
            }
            if exists|name: Seq<char>| device@ == #[trigger] ("wasapi-render:"@ + name) {
                let name = choose|name: Seq<char>| device@ == #[trigger] ("wasapi-render:"@ + name);
                assert(device@.subrange(0, prefix.len() as int) =~= prefix);
            }
        }
    }
}

} // verus!
