//! What every recording command has in common, whatever the settings.

use vstd::prelude::*;

use crate::capture_args;
use crate::capture_args::AudioSourceKind;
use crate::config::AppConfig;
use crate::display::MonitorInfo;
use crate::paths::HostSystem;
use crate::text;

verus! {

/// How often `word` occurs among the first `n` arguments.
pub open spec fn occurrences_in(args: Seq<Seq<char>>, word: Seq<char>, n: int) -> int
    decreases n,
{
    if n <= 0 {
        0
    } else {
        occurrences_in(args, word, n - 1) + if args[n - 1] == word {
            1int
        } else {
            0int
        }
    }
}

/// How often `word` occurs among the arguments.
pub open spec fn occurrences(args: Seq<Seq<char>>, word: Seq<char>) -> int {
    occurrences_in(args, word, args.len() as int)
}

/// How often four arguments occur: the one before an input, the one for a recording
/// without sound, the one before a filter of the picture, and the recorder of the desktop.
pub open spec fn tally(args: Seq<Seq<char>>) -> (int, int, int, int) {
    (
        occurrences(args, "-i"@),
        occurrences(args, "-an"@),
        occurrences(args, "-vf"@),
        occurrences(args, "gdigrab"@),
    )
}

/// The argument is one of the four.
pub open spec fn is_marker(arg: Seq<char>) -> bool {
    arg == "-i"@ || arg == "-an"@ || arg == "-vf"@ || arg == "gdigrab"@
}

/// Two tallies together.
pub open spec fn both(a: (int, int, int, int), b: (int, int, int, int)) -> (int, int, int, int) {
    (a.0 + b.0, a.1 + b.1, a.2 + b.2, a.3 + b.3)
}

/// Arguments behind others are counted on.
proof fn lemma_occurrences_add(a: Seq<Seq<char>>, b: Seq<Seq<char>>, word: Seq<char>, n: int)
    requires
        0 <= n <= b.len(),
    ensures
        occurrences_in(a + b, word, a.len() + n) == occurrences(a, word) + occurrences_in(
            b,
            word,
            n,
        ),
    decreases n,
{
    if n > 0 {
        lemma_occurrences_add(a, b, word, n - 1);
        assert((a + b)[a.len() + n - 1] == b[n - 1]);
    } else {
        lemma_occurrences_prefix(a, b, word, a.len() as int);
    }
}

/// What stands behind does not matter.
proof fn lemma_occurrences_prefix(a: Seq<Seq<char>>, b: Seq<Seq<char>>, word: Seq<char>, n: int)
    requires
        0 <= n <= a.len(),
    ensures
        occurrences_in(a + b, word, n) == occurrences_in(a, word, n),
    decreases n,
{
    if n > 0 {
        lemma_occurrences_prefix(a, b, word, n - 1);
    }
}

/// The tally of two lists is the sum of theirs.
proof fn lemma_tally_add(a: Seq<Seq<char>>, b: Seq<Seq<char>>)
    ensures
        tally(a + b) == both(tally(a), tally(b)),
{
    lemma_occurrences_add(a, b, "-i"@, b.len() as int);
    lemma_occurrences_add(a, b, "-an"@, b.len() as int);
    lemma_occurrences_add(a, b, "-vf"@, b.len() as int);
    lemma_occurrences_add(a, b, "gdigrab"@, b.len() as int);
}

/// Arguments that are none of a word do not count.
proof fn lemma_occurrences_none(args: Seq<Seq<char>>, word: Seq<char>, n: int)
    requires
        0 <= n <= args.len(),
        forall|i: int| 0 <= i < n ==> #[trigger] args[i] != word,
    ensures
        occurrences_in(args, word, n) == 0,
    decreases n,
{
    if n > 0 {
        lemma_occurrences_none(args, word, n - 1);
        assert(args[n - 1] != word);
    }
}

/// Arguments that are none of the four have an empty tally.
proof fn lemma_tally_none(args: Seq<Seq<char>>)
    requires
        forall|i: int| 0 <= i < args.len() ==> !is_marker(#[trigger] args[i]),
    ensures
        tally(args) == (0int, 0int, 0int, 0int),
{
    let n = args.len() as int;
    assert forall|i: int| 0 <= i < n implies #[trigger] args[i] != "-i"@ && args[i] != "-an"@
        && args[i] != "-vf"@ && args[i] != "gdigrab"@ by {
        assert(!is_marker(args[i]));
    }
    lemma_occurrences_none(args, "-i"@, n);
    lemma_occurrences_none(args, "-an"@, n);
    lemma_occurrences_none(args, "-vf"@, n);
    lemma_occurrences_none(args, "gdigrab"@, n);
}

/// One argument that is none of the four.
proof fn lemma_tally_one(arg: Seq<char>)
    requires
        !is_marker(arg),
    ensures
        tally(seq![arg]) == (0int, 0int, 0int, 0int),
{
    assert forall|i: int| 0 <= i < seq![arg].len() implies !is_marker(#[trigger] seq![arg][i]) by {
        assert(seq![arg][0] == arg);
    }
    lemma_tally_none(seq![arg]);
}

/// The four arguments, each alone.
proof fn lemma_tally_markers()
    ensures
        tally(seq!["-i"@]) == (1int, 0int, 0int, 0int),
        tally(seq!["-an"@]) == (0int, 1int, 0int, 0int),
        tally(seq!["-vf"@]) == (0int, 0int, 1int, 0int),
        tally(seq!["gdigrab"@]) == (0int, 0int, 0int, 1int),
{
    reveal_with_fuel(occurrences_in, 2);
    reveal_strlit("-i");
    reveal_strlit("-an");
    reveal_strlit("-vf");
    reveal_strlit("gdigrab");
    assert("-i"@.len() == 2 && "-an"@.len() == 3 && "-vf"@.len() == 3 && "gdigrab"@.len() == 7);
    assert("-an"@[1] == 'a' && "-vf"@[1] == 'v');
    assert(seq!["-i"@][0] == "-i"@ && seq!["-an"@][0] == "-an"@ && seq!["-vf"@][0] == "-vf"@
        && seq!["gdigrab"@][0] == "gdigrab"@);
}

/// What does not begin as they do, or is longer, is none of the four.
proof fn lemma_not_marker(arg: Seq<char>)
    requires
        arg.len() > 7 || arg.len() > 0 && arg[0] != '-' && arg[0] != 'g',
    ensures
        !is_marker(arg),
{
    reveal_strlit("-i");
    reveal_strlit("-an");
    reveal_strlit("-vf");
    reveal_strlit("gdigrab");
    assert("-i"@.len() == 2 && "-an"@.len() == 3 && "-vf"@.len() == 3 && "gdigrab"@.len() == 7);
    assert("-i"@[0] == '-' && "-an"@[0] == '-' && "-vf"@[0] == '-' && "gdigrab"@[0] == 'g');
}

/// A number begins with a digit.
proof fn lemma_decimal_begins(n: nat)
    ensures
        text::decimal(n).len() > 0,
        '0' <= text::decimal(n)[0] <= '9',
    decreases n,
{
    if n >= 10 {
        lemma_decimal_begins(n / 10);
    }
}

/// A number is none of the four, whatever follows it.
proof fn lemma_number_is_no_marker(n: nat, rest: Seq<char>)
    ensures
        !is_marker(text::decimal(n) + rest),
        !is_marker(text::decimal(n)),
{
    lemma_decimal_begins(n);
    assert((text::decimal(n) + rest)[0] == text::decimal(n)[0]);
    lemma_not_marker(text::decimal(n) + rest);
    lemma_not_marker(text::decimal(n));
}

/// A number with its sign is none of the four.
proof fn lemma_signed_is_no_marker(n: int)
    ensures
        !is_marker(text::signed_decimal(n)),
{
    reveal_strlit("-i");
    reveal_strlit("-an");
    reveal_strlit("-vf");
    reveal_strlit("gdigrab");
    assert("-i"@[1] == 'i' && "-an"@[1] == 'a' && "-vf"@[1] == 'v' && "gdigrab"@[1] == 'd');
    if n < 0 {
        lemma_decimal_begins((-n) as nat);
        assert(text::signed_decimal(n)[1] == text::decimal((-n) as nat)[0]);
    } else {
        lemma_number_is_no_marker(n as nat, Seq::empty());
    }
}

/// A join begins as its first part does.
proof fn lemma_join_begins(parts: Seq<Seq<char>>, sep: Seq<char>)
    requires
        parts.len() > 0,
        parts[0].len() > 0,
    ensures
        text::join(parts, sep).len() > 0,
        text::join(parts, sep)[0] == parts[0][0],
    decreases parts.len(),
{
    if parts.len() > 1 {
        lemma_join_begins(parts.drop_last(), sep);
    }
}

/// The short options of a recording are none of the four.
proof fn lemma_short_options()
    ensures
        !is_marker("-y"@),
        !is_marker("-f"@),
        !is_marker("-stats"@),
        !is_marker("-ar"@),
        !is_marker("-ac"@),
        !is_marker("-c:v"@),
        !is_marker("-tune"@),
        !is_marker("-preset"@),
        !is_marker("-rc"@),
        !is_marker("-bf"@),
        !is_marker("-map"@),
        !is_marker("-c:a"@),
        !is_marker("-b:a"@),
        !is_marker("-b:v"@),
        !is_marker("-g"@),
{
    reveal_strlit("-i");
    reveal_strlit("-an");
    reveal_strlit("-vf");
    reveal_strlit("gdigrab");
    reveal_strlit("-y");
    reveal_strlit("-f");
    reveal_strlit("-stats");
    reveal_strlit("-ar");
    reveal_strlit("-ac");
    reveal_strlit("-c:v");
    reveal_strlit("-tune");
    reveal_strlit("-preset");
    reveal_strlit("-rc");
    reveal_strlit("-bf");
    reveal_strlit("-map");
    reveal_strlit("-c:a");
    reveal_strlit("-b:a");
    reveal_strlit("-b:v");
    reveal_strlit("-g");
    assert("-i"@.len() == 2 && "-an"@.len() == 3 && "-vf"@.len() == 3 && "gdigrab"@.len() == 7);
    assert("-i"@[1] == 'i' && "-an"@[1] == 'a' && "-vf"@[1] == 'v' && "gdigrab"@[1] == 'd');
    assert("-y"@.len() == 2 && "-y"@[1] == 'y');
    assert("-f"@.len() == 2 && "-f"@[1] == 'f');
    assert("-stats"@.len() == 6 && "-stats"@[1] == 's');
    assert("-ar"@.len() == 3 && "-ar"@[2] == 'r' && "-an"@[2] == 'n');
    assert("-ac"@.len() == 3 && "-ac"@[2] == 'c');
    assert("-c:v"@.len() == 4 && "-c:v"@[1] == 'c');
    assert("-tune"@.len() == 5 && "-tune"@[1] == 't');
    assert("-preset"@.len() == 7 && "-preset"@[1] == 'p');
    assert("-rc"@.len() == 3 && "-rc"@[1] == 'r');
    assert("-bf"@.len() == 3 && "-bf"@[1] == 'b');
    assert("-map"@.len() == 4 && "-map"@[1] == 'm');
    assert("-c:a"@.len() == 4 && "-c:a"@[1] == 'c');
    assert("-b:a"@.len() == 4 && "-b:a"@[1] == 'b');
    assert("-b:v"@.len() == 4 && "-b:v"@[1] == 'b');
    assert("-g"@.len() == 2 && "-g"@[1] == 'g');
}

/// What every recording begins with holds none of the four.
proof fn lemma_head_tally()
    ensures
        tally(capture_args::recording_head()) == (0int, 0int, 0int, 0int),
{
    lemma_short_options();
    reveal_strlit("-hide_banner");
    assert("-hide_banner"@.len() == 12);
    lemma_not_marker("-hide_banner"@);
    reveal_strlit("-loglevel");
    assert("-loglevel"@.len() == 9);
    lemma_not_marker("-loglevel"@);
    reveal_strlit("warning");
    assert("warning"@.len() > 0 && "warning"@[0] == 'w');
    lemma_not_marker("warning"@);
    reveal_strlit("-stats_period");
    assert("-stats_period"@.len() == 13);
    lemma_not_marker("-stats_period"@);
    reveal_strlit("30");
    assert("30"@.len() > 0 && "30"@[0] == '3');
    lemma_not_marker("30"@);
    lemma_tally_none(capture_args::recording_head());
}

/// The display is one input, by the desktop's recorder or by Desktop Duplication.
proof fn lemma_video_input_tally(host: HostSystem, config: AppConfig, monitor: MonitorInfo)
    ensures
        tally(capture_args::video_input(host, config, monitor)) == (
            1int,
            0int,
            0int,
            if capture_args::dda_used(host, config) {
                0int
            } else {
                1int
            },
        ),
{
    let all = capture_args::video_input(host, config, monitor);
    lemma_short_options();
    lemma_tally_markers();
    if capture_args::dda_used(host, config) {
        reveal_strlit("lavfi");
        assert("lavfi"@.len() > 0 && "lavfi"@[0] == 'l');
        lemma_not_marker("lavfi"@);
        let source = "ddagrab=output_idx="@ + text::decimal(monitor.output_index as nat)
            + ":framerate="@ + text::decimal(config.frame_rate as nat) + ":draw_mouse="@
            + capture_args::switch_text(config.capture_cursor) + ":dup_frames=1"@;
        reveal_strlit("ddagrab=output_idx=");
        assert("ddagrab=output_idx="@.len() == 19);
        lemma_not_marker(source);
        let front = seq!["-f"@, "lavfi"@];
        lemma_tally_none(front);
        lemma_tally_one(source);
        lemma_tally_add(front, seq!["-i"@]);
        lemma_tally_add(front + seq!["-i"@], seq![source]);
        assert(all =~= front + seq!["-i"@] + seq![source]);
    } else {
        lemma_desktop_tally(config, monitor);
    }
}

/// The desktop's recorder is named once, before one input.
proof fn lemma_desktop_tally(config: AppConfig, monitor: MonitorInfo)
    ensures
        tally(
            seq![
                "-thread_queue_size"@,
                "1024"@,
                "-f"@,
                "gdigrab"@,
                "-framerate"@,
                text::decimal(config.frame_rate as nat),
                "-draw_mouse"@,
                capture_args::switch_text(config.capture_cursor),
                "-offset_x"@,
                text::signed_decimal(monitor.x as int),
                "-offset_y"@,
                text::signed_decimal(monitor.y as int),
                "-video_size"@,
                text::decimal(monitor.width as nat) + "x"@ + text::decimal(monitor.height as nat),
                "-i"@,
                "desktop"@,
            ],
        ) == (1int, 0int, 0int, 1int),
{
    lemma_short_options();
    lemma_tally_markers();
    reveal_strlit("-thread_queue_size");
    assert("-thread_queue_size"@.len() == 18);
    lemma_not_marker("-thread_queue_size"@);
    reveal_strlit("1024");
    assert("1024"@.len() > 0 && "1024"@[0] == '1');
    lemma_not_marker("1024"@);
    reveal_strlit("-framerate");
    assert("-framerate"@.len() == 10);
    lemma_not_marker("-framerate"@);
    reveal_strlit("-draw_mouse");
    assert("-draw_mouse"@.len() == 11);
    lemma_not_marker("-draw_mouse"@);
    reveal_strlit("0");
    assert("0"@.len() > 0 && "0"@[0] == '0');
    lemma_not_marker("0"@);
    reveal_strlit("1");
    assert("1"@.len() > 0 && "1"@[0] == '1');
    lemma_not_marker("1"@);
    reveal_strlit("-offset_x");
    assert("-offset_x"@.len() == 9);
    lemma_not_marker("-offset_x"@);
    reveal_strlit("-offset_y");
    assert("-offset_y"@.len() == 9);
    lemma_not_marker("-offset_y"@);
    reveal_strlit("-video_size");
    assert("-video_size"@.len() == 11);
    lemma_not_marker("-video_size"@);
    reveal_strlit("desktop");
    assert("desktop"@.len() > 0 && "desktop"@[0] == 'd');
    lemma_not_marker("desktop"@);
    let size = text::decimal(monitor.width as nat) + "x"@ + text::decimal(monitor.height as nat);
    lemma_number_is_no_marker(config.frame_rate as nat, Seq::empty());
    lemma_number_is_no_marker(
        monitor.width as nat,
        "x"@ + text::decimal(monitor.height as nat),
    );
    assert(size =~= text::decimal(monitor.width as nat) + ("x"@ + text::decimal(
        monitor.height as nat,
    )));
    lemma_signed_is_no_marker(monitor.x as int);
    lemma_signed_is_no_marker(monitor.y as int);
    let front = seq!["-thread_queue_size"@, "1024"@, "-f"@];
    let middle = seq![
        "-framerate"@,
        text::decimal(config.frame_rate as nat),
        "-draw_mouse"@,
        capture_args::switch_text(config.capture_cursor),
        "-offset_x"@,
        text::signed_decimal(monitor.x as int),
        "-offset_y"@,
        text::signed_decimal(monitor.y as int),
        "-video_size"@,
        size,
    ];
    lemma_tally_none(front);
    lemma_tally_none(middle);
    lemma_tally_one("desktop"@);
    lemma_tally_add(front, seq!["gdigrab"@]);
    lemma_tally_add(front + seq!["gdigrab"@], middle);
    lemma_tally_add(front + seq!["gdigrab"@] + middle, seq!["-i"@]);
    lemma_tally_add(front + seq!["gdigrab"@] + middle + seq!["-i"@], seq!["desktop"@]);
    assert(seq![
        "-thread_queue_size"@,
        "1024"@,
        "-f"@,
        "gdigrab"@,
        "-framerate"@,
        text::decimal(config.frame_rate as nat),
        "-draw_mouse"@,
        capture_args::switch_text(config.capture_cursor),
        "-offset_x"@,
        text::signed_decimal(monitor.x as int),
        "-offset_y"@,
        text::signed_decimal(monitor.y as int),
        "-video_size"@,
        size,
        "-i"@,
        "desktop"@,
    ] =~= front + seq!["gdigrab"@] + middle + seq!["-i"@] + seq!["desktop"@]);
}

/// A source of sound is one input.
proof fn lemma_audio_input_tally(
    source: (Seq<char>, u32, AudioSourceKind),
    port: Option<u16>,
)
    ensures
        tally(capture_args::audio_input(source, port)) == (1int, 0int, 0int, 0int),
{
    let all = capture_args::audio_input(source, port);
    lemma_short_options();
    lemma_tally_markers();
    reveal_strlit("-thread_queue_size");
    assert("-thread_queue_size"@.len() == 18);
    lemma_not_marker("-thread_queue_size"@);
    reveal_strlit("1024");
    assert("1024"@.len() > 0 && "1024"@[0] == '1');
    lemma_not_marker("1024"@);
    reveal_strlit("f32le");
    assert("f32le"@.len() > 0 && "f32le"@[0] == 'f');
    lemma_not_marker("f32le"@);
    reveal_strlit("48000");
    assert("48000"@.len() > 0 && "48000"@[0] == '4');
    lemma_not_marker("48000"@);
    reveal_strlit("2");
    assert("2"@.len() > 0 && "2"@[0] == '2');
    lemma_not_marker("2"@);
    reveal_strlit("-use_wallclock_as_timestamps");
    assert("-use_wallclock_as_timestamps"@.len() == 28);
    lemma_not_marker("-use_wallclock_as_timestamps"@);
    reveal_strlit("1");
    assert("1"@.len() > 0 && "1"@[0] == '1');
    lemma_not_marker("1"@);
    reveal_strlit("dshow");
    assert("dshow"@.len() > 0 && "dshow"@[0] == 'd');
    lemma_not_marker("dshow"@);
    reveal_strlit("-audio_buffer_size");
    assert("-audio_buffer_size"@.len() == 18);
    lemma_not_marker("-audio_buffer_size"@);
    reveal_strlit("50");
    assert("50"@.len() > 0 && "50"@[0] == '5');
    lemma_not_marker("50"@);
    reveal_strlit("tcp://127.0.0.1:");
    reveal_strlit("audio=");
    assert("tcp://127.0.0.1:"@.len() == 16 && "audio="@[0] == 'a');
    let front = all.take(8);
    let name = all[9];
    assert(all.len() == 10 && all[8] == "-i"@);
    assert(name.len() > 7 || name[0] == 'a');
    lemma_not_marker(name);
    lemma_tally_none(front);
    lemma_tally_one(name);
    lemma_tally_add(front, seq!["-i"@]);
    lemma_tally_add(front + seq!["-i"@], seq![name]);
    assert(all =~= front + seq!["-i"@] + seq![name]);
}

/// Each source of sound is one input.
proof fn lemma_audio_inputs_tally(
    sources: Seq<(Seq<char>, u32, AudioSourceKind)>,
    port: Option<u16>,
)
    ensures
        tally(capture_args::audio_inputs(sources, port)) == (
            sources.len() as int,
            0int,
            0int,
            0int,
        ),
    decreases sources.len(),
{
    if sources.len() > 0 {
        let rest = sources.drop_last();
        lemma_audio_inputs_tally(rest, port);
        lemma_audio_input_tally(sources.last(), port);
        lemma_tally_add(
            capture_args::audio_inputs(rest, port),
            capture_args::audio_input(sources.last(), port),
        );
    } else {
        lemma_tally_none(capture_args::audio_inputs(sources, port));
    }
}

/// The picture is filtered at most once.
proof fn lemma_transform_tally(host: HostSystem, config: AppConfig, monitor: MonitorInfo)
    ensures
        tally(capture_args::video_transform(host, config, monitor)) == (
            0int,
            0int,
            if capture_args::dda_used(host, config) && capture_args::same_size(config, monitor) {
                0int
            } else {
                1int
            },
            0int,
        ),
{
    let all = capture_args::video_transform(host, config, monitor);
    lemma_tally_markers();
    if capture_args::dda_used(host, config) && capture_args::same_size(config, monitor) {
        lemma_tally_none(all);
    } else {
        let filter = all[1];
        reveal_strlit("scale=");
        reveal_strlit("hwdownload,format=bgra,");
        assert("scale="@[0] == 's' && "scale="@.len() == 6);
        assert("hwdownload,format=bgra,"@[0] == 'h' && "hwdownload,format=bgra,"@.len() == 23);
        assert(filter.len() > 0 && (filter[0] == 's' || filter[0] == 'h'));
        lemma_not_marker(filter);
        lemma_tally_one(filter);
        lemma_tally_add(seq!["-vf"@], seq![filter]);
        assert(all =~= seq!["-vf"@] + seq![filter]);
    }
}

/// How the frames are encoded holds none of the four.
proof fn lemma_encoding_tally(host: HostSystem, config: AppConfig)
    ensures
        tally(capture_args::video_encoding(host, config)) == (0int, 0int, 0int, 0int),
{
    lemma_short_options();
    reveal_strlit("libx264");
    assert("libx264"@.len() > 0 && "libx264"@[0] == 'l');
    lemma_not_marker("libx264"@);
    reveal_strlit("libx265");
    assert("libx265"@.len() > 0 && "libx265"@[0] == 'l');
    lemma_not_marker("libx265"@);
    reveal_strlit("h264_nvenc");
    assert("h264_nvenc"@.len() == 10);
    lemma_not_marker("h264_nvenc"@);
    reveal_strlit("hevc_nvenc");
    assert("hevc_nvenc"@.len() == 10);
    lemma_not_marker("hevc_nvenc"@);
    reveal_strlit("h264_amf");
    assert("h264_amf"@.len() == 8);
    lemma_not_marker("h264_amf"@);
    reveal_strlit("hevc_amf");
    assert("hevc_amf"@.len() == 8);
    lemma_not_marker("hevc_amf"@);
    reveal_strlit("h264_qsv");
    assert("h264_qsv"@.len() == 8);
    lemma_not_marker("h264_qsv"@);
    reveal_strlit("hevc_qsv");
    assert("hevc_qsv"@.len() == 8);
    lemma_not_marker("hevc_qsv"@);
    reveal_strlit("-pix_fmt");
    assert("-pix_fmt"@.len() == 8);
    lemma_not_marker("-pix_fmt"@);
    reveal_strlit("yuv420p");
    assert("yuv420p"@.len() > 0 && "yuv420p"@[0] == 'y');
    lemma_not_marker("yuv420p"@);
    reveal_strlit("p2");
    assert("p2"@.len() > 0 && "p2"@[0] == 'p');
    lemma_not_marker("p2"@);
    reveal_strlit("ll");
    assert("ll"@.len() > 0 && "ll"@[0] == 'l');
    lemma_not_marker("ll"@);
    reveal_strlit("cbr");
    assert("cbr"@.len() > 0 && "cbr"@[0] == 'c');
    lemma_not_marker("cbr"@);
    reveal_strlit("-multipass");
    assert("-multipass"@.len() == 10);
    lemma_not_marker("-multipass"@);
    reveal_strlit("disabled");
    assert("disabled"@.len() == 8);
    lemma_not_marker("disabled"@);
    reveal_strlit("-rc-lookahead");
    assert("-rc-lookahead"@.len() == 13);
    lemma_not_marker("-rc-lookahead"@);
    reveal_strlit("0");
    assert("0"@.len() > 0 && "0"@[0] == '0');
    lemma_not_marker("0"@);
    reveal_strlit("-spatial-aq");
    assert("-spatial-aq"@.len() == 11);
    lemma_not_marker("-spatial-aq"@);
    reveal_strlit("-temporal-aq");
    assert("-temporal-aq"@.len() == 12);
    lemma_not_marker("-temporal-aq"@);
    reveal_strlit("-forced-idr");
    assert("-forced-idr"@.len() == 11);
    lemma_not_marker("-forced-idr"@);
    reveal_strlit("1");
    assert("1"@.len() > 0 && "1"@[0] == '1');
    lemma_not_marker("1"@);
    reveal_strlit("-quality");
    assert("-quality"@.len() == 8);
    lemma_not_marker("-quality"@);
    reveal_strlit("speed");
    assert("speed"@.len() > 0 && "speed"@[0] == 's');
    lemma_not_marker("speed"@);
    reveal_strlit("veryfast");
    assert("veryfast"@.len() == 8);
    lemma_not_marker("veryfast"@);
    let name = capture_args::encoder_name(config.encoder, config.video_codec);
    assert(!is_marker(name));
    let format = if capture_args::dda_used(host, config) {
        Seq::empty()
    } else {
        seq!["-pix_fmt"@, "yuv420p"@]
    };
    let all = capture_args::video_encoding(host, config);
    let front = seq!["-c:v"@, name] + format;
    let back = all.skip(front.len() as int);
    assert(all =~= front + back);
    lemma_tally_none(front);
    lemma_tally_none(back);
    lemma_tally_add(front, back);
}

/// The filter graph of at least one source is none of the four.
proof fn lemma_graph_is_no_marker(
    config: AppConfig,
    sources: Seq<(Seq<char>, u32, AudioSourceKind)>,
    split: bool,
)
    requires
        sources.len() > 0,
    ensures
        !is_marker(capture_args::filter_graph(config, sources, split)),
{
    let chains = capture_args::source_chains(config, sources, split);
    let first = capture_args::source_chain(config, sources[0], 0, split);
    assert(chains[0] == first);
    reveal_strlit("[");
    assert("["@[0] == '[' && "["@.len() == 1);
    assert(first[0] == '[');
    let parts = if sources.len() > 1 {
        chains.push(
            capture_args::mix_inputs(sources.len(), split) + "amix=inputs="@ + text::decimal(
                sources.len(),
            ) + ":duration=longest:dropout_transition=0:normalize=0[audio_mix]"@,
        )
    } else {
        chains
    };
    assert(parts[0] == first);
    lemma_join_begins(parts, ";"@);
    lemma_not_marker(capture_args::filter_graph(config, sources, split));
}

/// A source's own track holds none of the four.
proof fn lemma_track_tally(kind: AudioSourceKind, index: nat)
    ensures
        tally(capture_args::track_args(kind, index)) == (0int, 0int, 0int, 0int),
{
    lemma_short_options();
    reveal_strlit("title=Desktop Audio");
    assert("title=Desktop Audio"@.len() == 19);
    lemma_not_marker("title=Desktop Audio"@);
    reveal_strlit("title=Microphone");
    assert("title=Microphone"@.len() == 16);
    lemma_not_marker("title=Microphone"@);
    reveal_strlit("0");
    assert("0"@.len() > 0 && "0"@[0] == '0');
    lemma_not_marker("0"@);
    let label = "[audio"@ + text::decimal(index) + "]"@;
    reveal_strlit("[audio");
    assert("[audio"@[0] == '[' && label[0] == '[');
    lemma_not_marker(label);
    reveal_strlit("-metadata:s:a:");
    assert("-metadata:s:a:"@.len() == 14);
    lemma_not_marker("-metadata:s:a:"@ + text::decimal(index + 1));
    reveal_strlit("-disposition:a:");
    assert("-disposition:a:"@.len() == 15);
    lemma_not_marker("-disposition:a:"@ + text::decimal(index + 1));
    lemma_tally_none(capture_args::track_args(kind, index));
}

/// The sources' own tracks hold none of the four.
proof fn lemma_tracks_tally(sources: Seq<(Seq<char>, u32, AudioSourceKind)>)
    ensures
        tally(capture_args::tracks_args(sources)) == (0int, 0int, 0int, 0int),
    decreases sources.len(),
{
    if sources.len() > 0 {
        let last = (sources.len() - 1) as nat;
        lemma_tracks_tally(sources.drop_last());
        lemma_track_tally(sources.last().2, last);
        lemma_tally_add(
            capture_args::tracks_args(sources.drop_last()),
            capture_args::track_args(sources.last().2, last),
        );
    } else {
        lemma_tally_none(capture_args::tracks_args(sources));
    }
}

/// A recording is without sound where there is no source of it, and only there.
proof fn lemma_audio_output_tally(
    config: AppConfig,
    sources: Seq<(Seq<char>, u32, AudioSourceKind)>,
)
    ensures
        tally(capture_args::audio_output(config, sources)) == (
            0int,
            if sources.len() == 0 {
                1int
            } else {
                0int
            },
            0int,
            0int,
        ),
{
    lemma_tally_markers();
    if sources.len() > 0 {
        let split = config.separate_audio_tracks && sources.len() > 1;
        let all = capture_args::audio_output(config, sources);
        lemma_short_options();
        lemma_graph_is_no_marker(config, sources, split);
        reveal_strlit("-filter_complex");
        assert("-filter_complex"@.len() == 15);
        lemma_not_marker("-filter_complex"@);
        reveal_strlit("0:v:0");
        assert("0:v:0"@.len() > 0 && "0:v:0"@[0] == '0');
        lemma_not_marker("0:v:0"@);
        reveal_strlit("[audio_mix]");
        assert("[audio_mix]"@.len() == 11);
        lemma_not_marker("[audio_mix]"@);
        reveal_strlit("[audio0]");
        assert("[audio0]"@.len() == 8);
        lemma_not_marker("[audio0]"@);
        reveal_strlit("-metadata:s:a:0");
        assert("-metadata:s:a:0"@.len() == 15);
        lemma_not_marker("-metadata:s:a:0"@);
        reveal_strlit("title=Game + Microphone Mix");
        assert("title=Game + Microphone Mix"@.len() == 27);
        lemma_not_marker("title=Game + Microphone Mix"@);
        reveal_strlit("-disposition:a:0");
        assert("-disposition:a:0"@.len() == 16);
        lemma_not_marker("-disposition:a:0"@);
        reveal_strlit("default");
        assert("default"@.len() > 0 && "default"@[0] == 'd');
        lemma_not_marker("default"@);
        reveal_strlit("aac");
        assert("aac"@.len() > 0 && "aac"@[0] == 'a');
        lemma_not_marker("aac"@);
        reveal_strlit("192k");
        assert("192k"@.len() > 0 && "192k"@[0] == '1');
        lemma_not_marker("192k"@);
        reveal_strlit("48000");
        assert("48000"@.len() > 0 && "48000"@[0] == '4');
        lemma_not_marker("48000"@);
        let front = seq![
            "-filter_complex"@,
            capture_args::filter_graph(config, sources, split),
            "-map"@,
            "0:v:0"@,
        ];
        let back = seq!["-c:a"@, "aac"@, "-b:a"@, "192k"@, "-ar"@, "48000"@];
        lemma_tally_none(front);
        lemma_tally_none(back);
        if split {
            let mix = seq![
                "-map"@,
                "[audio_mix]"@,
                "-metadata:s:a:0"@,
                "title=Game + Microphone Mix"@,
                "-disposition:a:0"@,
                "default"@,
            ];
            let tracks = capture_args::tracks_args(sources);
            lemma_tally_none(mix);
            lemma_tracks_tally(sources);
            lemma_tally_add(mix, tracks);
            lemma_tally_add(front, mix + tracks);
            lemma_tally_add(front + (mix + tracks), back);
            assert(all =~= front + (mix + tracks) + back);
        } else {
            let track = seq![
                "-map"@,
                if sources.len() == 1 {
                    "[audio0]"@
                } else {
                    "[audio_mix]"@
                },
            ];
            lemma_tally_none(track);
            lemma_tally_add(front, track);
            lemma_tally_add(front + track, back);
            assert(all =~= front + track + back);
        }
    }
}

/// How the recording is cut into segments holds none of the four, but for the name of
/// the segments, which stands last.
proof fn lemma_segments_tally(config: AppConfig, output: Seq<char>)
    ensures
        capture_args::segment_args(config, output).len() > 0,
        capture_args::segment_args(config, output).last() == output,
        tally(capture_args::segment_args(config, output).drop_last()) == (0int, 0int, 0int, 0int),
{
    lemma_short_options();
    reveal_strlit("-maxrate");
    assert("-maxrate"@.len() == 8);
    lemma_not_marker("-maxrate"@);
    reveal_strlit("-bufsize");
    assert("-bufsize"@.len() == 8);
    lemma_not_marker("-bufsize"@);
    reveal_strlit("-fps_mode");
    assert("-fps_mode"@.len() == 9);
    lemma_not_marker("-fps_mode"@);
    reveal_strlit("cfr");
    assert("cfr"@.len() > 0 && "cfr"@[0] == 'c');
    lemma_not_marker("cfr"@);
    reveal_strlit("-force_key_frames");
    assert("-force_key_frames"@.len() == 17);
    lemma_not_marker("-force_key_frames"@);
    reveal_strlit("segment");
    assert("segment"@.len() > 0 && "segment"@[0] == 's');
    lemma_not_marker("segment"@);
    reveal_strlit("-segment_time");
    assert("-segment_time"@.len() == 13);
    lemma_not_marker("-segment_time"@);
    reveal_strlit("-segment_wrap");
    assert("-segment_wrap"@.len() == 13);
    lemma_not_marker("-segment_wrap"@);
    reveal_strlit("-reset_timestamps");
    assert("-reset_timestamps"@.len() == 17);
    lemma_not_marker("-reset_timestamps"@);
    reveal_strlit("1");
    assert("1"@.len() > 0 && "1"@[0] == '1');
    lemma_not_marker("1"@);
    let length = text::decimal(config.segment_seconds as nat);
    lemma_number_is_no_marker(config.video_bitrate_mbps as nat, "M"@);
    lemma_number_is_no_marker(capture_args::saturated(config.video_bitrate_mbps * 2), "M"@);
    lemma_number_is_no_marker(
        capture_args::saturated(config.frame_rate * config.segment_seconds),
        Seq::empty(),
    );
    lemma_number_is_no_marker(config.segment_seconds as nat, Seq::empty());
    lemma_number_is_no_marker(capture_args::segment_wrap(config) as nat, Seq::empty());
    reveal_strlit("expr:gte(t,n_forced*");
    assert("expr:gte(t,n_forced*"@.len() == 20);
    lemma_not_marker("expr:gte(t,n_forced*"@ + length + ")"@);
    lemma_tally_none(capture_args::segment_args(config, output).drop_last());
}

/// A recording names where its segments go last. Before that it opens the display and each
/// source of sound as one input, records without sound where there is no source and only
/// there, filters the picture once unless Desktop Duplication already gives its size, and
/// names the desktop's own recorder once where Desktop Duplication is not used.
pub proof fn recordings_open_each_source_once(
    host: HostSystem,
    config: AppConfig,
    monitor: MonitorInfo,
    output: Seq<char>,
    port: Option<u16>,
)
    ensures
        ({
            let args = capture_args::recording_args(host, config, monitor, output, port);
            let sources = capture_args::desktop_source(config) + capture_args::microphone_source(
                config,
            );
            let options = args.drop_last();
            &&& args.len() > 0
            &&& args.last() == output
            &&& occurrences(options, "-i"@) == 1 + sources.len()
            &&& occurrences(options, "-an"@) == if sources.len() == 0 {
                1int
            } else {
                0int
            }
            &&& occurrences(options, "-vf"@) == if capture_args::dda_used(host, config)
                && capture_args::same_size(config, monitor) {
                0int
            } else {
                1int
            }
            &&& occurrences(options, "gdigrab"@) == if capture_args::dda_used(host, config) {
                0int
            } else {
                1int
            }
        }),
{
    let args = capture_args::recording_args(host, config, monitor, output, port);
    let sources = capture_args::desktop_source(config) + capture_args::microphone_source(config);
    let head = capture_args::recording_head();
    let input = capture_args::video_input(host, config, monitor);
    let inputs = capture_args::audio_inputs(sources, port);
    let transform = capture_args::video_transform(host, config, monitor);
    let encoding = capture_args::video_encoding(host, config);
    let sound = capture_args::audio_output(config, sources);
    let segments = capture_args::segment_args(config, output);
    lemma_head_tally();
    lemma_video_input_tally(host, config, monitor);
    lemma_audio_inputs_tally(sources, port);
    lemma_transform_tally(host, config, monitor);
    lemma_encoding_tally(host, config);
    lemma_audio_output_tally(config, sources);
    lemma_segments_tally(config, output);
    lemma_tally_add(head, input);
    lemma_tally_add(head + input, inputs);
    lemma_tally_add(head + input + inputs, transform);
    lemma_tally_add(head + input + inputs + transform, encoding);
    lemma_tally_add(head + input + inputs + transform + encoding, sound);
    let front = head + input + inputs + transform + encoding + sound;
    lemma_tally_add(front, segments.drop_last());
    assert(args =~= front + segments);
    assert(args.drop_last() =~= front + segments.drop_last());
}

} // verus!
