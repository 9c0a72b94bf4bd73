//! How the display and the sound are recorded.

use vstd::prelude::*;

use crate::capture_args;
use crate::capture_args::{AudioSource, AudioSourceKind};
use crate::config::AppConfig;
use crate::laws::reading;
use crate::text;

verus! {

/// The texts one after the other.
pub open spec fn side_by_side(parts: Seq<Seq<char>>) -> Seq<char>
    decreases parts.len(),
{
    if parts.len() == 0 {
        Seq::empty()
    } else {
        side_by_side(parts.drop_last()) + parts.last()
    }
}

/// The texts one after the other, each followed by `end`.
pub open spec fn each_with(parts: Seq<Seq<char>>, end: Seq<char>) -> Seq<char>
    decreases parts.len(),
{
    if parts.len() == 0 {
        Seq::empty()
    } else {
        each_with(parts.drop_last(), end) + parts.last() + end
    }
}

/// Joined texts are all but the last with the separator behind them, and the last.
proof fn lemma_join_is_each_with(parts: Seq<Seq<char>>, last: Seq<char>, sep: Seq<char>)
    ensures
        text::join(parts.push(last), sep) == each_with(parts, sep) + last,
    decreases parts.len(),
{
    let all = parts.push(last);
    assert(all.drop_last() =~= parts);
    if parts.len() > 0 {
        let front = parts.drop_last();
        lemma_join_is_each_with(front, parts.last(), sep);
        assert(front.push(parts.last()) =~= parts);
        assert(text::join(all, sep) =~= each_with(parts, sep) + last);
    } else {
        assert(all[0] == last);
        assert(text::join(all, sep) =~= each_with(parts, sep) + last);
    }
}

/// One more text is joined behind the separator.
proof fn lemma_join_more(parts: Seq<Seq<char>>, last: Seq<char>, sep: Seq<char>)
    requires
        parts.len() > 0,
    ensures
        text::join(parts.push(last), sep) == text::join(parts, sep) + sep + last,
{
    assert(parts.push(last).drop_last() =~= parts);
}

/// The name of the sound of source `k`: that of its own track, or that of its copy for the
/// mix.
pub open spec fn is_label(label: Seq<char>, k: int, copy: bool) -> bool {
    exists|d: Seq<char>| #[trigger]
        reading::writes(d, k) && label == "[audio"@ + d + (if copy {
            "_mix]"@
        } else {
            "]"@
        })
}

/// The filters bring the sound into step, clean it and make it mono where that is asked for
/// a microphone, and set its volume: hundredths of what comes in, at most doubled.
pub open spec fn is_filtering(
    filters: Seq<char>,
    config: AppConfig,
    source: AudioSource,
    whole: Seq<char>,
    hundredths: Seq<char>,
) -> bool {
    let percent = if source.volume_percent < 200 {
        source.volume_percent as int
    } else {
        200
    };
    let voice = source.kind == AudioSourceKind::Microphone;
    &&& hundredths.len() == 2 && reading::all_digits(hundredths)
    &&& reading::all_digits(whole) && whole.len() == 1
    &&& reading::number(whole + hundredths) == percent
    &&& filters == "aresample=48000:async=1:first_pts=0"@ + (if voice
        && config.microphone_noise_suppression {
        ",afftdn=nf=-25"@
    } else {
        Seq::empty()
    }) + (if voice && config.microphone_mono {
        ",pan=stereo|c0=c0|c1=c0"@
    } else {
        Seq::empty()
    }) + ",volume="@ + whole + "."@ + hundredths
}

/// `chain` reads the sound of input `k + 1`, which is the source's, filters it, and ends with
/// `label`, or with `label` and the name of the source's own track where both are wanted.
pub open spec fn chain_is(
    chain: Seq<char>,
    k: int,
    split: bool,
    label: Seq<char>,
    input: Seq<char>,
    filters: Seq<char>,
    own: Seq<char>,
) -> bool {
    &&& reading::writes(input, k + 1)
    &&& is_label(own, k, false)
    &&& chain == "["@ + input + ":a]"@ + filters + (if split {
        ",asplit=2"@ + label + own
    } else {
        label
    })
}

/// `chain` is the part of the filter graph for source `k`.
pub open spec fn carries(
    chain: Seq<char>,
    config: AppConfig,
    source: AudioSource,
    k: int,
    split: bool,
    label: Seq<char>,
) -> bool {
    exists|input: Seq<char>, filters: Seq<char>, own: Seq<char>, whole: Seq<char>, hundredths: Seq<char>|
        #![trigger chain_is(chain, k, split, label, input, filters, own), is_filtering(filters, config, source, whole, hundredths)]
        chain_is(chain, k, split, label, input, filters, own) && is_filtering(
            filters,
            config,
            source,
            whole,
            hundredths,
        )
}

/// The filters of a source are what is asked for it.
proof fn lemma_filters(config: AppConfig, source: AudioSource) -> (parts: (Seq<char>, Seq<char>))
    ensures
        is_filtering(
            text::join(capture_args::source_filters(config, source@), ","@),
            config,
            source,
            parts.0,
            parts.1,
        ),
{
    let p = if source.volume_percent > 200 {
        200nat
    } else {
        source.volume_percent as nat
    };
    let whole = text::decimal(p / 100);
    let hundredths = text::padded(p % 100, 2);
    reading::lemma_decimal_writes(p / 100);
    reveal_with_fuel(reading::ten_to, 3);
    reading::lemma_padded_writes(p % 100, 2);
    assert(whole.len() == 1);
    reveal_with_fuel(reading::number, 4);
    let all = whole + hundredths;
    assert(all.drop_last() =~= whole + hundredths.drop_last());
    assert(all.drop_last().drop_last() =~= whole);
    assert(hundredths.drop_last().last() == hundredths[0]);
    assert(hundredths.drop_last().drop_last() =~= Seq::empty());
    assert(reading::number(all) == p);
    let voice = source.kind == AudioSourceKind::Microphone;
    let a = seq!["aresample=48000:async=1:first_pts=0"@];
    let b = if voice && config.microphone_noise_suppression {
        a.push("afftdn=nf=-25"@)
    } else {
        a
    };
    let c = if voice && config.microphone_mono {
        b.push("pan=stereo|c0=c0|c1=c0"@)
    } else {
        b
    };
    let volume = "volume="@ + whole + "."@ + hundredths;
    assert(capture_args::source_filters(config, source@) =~= c.push(volume));
    lemma_join_more(c, volume, ","@);
    lemma_join_more(b, "pan=stereo|c0=c0|c1=c0"@, ","@);
    lemma_join_more(a, "afftdn=nf=-25"@, ","@);
    reveal_strlit(",");
    reveal_strlit("volume=");
    reveal_strlit(",volume=");
    reveal_strlit("afftdn=nf=-25");
    reveal_strlit(",afftdn=nf=-25");
    reveal_strlit("pan=stereo|c0=c0|c1=c0");
    reveal_strlit(",pan=stereo|c0=c0|c1=c0");
    assert(","@ + "afftdn=nf=-25"@ =~= ",afftdn=nf=-25"@);
    assert(","@ + "pan=stereo|c0=c0|c1=c0"@ =~= ",pan=stereo|c0=c0|c1=c0"@);
    assert(","@ + volume =~= ",volume="@ + whole + "."@ + hundredths);
    assert(a[0] == "aresample=48000:async=1:first_pts=0"@);
    let first = "aresample=48000:async=1:first_pts=0"@;
    let noise = if voice && config.microphone_noise_suppression {
        ",afftdn=nf=-25"@
    } else {
        Seq::empty()
    };
    let mono = if voice && config.microphone_mono {
        ",pan=stereo|c0=c0|c1=c0"@
    } else {
        Seq::empty()
    };
    assert(text::join(a, ","@) == first);
    assert(text::join(b, ","@) =~= first + noise);
    assert(text::join(c, ","@) =~= first + noise + mono);
    assert(text::join(c.push(volume), ","@) =~= first + noise + mono + (","@ + volume));
    assert(first + noise + mono + (",volume="@ + whole + "."@ + hundredths) =~= first + noise + mono
        + ",volume="@ + whole + "."@ + hundredths);
    (whole, hundredths)
}

/// The part of the graph for a source carries its sound.
proof fn lemma_chain(config: AppConfig, source: AudioSource, k: nat, split: bool)
    ensures
        carries(
            capture_args::source_chain(config, source@, k, split),
            config,
            source,
            k as int,
            split,
            mixed_label(k, split),
        ),
        is_label(mixed_label(k, split), k as int, split),
{
    let d = text::decimal(k);
    let input = text::decimal(k + 1);
    reading::lemma_decimal_writes(k);
    reading::lemma_decimal_writes(k + 1);
    let (whole, hundredths) = lemma_filters(config, source);
    let filters = text::join(capture_args::source_filters(config, source@), ","@);
    let own = "[audio"@ + d + "]"@;
    let label = mixed_label(k, split);
    let chain = capture_args::source_chain(config, source@, k, split);
    reveal_strlit(",asplit=2[audio");
    reveal_strlit(",asplit=2");
    reveal_strlit("[audio");
    reveal_strlit("_mix][audio");
    reveal_strlit("_mix]");
    if split {
        assert(",asplit=2[audio"@ =~= ",asplit=2"@ + "[audio"@);
        assert("_mix][audio"@ =~= "_mix]"@ + "[audio"@);
        assert(",asplit=2[audio"@ + d + "_mix][audio"@ + d + "]"@ =~= ",asplit=2"@ + label + own);
    }
    assert(chain_is(chain, k as int, split, label, input, filters, own));
}

/// What the sound of source `k` is called where it is mixed.
spec fn mixed_label(k: nat, split: bool) -> Seq<char> {
    "[audio"@ + text::decimal(k) + (if split {
        "_mix]"@
    } else {
        "]"@
    })
}

/// The names that the mix reads are those of the sources, in order.
proof fn lemma_mix_inputs(n: nat, split: bool)
    ensures
        capture_args::mix_inputs(n, split) == side_by_side(
            Seq::new(n, |k: int| mixed_label(k as nat, split)),
        ),
    decreases n,
{
    let labels = Seq::new(n, |k: int| mixed_label(k as nat, split));
    if n > 0 {
        let m = (n - 1) as nat;
        lemma_mix_inputs(m, split);
        assert(labels.drop_last() =~= Seq::new(m, |k: int| mixed_label(k as nat, split)));
        assert(capture_args::mix_inputs(n, split) =~= side_by_side(labels.drop_last())
            + labels.last());
    }
}

/// `graph` is made of one chain for each source, and of a mix that reads exactly the names
/// that the chains end with, in the order of the sources and each once.
pub open spec fn is_mix(
    graph: Seq<char>,
    config: AppConfig,
    sources: Seq<AudioSource>,
    split: bool,
    chains: Seq<Seq<char>>,
    labels: Seq<Seq<char>>,
    count: Seq<char>,
) -> bool {
    &&& chains.len() == sources.len()
    &&& labels.len() == sources.len()
    &&& reading::writes(count, sources.len() as int)
    &&& forall|k: int|
        0 <= k < sources.len() ==> carries(
            #[trigger] chains[k],
            config,
            sources[k],
            k,
            split,
            labels[k],
        )
    &&& forall|k: int| 0 <= k < sources.len() ==> is_label(#[trigger] labels[k], k, split)
    &&& graph == each_with(chains, ";"@) + side_by_side(labels) + "amix=inputs="@ + count
        + ":duration=longest:dropout_transition=0:normalize=0[audio_mix]"@
}

/// Where several sources are recorded, the filter graph has a chain for each of them, which
/// reads the source's own input, and the mix reads the names that these chains end with: of
/// every source, in order, and each once. Kept apart or not, what comes out is `[audio_mix]`.
pub proof fn mixes_read_what_the_chains_end_with(
    args: &mut Vec<String>,
    config: AppConfig,
    sources: Vec<AudioSource>,
)
    requires
        call_ensures(capture_args::append_audio_output_args, (args, &config, &sources), ()),
        sources@.len() > 1,
    ensures
        ({
            let before = old(args)@.len() as int;
            let all = final(args).deep_view();
            &&& all.take(before) == old(args).deep_view()
            &&& all[before] == "-filter_complex"@
            &&& exists|chains: Seq<Seq<char>>, labels: Seq<Seq<char>>, count: Seq<char>| #[trigger]
                is_mix(
                    all[before + 1],
                    config,
                    sources@,
                    config.separate_audio_tracks,
                    chains,
                    labels,
                    count,
                )
            &&& all.subrange(before + 2, before + 6) == seq![
                "-map"@,
                "0:v:0"@,
                "-map"@,
                "[audio_mix]"@,
            ]
        }),
{
    let n = sources@.len();
    let split = config.separate_audio_tracks;
    let views = capture_args::sources_view(sources@);
    let chains = capture_args::source_chains(config, views, split);
    let labels = Seq::new(n, |k: int| mixed_label(k as nat, split));
    let count = text::decimal(n);
    let end = ":duration=longest:dropout_transition=0:normalize=0[audio_mix]"@;
    let mix = capture_args::mix_inputs(n, split) + "amix=inputs="@ + count + end;
    let graph = capture_args::filter_graph(config, views, split);
    reading::lemma_decimal_writes(n);
    lemma_mix_inputs(n, split);
    lemma_join_is_each_with(chains, mix, ";"@);
    assert forall|k: int| 0 <= k < n implies carries(
        #[trigger] chains[k],
        config,
        sources@[k],
        k,
        split,
        labels[k],
    ) by {
        lemma_chain(config, sources@[k], k as nat, split);
        assert(views[k] == sources@[k]@);
    }
    assert forall|k: int| 0 <= k < n implies is_label(#[trigger] labels[k], k, split) by {
        lemma_chain(config, sources@[k], k as nat, split);
    }
    assert(graph =~= each_with(chains, ";"@) + side_by_side(labels) + "amix=inputs="@ + count + end);
    assert(is_mix(graph, config, sources@, split, chains, labels, count));
    let before = old(args)@.len() as int;
    let all = final(args).deep_view();
    assert(old(args).deep_view().len() == before);
    assert(all.take(before) =~= old(args).deep_view());
    assert(all[before + 1] == graph);
    assert(all.subrange(before + 2, before + 6) =~= seq![
        "-map"@,
        "0:v:0"@,
        "-map"@,
        "[audio_mix]"@,
    ]);
}

/// One source is recorded as it comes out of its chain, without a mix; without a source
/// there is no sound.
pub proof fn one_source_is_recorded_as_it_is(
    args: &mut Vec<String>,
    config: AppConfig,
    sources: Vec<AudioSource>,
)
    requires
        call_ensures(capture_args::append_audio_output_args, (args, &config, &sources), ()),
        sources@.len() <= 1,
    ensures
        ({
            let before = old(args)@.len() as int;
            let all = final(args).deep_view();
            &&& all.take(before) == old(args).deep_view()
            &&& sources@.len() == 0 ==> all.skip(before) == seq!["-an"@]
            &&& sources@.len() == 1 ==> {
                &&& all[before] == "-filter_complex"@
                &&& exists|label: Seq<char>|
                    #![trigger is_label(label, 0, false)]
                    is_label(label, 0, false) && carries(
                        all[before + 1],
                        config,
                        sources@[0],
                        0,
                        false,
                        label,
                    )
                &&& all.skip(before + 2) == seq![
                    "-map"@,
                    "0:v:0"@,
                    "-map"@,
                    "[audio0]"@,
                    "-c:a"@,
                    "aac"@,
                    "-b:a"@,
                    "192k"@,
                    "-ar"@,
                    "48000"@,
                ]
            }
        }),
{
    let before = old(args)@.len() as int;
    let all = final(args).deep_view();
    assert(old(args).deep_view().len() == before);
    assert(all.take(before) =~= old(args).deep_view());
    if sources@.len() == 0 {
        assert(all.skip(before) =~= seq!["-an"@]);
    } else {
        let views = capture_args::sources_view(sources@);
        let chains = capture_args::source_chains(config, views, false);
        lemma_chain(config, sources@[0], 0, false);
        assert(text::join(chains, ";"@) == chains[0]);
        assert(all[before + 1] == chains[0]);
        assert(is_label(mixed_label(0, false), 0, false));
        assert(all.skip(before + 2) =~= seq![
            "-map"@,
            "0:v:0"@,
            "-map"@,
            "[audio0]"@,
            "-c:a"@,
            "aac"@,
            "-b:a"@,
            "192k"@,
            "-ar"@,
            "48000"@,
        ]);
    }
}

/// The six arguments for a source's own track: its sound, its title and that it is not
/// played unless chosen, on the track behind those of the mix and the sources before it.
pub open spec fn is_track(
    args: Seq<Seq<char>>,
    kind: AudioSourceKind,
    k: int,
    label: Seq<char>,
    number: Seq<char>,
) -> bool {
    &&& args.len() == 6
    &&& is_label(label, k, false)
    &&& reading::writes(number, k + 1)
    &&& args[0] == "-map"@
    &&& args[1] == label
    &&& args[2] == "-metadata:s:a:"@ + number
    &&& args[3] == "title="@ + (if kind == AudioSourceKind::Microphone {
        "Microphone"@
    } else {
        "Desktop Audio"@
    })
    &&& args[4] == "-disposition:a:"@ + number
    &&& args[5] == "0"@
}

/// The tracks of the sources stand in their order, six arguments each.
proof fn lemma_tracks(views: Seq<(Seq<char>, u32, AudioSourceKind)>, k: int)
    requires
        0 <= k < views.len(),
    ensures
        capture_args::tracks_args(views).len() == 6 * views.len(),
        capture_args::tracks_args(views).subrange(6 * k, 6 * k + 6) == capture_args::track_args(
            views[k].2,
            k as nat,
        ),
    decreases views.len(),
{
    let front = views.drop_last();
    let all = capture_args::tracks_args(views);
    if front.len() > 0 {
        lemma_tracks(front, if k < front.len() { k } else { 0 });
    } else {
        assert(capture_args::tracks_args(front) =~= Seq::empty());
    }
    if k < front.len() {
        assert(front[k] == views[k]);
        assert(all.subrange(6 * k, 6 * k + 6) =~= capture_args::tracks_args(front).subrange(
            6 * k,
            6 * k + 6,
        ));
    } else {
        assert(all.subrange(6 * k, 6 * k + 6) =~= capture_args::track_args(views[k].2, k as nat));
    }
}

/// Where tracks are kept apart, the mix is the one that players choose, and behind it each
/// source has a track of its own, in order, under the title of its kind.
pub proof fn each_source_has_its_track(
    args: &mut Vec<String>,
    config: AppConfig,
    sources: Vec<AudioSource>,
    k: int,
)
    requires
        call_ensures(capture_args::append_audio_output_args, (args, &config, &sources), ()),
        sources@.len() > 1,
        config.separate_audio_tracks,
        0 <= k < sources@.len(),
    ensures
        ({
            let before = old(args)@.len() as int;
            let all = final(args).deep_view();
            &&& all.len() == before + 10 + 6 * sources@.len() + 6
            &&& all.subrange(before + 6, before + 10) == seq![
                "-metadata:s:a:0"@,
                "title=Game + Microphone Mix"@,
                "-disposition:a:0"@,
                "default"@,
            ]
            &&& exists|label: Seq<char>, number: Seq<char>| #[trigger]
                is_track(
                    all.subrange(before + 10 + 6 * k, before + 16 + 6 * k),
                    sources@[k].kind,
                    k,
                    label,
                    number,
                )
            &&& all.skip(all.len() - 6) == seq![
                "-c:a"@,
                "aac"@,
                "-b:a"@,
                "192k"@,
                "-ar"@,
                "48000"@,
            ]
        }),
{
    let before = old(args)@.len() as int;
    let all = final(args).deep_view();
    assert(old(args).deep_view().len() == before);
    let views = capture_args::sources_view(sources@);
    lemma_tracks(views, k);
    let track = capture_args::track_args(views[k].2, k as nat);
    let tracks = capture_args::tracks_args(views);
    assert(all.subrange(before + 10 + 6 * k, before + 16 + 6 * k) =~= tracks.subrange(
        6 * k,
        6 * k + 6,
    ));
    assert(views[k].2 == sources@[k].kind);
    reading::lemma_decimal_writes(k as nat);
    reading::lemma_decimal_writes(k as nat + 1);
    let label = "[audio"@ + text::decimal(k as nat) + "]"@;
    assert(is_label(label, k, false));
    reveal_strlit("title=");
    reveal_strlit("title=Desktop Audio");
    reveal_strlit("Desktop Audio");
    reveal_strlit("title=Microphone");
    reveal_strlit("Microphone");
    assert("title="@ + "Desktop Audio"@ =~= "title=Desktop Audio"@);
    assert("title="@ + "Microphone"@ =~= "title=Microphone"@);
    assert(is_track(track, sources@[k].kind, k, label, text::decimal(k as nat + 1)));
    assert(all.subrange(before + 6, before + 10) =~= seq![
        "-metadata:s:a:0"@,
        "title=Game + Microphone Mix"@,
        "-disposition:a:0"@,
        "default"@,
    ]);
    assert(all.skip(all.len() - 6) =~= seq![
        "-c:a"@,
        "aac"@,
        "-b:a"@,
        "192k"@,
        "-ar"@,
        "48000"@,
    ]);
}

} // verus!
