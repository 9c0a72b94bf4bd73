//! The arguments that make FFmpeg record, join and cut video.

use vstd::prelude::*;
use vstd::string::*;

use crate::config;
use crate::config::{AppConfig, EncoderBackend, VideoAspectRatio, VideoCodec};
use crate::display::MonitorInfo;
use crate::paths::HostSystem;
use crate::text;
use crate::windows_audio;
use crate::windows_audio::WASAPI_RENDER_PREFIX;

verus! {

/// The quotient of `a` and `b`, rounded to the nearest integer, halves up.
pub open spec fn nearest(a: int, b: int) -> int {
    (a + b / 2) / b
}

/// The largest size with the proportions of the source that fits into the frame, before
/// it is made even.
pub open spec fn fitted(
    source_width: int,
    source_height: int,
    max_width: int,
    max_height: int,
) -> (int, int) {
    if source_width * max_height > source_height * max_width {
        (max_width, nearest(max_width * source_height, source_width))
    } else {
        (nearest(max_height * source_width, source_height), max_height)
    }
}

/// The size that a source is scaled to inside a frame: its proportions kept, both sides
/// even and at least 2.
pub open spec fn fitted_even(
    source_width: int,
    source_height: int,
    max_width: int,
    max_height: int,
) -> (int, int) {
    let (width, height) = fitted(source_width, source_height, max_width, max_height);
    (config::even_at_least(width, 2), config::even_at_least(height, 2))
}

/// The source is not flat in a way that leaves its size undefined.
pub open spec fn has_shape(source_width: int, source_height: int, max_height: int) -> bool {
    source_height > 0 || source_width * max_height > 0
}

/// A side scaled down by a ratio of at most 1 is no longer than the frame's.
proof fn lemma_side_fits(side: int, part: int, whole: int, limit: int)
    requires
        0 < whole <= u32::MAX,
        0 <= side <= u32::MAX,
        0 <= part <= u32::MAX,
        0 <= limit <= u32::MAX,
        side * part <= whole * limit,
    ensures
        0 <= side * part + whole / 2 <= u64::MAX,
        0 <= nearest(side * part, whole) <= limit,
{
    assert(0 <= side * part <= 0xffff_ffff * 0xffff_ffff) by (nonlinear_arith)
        requires
            0 <= side <= u32::MAX,
            0 <= part <= u32::MAX,
    ;
    assert(nearest(side * part, whole) <= limit) by (nonlinear_arith)
        requires
            0 < whole,
            side * part <= whole * limit,
            nearest(side * part, whole) == (side * part + whole / 2) / whole,
    ;
    assert(nearest(side * part, whole) >= 0) by (nonlinear_arith)
        requires
            0 < whole,
            0 <= side * part,
            nearest(side * part, whole) == (side * part + whole / 2) / whole,
    ;
}

/// The size that a source is scaled to inside a frame.
pub fn fit_inside(source_width: u32, source_height: u32, max_width: u32, max_height: u32) -> (r: (
    u32,
    u32,
))
    requires
        has_shape(source_width as int, source_height as int, max_height as int),
    ensures
        r.0 == fitted_even(
            source_width as int,
            source_height as int,
            max_width as int,
            max_height as int,
        ).0,
        r.1 == fitted_even(
            source_width as int,
            source_height as int,
            max_width as int,
            max_height as int,
        ).1,
{
    let (sw, sh): (u64, u64) = (source_width as u64, source_height as u64);
    let (mw, mh): (u64, u64) = (max_width as u64, max_height as u64);
    assert(0 <= sw * mh <= u64::MAX && 0 <= sh * mw <= u64::MAX && 0 <= mw * sh <= u64::MAX && 0
        <= mh * sw <= u64::MAX && mw * sh == sh * mw && mh * sw == sw * mh) by (nonlinear_arith)
        requires
            0 <= sw <= u32::MAX,
            0 <= sh <= u32::MAX,
            0 <= mw <= u32::MAX,
            0 <= mh <= u32::MAX,
    ;
    let (width, height): (u32, u32) = if sw * mh > sh * mw {
        assert(sw > 0) by (nonlinear_arith)
            requires
                sw * mh > sh * mw,
                0 <= sh * mw,
                0 <= sw,
        ;
        proof {
            lemma_side_fits(mw as int, sh as int, sw as int, mh as int);
        }
        (max_width, ((mw * sh + sw / 2) / sw) as u32)
    } else {
        assert(sh > 0) by (nonlinear_arith)
            requires
                has_shape(sw as int, sh as int, mh as int),
                sw * mh <= sh * mw,
                0 <= sh,
        ;
        proof {
            lemma_side_fits(mh as int, sw as int, sh as int, mw as int);
        }
        (((mh * sw + sh / 2) / sh) as u32, max_height)
    };
    (config::even_size(width, 2), config::even_size(height, 2))
}

/// What is recorded of a display fits into the frame, has even sides, and fills the
/// frame in one direction (up to the one pixel that evenness may cost).
pub proof fn fitted_size_stays_inside(
    source_width: int,
    source_height: int,
    max_width: int,
    max_height: int,
)
    requires
        0 < source_width <= u32::MAX,
        0 < source_height <= u32::MAX,
        2 <= max_width <= u32::MAX,
        2 <= max_height <= u32::MAX,
    ensures
        ({
            let (width, height) = fitted_even(
                source_width,
                source_height,
                max_width,
                max_height,
            );
            &&& 2 <= width <= max_width
            &&& 2 <= height <= max_height
            &&& width % 2 == 0
            &&& height % 2 == 0
            &&& width >= max_width - 1 || height >= max_height - 1
        }),
{
    assert(max_width * source_height == source_height * max_width && max_height * source_width
        == source_width * max_height) by (nonlinear_arith);
    if source_width * max_height > source_height * max_width {
        lemma_side_fits(max_width, source_height, source_width, max_height);
    } else {
        lemma_side_fits(max_height, source_width, source_height, max_width);
    }
}

/// A display of the frame's own proportions fills the frame.
pub proof fn same_proportions_fill_the_frame(scale: int, max_width: int, max_height: int)
    requires
        0 < scale,
        2 <= max_width,
        2 <= max_height,
        max_width % 2 == 0,
        max_height % 2 == 0,
    ensures
        fitted_even(scale * max_width, scale * max_height, max_width, max_height) == (
            max_width,
            max_height,
        ),
{
    let sw = scale * max_width;
    let sh = scale * max_height;
    assert(sw * max_height == sh * max_width && max_height * sw == sh * max_width) by (nonlinear_arith)
        requires
            sw == scale * max_width,
            sh == scale * max_height,
    ;
    assert(sh > 0) by (nonlinear_arith)
        requires
            sh == scale * max_height,
            scale > 0,
            max_height >= 2,
    ;
    assert((sh * max_width + sh / 2) / sh == max_width) by (nonlinear_arith)
        requires
            sh > 0,
    ;
}

/// How the display is turned into the frame, where the frame is made in memory.
pub open spec fn video_filter_text(
    mode: VideoAspectRatio,
    monitor: MonitorInfo,
    width: int,
    height: int,
) -> Seq<char> {
    let size = text::decimal(width as nat) + ":"@ + text::decimal(height as nat);
    match mode {
        VideoAspectRatio::Stretch16By9 => "scale="@ + size + ",setsar=1"@,
        VideoAspectRatio::Fit16By9 => "scale="@ + size
            + ":force_original_aspect_ratio=decrease,pad="@ + size
            + ":(ow-iw)/2:(oh-ih)/2:black,setsar=1"@,
        VideoAspectRatio::Game => {
            let (w, h) = fitted_even(monitor.width as int, monitor.height as int, width, height);
            "scale="@ + (text::decimal(w as nat) + ":"@ + text::decimal(h as nat)) + ",setsar=1"@
        },
        VideoAspectRatio::Crop16By9 => "scale="@ + size
            + ":force_original_aspect_ratio=increase,crop="@ + size + ",setsar=1"@,
    }
}

/// `width:height`.
fn size_text(width: u32, height: u32) -> (r: String)
    ensures
        r@ == text::decimal(width as nat) + ":"@ + text::decimal(height as nat),
{
    let mut out = text::decimal_text(width as u64);
    out.append(":");
    text::push_decimal(&mut out, height as u64);
    out
}

/// How the display is turned into the frame, where the frame is made in memory.
pub fn video_filter(
    mode: VideoAspectRatio,
    monitor: &MonitorInfo,
    output_width: u32,
    output_height: u32,
) -> (r: String)
    requires
        mode == VideoAspectRatio::Game ==> has_shape(
            monitor.width as int,
            monitor.height as int,
            output_height as int,
        ),
    ensures
        r@ == video_filter_text(mode, *monitor, output_width as int, output_height as int),
{
    let size = size_text(output_width, output_height);
    let mut out = "scale=".to_owned();
    match mode {
        VideoAspectRatio::Stretch16By9 => {
            out.append(size.as_str());
        },
        VideoAspectRatio::Fit16By9 => {
            out.append(size.as_str());
            out.append(":force_original_aspect_ratio=decrease,pad=");
            out.append(size.as_str());
            out.append(":(ow-iw)/2:(oh-ih)/2:black,setsar=1");
            return out;
        },
        VideoAspectRatio::Game => {
            let (width, height) = fit_inside(
                monitor.width,
                monitor.height,
                output_width,
                output_height,
            );
            let fitted_size = size_text(width, height);
            out.append(fitted_size.as_str());
        },
        VideoAspectRatio::Crop16By9 => {
            out.append(size.as_str());
            out.append(":force_original_aspect_ratio=increase,crop=");
            out.append(size.as_str());
        },
    }
    out.append(",setsar=1");
    out
}

/// How the display is turned into the frame, where it comes from Desktop Duplication.
pub open spec fn dda_filter_text(
    mode: VideoAspectRatio,
    monitor: MonitorInfo,
    width: int,
    height: int,
) -> Seq<char> {
    let size = text::decimal(width as nat) + ":"@ + text::decimal(height as nat);
    let transform = match mode {
        VideoAspectRatio::Stretch16By9 => "scale="@ + size + ":flags=fast_bilinear,setsar=1"@,
        VideoAspectRatio::Fit16By9 => "scale="@ + size
            + ":force_original_aspect_ratio=decrease:flags=fast_bilinear,pad="@ + size
            + ":(ow-iw)/2:(oh-ih)/2:black,setsar=1"@,
        VideoAspectRatio::Game => {
            let (w, h) = fitted_even(monitor.width as int, monitor.height as int, width, height);
            "scale="@ + (text::decimal(w as nat) + ":"@ + text::decimal(h as nat))
                + ":flags=fast_bilinear,setsar=1"@
        },
        VideoAspectRatio::Crop16By9 => "scale="@ + size
            + ":force_original_aspect_ratio=increase:flags=fast_bilinear,crop="@ + size
            + ",setsar=1"@,
    };
    "hwdownload,format=bgra,"@ + transform + ",format=nv12"@
}

/// How the display is turned into the frame, where it comes from Desktop Duplication.
pub fn dda_software_filter(
    mode: VideoAspectRatio,
    monitor: &MonitorInfo,
    output_width: u32,
    output_height: u32,
) -> (r: String)
    requires
        mode == VideoAspectRatio::Game ==> has_shape(
            monitor.width as int,
            monitor.height as int,
            output_height as int,
        ),
    ensures
        r@ == dda_filter_text(mode, *monitor, output_width as int, output_height as int),
{
    let size = size_text(output_width, output_height);
    let mut transform = "scale=".to_owned();
    match mode {
        VideoAspectRatio::Stretch16By9 => {
            transform.append(size.as_str());
            transform.append(":flags=fast_bilinear,setsar=1");
        },
        VideoAspectRatio::Fit16By9 => {
            transform.append(size.as_str());
            transform.append(":force_original_aspect_ratio=decrease:flags=fast_bilinear,pad=");
            transform.append(size.as_str());
            transform.append(":(ow-iw)/2:(oh-ih)/2:black,setsar=1");
        },
        VideoAspectRatio::Game => {
            let (width, height) = fit_inside(
                monitor.width,
                monitor.height,
                output_width,
                output_height,
            );
            let fitted_size = size_text(width, height);
            transform.append(fitted_size.as_str());
            transform.append(":flags=fast_bilinear,setsar=1");
        },
        VideoAspectRatio::Crop16By9 => {
            transform.append(size.as_str());
            transform.append(":force_original_aspect_ratio=increase:flags=fast_bilinear,crop=");
            transform.append(size.as_str());
            transform.append(",setsar=1");
        },
    }
    let mut out = "hwdownload,format=bgra,".to_owned();
    out.append(transform.as_str());
    out.append(",format=nv12");
    out
}

/// What an audio source carries.
#[derive(Debug, Clone, Copy, PartialEq, Eq, Structural)]
pub enum AudioSourceKind {
    Desktop,
    Microphone,
}

/// A device whose sound is recorded.
#[derive(Debug)]
pub struct AudioSource {
    pub device: String,
    pub volume_percent: u32,
    pub kind: AudioSourceKind,
}

impl View for AudioSource {
    type V = (Seq<char>, u32, AudioSourceKind);

    open spec fn view(&self) -> Self::V {
        (self.device@, self.volume_percent, self.kind)
    }
}

/// The views of a list of sources.
pub open spec fn sources_view(sources: Seq<AudioSource>) -> Seq<(Seq<char>, u32, AudioSourceKind)> {
    sources.map_values(|source: AudioSource| source@)
}

/// What the settings record of the desktop.
pub open spec fn desktop_source(config: AppConfig) -> Seq<(Seq<char>, u32, AudioSourceKind)> {
    match config.desktop_audio_device {
        Some(device) if config.desktop_audio_enabled => seq![
            (device@, config.desktop_audio_volume_percent, AudioSourceKind::Desktop),
        ],
        _ => Seq::empty(),
    }
}

/// What the settings record of the microphone.
pub open spec fn microphone_source(config: AppConfig) -> Seq<(Seq<char>, u32, AudioSourceKind)> {
    match config.microphone_device {
        Some(device) if config.microphone_enabled => seq![
            (device@, config.microphone_volume_percent, AudioSourceKind::Microphone),
        ],
        _ => Seq::empty(),
    }
}

/// The sources that the settings record, the desktop before the microphone.
pub fn audio_sources(config: &AppConfig) -> (r: Vec<AudioSource>)
    ensures
        sources_view(r@) == desktop_source(*config) + microphone_source(*config),
{
    let mut sources: Vec<AudioSource> = Vec::new();
    if config.desktop_audio_enabled {
        if let Some(device) = &config.desktop_audio_device {
            sources.push(
                AudioSource {
                    device: device.clone(),
                    volume_percent: config.desktop_audio_volume_percent,
                    kind: AudioSourceKind::Desktop,
                },
            );
        }
    }
    assert(sources_view(sources@) =~= desktop_source(*config));
    let ghost before = sources@;
    if config.microphone_enabled {
        if let Some(device) = &config.microphone_device {
            sources.push(
                AudioSource {
                    device: device.clone(),
                    volume_percent: config.microphone_volume_percent,
                    kind: AudioSourceKind::Microphone,
                },
            );
        }
    }
    assert(sources_view(sources@) =~= sources_view(before) + microphone_source(*config));
    sources
}

/// How FFmpeg opens a source: sound played on a Windows endpoint comes over the local
/// relay, everything else from DirectShow.
pub open spec fn audio_input(source: (Seq<char>, u32, AudioSourceKind), port: Option<u16>) -> Seq<
    Seq<char>,
> {
    if source.2 == AudioSourceKind::Desktop && text::starts_with(source.0, WASAPI_RENDER_PREFIX@) {
        seq![
            "-thread_queue_size"@,
            "1024"@,
            "-f"@,
            "f32le"@,
            "-ar"@,
            "48000"@,
            "-ac"@,
            "2"@,
            "-i"@,
            "tcp://127.0.0.1:"@ + text::decimal(
                match port {
                    Some(port) => port as nat,
                    None => 0,
                },
            ),
        ]
    } else {
        seq![
            "-thread_queue_size"@,
            "1024"@,
            "-use_wallclock_as_timestamps"@,
            "1"@,
            "-f"@,
            "dshow"@,
            "-audio_buffer_size"@,
            "50"@,
            "-i"@,
            "audio="@ + source.0,
        ]
    }
}

/// Appends how FFmpeg opens a source.
pub fn append_audio_input_args(args: &mut Vec<String>, source: &AudioSource, port: Option<u16>)
    ensures
        final(args).deep_view() == old(args).deep_view() + audio_input(source@, port),
{
    if source.kind == AudioSourceKind::Desktop && windows_audio::is_wasapi_render_id(
        source.device.as_str(),
    ) {
        let mut address = "tcp://127.0.0.1:".to_owned();
        text::push_decimal(
            &mut address,
            match port {
                Some(port) => port as u64,
                None => 0,
            },
        );
        text::push_texts(
            args,
            &["-thread_queue_size", "1024", "-f", "f32le", "-ar", "48000", "-ac", "2", "-i"],
        );
        text::push_text(args, address.as_str());
    } else {
        let mut name = "audio=".to_owned();
        name.append(source.device.as_str());
        text::push_texts(
            args,
            &[
                "-thread_queue_size",
                "1024",
                "-use_wallclock_as_timestamps",
                "1",
                "-f",
                "dshow",
                "-audio_buffer_size",
                "50",
                "-i",
            ],
        );
        text::push_text(args, name.as_str());
    }
    assert(args.deep_view() =~= old(args).deep_view() + audio_input(source@, port));
}

/// How FFmpeg opens all of the sources.
pub open spec fn audio_inputs(
    sources: Seq<(Seq<char>, u32, AudioSourceKind)>,
    port: Option<u16>,
) -> Seq<Seq<char>>
    decreases sources.len(),
{
    if sources.len() == 0 {
        Seq::empty()
    } else {
        audio_inputs(sources.drop_last(), port) + audio_input(sources.last(), port)
    }
}

/// `percent`, at most 200, as a factor with two decimals.
pub open spec fn volume_text(percent: u32) -> Seq<char> {
    let p = if percent > 200 {
        200
    } else {
        percent as nat
    };
    "volume="@ + text::decimal(p / 100) + "."@ + text::padded(p % 100, 2)
}

/// The filters that a source passes through.
pub open spec fn source_filters(
    config: AppConfig,
    source: (Seq<char>, u32, AudioSourceKind),
) -> Seq<Seq<char>> {
    let microphone = source.2 == AudioSourceKind::Microphone;
    seq!["aresample=48000:async=1:first_pts=0"@] + (if microphone
        && config.microphone_noise_suppression {
        seq!["afftdn=nf=-25"@]
    } else {
        Seq::empty()
    }) + (if microphone && config.microphone_mono {
        seq!["pan=stereo|c0=c0|c1=c0"@]
    } else {
        Seq::empty()
    }) + seq![volume_text(source.1)]
}

/// The part of the filter graph for the source at position `index`. Where every source
/// gets a track of its own beside the mix, its sound is split in two.
pub open spec fn source_chain(
    config: AppConfig,
    source: (Seq<char>, u32, AudioSourceKind),
    index: nat,
    split: bool,
) -> Seq<char> {
    "["@ + text::decimal(index + 1) + ":a]"@ + text::join(source_filters(config, source), ","@) + (
    if split {
        ",asplit=2[audio"@ + text::decimal(index) + "_mix][audio"@ + text::decimal(index) + "]"@
    } else {
        "[audio"@ + text::decimal(index) + "]"@
    })
}

/// The parts of the filter graph for all sources.
pub open spec fn source_chains(
    config: AppConfig,
    sources: Seq<(Seq<char>, u32, AudioSourceKind)>,
    split: bool,
) -> Seq<Seq<char>> {
    Seq::new(sources.len(), |i: int| source_chain(config, sources[i], i as nat, split))
}

/// The names under which the first `n` sources enter the mix.
pub open spec fn mix_inputs(n: nat, split: bool) -> Seq<char>
    decreases n,
{
    if n == 0 {
        Seq::empty()
    } else {
        mix_inputs((n - 1) as nat, split) + "[audio"@ + text::decimal((n - 1) as nat) + (if split {
            "_mix]"@
        } else {
            "]"@
        })
    }
}

/// The whole filter graph; two sources or more are mixed.
pub open spec fn filter_graph(
    config: AppConfig,
    sources: Seq<(Seq<char>, u32, AudioSourceKind)>,
    split: bool,
) -> Seq<char> {
    let chains = source_chains(config, sources, split);
    text::join(
        if sources.len() > 1 {
            chains.push(
                mix_inputs(sources.len(), split) + "amix=inputs="@ + text::decimal(sources.len())
                    + ":duration=longest:dropout_transition=0:normalize=0[audio_mix]"@,
            )
        } else {
            chains
        },
        ";"@,
    )
}

/// The title of a source's own track.
pub open spec fn track_title(kind: AudioSourceKind) -> Seq<char> {
    match kind {
        AudioSourceKind::Desktop => "title=Desktop Audio"@,
        AudioSourceKind::Microphone => "title=Microphone"@,
    }
}

/// The track of the source at position `index`, behind the mix.
pub open spec fn track_args(kind: AudioSourceKind, index: nat) -> Seq<Seq<char>> {
    seq![
        "-map"@,
        "[audio"@ + text::decimal(index) + "]"@,
        "-metadata:s:a:"@ + text::decimal(index + 1),
        track_title(kind),
        "-disposition:a:"@ + text::decimal(index + 1),
        "0"@,
    ]
}

/// The tracks of all sources.
pub open spec fn tracks_args(sources: Seq<(Seq<char>, u32, AudioSourceKind)>) -> Seq<Seq<char>>
    decreases sources.len(),
{
    if sources.len() == 0 {
        Seq::empty()
    } else {
        tracks_args(sources.drop_last()) + track_args(
            sources.last().2,
            (sources.len() - 1) as nat,
        )
    }
}

/// What is recorded of the sources: nothing where there are none; one track where there
/// is one source or tracks are not kept apart; else the mix, and each source on a track
/// of its own.
pub open spec fn audio_output(
    config: AppConfig,
    sources: Seq<(Seq<char>, u32, AudioSourceKind)>,
) -> Seq<Seq<char>> {
    let split = config.separate_audio_tracks && sources.len() > 1;
    if sources.len() == 0 {
        seq!["-an"@]
    } else {
        seq!["-filter_complex"@, filter_graph(config, sources, split), "-map"@, "0:v:0"@] + (
        if split {
            seq![
                "-map"@,
                "[audio_mix]"@,
                "-metadata:s:a:0"@,
                "title=Game + Microphone Mix"@,
                "-disposition:a:0"@,
                "default"@,
            ] + tracks_args(sources)
        } else {
            seq![
                "-map"@,
                if sources.len() == 1 {
                    "[audio0]"@
                } else {
                    "[audio_mix]"@
                },
            ]
        }) + seq!["-c:a"@, "aac"@, "-b:a"@, "192k"@, "-ar"@, "48000"@]
    }
}

/// The filters that a source passes through.
fn filters_of(config: &AppConfig, source: &AudioSource) -> (r: Vec<String>)
    ensures
        r.deep_view() == source_filters(*config, source@),
{
    let mut filters: Vec<String> = Vec::new();
    text::push_text(&mut filters, "aresample=48000:async=1:first_pts=0");
    let microphone = source.kind == AudioSourceKind::Microphone;
    if microphone && config.microphone_noise_suppression {
        text::push_text(&mut filters, "afftdn=nf=-25");
    }
    if microphone && config.microphone_mono {
        text::push_text(&mut filters, "pan=stereo|c0=c0|c1=c0");
    }
    let percent: u64 = if source.volume_percent > 200 {
        200
    } else {
        source.volume_percent as u64
    };
    let mut volume = "volume=".to_owned();
    text::push_decimal(&mut volume, percent / 100);
    volume.append(".");
    text::push_padded(&mut volume, percent % 100, 2);
    text::push_text(&mut filters, volume.as_str());
    assert(filters.deep_view() =~= source_filters(*config, source@));
    filters
}

/// The part of the filter graph for the source at position `index`.
fn chain_of(config: &AppConfig, source: &AudioSource, index: usize, split: bool) -> (r: String)
    requires
        index < usize::MAX,
    ensures
        r@ == source_chain(*config, source@, index as nat, split),
{
    let filters = filters_of(config, source);
    let filter_text = text::joined(&filters, ",");
    let mut ending = String::new();
    if split {
        ending.append(",asplit=2[audio");
        text::push_decimal(&mut ending, index as u64);
        ending.append("_mix][audio");
        text::push_decimal(&mut ending, index as u64);
        ending.append("]");
        assert(ending@ =~= ",asplit=2[audio"@ + text::decimal(index as nat) + "_mix][audio"@
            + text::decimal(index as nat) + "]"@);
    } else {
        ending.append("[audio");
        text::push_decimal(&mut ending, index as u64);
        ending.append("]");
        assert(ending@ =~= "[audio"@ + text::decimal(index as nat) + "]"@);
    }
    let mut out = "[".to_owned();
    text::push_decimal(&mut out, (index + 1) as u64);
    out.append(":a]");
    out.append(filter_text.as_str());
    out.append(ending.as_str());
    out
}

/// The whole filter graph.
fn graph_of(config: &AppConfig, sources: &Vec<AudioSource>, split: bool) -> (r: String)
    ensures
        r@ == filter_graph(*config, sources_view(sources@), split),
{
    let ghost all = sources_view(sources@);
    let ghost chains_spec = source_chains(*config, all, split);
    let mut chains: Vec<String> = Vec::new();
    let mut inputs = String::new();
    let mut i: usize = 0;
    assert(chains.deep_view() =~= chains_spec.take(0));
    while i < sources.len()
        invariant
            i <= sources.len(),
            all == sources_view(sources@),
            chains_spec == source_chains(*config, all, split),
            chains.deep_view() == chains_spec.take(i as int),
            inputs@ == mix_inputs(i as nat, split),
        decreases sources.len() - i,
    {
        assert(all[i as int] == sources@[i as int]@);
        let chain = chain_of(config, &sources[i], i, split);
        text::push_text(&mut chains, chain.as_str());
        inputs.append("[audio");
        text::push_decimal(&mut inputs, i as u64);
        inputs.append(
            if split {
                "_mix]"
            } else {
                "]"
            },
        );
        i += 1;
        assert(chains_spec.take(i as int) =~= chains_spec.take(i - 1).push(chains_spec[i - 1]));
    }
    assert(chains_spec.take(i as int) =~= chains_spec);
    if sources.len() > 1 {
        inputs.append("amix=inputs=");
        text::push_decimal(&mut inputs, sources.len() as u64);
        inputs.append(":duration=longest:dropout_transition=0:normalize=0[audio_mix]");
        text::push_text(&mut chains, inputs.as_str());
    }
    text::joined(&chains, ";")
}

/// Appends the track of the source at position `index`.
fn append_track_args(args: &mut Vec<String>, kind: AudioSourceKind, index: usize)
    requires
        index < usize::MAX,
    ensures
        final(args).deep_view() == old(args).deep_view() + track_args(kind, index as nat),
{
    let mut label = "[audio".to_owned();
    text::push_decimal(&mut label, index as u64);
    label.append("]");
    let mut metadata = "-metadata:s:a:".to_owned();
    text::push_decimal(&mut metadata, (index + 1) as u64);
    let mut disposition = "-disposition:a:".to_owned();
    text::push_decimal(&mut disposition, (index + 1) as u64);
    text::push_text(args, "-map");
    text::push_text(args, label.as_str());
    text::push_text(args, metadata.as_str());
    text::push_text(
        args,
        match kind {
            AudioSourceKind::Desktop => "title=Desktop Audio",
            AudioSourceKind::Microphone => "title=Microphone",
        },
    );
    text::push_text(args, disposition.as_str());
    text::push_text(args, "0");
    assert(args.deep_view() =~= old(args).deep_view() + track_args(kind, index as nat));
}

/// Appends what is recorded of the sources.
pub fn append_audio_output_args(
    args: &mut Vec<String>,
    config: &AppConfig,
    sources: &Vec<AudioSource>,
)
    ensures
        final(args).deep_view() == old(args).deep_view() + audio_output(
            *config,
            sources_view(sources@),
        ),
{
    let ghost start = args.deep_view();
    let ghost all = sources_view(sources@);
    if sources.len() == 0 {
        text::push_text(args, "-an");
        assert(args.deep_view() =~= start + audio_output(*config, all));
        return ;
    }
    let split = config.separate_audio_tracks && sources.len() > 1;
    let graph = graph_of(config, sources, split);
    text::push_text(args, "-filter_complex");
    text::push_text(args, graph.as_str());
    text::push_texts(args, &["-map", "0:v:0"]);
    let ghost head = seq!["-filter_complex"@, filter_graph(*config, all, split), "-map"@, "0:v:0"@];
    assert(args.deep_view() =~= start + head);
    let ghost middle = if split {
        seq![
            "-map"@,
            "[audio_mix]"@,
            "-metadata:s:a:0"@,
            "title=Game + Microphone Mix"@,
            "-disposition:a:0"@,
            "default"@,
        ] + tracks_args(all)
    } else {
        seq![
            "-map"@,
            if all.len() == 1 {
                "[audio0]"@
            } else {
                "[audio_mix]"@
            },
        ]
    };
    if split {
        let ghost mixed = seq![
            "-map"@,
            "[audio_mix]"@,
            "-metadata:s:a:0"@,
            "title=Game + Microphone Mix"@,
            "-disposition:a:0"@,
            "default"@,
        ];
        text::push_texts(
            args,
            &[
                "-map",
                "[audio_mix]",
                "-metadata:s:a:0",
                "title=Game + Microphone Mix",
                "-disposition:a:0",
                "default",
            ],
        );
        let mut i: usize = 0;
        assert(args.deep_view() =~= start + head + mixed + tracks_args(all.take(0)));
        while i < sources.len()
            invariant
                i <= sources.len(),
                all == sources_view(sources@),
                args.deep_view() == start + head + mixed + tracks_args(all.take(i as int)),
            decreases sources.len() - i,
        {
            assert(all.take(i + 1).drop_last() =~= all.take(i as int));
            assert(all[i as int] == sources@[i as int]@);
            append_track_args(args, sources[i].kind, i);
            i += 1;
            assert(args.deep_view() =~= start + head + mixed + tracks_args(all.take(i as int)));
        }
        assert(all.take(i as int) =~= all);
        assert(args.deep_view() =~= start + head + middle);
    } else {
        text::push_text(args, "-map");
        text::push_text(
            args,
            if sources.len() == 1 {
                "[audio0]"
            } else {
                "[audio_mix]"
            },
        );
        assert(args.deep_view() =~= start + head + middle);
    }
    text::push_texts(args, &["-c:a", "aac", "-b:a", "192k", "-ar", "48000"]);
    assert(args.deep_view() =~= start + audio_output(*config, all));
}

/// Desktop Duplication records the display: on Windows with NVIDIA's encoder, unless the
/// cursor has to be drawn the compatible way.
pub open spec fn dda_used(host: HostSystem, config: AppConfig) -> bool {
    host == HostSystem::Windows && config.encoder == EncoderBackend::Nvidia && !(
    config.capture_cursor && config.animated_cursor_compatibility)
}

/// Whether Desktop Duplication records the display.
pub fn uses_ddagrab(host: HostSystem, config: &AppConfig) -> (r: bool)
    ensures
        r == dda_used(host, *config),
{
    host == HostSystem::Windows && config.encoder == EncoderBackend::Nvidia && !(
    config.capture_cursor && config.animated_cursor_compatibility)
}

/// FFmpeg's name of an encoder.
pub open spec fn encoder_name(encoder: EncoderBackend, codec: VideoCodec) -> Seq<char> {
    match (encoder, codec) {
        (EncoderBackend::Auto, VideoCodec::H264) => "libx264"@,
        (EncoderBackend::Auto, VideoCodec::H265) => "libx265"@,
        (EncoderBackend::Software, VideoCodec::H264) => "libx264"@,
        (EncoderBackend::Software, VideoCodec::H265) => "libx265"@,
        (EncoderBackend::Nvidia, VideoCodec::H264) => "h264_nvenc"@,
        (EncoderBackend::Nvidia, VideoCodec::H265) => "hevc_nvenc"@,
        (EncoderBackend::Amd, VideoCodec::H264) => "h264_amf"@,
        (EncoderBackend::Amd, VideoCodec::H265) => "hevc_amf"@,
        (EncoderBackend::Intel, VideoCodec::H264) => "h264_qsv"@,
        (EncoderBackend::Intel, VideoCodec::H265) => "hevc_qsv"@,
    }
}

/// FFmpeg's name of an encoder.
fn encoder_text(encoder: EncoderBackend, codec: VideoCodec) -> (r: &'static str)
    ensures
        r@ == encoder_name(encoder, codec),
{
    match (encoder, codec) {
        (EncoderBackend::Auto, VideoCodec::H264) => "libx264",
        (EncoderBackend::Auto, VideoCodec::H265) => "libx265",
        (EncoderBackend::Software, VideoCodec::H264) => "libx264",
        (EncoderBackend::Software, VideoCodec::H265) => "libx265",
        (EncoderBackend::Nvidia, VideoCodec::H264) => "h264_nvenc",
        (EncoderBackend::Nvidia, VideoCodec::H265) => "hevc_nvenc",
        (EncoderBackend::Amd, VideoCodec::H264) => "h264_amf",
        (EncoderBackend::Amd, VideoCodec::H265) => "hevc_amf",
        (EncoderBackend::Intel, VideoCodec::H264) => "h264_qsv",
        (EncoderBackend::Intel, VideoCodec::H265) => "hevc_qsv",
    }
}

/// `1` where a switch is on, `0` where it is off.
pub open spec fn switch_text(on: bool) -> Seq<char> {
    if on {
        "1"@
    } else {
        "0"@
    }
}

/// What every recording begins with.
pub open spec fn recording_head() -> Seq<Seq<char>> {
    seq![
        "-hide_banner"@,
        "-loglevel"@,
        "warning"@,
        "-stats_period"@,
        "30"@,
        "-stats"@,
        "-y"@,
    ]
}

/// How FFmpeg reads the display.
pub open spec fn video_input(host: HostSystem, config: AppConfig, monitor: MonitorInfo) -> Seq<
    Seq<char>,
> {
    if dda_used(host, config) {
        seq![
            "-f"@,
            "lavfi"@,
            "-i"@,
            "ddagrab=output_idx="@ + text::decimal(monitor.output_index as nat) + ":framerate="@
                + text::decimal(config.frame_rate as nat) + ":draw_mouse="@ + switch_text(
                config.capture_cursor,
            ) + ":dup_frames=1"@,
        ]
    } else {
        seq![
            "-thread_queue_size"@,
            "1024"@,
            "-f"@,
            "gdigrab"@,
            "-framerate"@,
            text::decimal(config.frame_rate as nat),
            "-draw_mouse"@,
            switch_text(config.capture_cursor),
            "-offset_x"@,
            text::signed_decimal(monitor.x as int),
            "-offset_y"@,
            text::signed_decimal(monitor.y as int),
            "-video_size"@,
            text::decimal(monitor.width as nat) + "x"@ + text::decimal(monitor.height as nat),
            "-i"@,
            "desktop"@,
        ]
    }
}

/// Appends how FFmpeg reads the display.
fn append_video_input(
    args: &mut Vec<String>,
    host: HostSystem,
    config: &AppConfig,
    monitor: &MonitorInfo,
)
    ensures
        final(args).deep_view() == old(args).deep_view() + video_input(host, *config, *monitor),
{
    let rate = text::decimal_text(config.frame_rate as u64);
    let cursor = if config.capture_cursor {
        "1"
    } else {
        "0"
    };
    if uses_ddagrab(host, config) {
        let mut source = "ddagrab=output_idx=".to_owned();
        text::push_decimal(&mut source, monitor.output_index as u64);
        source.append(":framerate=");
        source.append(rate.as_str());
        source.append(":draw_mouse=");
        source.append(cursor);
        source.append(":dup_frames=1");
        text::push_texts(args, &["-f", "lavfi", "-i"]);
        text::push_text(args, source.as_str());
    } else {
        let x = text::signed_text(monitor.x);
        let y = text::signed_text(monitor.y);
        let mut size = text::decimal_text(monitor.width as u64);
        size.append("x");
        text::push_decimal(&mut size, monitor.height as u64);
        text::push_texts(args, &["-thread_queue_size", "1024", "-f", "gdigrab", "-framerate"]);
        text::push_text(args, rate.as_str());
        text::push_text(args, "-draw_mouse");
        text::push_text(args, cursor);
        text::push_text(args, "-offset_x");
        text::push_text(args, x.as_str());
        text::push_text(args, "-offset_y");
        text::push_text(args, y.as_str());
        text::push_text(args, "-video_size");
        text::push_text(args, size.as_str());
        text::push_texts(args, &["-i", "desktop"]);
    }
    assert(args.deep_view() =~= old(args).deep_view() + video_input(host, *config, *monitor));
}

/// The frame already has the display's size, and nothing has to be done to it.
pub open spec fn same_size(config: AppConfig, monitor: MonitorInfo) -> bool {
    &&& config.video_aspect_ratio == VideoAspectRatio::Stretch16By9 || config.video_aspect_ratio
        == VideoAspectRatio::Game
    &&& config::even_at_least(config.output_width as int, 640) == monitor.width
    &&& config::even_at_least(config.output_height as int, 360) == monitor.height
}

/// How the display is turned into the frame.
pub open spec fn video_transform(host: HostSystem, config: AppConfig, monitor: MonitorInfo) -> Seq<
    Seq<char>,
> {
    let width = config::even_at_least(config.output_width as int, 640);
    let height = config::even_at_least(config.output_height as int, 360);
    if !dda_used(host, config) {
        seq![
            "-vf"@,
            video_filter_text(config.video_aspect_ratio, monitor, width, height),
        ]
    } else if !same_size(config, monitor) {
        seq!["-vf"@, dda_filter_text(config.video_aspect_ratio, monitor, width, height)]
    } else {
        Seq::empty()
    }
}

/// Appends how the display is turned into the frame.
fn append_video_transform(
    args: &mut Vec<String>,
    host: HostSystem,
    config: &AppConfig,
    monitor: &MonitorInfo,
)
    requires
        config.video_aspect_ratio == VideoAspectRatio::Game ==> monitor.width > 0 || monitor.height
            > 0,
    ensures
        final(args).deep_view() == old(args).deep_view() + video_transform(host, *config, *monitor),
{
    let width = config::even_size(config.output_width, 640);
    let height = config::even_size(config.output_height, 360);
    assert(monitor.width > 0 ==> monitor.width * height > 0) by (nonlinear_arith)
        requires
            height > 0,
    ;
    let mode = config.video_aspect_ratio;
    if !uses_ddagrab(host, config) {
        let filter = video_filter(mode, monitor, width, height);
        text::push_text(args, "-vf");
        text::push_text(args, filter.as_str());
    } else {
        let direct = (mode == VideoAspectRatio::Stretch16By9 || mode == VideoAspectRatio::Game)
            && width == monitor.width && height == monitor.height;
        if !direct {
            let filter = dda_software_filter(mode, monitor, width, height);
            text::push_text(args, "-vf");
            text::push_text(args, filter.as_str());
        }
    }
    assert(args.deep_view() =~= old(args).deep_view() + video_transform(host, *config, *monitor));
}

/// How the frames are encoded.
pub open spec fn video_encoding(host: HostSystem, config: AppConfig) -> Seq<Seq<char>> {
    seq!["-c:v"@, encoder_name(config.encoder, config.video_codec)] + (if dda_used(host, config) {
        Seq::empty()
    } else {
        seq!["-pix_fmt"@, "yuv420p"@]
    }) + (match config.encoder {
        EncoderBackend::Nvidia => seq![
            "-preset"@,
            "p2"@,
            "-tune"@,
            "ll"@,
            "-rc"@,
            "cbr"@,
            "-multipass"@,
            "disabled"@,
            "-rc-lookahead"@,
            "0"@,
            "-bf"@,
            "0"@,
            "-spatial-aq"@,
            "0"@,
            "-temporal-aq"@,
            "0"@,
            "-forced-idr"@,
            "1"@,
        ],
        EncoderBackend::Amd => seq!["-quality"@, "speed"@],
        _ => seq!["-preset"@, "veryfast"@],
    })
}

/// Appends how the frames are encoded.
fn append_video_encoding(args: &mut Vec<String>, host: HostSystem, config: &AppConfig)
    ensures
        final(args).deep_view() == old(args).deep_view() + video_encoding(host, *config),
{
    text::push_text(args, "-c:v");
    text::push_text(args, encoder_text(config.encoder, config.video_codec));
    if !uses_ddagrab(host, config) {
        text::push_texts(args, &["-pix_fmt", "yuv420p"]);
    }
    match config.encoder {
        EncoderBackend::Nvidia => {
            text::push_texts(
                args,
                &[
                    "-preset",
                    "p2",
                    "-tune",
                    "ll",
                    "-rc",
                    "cbr",
                    "-multipass",
                    "disabled",
                    "-rc-lookahead",
                    "0",
                    "-bf",
                    "0",
                    "-spatial-aq",
                    "0",
                    "-temporal-aq",
                    "0",
                    "-forced-idr",
                    "1",
                ],
            );
        },
        EncoderBackend::Amd => {
            text::push_texts(args, &["-quality", "speed"]);
        },
        _ => {
            text::push_texts(args, &["-preset", "veryfast"]);
        },
    }
    assert(args.deep_view() =~= old(args).deep_view() + video_encoding(host, *config));
}

/// `n`, at most the largest 32-bit number.
pub open spec fn saturated(n: int) -> nat {
    if n > u32::MAX {
        u32::MAX as nat
    } else {
        n as nat
    }
}

/// The smallest number of pieces of `size` that hold `n`.
pub open spec fn pieces_for(n: int, size: int) -> int {
    (n + size - 1) / size
}

/// How many segment files are kept before the oldest is written over: enough for the
/// longest clip, and three more for the one being written and its neighbours.
pub open spec fn segment_wrap(config: AppConfig) -> int {
    pieces_for(config.buffer_seconds() as int, config.segment_seconds as int) + 3
}

/// How the recording is cut into segments.
pub open spec fn segment_args(config: AppConfig, output: Seq<char>) -> Seq<Seq<char>> {
    let bitrate = text::decimal(config.video_bitrate_mbps as nat) + "M"@;
    let length = text::decimal(config.segment_seconds as nat);
    seq![
        "-b:v"@,
        bitrate,
        "-maxrate"@,
        bitrate,
        "-bufsize"@,
        text::decimal(saturated(config.video_bitrate_mbps * 2)) + "M"@,
        "-g"@,
        text::decimal(saturated(config.frame_rate * config.segment_seconds)),
        "-fps_mode"@,
        "cfr"@,
        "-force_key_frames"@,
        "expr:gte(t,n_forced*"@ + length + ")"@,
        "-f"@,
        "segment"@,
        "-segment_time"@,
        length,
        "-segment_wrap"@,
        text::decimal(segment_wrap(config) as nat),
        "-reset_timestamps"@,
        "1"@,
        output,
    ]
}

/// Appends how the recording is cut into segments.
fn append_segment_args(args: &mut Vec<String>, config: &AppConfig, output: &str)
    requires
        config.segment_seconds > 0,
    ensures
        final(args).deep_view() == old(args).deep_view() + segment_args(*config, output@),
{
    let mut bitrate = text::decimal_text(config.video_bitrate_mbps as u64);
    bitrate.append("M");
    let doubled: u64 = config.video_bitrate_mbps as u64 * 2;
    let mut buffer = text::decimal_text(
        if doubled > 0xffff_ffff {
            0xffff_ffff
        } else {
            doubled
        },
    );
    buffer.append("M");
    assert(0 <= config.frame_rate * config.segment_seconds <= 0xffff_ffff * 0xffff_ffff)
        by (nonlinear_arith)
        requires
            0 <= config.frame_rate <= u32::MAX,
            0 <= config.segment_seconds <= u32::MAX,
    ;
    let frames: u64 = config.frame_rate as u64 * config.segment_seconds as u64;
    let group = text::decimal_text(
        if frames > 0xffff_ffff {
            0xffff_ffff
        } else {
            frames
        },
    );
    let length = text::decimal_text(config.segment_seconds as u64);
    let mut key_frames = "expr:gte(t,n_forced*".to_owned();
    key_frames.append(length.as_str());
    key_frames.append(")");
    let seconds: u64 = config.max_buffer_seconds() as u64;
    let size: u64 = config.segment_seconds as u64;
    assert((seconds + size - 1) / size as int <= seconds + size - 1) by (nonlinear_arith)
        requires
            size > 0,
            seconds >= 0,
    ;
    let wrap = text::decimal_text((seconds + size - 1) / size + 3);
    text::push_text(args, "-b:v");
    text::push_text(args, bitrate.as_str());
    text::push_text(args, "-maxrate");
    text::push_text(args, bitrate.as_str());
    text::push_text(args, "-bufsize");
    text::push_text(args, buffer.as_str());
    text::push_text(args, "-g");
    text::push_text(args, group.as_str());
    text::push_texts(args, &["-fps_mode", "cfr", "-force_key_frames"]);
    text::push_text(args, key_frames.as_str());
    text::push_texts(args, &["-f", "segment", "-segment_time"]);
    text::push_text(args, length.as_str());
    text::push_text(args, "-segment_wrap");
    text::push_text(args, wrap.as_str());
    text::push_texts(args, &["-reset_timestamps", "1"]);
    text::push_text(args, output);
    assert(args.deep_view() =~= old(args).deep_view() + segment_args(*config, output@));
}

/// The arguments that record `monitor` into wrapped segments named by `output`.
pub open spec fn recording_args(
    host: HostSystem,
    config: AppConfig,
    monitor: MonitorInfo,
    output: Seq<char>,
    port: Option<u16>,
) -> Seq<Seq<char>> {
    let sources = desktop_source(config) + microphone_source(config);
    recording_head() + video_input(host, config, monitor) + audio_inputs(sources, port)
        + video_transform(host, config, monitor) + video_encoding(host, config) + audio_output(
        config,
        sources,
    ) + segment_args(config, output)
}

/// The arguments that record `monitor`, where sound played on a Windows endpoint comes
/// over the relay on `loopback_port`.
pub fn capture_args_with_loopback(
    host: HostSystem,
    config: &AppConfig,
    monitor: &MonitorInfo,
    output: &str,
    loopback_port: Option<u16>,
) -> (r: Vec<String>)
    requires
        config.segment_seconds > 0,
        config.video_aspect_ratio == VideoAspectRatio::Game ==> monitor.width > 0 || monitor.height
            > 0,
    ensures
        r.deep_view() == recording_args(host, *config, *monitor, output@, loopback_port),
{
    let mut args: Vec<String> = Vec::new();
    text::push_texts(
        &mut args,
        &["-hide_banner", "-loglevel", "warning", "-stats_period", "30", "-stats", "-y"],
    );
    assert(args.deep_view() =~= recording_head());
    append_video_input(&mut args, host, config, monitor);
    let sources = audio_sources(config);
    let ghost all = sources_view(sources@);
    let ghost start = args.deep_view();
    let mut i: usize = 0;
    assert(args.deep_view() =~= start + audio_inputs(all.take(0), loopback_port));
    while i < sources.len()
        invariant
            i <= sources.len(),
            all == sources_view(sources@),
            args.deep_view() == start + audio_inputs(all.take(i as int), loopback_port),
        decreases sources.len() - i,
    {
        assert(all.take(i + 1).drop_last() =~= all.take(i as int));
        assert(all[i as int] == sources@[i as int]@);
        append_audio_input_args(&mut args, &sources[i], loopback_port);
        i += 1;
        assert(args.deep_view() =~= start + audio_inputs(all.take(i as int), loopback_port));
    }
    assert(all.take(i as int) =~= all);
    append_video_transform(&mut args, host, config, monitor);
    append_video_encoding(&mut args, host, config);
    append_audio_output_args(&mut args, config, &sources);
    append_segment_args(&mut args, config, output);
    args
}

/// The arguments that record `monitor` where no relay runs.
pub fn capture_args(host: HostSystem, config: &AppConfig, monitor: &MonitorInfo, output: &str) -> (r:
    Vec<String>)
    requires
        config.segment_seconds > 0,
        config.video_aspect_ratio == VideoAspectRatio::Game ==> monitor.width > 0 || monitor.height
            > 0,
    ensures
        r.deep_view() == recording_args(host, *config, *monitor, output@, None),
{
    capture_args_with_loopback(host, config, monitor, output, None)
}

/// The segments that are kept hold the longest clip that can be asked for: all but three
/// of them, less than one segment more than it takes.
pub proof fn kept_segments_hold_the_longest_clip(config: AppConfig)
    requires
        config.segment_seconds > 0,
    ensures
        (segment_wrap(config) - 3) * config.segment_seconds >= config.buffer_seconds(),
        (segment_wrap(config) - 3) * config.segment_seconds < config.buffer_seconds()
            + config.segment_seconds,
{
    lemma_pieces_hold(config.buffer_seconds() as int, config.segment_seconds as int);
}

/// Enough pieces hold the whole, with less than one piece to spare.
pub proof fn lemma_pieces_hold(n: int, size: int)
    requires
        size > 0,
    ensures
        n <= pieces_for(n, size) * size < n + size,
{
    let p = pieces_for(n, size);
    assert(n <= p * size < n + size) by (nonlinear_arith)
        requires
            p == (n + size - 1) / size,
            size > 0,
    ;
}

/// The encoder whose presence tells that a backend can be used; nothing has to be tried
/// for the automatic choice.
pub fn probe_encoder(backend: EncoderBackend) -> (r: Option<&'static str>)
    ensures
        match r {
            Some(name) => backend != EncoderBackend::Auto && name@ == encoder_name(
                backend,
                VideoCodec::H264,
            ),
            None => backend == EncoderBackend::Auto,
        },
{
    match backend {
        EncoderBackend::Auto => None,
        _ => Some(encoder_text(backend, VideoCodec::H264)),
    }
}

/// The arguments that encode one frame with `encoder` and keep nothing of it. The frame
/// is large enough for hardware encoders.
pub fn probe_args(encoder: &str) -> (r: Vec<String>)
    ensures
        r.deep_view() == seq![
            "-hide_banner"@,
            "-loglevel"@,
            "error"@,
            "-f"@,
            "lavfi"@,
            "-i"@,
            "color=size=256x256:rate=1"@,
            "-frames:v"@,
            "1"@,
            "-an"@,
            "-c:v"@,
            encoder@,
            "-f"@,
            "null"@,
            "-"@,
        ],
{
    let mut args: Vec<String> = Vec::new();
    text::push_texts(
        &mut args,
        &[
            "-hide_banner",
            "-loglevel",
            "error",
            "-f",
            "lavfi",
            "-i",
            "color=size=256x256:rate=1",
            "-frames:v",
            "1",
            "-an",
            "-c:v",
        ],
    );
    text::push_text(&mut args, encoder);
    text::push_texts(&mut args, &["-f", "null", "-"]);
    args
}

/// A path as a quoted word of FFmpeg's list format: slashes throughout, and each quote
/// closed, escaped and opened again.
pub open spec fn quoted_path(path: Seq<char>) -> Seq<char> {
    "file '"@ + text::replace(text::replace(path, '\\', "/"@), '\'', "'\\''"@) + "'"@
}

/// The lines for one segment: every segment but the last is followed by how long it
/// lasts.
pub open spec fn list_entry(path: Seq<char>, seconds: nat, last: bool) -> Seq<char> {
    if last {
        quoted_path(path)
    } else {
        quoted_path(path) + "\nduration "@ + text::decimal(seconds) + ".000000"@
    }
}

/// The list from which FFmpeg joins segments.
pub open spec fn list_text(paths: Seq<Seq<char>>, seconds: nat) -> Seq<char> {
    text::join(
        Seq::new(paths.len(), |i: int| list_entry(paths[i], seconds, i == paths.len() - 1)),
        "\n"@,
    )
}

/// The list from which FFmpeg joins segments that last `segment_seconds` each.
pub fn concat_list(segments: &Vec<String>, segment_seconds: u32) -> (r: String)
    ensures
        r@ == list_text(segments.deep_view(), segment_seconds as nat),
{
    let ghost paths = segments.deep_view();
    let ghost entries = Seq::new(
        paths.len(),
        |i: int| list_entry(paths[i], segment_seconds as nat, i == paths.len() - 1),
    );
    let mut lines: Vec<String> = Vec::new();
    let mut i: usize = 0;
    assert(lines.deep_view() =~= entries.take(0));
    while i < segments.len()
        invariant
            i <= segments.len(),
            paths == segments.deep_view(),
            entries == Seq::new(
                paths.len(),
                |i: int| list_entry(paths[i], segment_seconds as nat, i == paths.len() - 1),
            ),
            lines.deep_view() == entries.take(i as int),
        decreases segments.len() - i,
    {
        assert(paths[i as int] == segments@[i as int]@);
        let slashed = text::replaced(segments[i].as_str(), '\\', "/");
        let escaped = text::replaced(slashed.as_str(), '\'', "'\\''");
        let mut line = "file '".to_owned();
        line.append(escaped.as_str());
        line.append("'");
        if i + 1 < segments.len() {
            line.append("\nduration ");
            text::push_decimal(&mut line, segment_seconds as u64);
            line.append(".000000");
        }
        text::push_text(&mut lines, line.as_str());
        i += 1;
        assert(entries.take(i as int) =~= entries.take(i - 1).push(entries[i - 1]));
    }
    assert(entries.take(i as int) =~= entries);
    text::joined(&lines, "\n")
}

/// What FFmpeg reads from a word of its list format: between quotes every character
/// stands for itself, outside of them a backslash makes the next one do so.
pub open spec fn unquoted(word: Seq<char>, inside: bool) -> Seq<char>
    decreases word.len(),
{
    if word.len() == 0 {
        Seq::empty()
    } else if word[0] == '\'' {
        unquoted(word.drop_first(), !inside)
    } else if !inside && word[0] == '\\' && word.len() > 1 {
        seq![word[1]] + unquoted(word.skip(2), false)
    } else {
        seq![word[0]] + unquoted(word.drop_first(), inside)
    }
}

/// Escaped text, read between quotes, gives the text back.
proof fn lemma_escaped_reads_back(path: Seq<char>, rest: Seq<char>)
    ensures
        unquoted(text::replace(path, '\'', "'\\''"@) + rest, true) == path + unquoted(rest, true),
    decreases path.len(),
{
    reveal_strlit("'\\''");
    let escape = "'\\''"@;
    if path.len() == 0 {
        assert(text::replace(path, '\'', escape) + rest =~= rest);
        assert(path + unquoted(rest, true) =~= unquoted(rest, true));
    } else {
        let front = path.drop_last();
        let last = path.last();
        let piece = if last == '\'' {
            escape
        } else {
            seq![last]
        };
        assert(text::replace(path, '\'', escape) + rest =~= text::replace(front, '\'', escape) + (
        piece + rest));
        lemma_escaped_reads_back(front, piece + rest);
        let word = piece + rest;
        if last == '\'' {
            assert(word[0] == '\'' && word[1] == '\\' && word[2] == '\'' && word[3] == '\'');
            let second = word.drop_first();
            assert(second[0] == '\\' && second[1] == '\'');
            let fourth = second.skip(2);
            assert(fourth[0] == '\'');
            assert(fourth.drop_first() =~= rest);
            assert(unquoted(word, true) == unquoted(second, false));
            assert(unquoted(second, false) == seq!['\''] + unquoted(fourth, false));
            assert(unquoted(fourth, false) == unquoted(rest, true));
        } else {
            assert(word[0] == last);
            assert(word.drop_first() =~= rest);
        }
        assert(path =~= front + seq![last]);
        assert(path + unquoted(rest, true) =~= front + (seq![last] + unquoted(rest, true)));
    }
}

/// Whatever characters a segment's path has, quotes among them, FFmpeg reads it back
/// from the list as it is, with slashes for backslashes.
pub proof fn listed_paths_are_read_back(path: Seq<char>)
    ensures
        unquoted(quoted_path(path).skip("file "@.len() as int), false) == text::replace(
            path,
            '\\',
            "/"@,
        ),
{
    reveal_strlit("file ");
    reveal_strlit("file '");
    reveal_strlit("'");
    let slashed = text::replace(path, '\\', "/"@);
    let escaped = text::replace(slashed, '\'', "'\\''"@);
    let word = quoted_path(path).skip(5);
    assert(word[0] == '\'');
    assert(word.drop_first() =~= escaped + "'"@);
    lemma_escaped_reads_back(slashed, "'"@);
    assert("'"@[0] == '\'' && "'"@.drop_first() =~= Seq::empty());
    assert(unquoted(Seq::<char>::empty(), false) =~= Seq::empty());
    assert(unquoted("'"@, true) == unquoted("'"@.drop_first(), false));
    assert(slashed + Seq::<char>::empty() =~= slashed);
}

/// The arguments that join the segments listed in `list` into `output` without encoding
/// them again.
pub fn concat_args(list: &str, output: &str) -> (r: Vec<String>)
    ensures
        r.deep_view() == seq![
            "-y"@,
            "-f"@,
            "concat"@,
            "-safe"@,
            "0"@,
            "-i"@,
            list@,
            "-map"@,
            "0"@,
            "-c"@,
            "copy"@,
            output@,
        ],
{
    let mut args: Vec<String> = Vec::new();
    text::push_texts(&mut args, &["-y", "-f", "concat", "-safe", "0", "-i"]);
    text::push_text(&mut args, list);
    text::push_texts(&mut args, &["-map", "0", "-c", "copy"]);
    text::push_text(&mut args, output);
    args
}

/// A time in milliseconds as seconds with three decimals.
pub open spec fn seconds_text(millis: nat) -> Seq<char> {
    text::decimal(millis / 1000) + "."@ + text::padded(millis % 1000, 3)
}

/// A time in milliseconds as seconds with three decimals.
pub fn seconds_of(millis: u64) -> (r: String)
    ensures
        r@ == seconds_text(millis as nat),
{
    let mut out = text::decimal_text(millis / 1000);
    out.append(".");
    text::push_padded(&mut out, millis % 1000, 3);
    out
}

/// The arguments that cut `input` from `start` to `end` into `output`.
pub fn trim_args(input: &str, output: &str, start_millis: u64, end_millis: u64) -> (r: Vec<String>)
    ensures
        r.deep_view() == seq![
            "-y"@,
            "-ss"@,
            seconds_text(start_millis as nat),
            "-to"@,
            seconds_text(end_millis as nat),
            "-i"@,
            input@,
            "-map"@,
            "0:v:0"@,
            "-map"@,
            "0:a?"@,
            "-c:v"@,
            "libx264"@,
            "-preset"@,
            "fast"@,
            "-crf"@,
            "18"@,
            "-pix_fmt"@,
            "yuv420p"@,
            "-c:a"@,
            "aac"@,
            output@,
        ],
{
    let start = seconds_of(start_millis);
    let end = seconds_of(end_millis);
    let mut args: Vec<String> = Vec::new();
    text::push_texts(&mut args, &["-y", "-ss"]);
    text::push_text(&mut args, start.as_str());
    text::push_text(&mut args, "-to");
    text::push_text(&mut args, end.as_str());
    text::push_text(&mut args, "-i");
    text::push_text(&mut args, input);
    text::push_texts(
        &mut args,
        &[
            "-map",
            "0:v:0",
            "-map",
            "0:a?",
            "-c:v",
            "libx264",
            "-preset",
            "fast",
            "-crf",
            "18",
            "-pix_fmt",
            "yuv420p",
            "-c:a",
            "aac",
        ],
    );
    text::push_text(&mut args, output);
    args
}

/// The arguments that list the audio devices of DirectShow.
pub fn device_listing_args() -> (r: Vec<String>)
    ensures
        r.deep_view() == seq![
            "-hide_banner"@,
            "-list_devices"@,
            "true"@,
            "-f"@,
            "dshow"@,
            "-i"@,
            "dummy"@,
        ],
{
    let mut args: Vec<String> = Vec::new();
    text::push_texts(
        &mut args,
        &["-hide_banner", "-list_devices", "true", "-f", "dshow", "-i", "dummy"],
    );
    args
}

} // verus!
