//! What FFmpeg is told about the display, the segments and the files it works on.

use vstd::prelude::*;

use crate::capture_args;
use crate::capture_args::{AudioSource, AudioSourceKind};
use crate::config::{AppConfig, EncoderBackend, VideoAspectRatio, VideoCodec};
use crate::display::MonitorInfo;
use crate::laws::reading;
use crate::paths::HostSystem;
use crate::text;

verus! {

/// A display is scaled into the frame with its proportions kept: one side of the frame is
/// filled, up to the pixel that evenness may cost, and the other side is what the proportions
/// give, to within two pixels.
pub proof fn displays_keep_their_proportions(sw: u32, sh: u32, mw: u32, mh: u32, r: (u32, u32))
    requires
        call_ensures(capture_args::fit_inside, (sw, sh, mw, mh), r),
        sw > 0,
        sh > 0,
        mw >= 2,
        mh >= 2,
    ensures
        r.0 % 2 == 0 && r.1 % 2 == 0,
        2 <= r.0 <= mw && 2 <= r.1 <= mh,
        sw * mh > sh * mw ==> r.0 + 1 >= mw && r.1 * sw <= mw * sh + 2 * sw && mw * sh <= r.1 * sw + 2
            * sw,
        sw * mh <= sh * mw ==> r.1 + 1 >= mh && r.0 * sh <= mh * sw + 2 * sh && mh * sw <= r.0 * sh + 2
            * sh,
{
    capture_args::fitted_size_stays_inside(sw as int, sh as int, mw as int, mh as int);
    if sw * mh > sh * mw {
        lemma_side_is_near(mw as int, sh as int, sw as int, r.1 as int);
    } else {
        lemma_side_is_near(mh as int, sw as int, sh as int, r.0 as int);
    }
}

/// A rounded and evened side is near the exact one.
proof fn lemma_side_is_near(side: int, part: int, whole: int, r: int)
    requires
        side > 0,
        part > 0,
        whole > 0,
        r == crate::config::even_at_least(capture_args::nearest(side * part, whole), 2),
    ensures
        r * whole <= side * part + 2 * whole,
        side * part <= r * whole + 2 * whole,
{
    let n = capture_args::nearest(side * part, whole);
    assert(side * part > 0) by (nonlinear_arith)
        requires
            side > 0,
            part > 0,
    ;
    let exact = side * part;
    assert(2 * (n * whole) <= 2 * exact + whole && 2 * exact < 2 * (n * whole) + 2 * whole && n >= 0)
        by (nonlinear_arith)
        requires
            n == (exact + whole / 2) / whole,
            whole > 0,
            exact > 0,
    ;
    assert(2 * exact <= 2 * (n * whole) + whole + 1) by (nonlinear_arith)
        requires
            n == (exact + whole / 2) / whole,
            whole > 0,
            exact > 0,
    ;
    assert(n - 1 <= r <= n || r == 2 && n < 2);
    if n >= 2 {
        assert(r * whole <= n * whole && n * whole <= r * whole + whole) by (nonlinear_arith)
            requires
                n - 1 <= r <= n,
                whole > 0,
        ;
    } else {
        assert(n * whole <= whole) by (nonlinear_arith)
            requires
                n <= 1,
                whole > 0,
        ;
        assert(r * whole == 2 * whole);
    }
}

/// `w` and `h` write a size that fits the way the frame is filled: the frame's own, or that
/// of the display scaled into it.
pub open spec fn writes_size(w: Seq<char>, h: Seq<char>, size: (u32, u32)) -> bool {
    reading::writes(w, size.0 as int) && reading::writes(h, size.1 as int)
}

/// The size that the picture is scaled to.
pub open spec fn filled_size(mode: VideoAspectRatio, fitted: (u32, u32), frame: (u32, u32)) -> (
    u32,
    u32,
) {
    if mode == VideoAspectRatio::Game {
        fitted
    } else {
        frame
    }
}

/// Stretching scales to the frame whatever the proportions. Fitting scales down into it and
/// adds bars around, cropping scales beyond it and cuts the rest. Keeping the display's
/// proportions scales to what fits into the frame.
pub proof fn frames_are_filled_as_chosen(
    mode: VideoAspectRatio,
    monitor: MonitorInfo,
    width: u32,
    height: u32,
    fitted: (u32, u32),
    r: String,
)
    requires
        call_ensures(capture_args::video_filter, (mode, &monitor, width, height), r),
        call_ensures(
            capture_args::fit_inside,
            (monitor.width, monitor.height, width, height),
            fitted,
        ),
    ensures
        exists|w: Seq<char>, h: Seq<char>| #[trigger]
            writes_size(w, h, filled_size(mode, fitted, (width, height))) && r@ == "scale="@ + w + ":"@ + h + (match mode {
                VideoAspectRatio::Fit16By9 => ":force_original_aspect_ratio=decrease,pad="@ + w
                    + ":"@ + h + ":(ow-iw)/2:(oh-ih)/2:black"@,
                VideoAspectRatio::Crop16By9 => ":force_original_aspect_ratio=increase,crop="@ + w
                    + ":"@ + h,
                _ => Seq::empty(),
            }) + ",setsar=1"@,
{
    let size = filled_size(mode, fitted, (width, height));
    let w = text::decimal(size.0 as nat);
    let h = text::decimal(size.1 as nat);
    reading::lemma_decimal_writes(size.0 as nat);
    reading::lemma_decimal_writes(size.1 as nat);
    assert(writes_size(w, h, size));
    let middle = match mode {
        VideoAspectRatio::Fit16By9 => ":force_original_aspect_ratio=decrease,pad="@ + w + ":"@ + h
            + ":(ow-iw)/2:(oh-ih)/2:black"@,
        VideoAspectRatio::Crop16By9 => ":force_original_aspect_ratio=increase,crop="@ + w + ":"@
            + h,
        _ => Seq::empty(),
    };
    reveal_strlit(":(ow-iw)/2:(oh-ih)/2:black,setsar=1");
    reveal_strlit(":(ow-iw)/2:(oh-ih)/2:black");
    reveal_strlit(",setsar=1");
    assert(":(ow-iw)/2:(oh-ih)/2:black,setsar=1"@ =~= ":(ow-iw)/2:(oh-ih)/2:black"@ + ",setsar=1"@);
    assert(r@ =~= "scale="@ + w + ":"@ + h + middle + ",setsar=1"@);
}

/// The picture that Desktop Duplication gives is brought into memory first, filled into the
/// frame in the same four ways, and handed on in the encoder's format.
pub proof fn duplicated_frames_are_filled_as_chosen(
    mode: VideoAspectRatio,
    monitor: MonitorInfo,
    width: u32,
    height: u32,
    fitted: (u32, u32),
    r: String,
)
    requires
        call_ensures(capture_args::dda_software_filter, (mode, &monitor, width, height), r),
        call_ensures(
            capture_args::fit_inside,
            (monitor.width, monitor.height, width, height),
            fitted,
        ),
    ensures
        exists|w: Seq<char>, h: Seq<char>| #[trigger]
            writes_size(w, h, filled_size(mode, fitted, (width, height))) && r@ == "hwdownload,format=bgra,"@ + (match mode {
                VideoAspectRatio::Fit16By9 => "scale="@ + (w + ":"@ + h)
                    + ":force_original_aspect_ratio=decrease:flags=fast_bilinear,pad="@ + (w
                    + ":"@ + h) + ":(ow-iw)/2:(oh-ih)/2:black,setsar=1"@,
                VideoAspectRatio::Crop16By9 => "scale="@ + (w + ":"@ + h)
                    + ":force_original_aspect_ratio=increase:flags=fast_bilinear,crop="@ + (w
                    + ":"@ + h) + ",setsar=1"@,
                _ => "scale="@ + (w + ":"@ + h) + ":flags=fast_bilinear,setsar=1"@,
            }) + ",format=nv12"@,
{
    let size = filled_size(mode, fitted, (width, height));
    let w = text::decimal(size.0 as nat);
    let h = text::decimal(size.1 as nat);
    reading::lemma_decimal_writes(size.0 as nat);
    reading::lemma_decimal_writes(size.1 as nat);
    assert(writes_size(w, h, size));
}

/// Desktop Duplication is used on Windows only, with NVIDIA's encoder only, and not where a
/// drawn cursor has to be drawn the compatible way.
pub proof fn duplication_is_used_where_it_works(host: HostSystem, config: AppConfig, r: bool)
    requires
        call_ensures(capture_args::uses_ddagrab, (host, &config), r),
    ensures
        host != HostSystem::Windows ==> !r,
        config.encoder != EncoderBackend::Nvidia ==> !r,
        config.capture_cursor && config.animated_cursor_compatibility ==> !r,
        host == HostSystem::Windows && config.encoder == EncoderBackend::Nvidia
            && !config.capture_cursor ==> r,
        host == HostSystem::Windows && config.encoder == EncoderBackend::Nvidia
            && !config.animated_cursor_compatibility ==> r,
{
}

/// The sources are the desktop and the microphone, in this order, each where it is switched
/// on and a device is chosen, with its own volume.
pub proof fn sources_are_those_switched_on(config: AppConfig, r: Vec<AudioSource>)
    requires
        call_ensures(capture_args::audio_sources, (&config,), r),
    ensures
        ({
            let desktop = config.desktop_audio_enabled && config.desktop_audio_device is Some;
            let voice = config.microphone_enabled && config.microphone_device is Some;
            &&& r@.len() == (if desktop {
                1int
            } else {
                0
            }) + (if voice {
                1int
            } else {
                0
            })
            &&& desktop ==> r@[0].kind == AudioSourceKind::Desktop && r@[0].device@
                == config.desktop_audio_device.unwrap()@ && r@[0].volume_percent
                == config.desktop_audio_volume_percent
            &&& voice ==> r@.last().kind == AudioSourceKind::Microphone && r@.last().device@
                == config.microphone_device.unwrap()@ && r@.last().volume_percent
                == config.microphone_volume_percent
        }),
{
    let v = capture_args::sources_view(r@);
    assert(v.len() == r@.len());
    let desktop = config.desktop_audio_enabled && config.desktop_audio_device is Some;
    let voice = config.microphone_enabled && config.microphone_device is Some;
    if desktop {
        assert(v[0] == r@[0]@);
    }
    if voice {
        assert(v[v.len() - 1] == r@[r@.len() - 1]@);
    }
}

/// The ten arguments that open a source: sound that is played comes over the relay, from its
/// own port; everything else comes from the device of that name.
pub open spec fn opens(args: Seq<Seq<char>>, source: AudioSource, port: Option<u16>, number: Seq<char>) -> bool {
    let relayed = source.kind == AudioSourceKind::Desktop && text::starts_with(
        source.device@,
        "wasapi-render:"@,
    );
    &&& args.len() == 10
    &&& reading::writes(
        number,
        if port is Some {
            port.unwrap() as int
        } else {
            0
        },
    )
    &&& args[8] == "-i"@
    &&& relayed ==> args[9] == "tcp://127.0.0.1:"@ + number && args.take(8) == seq![
        "-thread_queue_size"@,
        "1024"@,
        "-f"@,
        "f32le"@,
        "-ar"@,
        "48000"@,
        "-ac"@,
        "2"@,
    ]
    &&& !relayed ==> args[9] == "audio="@ + source.device@ && reading::gives(
        args,
        "-f"@,
        "dshow"@,
    ) && reading::gives(args, "-use_wallclock_as_timestamps"@, "1"@)
}

/// One source is opened as `opens` says.
proof fn lemma_opens(source: AudioSource, port: Option<u16>) -> (number: Seq<char>)
    ensures
        opens(capture_args::audio_input(source@, port), source, port, number),
{
    let n = if port is Some {
        port.unwrap() as nat
    } else {
        0
    };
    reading::lemma_decimal_writes(n);
    let args = capture_args::audio_input(source@, port);
    let relayed = source.kind == AudioSourceKind::Desktop && text::starts_with(
        source.device@,
        "wasapi-render:"@,
    );
    if relayed {
        assert(args.take(8) =~= seq![
            "-thread_queue_size"@,
            "1024"@,
            "-f"@,
            "f32le"@,
            "-ar"@,
            "48000"@,
            "-ac"@,
            "2"@,
        ]);
    } else {
        assert(args[4] == "-f"@ && args[5] == "dshow"@);
        assert(args[2] == "-use_wallclock_as_timestamps"@ && args[3] == "1"@);
    }
    text::decimal(n)
}

/// Sources are opened where they are asked for, behind what was said before.
pub proof fn sources_are_opened_by_their_device(
    args: &mut Vec<String>,
    source: AudioSource,
    port: Option<u16>,
)
    requires
        call_ensures(capture_args::append_audio_input_args, (args, &source, port), ()),
    ensures
        final(args).deep_view().take(old(args)@.len() as int) == old(args).deep_view(),
        exists|number: Seq<char>| #[trigger]
            opens(final(args).deep_view().skip(old(args)@.len() as int), source, port, number),
{
    let n = old(args)@.len() as int;
    assert(old(args).deep_view().len() == n);
    let all = final(args).deep_view();
    assert(all.take(n) =~= old(args).deep_view());
    assert(all.skip(n) =~= capture_args::audio_input(source@, port));
    let number = lemma_opens(source, port);
}

/// The blocks one after the other.
spec fn laid_out(blocks: Seq<Seq<Seq<char>>>) -> Seq<Seq<char>>
    decreases blocks.len(),
{
    if blocks.len() == 0 {
        Seq::empty()
    } else {
        laid_out(blocks.drop_last()) + blocks.last()
    }
}

/// Blocks of ten stand ten apart.
proof fn lemma_laid_out(blocks: Seq<Seq<Seq<char>>>, k: int)
    requires
        0 <= k < blocks.len(),
        forall|i: int| 0 <= i < blocks.len() ==> (#[trigger] blocks[i]).len() == 10,
    ensures
        laid_out(blocks).len() == 10 * blocks.len(),
        laid_out(blocks).subrange(10 * k, 10 * k + 10) == blocks[k],
    decreases blocks.len(),
{
    let front = blocks.drop_last();
    let last = blocks.last();
    assert(blocks[blocks.len() - 1].len() == 10);
    assert forall|i: int| 0 <= i < front.len() implies (#[trigger] front[i]).len() == 10 by {
        assert(front[i] == blocks[i]);
    }
    if front.len() > 0 {
        lemma_laid_out(front, if k < front.len() { k } else { 0 });
    } else {
        assert(laid_out(front).len() == 0);
    }
    if k < front.len() {
        assert(front[k] == blocks[k]);
        lemma_in_front(laid_out(front), last, 10 * k, 10 * k + 10);
    } else {
        lemma_behind(laid_out(front), last);
    }
}

/// What opens the sources, source by source.
spec fn openings(sources: Seq<AudioSource>, port: Option<u16>) -> Seq<Seq<Seq<char>>> {
    Seq::new(sources.len(), |i: int| capture_args::audio_input(sources[i]@, port))
}

/// The sources are opened one after the other.
proof fn lemma_openings(sources: Seq<AudioSource>, port: Option<u16>)
    ensures
        capture_args::audio_inputs(capture_args::sources_view(sources), port) == laid_out(
            openings(sources, port),
        ),
    decreases sources.len(),
{
    let views = capture_args::sources_view(sources);
    if sources.len() > 0 {
        let front = sources.drop_last();
        lemma_openings(front, port);
        assert(views.drop_last() =~= capture_args::sources_view(front));
        assert(views.last() == sources.last()@);
        assert(openings(sources, port).drop_last() =~= openings(front, port));
    }
}

/// The sources are opened one after the other, ten arguments each.
proof fn lemma_inputs(sources: Seq<AudioSource>, port: Option<u16>, k: int)
    requires
        0 <= k < sources.len(),
    ensures
        capture_args::audio_inputs(capture_args::sources_view(sources), port).len() == 10
            * sources.len(),
        capture_args::audio_inputs(capture_args::sources_view(sources), port).subrange(
            10 * k,
            10 * k + 10,
        ) == capture_args::audio_input(sources[k]@, port),
{
    let blocks = openings(sources, port);
    lemma_openings(sources, port);
    assert forall|i: int| 0 <= i < blocks.len() implies (#[trigger] blocks[i]).len() == 10 by {
        lemma_input_len(sources[i], port);
    }
    lemma_laid_out(blocks, k);
}

/// Ten arguments open a source.
proof fn lemma_input_len(source: AudioSource, port: Option<u16>)
    ensures
        capture_args::audio_input(source@, port).len() == 10,
{
}

/// What stands in front stays where it is.
proof fn lemma_in_front(front: Seq<Seq<char>>, back: Seq<Seq<char>>, from: int, to: int)
    requires
        0 <= from <= to <= front.len(),
    ensures
        (front + back).subrange(from, to) == front.subrange(from, to),
{
    assert((front + back).subrange(from, to) =~= front.subrange(from, to));
}

/// What is appended stands behind.
proof fn lemma_behind(front: Seq<Seq<char>>, back: Seq<Seq<char>>)
    ensures
        (front + back).subrange(front.len() as int, front.len() as int + back.len()) == back,
{
    assert((front + back).subrange(front.len() as int, front.len() as int + back.len()) =~= back);
}

/// Where the arguments for the display end.
pub open spec fn display_end(duplicated: bool) -> int {
    if duplicated {
        11
    } else {
        23
    }
}

/// The parts that a recording's arguments are made of.
proof fn lemma_parts(
    host: HostSystem,
    config: AppConfig,
    monitor: MonitorInfo,
    output: &str,
    port: Option<u16>,
    r: Vec<String>,
    sources: Vec<AudioSource>,
    duplicated: bool,
)
    requires
        call_ensures(
            capture_args::capture_args_with_loopback,
            (host, &config, &monitor, output, port),
            r,
        ),
        call_ensures(capture_args::audio_sources, (&config,), sources),
        call_ensures(capture_args::uses_ddagrab, (host, &config), duplicated),
    ensures
        ({
            let all = r.deep_view();
            let views = capture_args::sources_view(sources@);
            let inputs = capture_args::audio_inputs(views, port);
            let v = display_end(duplicated);
            let a = v + inputs.len();
            let transform = capture_args::video_transform(host, config, monitor);
            let encoding = capture_args::video_encoding(host, config);
            let sound = capture_args::audio_output(config, views);
            let segments = capture_args::segment_args(config, output@);
            let t = a + transform.len();
            let e = t + encoding.len();
            let o = e + sound.len();
            &&& views == capture_args::desktop_source(config) + capture_args::microphone_source(config)
            &&& inputs.len() == 10 * sources@.len()
            &&& duplicated == capture_args::dda_used(host, config)
            &&& capture_args::video_input(host, config, monitor).len() == v - 7
            &&& all.take(7) == capture_args::recording_head()
            &&& all.subrange(7, v) == capture_args::video_input(host, config, monitor)
            &&& all.subrange(v, a) == inputs
            &&& all.subrange(a, t) == transform
            &&& all.subrange(t, e) == encoding
            &&& all.subrange(e, o) == sound
            &&& all.len() == o + 21
            &&& all.skip(all.len() - 21) == segments
        }),
{
    let all = r.deep_view();
    let views = capture_args::sources_view(sources@);
    let inputs = capture_args::audio_inputs(views, port);
    let v = display_end(duplicated);
    let a = v + inputs.len();
    let input = capture_args::video_input(host, config, monitor);
    let transform = capture_args::video_transform(host, config, monitor);
    let encoding = capture_args::video_encoding(host, config);
    let sound = capture_args::audio_output(config, views);
    let segments = capture_args::segment_args(config, output@);
    let t = a + transform.len();
    let e = t + encoding.len();
    let o = e + sound.len();
    if sources@.len() > 0 {
        lemma_inputs(sources@, port, 0);
    } else {
        assert(inputs =~= Seq::empty());
    }
    let head = capture_args::recording_head();
    assert(all == head + input + inputs + transform + encoding + sound + segments);
    assert(head.len() == 7 && input.len() == v - 7);
    assert(segments.len() == 21);
    assert(all.take(7) =~= head);
    assert(all.subrange(7, v) =~= input);
    assert(all.subrange(v, a) =~= inputs);
    assert(all.subrange(a, t) =~= transform);
    assert(all.subrange(t, e) =~= encoding);
    assert(all.subrange(e, o) =~= sound);
    assert(all.skip(all.len() - 21) =~= segments);
}

/// What FFmpeg is told to read of the display: the one chosen, at the frame rate of the
/// settings, with the cursor where it is wanted. Desktop Duplication finds the display by its
/// number, otherwise it is cut out of the desktop by its place and size.
pub open spec fn reads_display(
    args: Seq<Seq<char>>,
    config: AppConfig,
    monitor: MonitorInfo,
    duplicated: bool,
    index: Seq<char>,
    rate: Seq<char>,
    w: Seq<char>,
    h: Seq<char>,
) -> bool {
    let cursor = if config.capture_cursor {
        "1"@
    } else {
        "0"@
    };
    &&& reading::writes(index, monitor.output_index as int)
    &&& reading::writes(rate, config.frame_rate as int)
    &&& writes_size(w, h, (monitor.width, monitor.height))
    &&& duplicated ==> args == seq![
        "-f"@,
        "lavfi"@,
        "-i"@,
        "ddagrab=output_idx="@ + index + ":framerate="@ + rate + ":draw_mouse="@ + cursor
            + ":dup_frames=1"@,
    ]
    &&& !duplicated ==> {
        &&& args.take(2) == seq!["-thread_queue_size"@, "1024"@]
        &&& args.subrange(2, 8) == seq![
            "-f"@,
            "gdigrab"@,
            "-framerate"@,
            rate,
            "-draw_mouse"@,
            cursor,
        ]
        &&& args[8] == "-offset_x"@ && writes_signed(args[9], monitor.x as int)
        &&& args[10] == "-offset_y"@ && writes_signed(args[11], monitor.y as int)
        &&& args.skip(12) == seq!["-video_size"@, w + "x"@ + h, "-i"@, "desktop"@]
    }
}

/// The text is `n`, with a minus sign where it is negative.
pub open spec fn writes_signed(s: Seq<char>, n: int) -> bool {
    if n < 0 {
        s.len() > 0 && s[0] == '-' && reading::writes(s.skip(1), -n)
    } else {
        reading::writes(s, n)
    }
}

/// A signed number is written with its sign.
proof fn lemma_signed_writes(n: int)
    ensures
        writes_signed(text::signed_decimal(n), n),
{
    if n < 0 {
        reading::lemma_decimal_writes((-n) as nat);
        let s = text::signed_decimal(n);
        assert(s.skip(1) =~= text::decimal((-n) as nat));
    } else {
        reading::lemma_decimal_writes(n as nat);
    }
}

/// The display is read as `reads_display` says.
proof fn lemma_reads_display(host: HostSystem, config: AppConfig, monitor: MonitorInfo)
    ensures
        exists|index: Seq<char>, rate: Seq<char>, w: Seq<char>, h: Seq<char>| #[trigger]
            reads_display(
                capture_args::video_input(host, config, monitor),
                config,
                monitor,
                capture_args::dda_used(host, config),
                index,
                rate,
                w,
                h,
            ),
{
    let duplicated = capture_args::dda_used(host, config);
    let index = text::decimal(monitor.output_index as nat);
    let rate = text::decimal(config.frame_rate as nat);
    let w = text::decimal(monitor.width as nat);
    let h = text::decimal(monitor.height as nat);
    reading::lemma_decimal_writes(monitor.output_index as nat);
    reading::lemma_decimal_writes(config.frame_rate as nat);
    reading::lemma_decimal_writes(monitor.width as nat);
    reading::lemma_decimal_writes(monitor.height as nat);
    lemma_signed_writes(monitor.x as int);
    lemma_signed_writes(monitor.y as int);
    let input = capture_args::video_input(host, config, monitor);
    if !duplicated {
        assert(input.take(2) =~= seq!["-thread_queue_size"@, "1024"@]);
        assert(input.subrange(2, 8) =~= seq![
            "-f"@,
            "gdigrab"@,
            "-framerate"@,
            rate,
            "-draw_mouse"@,
            capture_args::switch_text(config.capture_cursor),
        ]);
        assert(input.skip(12) =~= seq!["-video_size"@, w + "x"@ + h, "-i"@, "desktop"@]);
    }
    assert(reads_display(input, config, monitor, duplicated, index, rate, w, h));
}

/// A recording reads the display as its first input and each source as one more, in order.
pub proof fn recordings_read_the_display_and_the_sources(
    host: HostSystem,
    config: AppConfig,
    monitor: MonitorInfo,
    output: &str,
    port: Option<u16>,
    r: Vec<String>,
    sources: Vec<AudioSource>,
    duplicated: bool,
    k: int,
)
    requires
        call_ensures(
            capture_args::capture_args_with_loopback,
            (host, &config, &monitor, output, port),
            r,
        ),
        call_ensures(capture_args::audio_sources, (&config,), sources),
        call_ensures(capture_args::uses_ddagrab, (host, &config), duplicated),
    ensures
        ({
            let all = r.deep_view();
            let v = display_end(duplicated);
            &&& all.len() >= v + 10 * sources@.len()
            &&& all.contains("-y"@)
            &&& exists|index: Seq<char>, rate: Seq<char>, w: Seq<char>, h: Seq<char>| #[trigger]
                reads_display(all.subrange(7, v), config, monitor, duplicated, index, rate, w, h)
            &&& 0 <= k < sources@.len() ==> exists|number: Seq<char>| #[trigger]
                opens(all.subrange(v + 10 * k, v + 10 * k + 10), sources@[k], port, number)
        }),
{
    lemma_parts(host, config, monitor, output, port, r, sources, duplicated);
    let all = r.deep_view();
    let v = display_end(duplicated);
    lemma_reads_display(host, config, monitor);
    assert(all.take(7)[6] == "-y"@);
    assert(all[6] == "-y"@);
    if 0 <= k < sources@.len() {
        lemma_inputs(sources@, port, k);
        let views = capture_args::sources_view(sources@);
        let inputs = capture_args::audio_inputs(views, port);
        assert(all.subrange(v + 10 * k, v + 10 * k + 10) =~= all.subrange(
            v,
            v + inputs.len(),
        ).subrange(10 * k, 10 * k + 10));
        let number = lemma_opens(sources@[k], port);
    }
}

/// FFmpeg's name of an encoder: the format, and what encodes it.
pub open spec fn is_encoder_name(name: Seq<char>, backend: EncoderBackend, codec: VideoCodec) -> bool {
    let hardware = match codec {
        VideoCodec::H264 => "h264"@,
        VideoCodec::H265 => "hevc"@,
    };
    match backend {
        EncoderBackend::Nvidia => name == hardware + "_nvenc"@,
        EncoderBackend::Amd => name == hardware + "_amf"@,
        EncoderBackend::Intel => name == hardware + "_qsv"@,
        _ => name == "libx"@ + match codec {
            VideoCodec::H264 => "264"@,
            VideoCodec::H265 => "265"@,
        },
    }
}

/// Encoders go by their names.
proof fn lemma_encoder_names(backend: EncoderBackend, codec: VideoCodec)
    ensures
        is_encoder_name(capture_args::encoder_name(backend, codec), backend, codec),
{
    reveal_strlit("h264");
    reveal_strlit("hevc");
    reveal_strlit("_nvenc");
    reveal_strlit("_amf");
    reveal_strlit("_qsv");
    reveal_strlit("libx");
    reveal_strlit("264");
    reveal_strlit("265");
    reveal_strlit("libx264");
    reveal_strlit("libx265");
    reveal_strlit("h264_nvenc");
    reveal_strlit("hevc_nvenc");
    reveal_strlit("h264_amf");
    reveal_strlit("hevc_amf");
    reveal_strlit("h264_qsv");
    reveal_strlit("hevc_qsv");
    assert("h264"@ + "_nvenc"@ =~= "h264_nvenc"@);
    assert("hevc"@ + "_nvenc"@ =~= "hevc_nvenc"@);
    assert("h264"@ + "_amf"@ =~= "h264_amf"@);
    assert("hevc"@ + "_amf"@ =~= "hevc_amf"@);
    assert("h264"@ + "_qsv"@ =~= "h264_qsv"@);
    assert("hevc"@ + "_qsv"@ =~= "hevc_qsv"@);
    assert("libx"@ + "264"@ =~= "libx264"@);
    assert("libx"@ + "265"@ =~= "libx265"@);
}

/// Behind its inputs, a recording fills the frame as chosen, unless Desktop Duplication gives
/// the frame as it is; encodes it with the chosen encoder and codec; and records the sound as
/// the sources ask.
#[verifier::rlimit(60)]
pub proof fn recordings_are_encoded_as_chosen(
    host: HostSystem,
    config: AppConfig,
    monitor: MonitorInfo,
    output: &str,
    port: Option<u16>,
    r: Vec<String>,
    sources: Vec<AudioSource>,
    duplicated: bool,
    size: (u32, u32),
    filter: String,
    copied: String,
    sound: &mut Vec<String>,
)
    requires
        call_ensures(
            capture_args::capture_args_with_loopback,
            (host, &config, &monitor, output, port),
            r,
        ),
        call_ensures(capture_args::audio_sources, (&config,), sources),
        call_ensures(capture_args::uses_ddagrab, (host, &config), duplicated),
        call_ensures(crate::config::even_size, (config.output_width, 640), size.0),
        call_ensures(crate::config::even_size, (config.output_height, 360), size.1),
        call_ensures(
            capture_args::video_filter,
            (config.video_aspect_ratio, &monitor, size.0, size.1),
            filter,
        ),
        call_ensures(
            capture_args::dda_software_filter,
            (config.video_aspect_ratio, &monitor, size.0, size.1),
            copied,
        ),
        old(sound)@.len() == 0,
        call_ensures(capture_args::append_audio_output_args, (sound, &config, &sources), ()),
    ensures
        ({
            let all = r.deep_view();
            let a = display_end(duplicated) + 10 * sources@.len();
            let direct = duplicated && (config.video_aspect_ratio == VideoAspectRatio::Stretch16By9
                || config.video_aspect_ratio == VideoAspectRatio::Game) && size.0 == monitor.width
                && size.1 == monitor.height;
            let t = if direct {
                a
            } else {
                a + 2
            };
            let o = all.len() - 21;
            &&& !direct ==> all[a] == "-vf"@ && all[a + 1] == if duplicated {
                copied@
            } else {
                filter@
            }
            &&& all[t] == "-c:v"@
            &&& is_encoder_name(all[t + 1], config.encoder, config.video_codec)
            &&& !duplicated ==> all[t + 2] == "-pix_fmt"@ && all[t + 3] == "yuv420p"@
            &&& config.encoder == EncoderBackend::Amd ==> all[t + 4] == "-quality"@ && all[t + 5]
                == "speed"@
            &&& config.encoder != EncoderBackend::Amd && config.encoder != EncoderBackend::Nvidia
                ==> all[t + 4] == "-preset"@ && all[t + 5] == "veryfast"@
            &&& config.encoder == EncoderBackend::Nvidia ==> reading::gives(all, "-rc"@, "cbr"@)
                && reading::gives(all, "-preset"@, "p2"@) && reading::gives(
                all,
                "-tune"@,
                "ll"@,
            )
            &&& all.subrange(o - final(sound)@.len(), o) == final(sound).deep_view()
            &&& o - final(sound)@.len() == t + 2 + (if duplicated {
                0int
            } else {
                2
            }) + (if config.encoder == EncoderBackend::Nvidia {
                18int
            } else {
                2
            })
        }),
{
    lemma_parts(host, config, monitor, output, port, r, sources, duplicated);
    lemma_encoder_names(config.encoder, config.video_codec);
    let all = r.deep_view();
    let a = display_end(duplicated) + 10 * sources@.len();
    let transform = capture_args::video_transform(host, config, monitor);
    let encoding = capture_args::video_encoding(host, config);
    let t = a + transform.len();
    let e = t + encoding.len();
    assert(old(sound).deep_view().len() == 0);
    assert(final(sound).deep_view().len() == final(sound)@.len());
    let views = capture_args::sources_view(sources@);
    assert(final(sound).deep_view() =~= capture_args::audio_output(config, views));
    lemma_encoding(host, config);
    if transform.len() > 0 {
        lemma_at(all, transform, a, 0);
        lemma_at(all, transform, a, 1);
    }
    lemma_at(all, encoding, t, 0);
    lemma_at(all, encoding, t, 1);
    lemma_at(all, encoding, t, 2);
    lemma_at(all, encoding, t, 3);
    if !duplicated {
        lemma_at(all, encoding, t, 4);
        lemma_at(all, encoding, t, 5);
    }
    assert(reading::holds_at(all, encoding, t));
    if config.encoder == EncoderBackend::Nvidia {
        reading::lemma_part_gives(all, encoding, t, "-preset"@, "p2"@);
        reading::lemma_part_gives(all, encoding, t, "-tune"@, "ll"@);
        reading::lemma_part_gives(all, encoding, t, "-rc"@, "cbr"@);
    }
}

/// An argument of a part stands where the part does.
proof fn lemma_at(all: Seq<Seq<char>>, part: Seq<Seq<char>>, from: int, i: int)
    requires
        0 <= from <= all.len() - part.len(),
        all.subrange(from, from + part.len()) == part,
        0 <= i < part.len(),
    ensures
        all[from + i] == part[i],
{
    assert(all.subrange(from, from + part.len())[i] == all[from + i]);
}

/// What the encoder is told, argument by argument.
proof fn lemma_encoding(host: HostSystem, config: AppConfig)
    ensures
        ({
            let encoding = capture_args::video_encoding(host, config);
            let d = capture_args::dda_used(host, config);
            let skip: int = if d {
                0
            } else {
                2
            };
            &&& encoding[0] == "-c:v"@
            &&& encoding[1] == capture_args::encoder_name(config.encoder, config.video_codec)
            &&& !d ==> encoding[2] == "-pix_fmt"@ && encoding[3] == "yuv420p"@
            &&& encoding.len() == 2 + skip + (if config.encoder == EncoderBackend::Nvidia {
                18int
            } else {
                2
            })
            &&& config.encoder == EncoderBackend::Amd ==> encoding[2 + skip] == "-quality"@
                && encoding[3 + skip] == "speed"@
            &&& config.encoder != EncoderBackend::Amd && config.encoder != EncoderBackend::Nvidia
                ==> encoding[2 + skip] == "-preset"@ && encoding[3 + skip] == "veryfast"@
            &&& config.encoder == EncoderBackend::Nvidia ==> reading::gives(
                encoding,
                "-preset"@,
                "p2"@,
            ) && reading::gives(encoding, "-tune"@, "ll"@) && reading::gives(
                encoding,
                "-rc"@,
                "cbr"@,
            )
        }),
{
    let encoding = capture_args::video_encoding(host, config);
    let skip: int = if capture_args::dda_used(host, config) {
        0
    } else {
        2
    };
    if config.encoder == EncoderBackend::Nvidia {
        assert(encoding[2 + skip] == "-preset"@ && encoding[3 + skip] == "p2"@);
        assert(encoding[4 + skip] == "-tune"@ && encoding[5 + skip] == "ll"@);
        assert(encoding[6 + skip] == "-rc"@ && encoding[7 + skip] == "cbr"@);
        assert(encoding[2 + skip + 1] == "p2"@);
        assert(encoding[4 + skip + 1] == "ll"@);
        assert(encoding[6 + skip + 1] == "cbr"@);
    }
}

/// The numbers by which a recording is cut into segments.
pub open spec fn cuts_segments(
    args: Seq<Seq<char>>,
    config: AppConfig,
    output: Seq<char>,
    seconds: u32,
    rate: Seq<char>,
    double: Seq<char>,
    group: Seq<char>,
    length: Seq<char>,
    wrap: Seq<char>,
    kept: int,
) -> bool {
    &&& reading::writes(rate, config.video_bitrate_mbps as int)
    &&& config.video_bitrate_mbps < 0x8000_0000 ==> reading::writes(
        double,
        2 * config.video_bitrate_mbps,
    )
    &&& config.frame_rate * config.segment_seconds <= u32::MAX ==> reading::writes(
        group,
        config.frame_rate * config.segment_seconds,
    )
    &&& reading::writes(length, config.segment_seconds as int)
    &&& reading::writes(wrap, kept + 3)
    &&& kept * config.segment_seconds >= seconds
    &&& (kept - 1) * config.segment_seconds < seconds
    &&& args == seq![
        "-b:v"@,
        rate + "M"@,
        "-maxrate"@,
        rate + "M"@,
        "-bufsize"@,
        double + "M"@,
        "-g"@,
        group,
        "-fps_mode"@,
        "cfr"@,
        "-force_key_frames"@,
        "expr:gte(t,n_forced*"@ + length + ")"@,
        "-f"@,
        "segment"@,
        "-segment_time"@,
        length,
        "-segment_wrap"@,
        wrap,
        "-reset_timestamps"@,
        "1"@,
        output,
    ]
}

/// A recording ends in segments of the length that the settings give, at their bitrate and
/// with a key frame at the start of each. As many are kept as hold the longest clip, none
/// more than needed, and three beside them.
pub proof fn recordings_are_cut_into_segments(
    host: HostSystem,
    config: AppConfig,
    monitor: MonitorInfo,
    output: &str,
    port: Option<u16>,
    r: Vec<String>,
    sources: Vec<AudioSource>,
    duplicated: bool,
    seconds: u32,
)
    requires
        call_ensures(
            capture_args::capture_args_with_loopback,
            (host, &config, &monitor, output, port),
            r,
        ),
        call_ensures(capture_args::audio_sources, (&config,), sources),
        call_ensures(capture_args::uses_ddagrab, (host, &config), duplicated),
        call_ensures(AppConfig::max_buffer_seconds, (&config,), seconds),
        config.segment_seconds > 0,
    ensures
        r@.len() >= 21,
        exists|
            rate: Seq<char>,
            double: Seq<char>,
            group: Seq<char>,
            length: Seq<char>,
            wrap: Seq<char>,
            kept: int,
        | #[trigger]
            cuts_segments(
                r.deep_view().skip(r@.len() - 21),
                config,
                output@,
                seconds,
                rate,
                double,
                group,
                length,
                wrap,
                kept,
            ),
{
    lemma_parts(host, config, monitor, output, port, r, sources, duplicated);
    assert(r.deep_view().len() == r@.len());
    let rate = text::decimal(config.video_bitrate_mbps as nat);
    let twice = capture_args::saturated(config.video_bitrate_mbps * 2);
    let frames = capture_args::saturated(config.frame_rate * config.segment_seconds);
    let kept = capture_args::pieces_for(seconds as int, config.segment_seconds as int);
    reading::lemma_decimal_writes(config.video_bitrate_mbps as nat);
    reading::lemma_decimal_writes(twice);
    reading::lemma_decimal_writes(frames);
    reading::lemma_decimal_writes(config.segment_seconds as nat);
    capture_args::lemma_pieces_hold(seconds as int, config.segment_seconds as int);
    assert(kept >= 0) by (nonlinear_arith)
        requires
            kept * config.segment_seconds >= seconds,
            seconds >= 0,
            config.segment_seconds > 0,
    ;
    assert((kept - 1) * config.segment_seconds == kept * config.segment_seconds
        - config.segment_seconds) by (nonlinear_arith);
    assert(0 <= config.frame_rate * config.segment_seconds) by (nonlinear_arith)
        requires
            0 <= config.frame_rate,
            0 <= config.segment_seconds,
    ;
    reading::lemma_decimal_writes((kept + 3) as nat);
    let segments = capture_args::segment_args(config, output@);
    assert(cuts_segments(
        segments,
        config,
        output@,
        seconds,
        rate,
        text::decimal(twice),
        text::decimal(frames),
        text::decimal(config.segment_seconds as nat),
        text::decimal((kept + 3) as nat),
        kept,
    ));
}

/// Without a relay a recording is that with no port.
pub proof fn recordings_need_no_relay(
    host: HostSystem,
    config: AppConfig,
    monitor: MonitorInfo,
    output: &str,
    r: Vec<String>,
    s: Vec<String>,
)
    requires
        call_ensures(capture_args::capture_args, (host, &config, &monitor, output), r),
        call_ensures(
            capture_args::capture_args_with_loopback,
            (host, &config, &monitor, output, None),
            s,
        ),
    ensures
        r.deep_view() == s.deep_view(),
{
}

/// A backend is tried with its own encoder of the compatible format, and encodes one frame of
/// which nothing is kept; the automatic choice needs no trial.
pub proof fn backends_are_tried_with_their_encoder(
    backend: EncoderBackend,
    r: Option<&'static str>,
    args: Vec<String>,
)
    requires
        call_ensures(capture_args::probe_encoder, (backend,), r),
        r matches Some(name) ==> call_ensures(capture_args::probe_args, (name,), args),
    ensures
        r is None <==> backend == EncoderBackend::Auto,
        r matches Some(name) ==> is_encoder_name(name@, backend, VideoCodec::H264)
            && reading::gives(args.deep_view(), "-c:v"@, name@) && reading::gives(
            args.deep_view(),
            "-frames:v"@,
            "1"@,
        ) && reading::gives(args.deep_view(), "-f"@, "null"@) && reading::gives(
            args.deep_view(),
            "-i"@,
            "color=size=256x256:rate=1"@,
        ) && args.deep_view().last() == "-"@,
{
    lemma_encoder_names(backend, VideoCodec::H264);
    if let Some(name) = r {
        let all = args.deep_view();
        assert(all[10] == "-c:v"@ && all[11] == name@);
        assert(all[7] == "-frames:v"@ && all[8] == "1"@);
        assert(all[12] == "-f"@ && all[13] == "null"@);
        assert(all[5] == "-i"@ && all[6] == "color=size=256x256:rate=1"@);
    }
}

/// The whole seconds and the three digits behind them make up the milliseconds.
pub open spec fn writes_millis(whole: Seq<char>, part: Seq<char>, millis: int) -> bool {
    &&& reading::writes(whole, millis / 1000)
    &&& reading::writes_wide(part, millis % 1000, 3)
    &&& 1000 * reading::number(whole) + reading::number(part) == millis
}

/// Milliseconds are written as seconds with three decimals: read without the point, they are
/// the milliseconds.
pub proof fn seconds_read_back(millis: u64, r: String)
    requires
        call_ensures(capture_args::seconds_of, (millis,), r),
    ensures
        exists|whole: Seq<char>, part: Seq<char>|
            #![trigger writes_millis(whole, part, millis as int)]
            writes_millis(whole, part, millis as int) && r@ == whole + "."@ + part,
{
    let n = millis as nat;
    reading::lemma_decimal_writes(n / 1000);
    reveal_with_fuel(reading::ten_to, 4);
    reading::lemma_padded_writes(n % 1000, 3);
    let whole = text::decimal(n / 1000);
    let part = text::padded(n % 1000, 3);
    assert(writes_millis(whole, part, millis as int));
}

/// A cut names its beginning and its end, the clip and the new file, in this order; the
/// picture and what sound there is are kept.
pub proof fn cuts_name_their_ends(
    input: &str,
    output: &str,
    start: u64,
    end: u64,
    from: String,
    to: String,
    r: Vec<String>,
)
    requires
        call_ensures(capture_args::trim_args, (input, output, start, end), r),
        call_ensures(capture_args::seconds_of, (start,), from),
        call_ensures(capture_args::seconds_of, (end,), to),
    ensures
        reading::gives(r.deep_view(), "-ss"@, from@),
        reading::gives(r.deep_view(), "-to"@, to@),
        reading::gives(r.deep_view(), "-i"@, input@),
        reading::gives(r.deep_view(), "-map"@, "0:v:0"@),
        reading::gives(r.deep_view(), "-map"@, "0:a?"@),
        reading::gives(r.deep_view(), "-c:v"@, "libx264"@),
        reading::gives(r.deep_view(), "-c:a"@, "aac"@),
        reading::gives(r.deep_view(), "-crf"@, "18"@),
        reading::gives(r.deep_view(), "-pix_fmt"@, "yuv420p"@),
        r.deep_view().last() == output@,
        r.deep_view()[0] == "-y"@,
{
    let all = r.deep_view();
    assert(all[1] == "-ss"@ && all[2] == from@);
    assert(all[3] == "-to"@ && all[4] == to@);
    assert(all[5] == "-i"@ && all[6] == input@);
    assert(all[7] == "-map"@ && all[8] == "0:v:0"@);
    assert(all[9] == "-map"@ && all[10] == "0:a?"@);
    assert(all[11] == "-c:v"@ && all[12] == "libx264"@);
    assert(all[15] == "-crf"@ && all[16] == "18"@);
    assert(all[17] == "-pix_fmt"@ && all[18] == "yuv420p"@);
    assert(all[19] == "-c:a"@ && all[20] == "aac"@);
}

/// Segments are joined from the list, all of them and without encoding, into the file named.
pub proof fn joins_copy_what_is_listed(list: &str, output: &str, r: Vec<String>)
    requires
        call_ensures(capture_args::concat_args, (list, output), r),
    ensures
        reading::gives(r.deep_view(), "-f"@, "concat"@),
        reading::gives(r.deep_view(), "-i"@, list@),
        reading::gives(r.deep_view(), "-map"@, "0"@),
        reading::gives(r.deep_view(), "-c"@, "copy"@),
        reading::gives(r.deep_view(), "-safe"@, "0"@),
        r.deep_view().last() == output@,
        r.deep_view()[0] == "-y"@,
{
    let all = r.deep_view();
    assert(all[1] == "-f"@ && all[2] == "concat"@);
    assert(all[3] == "-safe"@ && all[4] == "0"@);
    assert(all[5] == "-i"@ && all[6] == list@);
    assert(all[7] == "-map"@ && all[8] == "0"@);
    assert(all[9] == "-c"@ && all[10] == "copy"@);
}

/// Devices are listed by DirectShow, and nothing is recorded.
pub proof fn devices_are_listed_by_directshow(r: Vec<String>)
    requires
        call_ensures(capture_args::device_listing_args, (), r),
    ensures
        reading::gives(r.deep_view(), "-list_devices"@, "true"@),
        reading::gives(r.deep_view(), "-f"@, "dshow"@),
        reading::gives(r.deep_view(), "-i"@, "dummy"@),
        r.deep_view().len() == 7,
{
    let all = r.deep_view();
    assert(all[1] == "-list_devices"@ && all[2] == "true"@);
    assert(all[3] == "-f"@ && all[4] == "dshow"@);
    assert(all[5] == "-i"@ && all[6] == "dummy"@);
}

} // verus!
