//! Which displays and audio devices there are, and which of them are used.

use vstd::prelude::*;

use crate::audio;
use crate::audio::AudioDevice;
use crate::display;
use crate::display::{MonitorInfo, RawMonitor};
use crate::laws::publishing;
use crate::laws::reading;
use crate::order;
use crate::services::bytes;
use crate::text;
use crate::views;
use crate::windows_audio;
use crate::windows_audio::{
    AcceptOutcome, AcceptStep, Endpoint, LoopbackReport, SoundQueue, WriteOutcome, WriteStep,
};

verus! {

/// `at` picks the displays, every one once: the primary one before the others, then those
/// further left, then those further up, and else in the order they had.
pub open spec fn picks_by_place(raw: Seq<RawMonitor>, at: Seq<usize>) -> bool {
    &&& at.len() == raw.len()
    &&& forall|i: int| 0 <= i < at.len() ==> (#[trigger] at[i]) < raw.len()
    &&& forall|i: int, j: int|
        0 <= i < j < at.len() ==> {
            let a = raw[#[trigger] at[i] as int];
            let b = raw[#[trigger] at[j] as int];
            &&& at[i] != at[j]
            &&& b.primary ==> a.primary
            &&& a.primary == b.primary ==> a.left <= b.left
            &&& a.primary == b.primary && a.left == b.left ==> a.top <= b.top
            &&& a.primary == b.primary && a.left == b.left && a.top == b.top ==> at[i] < at[j]
        }
}

/// Every display is offered once, by place, under its own identifier, at its own place and
/// with the number by which the system counts it. Its sides reach from edge to edge.
pub proof fn displays_are_offered_by_place(raw: Vec<RawMonitor>, r: Vec<MonitorInfo>)
    requires
        call_ensures(display::enumerate_monitors, (&raw,), r),
    ensures
        r@.len() == raw@.len(),
        exists|at: Seq<usize>| #[trigger]
            picks_by_place(raw@, at) && forall|i: int|
                0 <= i < r@.len() ==> {
                    let monitor = #[trigger] r@[i];
                    let source = raw@[at[i] as int];
                    &&& monitor.output_index == at[i]
                    &&& monitor.id@ == source.id@
                    &&& monitor.primary == source.primary
                    &&& monitor.x == source.left && monitor.y == source.top
                    &&& source.left < source.right ==> monitor.x + monitor.width == source.right
                    &&& source.top < source.bottom ==> monitor.y + monitor.height == source.bottom
                    &&& source.left >= source.right ==> monitor.width == 1
                    &&& source.top >= source.bottom ==> monitor.height == 1
                },
{
    let ranks = display::monitor_ranks(raw@);
    let at = choose|at: Seq<usize>|
        #![trigger order::is_order(ranks, at)]
        {
            &&& order::is_order(ranks, at)
            &&& r@.len() == raw@.len()
            &&& forall|i: int|
                0 <= i < r@.len() ==> display::describes(
                    #[trigger] r@[i],
                    raw@[at[i] as int],
                    at[i] as int,
                )
        };
    assert(order::is_order(ranks, at));
    assert forall|i: int, j: int| 0 <= i < j < at.len() implies {
        let a = raw@[#[trigger] at[i] as int];
        let b = raw@[#[trigger] at[j] as int];
        &&& at[i] != at[j]
        &&& b.primary ==> a.primary
        &&& a.primary == b.primary ==> a.left <= b.left
        &&& a.primary == b.primary && a.left == b.left ==> a.top <= b.top
        &&& a.primary == b.primary && a.left == b.left && a.top == b.top ==> at[i] < at[j]
    } by {
        assert(order::precedes(ranks, at[i] as int, at[j] as int));
    }
    assert(picks_by_place(raw@, at));
}

/// What is removed from a text leaves the rest as it is: a text without it stays, and behind
/// it the same goes on.
pub proof fn removing_leaves_the_rest(s: &str, t: &str, pattern: &str, r: String, q: String)
    requires
        call_ensures(text::removed, (s, pattern), r),
        call_ensures(text::removed, (t, pattern), q),
        pattern@.len() > 0,
    ensures
        !text::contains(s@, pattern@) ==> r@ == s@,
        s@ == pattern@ + t@ ==> r@ == q@,
{
    if !text::contains(s@, pattern@) {
        lemma_nothing_removed(s@, pattern@);
    }
    if s@ == pattern@ + t@ {
        assert(s@.subrange(0, pattern@.len() as int) =~= pattern@);
        assert(s@.skip(pattern@.len() as int) =~= t@);
    }
}

/// A text without the pattern stays as it is.
proof fn lemma_nothing_removed(s: Seq<char>, pattern: Seq<char>)
    requires
        !text::contains(s, pattern),
        pattern.len() > 0,
    ensures
        text::without(s, pattern) == s,
    decreases s.len(),
{
    if s.len() > 0 {
        if text::starts_with(s, pattern) {
            assert(text::occurs_at(s, pattern, 0));
        }
        let rest = s.drop_first();
        assert forall|i: int| 0 <= i implies !text::occurs_at(rest, pattern, i) by {
            if text::occurs_at(rest, pattern, i) {
                assert(s.subrange(i + 1, i + 1 + pattern.len()) =~= rest.subrange(
                    i,
                    i + pattern.len(),
                ));
                assert(text::occurs_at(s, pattern, i + 1));
            }
        }
        lemma_nothing_removed(rest, pattern);
        assert(text::without(s, pattern) =~= s);
    }
}

/// A display is named by its device's name without what all device names begin with.
pub proof fn displays_are_named_by_their_device(
    raw: Vec<RawMonitor>,
    r: Vec<MonitorInfo>,
    k: int,
    name: Seq<char>,
)
    requires
        call_ensures(display::enumerate_monitors, (&raw,), r),
        0 <= k < r@.len(),
        r@[k].id@ == "\\\\.\\"@ + name,
        !text::contains(name, "\\\\.\\"@),
    ensures
        r@[k].label@ == name,
{
    displays_are_offered_by_place(raw, r);
    let mark = "\\\\.\\"@;
    reveal_strlit("\\\\.\\");
    let s = mark + name;
    assert(s.subrange(0, mark.len() as int) =~= mark);
    assert(s.skip(mark.len() as int) =~= name);
    lemma_nothing_removed(name, mark);
    let ranks = display::monitor_ranks(raw@);
    let at = choose|at: Seq<usize>|
        #![trigger order::is_order(ranks, at)]
        {
            &&& order::is_order(ranks, at)
            &&& r@.len() == raw@.len()
            &&& forall|i: int|
                0 <= i < r@.len() ==> display::describes(
                    #[trigger] r@[i],
                    raw@[at[i] as int],
                    at[i] as int,
                )
        };
    assert(display::describes(r@[k], raw@[at[k] as int], at[k] as int));
}

/// The chosen display is recorded where it is there; else a primary one; else the first.
/// There is none to record only where there is no display.
pub proof fn the_chosen_display_is_recorded(
    monitors: Vec<MonitorInfo>,
    id: Option<String>,
    r: Option<MonitorInfo>,
    k: int,
)
    requires
        call_ensures(display::selected_monitor, (&monitors, &id), r),
        0 <= k < monitors@.len(),
    ensures
        r matches Some(found) && monitors@.contains(found),
        (id matches Some(name) && monitors@[k].id@ == name@) ==> r.unwrap().id@ == monitors@[k].id@,
        (id is None || forall|j: int|
            0 <= j < monitors@.len() ==> (#[trigger] monitors@[j]).id@ != id.unwrap()@) && monitors@[k].primary
            ==> r.unwrap().primary,
        (id is None || forall|j: int|
            0 <= j < monitors@.len() ==> (#[trigger] monitors@[j]).id@ != id.unwrap()@) && (forall|j: int|
            0 <= j < monitors@.len() ==> !(#[trigger] monitors@[j]).primary) ==> r == Some(monitors@[0]),
{
    let i = choose|i: int| #[trigger]
        display::monitor_choice(monitors@, text::shown(id), i) && r.unwrap() == monitors@[i];
    assert(display::monitor_choice(monitors@, text::shown(id), i));
    if let Some(name) = id {
        if monitors@[k].id@ == name@ {
            assert(display::any_named(monitors@, name@));
        }
    }
    if monitors@[k].primary {
        assert(display::any_primary(monitors@));
    }
    assert(monitors@[i] == r.unwrap());
}

/// A display is offered by its name, its size and whether it is the primary one.
pub proof fn displays_are_offered_by_name_and_size(monitor: MonitorInfo, r: String)
    requires
        call_ensures(MonitorInfo::display_label, (&monitor,), r),
    ensures
        exists|w: Seq<char>, h: Seq<char>|
            #![trigger reading::writes(w, monitor.width as int), reading::writes(h, monitor.height as int)]
            {
                &&& reading::writes(w, monitor.width as int)
                &&& reading::writes(h, monitor.height as int)
                &&& monitor.primary ==> r@ == monitor.label@ + " · "@ + w + "×"@ + h + " · Primary"@
                &&& !monitor.primary ==> r@ == monitor.label@ + " · "@ + w + "×"@ + h
            },
{
    let w = text::decimal(monitor.width as nat);
    let h = text::decimal(monitor.height as nat);
    reading::lemma_decimal_writes(monitor.width as nat);
    reading::lemma_decimal_writes(monitor.height as nat);
    reveal_strlit("");
    if !monitor.primary {
        assert(r@ =~= monitor.label@ + " · "@ + w + "×"@ + h);
    }
}

/// Where the system cannot be asked, one primary display of the usual size is assumed.
pub proof fn the_assumed_display_is_primary(r: MonitorInfo)
    requires
        call_ensures(display::assumed_monitor, (), r),
    ensures
        r.primary,
        r.output_index == 0 && r.x == 0 && r.y == 0,
        r.width * 9 == r.height * 16,
        r.width == 1920,
{
}

/// A playback endpoint carries the sound of the desktop, and so does a device whose name
/// says so in whatever case; no other does.
pub proof fn desktop_sound_is_told_by_endpoint_or_name(
    device: AudioDevice,
    name: &str,
    low: String,
    r: bool,
)
    requires
        call_ensures(audio::is_desktop_audio_device, (&device,), r),
        name@ == device.name@,
        call_ensures(text::lowered, (name,), low),
    ensures
        text::starts_with(device.id@, "wasapi-render:"@) ==> r,
        text::contains(low@, "stereo mix"@) ==> r,
        text::contains(low@, "what u hear"@) ==> r,
        text::contains(low@, "wave out"@) ==> r,
        text::contains(low@, "loopback"@) ==> r,
        text::contains(low@, "sonar - stream"@) ==> r,
        text::contains(low@, "cable output"@) ==> r,
        text::contains(low@, "desktop audio"@) ==> r,
        r ==> text::starts_with(device.id@, "wasapi-render:"@) || text::contains(
            low@,
            "stereo mix"@,
        ) || text::contains(low@, "what u hear"@) || text::contains(low@, "wave out"@)
            || text::contains(low@, "loopback"@) || text::contains(low@, "sonar - stream"@)
            || text::contains(low@, "cable output"@) || text::contains(low@, "desktop audio"@),
{
}

/// A recording endpoint is a microphone, and so is a device whose name says so in whatever
/// case, unless it carries the sound of the desktop; no other is.
pub proof fn microphones_are_told_by_endpoint_or_name(
    device: AudioDevice,
    name: &str,
    low: String,
    desktop: bool,
    r: bool,
)
    requires
        call_ensures(audio::is_microphone_device, (&device,), r),
        call_ensures(audio::is_desktop_audio_device, (&device,), desktop),
        name@ == device.name@,
        call_ensures(text::lowered, (name,), low),
    ensures
        text::starts_with(device.id@, "wasapi-capture:"@) ==> r,
        desktop && !text::starts_with(device.id@, "wasapi-capture:"@) ==> !r,
        !desktop && text::contains(low@, "microphone"@) ==> r,
        !desktop && text::contains(low@, " mic"@) ==> r,
        !desktop && text::starts_with(low@, "mic"@) ==> r,
        !desktop && text::contains(low@, "headset"@) ==> r,
        r ==> text::starts_with(device.id@, "wasapi-capture:"@) || text::contains(
            low@,
            "microphone"@,
        ) || text::contains(low@, " mic"@) || text::starts_with(low@, "mic"@) || text::contains(
            low@,
            "headset"@,
        ),
{
}

/// The desktop is recorded with the first device that carries its sound, if there is any.
pub proof fn the_first_desktop_device_is_recommended(
    devices: &[AudioDevice],
    r: Option<&AudioDevice>,
    k: int,
    told: bool,
)
    requires
        call_ensures(audio::recommended_desktop_audio, (devices,), r),
        0 <= k < devices@.len(),
        call_ensures(audio::is_desktop_audio_device, (&devices@[k],), told),
    ensures
        told ==> r is Some,
        r matches Some(device) ==> exists|i: int|
            #![trigger devices@[i]]
            0 <= i < devices@.len() && devices@[i] == *device && (told ==> i <= k) && (i == k
                ==> told),
{
    if let Some(device) = r {
        let i = choose|i: int| #[trigger] audio::first_desktop(devices@, i) && *device == devices@[i];
        assert(audio::first_desktop(devices@, i));
        assert(devices@[i] == *device);
    }
}

/// The voice is recorded with the first microphone; where there is none, with the first
/// device that does not carry the sound of the desktop.
pub proof fn the_first_microphone_is_recommended(
    devices: &[AudioDevice],
    r: Option<&AudioDevice>,
    k: int,
    voice: bool,
    desktop: bool,
)
    requires
        call_ensures(audio::recommended_microphone, (devices,), r),
        0 <= k < devices@.len(),
        call_ensures(audio::is_microphone_device, (&devices@[k],), voice),
        call_ensures(audio::is_desktop_audio_device, (&devices@[k],), desktop),
    ensures
        voice || !desktop ==> r is Some,
        r matches Some(device) ==> exists|i: int|
            #![trigger devices@[i]]
            {
                &&& 0 <= i < devices@.len() && devices@[i] == *device
                &&& voice ==> i <= k
                &&& i == k && !voice ==> !desktop && forall|j: int|
                    0 <= j < devices@.len() ==> !(#[trigger] devices@[j]).is_microphone()
            },
{
    if let Some(device) = r {
        let i = choose|i: int| #[trigger]
            audio::microphone_choice(devices@, i) && *device == devices@[i];
        assert(audio::microphone_choice(devices@, i));
        assert(devices@[i] == *device);
        if voice {
            assert(audio::any_microphone(devices@));
            assert(audio::first_microphone(devices@, i));
        }
    }
}

/// A name between quotes is read as it is, and a line with fewer than two quotes has none.
pub proof fn quoted_names_are_found(
    line: &str,
    prefix: Seq<char>,
    name: Seq<char>,
    suffix: Seq<char>,
    r: Option<String>,
)
    requires
        call_ensures(audio::quoted_value, (line,), r),
        !prefix.contains('"'),
        !suffix.contains('"'),
    ensures
        line@ == prefix.push('"') + name.push('"') + suffix ==> (r matches Some(found) && found@
            == name),
        line@ == prefix.push('"') + suffix ==> r is None,
        line@ == prefix ==> r is None,
{
    audio::quoted_names_are_read(prefix, name, suffix);
    audio::unquoted_lines_name_nothing(prefix, suffix);
    if line@ == prefix.push('"') + name.push('"') + suffix {
        assert(line@ =~= prefix.push('"') + (name.push('"') + suffix));
    }
}

/// The line names a device: it has `(audio)` in it, and the device's name between quotes.
pub open spec fn names_device(line: Seq<char>, name: Seq<char>) -> bool {
    text::contains(line, "(audio)"@) && audio::quoted(line) == Some(name)
}

/// The line gives the identifier of the device before it.
pub open spec fn gives_identifier(line: Seq<char>, id: Seq<char>) -> bool {
    !text::contains(line, "(audio)"@) && text::contains(line, "Alternative name"@) && audio::quoted(
        line,
    ) == Some(id)
}

/// Two lines more, of which the first names a device and the second gives its identifier,
/// add that device to what was found before them; other lines add nothing.
pub proof fn listings_grow_device_by_device(
    a: &str,
    b: &str,
    name: Seq<char>,
    id: Seq<char>,
    before: Vec<AudioDevice>,
    after: Vec<AudioDevice>,
)
    requires
        call_ensures(audio::parse_dshow_devices, (a,), before),
        call_ensures(audio::parse_dshow_devices, (b,), after),
        text::lines(a@).len() == 0 || exists|last: Seq<char>|
            gives_identifier(text::lines(a@).last(), last),
        text::lines(b@).len() == text::lines(a@).len() + 2,
        text::lines(b@).take(text::lines(a@).len() as int) == text::lines(a@),
        names_device(text::lines(b@)[text::lines(a@).len() as int], name),
        gives_identifier(text::lines(b@)[text::lines(a@).len() as int + 1], id),
    ensures
        after@.len() == before@.len() + 1,
        after@.last().name@ == name,
        after@.last().id@ == id,
        forall|i: int|
            0 <= i < before@.len() ==> (#[trigger] after@[i]).name@ == before@[i].name@
                && after@[i].id@ == before@[i].id@,
{
    let first = text::lines(a@);
    let all = text::lines(b@);
    let n = first.len() as int;
    let middle = all.drop_last();
    assert(middle.drop_last() =~= first);
    assert(middle.last() == all[n]);
    assert(all.last() == all[n + 1]);
    let old_list = audio::read_lines(first);
    assert(old_list.pending is None);
    assert(audio::read_lines(middle).pending == Some(name));
    assert(audio::read_lines(middle).found == old_list.found);
    assert(audio::read_lines(all).found == old_list.found.push((name, id)));
    assert(audio::read_lines(all).pending is None);
    let va = audio::devices_view(before@);
    let vb = audio::devices_view(after@);
    assert(va == old_list.found);
    assert(vb == va.push((name, id)));
    assert(vb.len() == after@.len() && va.len() == before@.len());
    assert(vb[n_of(before@)] == (after@.last().name@, after@.last().id@));
    assert forall|i: int| 0 <= i < before@.len() implies (#[trigger] after@[i]).name@
        == before@[i].name@ && after@[i].id@ == before@[i].id@ by {
        assert(vb[i] == va[i]);
        assert(vb[i] == (after@[i].name@, after@[i].id@));
        assert(va[i] == (before@[i].name@, before@[i].id@));
    }
}

/// How many devices there are.
spec fn n_of(devices: Seq<AudioDevice>) -> int {
    devices.len() as int
}

/// A device without an identifier goes by its name.
pub proof fn unidentified_devices_go_by_their_name(line: &str, name: Seq<char>, r: Vec<AudioDevice>)
    requires
        call_ensures(audio::parse_dshow_devices, (line,), r),
        text::lines(line@) == seq![line@],
        names_device(line@, name),
    ensures
        r@.len() == 1,
        r@[0].name@ == name,
        r@[0].id@ == name,
{
    let all = text::lines(line@);
    let none = all.drop_last();
    assert(none.len() == 0);
    assert(audio::read_lines(none).found.len() == 0);
    assert(audio::read_lines(all).pending == Some(name));
    assert(audio::read_lines(all).found == audio::read_lines(none).found);
    let v = audio::devices_view(r@);
    assert(v.len() == r@.len());
    assert(v[0] == (r@[0].name@, r@[0].id@));
}

/// Playback endpoints come before recording ones, and these before FFmpeg's devices; what
/// could not be read is left out, but without FFmpeg's listing there is none at all.
pub proof fn devices_come_kind_by_kind(
    playback: Option<Vec<AudioDevice>>,
    recording: Option<Vec<AudioDevice>>,
    listing: Result<Vec<u8>, String>,
    printed: Seq<u8>,
    output: &str,
    parsed: Vec<AudioDevice>,
    r: Result<Vec<AudioDevice>, String>,
    k: int,
)
    requires
        call_ensures(audio::enumerate_audio_devices, (playback, recording, listing), r),
        listing matches Ok(bytes) ==> bytes@ == printed,
        output@ == bytes::utf8_lossy(printed),
        call_ensures(audio::parse_dshow_devices, (output,), parsed),
    ensures
        r is Ok <==> listing is Ok,
        listing matches Err(error) ==> r == Err::<Vec<AudioDevice>, String>(error),
        r matches Ok(devices) ==> {
            let first = if playback is Some {
                playback.unwrap()@
            } else {
                Seq::empty()
            };
            let second = if recording is Some {
                recording.unwrap()@
            } else {
                Seq::empty()
            };
            let all = first + second + parsed@;
            &&& devices@.len() == all.len()
            &&& 0 <= k < all.len() ==> devices@[k].name@ == all[k].name@ && devices@[k].id@
                == all[k].id@
        },
{
    if let Ok(devices) = r {
        let first = if playback is Some {
            playback.unwrap()@
        } else {
            Seq::empty()
        };
        let second = if recording is Some {
            recording.unwrap()@
        } else {
            Seq::empty()
        };
        let all = first + second + parsed@;
        assert(audio::devices_view(all) =~= audio::devices_view(first) + audio::devices_view(second)
            + audio::devices_view(parsed@));
        let v = audio::devices_view(devices@);
        let w = audio::devices_view(all);
        assert(v == w);
        assert(v.len() == devices@.len() && w.len() == all.len());
        if 0 <= k < all.len() {
            assert(v[k] == (devices@[k].name@, devices@[k].id@));
            assert(w[k] == (all[k].name@, all[k].id@));
        }
    }
}

/// Every playback endpoint is offered once; the default one first, and marked as such, the
/// others as they are named and in the order they had. Each identifier leads back to its
/// endpoint.
pub proof fn endpoints_are_offered_default_first(
    endpoints: Vec<Endpoint>,
    default_id: Option<String>,
    r: Vec<AudioDevice>,
)
    requires
        call_ensures(windows_audio::enumerate_render_devices, (&endpoints, &default_id), r),
    ensures
        r@.len() == endpoints@.len(),
        exists|at: Seq<usize>|
            #![trigger at.len()]
            {
                &&& at.len() == endpoints@.len()
                &&& forall|i: int|
                    0 <= i < at.len() ==> (#[trigger] at[i]) < endpoints@.len() && r@[i].id@
                        == "wasapi-render:"@ + endpoints@[at[i] as int].id@ && (if default_id
                        is Some && default_id.unwrap()@ == endpoints@[at[i] as int].id@ {
                        r@[i].name@ == endpoints@[at[i] as int].name@
                            + "  ·  Default Windows output"@
                    } else {
                        r@[i].name@ == endpoints@[at[i] as int].name@
                    })
                &&& forall|i: int, j: int|
                    0 <= i < j < at.len() ==> {
                        let a = default_id is Some && default_id.unwrap()@
                            == endpoints@[#[trigger] at[i] as int].id@;
                        let b = default_id is Some && default_id.unwrap()@
                            == endpoints@[#[trigger] at[j] as int].id@;
                        &&& at[i] != at[j]
                        &&& b ==> a
                        &&& a == b ==> at[i] < at[j]
                    }
            },
{
    let ranks = windows_audio::endpoint_ranks(endpoints@, default_id);
    let at = choose|at: Seq<usize>|
        #![trigger order::is_order(ranks, at)]
        {
            &&& order::is_order(ranks, at)
            &&& r@.len() == endpoints@.len()
            &&& forall|i: int|
                0 <= i < r@.len() ==> windows_audio::offered_as(
                    endpoints@[at[i] as int],
                    default_id,
                    #[trigger] r@[i],
                )
        };
    assert(order::is_order(ranks, at));
    assert forall|i: int| 0 <= i < at.len() implies (#[trigger] at[i]) < endpoints@.len() && r@[i].id@
        == "wasapi-render:"@ + endpoints@[at[i] as int].id@ && (if default_id is Some
        && default_id.unwrap()@ == endpoints@[at[i] as int].id@ {
        r@[i].name@ == endpoints@[at[i] as int].name@ + "  ·  Default Windows output"@
    } else {
        r@[i].name@ == endpoints@[at[i] as int].name@
    }) by {
        assert(windows_audio::offered_as(endpoints@[at[i] as int], default_id, r@[i]));
    }
    assert forall|i: int, j: int| 0 <= i < j < at.len() implies {
        let a = default_id is Some && default_id.unwrap()@ == endpoints@[#[trigger] at[i] as int].id@;
        let b = default_id is Some && default_id.unwrap()@ == endpoints@[#[trigger] at[j] as int].id@;
        &&& at[i] != at[j]
        &&& b ==> a
        &&& a == b ==> at[i] < at[j]
    } by {
        assert(order::precedes(ranks, at[i] as int, at[j] as int));
    }
    assert(at.len() == endpoints@.len());
}

/// Recording endpoints are offered as they are named, in the order they have.
pub proof fn recording_endpoints_keep_their_order(endpoints: Vec<Endpoint>, r: Vec<AudioDevice>, k: int)
    requires
        call_ensures(windows_audio::enumerate_capture_devices, (&endpoints,), r),
        0 <= k < endpoints@.len(),
    ensures
        r@.len() == endpoints@.len(),
        r@[k].name@ == endpoints@[k].name@,
        r@[k].id@ == "wasapi-capture:"@ + endpoints@[k].id@,
{
}

/// The identifier under which an endpoint is offered leads back to the system's name of it,
/// in its own direction only; other identifiers lead nowhere.
pub proof fn identifiers_lead_back(
    id: &str,
    name: Seq<char>,
    render: bool,
    played: Option<&str>,
    recorded: Option<&str>,
)
    requires
        call_ensures(windows_audio::is_wasapi_render_id, (id,), render),
        call_ensures(windows_audio::wasapi_endpoint_id, (id,), played),
        call_ensures(windows_audio::wasapi_capture_endpoint_id, (id,), recorded),
    ensures
        id@ == "wasapi-render:"@ + name ==> render && (played matches Some(found) && found@ == name)
            && recorded is None,
        id@ == "wasapi-capture:"@ + name ==> !render && played is None && (recorded matches Some(
            found,
        ) && found@ == name),
        played is Some <==> render,
        played matches Some(found) ==> id@ == "wasapi-render:"@ + found@,
        recorded matches Some(found) ==> id@ == "wasapi-capture:"@ + found@,
{
    let p = "wasapi-render:"@;
    let c = "wasapi-capture:"@;
    reveal_strlit("wasapi-render:");
    reveal_strlit("wasapi-capture:");
    windows_audio::endpoint_names_round_trip(name, p);
    windows_audio::endpoint_names_round_trip(name, c);
    assert(p[7] == 'r' && c[7] == 'c');
    if text::starts_with(id@, p) {
        assert(id@.subrange(0, p.len() as int)[7] == id@[7]);
        assert(id@ =~= p + id@.skip(p.len() as int)) by {
            assert(id@.subrange(0, p.len() as int) == p);
            assert(id@ =~= id@.subrange(0, p.len() as int) + id@.skip(p.len() as int));
        }
    }
    if text::starts_with(id@, c) {
        assert(id@.subrange(0, c.len() as int)[7] == id@[7]);
        assert(id@ =~= c + id@.skip(c.len() as int)) by {
            assert(id@.subrange(0, c.len() as int) == c);
            assert(id@ =~= id@.subrange(0, c.len() as int) + id@.skip(c.len() as int));
        }
    }
    assert((p + name)[7] == 'r' && (c + name)[7] == 'c');
}

/// An endpoint is found where it first stands among those that are there; one that is gone
/// is not found.
pub proof fn endpoints_are_found_where_they_stand(
    ids: Vec<Option<String>>,
    id: &str,
    r: Result<usize, String>,
    k: int,
)
    requires
        call_ensures(windows_audio::find_endpoint, (&ids, id), r),
        0 <= k < ids@.len(),
    ensures
        (ids@[k] matches Some(name) && name@ == id@) ==> (r matches Ok(i) && i <= k),
        r matches Ok(i) ==> i < ids@.len() && (ids@[i as int] matches Some(name) && name@ == id@),
{
    if let Ok(i) = r {
        assert(windows_audio::first_endpoint(ids@, id@, i as int));
    }
    let here = ids@[k];
}

/// The relay streams once FFmpeg is connected. Until then it waits, unless it is told to
/// stop, which is no error, or the deadline passes or the wait fails, which are.
pub proof fn relays_wait_for_the_connection(outcome: AcceptOutcome, r: AcceptStep)
    requires
        call_ensures(windows_audio::accept_step, (outcome,), r),
    ensures
        r is Stream <==> outcome is Connected,
        r is Wait <==> outcome == (AcceptOutcome::Nothing {
            stop_requested: false,
            past_deadline: false,
        }),
        r == AcceptStep::Finish(Ok(())) <==> (outcome matches AcceptOutcome::Nothing {
            stop_requested,
            ..
        } && stop_requested),
        outcome matches AcceptOutcome::Failed(error) ==> r == AcceptStep::Finish(Err(error)),
{
}

/// Sound is sent in the order it came, and silence lasts as long as the sound it stands for:
/// the queue grows by as many bytes, and what was in it stays first.
pub proof fn sound_waits_in_order(queue: &mut SoundQueue, packet: Vec<u8>, silent: bool, k: int)
    requires
        call_ensures(SoundQueue::receive, (queue, &packet, silent), ()),
        0 <= k < packet@.len(),
    ensures
        final(queue).bytes@.len() == old(queue).bytes@.len() + packet@.len(),
        final(queue).bytes@.take(old(queue).bytes@.len() as int) == old(queue).bytes@,
        final(queue).bytes@[old(queue).bytes@.len() + k] == if silent {
            0u8
        } else {
            packet@[k]
        },
{
    assert(final(queue).bytes@.take(old(queue).bytes@.len() as int) =~= old(queue).bytes@);
}

/// What was written leaves the queue from its front, and nothing else does. The relay goes
/// on writing while there is more, and ends where FFmpeg is gone: without an error where it
/// closed the connection.
pub proof fn written_sound_leaves_the_queue(
    queue: &mut SoundQueue,
    outcome: WriteOutcome,
    r: WriteStep,
)
    requires
        outcome matches WriteOutcome::Written(n) ==> n <= old(queue).bytes@.len(),
        call_ensures(SoundQueue::after_write, (queue, outcome), r),
    ensures
        outcome matches WriteOutcome::Written(n) ==> old(queue).bytes@ == old(queue).bytes@.take(
            n as int,
        ) + final(queue).bytes@,
        !(outcome is Written) ==> final(queue).bytes@ == old(queue).bytes@,
        r is WriteMore <==> (outcome matches WriteOutcome::Written(n) && n > 0 && n < old(
            queue,
        ).bytes@.len()),
        r == WriteStep::Finish(Ok(())) <==> outcome is Disconnected || outcome
            == WriteOutcome::Written(0),
        outcome is Busy ==> r is ReadMore,
        outcome matches WriteOutcome::Failed(error) ==> r == WriteStep::Finish(Err(error)),
{
    if let WriteOutcome::Written(n) = outcome {
        assert(old(queue).bytes@ =~= old(queue).bytes@.take(n as int) + final(queue).bytes@);
    }
}

/// The relay has started only where it says so; otherwise its own words are told.
pub proof fn relays_start_when_they_say_so(report: LoopbackReport, r: Result<(), String>)
    requires
        call_ensures(windows_audio::loopback_started, (report,), r),
    ensures
        r is Ok <==> report is Ready,
        report matches LoopbackReport::Failed(error) ==> (r matches Err(told) && told@ == error@),
        report matches LoopbackReport::NoReport(error) ==> (r matches Err(told)
            && publishing::ends_with(told@, error@)),
{
    if let LoopbackReport::NoReport(error) = report {
        if let Err(told) = r {
            assert(told@.skip(told@.len() - error@.len()) =~= error@);
        }
    }
}

/// A chosen device is shown by its name where it is there, by the fallback otherwise.
pub proof fn chosen_devices_are_shown_by_name(
    devices: Vec<AudioDevice>,
    selected: Option<String>,
    fallback: &str,
    r: String,
    k: int,
)
    requires
        call_ensures(views::audio_device_label, (&devices, &selected, fallback), r),
        0 <= k < devices@.len(),
    ensures
        selected is None ==> r@ == fallback@,
        (selected matches Some(id) && id@ == devices@[k].id@ && forall|j: int|
            0 <= j < devices@.len() && j != k ==> (#[trigger] devices@[j]).id@ != id@) ==> r@
            == devices@[k].name@,
        (selected matches Some(id) && forall|j: int|
            0 <= j < devices@.len() ==> (#[trigger] devices@[j]).id@ != id@) ==> r@ == fallback@,
{
    if let Some(id) = selected {
        if exists|i: int| #[trigger] views::first_device(devices@, id@, i) && r@ == devices@[i].name@ {
            let i = choose|i: int| #[trigger]
                views::first_device(devices@, id@, i) && r@ == devices@[i].name@;
            assert(devices@[i].id@ == id@);
        } else {
            assert(devices@[k].id@ != id@);
        }
    }
}

} // verus!
