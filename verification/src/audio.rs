//! Audio devices: reading FFmpeg's listing, telling what each device is for, and
//! choosing one for each role.

use vstd::prelude::*;
use vstd::string::*;

use crate::services::bytes;
use crate::text;
use crate::windows_audio::{WASAPI_CAPTURE_PREFIX, WASAPI_RENDER_PREFIX};

verus! {

/// An audio device: the name shown, and the identifier that FFmpeg opens it by.
#[derive(Debug, PartialEq, Eq)]
pub struct AudioDevice {
    pub name: String,
    pub id: String,
}

impl Clone for AudioDevice {
    fn clone(&self) -> (r: Self)
        ensures
            r == *self,
    {
        AudioDevice { name: self.name.clone(), id: self.id.clone() }
    }
}

/// What stands in the name of a device that carries the sound of the desktop.
pub open spec fn desktop_hint(name: Seq<char>) -> bool {
    ||| text::contains(name, "stereo mix"@)
    ||| text::contains(name, "what u hear"@)
    ||| text::contains(name, "wave out"@)
    ||| text::contains(name, "loopback"@)
    ||| text::contains(name, "sonar - stream"@)
    ||| text::contains(name, "cable output"@)
    ||| text::contains(name, "desktop audio"@)
}

/// What stands in the name of a microphone.
pub open spec fn microphone_hint(name: Seq<char>) -> bool {
    ||| text::contains(name, "microphone"@)
    ||| text::contains(name, " mic"@)
    ||| text::starts_with(name, "mic"@)
    ||| text::contains(name, "headset"@)
}

impl AudioDevice {
    /// The device carries the sound of the desktop: a playback endpoint, or a device
    /// whose name says so.
    pub open spec fn is_desktop(self) -> bool {
        text::starts_with(self.id@, WASAPI_RENDER_PREFIX@) || desktop_hint(
            text::ascii_lowered(self.name@),
        )
    }

    /// The device is a microphone: a recording endpoint, or a device whose name says
    /// so and that does not carry the sound of the desktop.
    pub open spec fn is_microphone(self) -> bool {
        text::starts_with(self.id@, WASAPI_CAPTURE_PREFIX@) || !self.is_desktop()
            && microphone_hint(text::ascii_lowered(self.name@))
    }
}

/// Whether the device carries the sound of the desktop.
pub fn is_desktop_audio_device(device: &AudioDevice) -> (r: bool)
    ensures
        r == device.is_desktop(),
{
    if text::begins(device.id.as_str(), WASAPI_RENDER_PREFIX) {
        return true;
    }
    let lowered = text::lowered(device.name.as_str());
    let name = lowered.as_str();
    text::has(name, "stereo mix") || text::has(name, "what u hear") || text::has(name, "wave out")
        || text::has(name, "loopback") || text::has(name, "sonar - stream") || text::has(
        name,
        "cable output",
    ) || text::has(name, "desktop audio")
}

/// Whether the device is a microphone.
pub fn is_microphone_device(device: &AudioDevice) -> (r: bool)
    ensures
        r == device.is_microphone(),
{
    if text::begins(device.id.as_str(), WASAPI_CAPTURE_PREFIX) {
        return true;
    }
    let lowered = text::lowered(device.name.as_str());
    let name = lowered.as_str();
    !is_desktop_audio_device(device) && (text::has(name, "microphone") || text::has(name, " mic")
        || text::begins(name, "mic") || text::has(name, "headset"))
}

/// `i` is the first position in `devices` that carries the sound of the desktop.
pub open spec fn first_desktop(devices: Seq<AudioDevice>, i: int) -> bool {
    0 <= i < devices.len() && devices[i].is_desktop() && forall|j: int|
        0 <= j < i ==> !(#[trigger] devices[j]).is_desktop()
}

/// `i` is the first microphone in `devices`.
pub open spec fn first_microphone(devices: Seq<AudioDevice>, i: int) -> bool {
    0 <= i < devices.len() && devices[i].is_microphone() && forall|j: int|
        0 <= j < i ==> !(#[trigger] devices[j]).is_microphone()
}

/// `i` is the first position in `devices` that does not carry the sound of the desktop.
pub open spec fn first_other(devices: Seq<AudioDevice>, i: int) -> bool {
    0 <= i < devices.len() && !devices[i].is_desktop() && forall|j: int|
        0 <= j < i ==> (#[trigger] devices[j]).is_desktop()
}

/// Some device is a microphone.
pub open spec fn any_microphone(devices: Seq<AudioDevice>) -> bool {
    exists|i: int| 0 <= i < devices.len() && (#[trigger] devices[i]).is_microphone()
}

/// `i` is the device to record the voice with: the first microphone, or the first
/// device that does not carry the sound of the desktop where there is no microphone.
pub open spec fn microphone_choice(devices: Seq<AudioDevice>, i: int) -> bool {
    first_microphone(devices, i) || !any_microphone(devices) && first_other(devices, i)
}

/// `device` is the first that carries the sound of the desktop.
pub open spec fn is_desktop_choice(devices: Seq<AudioDevice>, device: AudioDevice) -> bool {
    exists|i: int| #[trigger] first_desktop(devices, i) && device == devices[i]
}

/// No device carries the sound of the desktop.
pub open spec fn no_desktop(devices: Seq<AudioDevice>) -> bool {
    forall|i: int| 0 <= i < devices.len() ==> !(#[trigger] devices[i]).is_desktop()
}

/// `device` is the one to record the voice with.
pub open spec fn is_microphone_choice(devices: Seq<AudioDevice>, device: AudioDevice) -> bool {
    exists|i: int| #[trigger] microphone_choice(devices, i) && device == devices[i]
}

/// No device can record the voice.
pub open spec fn no_voice(devices: Seq<AudioDevice>) -> bool {
    forall|i: int|
        0 <= i < devices.len() ==> (#[trigger] devices[i]).is_desktop()
            && !devices[i].is_microphone()
}

/// The device to record the desktop with: the first that carries its sound.
pub fn recommended_desktop_audio(devices: &[AudioDevice]) -> (r: Option<&AudioDevice>)
    ensures
        match r {
            Some(device) => is_desktop_choice(devices@, *device),
            None => no_desktop(devices@),
        },
{
    let mut i: usize = 0;
    while i < devices.len()
        invariant
            i <= devices.len(),
            forall|j: int| 0 <= j < i ==> !(#[trigger] devices@[j]).is_desktop(),
        decreases devices.len() - i,
    {
        if is_desktop_audio_device(&devices[i]) {
            assert(first_desktop(devices@, i as int));
            return Some(&devices[i]);
        }
        i += 1;
    }
    None
}

/// The device to record the voice with.
pub fn recommended_microphone(devices: &[AudioDevice]) -> (r: Option<&AudioDevice>)
    ensures
        match r {
            Some(device) => is_microphone_choice(devices@, *device),
            None => no_voice(devices@),
        },
{
    let mut i: usize = 0;
    while i < devices.len()
        invariant
            i <= devices.len(),
            forall|j: int| 0 <= j < i ==> !(#[trigger] devices@[j]).is_microphone(),
        decreases devices.len() - i,
    {
        if is_microphone_device(&devices[i]) {
            assert(first_microphone(devices@, i as int));
            assert(microphone_choice(devices@, i as int));
            return Some(&devices[i]);
        }
        i += 1;
    }
    assert(!any_microphone(devices@));
    let mut k: usize = 0;
    while k < devices.len()
        invariant
            k <= devices.len(),
            !any_microphone(devices@),
            forall|j: int| 0 <= j < k ==> (#[trigger] devices@[j]).is_desktop(),
        decreases devices.len() - k,
    {
        if !is_desktop_audio_device(&devices[k]) {
            assert(first_other(devices@, k as int));
            assert(microphone_choice(devices@, k as int));
            return Some(&devices[k]);
        }
        k += 1;
    }
    None
}

/// The position of the last `"` in `chars`.
pub open spec fn last_quote(chars: Seq<char>) -> Option<int>
    decreases chars.len(),
{
    if chars.len() == 0 {
        None
    } else if chars.last() == '"' {
        Some(chars.len() - 1)
    } else {
        last_quote(chars.drop_last())
    }
}

/// What stands in `line` between its first `"` and its last one behind that.
pub open spec fn quoted(line: Seq<char>) -> Option<Seq<char>> {
    match text::find(line, seq!['"']) {
        Some(i) => {
            let rest = line.skip(i + 1);
            match last_quote(rest) {
                Some(end) => Some(rest.take(end)),
                None => None,
            }
        },
        None => None,
    }
}

/// What stands in `line` between its first `"` and its last one behind that.
pub fn quoted_value(line: &str) -> (r: Option<String>)
    ensures
        match r {
            Some(value) => quoted(line@) == Some(value@),
            None => quoted(line@) is None,
        },
{
    let chars = text::chars_of(line);
    let mark = vec!['"'];
    assert(mark@ =~= seq!['"']);
    match text::position(&chars, &mark) {
        Some(i) => {
            assert(i < chars.len());
            let start: usize = i + 1;
            let ghost rest = chars@.skip(start as int);
            let mut end: usize = chars.len();
            assert(chars@.subrange(start as int, end as int) =~= rest);
            while end > start && chars[end - 1] != '"'
                invariant
                    start <= end <= chars.len(),
                    last_quote(chars@.subrange(start as int, end as int)) == last_quote(rest),
                decreases end - start,
            {
                assert(chars@.subrange(start as int, end as int).drop_last() =~= chars@.subrange(
                    start as int,
                    end - 1,
                ));
                end -= 1;
            }
            if end == start {
                None
            } else {
                assert(chars@.subrange(start as int, end - 1) =~= rest.take(end - 1 - start));
                Some(text::text_of(&chars, start, end - 1))
            }
        },
        None => None,
    }
}

/// A text without quotes has no last one.
proof fn lemma_no_quote(text: Seq<char>)
    requires
        !text.contains('"'),
    ensures
        last_quote(text) is None,
    decreases text.len(),
{
    if text.len() > 0 {
        assert(text[text.len() - 1] != '"');
        assert forall|i: int| 0 <= i < text.drop_last().len() implies text.drop_last()[i] != '"' by {
            assert(text[i] != '"');
        }
        lemma_no_quote(text.drop_last());
    }
}

/// The last quote is found behind whatever stands before it.
proof fn lemma_last_quote(before: Seq<char>, after: Seq<char>)
    requires
        !after.contains('"'),
    ensures
        last_quote(before.push('"') + after) == Some(before.len() as int),
    decreases after.len(),
{
    let whole = before.push('"') + after;
    if after.len() == 0 {
        assert(whole =~= before.push('"'));
    } else {
        assert(after[after.len() - 1] != '"');
        assert forall|i: int| 0 <= i < after.drop_last().len() implies after.drop_last()[i]
            != '"' by {
            assert(after[i] != '"');
        }
        assert(whole.drop_last() =~= before.push('"') + after.drop_last());
        lemma_last_quote(before, after.drop_last());
    }
}

/// A quoted name is read as it is, whatever characters it has, quotes among them, as long
/// as none stand outside of it.
pub proof fn quoted_names_are_read(prefix: Seq<char>, name: Seq<char>, suffix: Seq<char>)
    requires
        !prefix.contains('"'),
        !suffix.contains('"'),
    ensures
        quoted(prefix.push('"') + name.push('"') + suffix) == Some(name),
{
    let line = prefix.push('"') + name.push('"') + suffix;
    let mark = seq!['"'];
    let at = prefix.len() as int;
    assert(line.subrange(at, at + 1) =~= mark);
    assert forall|j: int| 0 <= j < at implies !text::occurs_at(line, mark, j) by {
        assert(prefix[j] != '"');
        assert(line.subrange(j, j + 1)[0] == prefix[j]);
    }
    text::lemma_first_is_found(line, mark, at);
    assert(line.skip(at + 1) =~= name.push('"') + suffix);
    lemma_last_quote(name, suffix);
    assert((name.push('"') + suffix).take(name.len() as int) =~= name);
}

/// A line without a second quote names nothing.
pub proof fn unquoted_lines_name_nothing(prefix: Seq<char>, suffix: Seq<char>)
    requires
        !prefix.contains('"'),
        !suffix.contains('"'),
    ensures
        quoted(prefix) is None,
        quoted(prefix.push('"') + suffix) is None,
{
    let mark = seq!['"'];
    assert forall|j: int| !text::occurs_at(prefix, mark, j) by {
        if text::occurs_at(prefix, mark, j) {
            assert(prefix.subrange(j, j + 1)[0] == prefix[j]);
            assert(prefix[j] != '"');
        }
    }
    let line = prefix.push('"') + suffix;
    let at = prefix.len() as int;
    assert(line.subrange(at, at + 1) =~= mark);
    assert forall|j: int| 0 <= j < at implies !text::occurs_at(line, mark, j) by {
        assert(prefix[j] != '"');
        assert(line.subrange(j, j + 1)[0] == prefix[j]);
    }
    text::lemma_first_is_found(line, mark, at);
    assert(line.skip(at + 1) =~= suffix);
    lemma_no_quote(suffix);
}

/// What has been read of FFmpeg's listing of devices: the devices found, as name and
/// identifier, and the name of a device whose identifier has not come yet.
#[verifier::ext_equal]
pub struct Listing {
    pub found: Seq<(Seq<char>, Seq<char>)>,
    pub pending: Option<Seq<char>>,
}

/// The listing behind one more line: a line with `(audio)` names a device, one with
/// `Alternative name` gives the identifier of the device named last.
pub open spec fn read_line(before: Listing, line: Seq<char>) -> Listing {
    if text::contains(line, "(audio)"@) {
        Listing { pending: quoted(line), ..before }
    } else if text::contains(line, "Alternative name"@) {
        match before.pending {
            Some(name) => Listing {
                found: before.found.push(
                    (
                        name,
                        match quoted(line) {
                            Some(id) => id,
                            None => name,
                        },
                    ),
                ),
                pending: None,
            },
            None => before,
        }
    } else {
        before
    }
}

/// The listing behind all of `lines`.
pub open spec fn read_lines(lines: Seq<Seq<char>>) -> Listing
    decreases lines.len(),
{
    if lines.len() == 0 {
        Listing { found: Seq::empty(), pending: None }
    } else {
        read_line(read_lines(lines.drop_last()), lines.last())
    }
}

/// The devices in a listing, as name and identifier. A device named last without an
/// identifier goes by its name.
pub open spec fn listed(output: Seq<char>) -> Seq<(Seq<char>, Seq<char>)> {
    let listing = read_lines(text::lines(output));
    match listing.pending {
        Some(name) => listing.found.push((name, name)),
        None => listing.found,
    }
}

/// Devices as name and identifier.
pub open spec fn devices_view(devices: Seq<AudioDevice>) -> Seq<(Seq<char>, Seq<char>)> {
    devices.map_values(|device: AudioDevice| (device.name@, device.id@))
}

/// The audio devices that FFmpeg's DirectShow listing names.
pub fn parse_dshow_devices(output: &str) -> (r: Vec<AudioDevice>)
    ensures
        devices_view(r@) == listed(output@),
{
    let lines = text::lines_of(output);
    let ghost all = lines.deep_view();
    let mut devices: Vec<AudioDevice> = Vec::new();
    let mut pending: Option<String> = None;
    let mut i: usize = 0;
    assert(devices_view(devices@) =~= Seq::empty());
    assert(all.take(0) =~= Seq::empty());
    while i < lines.len()
        invariant
            i <= lines.len(),
            all == lines.deep_view(),
            devices_view(devices@) == read_lines(all.take(i as int)).found,
            match pending {
                Some(name) => read_lines(all.take(i as int)).pending == Some(name@),
                None => read_lines(all.take(i as int)).pending is None,
            },
        decreases lines.len() - i,
    {
        let ghost before = devices@;
        assert(all.take(i + 1).drop_last() =~= all.take(i as int));
        assert(all[i as int] == lines@[i as int]@);
        let line = lines[i].as_str();
        if text::has(line, "(audio)") {
            pending = quoted_value(line);
        } else if text::has(line, "Alternative name") {
            if let Some(name) = pending {
                let id = match quoted_value(line) {
                    Some(id) => id,
                    None => name.clone(),
                };
                devices.push(AudioDevice { name, id });
                assert(devices_view(devices@) =~= devices_view(before).push((name@, id@)));
                pending = None;
            }
        }
        i += 1;
    }
    assert(all.take(i as int) =~= all);
    let ghost before = devices@;
    if let Some(name) = pending {
        let id = name.clone();
        devices.push(AudioDevice { name, id });
        assert(devices_view(devices@) =~= devices_view(before).push((name@, id@)));
    }
    devices
}

/// Every device: the system's playback and recording endpoints, where they could be
/// read, then those in the listing that FFmpeg printed. Without a listing, because FFmpeg
/// could not be run, there is only the reason; endpoints that could not be read are no error.
pub fn enumerate_audio_devices(
    playback: Option<Vec<AudioDevice>>,
    recording: Option<Vec<AudioDevice>>,
    listing: Result<Vec<u8>, String>,
) -> (r: Result<Vec<AudioDevice>, String>)
    ensures
        match listing {
            Err(message) => r == Err::<Vec<AudioDevice>, String>(message),
            Ok(printed) => r matches Ok(devices) && devices_view(devices@) == devices_view(
                match playback {
                    Some(devices) => devices@,
                    None => Seq::empty(),
                },
            ) + devices_view(
                match recording {
                    Some(devices) => devices@,
                    None => Seq::empty(),
                },
            ) + listed(bytes::utf8_lossy(printed@)),
        },
{
    let printed = match listing {
        Ok(printed) => bytes::lossy_text(printed.as_slice()),
        Err(message) => {
            return Err(message);
        },
    };
    let mut devices: Vec<AudioDevice> = match playback {
        Some(devices) => devices,
        None => Vec::new(),
    };
    let ghost first = devices@;
    let mut more: Vec<AudioDevice> = match recording {
        Some(devices) => devices,
        None => Vec::new(),
    };
    let ghost second = more@;
    devices.append(&mut more);
    let mut parsed = parse_dshow_devices(printed.as_str());
    let ghost third = parsed@;
    devices.append(&mut parsed);
    assert(devices_view(devices@) =~= devices_view(first) + devices_view(second) + devices_view(
        third,
    ));
    Ok(devices)
}

} // verus!
