//! Windows audio endpoints, and the relay that carries what one plays to FFmpeg.

use vstd::prelude::*;
use vstd::string::*;

use crate::audio::AudioDevice;
use crate::order;
use crate::order::Rank;
use crate::text;

verus! {

/// What the identifier of a playback endpoint begins with.
pub const WASAPI_RENDER_PREFIX: &'static str = "wasapi-render:";

/// What the identifier of a recording endpoint begins with.
pub const WASAPI_CAPTURE_PREFIX: &'static str = "wasapi-capture:";

/// The rest of `id` behind `prefix`, where it begins with it.
pub open spec fn behind(id: Seq<char>, prefix: Seq<char>) -> Option<Seq<char>> {
    if text::starts_with(id, prefix) {
        Some(id.skip(prefix.len() as int))
    } else {
        None
    }
}

/// The rest of `id` behind `prefix`.
fn strip<'a>(id: &'a str, prefix: &str) -> (r: Option<&'a str>)
    ensures
        match r {
            Some(rest) => behind(id@, prefix@) == Some(rest@),
            None => behind(id@, prefix@) is None,
        },
{
    if text::begins(id, prefix) {
        let from = prefix.unicode_len();
        let to = id.unicode_len();
        assert(id@.subrange(from as int, to as int) =~= id@.skip(from as int));
        Some(id.substring_char(from, to))
    } else {
        None
    }
}

/// Whether `id` names a playback endpoint.
pub fn is_wasapi_render_id(id: &str) -> (r: bool)
    ensures
        r == text::starts_with(id@, WASAPI_RENDER_PREFIX@),
{
    text::begins(id, WASAPI_RENDER_PREFIX)
}

/// The system's own name of the playback endpoint `id`.
pub fn wasapi_endpoint_id(id: &str) -> (r: Option<&str>)
    ensures
        match r {
            Some(rest) => behind(id@, WASAPI_RENDER_PREFIX@) == Some(rest@),
            None => behind(id@, WASAPI_RENDER_PREFIX@) is None,
        },
{
    strip(id, WASAPI_RENDER_PREFIX)
}

/// The system's own name of the recording endpoint `id`.
pub fn wasapi_capture_endpoint_id(id: &str) -> (r: Option<&str>)
    ensures
        match r {
            Some(rest) => behind(id@, WASAPI_CAPTURE_PREFIX@) == Some(rest@),
            None => behind(id@, WASAPI_CAPTURE_PREFIX@) is None,
        },
{
    strip(id, WASAPI_CAPTURE_PREFIX)
}

/// Taking the prefix off an endpoint's identifier gives back the system's name of it.
pub proof fn endpoint_names_round_trip(name: Seq<char>, prefix: Seq<char>)
    ensures
        behind(prefix + name, prefix) == Some(name),
{
    let id = prefix + name;
    assert(id.subrange(0, prefix.len() as int) =~= prefix);
    assert(id.skip(prefix.len() as int) =~= name);
}

/// An endpoint as the system describes it.
#[derive(Debug)]
pub struct Endpoint {
    pub id: String,
    pub name: String,
}

/// What is added to the name of the default playback endpoint.
pub const DEFAULT_MARK: &'static str = "  ·  Default Windows output";

/// `endpoint` is the one that the system plays on by default.
pub open spec fn is_default(endpoint: Endpoint, default_id: Option<String>) -> bool {
    default_id matches Some(id) && id@ == endpoint.id@
}

/// `device` is what the playback endpoint `endpoint` is offered as.
pub open spec fn offered_as(
    endpoint: Endpoint,
    default_id: Option<String>,
    device: AudioDevice,
) -> bool {
    &&& device.id@ == WASAPI_RENDER_PREFIX@ + endpoint.id@
    &&& device.name@ == if is_default(endpoint, default_id) {
        endpoint.name@ + DEFAULT_MARK@
    } else {
        endpoint.name@
    }
}

/// The default endpoint ranks before all others.
pub open spec fn endpoint_ranks(endpoints: Seq<Endpoint>, default_id: Option<String>) -> Seq<Rank> {
    endpoints.map_values(
        |endpoint: Endpoint|
            Rank {
                first: if is_default(endpoint, default_id) {
                    0
                } else {
                    1
                },
                second: 0,
                third: 0,
            },
    )
}

/// `devices` are what the playback endpoints are offered as, in the order of their ranks.
pub open spec fn offers(
    endpoints: Seq<Endpoint>,
    default_id: Option<String>,
    devices: Seq<AudioDevice>,
) -> bool {
    exists|picked: Seq<usize>|
        #![trigger order::is_order(endpoint_ranks(endpoints, default_id), picked)]
        {
            &&& order::is_order(endpoint_ranks(endpoints, default_id), picked)
            &&& devices.len() == endpoints.len()
            &&& forall|i: int|
                0 <= i < devices.len() ==> offered_as(
                    endpoints[picked[i] as int],
                    default_id,
                    #[trigger] devices[i],
                )
        }
}

/// The playback devices that the system's endpoints are offered as: the default one
/// first and marked, the others in the order given.
pub fn enumerate_render_devices(endpoints: &Vec<Endpoint>, default_id: &Option<String>) -> (r: Vec<
    AudioDevice,
>)
    ensures
        offers(endpoints@, *default_id, r@),
{
    let mut ranks: Vec<Rank> = Vec::new();
    let mut i: usize = 0;
    while i < endpoints.len()
        invariant
            i <= endpoints.len(),
            ranks@ == endpoint_ranks(endpoints@, *default_id).take(i as int),
        decreases endpoints.len() - i,
    {
        let standard = match default_id {
            Some(id) => text::same(id.as_str(), endpoints[i].id.as_str()),
            None => false,
        };
        ranks.push(
            Rank {
                first: if standard {
                    0
                } else {
                    1
                },
                second: 0,
                third: 0,
            },
        );
        i += 1;
        assert(ranks@ =~= endpoint_ranks(endpoints@, *default_id).take(i as int));
    }
    assert(ranks@ =~= endpoint_ranks(endpoints@, *default_id));
    let picked = order::order_of(&ranks);
    let mut devices: Vec<AudioDevice> = Vec::new();
    let mut k: usize = 0;
    while k < picked.len()
        invariant
            k <= picked.len() == endpoints.len(),
            ranks@ == endpoint_ranks(endpoints@, *default_id),
            order::is_order(ranks@, picked@),
            devices@.len() == k,
            forall|i: int|
                0 <= i < k ==> offered_as(
                    endpoints@[picked@[i] as int],
                    *default_id,
                    #[trigger] devices@[i],
                ),
        decreases picked.len() - k,
    {
        let endpoint = &endpoints[picked[k]];
        let mut id = WASAPI_RENDER_PREFIX.to_owned();
        id.append(endpoint.id.as_str());
        let mut name = endpoint.name.clone();
        let standard = match default_id {
            Some(id) => text::same(id.as_str(), endpoint.id.as_str()),
            None => false,
        };
        if standard {
            name.append(DEFAULT_MARK);
        }
        devices.push(AudioDevice { name, id });
        k += 1;
    }
    assert(order::is_order(endpoint_ranks(endpoints@, *default_id), picked@));
    devices
}

/// `devices` are what the recording endpoints are offered as, in the order given.
pub open spec fn records(endpoints: Seq<Endpoint>, devices: Seq<AudioDevice>) -> bool {
    &&& devices.len() == endpoints.len()
    &&& forall|i: int|
        0 <= i < devices.len() ==> (#[trigger] devices[i]).name@ == endpoints[i].name@
            && devices[i].id@ == WASAPI_CAPTURE_PREFIX@ + endpoints[i].id@
}

/// The recording devices that the system's endpoints are offered as, in the order given.
pub fn enumerate_capture_devices(endpoints: &Vec<Endpoint>) -> (r: Vec<AudioDevice>)
    ensures
        records(endpoints@, r@),
{
    let mut devices: Vec<AudioDevice> = Vec::new();
    let mut i: usize = 0;
    while i < endpoints.len()
        invariant
            i <= endpoints.len(),
            devices@.len() == i,
            forall|j: int|
                0 <= j < i ==> (#[trigger] devices@[j]).name@ == endpoints@[j].name@
                    && devices@[j].id@ == WASAPI_CAPTURE_PREFIX@ + endpoints@[j].id@,
        decreases endpoints.len() - i,
    {
        let mut id = WASAPI_CAPTURE_PREFIX.to_owned();
        id.append(endpoints[i].id.as_str());
        devices.push(AudioDevice { name: endpoints[i].name.clone(), id });
        i += 1;
    }
    devices
}

/// `i` is the first of the endpoints that goes by `id`; those whose identifier could not
/// be read are passed over.
pub open spec fn first_endpoint(ids: Seq<Option<String>>, id: Seq<char>, i: int) -> bool {
    0 <= i < ids.len() && (ids[i] matches Some(name) && name@ == id) && forall|j: int|
        0 <= j < i ==> !(#[trigger] ids[j] matches Some(name) && name@ == id)
}

/// None of the endpoints goes by `id`.
pub open spec fn no_endpoint(ids: Seq<Option<String>>, id: Seq<char>) -> bool {
    forall|i: int|
        0 <= i < ids.len() ==> !(#[trigger] ids[i] matches Some(name) && name@ == id)
}

/// Where the endpoint `id` stands among those that the system has now.
pub fn find_endpoint(ids: &Vec<Option<String>>, id: &str) -> (r: Result<usize, String>)
    ensures
        match r {
            Ok(i) => first_endpoint(ids@, id@, i as int),
            Err(message) => {
                &&& message@ == "The selected Windows playback device is no longer available"@
                &&& no_endpoint(ids@, id@)
            },
        },
{
    let mut i: usize = 0;
    while i < ids.len()
        invariant
            i <= ids.len(),
            forall|j: int|
                0 <= j < i ==> !(#[trigger] ids@[j] matches Some(name) && name@ == id@),
        decreases ids.len() - i,
    {
        if let Some(name) = &ids[i] {
            if text::same(name.as_str(), id) {
                return Ok(i);
            }
        }
        i += 1;
    }
    Err("The selected Windows playback device is no longer available".to_owned())
}

/// How the wait for FFmpeg's connection to the relay goes on.
#[derive(Debug)]
pub enum AcceptOutcome {
    Connected,
    Nothing { stop_requested: bool, past_deadline: bool },
    Failed(String),
}

/// What the relay does next while it waits for FFmpeg.
#[derive(Debug)]
pub enum AcceptStep {
    Stream,
    Wait,
    Finish(Result<(), String>),
}

/// What the relay does after one look for a connection: a request to stop ends it
/// quietly, the deadline ends it with an error.
pub fn accept_step(outcome: AcceptOutcome) -> (r: AcceptStep)
    ensures
        match outcome {
            AcceptOutcome::Connected => r is Stream,
            AcceptOutcome::Nothing { stop_requested: true, .. } => r == AcceptStep::Finish(Ok(())),
            AcceptOutcome::Nothing { stop_requested: false, past_deadline: true } => {
                r matches AcceptStep::Finish(Err(message)) && message@
                    == "FFmpeg did not connect to the WASAPI audio relay"@
            },
            AcceptOutcome::Nothing { stop_requested: false, past_deadline: false } => r is Wait,
            AcceptOutcome::Failed(message) => r == AcceptStep::Finish(Err(message)),
        },
{
    match outcome {
        AcceptOutcome::Connected => AcceptStep::Stream,
        AcceptOutcome::Nothing { stop_requested, past_deadline } => {
            if stop_requested {
                AcceptStep::Finish(Ok(()))
            } else if past_deadline {
                AcceptStep::Finish(
                    Err("FFmpeg did not connect to the WASAPI audio relay".to_owned()),
                )
            } else {
                AcceptStep::Wait
            }
        },
        AcceptOutcome::Failed(message) => AcceptStep::Finish(Err(message)),
    }
}

/// Bytes of sound on their way from the endpoint to FFmpeg.
#[derive(Debug)]
pub struct SoundQueue {
    pub bytes: Vec<u8>,
}

/// What became of one write to FFmpeg.
#[derive(Debug)]
pub enum WriteOutcome {
    Written(usize),
    Busy,
    Disconnected,
    Failed(String),
}

/// What the relay does after one write to FFmpeg.
#[derive(Debug)]
pub enum WriteStep {
    WriteMore,
    ReadMore,
    Finish(Result<(), String>),
}

impl SoundQueue {
    /// Appends what was read from the endpoint; sound that is flagged as silent is
    /// replaced by zeros of the same length.
    pub fn receive(&mut self, packet: &Vec<u8>, silent: bool)
        ensures
            final(self).bytes@ == old(self).bytes@ + if silent {
                Seq::new(packet@.len(), |i: int| 0u8)
            } else {
                packet@
            },
    {
        let ghost sound = if silent {
            Seq::new(packet@.len(), |i: int| 0u8)
        } else {
            packet@
        };
        let mut i: usize = 0;
        while i < packet.len()
            invariant
                i <= packet.len(),
                sound == if silent {
                    Seq::new(packet@.len(), |i: int| 0u8)
                } else {
                    packet@
                },
                self.bytes@ == old(self).bytes@ + sound.take(i as int),
            decreases packet.len() - i,
        {
            self.bytes.push(
                if silent {
                    0
                } else {
                    packet[i]
                },
            );
            i += 1;
            assert(sound.take(i as int) =~= sound.take(i - 1).push(sound[i - 1]));
        }
        assert(sound.take(i as int) =~= sound);
    }

    /// Takes off what was written and tells what to do next. A busy receiver gets the
    /// rest later; one that is gone ends the relay without an error.
    pub fn after_write(&mut self, outcome: WriteOutcome) -> (r: WriteStep)
        requires
            outcome matches WriteOutcome::Written(n) ==> n <= old(self).bytes@.len(),
        ensures
            match outcome {
                WriteOutcome::Written(n) => {
                    &&& final(self).bytes@ == old(self).bytes@.skip(n as int)
                    &&& n == 0 ==> r == WriteStep::Finish(Ok(()))
                    &&& n > 0 && final(self).bytes@.len() > 0 ==> r is WriteMore
                    &&& n > 0 && final(self).bytes@.len() == 0 ==> r is ReadMore
                },
                WriteOutcome::Busy => r is ReadMore && final(self).bytes@ == old(self).bytes@,
                WriteOutcome::Disconnected => r == WriteStep::Finish(Ok(()))
                    && final(self).bytes@ == old(self).bytes@,
                WriteOutcome::Failed(message) => r == WriteStep::Finish(Err(message))
                    && final(self).bytes@ == old(self).bytes@,
            },
    {
        match outcome {
            WriteOutcome::Written(n) => {
                let rest = self.bytes.split_off(n);
                self.bytes = rest;
                assert(self.bytes@ =~= old(self).bytes@.skip(n as int));
                if n == 0 {
                    WriteStep::Finish(Ok(()))
                } else if self.bytes.len() > 0 {
                    WriteStep::WriteMore
                } else {
                    WriteStep::ReadMore
                }
            },
            WriteOutcome::Busy => WriteStep::ReadMore,
            WriteOutcome::Disconnected => WriteStep::Finish(Ok(())),
            WriteOutcome::Failed(message) => WriteStep::Finish(Err(message)),
        }
    }
}

/// What the relay's thread reported within the time it has to start.
#[derive(Debug)]
pub enum LoopbackReport {
    Ready,
    Failed(String),
    NoReport(String),
}

/// Whether the relay has started; if not, why.
pub fn loopback_started(report: LoopbackReport) -> (r: Result<(), String>)
    ensures
        match report {
            LoopbackReport::Ready => r == Ok::<(), String>(()),
            LoopbackReport::Failed(message) => r == Err::<(), String>(message),
            LoopbackReport::NoReport(message) => r matches Err(shown) && shown@
                == "WASAPI loopback did not start: "@ + message@,
        },
{
    match report {
        LoopbackReport::Ready => Ok(()),
        LoopbackReport::Failed(message) => Err(message),
        LoopbackReport::NoReport(message) => {
            let mut out = "WASAPI loopback did not start: ".to_owned();
            out.append(message.as_str());
            Err(out)
        },
    }
}

} // verus!
