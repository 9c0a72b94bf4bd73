//! Points in time, and their text in UTC.

use vstd::prelude::*;

verus! {

/// A point in time: seconds since the Unix epoch and nanoseconds within the second.
#[derive(Debug, Clone, Copy, PartialEq, Eq, Structural)]
pub struct Timestamp {
    pub seconds: i64,
    pub nanos: u32,
}

impl Timestamp {
    /// This point lies after `other`.
    pub open spec fn is_after(self, other: Timestamp) -> bool {
        self.seconds > other.seconds || self.seconds == other.seconds && self.nanos > other.nanos
    }

    /// Whether this point lies after `other`.
    pub fn after(&self, other: &Timestamp) -> (r: bool)
        ensures
            r == self.is_after(*other),
    {
        self.seconds > other.seconds || self.seconds == other.seconds && self.nanos > other.nanos
    }
}

/// The pattern of the time in a clip's file name.
pub const FILE_STAMP: &'static str = "%Y%m%d-%H%M%S";

/// The pattern of the time in a clip's title.
pub const TITLE_STAMP: &'static str = "%Y-%m-%d %H:%M";

/// The pattern of the time on a clip's card.
pub const CARD_STAMP: &'static str = "%b %d, %H:%M";

/// One of the three patterns above.
pub open spec fn is_stamp(pattern: Seq<char>) -> bool {
    pattern == FILE_STAMP@ || pattern == TITLE_STAMP@ || pattern == CARD_STAMP@
}

/// The text that a time pattern gives for a point in time; none where the point is
/// outside the calendar.
pub uninterp spec fn utc_text(seconds: i64, nanos: u32, pattern: Seq<char>) -> Option<Seq<char>>;

/// `chrono::DateTime::from_timestamp`, then `DateTime::format`: the text of a point
/// in time under a pattern. It is `None` exactly where the point is outside chrono's
/// calendar. A malformed pattern would panic, so only the three known ones are taken.
#[verifier::external_body]
pub(crate) fn format_utc(at: Timestamp, pattern: &str) -> (r: Option<String>)
    requires
        is_stamp(pattern@),
    ensures
        match r {
            Some(shown) => utc_text(at.seconds, at.nanos, pattern@) == Some(shown@),
            None => utc_text(at.seconds, at.nanos, pattern@) is None,
        },
{
    chrono::DateTime::from_timestamp(at.seconds, at.nanos).map(|time| time.format(pattern).to_string())
}

/// `chrono::Utc::now`: the current time. It never lies before the epoch (chrono
/// panics on a system clock set that early), its nanoseconds stay within the second,
/// and it is inside the calendar, so that it has a text under each pattern. Which
/// time it is depends on the machine's clock and is not stated.
#[verifier::external_body]
fn read_clock() -> (r: Timestamp)
    ensures
        r.seconds >= 0,
        r.nanos < 1_000_000_000,
        forall|pattern: Seq<char>|
            is_stamp(pattern) ==> #[trigger] utc_text(r.seconds, r.nanos, pattern) is Some,
{
    let time = chrono::Utc::now();
    Timestamp { seconds: time.timestamp(), nanos: time.timestamp_subsec_nanos() }
}

/// `time` is what a call of `chrono::Utc::now` gave.
pub closed spec fn was_read(time: Timestamp) -> bool {
    call_ensures(read_clock, (), time)
}

/// The current time.
pub(crate) fn now() -> (r: Timestamp)
    ensures
        was_read(r),
        r.seconds >= 0,
        r.nanos < 1_000_000_000,
        forall|pattern: Seq<char>|
            is_stamp(pattern) ==> #[trigger] utc_text(r.seconds, r.nanos, pattern) is Some,
{
    let read = read_clock;
    read()
}

} // verus!
