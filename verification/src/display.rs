//! The displays that can be recorded.

use vstd::prelude::*;
use vstd::string::*;

use crate::order;
use crate::order::Rank;
use crate::text;

verus! {

/// A display: its place on the desktop, and the position at which Desktop Duplication
/// finds it.
#[derive(Debug, PartialEq, Eq)]
pub struct MonitorInfo {
    pub output_index: u32,
    pub id: String,
    pub label: String,
    pub x: i32,
    pub y: i32,
    pub width: u32,
    pub height: u32,
    pub primary: bool,
}

impl Clone for MonitorInfo {
    fn clone(&self) -> (r: Self)
        ensures
            r == *self,
    {
        MonitorInfo {
            output_index: self.output_index,
            id: self.id.clone(),
            label: self.label.clone(),
            x: self.x,
            y: self.y,
            width: self.width,
            height: self.height,
            primary: self.primary,
        }
    }
}

impl MonitorInfo {
    /// The text that offers the display.
    pub open spec fn offer(self) -> Seq<char> {
        self.label@ + " · "@ + text::decimal(self.width as nat) + "×"@ + text::decimal(
            self.height as nat,
        ) + if self.primary {
            " · Primary"@
        } else {
            ""@
        }
    }

    /// The text that offers the display.
    pub fn display_label(&self) -> (r: String)
        ensures
            r@ == self.offer(),
    {
        let mut out = self.label.clone();
        out.append(" · ");
        text::push_decimal(&mut out, self.width as u64);
        out.append("×");
        text::push_decimal(&mut out, self.height as u64);
        out.append(
            if self.primary {
                " · Primary"
            } else {
                ""
            },
        );
        out
    }
}

/// A display as the system describes it.
#[derive(Debug)]
pub struct RawMonitor {
    pub id: String,
    pub left: i32,
    pub top: i32,
    pub right: i32,
    pub bottom: i32,
    pub primary: bool,
}

/// What the names of the system's display devices begin with.
pub const DEVICE_PREFIX: &'static str = "\\\\.\\";

/// The distance from `low` to `high`, at least 1.
pub open spec fn extent(low: i32, high: i32) -> int {
    if high - low < 1 {
        1
    } else {
        high - low
    }
}

/// The distance from `low` to `high`, at least 1.
fn extent_of(low: i32, high: i32) -> (r: u32)
    ensures
        r == extent(low, high),
{
    let distance: i64 = high as i64 - low as i64;
    if distance < 1 {
        1
    } else {
        distance as u32
    }
}

/// `monitor` is what the display `raw` is offered as, when the system names it at
/// position `index`.
pub open spec fn describes(monitor: MonitorInfo, raw: RawMonitor, index: int) -> bool {
    &&& monitor.output_index == index
    &&& monitor.id@ == raw.id@
    &&& monitor.label@ == text::without(raw.id@, DEVICE_PREFIX@)
    &&& monitor.x == raw.left
    &&& monitor.y == raw.top
    &&& monitor.width == extent(raw.left, raw.right)
    &&& monitor.height == extent(raw.top, raw.bottom)
    &&& monitor.primary == raw.primary
}

/// The primary display ranks before all others; the rest go from left to right, then
/// from top to bottom.
pub open spec fn monitor_ranks(raw: Seq<RawMonitor>) -> Seq<Rank> {
    raw.map_values(
        |monitor: RawMonitor|
            Rank {
                first: if monitor.primary {
                    0
                } else {
                    1
                },
                second: monitor.left as i128,
                third: monitor.top as i128,
            },
    )
}

/// `monitors` are what the displays `raw` are offered as, in the order of their ranks.
pub open spec fn offers(raw: Seq<RawMonitor>, monitors: Seq<MonitorInfo>) -> bool {
    exists|picked: Seq<usize>|
        #![trigger order::is_order(monitor_ranks(raw), picked)]
        {
            &&& order::is_order(monitor_ranks(raw), picked)
            &&& monitors.len() == raw.len()
            &&& forall|i: int|
                0 <= i < monitors.len() ==> describes(
                    #[trigger] monitors[i],
                    raw[picked[i] as int],
                    picked[i] as int,
                )
        }
}

/// The displays that the system reports: the primary one first, then by place. Each
/// keeps the position at which the system named it.
pub fn enumerate_monitors(raw: &Vec<RawMonitor>) -> (r: Vec<MonitorInfo>)
    requires
        raw@.len() <= u32::MAX,
    ensures
        offers(raw@, r@),
{
    let mut ranks: Vec<Rank> = Vec::new();
    let mut i: usize = 0;
    while i < raw.len()
        invariant
            i <= raw.len(),
            ranks@ == monitor_ranks(raw@).take(i as int),
        decreases raw.len() - i,
    {
        ranks.push(
            Rank {
                first: if raw[i].primary {
                    0
                } else {
                    1
                },
                second: raw[i].left as i128,
                third: raw[i].top as i128,
            },
        );
        i += 1;
        assert(ranks@ =~= monitor_ranks(raw@).take(i as int));
    }
    assert(ranks@ =~= monitor_ranks(raw@));
    let picked = order::order_of(&ranks);
    let mut monitors: Vec<MonitorInfo> = Vec::new();
    let mut k: usize = 0;
    while k < picked.len()
        invariant
            k <= picked.len() == raw.len() <= u32::MAX,
            ranks@ == monitor_ranks(raw@),
            order::is_order(ranks@, picked@),
            monitors@.len() == k,
            forall|i: int|
                0 <= i < k ==> describes(
                    #[trigger] monitors@[i],
                    raw@[picked@[i] as int],
                    picked@[i] as int,
                ),
        decreases picked.len() - k,
    {
        let at: usize = picked[k];
        let monitor = &raw[at];
        monitors.push(
            MonitorInfo {
                output_index: at as u32,
                id: monitor.id.clone(),
                label: text::removed(monitor.id.as_str(), DEVICE_PREFIX),
                x: monitor.left,
                y: monitor.top,
                width: extent_of(monitor.left, monitor.right),
                height: extent_of(monitor.top, monitor.bottom),
                primary: monitor.primary,
            },
        );
        k += 1;
    }
    assert(order::is_order(monitor_ranks(raw@), picked@));
    monitors
}

/// The display assumed where the system cannot be asked.
pub fn assumed_monitor() -> (r: MonitorInfo)
    ensures
        r.output_index == 0,
        r.id@ == "primary"@,
        r.label@ == "Primary display"@,
        r.x == 0,
        r.y == 0,
        r.width == 1920,
        r.height == 1080,
        r.primary,
{
    MonitorInfo {
        output_index: 0,
        id: "primary".to_owned(),
        label: "Primary display".to_owned(),
        x: 0,
        y: 0,
        width: 1920,
        height: 1080,
        primary: true,
    }
}

/// `i` is the first display with the identifier `id`.
pub open spec fn first_named(monitors: Seq<MonitorInfo>, id: Seq<char>, i: int) -> bool {
    0 <= i < monitors.len() && monitors[i].id@ == id && forall|j: int|
        0 <= j < i ==> (#[trigger] monitors[j]).id@ != id
}

/// Some display has the identifier `id`.
pub open spec fn any_named(monitors: Seq<MonitorInfo>, id: Seq<char>) -> bool {
    exists|i: int| 0 <= i < monitors.len() && (#[trigger] monitors[i]).id@ == id
}

/// `i` is the first primary display.
pub open spec fn first_primary(monitors: Seq<MonitorInfo>, i: int) -> bool {
    0 <= i < monitors.len() && monitors[i].primary && forall|j: int|
        0 <= j < i ==> !(#[trigger] monitors[j]).primary
}

/// Some display is primary.
pub open spec fn any_primary(monitors: Seq<MonitorInfo>) -> bool {
    exists|i: int| 0 <= i < monitors.len() && (#[trigger] monitors[i]).primary
}

/// `i` is the display to record when the one named `id` was chosen: that one, else the
/// primary one, else the first.
pub open spec fn monitor_choice(monitors: Seq<MonitorInfo>, id: Option<Seq<char>>, i: int) -> bool {
    match id {
        Some(name) if any_named(monitors, name) => first_named(monitors, name, i),
        _ => if any_primary(monitors) {
            first_primary(monitors, i)
        } else {
            i == 0 && monitors.len() > 0
        },
    }
}

/// Where a display with the identifier `id` stands.
fn named_at(monitors: &Vec<MonitorInfo>, id: &str) -> (r: Option<usize>)
    ensures
        match r {
            Some(i) => first_named(monitors@, id@, i as int) && any_named(monitors@, id@),
            None => !any_named(monitors@, id@),
        },
{
    let mut i: usize = 0;
    while i < monitors.len()
        invariant
            i <= monitors.len(),
            forall|j: int| 0 <= j < i ==> (#[trigger] monitors@[j]).id@ != id@,
        decreases monitors.len() - i,
    {
        if text::same(monitors[i].id.as_str(), id) {
            return Some(i);
        }
        i += 1;
    }
    None
}

/// Where the primary display stands.
fn primary_at(monitors: &Vec<MonitorInfo>) -> (r: Option<usize>)
    ensures
        match r {
            Some(i) => first_primary(monitors@, i as int) && any_primary(monitors@),
            None => !any_primary(monitors@),
        },
{
    let mut i: usize = 0;
    while i < monitors.len()
        invariant
            i <= monitors.len(),
            forall|j: int| 0 <= j < i ==> !(#[trigger] monitors@[j]).primary,
        decreases monitors.len() - i,
    {
        if monitors[i].primary {
            return Some(i);
        }
        i += 1;
    }
    None
}

/// `found` is the display to record when the one named `id` was chosen, if there is any.
pub open spec fn is_selected(
    monitors: Seq<MonitorInfo>,
    id: Option<Seq<char>>,
    found: Option<MonitorInfo>,
) -> bool {
    match found {
        Some(monitor) => exists|i: int|
            #[trigger] monitor_choice(monitors, id, i) && monitor == monitors[i],
        None => monitors.len() == 0,
    }
}

/// The display to record when the one named `id` was chosen.
pub fn selected_monitor(monitors: &Vec<MonitorInfo>, id: &Option<String>) -> (r: Option<MonitorInfo>)
    ensures
        is_selected(monitors@, text::shown(*id), r),
{
    let mut at: Option<usize> = None;
    if let Some(name) = id {
        at = named_at(monitors, name.as_str());
    }
    if at.is_none() {
        at = primary_at(monitors);
        if at.is_none() && monitors.len() > 0 {
            at = Some(0);
        }
    }
    match at {
        Some(i) => {
            assert(monitor_choice(monitors@, text::shown(*id), i as int));
            Some(monitors[i].clone())
        },
        None => None,
    }
}

/// The choice is never open: a list of displays has at most one display to record.
pub proof fn monitor_choice_is_unique(
    monitors: Seq<MonitorInfo>,
    id: Option<Seq<char>>,
    a: int,
    b: int,
)
    requires
        monitor_choice(monitors, id, a),
        monitor_choice(monitors, id, b),
    ensures
        a == b,
{
    if a < b {
        assert(0 <= a < monitors.len());
        assert(monitors[a] == monitors[a]);
    } else if b < a {
        assert(monitors[b] == monitors[b]);
    }
}

} // verus!
