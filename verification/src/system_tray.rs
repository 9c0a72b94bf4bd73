//! The icon in the notification area and its menu.

use vstd::prelude::*;
use vstd::string::*;

use crate::text;

verus! {

/// What the user asked for in the notification area.
#[derive(Debug, Clone, Copy, PartialEq, Eq, Structural)]
pub enum TrayAction {
    Show,
    ToggleReplayBuffer,
    SaveClip,
    Quit,
}

/// The identifiers of the menu's entries.
pub const OPEN_ID: &'static str = "xyra.tray.open";

pub const CAPTURE_ID: &'static str = "xyra.tray.capture";

pub const SAVE_ID: &'static str = "xyra.tray.save";

pub const QUIT_ID: &'static str = "xyra.tray.quit";

/// What choosing a menu entry asks for; entries without a meaning ask for nothing.
pub fn menu_action(id: &str) -> (r: Option<TrayAction>)
    ensures
        r == if id@ == OPEN_ID@ {
            Some(TrayAction::Show)
        } else if id@ == CAPTURE_ID@ {
            Some(TrayAction::ToggleReplayBuffer)
        } else if id@ == SAVE_ID@ {
            Some(TrayAction::SaveClip)
        } else if id@ == QUIT_ID@ {
            Some(TrayAction::Quit)
        } else {
            None
        },
{
    if text::same(id, OPEN_ID) {
        Some(TrayAction::Show)
    } else if text::same(id, CAPTURE_ID) {
        Some(TrayAction::ToggleReplayBuffer)
    } else if text::same(id, SAVE_ID) {
        Some(TrayAction::SaveClip)
    } else if text::same(id, QUIT_ID) {
        Some(TrayAction::Quit)
    } else {
        None
    }
}

/// Whether using the mouse on the icon opens the window: a click or double click with
/// the left button, the click when it ends.
pub fn opens_window(left_button: bool, double_click: bool, released: bool) -> (r: bool)
    ensures
        r == (left_button && (double_click || released)),
{
    left_button && (double_click || released)
}

/// What the menu shows.
#[derive(Debug)]
pub struct TrayTexts {
    pub status: &'static str,
    pub capture: &'static str,
    pub save: String,
    pub save_enabled: bool,
    pub tooltip: &'static str,
}

/// What the menu was last set to.
#[derive(Debug, Clone, Copy, PartialEq, Eq, Structural)]
pub struct TrayState {
    pub was_running: Option<bool>,
    pub clip_seconds: u32,
}

impl TrayTexts {
    /// This is what the menu shows of a recorder and a clip length.
    pub open spec fn show(self, running: bool, clip_seconds: u32) -> bool {
        &&& self.status@ == if running {
            "Replay buffer: Recording"@
        } else {
            "Replay buffer: Stopped"@
        }
        &&& self.capture@ == if running {
            "Stop replay buffer"@
        } else {
            "Start replay buffer"@
        }
        &&& self.save@ == "Save last "@ + text::decimal(
            if clip_seconds < 5 {
                5
            } else {
                clip_seconds as nat
            },
        ) + " seconds"@
        &&& self.save_enabled == running
        &&& self.tooltip@ == if running {
            "Xyra — Replay buffer recording"@
        } else {
            "Xyra — Replay buffer stopped"@
        }
    }
}

impl TrayState {
    /// A menu that has not been set yet.
    pub fn new() -> (r: Self)
        ensures
            r.was_running is None,
            r.clip_seconds == 0,
    {
        TrayState { was_running: None, clip_seconds: 0 }
    }

    /// What the menu has to be set to, if anything has changed since the last time.
    pub fn update(&mut self, running: bool, clip_seconds: u32) -> (r: Option<TrayTexts>)
        ensures
            final(self).was_running == Some(running),
            final(self).clip_seconds == clip_seconds,
            match r {
                Some(texts) => *old(self) != *final(self) && texts.show(running, clip_seconds),
                None => *old(self) == *final(self),
            },
    {
        let next = TrayState { was_running: Some(running), clip_seconds };
        if *self == next {
            return None;
        }
        *self = next;
        let mut save = "Save last ".to_owned();
        text::push_decimal(
            &mut save,
            if clip_seconds < 5 {
                5
            } else {
                clip_seconds as u64
            },
        );
        save.append(" seconds");
        Some(
            TrayTexts {
                status: if running {
                    "Replay buffer: Recording"
                } else {
                    "Replay buffer: Stopped"
                },
                capture: if running {
                    "Stop replay buffer"
                } else {
                    "Start replay buffer"
                },
                save,
                save_enabled: running,
                tooltip: if running {
                    "Xyra — Replay buffer recording"
                } else {
                    "Xyra — Replay buffer stopped"
                },
            },
        )
    }
}

/// The distance of two numbers.
pub open spec fn distance(a: int, b: int) -> int {
    if a < b {
        b - a
    } else {
        a - b
    }
}

/// The point lies in the disc of the icon.
pub open spec fn in_disc(x: int, y: int) -> bool {
    (x - 16) * (x - 16) + (y - 16) * (y - 16) <= 225
}

/// The point lies on the cross of the icon.
pub open spec fn on_cross(x: int, y: int) -> bool {
    distance(x, y) <= 2 || distance(x + y, 31) <= 2
}

/// The red, green, blue and opacity of a point of the icon: a light cross on a violet
/// disc.
pub open spec fn pixel(x: int, y: int) -> Seq<u8> {
    if in_disc(x, y) && on_cross(x, y) {
        seq![245u8, 243u8, 255u8, 255u8]
    } else if in_disc(x, y) {
        seq![112u8, 78u8, 255u8, 255u8]
    } else {
        seq![0u8, 0u8, 0u8, 0u8]
    }
}

/// The first `n` points of the icon, row by row.
pub open spec fn pixels(n: nat) -> Seq<u8>
    decreases n,
{
    if n == 0 {
        Seq::empty()
    } else {
        pixels((n - 1) as nat) + pixel((n - 1) % 32, (n - 1) / 32)
    }
}

/// The icon, 32 by 32 points, row by row.
pub fn tray_icon_rgba() -> (r: Vec<u8>)
    ensures
        r@ == pixels(1024),
        r@.len() == 4096,
{
    let mut rgba: Vec<u8> = Vec::new();
    let mut n: u32 = 0;
    while n < 1024
        invariant
            n <= 1024,
            rgba@ == pixels(n as nat),
            rgba@.len() == 4 * n,
        decreases 1024 - n,
    {
        let x: i32 = (n % 32) as i32;
        let y: i32 = (n / 32) as i32;
        let (dx, dy): (i32, i32) = (x - 16, y - 16);
        assert(0 <= dx * dx <= 256 && 0 <= dy * dy <= 256) by (nonlinear_arith)
            requires
                -16 <= dx <= 15,
                -16 <= dy <= 15,
        ;
        let inside = dx * dx + dy * dy <= 225;
        let cross = (x - y <= 2 && y - x <= 2) || (x + y - 31 <= 2 && 31 - x - y <= 2);
        let (red, green, blue, opacity): (u8, u8, u8, u8) = if inside && cross {
            (245, 243, 255, 255)
        } else if inside {
            (112, 78, 255, 255)
        } else {
            (0, 0, 0, 0)
        };
        let ghost before = rgba@;
        rgba.push(red);
        rgba.push(green);
        rgba.push(blue);
        rgba.push(opacity);
        n += 1;
        assert(rgba@ =~= before + pixel((n - 1) % 32, (n - 1) / 32));
    }
    rgba
}

} // verus!
