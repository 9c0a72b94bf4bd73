//! What the program does beside recording: installing FFmpeg, starting with the system, the
//! notification area and the credential store.

use vstd::prelude::*;

use crate::credentials;
use crate::credentials::{DeleteAnswer, SecretAnswer};
use crate::ffmpeg;
use crate::ffmpeg::{FfmpegInstaller, InstallState};
use crate::laws::reading;
use crate::startup;
use crate::system_tray;
use crate::system_tray::{TrayAction, TrayState, TrayTexts};
use crate::text;

verus! {

/// While FFmpeg is downloaded the whole percents of what has come are shown: a hundred of
/// them at the end, and none of a size that is not known.
pub proof fn downloads_show_their_percents(downloaded: u64, total: u64, state: InstallState, r: String)
    requires
        state == (InstallState::Downloading { downloaded, total }),
        call_ensures(InstallState::label, (&state,), r),
        downloaded < 0x0100_0000_0000_0000,
    ensures
        total == 0 ==> r@ == "Downloading FFmpeg..."@,
        total > 0 ==> exists|n: Seq<char>, percent: int|
            #![trigger reading::writes(n, percent)]
            {
                &&& reading::writes(n, percent)
                &&& percent * total <= 100 * downloaded < (percent + 1) * total
                &&& r@ == "Downloading FFmpeg "@ + n + "%"@
            },
{
    if total > 0 {
        let percent = ffmpeg::percent(downloaded, total);
        reading::lemma_decimal_writes(percent);
        let p = percent as int;
        assert(p * total <= 100 * downloaded < (p + 1) * total) by (nonlinear_arith)
            requires
                p == (downloaded * 100) / (total as int),
                total > 0,
        ;
        assert(reading::writes(text::decimal(percent), p));
    }
}

/// Every state of the installation is shown in its own words.
pub proof fn states_are_shown_in_their_own_words(
    a: InstallState,
    b: InstallState,
    r: String,
    s: String,
)
    requires
        call_ensures(InstallState::label, (&a,), r),
        call_ensures(InstallState::label, (&b,), s),
        !(a is Downloading),
        !(b is Downloading),
        r@ == s@,
    ensures
        a is NotManaged <==> b is NotManaged,
        a is Starting <==> b is Starting,
        a is Unpacking <==> b is Unpacking,
        a is Ready <==> b is Ready,
        a is Failed <==> b is Failed,
{
    reveal_strlit("Custom FFmpeg path");
    reveal_strlit("Preparing FFmpeg...");
    reveal_strlit("Installing FFmpeg...");
    reveal_strlit("FFmpeg ready");
    reveal_strlit("FFmpeg setup failed");
    assert("Custom FFmpeg path"@[0] == 'C' && "Preparing FFmpeg..."@[0] == 'P'
        && "Installing FFmpeg..."@[0] == 'I' && "FFmpeg ready"@[7] == 'r' && "FFmpeg ready"@[0]
        == 'F' && "FFmpeg setup failed"@[7] == 's' && "FFmpeg setup failed"@[0] == 'F');
}

/// Progress is a part of a whole: what was downloaded, never more than there is, nothing at
/// the start and everything while unpacking. States without a measure have none.
pub proof fn progress_is_a_part_of_the_whole(state: InstallState, r: Option<(u64, u64)>)
    requires
        call_ensures(InstallState::progress, (&state,), r),
    ensures
        r matches Some(done) ==> done.0 <= done.1 && done.1 > 0,
        state is Starting ==> r is Some && r.unwrap().0 == 0,
        state is Unpacking ==> r is Some && r.unwrap().0 == r.unwrap().1,
        state matches InstallState::Downloading { downloaded, total } ==> (r is Some <==> total > 0)
            && (total > 0 ==> r.unwrap().1 == total) && (downloaded <= total && total > 0
            ==> r.unwrap().0 == downloaded) && (downloaded > total && total > 0 ==> r.unwrap().0
            == total),
        state is Ready || state is Failed || state is NotManaged ==> r is None,
{
}

/// An FFmpeg that works is used as it is; one that does not is installed where the program
/// manages it, and left alone where it does not.
pub proof fn broken_ffmpeg_is_replaced_where_managed(
    destination: String,
    works: bool,
    managed: bool,
    r: FfmpegInstaller,
    state: &InstallState,
    place: &str,
)
    requires
        call_ensures(FfmpegInstaller::new, (destination, works, managed), r),
        call_ensures(FfmpegInstaller::state, (&r,), state),
        call_ensures(FfmpegInstaller::destination, (&r,), place),
    ensures
        place@ == destination@,
        *state is Ready <==> works,
        *state is Starting <==> !works && managed,
        *state is NotManaged <==> !works && !managed,
        r.listening <==> *state is Starting,
{
}

/// An installation listens from its start until its reports end, and shows the last one.
pub proof fn installations_show_their_last_report(
    installer: &mut FfmpegInstaller,
    reports: Vec<InstallState>,
    ended: bool,
    r: bool,
    state: &InstallState,
)
    requires
        call_ensures(FfmpegInstaller::poll, (installer, reports, ended), r),
        call_ensures(FfmpegInstaller::state, (&*final(installer),), state),
    ensures
        !old(installer).listening ==> !r,
        reports@.len() == 0 ==> !r,
        !r ==> *state == old(installer).state,
        old(installer).listening && reports@.len() > 0 ==> r && *state == reports@[reports@.len()
            - 1],
        final(installer).listening ==> old(installer).listening && !ended,
        old(installer).listening && !ended ==> final(installer).listening,
        final(installer).destination@ == old(installer).destination@,
{
}

/// A started installation listens.
pub proof fn started_installations_listen(destination: String, r: FfmpegInstaller)
    requires
        call_ensures(FfmpegInstaller::start, (destination,), r),
    ensures
        r.listening && r.state is Starting && r.destination@ == destination@,
{
}

/// What is installed counts only where it works, what lies in its place is removed only where
/// it does not, and without a directory nothing is installed.
pub proof fn installations_end_with_a_check(
    works: bool,
    r: InstallState,
    there: bool,
    removed: bool,
    parent: Option<String>,
    dir: Result<String, String>,
)
    requires
        call_ensures(ffmpeg::install_result, (works,), r),
        call_ensures(ffmpeg::removes_broken, (there, works), removed),
        call_ensures(ffmpeg::install_directory, (parent,), dir),
    ensures
        r is Ready <==> works,
        r is Failed <==> !works,
        works ==> !removed,
        !there ==> !removed,
        there && !works ==> removed,
        dir is Ok <==> parent is Some,
        dir matches Ok(path) ==> path@ == parent.unwrap()@,
{
}

/// The command that the system runs holds the program's path between quotes, and then the
/// mark by which the program knows that the system started it.
pub proof fn the_system_starts_the_program(executable: &str, r: String)
    requires
        call_ensures(startup::startup_command, (executable,), r),
    ensures
        r@ == seq!['"'] + executable@ + seq!['"', ' '] + startup::AUTOSTART_FLAG@,
        startup::AUTOSTART_FLAG@ == "--autostart"@,
        startup::RUN_KEY@ == "Software\\Microsoft\\Windows\\CurrentVersion\\Run"@,
        startup::RUN_VALUE_NAME@ == "Xyra"@,
{
    reveal_strlit("\"");
    reveal_strlit("\" --autostart");
    reveal_strlit("--autostart");
    assert(r@ =~= seq!['"'] + executable@ + seq!['"', ' '] + "--autostart"@);
}

/// A registration is as wanted where the registry says so, and also where nothing was there
/// to be taken out; every other answer is the error. Where there is no registry only not
/// starting can be had.
pub proof fn registrations_end_as_wanted(
    enabled: bool,
    code: u32,
    r: Result<(), u32>,
    s: Result<(), String>,
)
    requires
        call_ensures(startup::registration_result, (enabled, code), r),
        call_ensures(startup::unsupported_registration, (enabled,), s),
    ensures
        code == 0 ==> r is Ok,
        enabled && code != 0 ==> r == Err::<(), u32>(code),
        !enabled && code == 2 ==> r is Ok,
        !enabled && code != 0 && code != 2 ==> r == Err::<(), u32>(code),
        s is Ok <==> !enabled,
{
}

/// Each entry of the menu asks for its own thing, and nothing else asks for any.
pub proof fn menu_entries_ask_for_their_own(
    id: &str,
    r: Option<TrayAction>,
    other: &str,
    s: Option<TrayAction>,
)
    requires
        call_ensures(system_tray::menu_action, (id,), r),
        call_ensures(system_tray::menu_action, (other,), s),
    ensures
        id@ == system_tray::OPEN_ID@ <==> r == Some(TrayAction::Show),
        id@ == system_tray::CAPTURE_ID@ <==> r == Some(TrayAction::ToggleReplayBuffer),
        id@ == system_tray::SAVE_ID@ <==> r == Some(TrayAction::SaveClip),
        id@ == system_tray::QUIT_ID@ <==> r == Some(TrayAction::Quit),
        r is Some && r == s ==> id@ == other@,
        system_tray::OPEN_ID@ == "xyra.tray.open"@,
        system_tray::CAPTURE_ID@ == "xyra.tray.capture"@,
        system_tray::SAVE_ID@ == "xyra.tray.save"@,
        system_tray::QUIT_ID@ == "xyra.tray.quit"@,
{
    reveal_strlit("xyra.tray.open");
    reveal_strlit("xyra.tray.capture");
    reveal_strlit("xyra.tray.save");
    reveal_strlit("xyra.tray.quit");
    assert("xyra.tray.open"@[10] == 'o' && "xyra.tray.capture"@[10] == 'c' && "xyra.tray.save"@[10]
        == 's' && "xyra.tray.quit"@[10] == 'q');
}

/// The window opens for the left button only: for a double click, and for a click when it
/// ends.
pub proof fn the_left_button_opens_the_window(left: bool, double: bool, released: bool, r: bool)
    requires
        call_ensures(system_tray::opens_window, (left, double, released), r),
    ensures
        !left ==> !r,
        left && double ==> r,
        left && released ==> r,
        !double && !released ==> !r,
{
}

/// The menu is set once for each change, and then shows what is so: that the recorder runs or
/// not, what can be done about it, and how many seconds would be saved.
pub proof fn menus_follow_the_recorder(
    state: &mut TrayState,
    running: bool,
    seconds: u32,
    r: Option<TrayTexts>,
)
    requires
        call_ensures(TrayState::update, (state, running, seconds), r),
    ensures
        r is None <==> old(state).was_running == Some(running) && old(state).clip_seconds == seconds,
        final(state).was_running == Some(running) && final(state).clip_seconds == seconds,
        r matches Some(texts) ==> {
            &&& texts.save_enabled <==> running
            &&& running ==> texts.status@ == "Replay buffer: Recording"@ && texts.capture@
                == "Stop replay buffer"@
            &&& !running ==> texts.status@ == "Replay buffer: Stopped"@ && texts.capture@
                == "Start replay buffer"@
            &&& exists|n: Seq<char>, shown: int|
                #![trigger reading::writes(n, shown)]
                {
                    &&& reading::writes(n, shown)
                    &&& seconds >= 5 ==> shown == seconds
                    &&& seconds < 5 ==> shown == 5
                    &&& texts.save@ == "Save last "@ + n + " seconds"@
                }
            &&& running ==> texts.tooltip@ == "Xyra — Replay buffer recording"@
            &&& !running ==> texts.tooltip@ == "Xyra — Replay buffer stopped"@
        },
{
    let shown = if seconds < 5 {
        5nat
    } else {
        seconds as nat
    };
    reading::lemma_decimal_writes(shown);
    if let Some(texts) = r {
        assert(reading::writes(text::decimal(shown), shown as int));
    }
}

/// A menu that was never set is set by the first look at the recorder.
pub proof fn new_menus_are_set(r: TrayState)
    requires
        call_ensures(TrayState::new, (), r),
    ensures
        r.was_running is None,
{
}

/// The point lies in the disc around the icon's middle.
pub open spec fn lies_in_disc(x: int, y: int) -> bool {
    let dx = x - 16;
    let dy = y - 16;
    dx * dx + dy * dy <= 15 * 15
}

/// The icon is a disc, clear around it: within it the two diagonals are light, the rest is
/// violet.
pub proof fn icons_are_crossed_discs(r: Vec<u8>, x: int, y: int)
    requires
        call_ensures(system_tray::tray_icon_rgba, (), r),
        0 <= x < 32,
        0 <= y < 32,
    ensures
        r@.len() == 4 * 32 * 32,
        ({
            let at = 4 * (32 * y + x);
            let point = (r@[at], r@[at + 1], r@[at + 2], r@[at + 3]);
            let near = -2 <= x - y <= 2 || -2 <= x + y - 31 <= 2;
            &&& !lies_in_disc(x, y) ==> point == (0u8, 0u8, 0u8, 0u8)
            &&& lies_in_disc(x, y) && near ==> point == (245u8, 243u8, 255u8, 255u8)
            &&& lies_in_disc(x, y) && !near ==> point == (112u8, 78u8, 255u8, 255u8)
        }),
{
    let n = 32 * y + x;
    lemma_pixels(1024, n);
    assert(n % 32 == x && n / 32 == y);
    let p = system_tray::pixel(x, y);
    let at = 4 * n;
    let part = r@.subrange(at, at + 4);
    assert(part == p);
    assert(part[0] == r@[at] && part[1] == r@[at + 1] && part[2] == r@[at + 2] && part[3] == r@[at
        + 3]);
}

/// The points stand one after the other, four bytes each.
proof fn lemma_pixels(n: nat, k: int)
    requires
        0 <= k < n,
    ensures
        system_tray::pixels(n).len() == 4 * n,
        system_tray::pixels(n).subrange(4 * k, 4 * k + 4) == system_tray::pixel(k % 32, k / 32),
    decreases n,
{
    let front = system_tray::pixels((n - 1) as nat);
    let last = system_tray::pixel((n - 1) % 32, (n - 1) / 32);
    assert(last.len() == 4);
    if n > 1 {
        lemma_pixels((n - 1) as nat, if k < n - 1 { k } else { 0 });
    } else {
        assert(front.len() == 0);
    }
    assert(system_tray::pixels(n) == front + last);
    if k < n - 1 {
        assert((front + last).subrange(4 * k, 4 * k + 4) =~= front.subrange(4 * k, 4 * k + 4));
    } else {
        assert((front + last).subrange(4 * k, 4 * k + 4) =~= last);
    }
}

/// A secret is read exactly where the store holds one that is text, and is then what was
/// stored; that nothing is stored is no error, other failures are.
pub proof fn secrets_are_read_as_stored(answer: SecretAnswer, r: Result<Option<String>, String>)
    requires
        call_ensures(credentials::read_secret, (answer,), r),
    ensures
        answer is Nothing ==> r == Ok::<Option<String>, String>(None),
        answer matches SecretAnswer::Failed { code, message } ==> (code == Some(1168i32) ==> r == Ok::<
            Option<String>,
            String,
        >(None)) && (code != Some(1168i32) ==> r == Err::<Option<String>, String>(message)),
        answer matches SecretAnswer::Found(stored) ==> (r matches Ok(found) ==> found is Some
            && vstd::utf8::encode_utf8(found.unwrap()@) == stored@) && (vstd::utf8::valid_utf8(stored@)
            ==> r is Ok),
{
}

/// A secret is gone where it was deleted, and where it was not there; other failures are
/// told.
pub proof fn secrets_are_gone_when_deleted(answer: DeleteAnswer, r: Result<(), String>)
    requires
        call_ensures(credentials::delete_secret, (answer,), r),
    ensures
        answer is Deleted ==> r is Ok,
        answer matches DeleteAnswer::Failed { code, message } ==> (r is Ok <==> code == Some(
            1168i32,
        )) && (code != Some(1168i32) ==> r == Err::<(), String>(message)),
{
}

/// The two secrets are kept under different names.
pub proof fn secrets_do_not_share_a_name()
    ensures
        credentials::YOUTUBE_REFRESH_TOKEN@ != credentials::YOUTUBE_CLIENT_SECRET@,
        text::starts_with(credentials::YOUTUBE_REFRESH_TOKEN@, "Xyra/"@),
        text::starts_with(credentials::YOUTUBE_CLIENT_SECRET@, "Xyra/"@),
{
    reveal_strlit("Xyra/YouTubeRefreshToken");
    reveal_strlit("Xyra/YouTubeClientSecret");
    reveal_strlit("Xyra/");
    assert("Xyra/YouTubeRefreshToken"@[12] == 'R' && "Xyra/YouTubeClientSecret"@[12] == 'C');
    assert("Xyra/YouTubeRefreshToken"@.subrange(0, 5) =~= "Xyra/"@);
    assert("Xyra/YouTubeClientSecret"@.subrange(0, 5) =~= "Xyra/"@);
}

} // verus!
