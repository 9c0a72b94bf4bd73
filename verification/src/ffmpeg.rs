//! Installing the program's own FFmpeg.

use vstd::prelude::*;
use vstd::string::*;

use crate::text;

verus! {

/// How far the installation has come.
#[derive(Debug)]
pub enum InstallState {
    NotManaged,
    Starting,
    Downloading { downloaded: u64, total: u64 },
    Unpacking,
    Ready,
    Failed(String),
}

impl Clone for InstallState {
    fn clone(&self) -> (r: Self)
        ensures
            r == *self,
    {
        match self {
            InstallState::NotManaged => InstallState::NotManaged,
            InstallState::Starting => InstallState::Starting,
            InstallState::Downloading { downloaded, total } => InstallState::Downloading {
                downloaded: *downloaded,
                total: *total,
            },
            InstallState::Unpacking => InstallState::Unpacking,
            InstallState::Ready => InstallState::Ready,
            InstallState::Failed(error) => InstallState::Failed(error.clone()),
        }
    }
}

/// The whole percents of `total` that `downloaded` is; the product stops at the largest
/// 64-bit number.
pub open spec fn percent(downloaded: u64, total: u64) -> nat {
    (if downloaded * 100 > u64::MAX {
        u64::MAX as nat
    } else {
        (downloaded * 100) as nat
    }) / (total as nat)
}

impl InstallState {
    /// The text that shows the state.
    pub open spec fn text(self) -> Seq<char> {
        match self {
            InstallState::NotManaged => "Custom FFmpeg path"@,
            InstallState::Starting => "Preparing FFmpeg..."@,
            InstallState::Downloading { downloaded, total } => if total > 0 {
                "Downloading FFmpeg "@ + text::decimal(percent(downloaded, total)) + "%"@
            } else {
                "Downloading FFmpeg..."@
            },
            InstallState::Unpacking => "Installing FFmpeg..."@,
            InstallState::Ready => "FFmpeg ready"@,
            InstallState::Failed(_) => "FFmpeg setup failed"@,
        }
    }

    /// The text that shows the state.
    pub fn label(&self) -> (r: String)
        ensures
            r@ == self.text(),
    {
        match self {
            Self::NotManaged => "Custom FFmpeg path".to_owned(),
            Self::Starting => "Preparing FFmpeg...".to_owned(),
            Self::Downloading { downloaded, total } => {
                if *total > 0 {
                    let hundred: u64 = if *downloaded > 0xffff_ffff_ffff_ffff / 100 {
                        0xffff_ffff_ffff_ffff
                    } else {
                        *downloaded * 100
                    };
                    let mut out = "Downloading FFmpeg ".to_owned();
                    text::push_decimal(&mut out, hundred / *total);
                    out.append("%");
                    out
                } else {
                    "Downloading FFmpeg...".to_owned()
                }
            },
            Self::Unpacking => "Installing FFmpeg...".to_owned(),
            Self::Ready => "FFmpeg ready".to_owned(),
            Self::Failed(_) => "FFmpeg setup failed".to_owned(),
        }
    }

    /// How much is done, as a part and the whole; never more than the whole. Nothing is
    /// said of states without a measure.
    pub fn progress(&self) -> (r: Option<(u64, u64)>)
        ensures
            r == match *self {
                InstallState::Downloading { downloaded, total } if total > 0 => Some(
                    (
                        if downloaded > total {
                            total
                        } else {
                            downloaded
                        },
                        total,
                    ),
                ),
                InstallState::Starting => Some((0u64, 1u64)),
                InstallState::Unpacking => Some((1u64, 1u64)),
                _ => None,
            },
            r matches Some(done) ==> done.0 <= done.1 && done.1 > 0,
    {
        match self {
            Self::Downloading { downloaded, total } if *total > 0 => Some(
                (
                    if *downloaded > *total {
                        *total
                    } else {
                        *downloaded
                    },
                    *total,
                ),
            ),
            Self::Starting => Some((0, 1)),
            Self::Unpacking => Some((1, 1)),
            _ => None,
        }
    }
}

/// An FFmpeg at `destination`, and whether reports of its installation are still awaited.
#[derive(Debug)]
pub struct FfmpegInstaller {
    pub destination: String,
    pub state: InstallState,
    pub listening: bool,
}

impl FfmpegInstaller {
    /// The FFmpeg at `destination`, when it works or not: one that the program manages
    /// is installed where it does not work.
    pub fn new(destination: String, works: bool, managed: bool) -> (r: Self)
        ensures
            r.destination == destination,
            r.state == if works {
                InstallState::Ready
            } else if managed {
                InstallState::Starting
            } else {
                InstallState::NotManaged
            },
            r.listening == (!works && managed),
    {
        if works {
            Self { destination, state: InstallState::Ready, listening: false }
        } else if managed {
            Self::start(destination)
        } else {
            Self { destination, state: InstallState::NotManaged, listening: false }
        }
    }

    /// The start of an installation.
    pub fn start(destination: String) -> (r: Self)
        ensures
            r.destination == destination,
            r.state == InstallState::Starting,
            r.listening,
    {
        Self { destination, state: InstallState::Starting, listening: true }
    }

    /// Takes the reports that have come since the last time, and whether no more will
    /// come. The last report counts; the result tells whether there was one.
    pub fn poll(&mut self, reports: Vec<InstallState>, ended: bool) -> (r: bool)
        ensures
            final(self).destination == old(self).destination,
            r == (old(self).listening && reports@.len() > 0),
            final(self).state == if r {
                reports@.last()
            } else {
                old(self).state
            },
            final(self).listening == (old(self).listening && !ended),
    {
        if !self.listening {
            return false;
        }
        let mut reports = reports;
        let last = reports.pop();
        if ended {
            self.listening = false;
        }
        match last {
            Some(state) => {
                self.state = state;
                true
            },
            None => false,
        }
    }

    /// How far the installation has come.
    pub fn state(&self) -> (r: &InstallState)
        ensures
            *r == self.state,
    {
        &self.state
    }

    /// Where the FFmpeg is, or will be.
    pub fn destination(&self) -> (r: &str)
        ensures
            r@ == self.destination@,
    {
        self.destination.as_str()
    }
}

/// The directory to install into.
pub fn install_directory(parent: Option<String>) -> (r: Result<String, String>)
    ensures
        match parent {
            Some(dir) => r == Ok::<String, String>(dir),
            None => r matches Err(message) && message@
                == "managed FFmpeg path has no parent directory"@,
        },
{
    match parent {
        Some(dir) => Ok(dir),
        None => Err("managed FFmpeg path has no parent directory".to_owned()),
    }
}

/// Whether what lies at the destination has to be removed first: it is there and does
/// not work.
pub fn removes_broken(exists: bool, works: bool) -> (r: bool)
    ensures
        r == (exists && !works),
{
    exists && !works
}

/// How an installation ended, when the unpacked program works or not.
pub fn install_result(works: bool) -> (r: InstallState)
    ensures
        match r {
            InstallState::Ready => works,
            InstallState::Failed(message) => !works && message@
                == "downloaded FFmpeg did not pass its version check"@,
            _ => false,
        },
{
    if works {
        InstallState::Ready
    } else {
        InstallState::Failed("downloaded FFmpeg did not pass its version check".to_owned())
    }
}

/// The percentage shown of a download that has not exceeded its announced size never
/// exceeds 100, and is 100 only when all is there.
pub proof fn percentage_is_honest(downloaded: u64, total: u64)
    requires
        0 < total <= u64::MAX / 100,
        downloaded <= total,
    ensures
        percent(downloaded, total) <= 100,
        percent(downloaded, total) == 100 <==> downloaded == total,
{
    assert(downloaded * 100 / total as int <= 100) by (nonlinear_arith)
        requires
            downloaded <= total,
            total > 0,
    ;
    assert(downloaded < total ==> downloaded * 100 / total as int <= 99) by (nonlinear_arith)
        requires
            total > 0,
    ;
    assert(downloaded == total ==> downloaded * 100 / total as int == 100) by (nonlinear_arith)
        requires
            total > 0,
    ;
}

} // verus!
