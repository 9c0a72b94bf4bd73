//! Starting with the system.

use vstd::prelude::*;
use vstd::string::*;

verus! {

/// The registry key whose values are run when the user signs in, and the program's value.
pub const RUN_KEY: &'static str = "Software\\Microsoft\\Windows\\CurrentVersion\\Run";

pub const RUN_VALUE_NAME: &'static str = "Xyra";

/// What marks a launch by the system.
pub const AUTOSTART_FLAG: &'static str = "--autostart";

/// The command that the system runs.
pub open spec fn command(executable: Seq<char>) -> Seq<char> {
    "\""@ + executable + "\" --autostart"@
}

/// The command that the system runs: the program's path in quotes, marked as a launch
/// by the system.
pub fn startup_command(executable: &str) -> (r: String)
    ensures
        r@ == command(executable@),
{
    let mut out = "\"".to_owned();
    out.append(executable);
    out.append("\" --autostart");
    out
}

/// What the registry answers when all went well, and where a value is not there.
pub const ERROR_SUCCESS: u32 = 0;

pub const ERROR_FILE_NOT_FOUND: u32 = 2;

/// Whether the registration is as wanted, when the registry answered `code`: a value
/// that is not there need not be deleted. The error is the answer itself.
pub fn registration_result(enabled: bool, code: u32) -> (r: Result<(), u32>)
    ensures
        r == if code == ERROR_SUCCESS || !enabled && code == ERROR_FILE_NOT_FOUND {
            Ok::<(), u32>(())
        } else {
            Err::<(), u32>(code)
        },
{
    if code == ERROR_SUCCESS || !enabled && code == ERROR_FILE_NOT_FOUND {
        Ok(())
    } else {
        Err(code)
    }
}

/// The outcome where the system has no such registration.
pub fn unsupported_registration(enabled: bool) -> (r: Result<(), String>)
    ensures
        match r {
            Ok(_) => !enabled,
            Err(message) => enabled && message@
                == "automatic startup is currently supported on Windows"@,
        },
{
    if enabled {
        Err("automatic startup is currently supported on Windows".to_owned())
    } else {
        Ok(())
    }
}

/// The quoted path in the command is the program's, whatever characters it has, and the
/// mark stands behind it.
pub proof fn command_holds_path_and_mark(executable: Seq<char>)
    ensures
        command(executable)[0] == '"',
        command(executable).subrange(1, executable.len() as int + 1) == executable,
        command(executable)[executable.len() as int + 1] == '"',
        command(executable).skip(executable.len() as int + 3) == AUTOSTART_FLAG@,
{
    reveal_strlit("\"");
    reveal_strlit("\" --autostart");
    reveal_strlit("--autostart");
    assert(command(executable).subrange(1, executable.len() as int + 1) =~= executable);
    assert(command(executable).skip(executable.len() as int + 3) =~= "--autostart"@);
}

} // verus!
