//! Keyboard shortcuts.

use vstd::prelude::*;

use crate::text;

verus! {

/// The identifier of the shortcut that `shortcut` describes, or why it describes none.
pub uninterp spec fn shortcut_id(shortcut: Seq<char>) -> Result<u32, Seq<char>>;

/// The token is a name of the modifier that is one key on macOS and another elsewhere,
/// in whatever case it is written.
pub open spec fn is_command_or_control(token: Seq<char>) -> bool {
    let name = text::ascii_lowered(text::trim(token));
    name == "commandorcontrol"@ || name == "commandorctrl"@ || name == "cmdorctrl"@ || name
        == "cmdorcontrol"@
}

/// The shortcut means the same on every system: it is a single key, or none of its tokens
/// is the modifier that differs.
pub open spec fn portable(shortcut: Seq<char>) -> bool {
    let tokens = text::split(shortcut, '+');
    tokens.len() == 1 || forall|i: int|
        0 <= i < tokens.len() ==> !is_command_or_control(#[trigger] tokens[i])
}

/// Every name of the modifier that differs has nine letters or more.
pub proof fn lemma_short_tokens_are_portable(token: Seq<char>)
    requires
        token.len() < 9,
    ensures
        !is_command_or_control(token),
{
    reveal_strlit("commandorcontrol");
    reveal_strlit("commandorctrl");
    reveal_strlit("cmdorctrl");
    reveal_strlit("cmdorcontrol");
    text::lemma_trim_shortens(token);
    assert(text::ascii_lowered(text::trim(token)).len() < 9);
    assert("commandorcontrol"@.len() == 16 && "commandorctrl"@.len() == 13 && "cmdorctrl"@.len()
        == 9 && "cmdorcontrol"@.len() == 12);
}

/// `<global_hotkey::hotkey::HotKey as FromStr>::from_str`, then `HotKey::id` or the
/// error's message. What a shortcut stands for that names "command or control" among
/// several tokens depends on the machine and is not stated.
#[verifier::external_body]
pub(crate) fn parse_shortcut(shortcut: &str) -> (r: Result<u32, String>)
    ensures
        portable(shortcut@) ==> match r {
            Ok(id) => shortcut_id(shortcut@) == Ok::<u32, Seq<char>>(id),
            Err(message) => shortcut_id(shortcut@) == Err::<u32, _>(message@),
        },
{
    shortcut
        .parse::<global_hotkey::hotkey::HotKey>()
        .map(|hotkey| hotkey.id())
        .map_err(|error| error.to_string())
}

} // verus!
