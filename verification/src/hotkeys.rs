//! The shortcuts that save clips.

use vstd::prelude::*;
use vstd::string::*;

use crate::config::{ClipHotkey, HotkeyModifier};
use crate::services::keys;
use crate::text;

verus! {

/// The keys that a shortcut can have.
pub const KEYS: [&'static str; 8] = ["F5", "F6", "F7", "F8", "F9", "F10", "F11", "F12"];

/// The keys that a shortcut can have, as texts.
pub open spec fn key_names() -> Seq<Seq<char>> {
    seq!["F5"@, "F6"@, "F7"@, "F8"@, "F9"@, "F10"@, "F11"@, "F12"@]
}

/// The shortcut as the system's shortcuts are written.
pub open spec fn shortcut_name(hotkey: ClipHotkey) -> Seq<char> {
    if hotkey.modifier == HotkeyModifier::Plain {
        hotkey.key@
    } else {
        hotkey.modifier.name() + "+"@ + hotkey.key@
    }
}

/// The shortcut as the system's shortcuts are written.
pub fn shortcut_text(hotkey: &ClipHotkey) -> (r: String)
    ensures
        r@ == shortcut_name(*hotkey),
{
    if hotkey.modifier == HotkeyModifier::Plain {
        hotkey.key.clone()
    } else {
        let mut out = hotkey.modifier.label().to_owned();
        out.append("+");
        out.append(hotkey.key.as_str());
        out
    }
}

/// The identifier of a shortcut, given how reading its text ended.
pub fn read_hotkey(hotkey: &ClipHotkey, parsed: Result<u32, String>) -> (r: Result<u32, String>)
    ensures
        match parsed {
            Ok(id) => r == Ok::<u32, String>(id),
            Err(error) => r matches Err(message) && message@ == "Invalid hotkey "@ + shortcut_name(
                *hotkey,
            ) + ": "@ + error@,
        },
{
    match parsed {
        Ok(id) => Ok(id),
        Err(error) => {
            let shown = shortcut_text(hotkey);
            let mut message = "Invalid hotkey ".to_owned();
            message.append(shown.as_str());
            message.append(": ");
            message.append(error.as_str());
            Err(message)
        },
    }
}

/// The identifier under which the system reports a shortcut.
pub fn native_hotkey(hotkey: &ClipHotkey) -> (r: Result<u32, String>)
    ensures
        keys::portable(shortcut_name(*hotkey)) ==> match keys::shortcut_id(shortcut_name(*hotkey)) {
            Ok(id) => r == Ok::<u32, String>(id),
            Err(error) => r matches Err(message) && message@ == "Invalid hotkey "@ + shortcut_name(
                *hotkey,
            ) + ": "@ + error,
        },
        r matches Err(message) ==> text::starts_with(
            message@,
            "Invalid hotkey "@ + shortcut_name(*hotkey) + ": "@,
        ),
{
    let shown = shortcut_text(hotkey);
    let r = read_hotkey(hotkey, keys::parse_shortcut(shown.as_str()));
    proof {
        let start = "Invalid hotkey "@ + shortcut_name(*hotkey) + ": "@;
        assert(r matches Err(message) ==> message@.subrange(0, start.len() as int) =~= start);
    }
    r
}

/// A shortcut means the same on every system, whatever its key, as long as the key is one
/// and, beside a modifier, is not itself the modifier that differs.
pub proof fn shortcuts_mean_the_same_everywhere(hotkey: ClipHotkey)
    requires
        !hotkey.key@.contains('+'),
        hotkey.modifier != HotkeyModifier::Plain ==> !keys::is_command_or_control(hotkey.key@),
    ensures
        keys::portable(shortcut_name(hotkey)),
{
    if hotkey.modifier == HotkeyModifier::Plain {
        text::lemma_split_one(hotkey.key@, '+');
    } else {
        reveal_strlit("Ctrl");
        reveal_strlit("Alt");
        reveal_strlit("Shift");
        reveal_strlit("+");
        let name = hotkey.modifier.name();
        keys::lemma_short_tokens_are_portable(name);
        assert(!name.contains('+'));
        text::lemma_split_one(name, '+');
        text::lemma_split_last(name, hotkey.key@, '+');
        assert(shortcut_name(hotkey) =~= name.push('+') + hotkey.key@);
    }
}

/// What came of registering shortcuts: those that are active, with the seconds that each
/// saves, and why others are not.
#[derive(Debug)]
pub struct HotkeyRefresh {
    pub registered: Vec<(u32, u32)>,
    pub failures: Vec<String>,
}

/// Some active shortcut has the identifier `id`.
pub open spec fn is_taken(registered: Seq<(u32, u32)>, id: u32) -> bool {
    exists|i: int| 0 <= i < registered.len() && (#[trigger] registered[i]).0 == id
}

/// The seconds that a shortcut saves: at least 5.
pub open spec fn saved_seconds(hotkey: ClipHotkey) -> u32 {
    if hotkey.clip_seconds < 5 {
        5
    } else {
        hotkey.clip_seconds
    }
}

impl HotkeyRefresh {
    /// No two active shortcuts are the same, and each saves at least 5 seconds.
    pub open spec fn wf(self) -> bool {
        &&& forall|i: int, j: int|
            0 <= i < j < self.registered@.len() ==> (#[trigger] self.registered@[i]).0 != (
            #[trigger] self.registered@[j]).0
        &&& forall|i: int|
            0 <= i < self.registered@.len() ==> (#[trigger] self.registered@[i]).1 >= 5
    }

    /// Nothing is registered yet.
    pub fn new() -> (r: Self)
        ensures
            r.wf(),
            r.registered@ == Seq::<(u32, u32)>::empty(),
            r.failures.deep_view() == Seq::<Seq<char>>::empty(),
    {
        let failures: Vec<String> = Vec::new();
        assert(failures.deep_view() =~= Seq::<Seq<char>>::empty());
        HotkeyRefresh { registered: Vec::new(), failures }
    }

    /// The identifier to register for a shortcut, given what its text reads as: none
    /// where it is switched off, cannot be read, or is taken already.
    pub fn consider(&mut self, hotkey: &ClipHotkey, native: Result<u32, String>) -> (r: Option<u32>)
        requires
            old(self).wf(),
        ensures
            final(self).wf(),
            final(self).registered@ == old(self).registered@,
            if !hotkey.enabled {
                r is None && final(self).failures.deep_view() == old(self).failures.deep_view()
            } else {
                match native {
                    Err(error) => r is None && final(self).failures.deep_view() == old(
                        self,
                    ).failures.deep_view().push(error@),
                    Ok(id) => if is_taken(old(self).registered@, id) {
                        r is None && final(self).failures.deep_view() == old(
                            self,
                        ).failures.deep_view().push(
                            hotkey.label_text() + " is assigned more than once"@,
                        )
                    } else {
                        r == Some(id) && final(self).failures.deep_view() == old(
                            self,
                        ).failures.deep_view()
                    },
                }
            },
    {
        if !hotkey.enabled {
            return None;
        }
        match native {
            Err(error) => {
                text::push_text(&mut self.failures, error.as_str());
                None
            },
            Ok(id) => {
                let mut i: usize = 0;
                while i < self.registered.len()
                    invariant
                        i <= self.registered.len(),
                        *self == *old(self),
                        hotkey.enabled,
                        native == Ok::<u32, String>(id),
                        old(self).wf(),
                        forall|j: int| 0 <= j < i ==> (#[trigger] self.registered@[j]).0 != id,
                    decreases self.registered.len() - i,
                {
                    if self.registered[i].0 == id {
                        let mut message = hotkey.label();
                        message.append(" is assigned more than once");
                        text::push_text(&mut self.failures, message.as_str());
                        assert(is_taken(old(self).registered@, id));
                        return None;
                    }
                    i += 1;
                }
                Some(id)
            },
        }
    }

    /// Takes note of how registering a shortcut ended.
    pub fn registered(&mut self, hotkey: &ClipHotkey, id: u32, outcome: Result<(), String>)
        requires
            old(self).wf(),
            !is_taken(old(self).registered@, id),
        ensures
            final(self).wf(),
            outcome is Ok ==> final(self).registered@.len() == old(self).registered@.len() + 1
                && final(self).registered@.last().0 == id,
            outcome is Ok && hotkey.clip_seconds >= 5 ==> final(self).registered@.last().1
                == hotkey.clip_seconds,
            outcome is Ok && hotkey.clip_seconds < 5 ==> final(self).registered@.last().1 == 5,
            match outcome {
                Ok(_) => {
                    &&& final(self).registered@ == old(self).registered@.push(
                        (id, saved_seconds(*hotkey)),
                    )
                    &&& final(self).failures.deep_view() == old(self).failures.deep_view()
                },
                Err(error) => {
                    &&& final(self).registered@ == old(self).registered@
                    &&& final(self).failures.deep_view() == old(self).failures.deep_view().push(
                        hotkey.label_text() + " could not be registered: "@ + error@,
                    )
                },
            },
    {
        match outcome {
            Ok(_) => {
                let seconds: u32 = if hotkey.clip_seconds < 5 {
                    5
                } else {
                    hotkey.clip_seconds
                };
                self.registered.push((id, seconds));
            },
            Err(error) => {
                let mut message = hotkey.label();
                message.append(" could not be registered: ");
                message.append(error.as_str());
                text::push_text(&mut self.failures, message.as_str());
            },
        }
    }

    /// The text that shows what came of registering.
    pub open spec fn summary(self) -> Seq<char> {
        if self.failures@.len() == 0 {
            text::decimal(self.registered@.len()) + " global clip hotkey"@ + text::plural(
                self.registered@.len(),
            ) + " active"@
        } else {
            text::join(self.failures.deep_view(), "  "@)
        }
    }

    /// The text that shows what came of registering.
    pub fn status(&self) -> (r: String)
        ensures
            r@ == self.summary(),
    {
        if self.failures.len() == 0 {
            let mut out = text::decimal_text(self.registered.len() as u64);
            out.append(" global clip hotkey");
            out.append(text::plural_of(self.registered.len()));
            out.append(" active");
            out
        } else {
            text::joined(&self.failures, "  ")
        }
    }

    /// The seconds to save when the shortcut `id` is pressed.
    pub fn pressed(&self, id: u32) -> (r: Option<u32>)
        requires
            self.wf(),
        ensures
            match r {
                Some(seconds) => self.registered@.contains((id, seconds)) && seconds >= 5,
                None => !is_taken(self.registered@, id),
            },
    {
        let mut i: usize = 0;
        while i < self.registered.len()
            invariant
                i <= self.registered.len(),
                self.wf(),
                forall|j: int| 0 <= j < i ==> (#[trigger] self.registered@[j]).0 != id,
            decreases self.registered.len() - i,
        {
            if self.registered[i].0 == id {
                assert(self.registered@[i as int] == (id, self.registered@[i as int].1));
                return Some(self.registered[i].1);
            }
            i += 1;
        }
        None
    }
}

/// What is shown where the system has no shortcuts.
pub const HOTKEYS_UNAVAILABLE: &'static str = "Global hotkeys are unavailable on this system";

/// Whether the text that shows what came of registering tells of a problem.
pub fn is_warning(status: &str) -> (r: bool)
    ensures
        r == (text::contains(status@, "could not"@) || text::contains(status@, "more than once"@)),
{
    text::has(status, "could not") || text::has(status, "more than once")
}

/// One of the shortcuts is the key alone.
pub open spec fn key_used(hotkeys: Seq<ClipHotkey>, key: Seq<char>) -> bool {
    exists|i: int|
        0 <= i < hotkeys.len() && (#[trigger] hotkeys[i]).modifier == HotkeyModifier::Plain
            && hotkeys[i].key@ == key
}

/// `i` is the first key that no shortcut uses alone.
pub open spec fn first_free(hotkeys: Seq<ClipHotkey>, i: int) -> bool {
    0 <= i < 8 && !key_used(hotkeys, key_names()[i]) && forall|j: int|
        0 <= j < i ==> key_used(hotkeys, #[trigger] key_names()[j])
}

/// Whether one of the shortcuts is the key alone.
fn uses_key(hotkeys: &Vec<ClipHotkey>, key: &str) -> (r: bool)
    ensures
        r == key_used(hotkeys@, key@),
{
    let mut i: usize = 0;
    while i < hotkeys.len()
        invariant
            i <= hotkeys.len(),
            forall|j: int|
                0 <= j < i ==> !((#[trigger] hotkeys@[j]).modifier == HotkeyModifier::Plain
                    && hotkeys@[j].key@ == key@),
        decreases hotkeys.len() - i,
    {
        if hotkeys[i].modifier == HotkeyModifier::Plain && text::same(
            hotkeys[i].key.as_str(),
            key,
        ) {
            return true;
        }
        i += 1;
    }
    false
}

/// Adds a shortcut that saves `clip_seconds`, as long as there are fewer than keys: with
/// the first key that no shortcut uses alone.
pub fn add_hotkey(hotkeys: &mut Vec<ClipHotkey>, clip_seconds: u32)
    ensures
        if old(hotkeys)@.len() >= 8 {
            final(hotkeys)@ == old(hotkeys)@
        } else {
            &&& final(hotkeys)@.len() == old(hotkeys)@.len() + 1
            &&& final(hotkeys)@.drop_last() == old(hotkeys)@
            &&& exists|i: int| #[trigger]
                first_free(old(hotkeys)@, i) && final(hotkeys)@.last().is(
                    key_names()[i],
                    HotkeyModifier::Plain,
                    clip_seconds,
                )
        },
{
    if hotkeys.len() >= 8 {
        return ;
    }
    let all = KEYS;
    let mut key = "F12";
    let mut found = false;
    let mut i: usize = 0;
    while i < 8 && !found
        invariant
            i <= 8,
            all@.len() == 8,
            forall|j: int| 0 <= j < 8 ==> (#[trigger] all@[j])@ == key_names()[j],
            *hotkeys == *old(hotkeys),
            !found ==> forall|j: int|
                0 <= j < i ==> key_used(hotkeys@, #[trigger] key_names()[j]),
            found ==> exists|j: int| #[trigger] first_free(hotkeys@, j) && key@ == key_names()[j],
        decreases 8 - i + if found {
            0int
        } else {
            1int
        },
    {
        if !uses_key(hotkeys, all[i]) {
            key = all[i];
            found = true;
            assert(first_free(hotkeys@, i as int));
        } else {
            i += 1;
        }
    }
    proof {
        a_key_is_free(hotkeys@);
    }
    let added = ClipHotkey::new(key, HotkeyModifier::Plain, clip_seconds);
    hotkeys.push(added);
    assert(hotkeys@.drop_last() =~= old(hotkeys)@);
    assert(hotkeys@.last().is(key@, HotkeyModifier::Plain, clip_seconds));
}

/// Fewer than eight shortcuts leave a key free, so that an added one never repeats a key
/// that another has alone.
pub proof fn a_key_is_free(hotkeys: Seq<ClipHotkey>)
    requires
        hotkeys.len() < 8,
    ensures
        exists|i: int| 0 <= i < 8 && !key_used(hotkeys, #[trigger] key_names()[i]),
{
    if forall|i: int| 0 <= i < 8 ==> key_used(hotkeys, #[trigger] key_names()[i]) {
        let place = |i: int|
            choose|k: int|
                0 <= k < hotkeys.len() && (#[trigger] hotkeys[k]).modifier == HotkeyModifier::Plain
                    && hotkeys[k].key@ == key_names()[i];
        assert forall|i: int| 0 <= i < 8 implies 0 <= #[trigger] place(i) < hotkeys.len()
            && hotkeys[place(i)].key@ == key_names()[i] by {
            assert(key_used(hotkeys, key_names()[i]));
        }
        let places = Seq::new(8, |i: int| place(i));
        assert forall|i: int, j: int| 0 <= i < j < 8 implies places[i] != places[j] by {
            assert(hotkeys[place(i)].key@ == key_names()[i]);
            assert(hotkeys[place(j)].key@ == key_names()[j]);
            lemma_keys_differ(i, j);
        }
        lemma_too_many(places, hotkeys.len() as int);
    }
}

/// No key is offered twice.
proof fn lemma_keys_differ(i: int, j: int)
    requires
        0 <= i < j < 8,
    ensures
        key_names()[i] != key_names()[j],
{
    reveal_strlit("F5");
    reveal_strlit("F6");
    reveal_strlit("F7");
    reveal_strlit("F8");
    reveal_strlit("F9");
    reveal_strlit("F10");
    reveal_strlit("F11");
    reveal_strlit("F12");
    assert("F5"@[1] == '5' && "F6"@[1] == '6' && "F7"@[1] == '7' && "F8"@[1] == '8' && "F9"@[1]
        == '9' && "F10"@[2] == '0' && "F11"@[2] == '1' && "F12"@[2] == '2');
    assert("F5"@.len() == 2 && "F6"@.len() == 2 && "F7"@.len() == 2 && "F8"@.len() == 2
        && "F9"@.len() == 2 && "F10"@.len() == 3 && "F11"@.len() == 3 && "F12"@.len() == 3);
}

/// There are no more different places than places.
proof fn lemma_too_many(places: Seq<int>, limit: int)
    requires
        limit >= 0,
        forall|i: int| 0 <= i < places.len() ==> 0 <= #[trigger] places[i] < limit,
        forall|i: int, j: int| 0 <= i < j < places.len() ==> places[i] != places[j],
    ensures
        places.len() <= limit,
    decreases places.len(),
{
    if places.len() > 0 {
        assert(0 <= places[0] < limit);
        let n = places.len() - 1;
        let top = limit - 1;
        let swapped = if exists|k: int| 0 <= k < places.len() && places[k] == top {
            let k = choose|k: int| 0 <= k < places.len() && places[k] == top;
            places.update(k, places[n]).take(n)
        } else {
            places.take(n)
        };
        assert forall|i: int| 0 <= i < swapped.len() implies 0 <= #[trigger] swapped[i] < top by {
            if exists|k: int| 0 <= k < places.len() && places[k] == top {
                let k = choose|k: int| 0 <= k < places.len() && places[k] == top;
                if i == k {
                    assert(places[n] != top);
                } else {
                    assert(places[i] != top);
                }
            } else {
                assert(places[i] != top);
            }
        }
        lemma_too_many(swapped, top);
    }
}

} // verus!
