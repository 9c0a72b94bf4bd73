//! What shortcuts do when they are pressed.

use vstd::prelude::*;

use crate::config::{ClipHotkey, HotkeyModifier};
use crate::hotkeys;
use crate::hotkeys::HotkeyRefresh;
use crate::laws::reading;
use crate::services::keys;
use crate::text;

verus! {

/// A shortcut that was registered saves its own seconds when it is pressed, and no fewer
/// than five; every other shortcut goes on saving what it saved.
pub proof fn shortcuts_save_their_own_seconds(
    refresh: &mut HotkeyRefresh,
    hotkey: ClipHotkey,
    id: u32,
    other: u32,
    before: Option<u32>,
    pressed: Option<u32>,
    still: Option<u32>,
)
    requires
        old(refresh).wf(),
        !hotkeys::is_taken(old(refresh).registered@, id),
        call_ensures(HotkeyRefresh::registered, (refresh, &hotkey, id, Ok::<(), String>(())), ()),
        call_ensures(HotkeyRefresh::pressed, (&*final(refresh), id), pressed),
        call_ensures(HotkeyRefresh::pressed, (&*old(refresh), other), before),
        call_ensures(HotkeyRefresh::pressed, (&*final(refresh), other), still),
        other != id,
    ensures
        hotkey.clip_seconds >= 5 ==> pressed == Some(hotkey.clip_seconds),
        hotkey.clip_seconds < 5 ==> pressed == Some(5u32),
        still == before,
        final(refresh).registered@.len() == old(refresh).registered@.len() + 1,
        final(refresh).failures@.len() == old(refresh).failures@.len(),
{
    let list = final(refresh).registered@;
    let known = old(refresh).registered@;
    let n = known.len() as int;
    assert(list[n].0 == id);
    assert(hotkeys::is_taken(list, id));
    match pressed {
        Some(seconds) => {
            assert(list.contains((id, seconds)));
            let i = list.index_of((id, seconds));
            assert(list[i].0 == id);
            assert(i == n);
        },
        None => {},
    }
    match still {
        Some(seconds) => {
            let i = list.index_of((other, seconds));
            assert(list[i] == (other, seconds));
            assert(known[i] == list[i]);
            match before {
                Some(were) => {
                    let j = known.index_of((other, were));
                    assert(known[j] == (other, were));
                    assert(known[i].0 == known[j].0);
                    assert(i == j);
                },
                None => {
                    assert(hotkeys::is_taken(known, other));
                },
            }
        },
        None => {
            match before {
                Some(were) => {
                    let j = known.index_of((other, were));
                    assert(list[j] == known[j]);
                    assert(hotkeys::is_taken(list, other));
                },
                None => {},
            }
        },
    }
    assert(final(refresh).failures.deep_view().len() == final(refresh).failures@.len());
    assert(old(refresh).failures.deep_view().len() == old(refresh).failures@.len());
}

/// A shortcut that could not be registered saves nothing, and why is told behind its name.
pub proof fn failed_shortcuts_are_told(
    refresh: &mut HotkeyRefresh,
    hotkey: ClipHotkey,
    id: u32,
    error: String,
    pressed: Option<u32>,
    label: String,
)
    requires
        old(refresh).wf(),
        !hotkeys::is_taken(old(refresh).registered@, id),
        call_ensures(HotkeyRefresh::registered, (refresh, &hotkey, id, Err::<(), String>(error)), ()),
        call_ensures(HotkeyRefresh::pressed, (&*final(refresh), id), pressed),
        call_ensures(ClipHotkey::label, (&hotkey,), label),
    ensures
        pressed is None,
        final(refresh).registered@ == old(refresh).registered@,
        final(refresh).failures.deep_view() == old(refresh).failures.deep_view().push(
            label@ + " could not be registered: "@ + error@,
        ),
{
    if let Some(seconds) = pressed {
        let i = final(refresh).registered@.index_of((id, seconds));
        assert(final(refresh).registered@[i].0 == id);
    }
}

/// A shortcut is registered where it is switched on, can be read and is not taken; one that
/// is switched off is passed over in silence, and the others are told.
pub proof fn shortcuts_are_registered_where_they_can_be(
    refresh: &mut HotkeyRefresh,
    hotkey: ClipHotkey,
    native: Result<u32, String>,
    r: Option<u32>,
)
    requires
        old(refresh).wf(),
        call_ensures(HotkeyRefresh::consider, (refresh, &hotkey, native), r),
    ensures
        final(refresh).registered@ == old(refresh).registered@,
        r matches Some(id) ==> hotkey.enabled && native == Ok::<u32, String>(id) && forall|i: int|
            0 <= i < old(refresh).registered@.len() ==> (#[trigger] old(refresh).registered@[i]).0
                != id,
        r is Some || !hotkey.enabled ==> final(refresh).failures@.len() == old(
            refresh,
        ).failures@.len(),
        r is None && hotkey.enabled ==> final(refresh).failures@.len() == old(
            refresh,
        ).failures@.len() + 1,
        r is None && hotkey.enabled ==> native is Err || exists|i: int|
            0 <= i < old(refresh).registered@.len() && native == Ok::<u32, String>(
                (#[trigger] old(refresh).registered@[i]).0,
            ),
{
    assert(final(refresh).failures.deep_view().len() == final(refresh).failures@.len());
    assert(old(refresh).failures.deep_view().len() == old(refresh).failures@.len());
    if r is Some {
        assert(!hotkeys::is_taken(old(refresh).registered@, r.unwrap()));
    }
}

/// A shortcut with a modifier is written as the modifier, a plus sign and the key; no two
/// modifiers are written alike.
pub proof fn shortcuts_are_written_with_their_modifier(
    hotkey: ClipHotkey,
    plain: ClipHotkey,
    other: ClipHotkey,
    r: String,
    bare: String,
    s: String,
)
    requires
        call_ensures(hotkeys::shortcut_text, (&hotkey,), r),
        call_ensures(hotkeys::shortcut_text, (&plain,), bare),
        call_ensures(hotkeys::shortcut_text, (&other,), s),
        plain.modifier == HotkeyModifier::Plain,
        plain.key@ == hotkey.key@,
        other.key@ == hotkey.key@,
        hotkey.key@.len() > 0,
    ensures
        bare@ == hotkey.key@,
        hotkey.modifier == HotkeyModifier::Control ==> r@ == "Ctrl+"@ + hotkey.key@,
        hotkey.modifier == HotkeyModifier::Alt ==> r@ == "Alt+"@ + hotkey.key@,
        hotkey.modifier == HotkeyModifier::Shift ==> r@ == "Shift+"@ + hotkey.key@,
        r@ == s@ ==> hotkey.modifier == other.modifier,
{
    reveal_strlit("Ctrl");
    reveal_strlit("Alt");
    reveal_strlit("Shift");
    reveal_strlit("+");
    reveal_strlit("Ctrl+");
    reveal_strlit("Alt+");
    reveal_strlit("Shift+");
    assert("Ctrl"@ + "+"@ =~= "Ctrl+"@);
    assert("Alt"@ + "+"@ =~= "Alt+"@);
    assert("Shift"@ + "+"@ =~= "Shift+"@);
    assert("Ctrl+"@.len() == 5 && "Alt+"@.len() == 4 && "Shift+"@.len() == 6);
    assert(hotkey.modifier == HotkeyModifier::Control ==> r@ =~= "Ctrl+"@ + hotkey.key@);
    let width = |modifier: HotkeyModifier|
        match modifier {
            HotkeyModifier::Plain => 0int,
            HotkeyModifier::Control => 5int,
            HotkeyModifier::Alt => 4int,
            HotkeyModifier::Shift => 6int,
        };
    assert("Ctrl"@.len() == 4 && "Alt"@.len() == 3 && "Shift"@.len() == 5 && "+"@.len() == 1);
    assert(r@.len() == width(hotkey.modifier) + hotkey.key@.len());
    assert(s@.len() == width(other.modifier) + hotkey.key@.len());
}

/// A shortcut that reads well has the identifier that it reads as; one that does not is
/// told with its name.
pub proof fn shortcuts_keep_their_identifier(
    hotkey: ClipHotkey,
    parsed: Result<u32, String>,
    name: String,
    r: Result<u32, String>,
)
    requires
        call_ensures(hotkeys::read_hotkey, (&hotkey, parsed), r),
        call_ensures(hotkeys::shortcut_text, (&hotkey,), name),
    ensures
        r is Ok <==> parsed is Ok,
        parsed matches Ok(id) ==> r == Ok::<u32, String>(id),
        parsed matches Err(error) ==> (r matches Err(message) && message@ == "Invalid hotkey "@
            + name@ + ": "@ + error@),
{
}

/// Without failures the status counts the shortcuts that are active; with failures it tells
/// them, the first one first.
pub proof fn the_status_counts_or_tells(refresh: HotkeyRefresh, r: String)
    requires
        call_ensures(HotkeyRefresh::status, (&refresh,), r),
    ensures
        refresh.failures@.len() == 0 ==> exists|count: Seq<char>|
            #![trigger reading::writes(count, refresh.registered@.len() as int)]
            reading::writes(count, refresh.registered@.len() as int) && r@ == count
                + " global clip hotkey"@ + (if refresh.registered@.len() == 1 {
                ""@
            } else {
                "s"@
            }) + " active"@,
        refresh.failures@.len() == 1 ==> r@ == refresh.failures@[0]@,
        refresh.failures@.len() > 0 ==> refresh.failures@[0]@.len() <= r@.len() && r@.take(
            refresh.failures@[0]@.len() as int,
        ) == refresh.failures@[0]@,
{
    reading::lemma_decimal_writes(refresh.registered@.len());
    let all = refresh.failures.deep_view();
    assert(all.len() == refresh.failures@.len());
    if all.len() > 0 {
        assert(all[0] == refresh.failures@[0]@);
        crate::laws::texts::lemma_join_begins(all, "  "@);
    }
}

/// Statuses that tell of a failure are warnings, those that only count are not.
pub proof fn failures_are_warnings(front: Seq<char>, rest: Seq<char>, status: &str, r: bool)
    requires
        call_ensures(hotkeys::is_warning, (status,), r),
    ensures
        status@ == front + " could not be registered: "@ + rest ==> r,
        status@ == front + " is assigned more than once"@ + rest ==> r,
        !status@.contains('u') && !status@.contains('m') ==> !r,
{
    reveal_strlit(" could not be registered: ");
    reveal_strlit("could not");
    reveal_strlit(" is assigned more than once");
    reveal_strlit("more than once");
    if status@ == front + " could not be registered: "@ + rest {
        let at = front.len() as int + 1;
        assert(status@.subrange(at, at + "could not"@.len()) =~= "could not"@);
        assert(text::occurs_at(status@, "could not"@, at));
    }
    if status@ == front + " is assigned more than once"@ + rest {
        let at = front.len() as int + 13;
        assert(status@.subrange(at, at + "more than once"@.len()) =~= "more than once"@);
        assert(text::occurs_at(status@, "more than once"@, at));
    }
    if text::contains(status@, "could not"@) {
        let at = choose|at: int| text::occurs_at(status@, "could not"@, at);
        assert("could not"@[2] == 'u');
        assert(status@.subrange(at, at + "could not"@.len())[2] == status@[at + 2]);
        assert(status@.contains('u'));
    }
    if text::contains(status@, "more than once"@) {
        let at = choose|at: int| text::occurs_at(status@, "more than once"@, at);
        assert("more than once"@[0] == 'm');
        assert(status@.subrange(at, at + "more than once"@.len())[0] == status@[at]);
        assert(status@.contains('m'));
    }
}

/// An added shortcut is a key alone that no other shortcut has alone, switched on, for the
/// seconds asked for; the others stay as they are. With eight shortcuts none is added.
pub proof fn added_shortcuts_repeat_no_key(list: &mut Vec<ClipHotkey>, seconds: u32)
    requires
        call_ensures(hotkeys::add_hotkey, (list, seconds), ()),
    ensures
        old(list)@.len() >= 8 ==> final(list)@ == old(list)@,
        old(list)@.len() < 8 ==> {
            let added = final(list)@.last();
            &&& final(list)@.len() == old(list)@.len() + 1
            &&& final(list)@.drop_last() == old(list)@
            &&& added.clip_seconds == seconds
            &&& added.enabled
            &&& added.modifier == HotkeyModifier::Plain
            &&& added.key@.len() > 0 && added.key@[0] == 'F'
            &&& 5 <= reading::number(added.key@.skip(1)) <= 12
            &&& forall|i: int|
                0 <= i < old(list)@.len() && (#[trigger] old(list)@[i]).modifier
                    == HotkeyModifier::Plain ==> old(list)@[i].key@ != added.key@
        },
{
    if old(list)@.len() < 8 {
        let i = choose|i: int| #[trigger]
            hotkeys::first_free(old(list)@, i) && final(list)@.last().is(
                hotkeys::key_names()[i],
                HotkeyModifier::Plain,
                seconds,
            );
        assert(hotkeys::first_free(old(list)@, i));
        assert(!hotkeys::key_used(old(list)@, hotkeys::key_names()[i]));
        lemma_keys_are_numbered(i);
    }
}

/// The keys on offer are those from F5 to F12, in order.
proof fn lemma_keys_are_numbered(i: int)
    requires
        0 <= i < 8,
    ensures
        hotkeys::key_names()[i].len() > 0,
        hotkeys::key_names()[i][0] == 'F',
        reading::number(hotkeys::key_names()[i].skip(1)) == 5 + i,
{
    reveal_strlit("F5");
    reveal_strlit("F6");
    reveal_strlit("F7");
    reveal_strlit("F8");
    reveal_strlit("F9");
    reveal_strlit("F10");
    reveal_strlit("F11");
    reveal_strlit("F12");
    let digits = hotkeys::key_names()[i].skip(1);
    reveal_with_fuel(reading::number, 3);
    if i < 5 {
        assert(digits =~= seq![(('5' as int) + i) as char]);
        assert(digits.drop_last() =~= Seq::empty());
        assert(digits.last() == digits[0]);
    } else {
        assert(digits =~= seq!['1', (('0' as int) + i - 5) as char]);
        assert(digits.drop_last() =~= seq!['1']);
        assert(seq!['1'].drop_last() =~= Seq::<char>::empty());
        assert(seq!['1'].last() == '1');
        assert(digits.last() == digits[1]);
    }
}

/// A shortcut that means the same everywhere is registered under the identifier that its text
/// has, and refused where its text is none.
pub proof fn shortcuts_are_read_from_their_text(hotkey: ClipHotkey, name: String, r: Result<u32, String>)
    requires
        call_ensures(hotkeys::native_hotkey, (&hotkey,), r),
        call_ensures(hotkeys::shortcut_text, (&hotkey,), name),
        keys::portable(name@),
    ensures
        r is Ok <==> keys::shortcut_id(name@) is Ok,
        keys::shortcut_id(name@) matches Ok(id) ==> r == Ok::<u32, String>(id),
        keys::shortcut_id(name@) matches Err(reason) ==> r.unwrap_err()@ == "Invalid hotkey "@ + name@
            + ": "@ + reason,
{
}

/// The text names the function key of this number.
pub open spec fn is_key(name: Seq<char>, number: int) -> bool {
    exists|n: Seq<char>| #[trigger] reading::writes(n, number) && name == "F"@ + n
}

/// Eight keys are offered, F5 to F12.
pub proof fn keys_are_offered_in_order(k: int)
    requires
        0 <= k < 8,
    ensures
        is_key(hotkeys::key_names()[k], k + 5),
        hotkeys::key_names().len() == 8,
{
    reveal_strlit("F");
    reveal_strlit("F5");
    reveal_strlit("F6");
    reveal_strlit("F7");
    reveal_strlit("F8");
    reveal_strlit("F9");
    reveal_strlit("F10");
    reveal_strlit("F11");
    reveal_strlit("F12");
    reading::lemma_decimal_writes((k + 5) as nat);
    let n = text::decimal((k + 5) as nat);
    reveal_with_fuel(text::decimal, 3);
    assert(hotkeys::key_names()[k] =~= "F"@ + n);
    assert(reading::writes(n, k + 5));
}

} // verus!
