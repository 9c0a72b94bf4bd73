//! What the rules on text come to.

use vstd::prelude::*;

use crate::laws::reading;
use crate::text;

verus! {

/// A number is written in digits that read as the number, without a zero in front.
pub proof fn numbers_are_read_back(n: u64, r: String)
    requires
        call_ensures(text::decimal_text, (n,), r),
    ensures
        reading::writes(r@, n as int),
{
    reading::lemma_decimal_writes(n as nat);
}

/// A negative number is its magnitude behind a minus sign.
pub proof fn signed_numbers_are_read_back(n: i32, r: String)
    requires
        call_ensures(text::signed_text, (n,), r),
    ensures
        n >= 0 ==> reading::writes(r@, n as int),
        n < 0 ==> r@.len() > 0 && r@[0] == '-' && reading::writes(r@.skip(1), -(n as int)),
{
    if n >= 0 {
        reading::lemma_decimal_writes(n as nat);
    } else {
        reading::lemma_decimal_writes((-(n as int)) as nat);
        assert(r@.skip(1) =~= text::decimal((-(n as int)) as nat));
    }
}

/// A number is appended to what was written before.
pub proof fn numbers_are_appended(out: &mut String, n: u64)
    requires
        call_ensures(text::push_decimal, (out, n), ()),
    ensures
        final(out)@.take(old(out)@.len() as int) == old(out)@,
        reading::writes(final(out)@.skip(old(out)@.len() as int), n as int),
{
    reading::lemma_decimal_writes(n as nat);
    assert(final(out)@.take(old(out)@.len() as int) =~= old(out)@);
    assert(final(out)@.skip(old(out)@.len() as int) =~= text::decimal(n as nat));
}

/// A padded number has its width and reads as the number, where it fits.
pub proof fn padded_numbers_are_read_back(out: &mut String, n: u64, width: usize)
    requires
        call_ensures(text::push_padded, (out, n, width), ()),
        n < reading::ten_to(width as nat),
    ensures
        final(out)@.take(old(out)@.len() as int) == old(out)@,
        reading::writes_wide(final(out)@.skip(old(out)@.len() as int), n as int, width as nat),
{
    reading::lemma_padded_writes(n as nat, width as nat);
    assert(final(out)@.take(old(out)@.len() as int) =~= old(out)@);
    assert(final(out)@.skip(old(out)@.len() as int) =~= text::padded(n as nat, width as nat));
}

/// Lower case touches the letters from `A` to `Z` and nothing else: each becomes the letter
/// that stands 32 characters behind it.
pub proof fn only_capitals_are_lowered(s: &str, r: String)
    requires
        call_ensures(text::lowered, (s,), r),
    ensures
        r@.len() == s@.len(),
        forall|i: int|
            0 <= i < r@.len() ==> if 'A' <= s@[i] <= 'Z' {
                (#[trigger] r@[i]) as int == s@[i] as int + 32 && 'a' <= r@[i] <= 'z'
            } else {
                r@[i] == s@[i]
            },
{
}

/// A text that begins with another has it as its first part; one that holds another has it
/// somewhere.
pub proof fn texts_are_found(s: &str, pattern: &str, begins: bool, has: bool)
    requires
        call_ensures(text::begins, (s, pattern), begins),
        call_ensures(text::has, (s, pattern), has),
    ensures
        begins == exists|rest: Seq<char>| s@ == #[trigger] (pattern@ + rest),
        has == exists|front: Seq<char>, rest: Seq<char>| s@ == #[trigger] (front + pattern@ + rest),
{
    if begins {
        let rest = s@.skip(pattern@.len() as int);
        assert(s@.subrange(0, pattern@.len() as int) == pattern@);
        assert(s@ =~= pattern@ + rest);
    }
    if exists|rest: Seq<char>| s@ == #[trigger] (pattern@ + rest) {
        let rest = choose|rest: Seq<char>| s@ == #[trigger] (pattern@ + rest);
        assert(s@.subrange(0, pattern@.len() as int) =~= pattern@);
    }
    if has {
        let i = choose|i: int| text::occurs_at(s@, pattern@, i);
        let front = s@.take(i);
        let rest = s@.skip(i + pattern@.len());
        assert(s@.subrange(i, i + pattern@.len()) == pattern@);
        assert(s@ =~= front + pattern@ + rest);
    }
    if exists|front: Seq<char>, rest: Seq<char>| s@ == #[trigger] (front + pattern@ + rest) {
        let (front, rest) = choose|front: Seq<char>, rest: Seq<char>|
            s@ == #[trigger] (front + pattern@ + rest);
        assert(s@.subrange(front.len() as int, front.len() as int + pattern@.len()) =~= pattern@);
        assert(text::occurs_at(s@, pattern@, front.len() as int));
    }
}

/// What stands before a pattern does not hold it, and the pattern follows; a text without
/// it is kept whole.
pub proof fn texts_end_before_the_pattern(s: &str, pattern: &str, r: String)
    requires
        call_ensures(text::before, (s, pattern), r),
    ensures
        text::contains(s@, pattern@) ==> {
            &&& text::occurs_at(s@, pattern@, r@.len() as int)
            &&& r@ == s@.take(r@.len() as int)
            &&& forall|i: int| 0 <= i < r@.len() ==> !text::occurs_at(s@, pattern@, i)
        },
        !text::contains(s@, pattern@) ==> r@ == s@,
{
    if text::contains(s@, pattern@) {
        lemma_first_exists(s@, pattern@);
        let i = choose|i: int| text::first_at(s@, pattern@, i);
        text::lemma_first_is_found(s@, pattern@, i);
        assert(r@ =~= s@.take(i));
    }
}

/// A pattern that stands somewhere stands somewhere first.
pub proof fn lemma_first_exists(s: Seq<char>, pattern: Seq<char>)
    requires
        text::contains(s, pattern),
    ensures
        exists|i: int| text::first_at(s, pattern, i),
{
    let k = choose|k: int| text::occurs_at(s, pattern, k);
    lemma_first_below(s, pattern, k);
}

/// At a position or before it there is a first one.
proof fn lemma_first_below(s: Seq<char>, pattern: Seq<char>, k: int)
    requires
        text::occurs_at(s, pattern, k),
    ensures
        exists|i: int| text::first_at(s, pattern, i),
    decreases k,
{
    if exists|j: int| 0 <= j < k && text::occurs_at(s, pattern, j) {
        let j = choose|j: int| 0 <= j < k && text::occurs_at(s, pattern, j);
        lemma_first_below(s, pattern, j);
    } else {
        assert(text::first_at(s, pattern, k));
    }
}

/// Putting the pieces together again with the separator gives the text back.
pub proof fn lemma_split_joins(whole: Seq<char>, sep: char)
    ensures
        text::join(text::split(whole, sep), seq![sep]) == whole,
        text::split(whole, sep).len() >= 1,
        forall|i: int|
            0 <= i < text::split(whole, sep).len() ==> !(#[trigger] text::split(
                whole,
                sep,
            )[i]).contains(sep),
    decreases whole.len(),
{
    let parts = text::split(whole, sep);
    text::lemma_split_nonempty(whole, sep);
    if whole.len() == 0 {
        assert(parts[0] == Seq::<char>::empty());
        assert(whole =~= Seq::empty());
    } else {
        let front = whole.drop_last();
        let before = text::split(front, sep);
        text::lemma_split_nonempty(front, sep);
        lemma_split_joins(front, sep);
        if whole.last() == sep {
            assert(parts.drop_last() =~= before);
            assert(text::join(parts, seq![sep]) =~= front + seq![sep] + Seq::<char>::empty());
            assert(front + seq![sep] + Seq::<char>::empty() =~= whole);
            assert forall|i: int| 0 <= i < parts.len() implies !(#[trigger] parts[i]).contains(sep) by {
                if i < before.len() {
                    assert(parts[i] == before[i]);
                }
            }
        } else {
            let last = before.last().push(whole.last());
            assert(parts =~= before.drop_last().push(last));
            if before.len() > 1 {
                assert(parts.drop_last() =~= before.drop_last());
                assert(text::join(parts, seq![sep]) =~= text::join(before.drop_last(), seq![sep])
                    + seq![sep] + last);
                assert(front =~= text::join(before.drop_last(), seq![sep]) + seq![sep]
                    + before.last());
            } else {
                assert(front == before[0]);
                assert(parts[0] == last);
            }
            assert(front.push(whole.last()) =~= whole);
            assert(text::join(parts, seq![sep]) =~= front.push(whole.last()));
            assert(!before[before.len() - 1].contains(sep));
            assert forall|k: int| 0 <= k < last.len() implies last[k] != sep by {
                if k < before.last().len() {
                    assert(before.last().contains(before.last()[k]));
                }
            }
            assert forall|i: int| 0 <= i < parts.len() implies !(#[trigger] parts[i]).contains(sep) by {
                if i < before.len() - 1 {
                    assert(parts[i] == before[i]);
                }
            }
        }
    }
}

/// The pieces of a text hold no separator, and joined by it they are the text again.
pub proof fn pieces_make_up_the_text(s: &str, sep: char, r: Vec<String>)
    requires
        call_ensures(text::pieces, (s, sep), r),
    ensures
        text::join(r.deep_view(), seq![sep]) == s@,
        r.deep_view().len() >= 1,
        forall|i: int| 0 <= i < r.deep_view().len() ==> !(#[trigger] r.deep_view()[i]).contains(sep),
{
    lemma_split_joins(s@, sep);
}

/// Joining puts the separator between the parts and changes nothing in them.
pub proof fn joined_parts_stand_in_order(parts: Vec<String>, sep: &str, r: String)
    requires
        call_ensures(text::joined, (&parts, sep), r),
    ensures
        parts@.len() == 0 ==> r@.len() == 0,
        parts@.len() == 1 ==> r@ == parts@[0]@,
        parts@.len() == 2 ==> r@ == parts@[0]@ + sep@ + parts@[1]@,
        parts@.len() > 1 ==> {
            &&& parts@[0]@.len() <= r@.len()
            &&& r@.take(parts@[0]@.len() as int) == parts@[0]@
            &&& parts@.last()@.len() + sep@.len() <= r@.len()
            &&& r@.skip(r@.len() - parts@.last()@.len()) == parts@.last()@
            &&& r@.subrange(
                r@.len() - parts@.last()@.len() - sep@.len(),
                r@.len() - parts@.last()@.len(),
            ) == sep@
        },
{
    let all = parts.deep_view();
    assert(all.len() == parts@.len());
    reveal_with_fuel(text::join, 3);
    if parts@.len() > 0 {
        assert(all[0] == parts@[0]@);
        assert(all.last() == parts@.last()@);
        lemma_join_begins(all, sep@);
    }
    if parts@.len() == 2 {
        assert(all.drop_last() =~= seq![parts@[0]@]);
        assert(all[1] == parts@[1]@);
    }
    if parts@.len() > 1 {
        let front = text::join(all.drop_last(), sep@);
        assert(r@ == front + sep@ + all.last());
        assert(r@.skip(r@.len() - parts@.last()@.len()) =~= parts@.last()@);
        assert(r@.subrange(
            r@.len() - parts@.last()@.len() - sep@.len(),
            r@.len() - parts@.last()@.len(),
        ) =~= sep@);
    }
}

/// A join begins with its first part.
pub proof fn lemma_join_begins(parts: Seq<Seq<char>>, sep: Seq<char>)
    requires
        parts.len() > 0,
    ensures
        parts[0].len() <= text::join(parts, sep).len(),
        text::join(parts, sep).take(parts[0].len() as int) == parts[0],
    decreases parts.len(),
{
    if parts.len() > 1 {
        lemma_join_begins(parts.drop_last(), sep);
        assert(parts.drop_last()[0] == parts[0]);
        assert(text::join(parts, sep).take(parts[0].len() as int) =~= text::join(
            parts.drop_last(),
            sep,
        ).take(parts[0].len() as int));
    } else {
        assert(text::join(parts, sep).take(parts[0].len() as int) =~= parts[0]);
    }
}

/// Trimming cuts nothing but white space off the two ends, and all of it.
pub proof fn trimming_cuts_white_space_only(s: &str, r: String)
    requires
        call_ensures(text::trimmed, (s,), r),
    ensures
        r@.len() > 0 ==> !text::white_space(r@[0]) && !text::white_space(r@.last()),
        exists|from: int|
            #![trigger s@.subrange(from, from + r@.len())]
            {
                &&& 0 <= from <= s@.len() - r@.len()
                &&& r@ == s@.subrange(from, from + r@.len())
                &&& forall|i: int| 0 <= i < from ==> text::white_space(#[trigger] s@[i])
                &&& forall|i: int|
                    from + r@.len() <= i < s@.len() ==> text::white_space(#[trigger] s@[i])
            },
{
    lemma_trim_start_cuts(s@);
    let first = text::trim_start(s@);
    lemma_trim_end_cuts(first);
    let from = s@.len() - first.len();
    assert(first == s@.skip(from));
    assert(r@ =~= s@.subrange(from, from + r@.len()));
    if r@.len() > 0 {
        assert(r@[0] == first[0]);
    }
    assert forall|i: int| from + r@.len() <= i < s@.len() implies text::white_space(
        #[trigger] s@[i],
    ) by {
        assert(first[i - from] == s@[i]);
    }
}

/// What is cut off the start is white space, and all of it.
proof fn lemma_trim_start_cuts(s: Seq<char>)
    ensures
        text::trim_start(s).len() <= s.len(),
        text::trim_start(s) == s.skip(s.len() - text::trim_start(s).len()),
        text::trim_start(s).len() > 0 ==> !text::white_space(text::trim_start(s)[0]),
        forall|i: int|
            0 <= i < s.len() - text::trim_start(s).len() ==> text::white_space(#[trigger] s[i]),
    decreases s.len(),
{
    if s.len() > 0 && text::white_space(s[0]) {
        let rest = s.drop_first();
        lemma_trim_start_cuts(rest);
        assert(text::trim_start(s) =~= s.skip(s.len() - text::trim_start(s).len()));
        assert forall|i: int| 0 <= i < s.len() - text::trim_start(s).len() implies text::white_space(
            #[trigger] s[i],
        ) by {
            if i > 0 {
                assert(rest[i - 1] == s[i]);
            }
        }
    } else {
        assert(s.skip(0) =~= s);
    }
}

/// What is cut off the end is white space, and all of it.
proof fn lemma_trim_end_cuts(s: Seq<char>)
    ensures
        text::trim_end(s).len() <= s.len(),
        text::trim_end(s) == s.take(text::trim_end(s).len() as int),
        text::trim_end(s).len() > 0 ==> !text::white_space(text::trim_end(s).last()),
        forall|i: int| text::trim_end(s).len() <= i < s.len() ==> text::white_space(#[trigger] s[i]),
    decreases s.len(),
{
    if s.len() > 0 && text::white_space(s.last()) {
        let rest = s.drop_last();
        lemma_trim_end_cuts(rest);
        assert(text::trim_end(s) =~= s.take(text::trim_end(s).len() as int));
        assert forall|i: int| text::trim_end(s).len() <= i < s.len() implies text::white_space(
            #[trigger] s[i],
        ) by {
            if i < s.len() - 1 {
                assert(rest[i] == s[i]);
            }
        }
    } else {
        assert(s.take(s.len() as int) =~= s);
    }
}

/// Spaces, tabs and line ends are white space; letters, digits and punctuation are not.
pub proof fn white_space_is_what_it_should_be(c: char)
    ensures
        c == ' ' || c == '\t' || c == '\n' || c == '\r' ==> text::white_space(c),
        '!' <= c <= '~' ==> !text::white_space(c),
{
}

/// Replacing a character by another one changes the places where it stood, and no others.
pub proof fn replacing_changes_the_places_only(s: &str, from: char, to: &str, r: String)
    requires
        call_ensures(text::replaced, (s, from, to), r),
        to@.len() == 1,
    ensures
        r@.len() == s@.len(),
        forall|i: int|
            0 <= i < s@.len() ==> #[trigger] r@[i] == if s@[i] == from {
                to@[0]
            } else {
                s@[i]
            },
{
    lemma_replace_one(s@, from, to@);
}

/// Replacing by one character, place by place.
pub proof fn lemma_replace_one(s: Seq<char>, from: char, to: Seq<char>)
    requires
        to.len() == 1,
    ensures
        text::replace(s, from, to).len() == s.len(),
        forall|i: int|
            0 <= i < s.len() ==> #[trigger] text::replace(s, from, to)[i] == if s[i] == from {
                to[0]
            } else {
                s[i]
            },
    decreases s.len(),
{
    if s.len() > 0 {
        lemma_replace_one(s.drop_last(), from, to);
        let front = text::replace(s.drop_last(), from, to);
        assert forall|i: int| 0 <= i < s.len() implies #[trigger] text::replace(s, from, to)[i] == if s[i]
            == from {
            to[0]
        } else {
            s[i]
        } by {
            if i < s.len() - 1 {
                assert(text::replace(s, from, to)[i] == front[i]);
            }
        }
    }
}

/// Only one thing is singular.
pub proof fn one_thing_is_singular(n: usize, r: &'static str)
    requires
        call_ensures(text::plural_of, (n,), r),
    ensures
        r@.len() == 0 <==> n == 1,
        n != 1 ==> r@ == seq!['s'],
{
    reveal_strlit("");
    reveal_strlit("s");
    assert("s"@ =~= seq!['s']);
}

/// Lines that end in a line feed, each without one inside and not ending in a carriage
/// return, are read back as they are.
pub proof fn lines_are_read_back(a: Seq<char>, b: Seq<char>, s: &str, r: Vec<String>)
    requires
        call_ensures(text::lines_of, (s,), r),
        !a.contains('\n'),
        !b.contains('\n'),
        a.len() > 0 ==> a.last() != '\r',
        b.len() > 0,
    ensures
        s@ == a.push('\n') + b ==> r.deep_view() == seq![a, b],
        s@ == a.push('\r').push('\n') + b ==> r.deep_view() == seq![a, b],
        s@ == a.push('\n') ==> r.deep_view() == seq![a],
        s@.len() == 0 ==> r.deep_view().len() == 0,
{
    text::lemma_split_one(a, '\n');
    if s@ == a.push('\n') + b {
        text::lemma_split_last(a, b, '\n');
        assert(text::split(s@, '\n') == seq![a].push(b));
        assert(r.deep_view() =~= seq![a, b]);
    }
    if s@ == a.push('\r').push('\n') + b {
        let ended = a.push('\r');
        assert forall|i: int| 0 <= i < ended.len() implies ended[i] != '\n' by {
            if i < a.len() {
                assert(a.contains(a[i]));
            }
        }
        text::lemma_split_one(ended, '\n');
        text::lemma_split_last(ended, b, '\n');
        assert(ended.drop_last() =~= a);
        assert(r.deep_view() =~= seq![a, b]);
    }
    if s@ == a.push('\n') {
        let none = Seq::<char>::empty();
        assert(a.push('\n') + none =~= s@);
        text::lemma_split_last(a, none, '\n');
        assert(r.deep_view() =~= seq![a]);
    }
}

} // verus!
