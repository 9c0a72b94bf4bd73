//! How texts inside JSON documents, and identifiers, are read.

use vstd::prelude::*;

use crate::services::ids;
use crate::services::json;

verus! {

/// The value of a hexadecimal digit.
pub open spec fn hex_value(c: char) -> int {
    if '0' <= c <= '9' {
        c as int - '0' as int
    } else if 'a' <= c <= 'f' {
        c as int - 'a' as int + 10
    } else {
        c as int - 'A' as int + 10
    }
}

/// The number that a row of hexadecimal digits stands for.
pub open spec fn hex_number(digits: Seq<char>) -> int
    decreases digits.len(),
{
    if digits.len() == 0 {
        0
    } else {
        hex_number(digits.drop_last()) * 16 + hex_value(digits.last())
    }
}

/// Sixteen to the power of `n`.
pub open spec fn sixteen_to(n: nat) -> int
    decreases n,
{
    if n == 0 {
        1
    } else {
        16 * sixteen_to((n - 1) as nat)
    }
}

/// Hexadecimal digits read as the number, where they are enough for it, and are all in
/// lower case.
pub proof fn hexadecimal_reads_back(n: nat, width: nat)
    requires
        n < sixteen_to(width),
    ensures
        ids::hex(n, width).len() == width,
        hex_number(ids::hex(n, width)) == n,
        forall|i: int|
            0 <= i < width ==> {
                let c = #[trigger] ids::hex(n, width)[i];
                '0' <= c <= '9' || 'a' <= c <= 'f'
            },
    decreases width,
{
    ids::lemma_hex(n, width);
    if width > 0 {
        let w = (width - 1) as nat;
        assert(n / 16 < sixteen_to(w)) by (nonlinear_arith)
            requires
                n < 16 * sixteen_to(w),
        ;
        hexadecimal_reads_back(n / 16, w);
        assert(ids::hex(n, width).drop_last() =~= ids::hex(n / 16, w));
    }
}

/// What the character behind a backslash stands for.
pub open spec fn escape_means(c: char) -> char {
    if c == 'b' {
        '\u{8}'
    } else if c == 't' {
        '\t'
    } else if c == 'n' {
        '\n'
    } else if c == 'f' {
        '\u{c}'
    } else if c == 'r' {
        '\r'
    } else {
        c
    }
}

/// What a reader of JSON reads up to the closing quote, begun behind the opening one.
pub open spec fn decoded(s: Seq<char>) -> Seq<char>
    decreases s.len(),
{
    if s.len() == 0 || s[0] == '"' {
        Seq::empty()
    } else if s[0] == '\\' && s.len() > 1 {
        if s[1] == 'u' && s.len() >= 6 {
            seq![hex_number(s.subrange(2, 6)) as char] + decoded(s.skip(6))
        } else {
            seq![escape_means(s[1])] + decoded(s.skip(2))
        }
    } else {
        seq![s[0]] + decoded(s.drop_first())
    }
}

/// What stands behind the closing quote.
pub open spec fn behind_text(s: Seq<char>) -> Seq<char>
    decreases s.len(),
{
    if s.len() == 0 {
        Seq::empty()
    } else if s[0] == '"' {
        s.drop_first()
    } else if s[0] == '\\' && s.len() > 1 {
        if s[1] == 'u' && s.len() >= 6 {
            behind_text(s.skip(6))
        } else {
            behind_text(s.skip(2))
        }
    } else {
        behind_text(s.drop_first())
    }
}

/// An escaped character is read as the character.
proof fn lemma_escape_reads(c: char, rest: Seq<char>)
    ensures
        decoded(json::json_escaped(c) + rest) == seq![c] + decoded(rest),
        behind_text(json::json_escaped(c) + rest) == behind_text(rest),
{
    let e = json::json_escaped(c);
    let s = e + rest;
    if e.len() == 1 {
        assert(s[0] == c);
        assert(s.drop_first() =~= rest);
    } else if c == '"' || c == '\\' || c == '\u{8}' || c == '\t' || c == '\n' || c == '\u{c}' || c
        == '\r' {
        assert(s[0] == '\\' && s[1] == e[1]);
        assert(s.skip(2) =~= rest);
        assert(escape_means(e[1]) == c);
        assert(e[1] != 'u');
    } else {
        let n = c as nat;
        reveal_with_fuel(sixteen_to, 5);
        hexadecimal_reads_back(n, 4);
        assert(e =~= seq!['\\', 'u'] + ids::hex(n, 4));
        assert(s[0] == '\\' && s[1] == 'u');
        assert(s.subrange(2, 6) =~= ids::hex(n, 4));
        assert(s.skip(6) =~= rest);
        assert(n as int as char == c);
    }
}

/// The contents of a string of JSON are read as the text.
proof fn lemma_contents_read(t: Seq<char>, rest: Seq<char>)
    ensures
        decoded(json::json_contents(t) + rest) == t + decoded(rest),
        behind_text(json::json_contents(t) + rest) == behind_text(rest),
    decreases t.len(),
{
    if t.len() == 0 {
        assert(json::json_contents(t) + rest =~= rest);
        assert(t + decoded(rest) =~= decoded(rest));
    } else {
        let front = t.drop_last();
        let e = json::json_escaped(t.last());
        assert(json::json_contents(t) + rest =~= json::json_contents(front) + (e + rest));
        lemma_contents_read(front, e + rest);
        lemma_escape_reads(t.last(), rest);
        assert(t =~= front + seq![t.last()]);
        assert(t + decoded(rest) =~= front + (seq![t.last()] + decoded(rest)));
    }
}

/// `s` is `start`, then a string of JSON that reads as `t`, then `rest`; `start` ends with
/// the opening quote.
pub open spec fn tells(s: Seq<char>, start: Seq<char>, t: Seq<char>, rest: Seq<char>) -> bool {
    &&& s.len() >= start.len()
    &&& s.take(start.len() as int) == start
    &&& decoded(s.skip(start.len() as int)) == t
    &&& behind_text(s.skip(start.len() as int)) == rest
}

/// A text in its quotes is read as the text, whatever stands around it.
pub proof fn quoted_texts_are_read_back(before: Seq<char>, t: Seq<char>, rest: Seq<char>)
    ensures
        tells(before + json::json_quoted(t) + rest, before.push('"'), t, rest),
{
    let s = before + json::json_quoted(t) + rest;
    let start = before.push('"');
    let tail = seq!['"'] + rest;
    assert(s.take(start.len() as int) =~= start);
    assert(s.skip(start.len() as int) =~= json::json_contents(t) + tail);
    lemma_contents_read(t, tail);
    assert(tail[0] == '"');
    assert(decoded(tail) =~= Seq::<char>::empty());
    assert(tail.drop_first() =~= rest);
    assert(t + Seq::<char>::empty() =~= t);
}

/// Two texts are quoted alike only where they are the same.
pub proof fn quoting_tells_texts_apart(a: Seq<char>, b: Seq<char>)
    requires
        json::json_quoted(a) == json::json_quoted(b),
    ensures
        a == b,
{
    let none = Seq::<char>::empty();
    quoted_texts_are_read_back(none, a, none);
    quoted_texts_are_read_back(none, b, none);
    assert(none + json::json_quoted(a) + none =~= json::json_quoted(a));
    assert(none + json::json_quoted(b) + none =~= json::json_quoted(b));
}

} // verus!
