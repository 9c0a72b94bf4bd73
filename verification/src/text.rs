//! Text as sequences of characters: the decimal, searching and splitting rules
//! that every other module states its results with.

use vstd::prelude::*;
use vstd::string::*;

verus! {

/// The decimal digit `d`, for `d` in `0..10`.
pub open spec fn digit(d: int) -> char {
    if d == 0 {
        '0'
    } else if d == 1 {
        '1'
    } else if d == 2 {
        '2'
    } else if d == 3 {
        '3'
    } else if d == 4 {
        '4'
    } else if d == 5 {
        '5'
    } else if d == 6 {
        '6'
    } else if d == 7 {
        '7'
    } else if d == 8 {
        '8'
    } else {
        '9'
    }
}

/// `n` in decimal, without leading zeros.
pub open spec fn decimal(n: nat) -> Seq<char>
    decreases n,
{
    if n < 10 {
        seq![digit(n as int)]
    } else {
        decimal(n / 10).push(digit((n % 10) as int))
    }
}

/// `n` in decimal, with a leading minus sign where it is negative.
pub open spec fn signed_decimal(n: int) -> Seq<char> {
    if n < 0 {
        seq!['-'] + decimal((-n) as nat)
    } else {
        decimal(n as nat)
    }
}

/// `n` as exactly `width` decimal digits, the low ones where `n` has more.
pub open spec fn padded(n: nat, width: nat) -> Seq<char>
    decreases width,
{
    if width == 0 {
        Seq::empty()
    } else {
        padded(n / 10, (width - 1) as nat).push(digit((n % 10) as int))
    }
}

/// `String::push` appends one character.
pub assume_specification[ String::push ](s: &mut String, c: char)
    ensures
        final(s)@ == old(s)@.push(c),
;

/// The character for the decimal digit `d`.
fn digit_char(d: u64) -> (c: char)
    requires
        d < 10,
    ensures
        c == digit(d as int),
{
    match d {
        0 => '0',
        1 => '1',
        2 => '2',
        3 => '3',
        4 => '4',
        5 => '5',
        6 => '6',
        7 => '7',
        8 => '8',
        _ => '9',
    }
}

/// Appends `n` in decimal.
pub fn push_decimal(out: &mut String, n: u64)
    ensures
        final(out)@ == old(out)@ + decimal(n as nat),
    decreases n,
{
    if n >= 10 {
        push_decimal(out, n / 10);
    }
    out.push(digit_char(n % 10));
    assert(out@ == old(out)@ + decimal(n as nat));
}

/// `n` in decimal.
pub fn decimal_text(n: u64) -> (r: String)
    ensures
        r@ == decimal(n as nat),
{
    let mut out = String::new();
    push_decimal(&mut out, n);
    assert(out@ == decimal(n as nat));
    out
}

/// `n` in decimal, signed.
pub fn signed_text(n: i32) -> (r: String)
    ensures
        r@ == signed_decimal(n as int),
{
    if n < 0 {
        let magnitude: i64 = -(n as i64);
        let mut out = String::new();
        out.push('-');
        push_decimal(&mut out, magnitude as u64);
        assert(out@ == signed_decimal(n as int));
        out
    } else {
        decimal_text(n as u64)
    }
}

/// Appends `n` as exactly `width` decimal digits, the low ones where `n` has more.
pub fn push_padded(out: &mut String, n: u64, width: usize)
    ensures
        final(out)@ == old(out)@ + padded(n as nat, width as nat),
    decreases width,
{
    if width > 0 {
        push_padded(out, n / 10, width - 1);
        out.push(digit_char(n % 10));
    }
    assert(out@ == old(out)@ + padded(n as nat, width as nat));
}

/// The characters of `s`, in order.
pub fn chars_of(s: &str) -> (r: Vec<char>)
    ensures
        r@ == s@,
{
    let mut out: Vec<char> = Vec::new();
    for c in it: s.chars()
        invariant
            it.seq() == s@,
            out@ == s@.take(it.index() as int),
    {
        out.push(c);
        assert(s@.take(it.index() as int + 1) == s@.take(it.index() as int).push(c));
    }
    assert(s@.take(s@.len() as int) == s@);
    out
}

/// The text made of the characters `chars[from..to]`.
pub fn text_of(chars: &Vec<char>, from: usize, to: usize) -> (r: String)
    requires
        from <= to <= chars.len(),
    ensures
        r@ == chars@.subrange(from as int, to as int),
{
    let mut out = String::new();
    let mut i: usize = from;
    while i < to
        invariant
            from <= i <= to <= chars.len(),
            out@ == chars@.subrange(from as int, i as int),
        decreases to - i,
    {
        out.push(chars[i]);
        i += 1;
        assert(chars@.subrange(from as int, i as int) == chars@.subrange(from as int, i - 1).push(
            chars@[i - 1],
        ));
    }
    out
}

/// `pattern` stands in `text` at position `i`.
pub open spec fn occurs_at(text: Seq<char>, pattern: Seq<char>, i: int) -> bool {
    0 <= i <= text.len() - pattern.len() && text.subrange(i, i + pattern.len()) == pattern
}

/// `pattern` stands somewhere in `text`.
pub open spec fn contains(text: Seq<char>, pattern: Seq<char>) -> bool {
    exists|i: int| occurs_at(text, pattern, i)
}

/// `text` begins with `prefix`.
pub open spec fn starts_with(text: Seq<char>, prefix: Seq<char>) -> bool {
    occurs_at(text, prefix, 0)
}

/// `i` is the first position of `pattern` in `text`.
pub open spec fn first_at(text: Seq<char>, pattern: Seq<char>, i: int) -> bool {
    occurs_at(text, pattern, i) && forall|j: int| 0 <= j < i ==> !occurs_at(text, pattern, j)
}

/// The first position of `pattern` in `text`, where it has one.
pub open spec fn find(text: Seq<char>, pattern: Seq<char>) -> Option<int> {
    if contains(text, pattern) {
        Some(choose|i: int| first_at(text, pattern, i))
    } else {
        None
    }
}

/// A first position is the only one.
pub proof fn lemma_first_is_found(text: Seq<char>, pattern: Seq<char>, i: int)
    requires
        first_at(text, pattern, i),
    ensures
        find(text, pattern) == Some(i),
{
    let k = choose|k: int| first_at(text, pattern, k);
    assert(first_at(text, pattern, k));
    assert(occurs_at(text, pattern, i));
    assert(k == i) by {
        if k < i {
            assert(!occurs_at(text, pattern, k));
        } else if i < k {
            assert(!occurs_at(text, pattern, i));
        }
    }
}

/// Whether `pattern` stands in `text` at `at`.
pub fn has_at(text: &Vec<char>, pattern: &Vec<char>, at: usize) -> (r: bool)
    ensures
        r == occurs_at(text@, pattern@, at as int),
{
    if pattern.len() > text.len() || at > text.len() - pattern.len() {
        return false;
    }
    let mut k: usize = 0;
    while k < pattern.len()
        invariant
            k <= pattern.len(),
            at + pattern.len() <= text.len(),
            forall|j: int| 0 <= j < k ==> text@[at + j] == pattern@[j],
        decreases pattern.len() - k,
    {
        if text[at + k] != pattern[k] {
            assert(text@.subrange(at as int, at + pattern.len())[k as int] != pattern@[k as int]);
            return false;
        }
        k += 1;
    }
    assert(text@.subrange(at as int, at + pattern.len()) =~= pattern@);
    true
}

/// The first position of `pattern` in `text`.
pub fn position(text: &Vec<char>, pattern: &Vec<char>) -> (r: Option<usize>)
    ensures
        match r {
            Some(i) => find(text@, pattern@) == Some(i as int) && first_at(text@, pattern@, i as int),
            None => find(text@, pattern@) is None,
        },
{
    if pattern.len() > text.len() {
        return None;
    }
    let last: usize = text.len() - pattern.len();
    let mut i: usize = 0;
    loop
        invariant
            i <= last,
            last + pattern.len() == text.len(),
            forall|j: int| 0 <= j < i ==> !occurs_at(text@, pattern@, j),
        decreases last - i,
    {
        if has_at(text, pattern, i) {
            proof {
                lemma_first_is_found(text@, pattern@, i as int);
            }
            return Some(i);
        }
        if i == last {
            return None;
        }
        i += 1;
    }
}

/// Whether `pattern` stands in `text`.
pub fn has(text: &str, pattern: &str) -> (r: bool)
    ensures
        r == contains(text@, pattern@),
{
    position(&chars_of(text), &chars_of(pattern)).is_some()
}

/// Whether `text` begins with `prefix`.
pub fn begins(text: &str, prefix: &str) -> (r: bool)
    ensures
        r == starts_with(text@, prefix@),
{
    has_at(&chars_of(text), &chars_of(prefix), 0)
}

/// Whether two texts are the same.
pub fn same(a: &str, b: &str) -> (r: bool)
    ensures
        r == (a@ == b@),
{
    let x = chars_of(a);
    let y = chars_of(b);
    let r = x.len() == y.len() && has_at(&x, &y, 0);
    assert(r ==> a@ =~= b@.subrange(0, b@.len() as int));
    assert(b@.subrange(0, b@.len() as int) =~= b@);
    r
}

/// The ASCII lower case of `c`.
pub open spec fn ascii_lower(c: char) -> char {
    if 'A' <= c <= 'Z' {
        ((c as u32) + 32) as char
    } else {
        c
    }
}

/// Each character in ASCII lower case.
pub open spec fn ascii_lowered(text: Seq<char>) -> Seq<char> {
    text.map_values(|c: char| ascii_lower(c))
}

/// `text` in ASCII lower case.
pub fn lowered(text: &str) -> (r: String)
    ensures
        r@ == ascii_lowered(text@),
{
    let chars = chars_of(text);
    let mut out = String::new();
    let mut i: usize = 0;
    while i < chars.len()
        invariant
            i <= chars.len(),
            out@ == ascii_lowered(chars@).take(i as int),
        decreases chars.len() - i,
    {
        let c = chars[i];
        out.push(
            if 'A' <= c && c <= 'Z' {
                ((c as u8) + 32) as char
            } else {
                c
            },
        );
        i += 1;
        assert(ascii_lowered(chars@).take(i as int) == ascii_lowered(chars@).take(i - 1).push(
            ascii_lower(chars@[i - 1]),
        ));
    }
    assert(ascii_lowered(chars@).take(i as int) == ascii_lowered(chars@));
    out
}

/// `text` cut at every `sep`; never empty.
pub open spec fn split(text: Seq<char>, sep: char) -> Seq<Seq<char>>
    decreases text.len(),
{
    if text.len() == 0 {
        seq![Seq::empty()]
    } else {
        let before = split(text.drop_last(), sep);
        if text.last() == sep {
            before.push(Seq::empty())
        } else {
            before.drop_last().push(before.last().push(text.last()))
        }
    }
}

/// Cutting leaves at least one piece.
pub proof fn lemma_split_nonempty(text: Seq<char>, sep: char)
    ensures
        split(text, sep).len() >= 1,
    decreases text.len(),
{
    if text.len() > 0 {
        lemma_split_nonempty(text.drop_last(), sep);
    }
}

/// A text without `sep` is one piece.
pub proof fn lemma_split_one(text: Seq<char>, sep: char)
    requires
        !text.contains(sep),
    ensures
        split(text, sep) == seq![text],
    decreases text.len(),
{
    if text.len() > 0 {
        let front = text.drop_last();
        assert(text[text.len() - 1] != sep);
        assert forall|i: int| 0 <= i < front.len() implies front[i] != sep by {
            assert(front[i] == text[i]);
        }
        lemma_split_one(front, sep);
        assert(front.push(text.last()) =~= text);
        assert(split(text, sep) =~= seq![text]);
    } else {
        assert(text =~= Seq::empty());
    }
}

/// A text without `sep` behind a last one is the last piece.
pub proof fn lemma_split_last(a: Seq<char>, b: Seq<char>, sep: char)
    requires
        !b.contains(sep),
    ensures
        split(a.push(sep) + b, sep) == split(a, sep).push(b),
    decreases b.len(),
{
    let whole = a.push(sep) + b;
    if b.len() == 0 {
        assert(whole.drop_last() =~= a);
        assert(b =~= Seq::empty());
        assert(split(whole, sep) =~= split(a, sep).push(b));
    } else {
        let front = b.drop_last();
        assert(b[b.len() - 1] != sep);
        assert forall|i: int| 0 <= i < front.len() implies front[i] != sep by {
            assert(front[i] == b[i]);
        }
        lemma_split_last(a, front, sep);
        assert(whole.drop_last() =~= a.push(sep) + front);
        assert(front.push(b.last()) =~= b);
        assert(split(whole, sep) =~= split(a, sep).push(b));
    }
}

/// Cuts `text` at every `sep`.
pub fn pieces(text: &str, sep: char) -> (r: Vec<String>)
    ensures
        r.deep_view() == split(text@, sep),
        r.len() >= 1,
{
    let chars = chars_of(text);
    let mut done: Vec<String> = Vec::new();
    let mut current = String::new();
    let mut i: usize = 0;
    assert(done.deep_view().push(current@) =~= split(chars@.take(0), sep));
    while i < chars.len()
        invariant
            i <= chars.len(),
            done.deep_view().push(current@) == split(chars@.take(i as int), sep),
        decreases chars.len() - i,
    {
        let ghost before = done.deep_view();
        let ghost partial = current@;
        let c = chars[i];
        assert(chars@.take(i + 1).drop_last() =~= chars@.take(i as int));
        assert(chars@.take(i + 1).last() == c);
        assert(before.push(partial).drop_last() =~= before);
        if c == sep {
            done.push(current);
            current = String::new();
            assert(done.deep_view() =~= before.push(partial));
        } else {
            current.push(c);
        }
        i += 1;
    }
    assert(chars@.take(i as int) =~= text@);
    let ghost before = done.deep_view();
    let ghost partial = current@;
    done.push(current);
    assert(done.deep_view() =~= before.push(partial));
    done
}

/// `line` without one carriage return at its end.
pub open spec fn without_return(line: Seq<char>) -> Seq<char> {
    if line.len() > 0 && line.last() == '\r' {
        line.drop_last()
    } else {
        line
    }
}

/// The lines of `text`: each ended by a line feed, with or without a carriage
/// return before it; the last one may stand without an end, and an empty rest
/// after the last line feed is no line.
pub open spec fn lines(text: Seq<char>) -> Seq<Seq<char>> {
    let cut = split(text, '\n');
    let ended = Seq::new((cut.len() - 1) as nat, |i: int| without_return(cut[i]));
    if cut.last().len() == 0 {
        ended
    } else {
        ended.push(cut.last())
    }
}

/// The lines of `text`.
pub fn lines_of(text: &str) -> (r: Vec<String>)
    ensures
        r.deep_view() == lines(text@),
{
    let cut = pieces(text, '\n');
    let ghost spec_cut = split(text@, '\n');
    let ghost ended = Seq::new((spec_cut.len() - 1) as nat, |i: int| without_return(spec_cut[i]));
    let mut out: Vec<String> = Vec::new();
    let last: usize = cut.len() - 1;
    let mut i: usize = 0;
    while i < last
        invariant
            i <= last,
            last == cut.len() - 1,
            cut.deep_view() == spec_cut,
            ended == Seq::new((spec_cut.len() - 1) as nat, |i: int| without_return(spec_cut[i])),
            out.deep_view() == ended.take(i as int),
        decreases last - i,
    {
        assert(cut.deep_view()[i as int] == cut@[i as int]@);
        let chars = chars_of(cut[i].as_str());
        let line = if chars.len() > 0 && chars[chars.len() - 1] == '\r' {
            text_of(&chars, 0, chars.len() - 1)
        } else {
            text_of(&chars, 0, chars.len())
        };
        assert(line@ =~= without_return(cut@[i as int]@));
        let ghost before = out.deep_view();
        out.push(line);
        assert(out.deep_view() =~= before.push(line@));
        i += 1;
        assert(ended.take(i as int) =~= ended.take(i - 1).push(ended[i - 1]));
    }
    assert(ended.take(last as int) =~= ended);
    assert(cut.deep_view()[last as int] == cut@[last as int]@);
    if !cut[last].as_str().is_empty() {
        let ghost before = out.deep_view();
        out.push(cut[last].clone());
        assert(out.deep_view() =~= before.push(cut@[last as int]@));
    }
    out
}

/// Unicode's `White_Space` property.
pub open spec fn white_space(c: char) -> bool {
    let n = c as u32;
    ||| 9 <= n <= 13
    ||| n == 0x20
    ||| n == 0x85
    ||| n == 0xa0
    ||| n == 0x1680
    ||| 0x2000 <= n <= 0x200a
    ||| n == 0x2028
    ||| n == 0x2029
    ||| n == 0x202f
    ||| n == 0x205f
    ||| n == 0x3000
}

/// `char::is_whitespace` tells whether a character has Unicode's `White_Space`
/// property.
pub assume_specification[ char::is_whitespace ](c: char) -> (r: bool)
    ensures
        r == white_space(c),
;

/// `text` from its first character that is no white space on.
pub open spec fn trim_start(text: Seq<char>) -> Seq<char>
    decreases text.len(),
{
    if text.len() > 0 && white_space(text[0]) {
        trim_start(text.drop_first())
    } else {
        text
    }
}

/// `text` up to its last character that is no white space.
pub open spec fn trim_end(text: Seq<char>) -> Seq<char>
    decreases text.len(),
{
    if text.len() > 0 && white_space(text.last()) {
        trim_end(text.drop_last())
    } else {
        text
    }
}

/// `text` without the white space at its two ends.
pub open spec fn trim(text: Seq<char>) -> Seq<char> {
    trim_end(trim_start(text))
}

/// Trimming makes no text longer.
pub proof fn lemma_trim_shortens(text: Seq<char>)
    ensures
        trim(text).len() <= text.len(),
{
    lemma_trim_start_shortens(text);
    lemma_trim_end_shortens(trim_start(text));
}

/// Trimming the start makes no text longer.
proof fn lemma_trim_start_shortens(text: Seq<char>)
    ensures
        trim_start(text).len() <= text.len(),
    decreases text.len(),
{
    if text.len() > 0 && white_space(text[0]) {
        lemma_trim_start_shortens(text.drop_first());
    }
}

/// Trimming the end makes no text longer.
proof fn lemma_trim_end_shortens(text: Seq<char>)
    ensures
        trim_end(text).len() <= text.len(),
    decreases text.len(),
{
    if text.len() > 0 && white_space(text.last()) {
        lemma_trim_end_shortens(text.drop_last());
    }
}

/// How many characters of white space `chars[from..]` begins with, counted from 0.
pub fn skip_white(chars: &Vec<char>, from: usize) -> (r: usize)
    requires
        from <= chars.len(),
    ensures
        from <= r <= chars.len(),
        chars@.skip(r as int) == trim_start(chars@.skip(from as int)),
{
    let mut i: usize = from;
    while i < chars.len() && chars[i].is_whitespace()
        invariant
            from <= i <= chars.len(),
            trim_start(chars@.skip(i as int)) == trim_start(chars@.skip(from as int)),
        decreases chars.len() - i,
    {
        assert(chars@.skip(i as int).drop_first() =~= chars@.skip(i + 1));
        i += 1;
    }
    i
}

/// `text` without the white space at its two ends.
pub fn trimmed(text: &str) -> (r: String)
    ensures
        r@ == trim(text@),
{
    let chars = chars_of(text);
    let from = skip_white(&chars, 0);
    assert(chars@.skip(0) =~= text@);
    let mut to: usize = chars.len();
    assert(chars@.subrange(from as int, to as int) =~= chars@.skip(from as int));
    while to > from && chars[to - 1].is_whitespace()
        invariant
            from <= to <= chars.len(),
            trim_end(chars@.subrange(from as int, to as int)) == trim(text@),
        decreases to - from,
    {
        assert(chars@.subrange(from as int, to as int).drop_last() =~= chars@.subrange(
            from as int,
            to - 1,
        ));
        to -= 1;
    }
    text_of(&chars, from, to)
}

/// How many characters `text` begins with that are no white space.
pub open spec fn word_len(text: Seq<char>) -> nat
    decreases text.len(),
{
    if text.len() > 0 && !white_space(text[0]) {
        1 + word_len(text.drop_first())
    } else {
        0
    }
}

/// The second word of `text`: its second longest run without white space.
pub open spec fn second_word(text: Seq<char>) -> Option<Seq<char>> {
    let first = trim_start(text);
    let second = trim_start(first.skip(word_len(first) as int));
    if word_len(second) == 0 {
        None
    } else {
        Some(second.take(word_len(second) as int))
    }
}

/// The end of the word that `chars[from..]` begins with.
fn word_end(chars: &Vec<char>, from: usize) -> (r: usize)
    requires
        from <= chars.len(),
    ensures
        from <= r <= chars.len(),
        r - from == word_len(chars@.skip(from as int)),
{
    let mut i: usize = from;
    while i < chars.len() && !chars[i].is_whitespace()
        invariant
            from <= i <= chars.len(),
            i - from + word_len(chars@.skip(i as int)) == word_len(chars@.skip(from as int)),
        decreases chars.len() - i,
    {
        assert(chars@.skip(i as int).drop_first() =~= chars@.skip(i + 1));
        i += 1;
    }
    i
}

/// The second word of `text`.
pub fn word_two(text: &str) -> (r: Option<String>)
    ensures
        match r {
            Some(word) => second_word(text@) == Some(word@),
            None => second_word(text@) is None,
        },
{
    let chars = chars_of(text);
    assert(chars@.skip(0) =~= text@);
    let first = skip_white(&chars, 0);
    let first_end = word_end(&chars, first);
    assert(chars@.skip(first as int).skip(first_end - first) =~= chars@.skip(first_end as int));
    let second = skip_white(&chars, first_end);
    let second_end = word_end(&chars, second);
    if second == second_end {
        None
    } else {
        assert(chars@.skip(second as int).take(second_end - second) =~= chars@.subrange(
            second as int,
            second_end as int,
        ));
        Some(text_of(&chars, second, second_end))
    }
}

/// The texts `parts`, with `sep` between each two.
pub open spec fn join(parts: Seq<Seq<char>>, sep: Seq<char>) -> Seq<char>
    decreases parts.len(),
{
    if parts.len() == 0 {
        Seq::empty()
    } else if parts.len() == 1 {
        parts[0]
    } else {
        join(parts.drop_last(), sep) + sep + parts.last()
    }
}

/// The texts `parts`, with `sep` between each two.
pub fn joined(parts: &Vec<String>, sep: &str) -> (r: String)
    ensures
        r@ == join(parts.deep_view(), sep@),
{
    let mut out = String::new();
    let ghost all = parts.deep_view();
    let mut i: usize = 0;
    while i < parts.len()
        invariant
            i <= parts.len(),
            all == parts.deep_view(),
            out@ == join(all.take(i as int), sep@),
        decreases parts.len() - i,
    {
        assert(all.take(i + 1).drop_last() =~= all.take(i as int));
        assert(all[i as int] == parts@[i as int]@);
        if i > 0 {
            out.append(sep);
        }
        out.append(parts[i].as_str());
        i += 1;
        assert(out@ =~= join(all.take(i as int), sep@));
    }
    assert(all.take(i as int) =~= all);
    out
}

/// `text` with every `from` replaced by `to`.
pub open spec fn replace(text: Seq<char>, from: char, to: Seq<char>) -> Seq<char>
    decreases text.len(),
{
    if text.len() == 0 {
        Seq::empty()
    } else {
        replace(text.drop_last(), from, to) + (if text.last() == from {
            to
        } else {
            seq![text.last()]
        })
    }
}

/// `text` with every `from` replaced by `to`.
pub fn replaced(text: &str, from: char, to: &str) -> (r: String)
    ensures
        r@ == replace(text@, from, to@),
{
    let chars = chars_of(text);
    let mut out = String::new();
    let mut i: usize = 0;
    while i < chars.len()
        invariant
            i <= chars.len(),
            out@ == replace(chars@.take(i as int), from, to@),
        decreases chars.len() - i,
    {
        assert(chars@.take(i + 1).drop_last() =~= chars@.take(i as int));
        if chars[i] == from {
            out.append(to);
        } else {
            out.push(chars[i]);
        }
        i += 1;
        assert(out@ =~= replace(chars@.take(i as int), from, to@));
    }
    assert(chars@.take(i as int) =~= text@);
    out
}

/// `text` without the occurrences of `pattern`, taken from the left and not
/// overlapping.
pub open spec fn without(text: Seq<char>, pattern: Seq<char>) -> Seq<char>
    decreases text.len(),
{
    if text.len() == 0 {
        Seq::empty()
    } else if pattern.len() > 0 && starts_with(text, pattern) {
        without(text.skip(pattern.len() as int), pattern)
    } else {
        seq![text[0]] + without(text.drop_first(), pattern)
    }
}

/// `text` without the occurrences of `pattern`.
pub fn removed(text: &str, pattern: &str) -> (r: String)
    ensures
        r@ == without(text@, pattern@),
{
    let chars = chars_of(text);
    let pat = chars_of(pattern);
    let mut out = String::new();
    let mut i: usize = 0;
    assert(chars@.skip(0) =~= text@);
    assert(out@ + without(chars@.skip(0), pat@) =~= without(text@, pattern@));
    while i < chars.len()
        invariant
            i <= chars.len(),
            pat@ == pattern@,
            out@ + without(chars@.skip(i as int), pat@) == without(text@, pattern@),
        decreases chars.len() - i,
    {
        let ghost rest = chars@.skip(i as int);
        let ghost before = out@;
        assert(rest.len() > 0);
        if pat.len() > 0 && has_at(&chars, &pat, i) {
            assert(rest.subrange(0, pat@.len() as int) =~= chars@.subrange(
                i as int,
                i + pat@.len(),
            ));
            assert(rest.skip(pat@.len() as int) =~= chars@.skip(i + pat@.len()));
            i += pat.len();
        } else {
            assert(starts_with(rest, pat@) ==> chars@.subrange(i as int, i + pat@.len()) =~= pat@);
            out.push(chars[i]);
            assert(rest.drop_first() =~= chars@.skip(i + 1));
            i += 1;
            assert(out@ + without(chars@.skip(i as int), pat@) =~= before + (seq![rest[0]]
                + without(rest.drop_first(), pat@)));
        }
    }
    assert(out@ + without(chars@.skip(i as int), pat@) =~= out@);
    out
}

/// `text` up to the first occurrence of `pattern`, all of it where there is none.
pub open spec fn up_to(text: Seq<char>, pattern: Seq<char>) -> Seq<char> {
    match find(text, pattern) {
        Some(i) => text.take(i),
        None => text,
    }
}

/// `text` up to the first occurrence of `pattern`.
pub fn before(text: &str, pattern: &str) -> (r: String)
    ensures
        r@ == up_to(text@, pattern@),
{
    let chars = chars_of(text);
    match position(&chars, &chars_of(pattern)) {
        Some(i) => {
            assert(chars@.subrange(0, i as int) =~= text@.take(i as int));
            text_of(&chars, 0, i)
        },
        None => text.to_owned(),
    }
}

/// The ending of a noun that is counted `n` times.
pub open spec fn plural(n: nat) -> Seq<char> {
    if n == 1 {
        ""@
    } else {
        "s"@
    }
}

/// The ending of a noun that is counted `n` times.
pub fn plural_of(n: usize) -> (r: &'static str)
    ensures
        r@ == plural(n as nat),
{
    if n == 1 {
        ""
    } else {
        "s"
    }
}

/// A text that may be missing.
pub open spec fn shown(text: Option<String>) -> Option<Seq<char>> {
    match text {
        Some(found) => Some(found@),
        None => None,
    }
}

/// A copy of a text that may be missing.
pub fn copied(text: &Option<String>) -> (r: Option<String>)
    ensures
        r == *text,
{
    match text {
        Some(found) => Some(found.clone()),
        None => None,
    }
}

/// Appends `item` to a list of texts.
pub fn push_text(list: &mut Vec<String>, item: &str)
    ensures
        final(list).deep_view() == old(list).deep_view().push(item@),
{
    list.push(item.to_owned());
    assert(list.deep_view() =~= old(list).deep_view().push(item@));
}

/// Appends each of `items` to a list of texts.
pub fn push_texts(list: &mut Vec<String>, items: &[&str])
    ensures
        final(list).deep_view() == old(list).deep_view() + items.deep_view(),
{
    let mut i: usize = 0;
    assert(items.deep_view().take(0) =~= Seq::empty());
    while i < items.len()
        invariant
            i <= items.len(),
            list.deep_view() == old(list).deep_view() + items.deep_view().take(i as int),
        decreases items.len() - i,
    {
        push_text(list, items[i]);
        i += 1;
        assert(items.deep_view().take(i as int) =~= items.deep_view().take(i - 1).push(
            items@[i - 1]@,
        ));
    }
    assert(items.deep_view().take(i as int) =~= items.deep_view());
}

} // verus!
