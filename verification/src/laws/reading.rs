//! How numbers, lists of arguments and quoted texts are read.

use vstd::prelude::*;

use crate::text;

verus! {

/// The value of a decimal digit.
pub open spec fn digit_value(c: char) -> int {
    c as int - '0' as int
}

/// The number that a row of decimal digits stands for.
pub open spec fn number(digits: Seq<char>) -> int
    decreases digits.len(),
{
    if digits.len() == 0 {
        0
    } else {
        number(digits.drop_last()) * 10 + digit_value(digits.last())
    }
}

/// The text is made of decimal digits only.
pub open spec fn all_digits(s: Seq<char>) -> bool {
    forall|i: int| 0 <= i < s.len() ==> '0' <= #[trigger] s[i] <= '9'
}

/// The text is `n` as people write it: digits without a zero in front.
pub open spec fn writes(s: Seq<char>, n: int) -> bool {
    &&& s.len() > 0
    &&& all_digits(s)
    &&& number(s) == n
    &&& s.len() > 1 ==> s[0] != '0'
}

/// The text is `n` in exactly `width` digits.
pub open spec fn writes_wide(s: Seq<char>, n: int, width: nat) -> bool {
    s.len() == width && all_digits(s) && number(s) == n
}

/// A decimal is written as people write it.
pub proof fn lemma_decimal_writes(n: nat)
    ensures
        writes(text::decimal(n), n as int),
        n > 0 ==> text::decimal(n)[0] != '0',
    decreases n,
{
    reveal_with_fuel(number, 2);
    if n < 10 {
        let s = text::decimal(n);
        assert(s =~= seq![text::digit(n as int)]);
        assert(s.drop_last() =~= Seq::empty());
    } else {
        lemma_decimal_writes(n / 10);
        let s = text::decimal(n);
        assert(s.drop_last() =~= text::decimal(n / 10));
        assert forall|i: int| 0 <= i < s.len() implies '0' <= #[trigger] s[i] <= '9' by {
            if i < s.len() - 1 {
                assert(s[i] == text::decimal(n / 10)[i]);
            }
        }
        assert(s[0] == text::decimal(n / 10)[0]);
    }
}

/// Ten to the power of `n`.
pub open spec fn ten_to(n: nat) -> int
    decreases n,
{
    if n == 0 {
        1
    } else {
        10 * ten_to((n - 1) as nat)
    }
}

/// A padded number that fits is written in its width.
pub proof fn lemma_padded_writes(n: nat, width: nat)
    requires
        n < ten_to(width),
    ensures
        writes_wide(text::padded(n, width), n as int, width),
    decreases width,
{
    let s = text::padded(n, width);
    if width > 0 {
        let w = (width - 1) as nat;
        assert(n / 10 < ten_to(w)) by (nonlinear_arith)
            requires
                n < 10 * ten_to(w),
        ;
        lemma_padded_writes(n / 10, w);
        assert(s.drop_last() =~= text::padded(n / 10, w));
        assert forall|i: int| 0 <= i < s.len() implies '0' <= #[trigger] s[i] <= '9' by {
            if i < s.len() - 1 {
                assert(s[i] == text::padded(n / 10, w)[i]);
            }
        }
    }
}

/// Somewhere among the arguments `value` stands directly behind `name`.
pub open spec fn gives(args: Seq<Seq<char>>, name: Seq<char>, value: Seq<char>) -> bool {
    exists|i: int| #![trigger args[i]] 0 <= i < args.len() - 1 && args[i] == name && args[i + 1] == value
}

/// `part` stands among the arguments as it is, from position `at` on.
pub open spec fn holds_at(args: Seq<Seq<char>>, part: Seq<Seq<char>>, at: int) -> bool {
    0 <= at <= args.len() - part.len() && args.subrange(at, at + part.len()) == part
}

/// What part of the arguments gives, the whole of them gives.
pub proof fn lemma_part_gives(
    args: Seq<Seq<char>>,
    part: Seq<Seq<char>>,
    at: int,
    name: Seq<char>,
    value: Seq<char>,
)
    requires
        holds_at(args, part, at),
        gives(part, name, value),
    ensures
        gives(args, name, value),
{
    let i = choose|i: int| #![trigger part[i]] 0 <= i < part.len() - 1 && part[i] == name && part[i + 1] == value;
    let whole = args.subrange(at, at + part.len());
    assert(whole[i] == args[at + i] && whole[i + 1] == args[at + i + 1]);
}

} // verus!
