//! Random identifiers and their hexadecimal text.

use vstd::prelude::*;

verus! {

/// The hexadecimal digit `d`, for `d` in `0..16`, in lower case.
pub open spec fn hex_digit(d: int) -> char {
    if d == 10 {
        'a'
    } else if d == 11 {
        'b'
    } else if d == 12 {
        'c'
    } else if d == 13 {
        'd'
    } else if d == 14 {
        'e'
    } else if d == 15 {
        'f'
    } else {
        crate::text::digit(d)
    }
}

/// `n` as exactly `width` hexadecimal digits.
pub open spec fn hex(n: nat, width: nat) -> Seq<char>
    decreases width,
{
    if width == 0 {
        Seq::empty()
    } else {
        hex(n / 16, (width - 1) as nat).push(hex_digit((n % 16) as int))
    }
}

/// A hexadecimal text is as long as asked for, and made of digits and `a` to `f`.
pub proof fn lemma_hex(n: nat, width: nat)
    ensures
        hex(n, width).len() == width,
        forall|i: int|
            0 <= i < width ==> {
                let c = #[trigger] hex(n, width)[i];
                '0' <= c <= '9' || 'a' <= c <= 'f'
            },
    decreases width,
{
    if width > 0 {
        lemma_hex(n / 16, (width - 1) as nat);
    }
}

/// `uuid::Uuid::new_v4`: a random identifier, as its 128 bits. The version bits
/// always read 4 and the two variant bits 2; the others are left to chance.
#[verifier::external_body]
fn draw_id() -> (r: u128)
    ensures
        (r / 0x1000_0000_0000_0000_0000) % 16 == 4,
        (r / 0x4000_0000_0000_0000) % 4 == 2,
{
    uuid::Uuid::new_v4().as_u128()
}

/// `id` is what a call of `uuid::Uuid::new_v4` gave. That two draws differ is left to
/// chance and is not stated.
pub closed spec fn is_drawn(id: u128) -> bool {
    call_ensures(draw_id, (), id)
}

/// An identifier that is drawn has the marks of one made by chance.
pub proof fn drawn_ids_have_their_marks(id: u128)
    requires
        is_drawn(id),
    ensures
        (id / 0x1000_0000_0000_0000_0000) % 16 == 4,
        (id / 0x4000_0000_0000_0000) % 4 == 2,
{
}

/// A new random identifier.
pub(crate) fn random_id() -> (r: u128)
    ensures
        is_drawn(r),
{
    let draw = draw_id;
    draw()
}

/// `uuid::Uuid::simple`: an identifier as 32 hexadecimal digits in lower case.
#[verifier::external_body]
pub(crate) fn simple_text(id: u128) -> (r: String)
    ensures
        r@ == hex(id as nat, 32),
{
    uuid::Uuid::from_u128(id).simple().to_string()
}

} // verus!
