//! Transaction identifiers: UUIDs held as `u128`, most significant byte
//! first, and the calls into `uuid` that make, read and print them.

use vstd::prelude::*;

verus! {

/// The bits that every version 4 (random) UUID of the RFC variant shares:
/// the version nibble is 4 and the two variant bits are `10`.
pub open spec fn is_random_id(id: u128) -> bool {
    id & 0x0000_0000_0000_f000_c000_0000_0000_0000 == 0x0000_0000_0000_4000_8000_0000_0000_0000
}

/// The `k`-th hexadecimal digit of `id`, counted from the most significant.
pub open spec fn hex_digit(id: u128, k: int) -> char {
    "0123456789abcdef"@[((id >> ((4 * (31 - k)) as u128)) & 0xf) as int]
}

/// The canonical text of an identifier: 32 lower-case hexadecimal digits in
/// groups of 8, 4, 4, 4 and 12, separated by hyphens.
pub open spec fn id_text(id: u128) -> Seq<char> {
    Seq::new(
        36,
        |i: int|
            if i == 8 || i == 13 || i == 18 || i == 23 {
                '-'
            } else if i < 8 {
                hex_digit(id, i)
            } else if i < 13 {
                hex_digit(id, i - 1)
            } else if i < 18 {
                hex_digit(id, i - 2)
            } else if i < 23 {
                hex_digit(id, i - 3)
            } else {
                hex_digit(id, i - 4)
            },
    )
}

/// The identifier that `uuid::Uuid::parse_str` reads from a text, or `None`
/// where it rejects the text.
pub uninterp spec fn parsed_id(text: Seq<char>) -> Option<u128>;

/// Calls `uuid::Uuid::new_v4` and takes the value with `as_u128`. Trusted:
/// the result is random but for the version and variant bits, which `uuid`
/// sets on every value it returns. Panics, as `uuid` does, where the
/// system has no random numbers to give.
#[verifier::external_body]
pub(crate) fn random_id() -> (id: u128)
    ensures
        is_random_id(id),
{
    uuid::Uuid::new_v4().as_u128()
}

/// Calls `uuid::Uuid::default` and takes the value with `as_u128`.
/// Trusted: it is the nil UUID, all bits zero.
#[verifier::external_body]
pub(crate) fn nil_id() -> (id: u128)
    ensures
        id == 0,
{
    uuid::Uuid::default().as_u128()
}

/// Calls `uuid::Uuid::parse_str` and takes the value with `as_u128`.
/// Trusted: the result is a function of the text alone, named `parsed_id`.
#[verifier::external_body]
pub(crate) fn parse_id(text: &str) -> (r: Option<u128>)
    ensures
        r == parsed_id(text@),
{
    match uuid::Uuid::parse_str(text) {
        Ok(id) => Some(id.as_u128()),
        Err(_) => None,
    }
}

/// Calls `to_string` on the `uuid::Uuid` that `from_u128` makes of an
/// identifier. Trusted: `uuid` prints the hyphenated lower-case form, most
/// significant digit first, which `id_text` spells out.
#[verifier::external_body]
pub(crate) fn id_to_string(id: u128) -> (text: String)
    ensures
        text@ == id_text(id),
{
    uuid::Uuid::from_u128(id).to_string()
}

/// Where two canonical texts agree at position `at`, which holds digit `k`,
/// the two identifiers agree in that digit.
proof fn lemma_digit_gives_nibble(a: u128, b: u128, k: int, at: int)
    requires
        0 <= k < 32,
        0 <= at < 36,
        id_text(a)[at] == hex_digit(a, k),
        id_text(b)[at] == hex_digit(b, k),
        id_text(a) == id_text(b),
    ensures
        (a >> ((4 * (31 - k)) as u128)) & 0xf == (b >> ((4 * (31 - k)) as u128)) & 0xf,
{
    reveal_strlit("0123456789abcdef");
    let shift = (4 * (31 - k)) as u128;
    let x = (a >> shift) & 0xf;
    let y = (b >> shift) & 0xf;
    assert(x < 16 && y < 16) by (bit_vector)
        requires
            x == (a >> shift) & 0xf,
            y == (b >> shift) & 0xf,
    ;
    assert("0123456789abcdef"@[x as int] == "0123456789abcdef"@[y as int]);
}

/// Identifiers with the same canonical text are the same identifier.
pub proof fn lemma_id_text_injective(a: u128, b: u128)
    requires
        id_text(a) == id_text(b),
    ensures
        a == b,
{
    lemma_digit_gives_nibble(a, b, 0, 0);
    lemma_digit_gives_nibble(a, b, 1, 1);
    lemma_digit_gives_nibble(a, b, 2, 2);
    lemma_digit_gives_nibble(a, b, 3, 3);
    lemma_digit_gives_nibble(a, b, 4, 4);
    lemma_digit_gives_nibble(a, b, 5, 5);
    lemma_digit_gives_nibble(a, b, 6, 6);
    lemma_digit_gives_nibble(a, b, 7, 7);
    lemma_digit_gives_nibble(a, b, 8, 9);
    lemma_digit_gives_nibble(a, b, 9, 10);
    lemma_digit_gives_nibble(a, b, 10, 11);
    lemma_digit_gives_nibble(a, b, 11, 12);
    lemma_digit_gives_nibble(a, b, 12, 14);
    lemma_digit_gives_nibble(a, b, 13, 15);
    lemma_digit_gives_nibble(a, b, 14, 16);
    lemma_digit_gives_nibble(a, b, 15, 17);
    lemma_digit_gives_nibble(a, b, 16, 19);
    lemma_digit_gives_nibble(a, b, 17, 20);
    lemma_digit_gives_nibble(a, b, 18, 21);
    lemma_digit_gives_nibble(a, b, 19, 22);
    lemma_digit_gives_nibble(a, b, 20, 24);
    lemma_digit_gives_nibble(a, b, 21, 25);
    lemma_digit_gives_nibble(a, b, 22, 26);
    lemma_digit_gives_nibble(a, b, 23, 27);
    lemma_digit_gives_nibble(a, b, 24, 28);
    lemma_digit_gives_nibble(a, b, 25, 29);
    lemma_digit_gives_nibble(a, b, 26, 30);
    lemma_digit_gives_nibble(a, b, 27, 31);
    lemma_digit_gives_nibble(a, b, 28, 32);
    lemma_digit_gives_nibble(a, b, 29, 33);
    lemma_digit_gives_nibble(a, b, 30, 34);
    lemma_digit_gives_nibble(a, b, 31, 35);
    assert(a == b) by (bit_vector)
        requires
            (a >> 124u128) & 0xf == (b >> 124u128) & 0xf,
            (a >> 120u128) & 0xf == (b >> 120u128) & 0xf,
            (a >> 116u128) & 0xf == (b >> 116u128) & 0xf,
            (a >> 112u128) & 0xf == (b >> 112u128) & 0xf,
            (a >> 108u128) & 0xf == (b >> 108u128) & 0xf,
            (a >> 104u128) & 0xf == (b >> 104u128) & 0xf,
            (a >> 100u128) & 0xf == (b >> 100u128) & 0xf,
            (a >> 96u128) & 0xf == (b >> 96u128) & 0xf,
            (a >> 92u128) & 0xf == (b >> 92u128) & 0xf,
            (a >> 88u128) & 0xf == (b >> 88u128) & 0xf,
            (a >> 84u128) & 0xf == (b >> 84u128) & 0xf,
            (a >> 80u128) & 0xf == (b >> 80u128) & 0xf,
            (a >> 76u128) & 0xf == (b >> 76u128) & 0xf,
            (a >> 72u128) & 0xf == (b >> 72u128) & 0xf,
            (a >> 68u128) & 0xf == (b >> 68u128) & 0xf,
            (a >> 64u128) & 0xf == (b >> 64u128) & 0xf,
            (a >> 60u128) & 0xf == (b >> 60u128) & 0xf,
            (a >> 56u128) & 0xf == (b >> 56u128) & 0xf,
            (a >> 52u128) & 0xf == (b >> 52u128) & 0xf,
            (a >> 48u128) & 0xf == (b >> 48u128) & 0xf,
            (a >> 44u128) & 0xf == (b >> 44u128) & 0xf,
            (a >> 40u128) & 0xf == (b >> 40u128) & 0xf,
            (a >> 36u128) & 0xf == (b >> 36u128) & 0xf,
            (a >> 32u128) & 0xf == (b >> 32u128) & 0xf,
            (a >> 28u128) & 0xf == (b >> 28u128) & 0xf,
            (a >> 24u128) & 0xf == (b >> 24u128) & 0xf,
            (a >> 20u128) & 0xf == (b >> 20u128) & 0xf,
            (a >> 16u128) & 0xf == (b >> 16u128) & 0xf,
            (a >> 12u128) & 0xf == (b >> 12u128) & 0xf,
            (a >> 8u128) & 0xf == (b >> 8u128) & 0xf,
            (a >> 4u128) & 0xf == (b >> 4u128) & 0xf,
            (a >> 0u128) & 0xf == (b >> 0u128) & 0xf,
    ;
}

} // verus!
