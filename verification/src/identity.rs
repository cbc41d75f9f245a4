//! Identities of contexts.
use vstd::prelude::*;
use vstd::string::*;

verus! {

/// Whether `id`, read as the 16 bytes of a UUID from the most significant
/// down, carries version 4 and the RFC 4122 variant.
pub open spec fn is_random_uuid(id: u128) -> bool {
    &&& id & 0xf000_0000_0000_0000_0000u128 == 0x4000_0000_0000_0000_0000u128
    &&& id & 0xc000_0000_0000_0000u128 == 0x8000_0000_0000_0000u128
}

/// The lowercase hexadecimal digit of `n`, where `n` is below 16.
pub open spec fn hex_digit(n: int) -> char {
    seq!['0', '1', '2', '3', '4', '5', '6', '7', '8', '9', 'a', 'b', 'c', 'd', 'e', 'f'][n]
}

/// The power of 16 with the exponent `n`.
pub open spec fn sixteen_to(n: nat) -> int
    decreases n,
{
    if n == 0 {
        1
    } else {
        16 * sixteen_to((n - 1) as nat)
    }
}

/// The digit of `id` at place `i` of its 32 hexadecimal digits, counted
/// from the most significant.
pub open spec fn digit(id: u128, i: int) -> int {
    (id as int / sixteen_to((31 - i) as nat)) % 16
}

/// How many hyphens stand before place `j` of the text of an identity.
pub open spec fn hyphens_before(j: int) -> int {
    if j < 8 {
        0
    } else if j < 13 {
        1
    } else if j < 18 {
        2
    } else if j < 23 {
        3
    } else {
        4
    }
}

/// The text of an identity: its 32 lowercase hexadecimal digits from the
/// most significant down, in groups of 8, 4, 4, 4 and 12 with a hyphen
/// between two groups.
pub open spec fn uuid_text(id: u128) -> Seq<char> {
    Seq::new(
        36,
        |j: int|
            if j == 8 || j == 13 || j == 18 || j == 23 {
                '-'
            } else {
                hex_digit(digit(id, j - hyphens_before(j)))
            },
    )
}

/// A random identity from `uuid::Uuid::new_v4`, as the number that
/// `uuid::Uuid::as_u128` reads from its bytes. Each call may give another
/// number; all that is claimed is the version and the variant that `new_v4`
/// sets.
#[verifier::external_body]
pub(crate) fn fresh_id() -> (id: u128)
    ensures
        is_random_uuid(id),
{
    uuid::Uuid::new_v4().as_u128()
}

/// The text of an identity: the UUID that `uuid::Uuid::from_u128` makes of
/// `id`, as its `Display` writes it, which is the hyphenated form in
/// lowercase.
#[verifier::external_body]
pub(crate) fn id_text(id: u128) -> (r: String)
    ensures
        r@ == uuid_text(id),
{
    uuid::Uuid::from_u128(id).to_string()
}

} // verus!
