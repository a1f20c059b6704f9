use vstd::prelude::*;
use vstd::arithmetic::power::pow;

verus! {

/// The lower-case hexadecimal digit for `n` (0 to 15).
pub open spec fn hex_digit(n: int) -> char {
    seq!['0', '1', '2', '3', '4', '5', '6', '7', '8', '9', 'a', 'b', 'c', 'd', 'e', 'f'][n]
}

/// The `k`-th hexadecimal digit of a 128-bit identifier, counted from the most
/// significant one (k from 0 to 31).
pub open spec fn id_nibble(id: u128, k: int) -> int {
    (id as int / pow(16, (31 - k) as nat)) % 16
}

/// Positions 8, 13, 18 and 23 of the hyphenated form hold a hyphen.
pub open spec fn is_hyphen_position(i: int) -> bool {
    i == 8 || i == 13 || i == 18 || i == 23
}

/// Which hexadecimal digit stands at position `i` of the hyphenated form.
pub open spec fn digit_index(i: int) -> int {
    if i < 8 {
        i
    } else if i < 13 {
        i - 1
    } else if i < 18 {
        i - 2
    } else if i < 23 {
        i - 3
    } else {
        i - 4
    }
}

/// The hyphenated lower-case text of an identifier,
/// `xxxxxxxx-xxxx-xxxx-xxxx-xxxxxxxxxxxx`, most significant digit first.
pub open spec fn id_text(id: u128) -> Seq<char> {
    Seq::new(
        36,
        |i: int|
            if is_hyphen_position(i) {
                '-'
            } else {
                hex_digit(id_nibble(id, digit_index(i)))
            },
    )
}

/// Formats an identifier as `uuid::Uuid::from_u128(id).to_string()` does.
/// The `uuid` crate documents (and its `Display` impl shows) that a UUID is
/// displayed in its hyphenated lower-case form, the bytes taken in big-endian
/// order; the contract states that text exactly as `id_text`.
#[verifier::external_body]
pub fn uuid_string(id: u128) -> (res: String)
    ensures
        res@ == id_text(id),
{
    uuid::Uuid::from_u128(id).to_string()
}

} // verus!
