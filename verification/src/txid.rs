use std::str::FromStr;
use vstd::prelude::*;

verus! {

/// What `uuid::Uuid::from_str` gives for a text: the 128-bit value of the
/// UUID it denotes, or `None` where the text is not a UUID in one of the
/// forms that the `uuid` crate accepts (simple, hyphenated, braced, URN).
pub uninterp spec fn uuid_parse(text: Seq<char>) -> Option<u128>;

/// The lower-case hexadecimal digit for `n` (`0 <= n < 16`).
pub open spec fn hex_digit(n: int) -> char {
    seq!['0', '1', '2', '3', '4', '5', '6', '7', '8', '9', 'a', 'b', 'c', 'd', 'e', 'f'][n]
}

/// The `k`-th hexadecimal digit of `id`, counted from the most significant one.
pub open spec fn nibble(id: u128, k: int) -> int {
    ((id >> ((124 - 4 * k) as u128)) & 15u128) as int
}

/// Whether position `p` of a hyphenated UUID holds a hyphen.
pub open spec fn is_hyphen_position(p: int) -> bool {
    p == 8 || p == 13 || p == 18 || p == 23
}

/// The digit that position `p` of a hyphenated UUID shows (hyphens not counted).
pub open spec fn digit_index(p: int) -> int {
    if p < 8 {
        p
    } else if p < 13 {
        p - 1
    } else if p < 18 {
        p - 2
    } else if p < 23 {
        p - 3
    } else {
        p - 4
    }
}

/// The hyphenated lower-case text of a UUID, as in
/// `67e55044-10b1-426f-9247-bb680e5fe0c8`: 32 hexadecimal digits, most
/// significant first, in groups of 8, 4, 4, 4 and 12.
pub open spec fn hyphenated(id: u128) -> Seq<char> {
    Seq::new(
        36,
        |p: int|
            if is_hyphen_position(p) {
                '-'
            } else {
                hex_digit(nibble(id, digit_index(p)))
            },
    )
}

/// A random (version 4, RFC variant) UUID: its version digit is 4 and the two
/// top bits of its variant digit are `10`.
pub open spec fn is_random_uuid(id: u128) -> bool {
    nibble(id, 12) == 4 && nibble(id, 16) / 4 == 2
}

/// The lengths of the texts that `uuid::Uuid::from_str` can accept: simple
/// (32), hyphenated (36), braced (38) and URN (45) forms.
pub open spec fn is_uuid_text_length(n: nat) -> bool {
    n == 32 || n == 36 || n == 38 || n == 45
}

/// `c` with an ASCII lower-case letter made upper-case.
pub open spec fn ascii_upper(c: char) -> char {
    if 97 <= (c as int) && (c as int) <= 122 {
        ((c as int) - 32) as char
    } else {
        c
    }
}

/// `s` with its ASCII letters made upper-case.
pub open spec fn upper_case(s: Seq<char>) -> Seq<char> {
    s.map_values(|c: char| ascii_upper(c))
}

/// `s` between braces, as in `{67e55044-10b1-426f-9247-bb680e5fe0c8}`.
pub open spec fn braced(s: Seq<char>) -> Seq<char> {
    seq!['{'] + s + seq!['}']
}

/// `s` behind the prefix `urn:uuid:`.
pub open spec fn urn(s: Seq<char>) -> Seq<char> {
    seq!['u', 'r', 'n', ':', 'u', 'u', 'i', 'd', ':'] + s
}

/// `s` without its hyphens, as in `67e5504410b1426f9247bb680e5fe0c8`.
pub open spec fn simple(s: Seq<char>) -> Seq<char> {
    s.filter(|c: char| c != '-')
}

/// The text forms of a UUID other than the hyphenated lower-case one, each of
/// which `uuid::Uuid::from_str` also reads.
pub open spec fn reads_in_every_form(text: Seq<char>, id: u128) -> bool {
    &&& uuid_parse(upper_case(text)) == Some(id)
    &&& uuid_parse(braced(text)) == Some(id)
    &&& uuid_parse(urn(text)) == Some(id)
    &&& uuid_parse(simple(text)) == Some(id)
}

/// Draws a fresh identifier for a transaction (`uuid::Uuid::new_v4`). The
/// value comes from the system's random source; only its version and variant
/// digits are fixed.
#[verifier::external_body]
pub(crate) fn new_transaction_id() -> (id: u128)
    ensures
        is_random_uuid(id),
{
    uuid::Uuid::new_v4().as_u128()
}

/// Reads a transaction identifier (`uuid::Uuid::from_str`). Which texts are
/// accepted, and the value read, are left to the name [`uuid_parse`], except
/// that only texts of 32, 36, 38 or 45 characters can be accepted.
#[verifier::external_body]
pub(crate) fn parse_transaction_id(text: &str) -> (id: Option<u128>)
    ensures
        id == uuid_parse(text@),
        id is Some ==> is_uuid_text_length(text@.len()),
{
    match uuid::Uuid::from_str(text) {
        Ok(u) => Some(u.as_u128()),
        Err(_) => None,
    }
}

/// Writes a transaction identifier (`Display` of `uuid::Uuid`, which is the
/// hyphenated lower-case form); `uuid::Uuid::from_str` reads that form back,
/// and also its upper-case, braced, URN and simple forms, since its hex
/// decoding ignores case and it accepts every form the crate writes.
#[verifier::external_body]
pub(crate) fn format_transaction_id(id: u128) -> (text: String)
    ensures
        text@ == hyphenated(id),
        uuid_parse(text@) == Some(id),
        reads_in_every_form(text@, id),
{
    uuid::Uuid::from_u128(id).to_string()
}

} // verus!
