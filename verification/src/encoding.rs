//! Textual forms of chain values: lower-case hexadecimal and checksummed
//! addresses.

use vstd::prelude::*;

verus! {

/// The lower-case hexadecimal digit of a value below sixteen.
pub open spec fn hex_digit(nibble: int) -> char {
    if nibble == 0 {
        '0'
    } else if nibble == 1 {
        '1'
    } else if nibble == 2 {
        '2'
    } else if nibble == 3 {
        '3'
    } else if nibble == 4 {
        '4'
    } else if nibble == 5 {
        '5'
    } else if nibble == 6 {
        '6'
    } else if nibble == 7 {
        '7'
    } else if nibble == 8 {
        '8'
    } else if nibble == 9 {
        '9'
    } else if nibble == 10 {
        'a'
    } else if nibble == 11 {
        'b'
    } else if nibble == 12 {
        'c'
    } else if nibble == 13 {
        'd'
    } else if nibble == 14 {
        'e'
    } else {
        'f'
    }
}

/// Two lower-case hexadecimal digits per byte, high nibble first.
pub open spec fn lower_hex(bytes: Seq<u8>) -> Seq<char> {
    Seq::new(
        2 * bytes.len(),
        |i: int|
            if i % 2 == 0 {
                hex_digit(bytes[i / 2] as int / 16)
            } else {
                hex_digit(bytes[i / 2] as int % 16)
            },
    )
}

/// The text `0x` followed by the lower-case hexadecimal form of the bytes.
pub open spec fn prefixed_hex(bytes: Seq<u8>) -> Seq<char> {
    seq!['0', 'x'] + lower_hex(bytes)
}

/// The upper-case form of a lower-case hexadecimal digit, and any other
/// character as it is.
pub open spec fn upper_case(digit: char) -> char {
    if digit == 'a' {
        'A'
    } else if digit == 'b' {
        'B'
    } else if digit == 'c' {
        'C'
    } else if digit == 'd' {
        'D'
    } else if digit == 'e' {
        'E'
    } else if digit == 'f' {
        'F'
    } else {
        digit
    }
}

/// Whether `text` is `0x` followed by the hexadecimal digits of `bytes`, two
/// per byte, each letter in either case.
pub open spec fn is_cased_hex(text: Seq<char>, bytes: Seq<u8>) -> bool {
    &&& text.len() == 2 + 2 * bytes.len()
    &&& text[0] == '0'
    &&& text[1] == 'x'
    &&& forall|i: int|
        0 <= i < 2 * bytes.len() ==> #[trigger] text[2 + i] == lower_hex(bytes)[i] || text[2 + i]
            == upper_case(lower_hex(bytes)[i])
}

/// Whether `text` is the text of some twenty-byte address: `0x` and forty
/// hexadecimal digits, letters in either case.
pub open spec fn is_address_text(text: Seq<char>) -> bool {
    exists|address: Seq<u8>| address.len() == 20 && #[trigger] is_cased_hex(text, address)
}

/// The EIP-55 checksummed text of a twenty-byte address. Its letters' case
/// comes from a Keccak-256 digest, so the text is named here, not spelled out.
pub uninterp spec fn checksum_text(address: Seq<u8>) -> Seq<char>;

/// Calls `hex::encode`, which writes each byte as two lower-case hexadecimal
/// digits, high nibble first; the contract states exactly that text.
#[verifier::external_body]
fn hex_encode(bytes: &[u8]) -> (text: String)
    ensures
        text@ == lower_hex(bytes@),
{
    hex::encode(bytes)
}

/// Calls `ethers::utils::to_checksum` without a chain id. The contract names
/// the returned text as `checksum_text` of the address bytes. Of its shape it
/// claims what the function's fold shows: `0x`, then one character per
/// hexadecimal digit of the address, which is that digit or its upper case.
/// Which letters are upper case is not stated.
#[verifier::external_body]
pub(crate) fn to_checksum(address: &[u8; 20]) -> (text: String)
    ensures
        text@ == checksum_text(address@),
        is_cased_hex(text@, address@),
{
    ethers::utils::to_checksum(&ethers::types::H160(*address), None)
}

/// `0x` followed by the lower-case hexadecimal digits of `bytes`.
pub fn hex_with_prefix(bytes: &[u8]) -> (text: String)
    ensures
        text@ == prefixed_hex(bytes@),
{
    let digits = hex_encode(bytes);
    let text = String::from_str("0x").concat(digits.as_str());
    proof {
        reveal_strlit("0x");
        assert("0x"@ =~= seq!['0', 'x']);
    }
    text
}

} // verus!
