//! The textual form of an account address.
//!
//! An address reads as a network letter (`f` for the main network, `t` for a
//! test network), a protocol digit and a payload:
//! - protocol `0` (an actor id): one to twenty decimal digits whose value fits
//!   in 64 bits;
//! - protocols `1` (a secp256k1 key hash) and `2` (an actor hash): twenty
//!   payload bytes and a four-byte checksum, 39 base32 characters;
//! - protocol `3` (a BLS public key): forty-eight payload bytes and a four-byte
//!   checksum, 84 base32 characters.

use vstd::prelude::*;
use crate::text::{all_base32, all_digits, base32_from, digits_from, is_digit};

verus! {

/// What kind of key or actor an address designates.
#[derive(Debug, Clone, Copy, PartialEq, Eq, Structural)]
pub enum Protocol {
    Id,
    Secp256k1,
    Actor,
    Bls,
}

/// Why a text is not an address.
#[derive(Debug, Clone, Copy, PartialEq, Eq, Structural)]
pub enum AddressError {
    /// Shorter than a network letter, a protocol digit and one payload character.
    TooShort,
    /// The first character is neither `f` nor `t`.
    UnknownNetwork,
    /// The second character is not a protocol digit from `0` to `3`.
    UnknownProtocol,
    /// The payload has the wrong length for its protocol.
    InvalidLength,
    /// The payload holds a character outside its alphabet.
    InvalidCharacter,
    /// An actor id above the largest 64-bit value.
    IdOutOfRange,
}

/// The value of a decimal digit.
pub open spec fn digit_value(c: char) -> nat {
    ((c as u32) - ('0' as u32)) as nat
}

/// The value of a string of decimal digits.
pub open spec fn digits_value(s: Seq<char>) -> nat
    decreases s.len(),
{
    if s.len() == 0 {
        0
    } else {
        digits_value(s.drop_last()) * 10 + digit_value(s.last())
    }
}

pub open spec fn protocol_of_char(c: char) -> Option<Protocol> {
    if c == '0' {
        Some(Protocol::Id)
    } else if c == '1' {
        Some(Protocol::Secp256k1)
    } else if c == '2' {
        Some(Protocol::Actor)
    } else if c == '3' {
        Some(Protocol::Bls)
    } else {
        None
    }
}

/// Whether a payload length fits the protocol.
pub open spec fn payload_len_ok(p: Protocol, len: nat) -> bool {
    match p {
        Protocol::Id => 1 <= len <= 20,
        Protocol::Secp256k1 | Protocol::Actor => len == 39,
        Protocol::Bls => len == 84,
    }
}

/// Whether the payload characters fit the protocol's alphabet.
pub open spec fn payload_chars_ok(p: Protocol, payload: Seq<char>) -> bool {
    match p {
        Protocol::Id => all_digits(payload),
        _ => all_base32(payload),
    }
}

/// The result of reading `s` as an address.
pub open spec fn parse_address_spec(s: Seq<char>) -> Result<Protocol, AddressError> {
    if s.len() < 3 {
        Err(AddressError::TooShort)
    } else if s[0] != 'f' && s[0] != 't' {
        Err(AddressError::UnknownNetwork)
    } else if protocol_of_char(s[1]).is_none() {
        Err(AddressError::UnknownProtocol)
    } else if !payload_len_ok(protocol_of_char(s[1]).unwrap(), (s.len() - 2) as nat) {
        Err(AddressError::InvalidLength)
    } else if !payload_chars_ok(protocol_of_char(s[1]).unwrap(), s.subrange(2, s.len() as int)) {
        Err(AddressError::InvalidCharacter)
    } else if protocol_of_char(s[1]).unwrap() == Protocol::Id
        && digits_value(s.subrange(2, s.len() as int)) > u64::MAX {
        Err(AddressError::IdOutOfRange)
    } else {
        Ok(protocol_of_char(s[1]).unwrap())
    }
}

/// Whether `s` is a well-formed address.
pub open spec fn is_address(s: Seq<char>) -> bool {
    parse_address_spec(s).is_ok()
}

/// Reads the protocol of an address and checks the shape of its payload.
pub fn parse_address(s: &str) -> (r: Result<Protocol, AddressError>)
    ensures
        r == parse_address_spec(s@),
{
    let n = s.unicode_len();
    if n < 3 {
        return Err(AddressError::TooShort);
    }
    let network = s.get_char(0);
    if network != 'f' && network != 't' {
        return Err(AddressError::UnknownNetwork);
    }
    let c = s.get_char(1);
    let protocol = if c == '0' {
        Protocol::Id
    } else if c == '1' {
        Protocol::Secp256k1
    } else if c == '2' {
        Protocol::Actor
    } else if c == '3' {
        Protocol::Bls
    } else {
        return Err(AddressError::UnknownProtocol);
    };
    let len = n - 2;
    let len_ok = match protocol {
        Protocol::Id => 1 <= len && len <= 20,
        Protocol::Secp256k1 | Protocol::Actor => len == 39,
        Protocol::Bls => len == 84,
    };
    if !len_ok {
        return Err(AddressError::InvalidLength);
    }
    let chars_ok = match protocol {
        Protocol::Id => digits_from(s, 2),
        _ => base32_from(s, 2),
    };
    if !chars_ok {
        return Err(AddressError::InvalidCharacter);
    }
    if protocol == Protocol::Id && !id_fits(s, n) {
        return Err(AddressError::IdOutOfRange);
    }
    Ok(protocol)
}

/// Whether the digits from index 2 on have a value that fits in 64 bits.
fn id_fits(s: &str, n: usize) -> (r: bool)
    requires
        n == s@.len(),
        2 <= n,
        all_digits(s@.subrange(2, n as int)),
    ensures
        r == (digits_value(s@.subrange(2, n as int)) <= u64::MAX),
{
    let mut acc: u64 = 0;
    let mut i: usize = 2;
    while i < n
        invariant
            n == s@.len(),
            2 <= i <= n,
            all_digits(s@.subrange(2, n as int)),
            acc as nat == digits_value(s@.subrange(2, i as int)),
        decreases n - i,
    {
        let c = s.get_char(i);
        assert(is_digit(s@.subrange(2, n as int)[i - 2]));
        let d: u64 = (c as u32 - '0' as u32) as u64;
        assert(s@.subrange(2, i + 1).drop_last() =~= s@.subrange(2, i as int));
        assert(digits_value(s@.subrange(2, i + 1)) == acc * 10 + d);
        if acc > (u64::MAX - d) / 10 {
            assert(acc * 10 + d > u64::MAX) by (nonlinear_arith)
                requires
                    acc > (u64::MAX - d) / 10,
                    d <= 9,
            ;
            proof {
                lemma_digits_value_grows(s@.subrange(2, n as int), i + 1 - 2);
                assert(s@.subrange(2, n as int).subrange(0, i + 1 - 2) =~= s@.subrange(2, i + 1));
            }
            return false;
        }
        assert(acc * 10 + d <= u64::MAX) by (nonlinear_arith)
            requires
                acc <= (u64::MAX - d) / 10,
                d <= 9,
        ;
        acc = acc * 10 + d;
        i = i + 1;
    }
    assert(s@.subrange(2, i as int) =~= s@.subrange(2, n as int));
    true
}

/// A longer string of digits is worth at least as much as its prefix.
proof fn lemma_digits_value_grows(s: Seq<char>, k: int)
    requires
        0 <= k <= s.len(),
        all_digits(s),
    ensures
        digits_value(s.subrange(0, k)) <= digits_value(s),
    decreases s.len() - k,
{
    if k < s.len() {
        lemma_digits_value_grows(s, k + 1);
        let t = s.subrange(0, k + 1);
        assert(t.drop_last() =~= s.subrange(0, k));
        assert(digits_value(t) == digits_value(s.subrange(0, k)) * 10 + digit_value(t.last()));
    } else {
        assert(s.subrange(0, k) =~= s);
    }
}

} // verus!
