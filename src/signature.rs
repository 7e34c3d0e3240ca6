//! Signatures as a scheme discriminant and the signature bytes.

use vstd::prelude::*;

verus! {

/// The discriminant of a secp256k1 signature.
pub const SECP256K1_SIG_TYPE: u8 = 1;
/// The discriminant of a BLS signature.
pub const BLS_SIG_TYPE: u8 = 2;

/// A secp256k1 signature: r, s and the recovery byte.
pub const SECP256K1_SIG_LEN: usize = 65;
/// A compressed BLS signature.
pub const BLS_SIG_LEN: usize = 96;

/// A signature: the scheme it was made with and its bytes.
#[derive(Debug, Clone, PartialEq, Eq)]
pub struct Signature {
    pub sig_type: u8,
    pub data: Vec<u8>,
}

/// Why a signature is not well formed.
#[derive(Debug, Clone, Copy, PartialEq, Eq, Structural)]
pub enum SignatureError {
    /// The discriminant names no known scheme.
    UnsupportedScheme,
    /// The bytes have the wrong length for the scheme.
    Malformed,
}

/// The length of the signature bytes for a scheme, where the scheme is known.
pub open spec fn signature_len(sig_type: u8) -> Option<nat> {
    if sig_type == SECP256K1_SIG_TYPE {
        Some(SECP256K1_SIG_LEN as nat)
    } else if sig_type == BLS_SIG_TYPE {
        Some(BLS_SIG_LEN as nat)
    } else {
        None
    }
}

pub open spec fn check_signature_spec(sig_type: u8, data: Seq<u8>) -> Result<(), SignatureError> {
    match signature_len(sig_type) {
        None => Err(SignatureError::UnsupportedScheme),
        Some(len) => if data.len() == len {
            Ok(())
        } else {
            Err(SignatureError::Malformed)
        },
    }
}

impl Signature {
    /// Whether the bytes have the length that the scheme gives them.
    pub open spec fn well_formed(&self) -> bool {
        check_signature_spec(self.sig_type, self.data@).is_ok()
    }

    /// The signature bytes.
    pub fn bytes(&self) -> (r: &[u8])
        ensures
            r@ == self.data@,
    {
        self.data.as_slice()
    }

    /// Checks that the scheme is known and the bytes have its length.
    pub fn check(&self) -> (r: Result<(), SignatureError>)
        ensures
            r == check_signature_spec(self.sig_type, self.data@),
    {
        let len = self.data.len();
        if self.sig_type == SECP256K1_SIG_TYPE {
            if len == SECP256K1_SIG_LEN {
                Ok(())
            } else {
                Err(SignatureError::Malformed)
            }
        } else if self.sig_type == BLS_SIG_TYPE {
            if len == BLS_SIG_LEN {
                Ok(())
            } else {
                Err(SignatureError::Malformed)
            }
        } else {
            Err(SignatureError::UnsupportedScheme)
        }
    }
}

/// Flipping bits in the bytes of a signature leaves its scheme and its length
/// as they were, so the structural check gives the same verdict before and
/// after.
pub proof fn lemma_bit_flip_keeps_check(sig_type: u8, data: Seq<u8>, i: int, mask: u8)
    requires
        0 <= i < data.len(),
    ensures
        check_signature_spec(sig_type, data.update(i, data[i] ^ mask))
            == check_signature_spec(sig_type, data),
{
}

} // verus!
