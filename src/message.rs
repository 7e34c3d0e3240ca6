//! Messages, their validation, and their pairing with a signature.

use vstd::prelude::*;
use crate::address::{is_address, parse_address};
use crate::amount::{check_amount, is_amount};
use crate::signature::{check_signature_spec, Signature, SignatureError};

verus! {

/// A message before signing. Addresses and amounts are kept in their textual
/// form; `params` holds the call parameters already encoded.
#[derive(Debug, Clone, PartialEq, Eq)]
pub struct UnsignedMessage {
    pub to: String,
    pub from: String,
    pub nonce: u64,
    pub value: String,
    pub gas_price: String,
    pub gas_limit: u64,
    pub method: u64,
    pub params: Vec<u8>,
}

/// A message together with its signature.
#[derive(Debug, Clone, PartialEq, Eq)]
pub struct SignedMessage {
    pub message: UnsignedMessage,
    pub signature: Signature,
}

/// The textual fields of a message.
#[derive(Debug, Clone, Copy, PartialEq, Eq, Structural)]
pub enum MessageField {
    To,
    From,
    Value,
    GasPrice,
}

/// Why a message is not well formed, and in which field.
#[derive(Debug, Clone, Copy, PartialEq, Eq, Structural)]
pub enum MessageError {
    InvalidAddress(MessageField),
    InvalidAmount(MessageField),
}

/// The first field of `m` that is not well formed, in the order receiver,
/// sender, value, gas price.
pub open spec fn validate_spec(m: UnsignedMessage) -> Result<(), MessageError> {
    if !is_address(m.to@) {
        Err(MessageError::InvalidAddress(MessageField::To))
    } else if !is_address(m.from@) {
        Err(MessageError::InvalidAddress(MessageField::From))
    } else if !is_amount(m.value@) {
        Err(MessageError::InvalidAmount(MessageField::Value))
    } else if !is_amount(m.gas_price@) {
        Err(MessageError::InvalidAmount(MessageField::GasPrice))
    } else {
        Ok(())
    }
}

impl UnsignedMessage {
    /// Both addresses are well formed and both amounts are decimal.
    pub open spec fn well_formed(&self) -> bool {
        validate_spec(*self).is_ok()
    }

    /// Checks every textual field, and names the first that fails.
    pub fn validate(&self) -> (r: Result<(), MessageError>)
        ensures
            r == validate_spec(*self),
    {
        if parse_address(self.to.as_str()).is_err() {
            return Err(MessageError::InvalidAddress(MessageField::To));
        }
        if parse_address(self.from.as_str()).is_err() {
            return Err(MessageError::InvalidAddress(MessageField::From));
        }
        if !check_amount(self.value.as_str()) {
            return Err(MessageError::InvalidAmount(MessageField::Value));
        }
        if !check_amount(self.gas_price.as_str()) {
            return Err(MessageError::InvalidAmount(MessageField::GasPrice));
        }
        Ok(())
    }
}

/// Why a signed message is not well formed.
#[derive(Debug, Clone, Copy, PartialEq, Eq, Structural)]
pub enum SignedMessageError {
    Message(MessageError),
    Signature(SignatureError),
}

/// The message is checked first, then the signature.
pub open spec fn validate_signed_spec(sm: SignedMessage) -> Result<(), SignedMessageError> {
    match validate_spec(sm.message) {
        Err(e) => Err(SignedMessageError::Message(e)),
        Ok(()) => match check_signature_spec(sm.signature.sig_type, sm.signature.data@) {
            Err(e) => Err(SignedMessageError::Signature(e)),
            Ok(()) => Ok(()),
        },
    }
}

impl SignedMessage {
    /// The message and the signature are each well formed.
    pub open spec fn well_formed(&self) -> bool {
        self.message.well_formed() && self.signature.well_formed()
    }

    /// Checks the message, then the signature, and names the first failure.
    pub fn validate(&self) -> (r: Result<(), SignedMessageError>)
        ensures
            r == validate_signed_spec(*self),
            r.is_ok() <==> self.well_formed(),
    {
        match self.message.validate() {
            Err(e) => Err(SignedMessageError::Message(e)),
            Ok(()) => match self.signature.check() {
                Err(e) => Err(SignedMessageError::Signature(e)),
                Ok(()) => Ok(()),
            },
        }
    }
}

/// Packs a message with its signature.
pub fn assemble(message: UnsignedMessage, signature: Signature) -> (r: SignedMessage)
    ensures
        r.message == message,
        r.signature == signature,
{
    SignedMessage { message, signature }
}

} // verus!
