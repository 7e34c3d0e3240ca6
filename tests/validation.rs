use filecoin_signer_npm::address::{parse_address, AddressError, Protocol};
use filecoin_signer_npm::amount::check_amount;
use filecoin_signer_npm::message::{
    assemble, MessageError, MessageField, SignedMessageError, UnsignedMessage,
};
use filecoin_signer_npm::signature::{Signature, SignatureError};
use filecoin_signer_npm::text::str_equals;

fn message() -> UnsignedMessage {
    UnsignedMessage {
        to: "f1d2xrzcslx7xlbbylc5c3d5lvandqw4iwl6epxba".to_string(),
        from: "f01234".to_string(),
        nonce: 1,
        value: "1000".to_string(),
        gas_price: "1".to_string(),
        gas_limit: 1000000,
        method: 0,
        params: vec![],
    }
}

#[test]
fn address_protocols() {
    assert_eq!(parse_address("f01234"), Ok(Protocol::Id));
    assert_eq!(parse_address("t0"), Err(AddressError::TooShort));
    assert_eq!(parse_address("t00"), Ok(Protocol::Id));
    assert_eq!(parse_address("f1d2xrzcslx7xlbbylc5c3d5lvandqw4iwl6epxba"), Ok(Protocol::Secp256k1));
    assert_eq!(parse_address("t2d2xrzcslx7xlbbylc5c3d5lvandqw4iwl6epxba"), Ok(Protocol::Actor));
    let bls = format!("f3{}", "a".repeat(84));
    assert_eq!(parse_address(&bls), Ok(Protocol::Bls));
}

#[test]
fn address_errors() {
    assert_eq!(parse_address(""), Err(AddressError::TooShort));
    assert_eq!(parse_address("x01234"), Err(AddressError::UnknownNetwork));
    assert_eq!(parse_address("f91234"), Err(AddressError::UnknownProtocol));
    assert_eq!(parse_address("f1abc"), Err(AddressError::InvalidLength));
    assert_eq!(parse_address("f0123456789012345678901"), Err(AddressError::InvalidLength));
    assert_eq!(parse_address("f012a4"), Err(AddressError::InvalidCharacter));
    // '1', '8' and capitals are outside the base32 alphabet.
    assert_eq!(parse_address("f1d2xrzcslx7xlbbylc5c3d5lvandqw4iwl6epxb1"), Err(AddressError::InvalidCharacter));
    assert_eq!(parse_address("f1D2xrzcslx7xlbbylc5c3d5lvandqw4iwl6epxba"), Err(AddressError::InvalidCharacter));
    let bls = format!("f3{}", "a".repeat(83));
    assert_eq!(parse_address(&bls), Err(AddressError::InvalidLength));
}

#[test]
fn amounts() {
    assert!(check_amount("0"));
    assert!(check_amount("1000"));
    assert!(check_amount("340282366920938463463374607431768211456"));
    assert!(!check_amount(""));
    assert!(!check_amount("-1"));
    assert!(!check_amount("1.5"));
    assert!(!check_amount("12a"));
}

#[test]
fn signature_checks() {
    assert_eq!(Signature { sig_type: 1, data: vec![0; 65] }.check(), Ok(()));
    assert_eq!(Signature { sig_type: 2, data: vec![0; 96] }.check(), Ok(()));
    assert_eq!(Signature { sig_type: 1, data: vec![0; 64] }.check(), Err(SignatureError::Malformed));
    assert_eq!(Signature { sig_type: 2, data: vec![0; 65] }.check(), Err(SignatureError::Malformed));
    assert_eq!(Signature { sig_type: 3, data: vec![0; 65] }.check(), Err(SignatureError::UnsupportedScheme));
    assert_eq!(Signature { sig_type: 0, data: vec![] }.check(), Err(SignatureError::UnsupportedScheme));
    let sig = Signature { sig_type: 1, data: vec![4, 5] };
    assert_eq!(sig.bytes(), &[4u8, 5u8][..]);
}

#[test]
fn message_validation() {
    assert_eq!(message().validate(), Ok(()));

    let mut m = message();
    m.to = "f1abc".to_string();
    assert_eq!(m.validate(), Err(MessageError::InvalidAddress(MessageField::To)));

    let mut m = message();
    m.from = "g01234".to_string();
    assert_eq!(m.validate(), Err(MessageError::InvalidAddress(MessageField::From)));

    let mut m = message();
    m.value = "10 FIL".to_string();
    assert_eq!(m.validate(), Err(MessageError::InvalidAmount(MessageField::Value)));

    let mut m = message();
    m.gas_price = String::new();
    assert_eq!(m.validate(), Err(MessageError::InvalidAmount(MessageField::GasPrice)));

    // The receiver is reported before the sender.
    let mut m = message();
    m.to = "".to_string();
    m.from = "".to_string();
    assert_eq!(m.validate(), Err(MessageError::InvalidAddress(MessageField::To)));
}

#[test]
fn text_equality() {
    assert!(str_equals("lotus", "lotus"));
    assert!(str_equals("", ""));
    assert!(!str_equals("lotus", "lotu"));
    assert!(!str_equals("lotus", "lotas"));
}

#[test]
fn signed_message_validation() {
    let good = Signature { sig_type: 1, data: vec![0; 65] };
    assert_eq!(assemble(message(), good.clone()).validate(), Ok(()));

    let short = Signature { sig_type: 1, data: vec![0; 10] };
    assert_eq!(
        assemble(message(), short).validate(),
        Err(SignedMessageError::Signature(SignatureError::Malformed))
    );

    let mut m = message();
    m.value = "".to_string();
    let unknown = Signature { sig_type: 7, data: vec![] };
    assert_eq!(
        assemble(m, unknown).validate(),
        Err(SignedMessageError::Message(MessageError::InvalidAmount(MessageField::Value)))
    );
}

#[test]
fn bit_flip_keeps_signature_well_formed() {
    let data: Vec<u8> = (0u8..65).collect();
    for i in [0usize, 31, 64] {
        for bit in 0..8 {
            let mut flipped = data.clone();
            flipped[i] ^= 1 << bit;
            assert_eq!(Signature { sig_type: 1, data: flipped }.check(), Ok(()));
        }
    }
    let mut bls = vec![0u8; 96];
    bls[95] ^= 0x80;
    assert_eq!(Signature { sig_type: 2, data: bls }.check(), Ok(()));
}

#[test]
fn actor_id_limit() {
    assert_eq!(parse_address("f018446744073709551615"), Ok(Protocol::Id));
    assert_eq!(parse_address("f018446744073709551616"), Err(AddressError::IdOutOfRange));
    assert_eq!(parse_address("t099999999999999999999"), Err(AddressError::IdOutOfRange));
    assert_eq!(parse_address("f000000000000000000001"), Ok(Protocol::Id));
}
