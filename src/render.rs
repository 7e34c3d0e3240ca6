//! Rendering a signed message as the JSON document that a chain node accepts.
//!
//! The document nests the message fields under `"Message"` and the signature
//! under `"Signature"`, with keys in lexicographic order. Addresses and amounts
//! are JSON strings, the binary fields are base64 inside JSON strings, and the
//! integer fields are JSON numbers.

use vstd::prelude::*;
use crate::address::{is_address, payload_chars_ok, protocol_of_char};
use crate::encoding::{
    base64_encode, base64_text, decimal, json_escape, json_escape_char, json_number, json_quoted,
    json_string,
};
use crate::message::SignedMessage;
use crate::text::{is_base32_char, is_digit, str_equals};

verus! {

/// Why a signed message could not be rendered.
#[derive(Debug, Clone, Copy, PartialEq, Eq, Structural)]
pub enum RenderError {
    /// The target format is not one that this library renders.
    UnsupportedFormat,
}

/// The node's JSON document for `sm`.
pub open spec fn lotus_document(sm: SignedMessage) -> Seq<char> {
    let m = sm.message;
    let s = sm.signature;
    "{\"Message\":{\"From\":"@ + json_quoted(m.from@)
        + ",\"GasLimit\":"@ + decimal(m.gas_limit as nat)
        + ",\"GasPrice\":"@ + json_quoted(m.gas_price@)
        + ",\"Method\":"@ + decimal(m.method as nat)
        + ",\"Nonce\":"@ + decimal(m.nonce as nat)
        + ",\"Params\":"@ + json_quoted(base64_text(m.params@))
        + ",\"To\":"@ + json_quoted(m.to@)
        + ",\"Value\":"@ + json_quoted(m.value@)
        + "},\"Signature\":{\"Data\":"@ + json_quoted(base64_text(s.data@))
        + ",\"Type\":"@ + decimal(s.sig_type as nat)
        + "}}"@
}

/// The name of the node's document format.
pub open spec fn lotus_format_name() -> Seq<char> {
    "lotus"@
}

/// What `render_external` returns for `sm` and a format name.
pub open spec fn render_spec(sm: SignedMessage, format: Seq<char>) -> Result<Seq<char>, RenderError> {
    if format == lotus_format_name() {
        Ok(lotus_document(sm))
    } else {
        Err(RenderError::UnsupportedFormat)
    }
}

/// Renders `signed_message` as the node's JSON document.
pub fn convert_to_lotus_signed_message(signed_message: &SignedMessage) -> (r: String)
    ensures
        r@ == lotus_document(*signed_message),
{
    let m = &signed_message.message;
    let s = &signed_message.signature;
    let params = base64_encode(m.params.as_slice());
    let data = base64_encode(s.data.as_slice());

    let mut out = String::new();
    out.append("{\"Message\":{\"From\":");
    out.append(json_string(m.from.as_str()).as_str());
    out.append(",\"GasLimit\":");
    out.append(json_number(m.gas_limit).as_str());
    out.append(",\"GasPrice\":");
    out.append(json_string(m.gas_price.as_str()).as_str());
    out.append(",\"Method\":");
    out.append(json_number(m.method).as_str());
    out.append(",\"Nonce\":");
    out.append(json_number(m.nonce).as_str());
    out.append(",\"Params\":");
    out.append(json_string(params.as_str()).as_str());
    out.append(",\"To\":");
    out.append(json_string(m.to.as_str()).as_str());
    out.append(",\"Value\":");
    out.append(json_string(m.value.as_str()).as_str());
    out.append("},\"Signature\":{\"Data\":");
    out.append(json_string(data.as_str()).as_str());
    out.append(",\"Type\":");
    out.append(json_number(s.sig_type as u64).as_str());
    out.append("}}");
    out
}

/// Renders `signed_message` in the format named `format`. The only format is
/// `"lotus"`, the node's JSON document; any other name fails and renders
/// nothing.
pub fn render_external(signed_message: &SignedMessage, format: &str) -> (r: Result<String, RenderError>)
    ensures
        match r {
            Ok(text) => render_spec(*signed_message, format@) == Ok::<Seq<char>, RenderError>(text@),
            Err(e) => render_spec(*signed_message, format@) == Err::<Seq<char>, RenderError>(e),
        },
        r.is_ok() <==> format@ == lotus_format_name(),
{
    if str_equals(format, "lotus") {
        Ok(convert_to_lotus_signed_message(signed_message))
    } else {
        Err(RenderError::UnsupportedFormat)
    }
}

/// Rendering is a function of the signed message and the format name alone:
/// equal inputs render to the same text, or fail alike.
pub proof fn lemma_render_repeatable(a: SignedMessage, b: SignedMessage, fa: Seq<char>, fb: Seq<char>)
    requires
        a == b,
        fa == fb,
    ensures
        render_spec(a, fa) == render_spec(b, fb),
{
}

/// A character that stands for itself in a JSON string: a digit or a
/// lower-case base32 letter.
pub open spec fn is_plain_char(c: char) -> bool {
    is_digit(c) || is_base32_char(c)
}

pub open spec fn all_plain(s: Seq<char>) -> bool {
    forall|i: int| 0 <= i < s.len() ==> #[trigger] is_plain_char(s[i])
}

/// Text made of digits and lower-case base32 letters is quoted as it stands.
pub proof fn lemma_plain_text_quoted(s: Seq<char>)
    requires
        all_plain(s),
    ensures
        json_quoted(s) == seq!['"'] + s + seq!['"'],
{
    lemma_plain_text_unescaped(s);
}

proof fn lemma_plain_text_unescaped(s: Seq<char>)
    requires
        all_plain(s),
    ensures
        json_escape(s) == s,
    decreases s.len(),
{
    if s.len() == 0 {
        assert(s =~= seq![]);
    } else {
        let c = s.last();
        assert(is_plain_char(s[s.len() - 1]));
        assert(json_escape_char(c) == seq![c]);
        lemma_plain_text_unescaped(s.drop_last());
        assert(s.drop_last() + seq![c] =~= s);
    }
}

/// Every character of a well-formed address is plain.
pub proof fn lemma_address_plain(s: Seq<char>)
    requires
        is_address(s),
    ensures
        all_plain(s),
{
    let p = protocol_of_char(s[1]).unwrap();
    let payload = s.subrange(2, s.len() as int);
    assert(payload_chars_ok(p, payload));
    assert forall|i: int| 0 <= i < s.len() implies #[trigger] is_plain_char(s[i]) by {
        if i >= 2 {
            assert(s[i] == payload[i - 2]);
        }
    }
}

/// In the document of a well-formed message, the addresses and amounts stand
/// between quotes exactly as they are written.
pub proof fn lemma_well_formed_fields_unescaped(sm: SignedMessage)
    requires
        sm.message.well_formed(),
    ensures
        json_quoted(sm.message.to@) == seq!['"'] + sm.message.to@ + seq!['"'],
        json_quoted(sm.message.from@) == seq!['"'] + sm.message.from@ + seq!['"'],
        json_quoted(sm.message.value@) == seq!['"'] + sm.message.value@ + seq!['"'],
        json_quoted(sm.message.gas_price@) == seq!['"'] + sm.message.gas_price@ + seq!['"'],
{
    let m = sm.message;
    lemma_address_plain(m.to@);
    lemma_address_plain(m.from@);
    lemma_plain_text_quoted(m.to@);
    lemma_plain_text_quoted(m.from@);
    assert(all_plain(m.value@)) by {
        assert forall|i: int| 0 <= i < m.value@.len() implies #[trigger] is_plain_char(m.value@[i]) by {
            assert(is_digit(m.value@[i]));
        }
    }
    assert(all_plain(m.gas_price@)) by {
        assert forall|i: int| 0 <= i < m.gas_price@.len() implies #[trigger] is_plain_char(m.gas_price@[i]) by {
            assert(is_digit(m.gas_price@[i]));
        }
    }
    lemma_plain_text_quoted(m.value@);
    lemma_plain_text_quoted(m.gas_price@);
}

} // verus!
