//! The opaque payload carried by protocol records, in either of the two byte
//! representations it may arrive in, and its generic rendering.

use crate::text::{byte_list_text, byte_list_to_text};
use vstd::prelude::*;
use vstd::std_specs::convert::{FromSpec, FromSpecImpl};

verus! {

/// `bytes::Bytes`, a shared byte buffer, carried through as it is: what it
/// holds is known to the contracts as `shared_contents`.
#[verifier::external_type_specification]
#[verifier::external_body]
pub struct ExSharedBuffer(bytes::Bytes);

/// The bytes that a shared buffer holds, in order: the slice that it
/// derefs to.
pub uninterp spec fn shared_contents(buffer: bytes::Bytes) -> Seq<u8>;

/// Calls `to_vec` on the slice that a `bytes::Bytes` derefs to. Trusted, and
/// not proved: the vector holds the bytes of the buffer, in order.
#[verifier::external_body]
fn shared_bytes(buffer: &bytes::Bytes) -> (bytes: Vec<u8>)
    ensures
        bytes@ == shared_contents(*buffer),
{
    buffer.to_vec()
}

/// An opaque payload: an owned byte vector or a shared byte buffer.
#[derive(Debug)]
pub enum Payload {
    Prost(Vec<u8>),
    Protobuf(bytes::Bytes),
}

/// What a payload is to the contracts: its representation and its bytes.
pub enum PayloadView {
    Prost(Seq<u8>),
    Protobuf(Seq<u8>),
}

impl PayloadView {
    /// The bytes of the payload, whatever its representation.
    pub open spec fn bytes(self) -> Seq<u8> {
        match self {
            PayloadView::Prost(bytes) => bytes,
            PayloadView::Protobuf(bytes) => bytes,
        }
    }
}

impl View for Payload {
    type V = PayloadView;

    open spec fn view(&self) -> PayloadView {
        match self {
            Payload::Prost(bytes) => PayloadView::Prost(bytes@),
            Payload::Protobuf(buffer) => PayloadView::Protobuf(shared_contents(*buffer)),
        }
    }
}

impl From<Vec<u8>> for Payload {
    fn from(vec: Vec<u8>) -> (payload: Payload) {
        Payload::Prost(vec)
    }
}

impl FromSpecImpl<Vec<u8>> for Payload {
    open spec fn obeys_from_spec() -> bool {
        true
    }

    open spec fn from_spec(vec: Vec<u8>) -> Payload {
        Payload::Prost(vec)
    }
}

impl From<bytes::Bytes> for Payload {
    fn from(bytes: bytes::Bytes) -> (payload: Payload) {
        Payload::Protobuf(bytes)
    }
}

impl FromSpecImpl<bytes::Bytes> for Payload {
    open spec fn obeys_from_spec() -> bool {
        true
    }

    open spec fn from_spec(bytes: bytes::Bytes) -> Payload {
        Payload::Protobuf(bytes)
    }
}

/// The generic rendering of a payload: its bytes as a bracketed list of
/// decimal numbers, in round brackets after `Prost`. The representation
/// that carries the bytes does not show.
pub open spec fn default_text(payload: PayloadView) -> Seq<char> {
    "Prost("@ + byte_list_text(payload.bytes()) + ")"@
}

/// Renders a payload generically, with no interpretation of its bytes.
pub fn default_format(payload: &Payload) -> (text: String)
    ensures
        text@ == default_text(payload@),
{
    let list = match payload {
        Payload::Prost(bytes) => byte_list_to_text(bytes),
        Payload::Protobuf(buffer) => {
            let bytes = shared_bytes(buffer);
            byte_list_to_text(&bytes)
        },
    };
    let mut text = String::from_str("Prost(");
    text.append(list.as_str());
    text.append(")");
    text
}

/// Wrapping bytes as a payload, in either representation, keeps the bytes.
pub proof fn law_wrapping_keeps_bytes(vec: Vec<u8>, buffer: bytes::Bytes)
    ensures
        <Payload as FromSpec<Vec<u8>>>::from_spec(vec)@ == PayloadView::Prost(vec@),
        <Payload as FromSpec<Vec<u8>>>::from_spec(vec)@.bytes() == vec@,
        <Payload as FromSpec<bytes::Bytes>>::from_spec(buffer)@ == PayloadView::Protobuf(
            shared_contents(buffer),
        ),
        <Payload as FromSpec<bytes::Bytes>>::from_spec(buffer)@.bytes() == shared_contents(buffer),
{
}

/// The generic rendering depends on the bytes alone: two payloads with the
/// same bytes have the same text, whichever representation carries each.
pub proof fn law_text_depends_on_bytes(first: PayloadView, second: PayloadView)
    requires
        first.bytes() == second.bytes(),
    ensures
        default_text(first) == default_text(second),
{
}

} // verus!
