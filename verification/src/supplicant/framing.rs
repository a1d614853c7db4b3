//! EAP packets and TEAP messages, as the framing layer hands them over.
use vstd::prelude::*;

verus! {

/// The EAP type of TEAP.
pub const TEAP_EAP_TYPE: u8 = 55;

/// The TEAP version that we speak.
pub const TEAP_VERSION: u8 = 1;

/// The code of an EAP packet.
#[derive(Debug, Clone, Copy, PartialEq, Eq, Structural)]
pub enum EapCode {
    /// A request.
    Request,
    /// A response.
    Response,
    /// The authenticator accepts.
    Success,
    /// The authenticator refuses.
    Failure,
    /// Any other code.
    Unknown(u8),
}

/// A decoded EAP packet.
#[derive(Debug, Clone, PartialEq, Eq)]
pub struct EapPacket {
    /// The code.
    pub code: EapCode,
    /// The identifier; a response echoes its request's.
    pub id: u8,
    /// The method type, of a request or a response.
    pub type_: Option<u8>,
    /// The type data.
    pub data: Vec<u8>,
}

impl EapPacket {
    /// The response that answers request `id` of a method with this type data.
    pub fn response(id: u8, type_: u8, data: Vec<u8>) -> (p: EapPacket)
        ensures
            p == (EapPacket { code: EapCode::Response, id, type_: Some(type_), data }),
    {
        EapPacket { code: EapCode::Response, id, type_: Some(type_), data }
    }
}

/// One TEAP (or EAP-TLS) message: a fragment of TLS record octets.
#[derive(Debug, Clone, PartialEq, Eq)]
pub struct TeapOuter {
    /// More fragments follow.
    pub more_fragments: bool,
    /// The opening message.
    pub start: bool,
    /// The protocol version.
    pub version: u8,
    /// The length of the whole TLS message, where it is given.
    pub tls_message_length: Option<u32>,
    /// The record octets.
    pub data: Vec<u8>,
}

/// A response echoes the identifier of its request, and carries its type and its data.
pub proof fn law_response_echoes_its_request(id: u8, type_: u8, data: Vec<u8>, p: EapPacket)
    requires
        call_ensures(EapPacket::response, (id, type_, data), p),
    ensures
        p.code is Response,
        p.id == id,
        p.type_ == Some(type_),
        p.data@ == data@,
{
}

} // verus!
