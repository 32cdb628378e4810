use vstd::prelude::*;

verus! {

/// The result part carried by every result-bearing response.
pub struct LdapResult {
    pub result_code: u32,
    pub diagnostic_message: String,
}

/// The protocol operation carried by one LDAP message.
///
/// Request-side and non-result operations carry nothing that the detection
/// keywords read, so they are plain tags.
pub enum ProtocolOp {
    BindRequest,
    BindResponse(LdapResult),
    UnbindRequest,
    SearchRequest,
    SearchResultEntry,
    SearchResultDone(LdapResult),
    SearchResultReference,
    ModifyRequest,
    ModifyResponse(LdapResult),
    AddRequest,
    AddResponse(LdapResult),
    DelRequest,
    DelResponse(LdapResult),
    ModDnRequest,
    ModDnResponse(LdapResult),
    CompareRequest,
    CompareResponse(LdapResult),
    AbandonRequest,
    ExtendedRequest,
    ExtendedResponse(LdapResult),
    IntermediateResponse,
}

/// One decoded LDAP message.
pub struct LdapMessage {
    pub protocol_op: ProtocolOp,
}

/// One request and the responses that answered it, in arrival order.
pub struct LdapTransaction {
    pub request: Option<LdapMessage>,
    pub responses: Vec<LdapMessage>,
}

/// The protocol operation code of an operation (its application tag).
pub open spec fn op_code(op: ProtocolOp) -> u8 {
    match op {
        ProtocolOp::BindRequest => 0,
        ProtocolOp::BindResponse(_) => 1,
        ProtocolOp::UnbindRequest => 2,
        ProtocolOp::SearchRequest => 3,
        ProtocolOp::SearchResultEntry => 4,
        ProtocolOp::SearchResultDone(_) => 5,
        ProtocolOp::ModifyRequest => 6,
        ProtocolOp::ModifyResponse(_) => 7,
        ProtocolOp::AddRequest => 8,
        ProtocolOp::AddResponse(_) => 9,
        ProtocolOp::DelRequest => 10,
        ProtocolOp::DelResponse(_) => 11,
        ProtocolOp::ModDnRequest => 12,
        ProtocolOp::ModDnResponse(_) => 13,
        ProtocolOp::CompareRequest => 14,
        ProtocolOp::CompareResponse(_) => 15,
        ProtocolOp::AbandonRequest => 16,
        ProtocolOp::SearchResultReference => 19,
        ProtocolOp::ExtendedRequest => 23,
        ProtocolOp::ExtendedResponse(_) => 24,
        ProtocolOp::IntermediateResponse => 25,
    }
}

/// The result part of an operation, for the result-bearing ones.
pub open spec fn result_of(op: ProtocolOp) -> Option<LdapResult> {
    match op {
        ProtocolOp::BindResponse(r) => Some(r),
        ProtocolOp::SearchResultDone(r) => Some(r),
        ProtocolOp::ModifyResponse(r) => Some(r),
        ProtocolOp::AddResponse(r) => Some(r),
        ProtocolOp::DelResponse(r) => Some(r),
        ProtocolOp::ModDnResponse(r) => Some(r),
        ProtocolOp::CompareResponse(r) => Some(r),
        ProtocolOp::ExtendedResponse(r) => Some(r),
        _ => None,
    }
}

/// The result code of a message, where its operation carries one.
pub open spec fn result_code_of(m: LdapMessage) -> Option<u32> {
    match result_of(m.protocol_op) {
        Some(r) => Some(r.result_code),
        None => None,
    }
}

} // verus!
