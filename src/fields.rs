use vstd::prelude::*;
use crate::types::{LdapMessage, ProtocolOp, op_code, result_code_of, result_of};

verus! {

impl ProtocolOp {
    /// The protocol operation code of this operation.
    pub fn to_u8(&self) -> (r: u8)
        ensures
            r == op_code(*self),
    {
        match self {
            ProtocolOp::BindRequest => 0,
            ProtocolOp::BindResponse(_) => 1,
            ProtocolOp::UnbindRequest => 2,
            ProtocolOp::SearchRequest => 3,
            ProtocolOp::SearchResultEntry => 4,
            ProtocolOp::SearchResultDone(_) => 5,
            ProtocolOp::ModifyRequest => 6,
            ProtocolOp::ModifyResponse(_) => 7,
            ProtocolOp::AddRequest => 8,
            ProtocolOp::AddResponse(_) => 9,
            ProtocolOp::DelRequest => 10,
            ProtocolOp::DelResponse(_) => 11,
            ProtocolOp::ModDnRequest => 12,
            ProtocolOp::ModDnResponse(_) => 13,
            ProtocolOp::CompareRequest => 14,
            ProtocolOp::CompareResponse(_) => 15,
            ProtocolOp::AbandonRequest => 16,
            ProtocolOp::SearchResultReference => 19,
            ProtocolOp::ExtendedRequest => 23,
            ProtocolOp::ExtendedResponse(_) => 24,
            ProtocolOp::IntermediateResponse => 25,
        }
    }
}

/// The result code of a response, or `None` where its operation carries no result.
pub fn get_ldap_result_code(response: &LdapMessage) -> (r: Option<u32>)
    ensures
        r == result_code_of(*response),
{
    match &response.protocol_op {
        ProtocolOp::BindResponse(res) => Some(res.result_code),
        ProtocolOp::SearchResultDone(res) => Some(res.result_code),
        ProtocolOp::ModifyResponse(res) => Some(res.result_code),
        ProtocolOp::AddResponse(res) => Some(res.result_code),
        ProtocolOp::DelResponse(res) => Some(res.result_code),
        ProtocolOp::ModDnResponse(res) => Some(res.result_code),
        ProtocolOp::CompareResponse(res) => Some(res.result_code),
        ProtocolOp::ExtendedResponse(res) => Some(res.result_code),
        _ => None,
    }
}

/// The diagnostic message of a response, or `None` where its operation carries no result.
pub fn get_ldap_diagnostic_message(response: &LdapMessage) -> (r: Option<&str>)
    ensures
        r is Some <==> result_of(response.protocol_op) is Some,
        r is Some ==> r->0@ == result_of(response.protocol_op)->0.diagnostic_message@,
{
    match &response.protocol_op {
        ProtocolOp::BindResponse(res) => Some(res.diagnostic_message.as_str()),
        ProtocolOp::SearchResultDone(res) => Some(res.diagnostic_message.as_str()),
        ProtocolOp::ModifyResponse(res) => Some(res.diagnostic_message.as_str()),
        ProtocolOp::AddResponse(res) => Some(res.diagnostic_message.as_str()),
        ProtocolOp::DelResponse(res) => Some(res.diagnostic_message.as_str()),
        ProtocolOp::ModDnResponse(res) => Some(res.diagnostic_message.as_str()),
        ProtocolOp::CompareResponse(res) => Some(res.diagnostic_message.as_str()),
        ProtocolOp::ExtendedResponse(res) => Some(res.diagnostic_message.as_str()),
        _ => None,
    }
}

} // verus!
