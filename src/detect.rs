use vstd::prelude::*;
use crate::fields::{get_ldap_diagnostic_message, get_ldap_result_code};
use crate::index::{evaluate, evaluate_spec};
use crate::options::{DetectLdapRespOperationData, DetectLdapRespResultData};
use crate::types::{LdapMessage, LdapTransaction, op_code, result_code_of, result_of};
use crate::uint::{DetectUintData, detect_match_uint, uint_holds};

verus! {

/// For each response, whether its operation code satisfies `c`.
pub open spec fn op_code_outcomes(responses: Seq<LdapMessage>, c: DetectUintData) -> Seq<
    Option<bool>,
> {
    Seq::new(responses.len(), |k: int| Some(uint_holds(c, op_code(responses[k].protocol_op) as int)))
}

/// For each response, whether its result code satisfies `c`, or `None`
/// where the response carries no result code.
pub open spec fn result_code_outcomes(responses: Seq<LdapMessage>, c: DetectUintData) -> Seq<
    Option<bool>,
> {
    Seq::new(
        responses.len(),
        |k: int|
            match result_code_of(responses[k]) {
                Some(rc) => Some(uint_holds(c, rc as int)),
                None => None,
            },
    )
}

/// Whether the transaction has a request whose operation code satisfies `ctx`.
pub fn ldap_detect_request_operation_match(tx: &LdapTransaction, ctx: &DetectUintData) -> (r: bool)
    ensures
        r == (tx.request is Some && uint_holds(*ctx, op_code(tx.request->0.protocol_op) as int)),
{
    match &tx.request {
        Some(request) => detect_match_uint(ctx, request.protocol_op.to_u8() as u32),
        None => false,
    }
}

/// Whether the responses' operation codes satisfy the constraint, under its selector.
pub fn ldap_detect_responses_operation_match(
    tx: &LdapTransaction,
    ctx: &DetectLdapRespOperationData,
) -> (r: bool)
    ensures
        r == evaluate_spec(op_code_outcomes(tx.responses@, ctx.du8), ctx.index),
{
    let len = tx.responses.len();
    let mut outcomes: Vec<Option<bool>> = Vec::with_capacity(len);
    let mut k: usize = 0;
    while k < len
        invariant
            len == tx.responses@.len(),
            k <= len,
            outcomes@ =~= op_code_outcomes(tx.responses@, ctx.du8).take(k as int),
        decreases len - k,
    {
        let code = tx.responses[k].protocol_op.to_u8();
        outcomes.push(Some(detect_match_uint(&ctx.du8, code as u32)));
        k += 1;
    }
    assert(outcomes@ =~= op_code_outcomes(tx.responses@, ctx.du8));
    evaluate(outcomes.as_slice(), ctx.index)
}

/// Whether the number of responses, taken modulo 2^32 as a `u32`, satisfies `ctx`.
pub fn ldap_detect_responses_count_match(tx: &LdapTransaction, ctx: &DetectUintData) -> (r: bool)
    ensures
        r == uint_holds(*ctx, tx.responses@.len() as int % 0x1_0000_0000),
{
    let len = tx.responses.len();
    let count: u32 = (len as u64 % 0x1_0000_0000) as u32;
    detect_match_uint(ctx, count)
}

/// Whether the responses' result codes satisfy the constraint, under its
/// selector; responses without a result code do not take part.
pub fn ldap_detect_responses_result_code_match(
    tx: &LdapTransaction,
    ctx: &DetectLdapRespResultData,
) -> (r: bool)
    ensures
        r == evaluate_spec(result_code_outcomes(tx.responses@, ctx.du32), ctx.index),
{
    let len = tx.responses.len();
    let mut outcomes: Vec<Option<bool>> = Vec::with_capacity(len);
    let mut k: usize = 0;
    while k < len
        invariant
            len == tx.responses@.len(),
            k <= len,
            outcomes@ =~= result_code_outcomes(tx.responses@, ctx.du32).take(k as int),
        decreases len - k,
    {
        let outcome = match get_ldap_result_code(&tx.responses[k]) {
            Some(rc) => Some(detect_match_uint(&ctx.du32, rc)),
            None => None,
        };
        outcomes.push(outcome);
        k += 1;
    }
    assert(outcomes@ =~= result_code_outcomes(tx.responses@, ctx.du32));
    evaluate(outcomes.as_slice(), ctx.index)
}

/// The diagnostic message of the response at `local_id`, or `None` past the
/// last response or where that response carries no result.
pub fn ldap_tx_get_responses_error_msg(tx: &LdapTransaction, local_id: u32) -> (r: Option<&str>)
    ensures
        r is Some <==> (local_id < tx.responses@.len() && result_of(
            tx.responses@[local_id as int].protocol_op,
        ) is Some),
        r is Some ==> r->0@ == result_of(
            tx.responses@[local_id as int].protocol_op,
        )->0.diagnostic_message@,
{
    if local_id as usize >= tx.responses.len() {
        return None;
    }
    get_ldap_diagnostic_message(&tx.responses[local_id as usize])
}

} // verus!
