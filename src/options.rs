use vstd::prelude::*;
use vstd::slice::slice_subrange;
use vstd::string::StringSliceAdditionalSpecFns;
use crate::index::{LdapIndex, index_spec, parse_index};
use crate::uint::{DetectUintData, uint_spec, detect_parse_uint, first_index, first_from, find_byte};

verus! {

/// `,`, between a value and its selector.
pub const COMMA: u8 = 44;

/// The largest protocol operation code.
pub const OP_CODE_MAX: u64 = 255;

/// The largest result code, and the largest count bound.
pub const U32_MAX: u64 = 0xffff_ffff;

/// The parsed argument of the response operation keyword.
#[derive(Debug, Clone, Copy, PartialEq, Eq, Structural)]
pub struct DetectLdapRespOperationData {
    /// Constraint on the response operation code.
    pub du8: DetectUintData,
    /// Which responses the constraint applies to.
    pub index: LdapIndex,
}

/// The parsed argument of the response result code keyword.
#[derive(Debug, Clone, Copy, PartialEq, Eq, Structural)]
pub struct DetectLdapRespResultData {
    /// Constraint on the result code.
    pub du32: DetectUintData,
    /// Which responses the constraint applies to.
    pub index: LdapIndex,
}

/// A keyword argument `value` or `value,selector`, with bounds of the value
/// at most `limit`. A missing selector means `Any`; a second comma is refused.
/// The value is read by `uint_spec`, which is numeric only and refuses
/// symbolic names such as `success` or `bind_response`.
pub open spec fn option_spec(s: Seq<u8>, limit: nat) -> Option<(DetectUintData, LdapIndex)> {
    let p = first_index(s, COMMA);
    if p < 0 {
        match uint_spec(s, limit) {
            Some(c) => Some((c, LdapIndex::Any)),
            None => None,
        }
    } else if first_index(s.skip(p + 1), COMMA) >= 0 {
        None
    } else {
        match (uint_spec(s.take(p), limit), index_spec(s.skip(p + 1))) {
            (Some(c), Some(i)) => Some((c, i)),
            _ => None,
        }
    }
}

fn parse_option(b: &[u8], limit: u64) -> (r: Option<(DetectUintData, LdapIndex)>)
    requires
        limit <= u32::MAX,
    ensures
        r == option_spec(b@, limit as nat),
{
    let len = b.len();
    match find_byte(b, COMMA) {
        None => match detect_parse_uint(b, limit) {
            Some(c) => Some((c, LdapIndex::Any)),
            None => None,
        },
        Some(p) => {
            let rest = slice_subrange(b, p + 1, len);
            assert(rest@ =~= b@.skip(p + 1));
            if find_byte(rest, COMMA).is_some() {
                return None;
            }
            let index = match parse_index(rest) {
                Some(i) => i,
                None => return None,
            };
            let value = slice_subrange(b, 0, p);
            assert(value@ =~= b@.take(p as int));
            match detect_parse_uint(value, limit) {
                Some(c) => Some((c, index)),
                None => None,
            }
        },
    }
}

/// Parses the argument of the response operation keyword: an operation code
/// constraint, optionally followed by `,` and a selector.
pub fn aux_ldap_parse_protocol_resp_op(s: &str) -> (r: Option<DetectLdapRespOperationData>)
    ensures
        match option_spec(s.spec_bytes(), OP_CODE_MAX as nat) {
            Some((c, i)) => r is Some && r->0.du8 == c && r->0.index == i,
            None => r is None,
        },
{
    match parse_option(s.as_bytes(), OP_CODE_MAX) {
        Some((du8, index)) => Some(DetectLdapRespOperationData { du8, index }),
        None => None,
    }
}

/// Parses the argument of the response result code keyword: a result code
/// constraint, optionally followed by `,` and a selector.
pub fn aux_ldap_parse_resp_result_code(s: &str) -> (r: Option<DetectLdapRespResultData>)
    ensures
        match option_spec(s.spec_bytes(), U32_MAX as nat) {
            Some((c, i)) => r is Some && r->0.du32 == c && r->0.index == i,
            None => r is None,
        },
{
    match parse_option(s.as_bytes(), U32_MAX) {
        Some((du32, index)) => Some(DetectLdapRespResultData { du32, index }),
        None => None,
    }
}

/// Parses the argument of the request operation keyword: an operation code constraint.
pub fn ldap_parse_protocol_req_op(s: &str) -> (r: Option<DetectUintData>)
    ensures
        r == uint_spec(s.spec_bytes(), OP_CODE_MAX as nat),
{
    detect_parse_uint(s.as_bytes(), OP_CODE_MAX)
}

/// Parses the argument of the response count keyword: a count constraint.
pub fn ldap_parse_responses_count(s: &str) -> (r: Option<DetectUintData>)
    ensures
        r == uint_spec(s.spec_bytes(), U32_MAX as nat),
{
    detect_parse_uint(s.as_bytes(), U32_MAX)
}

/// If `c` occurs in `s` at or after `i`, `first_from` finds an occurrence at
/// or before it; if `first_from` finds none, `c` does not occur from `i` on.
pub proof fn lemma_first_from(s: Seq<u8>, c: u8, i: int, k: int)
    requires
        0 <= i <= k < s.len(),
        s[k] == c,
    ensures
        i <= first_from(s, c, i) <= k,
        s[first_from(s, c, i)] == c,
    decreases k - i,
{
    if s[i] != c {
        lemma_first_from(s, c, i + 1, k);
    }
}

/// An argument with two or more commas never parses, whatever stands between them.
pub proof fn lemma_two_commas_refused(s: Seq<u8>, limit: nat, i: int, j: int)
    requires
        0 <= i < j < s.len(),
        s[i] == COMMA,
        s[j] == COMMA,
    ensures
        option_spec(s, limit) is None,
{
    lemma_first_from(s, COMMA, 0, i);
    let p = first_index(s, COMMA);
    let rest = s.skip(p + 1);
    assert(rest[j - p - 1] == COMMA);
    lemma_first_from(rest, COMMA, 0, j - p - 1);
}

} // verus!
