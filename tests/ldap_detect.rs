use ldap_detect::detect::{
    ldap_detect_request_operation_match, ldap_detect_responses_count_match,
    ldap_detect_responses_operation_match, ldap_detect_responses_result_code_match,
    ldap_tx_get_responses_error_msg,
};
use ldap_detect::fields::{get_ldap_diagnostic_message, get_ldap_result_code};
use ldap_detect::index::{evaluate, parse_i32, parse_index, LdapIndex};
use ldap_detect::options::{
    aux_ldap_parse_protocol_resp_op, aux_ldap_parse_resp_result_code,
    ldap_parse_protocol_req_op, ldap_parse_responses_count,
};
use ldap_detect::types::{LdapMessage, LdapResult, LdapTransaction, ProtocolOp};
use ldap_detect::uint::{detect_match_uint, detect_parse_uint, DetectUintData, UintMode};

fn result(code: u32, msg: &str) -> LdapResult {
    LdapResult { result_code: code, diagnostic_message: msg.to_string() }
}

fn msg(op: ProtocolOp) -> LdapMessage {
    LdapMessage { protocol_op: op }
}

fn tx(responses: Vec<LdapMessage>) -> LdapTransaction {
    LdapTransaction { request: None, responses }
}

fn bind(code: u32) -> LdapMessage {
    msg(ProtocolOp::BindResponse(result(code, "")))
}

fn result_code_matches(t: &LdapTransaction, arg: &str) -> bool {
    let ctx = aux_ldap_parse_resp_result_code(arg).expect("argument parses");
    ldap_detect_responses_result_code_match(t, &ctx)
}

fn operation_matches(t: &LdapTransaction, arg: &str) -> bool {
    let ctx = aux_ldap_parse_protocol_resp_op(arg).expect("argument parses");
    ldap_detect_responses_operation_match(t, &ctx)
}

#[test]
fn empty_outcomes_any_false_all_true() {
    assert!(!evaluate(&[], LdapIndex::Any));
    assert!(evaluate(&[], LdapIndex::All));
    assert!(!evaluate(&[], LdapIndex::Index(0)));
    assert!(!evaluate(&[], LdapIndex::Index(-1)));
}

#[test]
fn index_addressing_over_five() {
    let outcomes = [Some(false), None, Some(false), Some(false), Some(true)];
    assert!(evaluate(&outcomes, LdapIndex::Index(-1)));
    assert!(evaluate(&outcomes, LdapIndex::Index(4)));
    assert!(!evaluate(&outcomes, LdapIndex::Index(-6)));
    assert!(!evaluate(&outcomes, LdapIndex::Index(5)));
    assert!(!evaluate(&outcomes, LdapIndex::Index(-5)));
    assert!(!evaluate(&outcomes, LdapIndex::Index(1)));
    assert!(!evaluate(&outcomes, LdapIndex::Index(i32::MIN)));
    assert!(!evaluate(&outcomes, LdapIndex::Index(i32::MAX)));
    let flipped = [Some(true), None, Some(true), Some(true), Some(false)];
    assert!(!evaluate(&flipped, LdapIndex::Index(-1)));
    assert!(!evaluate(&flipped, LdapIndex::Index(4)));
    assert!(evaluate(&flipped, LdapIndex::Index(-5)));
}

#[test]
fn any_and_all_over_outcomes() {
    assert!(evaluate(&[None, Some(false), Some(true)], LdapIndex::Any));
    assert!(!evaluate(&[None, Some(false)], LdapIndex::Any));
    assert!(evaluate(&[None, Some(true), None], LdapIndex::All));
    assert!(!evaluate(&[Some(true), Some(false)], LdapIndex::All));
    assert!(evaluate(&[None, None], LdapIndex::All));
    assert!(!evaluate(&[None, None], LdapIndex::Any));
}

#[test]
fn selector_forms_parse() {
    let plain = aux_ldap_parse_resp_result_code("5").unwrap();
    let any = aux_ldap_parse_resp_result_code("5,any").unwrap();
    let all = aux_ldap_parse_resp_result_code("5,all").unwrap();
    let last = aux_ldap_parse_resp_result_code("5,-1").unwrap();
    let five = DetectUintData { mode: UintMode::Equal, arg1: 5, arg2: 0 };
    assert_eq!(plain.du32, five);
    assert_eq!(any.du32, five);
    assert_eq!(all.du32, five);
    assert_eq!(last.du32, five);
    assert_eq!(plain.index, LdapIndex::Any);
    assert_eq!(any.index, LdapIndex::Any);
    assert_eq!(all.index, LdapIndex::All);
    assert_eq!(last.index, LdapIndex::Index(-1));
    let op = aux_ldap_parse_protocol_resp_op("5,all").unwrap();
    assert_eq!(op.du8, five);
    assert_eq!(op.index, LdapIndex::All);
}

#[test]
fn two_commas_refused() {
    assert!(aux_ldap_parse_resp_result_code("5,10,20").is_none());
    assert!(aux_ldap_parse_protocol_resp_op("5,10,20").is_none());
    assert!(aux_ldap_parse_resp_result_code("5,all,any").is_none());
    assert!(aux_ldap_parse_resp_result_code("5,,").is_none());
    assert!(aux_ldap_parse_resp_result_code(",,").is_none());
}

#[test]
fn bad_selectors_refused() {
    assert!(aux_ldap_parse_resp_result_code("5,").is_none());
    assert!(aux_ldap_parse_resp_result_code("5,ALL").is_none());
    assert!(aux_ldap_parse_resp_result_code("5,first").is_none());
    assert!(aux_ldap_parse_resp_result_code("5, 1").is_none());
    assert!(aux_ldap_parse_resp_result_code("5,2147483648").is_none());
    assert!(aux_ldap_parse_resp_result_code("5,-2147483649").is_none());
    assert!(aux_ldap_parse_resp_result_code("5,-").is_none());
    assert!(aux_ldap_parse_resp_result_code("x,1").is_none());
    assert!(aux_ldap_parse_resp_result_code(",1").is_none());
}

#[test]
fn selector_integer_bounds() {
    assert_eq!(parse_index(b"2147483647"), Some(LdapIndex::Index(i32::MAX)));
    assert_eq!(parse_index(b"-2147483648"), Some(LdapIndex::Index(i32::MIN)));
    assert_eq!(parse_index(b"+3"), Some(LdapIndex::Index(3)));
    assert_eq!(parse_index(b"-0"), Some(LdapIndex::Index(0)));
    assert_eq!(parse_index(b"any"), Some(LdapIndex::Any));
    assert_eq!(parse_index(b"all"), Some(LdapIndex::All));
    assert_eq!(parse_index(b"+"), None);
    assert_eq!(parse_index(b""), None);
    assert_eq!(parse_i32(b"-17"), Some(-17));
    assert_eq!(parse_i32(b"0042"), Some(42));
    assert_eq!(parse_i32(b"4x"), None);
}

#[test]
fn constraint_forms_parse() {
    let c = |mode, arg1, arg2| Some(DetectUintData { mode, arg1, arg2 });
    assert_eq!(detect_parse_uint(b"7", 255), c(UintMode::Equal, 7, 0));
    assert_eq!(detect_parse_uint(b"=7", 255), c(UintMode::Equal, 7, 0));
    assert_eq!(detect_parse_uint(b"!7", 255), c(UintMode::NotEqual, 7, 0));
    assert_eq!(detect_parse_uint(b"!=7", 255), c(UintMode::NotEqual, 7, 0));
    assert_eq!(detect_parse_uint(b"<7", 255), c(UintMode::Less, 7, 0));
    assert_eq!(detect_parse_uint(b"<=7", 255), c(UintMode::LessEqual, 7, 0));
    assert_eq!(detect_parse_uint(b">7", 255), c(UintMode::Greater, 7, 0));
    assert_eq!(detect_parse_uint(b">=7", 255), c(UintMode::GreaterEqual, 7, 0));
    assert_eq!(detect_parse_uint(b"3-9", 255), c(UintMode::Range, 3, 9));
    assert_eq!(detect_parse_uint(b"9-3", 255), None);
    assert_eq!(detect_parse_uint(b"3-3", 255), None);
    assert_eq!(detect_parse_uint(b"", 255), None);
    assert_eq!(detect_parse_uint(b"<", 255), None);
    assert_eq!(detect_parse_uint(b"256", 255), None);
    assert_eq!(detect_parse_uint(b"255", 255), c(UintMode::Equal, 255, 0));
    assert_eq!(
        detect_parse_uint(b"4294967295", 0xffff_ffff),
        c(UintMode::Equal, u32::MAX, 0)
    );
    assert_eq!(detect_parse_uint(b"4294967296", 0xffff_ffff), None);
}

#[test]
fn keyword_value_limits() {
    assert!(aux_ldap_parse_protocol_resp_op("256").is_none());
    assert!(aux_ldap_parse_protocol_resp_op("255,any").is_some());
    assert!(aux_ldap_parse_resp_result_code("256").is_some());
    assert!(ldap_parse_protocol_req_op("256").is_none());
    assert_eq!(
        ldap_parse_protocol_req_op("3"),
        Some(DetectUintData { mode: UintMode::Equal, arg1: 3, arg2: 0 })
    );
    assert_eq!(
        ldap_parse_responses_count(">1000"),
        Some(DetectUintData { mode: UintMode::Greater, arg1: 1000, arg2: 0 })
    );
    assert!(ldap_parse_responses_count("1,all").is_none());
}

#[test]
fn constraint_matching() {
    let c = |mode, arg1, arg2| DetectUintData { mode, arg1, arg2 };
    assert!(detect_match_uint(&c(UintMode::Equal, 4, 0), 4));
    assert!(!detect_match_uint(&c(UintMode::Equal, 4, 0), 5));
    assert!(detect_match_uint(&c(UintMode::NotEqual, 4, 0), 5));
    assert!(detect_match_uint(&c(UintMode::Less, 4, 0), 3));
    assert!(!detect_match_uint(&c(UintMode::Less, 4, 0), 4));
    assert!(detect_match_uint(&c(UintMode::LessEqual, 4, 0), 4));
    assert!(detect_match_uint(&c(UintMode::Greater, 4, 0), 5));
    assert!(!detect_match_uint(&c(UintMode::Greater, 4, 0), 4));
    assert!(detect_match_uint(&c(UintMode::GreaterEqual, 4, 0), 4));
    assert!(detect_match_uint(&c(UintMode::Range, 3, 9), 4));
    assert!(!detect_match_uint(&c(UintMode::Range, 3, 9), 3));
    assert!(!detect_match_uint(&c(UintMode::Range, 3, 9), 9));
}

#[test]
fn scenario_single_success_default_selector() {
    let t = tx(vec![bind(0)]);
    assert!(result_code_matches(&t, "0"));
    assert!(!result_code_matches(&t, "1"));
}

#[test]
fn scenario_no_responses() {
    let t = tx(vec![]);
    assert!(!result_code_matches(&t, "0,any"));
    assert!(result_code_matches(&t, "0,all"));
    assert!(!result_code_matches(&t, "0"));
}

#[test]
fn scenario_last_of_three() {
    let t = tx(vec![bind(1), bind(2), bind(3)]);
    assert!(result_code_matches(&t, "3,-1"));
    assert!(result_code_matches(&t, "3,2"));
    assert!(!result_code_matches(&t, "2,-1"));
    assert!(result_code_matches(&t, "1,-3"));
    assert!(!result_code_matches(&t, "1,-4"));
}

#[test]
fn scenario_index_out_of_range() {
    let t = tx(vec![bind(1), bind(2), bind(3)]);
    assert!(!result_code_matches(&t, ">=0,4"));
    assert!(!result_code_matches(&t, ">=0,3"));
    assert!(!operation_matches(&t, ">=0,4"));
    assert!(result_code_matches(&t, ">=0,0"));
}

#[test]
fn scenario_all_skips_responses_without_result() {
    let t = tx(vec![bind(0), msg(ProtocolOp::SearchResultEntry)]);
    assert!(result_code_matches(&t, "0,all"));
    assert!(result_code_matches(&t, "0,any"));
    assert!(!result_code_matches(&t, "0,1"));
    assert!(result_code_matches(&t, "0,0"));
    let failing = tx(vec![bind(0), msg(ProtocolOp::SearchResultEntry), bind(49)]);
    assert!(!result_code_matches(&failing, "0,all"));
    let none_apply = tx(vec![msg(ProtocolOp::SearchResultEntry)]);
    assert!(result_code_matches(&none_apply, "0,all"));
    assert!(!result_code_matches(&none_apply, "0,any"));
}

#[test]
fn responses_operation_selectors() {
    let t = tx(vec![
        msg(ProtocolOp::SearchResultEntry),
        msg(ProtocolOp::SearchResultEntry),
        msg(ProtocolOp::SearchResultDone(result(0, ""))),
    ]);
    assert!(operation_matches(&t, "5"));
    assert!(operation_matches(&t, "4,any"));
    assert!(!operation_matches(&t, "4,all"));
    assert!(operation_matches(&t, "3-6,all"));
    assert!(!operation_matches(&t, "4-6,all"));
    assert!(operation_matches(&t, "5,-1"));
    assert!(operation_matches(&t, "4,-2"));
    assert!(!operation_matches(&t, "4,-1"));
    assert!(!operation_matches(&tx(vec![]), "4"));
    assert!(operation_matches(&tx(vec![]), "4,all"));
}

#[test]
fn request_operation_matching() {
    let mut t = tx(vec![]);
    let ctx = ldap_parse_protocol_req_op("3").unwrap();
    assert!(!ldap_detect_request_operation_match(&t, &ctx));
    t.request = Some(msg(ProtocolOp::SearchRequest));
    assert!(ldap_detect_request_operation_match(&t, &ctx));
    t.request = Some(msg(ProtocolOp::BindRequest));
    assert!(!ldap_detect_request_operation_match(&t, &ctx));
}

#[test]
fn responses_count_matching() {
    let t = tx(vec![bind(0), bind(0)]);
    assert!(ldap_detect_responses_count_match(&t, &ldap_parse_responses_count("2").unwrap()));
    assert!(!ldap_detect_responses_count_match(&t, &ldap_parse_responses_count("3").unwrap()));
    assert!(ldap_detect_responses_count_match(&t, &ldap_parse_responses_count("<3").unwrap()));
    assert!(ldap_detect_responses_count_match(&tx(vec![]), &ldap_parse_responses_count("0").unwrap()));
}

#[test]
fn operation_codes() {
    let codes = [
        (ProtocolOp::BindRequest, 0u8),
        (ProtocolOp::BindResponse(result(0, "")), 1),
        (ProtocolOp::UnbindRequest, 2),
        (ProtocolOp::SearchRequest, 3),
        (ProtocolOp::SearchResultEntry, 4),
        (ProtocolOp::SearchResultDone(result(0, "")), 5),
        (ProtocolOp::ModifyRequest, 6),
        (ProtocolOp::ModifyResponse(result(0, "")), 7),
        (ProtocolOp::AddRequest, 8),
        (ProtocolOp::AddResponse(result(0, "")), 9),
        (ProtocolOp::DelRequest, 10),
        (ProtocolOp::DelResponse(result(0, "")), 11),
        (ProtocolOp::ModDnRequest, 12),
        (ProtocolOp::ModDnResponse(result(0, "")), 13),
        (ProtocolOp::CompareRequest, 14),
        (ProtocolOp::CompareResponse(result(0, "")), 15),
        (ProtocolOp::AbandonRequest, 16),
        (ProtocolOp::SearchResultReference, 19),
        (ProtocolOp::ExtendedRequest, 23),
        (ProtocolOp::ExtendedResponse(result(0, "")), 24),
        (ProtocolOp::IntermediateResponse, 25),
    ];
    for (op, code) in codes.iter() {
        assert_eq!(op.to_u8(), *code);
    }
}

#[test]
fn result_code_extraction() {
    assert_eq!(get_ldap_result_code(&bind(49)), Some(49));
    assert_eq!(get_ldap_result_code(&msg(ProtocolOp::CompareResponse(result(6, "")))), Some(6));
    assert_eq!(get_ldap_result_code(&msg(ProtocolOp::ExtendedResponse(result(2, "")))), Some(2));
    assert_eq!(get_ldap_result_code(&msg(ProtocolOp::SearchResultEntry)), None);
    assert_eq!(get_ldap_result_code(&msg(ProtocolOp::BindRequest)), None);
}

#[test]
fn diagnostic_message_projection() {
    let t = tx(vec![
        msg(ProtocolOp::BindResponse(result(49, "invalid credentials"))),
        msg(ProtocolOp::SearchResultEntry),
        msg(ProtocolOp::DelResponse(result(32, "no such object"))),
    ]);
    assert_eq!(ldap_tx_get_responses_error_msg(&t, 0), Some("invalid credentials"));
    assert_eq!(ldap_tx_get_responses_error_msg(&t, 1), None);
    assert_eq!(ldap_tx_get_responses_error_msg(&t, 2), Some("no such object"));
    assert_eq!(ldap_tx_get_responses_error_msg(&t, 3), None);
    assert_eq!(ldap_tx_get_responses_error_msg(&t, u32::MAX), None);
    assert_eq!(get_ldap_diagnostic_message(&msg(ProtocolOp::UnbindRequest)), None);
}
