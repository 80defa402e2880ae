use popbill_fax::commands::{
    cancel_gate_start, cancel_reserve_path, check_sender_path, require_confirmation,
    result_path, send_gate_start, GuardedCommand,
};
use popbill_fax::config::Config;
use popbill_fax::gate::{
    approval_decision, approval_node, pending_request_visible, siren_body_indicates_active,
    ApprovalDecision, GateAction, GateError, GateEvent, PendingItem,
};
use popbill_fax::request::{FaxReceiver, FaxRequest};
use popbill_fax::search::LookupKeyError;
use popbill_fax::values::ConfigValues;

fn config(siren: Option<&str>, wait: &str) -> Config {
    let mut v = ConfigValues::new();
    v.set("POPBILL_LINK_ID", "LINKID1234".to_string());
    v.set("POPBILL_SECRET_KEY", "c2VjcmV0LWtleQ==".to_string());
    v.set("POPBILL_CORP_NUM", "1234567890".to_string());
    v.set("POPBILL_USER_ID", "user1".to_string());
    v.set("POPBILL_FAX_APPROVAL_URL", "http://gate:5510/".to_string());
    v.set("POPBILL_FAX_SIREN_WAIT_SEC", wait.to_string());
    if let Some(s) = siren {
        v.set("POPBILL_FAX_SIREN_STATUS_URL", s.to_string());
    }
    Config::from_values(&v).unwrap()
}

fn request() -> FaxRequest {
    FaxRequest {
        sender: "0212345678".to_string(),
        sender_name: String::new(),
        title: "t".to_string(),
        ads_yn: false,
        reserve_dt: String::new(),
        request_num: String::new(),
        receivers: vec![FaxReceiver {
            receive_num: "1".to_string(),
            receive_name: String::new(),
            inter_op_ref_key: String::new(),
        }],
        files: vec!["/x/a.pdf".to_string()],
    }
}

fn decision(d: &str) -> ApprovalDecision {
    ApprovalDecision { decision: d.to_string(), reason: None, elapsed_sec: None }
}

fn pending(id: &str, decided: bool) -> PendingItem {
    PendingItem { id: id.to_string(), decided }
}

#[test]
fn siren_markers_are_found_without_whitespace() {
    assert!(siren_body_indicates_active("{\"approvalPending\": true}"));
    assert!(siren_body_indicates_active("{ \"siren\" :\n true }"));
    assert!(siren_body_indicates_active("{\"sirenActive\":true}"));
    assert!(siren_body_indicates_active("{\"approvalCount\": 1}"));
    assert!(siren_body_indicates_active("{\"approvalPendingCount\":1}"));
    assert!(!siren_body_indicates_active("{\"siren\":false}"));
    assert!(!siren_body_indicates_active(""));
}

#[test]
fn pending_must_be_listed_and_undecided() {
    let items = vec![pending("a", false), pending("b", true)];
    assert!(pending_request_visible(&items, "a"));
    assert!(!pending_request_visible(&items, "b"));
    assert!(!pending_request_visible(&items, "c"));
}

#[test]
fn decisions_other_than_allow_are_refusals() {
    assert!(approval_decision(&decision("allow")).is_ok());
    match approval_decision(&decision("deny")) {
        Err(GateError::Denied(d, r, e)) => {
            assert_eq!(d, "deny");
            assert_eq!(r, "none");
            assert_eq!(e, 0);
        }
        _ => panic!("expected a refusal"),
    }
    let d = ApprovalDecision { decision: "Allow".to_string(), reason: Some("late".to_string()), elapsed_sec: Some(9) };
    assert!(matches!(approval_decision(&d), Err(GateError::Denied(_, r, 9)) if r == "late"));
}

#[test]
fn confirmation_flags_guard_commands() {
    assert!(require_confirmation(GuardedCommand::Send, true).is_ok());
    assert_eq!(require_confirmation(GuardedCommand::Delete, false).unwrap_err().command, GuardedCommand::Delete);
}

#[test]
fn send_gate_without_siren_proceeds_on_allow() {
    let c = config(None, "12");
    let (mut gate, url, payload) = send_gate_start(&c, &request(), None);
    assert_eq!(url, "http://gate:5510/defer");
    assert_eq!(payload.tool, "popbill-fax");
    assert_eq!(payload.node, "wsl");
    assert!(payload.summary.starts_with("Popbill 팩스 실제 발송 승인 요청\n발신: 0212...5678"));
    match gate.step(GateEvent::Created("req-1".to_string())) {
        GateAction::FetchPending(u) => assert_eq!(u, "http://gate:5510/pending"),
        _ => panic!("expected pending fetch"),
    }
    match gate.step(GateEvent::Pending(vec![pending("req-1", false)])) {
        GateAction::FetchDecision(u) => assert_eq!(u, "http://gate:5510/poll/req-1"),
        _ => panic!("expected decision fetch"),
    }
    assert!(!gate.is_approved());
    assert!(matches!(gate.step(GateEvent::Decision(decision("allow"))), GateAction::Proceed));
    assert!(gate.is_approved());
}

#[test]
fn gate_refuses_when_not_pending() {
    let c = config(None, "12");
    let (mut gate, _, _) = send_gate_start(&c, &request(), Some("node7".to_string()));
    gate.step(GateEvent::Created("req-1".to_string()));
    assert!(matches!(
        gate.step(GateEvent::Pending(vec![pending("req-1", true)])),
        GateAction::Refuse(GateError::NotPending)
    ));
    assert!(matches!(gate.step(GateEvent::Decision(decision("allow"))), GateAction::Refuse(GateError::Unexpected)));
    assert!(!gate.is_approved());
}

#[test]
fn siren_is_retried_up_to_the_wait() {
    let c = config(Some("http://siren/status"), "3");
    let (mut gate, _, _) = send_gate_start(&c, &request(), None);
    gate.step(GateEvent::Created("id".to_string()));
    match gate.step(GateEvent::Pending(vec![pending("id", false)])) {
        GateAction::CheckSiren(u) => assert_eq!(u, "http://siren/status"),
        _ => panic!("expected siren check"),
    }
    assert!(matches!(gate.step(GateEvent::SirenReply(true, "{}".to_string())), GateAction::SirenRetry(_)));
    assert!(matches!(gate.step(GateEvent::SirenReply(false, "{\"siren\":true}".to_string())), GateAction::SirenRetry(_)));
    assert!(matches!(gate.step(GateEvent::SirenReply(true, "{}".to_string())), GateAction::SirenGiveUp(3)));
    assert!(!gate.is_approved());
}

#[test]
fn active_siren_leads_to_the_decision() {
    let c = config(Some("http://siren/status"), "0");
    let (mut gate, _, _) = send_gate_start(&c, &request(), None);
    gate.step(GateEvent::Created("id".to_string()));
    gate.step(GateEvent::Pending(vec![pending("id", false)]));
    match gate.step(GateEvent::SirenReply(true, "{\"siren\": true}".to_string())) {
        GateAction::FetchDecision(u) => assert_eq!(u, "http://gate:5510/poll/id"),
        _ => panic!("expected decision fetch"),
    }
    assert!(matches!(gate.step(GateEvent::Decision(decision("deny"))), GateAction::Refuse(GateError::Denied(..))));
}

#[test]
fn siren_wait_zero_still_checks_once() {
    let c = config(Some("http://siren/status"), "0");
    let (mut gate, _, _) = send_gate_start(&c, &request(), None);
    gate.step(GateEvent::Created("id".to_string()));
    gate.step(GateEvent::Pending(vec![pending("id", false)]));
    assert!(matches!(gate.step(GateEvent::SirenReply(true, "{}".to_string())), GateAction::SirenGiveUp(1)));
}

#[test]
fn cancel_gate_checks_lookup_key_first() {
    let c = config(None, "12");
    assert!(matches!(cancel_gate_start(&c, None, None, None), Err(LookupKeyError::Missing)));
    let (_, url, payload) = cancel_gate_start(&c, Some("R9"), None, None).ok().unwrap();
    assert_eq!(url, "http://gate:5510/defer");
    assert_eq!(payload.tool, "popbill-fax-delete");
    assert_eq!(payload.summary, "Popbill 팩스 예약 취소/삭제 승인 요청\n접수번호: R9");
    assert_eq!(approval_node(Some("n1".to_string())), "n1");
}

#[test]
fn command_paths() {
    assert_eq!(check_sender_path("0212345678"), "/FAX/CheckSenderNumber/0212345678");
    assert_eq!(result_path("R1"), "/FAX/R1");
    assert_eq!(cancel_reserve_path("R1"), "/FAX/R1/Cancel");
}
