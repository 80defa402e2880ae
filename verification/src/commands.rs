//! The guarded commands: confirmation flags, approval guards and the API
//! paths of the fax commands.
use vstd::prelude::*;
use crate::config::{join2, spec_mask_defined, Config};
use crate::gate::{approval_node, spec_node, started_for, ApprovalPayload, Gate};
use crate::request::{approval_summary, cancel_approval_summary, opt_str, spec_approval_summary, spec_cancel_target, FaxRequest};
use crate::search::{spec_lookup_key, validate_one_lookup_key, LookupKeyError};
use crate::text::owned;

verus! {

/// The commands that charge money or destroy a reservation.
#[derive(Clone, Copy, PartialEq, Eq, Structural, Debug)]
pub enum GuardedCommand {
    /// Sending a fax (needs `--confirm-send`).
    Send,
    /// Cancelling or deleting a reserved fax (needs `--confirm-delete`).
    Delete,
}

/// A guarded command given without its confirmation flag.
#[derive(Clone, Copy, PartialEq, Eq, Structural, Debug)]
pub struct NotConfirmed {
    pub command: GuardedCommand,
}

/// A guarded command goes ahead only when its confirmation flag is given.
pub fn require_confirmation(command: GuardedCommand, confirmed: bool) -> (r: Result<(), NotConfirmed>)
    ensures
        r is Ok <==> confirmed,
        r matches Err(e) ==> e.command == command,
{
    if confirmed {
        Ok(())
    } else {
        Err(NotConfirmed { command })
    }
}

pub const SEND_TOOL: &'static str = "popbill-fax";
pub const DELETE_TOOL: &'static str = "popbill-fax-delete";

/// Starts the approval guard of a send: approval is asked with the send's
/// summary, as the `popbill-fax` tool, from the node `ccc_node` (else `wsl`).
pub fn send_gate_start(config: &Config, request: &FaxRequest, ccc_node: Option<String>) -> (r: (
    Gate,
    String,
    ApprovalPayload,
))
    requires
        spec_mask_defined(request.sender@),
    ensures
        r.0.wf(),
        started_for(*config, r.0@, r.1@),
        r.2.summary@ == spec_approval_summary(*request),
        r.2.tool@ == SEND_TOOL@,
        r.2.node@ == spec_node(ccc_node),
{
    let payload = ApprovalPayload {
        summary: approval_summary(request),
        tool: owned(SEND_TOOL),
        node: approval_node(ccc_node),
    };
    Gate::start(config, payload)
}

/// Starts the approval guard of a cancellation, after checking that exactly
/// one of the two numbers is given.
pub fn cancel_gate_start(
    config: &Config,
    receipt_num: Option<&str>,
    request_num: Option<&str>,
    ccc_node: Option<String>,
) -> (r: Result<(Gate, String, ApprovalPayload), LookupKeyError>)
    ensures
        match spec_lookup_key(receipt_num, request_num) {
            Err(e) => r == Err::<(Gate, String, ApprovalPayload), LookupKeyError>(e),
            Ok(()) => r matches Ok(t) && t.0.wf() && started_for(*config, t.0@, t.1@) && t.2.summary@
                == "Popbill 팩스 예약 취소/삭제 승인 요청\n"@ + spec_cancel_target(
                opt_str(receipt_num),
                opt_str(request_num),
            ) && t.2.tool@ == DELETE_TOOL@ && t.2.node@ == spec_node(ccc_node),
        },
{
    match validate_one_lookup_key(receipt_num, request_num) {
        Err(e) => Err(e),
        Ok(()) => {
            let payload = ApprovalPayload {
                summary: cancel_approval_summary(receipt_num, request_num),
                tool: owned(DELETE_TOOL),
                node: approval_node(ccc_node),
            };
            Ok(Gate::start(config, payload))
        },
    }
}

/// The path that checks a sender number.
pub fn check_sender_path(sender: &str) -> (r: String)
    ensures
        r@ == "/FAX/CheckSenderNumber/"@ + sender@,
{
    join2("/FAX/CheckSenderNumber/", sender)
}

/// The path of one fax's result, by receipt number.
pub fn result_path(receipt_num: &str) -> (r: String)
    ensures
        r@ == "/FAX/"@ + receipt_num@,
{
    join2("/FAX/", receipt_num)
}

/// The path that cancels one reserved fax, by receipt number.
pub fn cancel_reserve_path(receipt_num: &str) -> (r: String)
    ensures
        r@ == "/FAX/"@ + receipt_num@ + "/Cancel"@,
{
    let mut p = join2("/FAX/", receipt_num);
    p.append("/Cancel");
    p
}

} // verus!
