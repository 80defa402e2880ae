//! The approval guard that a send or a cancellation must pass: an approval
//! request is created, must be seen pending, the siren (when configured)
//! must report it, and the approver's decision must be `allow`.
use vstd::prelude::*;
use crate::config::{approval_url, opt_view, trim_end_slashes, Config};
use crate::text::{chars_of, contains, is_whitespace, owned, spec_contains, spec_is_whitespace, spec_trim, str_equal};

verus! {

/// `s` with all whitespace removed.
pub open spec fn remove_whitespace(s: Seq<char>) -> Seq<char>
    decreases s.len(),
{
    if s.len() == 0 {
        Seq::empty()
    } else if spec_is_whitespace(s.last()) {
        remove_whitespace(s.drop_last())
    } else {
        remove_whitespace(s.drop_last()).push(s.last())
    }
}

/// The markers of an active siren or pending approval in a status reply.
pub open spec fn siren_markers() -> Seq<Seq<char>> {
    seq![
        "\"approvalPending\":true"@,
        "\"siren\":true"@,
        "\"sirenActive\":true"@,
        "\"approvalCount\":1"@,
        "\"approvalPendingCount\":1"@,
    ]
}

/// Whether a siren status reply, with its whitespace removed, holds one of the markers.
pub open spec fn spec_siren_active(body: Seq<char>) -> bool {
    exists|i: int| 0 <= i < 5 && spec_contains(remove_whitespace(body), #[trigger] siren_markers()[i])
}

/// Whether a siren status reply reports an active siren or pending approval.
pub fn siren_body_indicates_active(body: &str) -> (r: bool)
    ensures
        r == spec_siren_active(body@),
{
    let v = chars_of(body);
    let mut compact: Vec<char> = Vec::new();
    let mut i: usize = 0;
    while i < v.len()
        invariant
            i <= v.len(),
            v@ == body@,
            compact@ == remove_whitespace(v@.take(i as int)),
        decreases v.len() - i,
    {
        assert(v@.take(i + 1).drop_last() =~= v@.take(i as int));
        if !is_whitespace(v[i]) {
            compact.push(v[i]);
        }
        i = i + 1;
    }
    assert(v@.take(v.len() as int) =~= v@);
    let m0 = chars_of("\"approvalPending\":true");
    let m1 = chars_of("\"siren\":true");
    let m2 = chars_of("\"sirenActive\":true");
    let m3 = chars_of("\"approvalCount\":1");
    let m4 = chars_of("\"approvalPendingCount\":1");
    let r = contains(&compact, &m0) || contains(&compact, &m1) || contains(&compact, &m2)
        || contains(&compact, &m3) || contains(&compact, &m4);
    proof {
        let ms = siren_markers();
        assert(ms[0] == m0@);
        assert(ms[1] == m1@);
        assert(ms[2] == m2@);
        assert(ms[3] == m3@);
        assert(ms[4] == m4@);
        if r {
            if contains_spec_at(compact@, ms, 0) {
            } else if contains_spec_at(compact@, ms, 1) {
            } else if contains_spec_at(compact@, ms, 2) {
            } else if contains_spec_at(compact@, ms, 3) {
            } else {
                assert(contains_spec_at(compact@, ms, 4));
            }
        } else {
            assert forall|i: int| 0 <= i < 5 implies !spec_contains(compact@, #[trigger] ms[i]) by {
                if i == 0 {
                } else if i == 1 {
                } else if i == 2 {
                } else if i == 3 {
                } else {
                }
            }
        }
    }
    r
}

spec fn contains_spec_at(c: Seq<char>, ms: Seq<Seq<char>>, i: int) -> bool {
    spec_contains(c, ms[i])
}

/// One entry of the approval server's pending list.
#[derive(Clone, Debug)]
pub struct PendingItem {
    pub id: String,
    pub decided: bool,
}

pub open spec fn pending_view(items: Seq<PendingItem>) -> Seq<(Seq<char>, bool)> {
    items.map_values(|p: PendingItem| (p.id@, p.decided))
}

/// Whether the request `id` is listed as pending and undecided.
pub open spec fn spec_visible(items: Seq<(Seq<char>, bool)>, id: Seq<char>) -> bool {
    exists|i: int| 0 <= i < items.len() && (#[trigger] items[i]).0 == id && !items[i].1
}

/// Whether the request `request_id` is in the pending list and not yet decided.
pub fn pending_request_visible(pending: &Vec<PendingItem>, request_id: &str) -> (r: bool)
    ensures
        r == spec_visible(pending_view(pending@), request_id@),
{
    let ghost items = pending_view(pending@);
    let mut i: usize = 0;
    while i < pending.len()
        invariant
            items == pending_view(pending@),
            i <= pending.len(),
            forall|j: int| 0 <= j < i ==> !((#[trigger] items[j]).0 == request_id@ && !items[j].1),
        decreases pending.len() - i,
    {
        if !pending[i].decided && str_equal(pending[i].id.as_str(), request_id) {
            assert(items[i as int].0 == request_id@ && !items[i as int].1);
            return true;
        }
        i = i + 1;
    }
    false
}

/// What the approval server answered when polled for a decision.
#[derive(Clone, Debug)]
pub struct ApprovalDecision {
    pub decision: String,
    pub reason: Option<String>,
    pub elapsed_sec: Option<u64>,
}

pub open spec fn allow_text() -> Seq<char> {
    seq!['a', 'l', 'l', 'o', 'w']
}

/// Why the guard stopped a send or cancellation.
#[derive(Clone, Debug)]
pub enum GateError {
    /// The created request is not listed as pending, so the siren cannot see it.
    NotPending,
    /// The approver did not allow it: decision, reason (`none` when not
    /// given), and seconds elapsed (0 when not given).
    Denied(String, String, u64),
    /// An answer that does not fit the step the guard is at.
    Unexpected,
}

/// A refusal of the guard, as the contracts speak of it.
pub enum GateErrorSpec {
    NotPending,
    Denied(Seq<char>, Seq<char>, nat),
    Unexpected,
}

pub open spec fn gate_error_view(e: GateError) -> GateErrorSpec {
    match e {
        GateError::NotPending => GateErrorSpec::NotPending,
        GateError::Denied(d, r, s) => GateErrorSpec::Denied(d@, r@, s as nat),
        GateError::Unexpected => GateErrorSpec::Unexpected,
    }
}

pub open spec fn reason_or_none(r: Option<String>) -> Seq<char> {
    match r {
        Some(s) => s@,
        None => seq!['n', 'o', 'n', 'e'],
    }
}

pub open spec fn elapsed_or_zero(e: Option<u64>) -> nat {
    match e {
        Some(n) => n as nat,
        None => 0,
    }
}

/// What a decision amounts to: nothing when it is `allow`, else a refusal.
pub open spec fn spec_decision_error(d: ApprovalDecision) -> Option<GateErrorSpec> {
    if d.decision@ == allow_text() {
        None
    } else {
        Some(GateErrorSpec::Denied(d.decision@, reason_or_none(d.reason), elapsed_or_zero(d.elapsed_sec)))
    }
}

/// Accepts the approver's decision only when it is `allow`.
pub fn approval_decision(decision: &ApprovalDecision) -> (r: Result<(), GateError>)
    ensures
        match spec_decision_error(*decision) {
            None => r is Ok,
            Some(e) => r matches Err(g) && gate_error_view(g) == e,
        },
{
    let allow = vec!['a', 'l', 'l', 'o', 'w'];
    assert(allow@ =~= allow_text());
    let d = chars_of(decision.decision.as_str());
    if crate::text::chars_equal(&d, &allow) {
        Ok(())
    } else {
        let reason = match &decision.reason {
            Some(r) => r.clone(),
            None => {
                let mut s = String::new();
                crate::text::push_char(&mut s, 'n');
                crate::text::push_char(&mut s, 'o');
                crate::text::push_char(&mut s, 'n');
                crate::text::push_char(&mut s, 'e');
                assert(s@ =~= seq!['n', 'o', 'n', 'e']);
                s
            },
        };
        let elapsed = match decision.elapsed_sec {
            Some(n) => n,
            None => 0,
        };
        Err(GateError::Denied(decision.decision.clone(), reason, elapsed))
    }
}

/// What is posted to the approval server to ask for approval.
#[derive(Clone, Debug)]
pub struct ApprovalPayload {
    pub summary: String,
    pub tool: String,
    pub node: String,
}

/// The node an approval request names: `CCC_NODE` when set, else `wsl`.
pub open spec fn spec_node(ccc_node: Option<String>) -> Seq<char> {
    match ccc_node {
        Some(s) => s@,
        None => seq!['w', 's', 'l'],
    }
}

pub fn approval_node(ccc_node: Option<String>) -> (r: String)
    ensures
        r@ == spec_node(ccc_node),
{
    match ccc_node {
        Some(s) => s,
        None => {
            let mut s = String::new();
            crate::text::push_char(&mut s, 'w');
            crate::text::push_char(&mut s, 's');
            crate::text::push_char(&mut s, 'l');
            assert(s@ =~= seq!['w', 's', 'l']);
            s
        },
    }
}

/// Where the guard stands.
pub enum GatePhase {
    /// The approval request has been posted; its ID is awaited.
    AwaitingCreate,
    /// The pending list is awaited, to find the request with this ID.
    AwaitingPending(String),
    /// The siren status is awaited; this many checks have been asked for.
    Siren(String, u64),
    /// The decision on the request with this ID is awaited.
    AwaitingDecision(String),
    /// Approved: the guarded action may go ahead.
    Approved,
    /// Stopped.
    Refused,
}

pub enum PhaseSpec {
    AwaitingCreate,
    AwaitingPending(Seq<char>),
    Siren(Seq<char>, nat),
    AwaitingDecision(Seq<char>),
    Approved,
    Refused,
}

pub open spec fn phase_view(p: GatePhase) -> PhaseSpec {
    match p {
        GatePhase::AwaitingCreate => PhaseSpec::AwaitingCreate,
        GatePhase::AwaitingPending(id) => PhaseSpec::AwaitingPending(id@),
        GatePhase::Siren(id, n) => PhaseSpec::Siren(id@, n as nat),
        GatePhase::AwaitingDecision(id) => PhaseSpec::AwaitingDecision(id@),
        GatePhase::Approved => PhaseSpec::Approved,
        GatePhase::Refused => PhaseSpec::Refused,
    }
}

/// What the outside world answered to the guard's last action.
pub enum GateEvent {
    /// The approval request was created with this ID.
    Created(String),
    /// The approval server's pending list.
    Pending(Vec<PendingItem>),
    /// The siren status URL answered: whether with success, and the body.
    SirenReply(bool, String),
    /// The approver's decision.
    Decision(ApprovalDecision),
}

pub enum EventSpec {
    Created(Seq<char>),
    Pending(Seq<(Seq<char>, bool)>),
    SirenReply(bool, Seq<char>),
    Decision(ApprovalDecision),
}

pub open spec fn event_view(e: GateEvent) -> EventSpec {
    match e {
        GateEvent::Created(id) => EventSpec::Created(id@),
        GateEvent::Pending(items) => EventSpec::Pending(pending_view(items@)),
        GateEvent::SirenReply(ok, body) => EventSpec::SirenReply(ok, body@),
        GateEvent::Decision(d) => EventSpec::Decision(d),
    }
}

/// What the guard asks to be done next.
pub enum GateAction {
    /// Fetch the pending list from this address.
    FetchPending(String),
    /// Ask the siren status URL.
    CheckSiren(String),
    /// Wait a second, then ask the siren status URL again.
    SirenRetry(String),
    /// Wait a second, then stop: the siren stayed silent for this many checks.
    SirenGiveUp(u64),
    /// Fetch the decision from this address.
    FetchDecision(String),
    /// The guarded action may go ahead.
    Proceed,
    /// Stop, for this reason.
    Refuse(GateError),
}

pub enum ActionSpec {
    FetchPending(Seq<char>),
    CheckSiren(Seq<char>),
    SirenRetry(Seq<char>),
    SirenGiveUp(nat),
    FetchDecision(Seq<char>),
    Proceed,
    Refuse(GateErrorSpec),
}

pub open spec fn action_view(a: GateAction) -> ActionSpec {
    match a {
        GateAction::FetchPending(u) => ActionSpec::FetchPending(u@),
        GateAction::CheckSiren(u) => ActionSpec::CheckSiren(u@),
        GateAction::SirenRetry(u) => ActionSpec::SirenRetry(u@),
        GateAction::SirenGiveUp(n) => ActionSpec::SirenGiveUp(n as nat),
        GateAction::FetchDecision(u) => ActionSpec::FetchDecision(u@),
        GateAction::Proceed => ActionSpec::Proceed,
        GateAction::Refuse(e) => ActionSpec::Refuse(gate_error_view(e)),
    }
}

/// The guard as the contracts speak of it: the approval server's base
/// address, the siren status URL if any, how many siren checks are allowed,
/// and where it stands.
pub struct GateView {
    pub base: Seq<char>,
    pub siren: Option<Seq<char>>,
    pub attempts: nat,
    pub phase: PhaseSpec,
}

/// The guard: the approval server, the siren, and where the guard stands.
pub struct Gate {
    base: String,
    siren: Option<String>,
    attempts: u64,
    phase: GatePhase,
}

impl View for Gate {
    type V = GateView;

    closed spec fn view(&self) -> GateView {
        GateView {
            base: self.base@,
            siren: match self.siren {
                Some(u) => Some(u@),
                None => None,
            },
            attempts: self.attempts as nat,
            phase: phase_view(self.phase),
        }
    }
}

/// Where the decision on request `id` is fetched.
pub open spec fn poll_url(base: Seq<char>, id: Seq<char>) -> Seq<char> {
    base + "/poll/"@ + id
}

/// One step of the guard: from where it stands and what was answered, where
/// it goes and what it asks for next.
pub open spec fn spec_step(g: GateView, e: EventSpec) -> (PhaseSpec, ActionSpec) {
    match (g.phase, e) {
        (PhaseSpec::AwaitingCreate, EventSpec::Created(id)) => (
            PhaseSpec::AwaitingPending(id),
            ActionSpec::FetchPending(g.base + "/pending"@),
        ),
        (PhaseSpec::AwaitingPending(id), EventSpec::Pending(items)) => if spec_visible(items, id) {
            match g.siren {
                Some(u) => (PhaseSpec::Siren(id, 1), ActionSpec::CheckSiren(u)),
                None => (
                    PhaseSpec::AwaitingDecision(id),
                    ActionSpec::FetchDecision(poll_url(g.base, id)),
                ),
            }
        } else {
            (PhaseSpec::Refused, ActionSpec::Refuse(GateErrorSpec::NotPending))
        },
        (PhaseSpec::Siren(id, made), EventSpec::SirenReply(ok, body)) => if ok && spec_siren_active(
            body,
        ) {
            (PhaseSpec::AwaitingDecision(id), ActionSpec::FetchDecision(poll_url(g.base, id)))
        } else if made < g.attempts {
            (PhaseSpec::Siren(id, made + 1), ActionSpec::SirenRetry(g.siren->0))
        } else {
            (PhaseSpec::Refused, ActionSpec::SirenGiveUp(g.attempts))
        },
        (PhaseSpec::AwaitingDecision(id), EventSpec::Decision(d)) => match spec_decision_error(d) {
            None => (PhaseSpec::Approved, ActionSpec::Proceed),
            Some(err) => (PhaseSpec::Refused, ActionSpec::Refuse(err)),
        },
        _ => (PhaseSpec::Refused, ActionSpec::Refuse(GateErrorSpec::Unexpected)),
    }
}

/// The guard after `es` were answered, one after another.
pub open spec fn run(g: GateView, es: Seq<EventSpec>) -> GateView
    decreases es.len(),
{
    if es.len() == 0 {
        g
    } else {
        let h = run(g, es.drop_last());
        GateView { phase: spec_step(h, es.last()).0, ..h }
    }
}

/// A guard that has just posted its approval request.
pub open spec fn fresh(g: GateView) -> bool {
    g.phase is AwaitingCreate
}

/// A fresh guard for `config`: the approval server's address trimmed and
/// without trailing slashes, its siren status URL, as many siren checks as
/// the siren wait allows (at least one), and `create_url` the server's
/// `/defer` address, where the approval request is posted.
pub open spec fn started_for(config: Config, g: GateView, create_url: Seq<char>) -> bool {
    &&& fresh(g)
    &&& g.base == trim_end_slashes(spec_trim(config.approval_url@))
    &&& g.siren == opt_view(config.siren_status_url)
    &&& g.attempts == (if config.siren_wait_secs == 0 {
        1
    } else {
        config.siren_wait_secs as nat
    })
    &&& create_url == g.base + "/defer"@
}

impl Gate {
    /// The guard's invariant: a siren check is under way only when a siren is
    /// configured, and never beyond the allowed number of checks.
    pub closed spec fn wf(&self) -> bool {
        &&& self.attempts >= 1
        &&& (self.phase matches GatePhase::Siren(_, made) ==> self.siren is Some && 1 <= made
            <= self.attempts)
    }

    /// Starts the guard for `config`: it posts `payload` to the approval
    /// server's `/defer` address and then awaits the request's ID.
    pub fn start(config: &Config, payload: ApprovalPayload) -> (r: (Gate, String, ApprovalPayload))
        ensures
            r.0.wf(),
            started_for(*config, r.0@, r.1@),
            r.2.summary@ == payload.summary@,
            r.2.tool@ == payload.tool@,
            r.2.node@ == payload.node@,
    {
        let base = approval_url(config, "");
        proof {
            reveal_strlit("");
        }
        assert(base@ =~= trim_end_slashes(spec_trim(config.approval_url@)));
        let create = approval_url(config, "/defer");
        let siren = match &config.siren_status_url {
            Some(u) => Some(u.clone()),
            None => None,
        };
        let attempts = if config.siren_wait_secs == 0 {
            1
        } else {
            config.siren_wait_secs
        };
        (Gate { base, siren, attempts, phase: GatePhase::AwaitingCreate }, create, payload)
    }

    /// One step: records what was answered and says what to do next.
    pub fn step(&mut self, event: GateEvent) -> (a: GateAction)
        requires
            old(self).wf(),
        ensures
            final(self).wf(),
            final(self)@ == (GateView { phase: spec_step(old(self)@, event_view(event)).0, ..old(self)@ }),
            action_view(a) == spec_step(old(self)@, event_view(event)).1,
    {
        let ghost ev = event_view(event);
        let mut phase = GatePhase::Refused;
        std::mem::swap(&mut phase, &mut self.phase);
        match (phase, event) {
            (GatePhase::AwaitingCreate, GateEvent::Created(id)) => {
                let url = crate::config::join2(self.base.as_str(), "/pending");
                self.phase = GatePhase::AwaitingPending(id);
                GateAction::FetchPending(url)
            },
            (GatePhase::AwaitingPending(id), GateEvent::Pending(items)) => {
                if pending_request_visible(&items, id.as_str()) {
                    match &self.siren {
                        Some(u) => {
                            let url = u.clone();
                            self.phase = GatePhase::Siren(id, 1);
                            GateAction::CheckSiren(url)
                        },
                        None => {
                            let mut url = crate::config::join2(self.base.as_str(), "/poll/");
                            url.append(id.as_str());
                            self.phase = GatePhase::AwaitingDecision(id);
                            GateAction::FetchDecision(url)
                        },
                    }
                } else {
                    GateAction::Refuse(GateError::NotPending)
                }
            },
            (GatePhase::Siren(id, made), GateEvent::SirenReply(ok, body)) => {
                if ok && siren_body_indicates_active(body.as_str()) {
                    let mut url = crate::config::join2(self.base.as_str(), "/poll/");
                    url.append(id.as_str());
                    self.phase = GatePhase::AwaitingDecision(id);
                    GateAction::FetchDecision(url)
                } else if made < self.attempts {
                    let url = match &self.siren {
                        Some(u) => u.clone(),
                        None => owned(""),
                    };
                    self.phase = GatePhase::Siren(id, made + 1);
                    GateAction::SirenRetry(url)
                } else {
                    GateAction::SirenGiveUp(self.attempts)
                }
            },
            (GatePhase::AwaitingDecision(id), GateEvent::Decision(d)) => {
                match approval_decision(&d) {
                    Ok(()) => {
                        self.phase = GatePhase::Approved;
                        GateAction::Proceed
                    },
                    Err(e) => GateAction::Refuse(e),
                }
            },
            (_, _) => GateAction::Refuse(GateError::Unexpected),
        }
    }

    /// Whether the guarded action may go ahead.
    pub fn is_approved(&self) -> (r: bool)
        ensures
            r == (self@.phase is Approved),
    {
        match self.phase {
            GatePhase::Approved => true,
            _ => false,
        }
    }
}

/// The request `id` was created by the answer at position `i`.
pub open spec fn created_at(es: Seq<EventSpec>, i: int, id: Seq<char>) -> bool {
    0 <= i < es.len() && es[i] == EventSpec::Created(id)
}

/// The answer at position `j` listed the request `id` as pending and undecided.
pub open spec fn seen_pending_at(es: Seq<EventSpec>, j: int, id: Seq<char>) -> bool {
    &&& 0 <= j < es.len()
    &&& es[j] matches EventSpec::Pending(items) && spec_visible(items, id)
}

/// The answer at position `k` was a successful siren reply that reports activity.
pub open spec fn siren_ok_at(es: Seq<EventSpec>, k: int) -> bool {
    &&& 0 <= k < es.len()
    &&& es[k] matches EventSpec::SirenReply(ok, body) && ok && spec_siren_active(body)
}

/// Among the first `n` answers, the request `id` was created and later seen pending.
pub open spec fn announced(es: Seq<EventSpec>, id: Seq<char>, n: int) -> bool {
    exists|i: int, j: int|
        #![trigger created_at(es, i, id), seen_pending_at(es, j, id)]
        i < j < n && created_at(es, i, id) && seen_pending_at(es, j, id)
}

/// Among the first `n` answers, the siren reported activity (when one is configured).
pub open spec fn siren_heard(es: Seq<EventSpec>, siren: Option<Seq<char>>, n: int) -> bool {
    siren is Some ==> exists|k: int| #![trigger siren_ok_at(es, k)] k < n && siren_ok_at(es, k)
}

pub open spec fn allowed_decision(e: EventSpec) -> bool {
    e matches EventSpec::Decision(d) && d.decision@ == allow_text()
}

/// What the guard asks for after the answer at position `i`.
pub open spec fn asked_after(g: GateView, es: Seq<EventSpec>, i: int) -> ActionSpec {
    spec_step(run(g, es.take(i)), es[i]).1
}

/// What holds of the answers so far, for each place the guard can stand.
pub open spec fn gate_history(g: GateView, es: Seq<EventSpec>) -> bool {
    let h = run(g, es);
    &&& h.base == g.base && h.siren == g.siren && h.attempts == g.attempts
    &&& (h.phase matches PhaseSpec::AwaitingPending(id) ==> exists|i: int|
        #![trigger created_at(es, i, id)]
        created_at(es, i, id))
    &&& (h.phase matches PhaseSpec::Siren(id, made) ==> announced(es, id, es.len() as int)
        && g.siren is Some && 1 <= made <= g.attempts)
    &&& (h.phase matches PhaseSpec::AwaitingDecision(id) ==> announced(es, id, es.len() as int)
        && siren_heard(es, g.siren, es.len() as int) && es.len() > 0 && asked_after(
        g,
        es,
        es.len() - 1,
    ) == ActionSpec::FetchDecision(poll_url(g.base, id)))
    &&& (h.phase is Approved ==> es.len() >= 2 && allowed_decision(es.last()) && (run(
        g,
        es.drop_last(),
    ).phase matches PhaseSpec::AwaitingDecision(id) && announced(es, id, es.len() - 1)
        && siren_heard(es, g.siren, es.len() - 1) && asked_after(g, es, es.len() - 2)
        == ActionSpec::FetchDecision(poll_url(g.base, id))))
}

proof fn lemma_gate_history(g: GateView, es: Seq<EventSpec>)
    requires
        fresh(g),
        g.attempts >= 1,
    ensures
        gate_history(g, es),
    decreases es.len(),
{
    if es.len() > 0 {
        let pre = es.drop_last();
        lemma_gate_history(g, pre);
        let h = run(g, pre);
        let e = es.last();
        let n = es.len() - 1;
        assert forall|i: int| 0 <= i < pre.len() implies es[i] == pre[i] by {}
        // facts about the earlier answers still hold of the longer list
        assert forall|id: Seq<char>, m: int| m <= n && #[trigger] announced(pre, id, m) implies announced(es, id, m) by {
            let (i, j) = choose|i: int, j: int|
                #![trigger created_at(pre, i, id), seen_pending_at(pre, j, id)]
                i < j < m && created_at(pre, i, id) && seen_pending_at(pre, j, id);
            assert(created_at(es, i, id) && seen_pending_at(es, j, id));
        }
        assert forall|m: int| m <= n && #[trigger] siren_heard(pre, g.siren, m) implies siren_heard(es, g.siren, m) by {
            if g.siren is Some {
                let k = choose|k: int| #![trigger siren_ok_at(pre, k)] k < m && siren_ok_at(pre, k);
                assert(siren_ok_at(es, k));
            }
        }
        assert(run(g, es) == GateView { phase: spec_step(h, e).0, ..h });
        assert(es.take(n) =~= pre);
        assert(es.drop_last() =~= pre);
        match (h.phase, e) {
            (PhaseSpec::AwaitingCreate, EventSpec::Created(id)) => {
                assert(created_at(es, n, id));
                assert(run(g, es).phase->AwaitingPending_0 == id);
            },
            (PhaseSpec::AwaitingPending(id), EventSpec::Pending(items)) => {
                let i = choose|i: int| #![trigger created_at(pre, i, id)] created_at(pre, i, id);
                assert(created_at(es, i, id));
                if spec_visible(items, id) {
                    assert(seen_pending_at(es, n, id));
                    assert(announced(es, id, es.len() as int));
                }
            },
            (PhaseSpec::Siren(id, made), EventSpec::SirenReply(ok, body)) => {
                assert(announced(es, id, n));
                if ok && spec_siren_active(body) {
                    assert(siren_ok_at(es, n));
                }
            },
            (PhaseSpec::AwaitingDecision(id), EventSpec::Decision(d)) => {
                assert(announced(es, id, es.len() - 1) && siren_heard(es, g.siren, es.len() - 1));
                assert(es.take(n - 1) =~= pre.take(n - 1));
                assert(es[n - 1] == pre[n - 1]);
                assert(asked_after(g, es, n - 1) == asked_after(g, pre, n - 1));
            },
            _ => {},
        }
    }
}

/// Approval is the only way to `Proceed`: the guard says so only at the step
/// where it awaited a decision and the decision was `allow`.
pub proof fn law_proceed_only_on_allow(g: GateView, e: EventSpec)
    ensures
        spec_step(g, e).1 is Proceed ==> g.phase is AwaitingDecision && allowed_decision(e),
        spec_step(g, e).0 is Approved <==> spec_step(g, e).1 is Proceed,
{
}

/// A guard that ends up approved has, in this order, seen its approval
/// request created, seen it pending and undecided, heard the siren report
/// it (when a siren is configured), asked for the decision at that same
/// request's `/poll/` address, and been answered `allow` there, last.
pub proof fn law_approval_requires_the_whole_gate(g: GateView, es: Seq<EventSpec>)
    requires
        fresh(g),
        g.attempts >= 1,
        run(g, es).phase is Approved,
    ensures
        es.len() >= 2,
        allowed_decision(es.last()),
        run(g, es.drop_last()).phase matches PhaseSpec::AwaitingDecision(id) && announced(
            es,
            id,
            es.len() - 1,
        ) && siren_heard(es, g.siren, es.len() - 1) && asked_after(g, es, es.len() - 2)
            == ActionSpec::FetchDecision(poll_url(g.base, id)),
{
    lemma_gate_history(g, es);
}

/// The siren is asked at most the allowed number of times: while the guard
/// waits on it, the checks asked for never exceed that number.
pub proof fn law_siren_checks_bounded(g: GateView, es: Seq<EventSpec>)
    requires
        fresh(g),
        g.attempts >= 1,
    ensures
        run(g, es).phase matches PhaseSpec::Siren(_, made) ==> 1 <= made <= g.attempts,
{
    lemma_gate_history(g, es);
}

/// The replies of the siren status URL, as the guard receives them.
pub open spec fn siren_replies(rs: Seq<(bool, Seq<char>)>) -> Seq<EventSpec> {
    Seq::new(rs.len(), |i: int| EventSpec::SirenReply(rs[i].0, rs[i].1))
}

/// Whether a siren reply was successful and reports activity.
pub open spec fn reply_active(r: (bool, Seq<char>)) -> bool {
    r.0 && spec_siren_active(r.1)
}

proof fn lemma_quiet_siren(g: GateView, id: Seq<char>, rs: Seq<(bool, Seq<char>)>, j: int)
    requires
        g.phase == PhaseSpec::Siren(id, 1),
        g.siren is Some,
        0 <= j <= rs.len(),
        j < g.attempts,
        forall|i: int| 0 <= i < j ==> !reply_active(#[trigger] rs[i]),
    ensures
        run(g, siren_replies(rs).take(j)) == (GateView {
            phase: PhaseSpec::Siren(id, (j + 1) as nat),
            ..g
        }),
    decreases j,
{
    if j == 0 {
        assert(siren_replies(rs).take(0) =~= Seq::<EventSpec>::empty());
    } else {
        lemma_quiet_siren(g, id, rs, j - 1);
        assert(siren_replies(rs).take(j).drop_last() =~= siren_replies(rs).take(j - 1));
        assert(!reply_active(rs[j - 1]));
    }
}

/// The siren check of a guard that has asked the siren once: each reply
/// that is not a successful one reporting activity asks for one more check
/// while fewer than the allowed number have been made; the first reply
/// that is successful and reports activity ends the check, and what is
/// asked next is the decision on the request, not another check; when the
/// allowed number of replies have all been quiet, the guard gives up. So
/// the siren is asked at most the allowed number of times, and the check
/// passes exactly when one of those replies is successful and active.
pub proof fn law_siren_outcome(g: GateView, id: Seq<char>, rs: Seq<(bool, Seq<char>)>, k: int)
    requires
        g.phase == PhaseSpec::Siren(id, 1),
        g.siren is Some,
        1 <= k <= rs.len(),
        k <= g.attempts,
        forall|i: int| 0 <= i < k - 1 ==> !reply_active(#[trigger] rs[i]),
    ensures
        ({
            let es = siren_replies(rs).take(k);
            &&& forall|i: int|
                0 <= i < k - 1 ==> #[trigger] asked_after(g, es, i) == ActionSpec::SirenRetry(
                    g.siren->0,
                )
            &&& reply_active(rs[k - 1]) ==> run(g, es).phase == PhaseSpec::AwaitingDecision(id)
                && asked_after(g, es, k - 1) == ActionSpec::FetchDecision(poll_url(g.base, id))
            &&& !reply_active(rs[k - 1]) && k < g.attempts ==> run(g, es).phase == PhaseSpec::Siren(
                id,
                (k + 1) as nat,
            ) && asked_after(g, es, k - 1) == ActionSpec::SirenRetry(g.siren->0)
            &&& !reply_active(rs[k - 1]) && k == g.attempts ==> run(g, es).phase is Refused
                && asked_after(g, es, k - 1) == ActionSpec::SirenGiveUp(g.attempts)
        }),
{
    let es = siren_replies(rs).take(k);
    lemma_quiet_siren(g, id, rs, k - 1);
    assert(es.take(k - 1) =~= siren_replies(rs).take(k - 1));
    assert(es.drop_last() =~= siren_replies(rs).take(k - 1));
    assert forall|i: int| 0 <= i < k - 1 implies #[trigger] asked_after(g, es, i)
        == ActionSpec::SirenRetry(g.siren->0) by {
        lemma_quiet_siren(g, id, rs, i);
        assert(es.take(i) =~= siren_replies(rs).take(i));
        assert(!reply_active(rs[i]));
    }
}

/// A stopped guard stays stopped, whatever is answered.
pub proof fn law_refusal_is_final(g: GateView, e: EventSpec)
    requires
        g.phase is Refused,
    ensures
        spec_step(g, e).0 is Refused,
        !(spec_step(g, e).1 is Proceed),
{
}

} // verus!
