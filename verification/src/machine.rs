//! The session state machine: how one protocol response, one context-fetch
//! outcome, or one operator decision advances the session model, and what the
//! caller running the receive loop must do next.
//!
//! The caller performs the blocking work — receiving responses, sending the
//! out-of-band context request over the auxiliary connection, waiting on the
//! decision channel, publishing snapshots — and feeds every outcome back in
//! here; these functions make every decision.

use vstd::prelude::*;
use crate::model::{
    ContextModel, DebuggerResponse, EventModel, ResponseModel, SessionModel, SessionState,
    SessionStatus, StatusModel,
};
use crate::update::{event_applied, lemma_event_preserves_wf, update_session_from_event};

verus! {

/// An out-of-band request for the register context of one thread.
#[derive(Clone, Copy, Debug, PartialEq, Eq, Structural)]
pub struct FetchRequest {
    pub pid: u64,
    pub tid: u64,
}

/// What the caller must do after handing a response to `handle_response`.
pub enum LoopAction {
    /// A stop event was recorded: perform the context fetch if one is asked
    /// for, publish a snapshot, then block on the decision channel and hand
    /// the decision to `apply_decision`.
    AwaitDecision { fetch: Option<FetchRequest> },
    /// Nothing to wait for: keep the receive loop running (resume = true).
    Resume,
    /// Stop the receive loop (resume = false).
    Halt,
}

/// The context fetch a stop event calls for: the event's process and thread
/// ids, unless either is zero ("not applicable"), in which case no fetch is
/// attempted at all.
pub open spec fn fetch_plan(e: EventModel) -> Option<FetchRequest> {
    if e.pid() != 0 && e.tid() != 0 {
        Some(FetchRequest { pid: e.pid(), tid: e.tid() })
    } else {
        None
    }
}

/// The session after a stop event: the event is appended to the history and
/// becomes current, any previous context is cleared, the session pauses, and
/// the module/thread bookkeeping is folded in.
pub open spec fn stop_event_applied(s: SessionModel, e: EventModel) -> SessionModel {
    let recorded = SessionModel {
        status: StatusModel::Paused,
        current_event: Some(e),
        current_context: None,
        events: s.events.push(e),
        ..s
    };
    event_applied(recorded, e)
}

/// The session after one protocol response.
///
/// `ModuleList` and `ThreadList` append their entries as delivered, without
/// the duplicate guard the live-event path uses: bulk population trusts the
/// peer's list and may therefore introduce duplicates. This asymmetry is
/// deliberate, mirroring the behaviour this core specifies.
pub open spec fn response_applied(s: SessionModel, r: ResponseModel) -> SessionModel {
    match r {
        ResponseModel::Event(e) => stop_event_applied(s, e),
        ResponseModel::Error { message } => SessionModel {
            status: StatusModel::Error(message),
            ..s
        },
        ResponseModel::ModuleList { modules } => SessionModel {
            modules: s.modules + modules,
            ..s
        },
        ResponseModel::ThreadList { threads } => SessionModel {
            threads: s.threads + threads,
            ..s
        },
        _ => s,
    }
}

/// What the caller must do after each response: block for a decision after a
/// stop event, halt on a peer error, resume otherwise.
pub open spec fn response_action(r: ResponseModel) -> LoopAction {
    match r {
        ResponseModel::Event(e) => LoopAction::AwaitDecision { fetch: fetch_plan(e) },
        ResponseModel::Error { .. } => LoopAction::Halt,
        _ => LoopAction::Resume,
    }
}

/// Folds one protocol response into the session and says what to do next.
pub fn handle_response(state: &mut SessionState, resp: DebuggerResponse) -> (action: LoopAction)
    ensures
        final(state)@ == response_applied(old(state)@, resp@),
        action == response_action(resp@),
{
    match resp {
        DebuggerResponse::Event { event } => {
            let pid = event.pid();
            let tid = event.tid();
            let ghost prev = state@;
            state.status = SessionStatus::Paused;
            state.current_context = None;
            let recorded = event.clone();
            state.events.push(recorded);
            let current = event.clone();
            state.current_event = Some(current);
            proof {
                assert(state@ =~= SessionModel {
                    status: StatusModel::Paused,
                    current_event: Some(event@),
                    current_context: None,
                    events: prev.events.push(event@),
                    ..prev
                });
            }
            update_session_from_event(state, &event);
            proof {
                assert(state@ =~= response_applied(prev, ResponseModel::Event(event@)));
            }
            if pid != 0 && tid != 0 {
                LoopAction::AwaitDecision { fetch: Some(FetchRequest { pid, tid }) }
            } else {
                LoopAction::AwaitDecision { fetch: None }
            }
        },
        DebuggerResponse::Error { message } => {
            state.status = SessionStatus::Error(message);
            proof {
                assert(state@ =~= response_applied(old(state)@, resp@));
            }
            LoopAction::Halt
        },
        DebuggerResponse::ModuleList { mut modules } => {
            let ghost prev = state@;
            let ghost given = modules.deep_view();
            state.modules.append(&mut modules);
            proof {
                assert(state.modules.deep_view() =~= prev.modules + given);
                assert(state@ =~= response_applied(prev, resp@));
            }
            LoopAction::Resume
        },
        DebuggerResponse::ThreadList { mut threads } => {
            let ghost prev = state@;
            let ghost given = threads.deep_view();
            state.threads.append(&mut threads);
            proof {
                assert(state.threads.deep_view() =~= prev.threads + given);
                assert(state@ =~= response_applied(prev, resp@));
            }
            LoopAction::Resume
        },
        _ => LoopAction::Resume,
    }
}

/// The session after the context-fetch outcome is recorded: a `ThreadContext`
/// response whose thread matches the current stop event's thread is stored;
/// any other outcome — another response kind, a transport failure (`None`),
/// a mismatched thread — leaves the context unset and the session untouched.
pub open spec fn context_recorded(s: SessionModel, resp: Option<ResponseModel>) -> SessionModel {
    match (s.current_event, resp) {
        (Some(e), Some(ResponseModel::ThreadContext { context })) => {
            if context.tid == e.tid() {
                SessionModel { current_context: Some(context), ..s }
            } else {
                s
            }
        },
        _ => s,
    }
}

/// Records the outcome of the out-of-band context fetch. `None` stands for a
/// request or transport failure, which never aborts the session.
pub fn record_context_response(state: &mut SessionState, resp: Option<DebuggerResponse>)
    ensures
        final(state)@ == context_recorded(old(state)@, resp.deep_view()),
{
    match (&state.current_event, resp) {
        (Some(e), Some(DebuggerResponse::ThreadContext { context })) => {
            if context.tid == e.tid() {
                state.current_context = Some(context);
                proof {
                    assert(state@ =~= context_recorded(old(state)@, resp.deep_view()));
                }
            }
        },
        _ => {},
    }
}

/// The session after the operator's decision: continue (`Some(true)`) puts it
/// back to `Running`; stop (`Some(false)`) or a disconnected channel (`None`)
/// finishes it. Either way the consumed stop event is cleared, and the
/// context with it.
pub open spec fn decision_applied(s: SessionModel, decision: Option<bool>) -> SessionModel {
    SessionModel {
        status: if decision == Some(true) {
            StatusModel::Running
        } else {
            StatusModel::Finished
        },
        current_event: None,
        current_context: None,
        ..s
    }
}

/// Whether the receive loop keeps running after the decision.
pub open spec fn decision_resume(decision: Option<bool>) -> bool {
    decision == Some(true)
}

/// Applies the operator's decision after a stop event; `None` means the
/// decision channel disconnected, a valid terminal signal. Returns the
/// resume flag the protocol layer is to be given.
pub fn apply_decision(state: &mut SessionState, decision: Option<bool>) -> (resume: bool)
    ensures
        final(state)@ == decision_applied(old(state)@, decision),
        resume == decision_resume(decision),
{
    state.current_event = None;
    state.current_context = None;
    match decision {
        Some(true) => {
            state.status = SessionStatus::Running;
            proof {
                assert(state@ =~= decision_applied(old(state)@, decision));
            }
            true
        },
        _ => {
            state.status = SessionStatus::Finished;
            proof {
                assert(state@ =~= decision_applied(old(state)@, decision));
            }
            false
        },
    }
}

/// Marks the session connected, once both protocol connections stand.
pub fn mark_connected(state: &mut SessionState)
    requires
        old(state)@.status is Initializing,
    ensures
        final(state)@ == (SessionModel { status: StatusModel::Connected, ..old(state)@ }),
{
    state.status = SessionStatus::Connected;
    proof {
        assert(state@ =~= SessionModel { status: StatusModel::Connected, ..old(state)@ });
    }
}

/// The session once the receive loop has returned: status forced to
/// `Finished` unless a terminal state was already reached — terminal states
/// are absorbing — and no event is current any more.
pub open spec fn finished_applied(s: SessionModel) -> SessionModel {
    SessionModel {
        status: if s.status.is_terminal() {
            s.status
        } else {
            StatusModel::Finished
        },
        current_event: None,
        current_context: None,
        ..s
    }
}

/// Retires the session after the receive loop returns. Idempotent, and keeps
/// an `Error` status visible.
pub fn finish_session(state: &mut SessionState)
    ensures
        final(state)@ == finished_applied(old(state)@),
{
    let terminal = match &state.status {
        SessionStatus::Finished => true,
        SessionStatus::Error(_) => true,
        _ => false,
    };
    if !terminal {
        state.status = SessionStatus::Finished;
    }
    state.current_event = None;
    state.current_context = None;
    proof {
        assert(state@ =~= finished_applied(old(state)@));
    }
}

// ---------------------------------------------------------------------------
// Laws of the state machine.
// ---------------------------------------------------------------------------

/// After any stop event is modeled the session is paused on that event:
/// `current_event` holds it, and the context is cleared until a fetch for
/// this very event succeeds.
pub proof fn lemma_stop_event_pauses(s: SessionModel, e: EventModel)
    ensures
        response_applied(s, ResponseModel::Event(e)).status is Paused,
        response_applied(s, ResponseModel::Event(e)).current_event == Some(e),
        response_applied(s, ResponseModel::Event(e)).current_context is None,
        response_applied(s, ResponseModel::Event(e)).events == s.events.push(e),
{
}

/// Recording a context-fetch outcome never changes which event is current,
/// and afterwards the context is `None` or belongs to the current event's
/// thread.
pub proof fn lemma_context_matches_event(s: SessionModel, resp: Option<ResponseModel>)
    requires
        s.wf(),
    ensures
        context_recorded(s, resp).wf(),
        context_recorded(s, resp).current_event == s.current_event,
        context_recorded(s, resp).current_context matches Some(c) ==> {
            &&& s.current_event is Some
            &&& c.tid == s.current_event->0.tid()
        },
{
}

/// Every live response except the bulk list refreshes preserves the session
/// invariant. `ModuleList`/`ThreadList` are excluded deliberately: they
/// append the peer's list unguarded and may duplicate entries.
pub proof fn lemma_response_preserves_wf(s: SessionModel, r: ResponseModel)
    requires
        s.wf(),
        !(r is ModuleList),
        !(r is ThreadList),
    ensures
        response_applied(s, r).wf(),
{
    match r {
        ResponseModel::Event(e) => {
            let recorded = SessionModel {
                status: StatusModel::Paused,
                current_event: Some(e),
                current_context: None,
                events: s.events.push(e),
                ..s
            };
            lemma_event_preserves_wf(recorded, e);
        },
        _ => {},
    }
}

/// A `true` decision puts the session back to `Running`; a `false` decision
/// or a disconnected channel finishes it; either way the consumed stop event
/// is cleared, and only then does the loop resume.
pub proof fn lemma_decision_outcome(s: SessionModel, decision: Option<bool>)
    ensures
        decision == Some(true) ==> decision_applied(s, decision).status is Running,
        decision != Some(true) ==> decision_applied(s, decision).status is Finished,
        decision_applied(s, decision).current_event is None,
        decision_resume(decision) <==> decision == Some(true),
        decision_applied(s, decision).current_context is None,
{
}

/// Terminal states are absorbing: retiring the session changes nothing once
/// it is `Finished` or `Error`, and retiring twice is the same as once.
pub proof fn lemma_terminal_states_absorbing(s: SessionModel)
    ensures
        s.status.is_terminal() ==> finished_applied(s).status == s.status,
        finished_applied(finished_applied(s)) == finished_applied(s),
{
    assert(finished_applied(finished_applied(s)) =~= finished_applied(s));
}

/// An `Error` response carries its message into the status verbatim, touches
/// nothing else, and halts the loop: no further progress is made.
pub proof fn lemma_error_response(s: SessionModel, m: Seq<char>)
    ensures
        response_applied(s, ResponseModel::Error { message: m }).status == StatusModel::Error(m),
        response_applied(s, ResponseModel::Error { message: m }) == (SessionModel {
            status: StatusModel::Error(m),
            ..s
        }),
        response_action(ResponseModel::Error { message: m }) is Halt,
{
}

} // verus!
