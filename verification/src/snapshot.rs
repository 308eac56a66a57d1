//! Snapshots: the immutable copy of the session model that is handed to
//! external observers whenever the session changes.

use vstd::prelude::*;
use crate::model::{
    ContextModel, DebugEvent, EventModel, ModuleInfo, ModuleModel, SessionModel, SessionState,
    SessionStatus, StatusModel, ThreadContext, ThreadInfo,
};

verus! {

/// Ghost model of a published snapshot: the session model without its
/// connection-side configuration.
pub struct SnapshotModel {
    pub id: Seq<char>,
    pub status: StatusModel,
    pub modules: Seq<ModuleModel>,
    pub threads: Seq<ThreadInfo>,
    pub current_event: Option<EventModel>,
    pub current_context: Option<ContextModel>,
    pub events: Seq<EventModel>,
}

/// The snapshot a given session model yields.
pub open spec fn snapshot_of(s: SessionModel) -> SnapshotModel {
    SnapshotModel {
        id: s.id,
        status: s.status,
        modules: s.modules,
        threads: s.threads,
        current_event: s.current_event,
        current_context: s.current_context,
        events: s.events,
    }
}

/// An immutable copy of one session at one point in time. Publication hands
/// this value to a notification sink; the sink never sees the live state.
pub struct DebugSession {
    pub id: String,
    pub status: SessionStatus,
    pub modules: Vec<ModuleInfo>,
    pub threads: Vec<ThreadInfo>,
    pub current_event: Option<DebugEvent>,
    pub current_context: Option<ThreadContext>,
    pub events: Vec<DebugEvent>,
}

impl View for DebugSession {
    type V = SnapshotModel;

    open spec fn view(&self) -> SnapshotModel {
        SnapshotModel {
            id: self.id@,
            status: self.status@,
            modules: self.modules.deep_view(),
            threads: self.threads.deep_view(),
            current_event: self.current_event.deep_view(),
            current_context: self.current_context.deep_view(),
            events: self.events.deep_view(),
        }
    }
}

/// Clones a vector of events, keeping the modeled values exactly.
fn clone_events(events: &Vec<DebugEvent>) -> (res: Vec<DebugEvent>)
    ensures
        res.deep_view() == events.deep_view(),
{
    let mut out: Vec<DebugEvent> = Vec::new();
    let mut i: usize = 0;
    proof {
        assert(out.deep_view() =~= events.deep_view().subrange(0, 0));
    }
    while i < events.len()
        invariant
            0 <= i <= events.len(),
            events.deep_view().len() == events.len(),
            out.deep_view() == events.deep_view().subrange(0, i as int),
        decreases events.len() - i,
    {
        let ghost prev = out.deep_view();
        let e = events[i].clone();
        out.push(e);
        proof {
            assert(e@ == events.deep_view()[i as int]);
            assert(out.deep_view() =~= prev.push(e@));
            assert(out.deep_view() =~= events.deep_view().subrange(0, i as int + 1));
        }
        i += 1;
    }
    proof {
        assert(events.deep_view().subrange(0, events.deep_view().len() as int) =~= events.deep_view());
    }
    out
}

/// Clones the optional current event, keeping the modeled value exactly.
fn clone_current_event(e: &Option<DebugEvent>) -> (res: Option<DebugEvent>)
    ensures
        res.deep_view() == e.deep_view(),
{
    match e {
        Some(ev) => Some(ev.clone()),
        None => None,
    }
}

/// Clones the optional current context, keeping the modeled value exactly.
fn clone_current_context(c: &Option<ThreadContext>) -> (res: Option<ThreadContext>)
    ensures
        res.deep_view() == c.deep_view(),
{
    match c {
        Some(ctx) => Some(ctx.clone()),
        None => None,
    }
}

impl SessionState {
    /// Copies the externally visible fields into an immutable snapshot.
    /// The caller releases any lock on the session before handing the value
    /// to its sink.
    pub fn to_debug_session(&self) -> (snap: DebugSession)
        ensures
            snap@ == snapshot_of(self@),
    {
        let snap = DebugSession {
            id: self.id.clone(),
            status: self.status.clone(),
            modules: self.modules.clone(),
            threads: self.threads.clone(),
            current_event: clone_current_event(&self.current_event),
            current_context: clone_current_context(&self.current_context),
            events: clone_events(&self.events),
        };
        proof {
            assert(snap.modules.deep_view() =~= self.modules.deep_view());
            assert(snap.threads.deep_view() =~= self.threads.deep_view());
        }
        snap
    }
}

} // verus!
