//! The model updater: folds one debug event into the session's module and
//! thread sets, exactly as the ghost transition `event_applied` describes.

use vstd::prelude::*;
use vstd::string::StringExecFns;
use crate::model::{
    DebugEvent, EventModel, ModuleInfo, ModuleModel, SessionModel, SessionState, ThreadInfo,
    modules_unique, threads_unique,
};
use crate::names::{synthesize_module_name, unknown_module_name};

verus! {

/// Name under which a `DllLoaded` event's module is recorded: the provided
/// name, or the synthesized placeholder.
pub open spec fn dll_module_name(dll_name: Option<Seq<char>>, base: u64) -> Seq<char> {
    match dll_name {
        Some(n) => n,
        None => unknown_module_name(base),
    }
}

/// Name under which a `ProcessCreated` event's main image is recorded: the
/// provided name, or the fallback literal.
pub open spec fn image_module_name(image_file_name: Option<Seq<char>>) -> Seq<char> {
    match image_file_name {
        Some(n) => n,
        None => "main.exe"@,
    }
}

/// Keeps the modules that do not occupy base address `base`.
pub open spec fn module_keep_pred(base: u64) -> spec_fn(ModuleModel) -> bool {
    |m: ModuleModel| m.base != base
}

/// Keeps the threads whose id is not `tid`.
pub open spec fn thread_keep_pred(tid: u64) -> spec_fn(ThreadInfo) -> bool {
    |t: ThreadInfo| t.tid != tid
}

/// Whether some module in `ms` occupies base address `base`.
pub open spec fn has_module(ms: Seq<ModuleModel>, base: u64) -> bool {
    exists|i: int| 0 <= i < ms.len() && ms[i].base == base
}

/// Whether some thread in `ts` has id `tid`.
pub open spec fn has_thread(ts: Seq<ThreadInfo>, tid: u64) -> bool {
    exists|i: int| 0 <= i < ts.len() && ts[i].tid == tid
}

/// The module set after folding `e` into `ms`: inserts are guarded by base
/// address, unloads remove by base address, process exit clears everything.
pub open spec fn modules_after(ms: Seq<ModuleModel>, e: EventModel) -> Seq<ModuleModel> {
    match e {
        EventModel::DllLoaded { dll_name, base_of_dll, size_of_dll, .. } => {
            if has_module(ms, base_of_dll) {
                ms
            } else {
                ms.push(
                    ModuleModel {
                        name: dll_module_name(dll_name, base_of_dll),
                        base: base_of_dll,
                        size: size_of_dll,
                    },
                )
            }
        },
        EventModel::ProcessCreated { image_file_name, base_of_image, size_of_image, .. } => {
            if has_module(ms, base_of_image) {
                ms
            } else {
                ms.push(
                    ModuleModel {
                        name: image_module_name(image_file_name),
                        base: base_of_image,
                        size: size_of_image,
                    },
                )
            }
        },
        EventModel::DllUnloaded { base_of_dll, .. } => ms.filter(module_keep_pred(base_of_dll)),
        EventModel::ProcessExited { .. } => Seq::empty(),
        _ => ms,
    }
}

/// The thread set after folding `e` into `ts`: inserts are guarded by thread
/// id, exits remove by thread id, process exit clears everything.
pub open spec fn threads_after(ts: Seq<ThreadInfo>, e: EventModel) -> Seq<ThreadInfo> {
    match e {
        EventModel::ProcessCreated { tid, base_of_image, .. } => {
            if has_thread(ts, tid) {
                ts
            } else {
                ts.push(ThreadInfo { tid, start_address: base_of_image })
            }
        },
        EventModel::ThreadCreated { tid, start_address, .. } => {
            if has_thread(ts, tid) {
                ts
            } else {
                ts.push(ThreadInfo { tid, start_address })
            }
        },
        EventModel::ThreadExited { tid, .. } => ts.filter(thread_keep_pred(tid)),
        EventModel::ProcessExited { .. } => Seq::empty(),
        _ => ts,
    }
}

/// The whole session after folding `e`: module and thread bookkeeping only;
/// status, events, current event and context are untouched.
pub open spec fn event_applied(s: SessionModel, e: EventModel) -> SessionModel {
    SessionModel {
        modules: modules_after(s.modules, e),
        threads: threads_after(s.threads, e),
        ..s
    }
}

/// Every element of a filtered sequence occurs in the sequence it was
/// filtered from.
proof fn lemma_filter_members<A>(s: Seq<A>, pred: spec_fn(A) -> bool)
    ensures
        forall|i: int|
            0 <= i < s.filter(pred).len() ==> exists|j: int|
                0 <= j < s.len() && s[j] == #[trigger] s.filter(pred)[i],
    decreases s.len(),
{
    reveal(Seq::filter);
    if s.len() > 0 {
        let t = s.drop_last();
        lemma_filter_members(t, pred);
        assert forall|i: int| 0 <= i < s.filter(pred).len() implies exists|j: int|
            0 <= j < s.len() && s[j] == #[trigger] s.filter(pred)[i] by {
            if i < t.filter(pred).len() {
                let j = choose|j: int| 0 <= j < t.len() && t[j] == t.filter(pred)[i];
                assert(s[j] == s.filter(pred)[i]);
            } else {
                assert(s[s.len() - 1] == s.filter(pred)[i]);
            }
        }
    }
}

/// Filtering keeps a key's uniqueness: if no two elements share a key, no two
/// elements of the filtered sequence do either.
proof fn lemma_filter_keeps_key_unique<A>(s: Seq<A>, pred: spec_fn(A) -> bool, key: spec_fn(A) -> u64)
    requires
        forall|i: int, j: int|
            0 <= i < s.len() && 0 <= j < s.len() && i != j ==> key(s[i]) != key(s[j]),
    ensures
        forall|i: int, j: int|
            0 <= i < s.filter(pred).len() && 0 <= j < s.filter(pred).len() && i != j ==> key(
                s.filter(pred)[i],
            ) != key(s.filter(pred)[j]),
    decreases s.len(),
{
    reveal(Seq::filter);
    if s.len() > 0 {
        let t = s.drop_last();
        lemma_filter_keeps_key_unique(t, pred, key);
        lemma_filter_members(t, pred);
        let f = s.filter(pred);
        assert forall|i: int, j: int|
            0 <= i < f.len() && 0 <= j < f.len() && i != j implies key(f[i]) != key(f[j]) by {
            if i < t.filter(pred).len() && j < t.filter(pred).len() {
            } else if j == t.filter(pred).len() && j < f.len() {
                let wi = choose|w: int| 0 <= w < t.len() && t[w] == t.filter(pred)[i];
                assert(key(s[wi]) != key(s[s.len() - 1]));
            } else if i == t.filter(pred).len() && i < f.len() {
                let wj = choose|w: int| 0 <= w < t.len() && t[w] == t.filter(pred)[j];
                assert(key(s[wj]) != key(s[s.len() - 1]));
            }
        }
    }
}

/// Pushing a module whose base address is fresh keeps base addresses unique.
proof fn lemma_push_module_unique(ms: Seq<ModuleModel>, m: ModuleModel)
    requires
        modules_unique(ms),
        !has_module(ms, m.base),
    ensures
        modules_unique(ms.push(m)),
{
    let r = ms.push(m);
    assert forall|i: int, j: int|
        0 <= i < r.len() && 0 <= j < r.len() && i != j implies r[i].base != r[j].base by {
        if i < ms.len() && j < ms.len() {
        } else if j == ms.len() {
            assert(ms[i].base != m.base);
        } else {
            assert(ms[j].base != m.base);
        }
    }
}

/// Pushing a thread whose id is fresh keeps thread ids unique.
proof fn lemma_push_thread_unique(ts: Seq<ThreadInfo>, t: ThreadInfo)
    requires
        threads_unique(ts),
        !has_thread(ts, t.tid),
    ensures
        threads_unique(ts.push(t)),
{
    let r = ts.push(t);
    assert forall|i: int, j: int|
        0 <= i < r.len() && 0 <= j < r.len() && i != j implies r[i].tid != r[j].tid by {
        if i < ts.len() && j < ts.len() {
        } else if j == ts.len() {
            assert(ts[i].tid != t.tid);
        } else {
            assert(ts[j].tid != t.tid);
        }
    }
}

/// Folding an event preserves the session invariant: module base addresses
/// and thread ids stay unique, and the current event and context — which the
/// updater never touches — stay consistent.
pub proof fn lemma_event_preserves_wf(s: SessionModel, e: EventModel)
    requires
        s.wf(),
    ensures
        event_applied(s, e).wf(),
{
    match e {
        EventModel::DllLoaded { dll_name, base_of_dll, size_of_dll, .. } => {
            if !has_module(s.modules, base_of_dll) {
                lemma_push_module_unique(
                    s.modules,
                    ModuleModel {
                        name: dll_module_name(dll_name, base_of_dll),
                        base: base_of_dll,
                        size: size_of_dll,
                    },
                );
            }
        },
        EventModel::ProcessCreated { tid, image_file_name, base_of_image, size_of_image, .. } => {
            if !has_module(s.modules, base_of_image) {
                lemma_push_module_unique(
                    s.modules,
                    ModuleModel {
                        name: image_module_name(image_file_name),
                        base: base_of_image,
                        size: size_of_image,
                    },
                );
            }
            if !has_thread(s.threads, tid) {
                lemma_push_thread_unique(s.threads, ThreadInfo { tid, start_address: base_of_image });
            }
        },
        EventModel::ThreadCreated { tid, start_address, .. } => {
            if !has_thread(s.threads, tid) {
                lemma_push_thread_unique(s.threads, ThreadInfo { tid, start_address });
            }
        },
        EventModel::ThreadExited { tid, .. } => {
            lemma_filter_keeps_key_unique(s.threads, thread_keep_pred(tid), |t: ThreadInfo| t.tid);
        },
        EventModel::DllUnloaded { base_of_dll, .. } => {
            lemma_filter_keeps_key_unique(
                s.modules,
                module_keep_pred(base_of_dll),
                |m: ModuleModel| m.base,
            );
        },
        EventModel::ProcessExited { .. } => {},
        EventModel::Other { .. } => {},
    }
}

/// Replaying `DllLoaded` events that share a base address is idempotent:
/// after the first such event the module set holds exactly one entry for
/// that base address, and each further one changes nothing at all.
pub proof fn lemma_dll_loaded_idempotent(s: SessionModel, e1: EventModel, e2: EventModel)
    requires
        s.wf(),
        e1 matches EventModel::DllLoaded { .. },
        e2 matches EventModel::DllLoaded { .. },
        e1->DllLoaded_base_of_dll == e2->DllLoaded_base_of_dll,
    ensures
        has_module(event_applied(s, e1).modules, e1->DllLoaded_base_of_dll),
        forall|i: int, j: int|
            0 <= i < event_applied(s, e1).modules.len() && 0 <= j < event_applied(
                s,
                e1,
            ).modules.len() && #[trigger] event_applied(s, e1).modules[i].base
                == e1->DllLoaded_base_of_dll && #[trigger] event_applied(s, e1).modules[j].base
                == e1->DllLoaded_base_of_dll ==> i == j,
        event_applied(event_applied(s, e1), e2) == event_applied(s, e1),
{
    let b = e1->DllLoaded_base_of_dll;
    let s1 = event_applied(s, e1);
    lemma_event_preserves_wf(s, e1);
    if !has_module(s.modules, b) {
        assert(s1.modules.last().base == b);
        assert(has_module(s1.modules, b));
    }
    assert(event_applied(s1, e2) =~= s1);
}

/// A `ThreadCreated`/`ThreadExited` pair on one thread id leaves no thread
/// with that id; the thread set is exactly the original one with that id
/// removed.
pub proof fn lemma_thread_pair_removes(s: SessionModel, e1: EventModel, e2: EventModel)
    requires
        e1 matches EventModel::ThreadCreated { .. },
        e2 matches EventModel::ThreadExited { .. },
        e1->ThreadCreated_tid == e2->ThreadExited_tid,
    ensures
        !has_thread(event_applied(event_applied(s, e1), e2).threads, e1->ThreadCreated_tid),
        event_applied(event_applied(s, e1), e2).threads == s.threads.filter(
            thread_keep_pred(e1->ThreadCreated_tid),
        ),
{
    let tid = e1->ThreadCreated_tid;
    let pred = thread_keep_pred(tid);
    let s1 = event_applied(s, e1);
    let s2 = event_applied(s1, e2);
    if !has_thread(s.threads, tid) {
        let t = ThreadInfo { tid, start_address: e1->ThreadCreated_start_address };
        assert(s.threads.push(t) =~= s.threads + seq![t]);
        Seq::filter_distributes_over_add(s.threads, seq![t], pred);
        reveal_with_fuel(Seq::filter, 3);
        assert(seq![t].drop_last() =~= Seq::<ThreadInfo>::empty());
        assert(seq![t].filter(pred) =~= Seq::<ThreadInfo>::empty());
        assert(s2.threads =~= s.threads.filter(pred));
    }
    assert forall|k: int| 0 <= k < s2.threads.len() implies s2.threads[k].tid != tid by {
        Seq::lemma_filter_pred(s.threads, pred, k);
    }
}

/// A `ProcessExited` event empties both the module set and the thread set,
/// whatever they held.
pub proof fn lemma_process_exited_clears(s: SessionModel, e: EventModel)
    requires
        e matches EventModel::ProcessExited { .. },
    ensures
        event_applied(s, e).modules == Seq::<ModuleModel>::empty(),
        event_applied(s, e).threads == Seq::<ThreadInfo>::empty(),
{
}

/// Whether `modules` holds an entry with base address `base`.
fn module_base_present(modules: &Vec<ModuleInfo>, base: u64) -> (r: bool)
    ensures
        r == has_module(modules.deep_view(), base),
{
    let ghost ms = modules.deep_view();
    let mut i: usize = 0;
    while i < modules.len()
        invariant
            0 <= i <= modules.len(),
            ms == modules.deep_view(),
            ms.len() == modules.len(),
            forall|k: int| 0 <= k < i ==> ms[k].base != base,
        decreases modules.len() - i,
    {
        if modules[i].base == base {
            proof {
                assert(ms[i as int].base == base);
            }
            return true;
        }
        i += 1;
    }
    false
}

/// Whether `threads` holds an entry with thread id `tid`.
fn thread_id_present(threads: &Vec<ThreadInfo>, tid: u64) -> (r: bool)
    ensures
        r == has_thread(threads.deep_view(), tid),
{
    let ghost ts = threads.deep_view();
    let mut i: usize = 0;
    while i < threads.len()
        invariant
            0 <= i <= threads.len(),
            ts == threads.deep_view(),
            ts.len() == threads.len(),
            forall|k: int| 0 <= k < i ==> ts[k].tid != tid,
        decreases threads.len() - i,
    {
        if threads[i].tid == tid {
            proof {
                assert(ts[i as int].tid == tid);
            }
            return true;
        }
        i += 1;
    }
    false
}

/// Removes every module whose base address is `base`, keeping the order of
/// the rest.
fn remove_modules_at(modules: &mut Vec<ModuleInfo>, base: u64)
    ensures
        final(modules).deep_view() == old(modules).deep_view().filter(module_keep_pred(base)),
{
    let ghost ms = old(modules).deep_view();
    let ghost pred = module_keep_pred(base);
    let mut kept: Vec<ModuleInfo> = Vec::new();
    let mut i: usize = 0;
    proof {
        reveal(Seq::filter);
        assert(kept.deep_view() =~= ms.subrange(0, 0).filter(pred));
    }
    while i < modules.len()
        invariant
            0 <= i <= modules.len(),
            ms == modules.deep_view(),
            ms.len() == modules.len(),
            pred == module_keep_pred(base),
            kept.deep_view() == ms.subrange(0, i as int).filter(pred),
        decreases modules.len() - i,
    {
        let ghost prev = kept.deep_view();
        let ghost x = ms[i as int];
        let keep = modules[i].base != base;
        proof {
            assert(x == modules@[i as int]@);
            assert(x.base == modules@[i as int].base);
            assert(keep == pred(x));
            reveal_with_fuel(Seq::filter, 3);
            assert(seq![x].drop_last() =~= Seq::<ModuleModel>::empty());
            assert(seq![x].last() == x);
            assert(seq![x].filter(pred) == if pred(x) {
                Seq::<ModuleModel>::empty().push(x)
            } else {
                Seq::<ModuleModel>::empty()
            });
            assert(ms.subrange(0, i as int + 1) =~= ms.subrange(0, i as int) + seq![x]);
            Seq::filter_distributes_over_add(ms.subrange(0, i as int), seq![x], pred);
        }
        if keep {
            let m = modules[i].clone();
            kept.push(m);
            proof {
                assert(kept.deep_view() =~= prev.push(x));
                assert(kept.deep_view() =~= ms.subrange(0, i as int + 1).filter(pred));
            }
        } else {
            proof {
                assert(kept.deep_view() =~= ms.subrange(0, i as int + 1).filter(pred));
            }
        }
        i += 1;
    }
    proof {
        assert(ms.subrange(0, ms.len() as int) =~= ms);
    }
    *modules = kept;
}

/// Removes every thread whose id is `tid`, keeping the order of the rest.
fn remove_threads_with(threads: &mut Vec<ThreadInfo>, tid: u64)
    ensures
        final(threads).deep_view() == old(threads).deep_view().filter(thread_keep_pred(tid)),
{
    let ghost ts = old(threads).deep_view();
    let ghost pred = thread_keep_pred(tid);
    let mut kept: Vec<ThreadInfo> = Vec::new();
    let mut i: usize = 0;
    proof {
        reveal(Seq::filter);
        assert(kept.deep_view() =~= ts.subrange(0, 0).filter(pred));
    }
    while i < threads.len()
        invariant
            0 <= i <= threads.len(),
            ts == threads.deep_view(),
            ts.len() == threads.len(),
            pred == thread_keep_pred(tid),
            kept.deep_view() == ts.subrange(0, i as int).filter(pred),
        decreases threads.len() - i,
    {
        let ghost prev = kept.deep_view();
        let ghost x = ts[i as int];
        let keep = threads[i].tid != tid;
        proof {
            assert(x == threads@[i as int]@);
            assert(x.tid == threads@[i as int].tid);
            assert(keep == pred(x));
            reveal_with_fuel(Seq::filter, 3);
            assert(seq![x].drop_last() =~= Seq::<ThreadInfo>::empty());
            assert(seq![x].last() == x);
            assert(seq![x].filter(pred) == if pred(x) {
                Seq::<ThreadInfo>::empty().push(x)
            } else {
                Seq::<ThreadInfo>::empty()
            });
            assert(ts.subrange(0, i as int + 1) =~= ts.subrange(0, i as int) + seq![x]);
            Seq::filter_distributes_over_add(ts.subrange(0, i as int), seq![x], pred);
        }
        if keep {
            let t = threads[i];
            kept.push(t);
            proof {
                assert(kept.deep_view() =~= prev.push(x));
                assert(kept.deep_view() =~= ts.subrange(0, i as int + 1).filter(pred));
            }
        } else {
            proof {
                assert(kept.deep_view() =~= ts.subrange(0, i as int + 1).filter(pred));
            }
        }
        i += 1;
    }
    proof {
        assert(ts.subrange(0, ts.len() as int) =~= ts);
    }
    *threads = kept;
}

/// Folds one debug event into the session's module and thread sets.
///
/// Duplicate-insert guards make this idempotent under event replay; nothing
/// but `modules` and `threads` changes.
pub fn update_session_from_event(state: &mut SessionState, event: &DebugEvent)
    ensures
        final(state)@ == event_applied(old(state)@, event@),
{
    match event {
        DebugEvent::DllLoaded { dll_name, base_of_dll, size_of_dll, .. } => {
            if !module_base_present(&state.modules, *base_of_dll) {
                let name = match dll_name {
                    Some(n) => n.clone(),
                    None => synthesize_module_name(*base_of_dll),
                };
                let ghost prev = state.modules.deep_view();
                state.modules.push(
                    ModuleInfo { name, base: *base_of_dll, size: *size_of_dll },
                );
                proof {
                    assert(state.modules.deep_view() =~= modules_after(prev, event@));
                }
            }
        },
        DebugEvent::ProcessCreated { tid, image_file_name, base_of_image, size_of_image, .. } => {
            if !module_base_present(&state.modules, *base_of_image) {
                let name = match image_file_name {
                    Some(n) => n.clone(),
                    None => String::from_str("main.exe"),
                };
                let ghost prev = state.modules.deep_view();
                state.modules.push(
                    ModuleInfo { name, base: *base_of_image, size: *size_of_image },
                );
                proof {
                    assert(state.modules.deep_view() =~= modules_after(prev, event@));
                }
            }
            if !thread_id_present(&state.threads, *tid) {
                let ghost prev = state.threads.deep_view();
                state.threads.push(ThreadInfo { tid: *tid, start_address: *base_of_image });
                proof {
                    assert(state.threads.deep_view() =~= threads_after(prev, event@));
                }
            }
        },
        DebugEvent::ThreadCreated { tid, start_address, .. } => {
            if !thread_id_present(&state.threads, *tid) {
                let ghost prev = state.threads.deep_view();
                state.threads.push(ThreadInfo { tid: *tid, start_address: *start_address });
                proof {
                    assert(state.threads.deep_view() =~= threads_after(prev, event@));
                }
            }
        },
        DebugEvent::ThreadExited { tid, .. } => {
            remove_threads_with(&mut state.threads, *tid);
        },
        DebugEvent::DllUnloaded { base_of_dll, .. } => {
            remove_modules_at(&mut state.modules, *base_of_dll);
        },
        DebugEvent::ProcessExited { .. } => {
            state.modules.clear();
            state.threads.clear();
            proof {
                assert(state.modules.deep_view() =~= Seq::<ModuleModel>::empty());
                assert(state.threads.deep_view() =~= Seq::<ThreadInfo>::empty());
            }
        },
        DebugEvent::Other { .. } => {},
    }
}

} // verus!
