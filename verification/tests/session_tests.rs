use debug_session::machine::{
    apply_decision, finish_session, handle_response, mark_connected, record_context_response,
    FetchRequest, LoopAction,
};
use debug_session::model::{
    DebugEvent, DebuggerResponse, ModuleInfo, SessionState, SessionStatus, ThreadContext,
    ThreadInfo,
};
use debug_session::names::synthesize_module_name;
use debug_session::update::update_session_from_event;

fn fresh_session() -> SessionState {
    SessionState::new(
        String::from("session-1"),
        String::from("127.0.0.1:9000"),
        String::from("target.exe"),
    )
}

fn process_created(pid: u64, tid: u64, image: Option<&str>, base: u64, size: u64) -> DebugEvent {
    DebugEvent::ProcessCreated {
        pid,
        tid,
        image_file_name: image.map(String::from),
        base_of_image: base,
        size_of_image: size,
    }
}

fn dll_loaded(pid: u64, tid: u64, name: Option<&str>, base: u64, size: u64) -> DebugEvent {
    DebugEvent::DllLoaded {
        pid,
        tid,
        dll_name: name.map(String::from),
        base_of_dll: base,
        size_of_dll: size,
    }
}

#[test]
fn new_session_is_empty_and_initializing() {
    let s = fresh_session();
    assert!(matches!(s.status, SessionStatus::Initializing));
    assert!(s.modules.is_empty());
    assert!(s.threads.is_empty());
    assert!(s.current_event.is_none());
    assert!(s.current_context.is_none());
    assert!(s.events.is_empty());
    assert_eq!(s.id, "session-1");
}

#[test]
fn mark_connected_transitions_status() {
    let mut s = fresh_session();
    mark_connected(&mut s);
    assert!(matches!(s.status, SessionStatus::Connected));
}

#[test]
fn process_created_adds_main_module_and_initial_thread() {
    let mut s = fresh_session();
    let ev = process_created(1, 1, Some("a.exe"), 0x1000, 0x2000);
    let action = handle_response(&mut s, DebuggerResponse::Event { event: ev });
    assert_eq!(s.modules.len(), 1);
    assert_eq!(s.modules[0].name, "a.exe");
    assert_eq!(s.modules[0].base, 0x1000);
    assert_eq!(s.modules[0].size, 0x2000);
    assert_eq!(s.threads.len(), 1);
    assert_eq!(s.threads[0].tid, 1);
    assert_eq!(s.threads[0].start_address, 0x1000);
    assert!(matches!(s.status, SessionStatus::Paused));
    assert!(s.current_event.is_some());
    assert_eq!(s.events.len(), 1);
    match action {
        LoopAction::AwaitDecision { fetch } => {
            assert_eq!(fetch, Some(FetchRequest { pid: 1, tid: 1 }));
        }
        _ => panic!("a stop event must await a decision"),
    }
}

#[test]
fn process_created_without_name_uses_fallback() {
    let mut s = fresh_session();
    update_session_from_event(&mut s, &process_created(1, 1, None, 0x1000, 0x2000));
    assert_eq!(s.modules[0].name, "main.exe");
}

#[test]
fn dll_loaded_without_name_synthesizes_placeholder() {
    let mut s = fresh_session();
    update_session_from_event(&mut s, &dll_loaded(1, 1, None, 0x5000, 0x100));
    assert_eq!(s.modules.len(), 1);
    assert_eq!(s.modules[0].name, "Unknown_0x5000");
    assert_eq!(s.modules[0].base, 0x5000);
    assert_eq!(s.modules[0].size, 0x100);
}

#[test]
fn synthesized_names_use_uppercase_hex() {
    assert_eq!(synthesize_module_name(0), "Unknown_0x0");
    assert_eq!(synthesize_module_name(0x5000), "Unknown_0x5000");
    assert_eq!(synthesize_module_name(0xDEADBEEF), "Unknown_0xDEADBEEF");
    assert_eq!(synthesize_module_name(15), "Unknown_0xF");
    assert_eq!(synthesize_module_name(16), "Unknown_0x10");
    assert_eq!(synthesize_module_name(u64::MAX), "Unknown_0xFFFFFFFFFFFFFFFF");
}

#[test]
fn repeated_dll_loads_keep_one_module_per_base() {
    let mut s = fresh_session();
    update_session_from_event(&mut s, &dll_loaded(1, 1, Some("x.dll"), 0x7000, 0x400));
    update_session_from_event(&mut s, &dll_loaded(1, 1, Some("x.dll"), 0x7000, 0x400));
    update_session_from_event(&mut s, &dll_loaded(1, 2, Some("other.dll"), 0x7000, 0x800));
    assert_eq!(s.modules.len(), 1);
    assert_eq!(s.modules[0].name, "x.dll");
    assert_eq!(s.modules[0].size, 0x400);
}

#[test]
fn thread_created_then_exited_leaves_no_thread() {
    let mut s = fresh_session();
    update_session_from_event(&mut s, &DebugEvent::ThreadCreated { pid: 1, tid: 7, start_address: 0x40 });
    update_session_from_event(&mut s, &DebugEvent::ThreadCreated { pid: 1, tid: 8, start_address: 0x50 });
    update_session_from_event(&mut s, &DebugEvent::ThreadExited { pid: 1, tid: 7 });
    assert_eq!(s.threads.len(), 1);
    assert_eq!(s.threads[0].tid, 8);
    assert!(!s.threads.iter().any(|t| t.tid == 7));
}

#[test]
fn duplicate_thread_created_is_ignored() {
    let mut s = fresh_session();
    update_session_from_event(&mut s, &DebugEvent::ThreadCreated { pid: 1, tid: 7, start_address: 0x40 });
    update_session_from_event(&mut s, &DebugEvent::ThreadCreated { pid: 1, tid: 7, start_address: 0x99 });
    assert_eq!(s.threads.len(), 1);
    assert_eq!(s.threads[0].start_address, 0x40);
}

#[test]
fn dll_unloaded_removes_module() {
    let mut s = fresh_session();
    update_session_from_event(&mut s, &dll_loaded(1, 1, Some("x.dll"), 0x7000, 0x400));
    update_session_from_event(&mut s, &dll_loaded(1, 1, Some("y.dll"), 0x8000, 0x400));
    update_session_from_event(&mut s, &DebugEvent::DllUnloaded { pid: 1, tid: 1, base_of_dll: 0x7000 });
    assert_eq!(s.modules.len(), 1);
    assert_eq!(s.modules[0].base, 0x8000);
}

#[test]
fn process_exited_clears_modules_and_threads() {
    let mut s = fresh_session();
    update_session_from_event(&mut s, &process_created(1, 1, Some("a.exe"), 0x1000, 0x2000));
    update_session_from_event(&mut s, &dll_loaded(1, 1, Some("x.dll"), 0x7000, 0x400));
    update_session_from_event(&mut s, &DebugEvent::ThreadCreated { pid: 1, tid: 9, start_address: 0x44 });
    update_session_from_event(&mut s, &DebugEvent::ProcessExited { pid: 1, tid: 1 });
    assert!(s.modules.is_empty());
    assert!(s.threads.is_empty());
}

#[test]
fn other_events_have_no_model_effect() {
    let mut s = fresh_session();
    update_session_from_event(&mut s, &dll_loaded(1, 1, Some("x.dll"), 0x7000, 0x400));
    update_session_from_event(&mut s, &DebugEvent::Other { pid: 1, tid: 1 });
    assert_eq!(s.modules.len(), 1);
    assert!(s.threads.is_empty());
}

#[test]
fn stop_event_with_zero_ids_plans_no_fetch() {
    let mut s = fresh_session();
    let action = handle_response(
        &mut s,
        DebuggerResponse::Event { event: DebugEvent::Other { pid: 0, tid: 0 } },
    );
    match action {
        LoopAction::AwaitDecision { fetch } => assert!(fetch.is_none()),
        _ => panic!("a stop event must await a decision"),
    }
    assert!(s.current_context.is_none());
    assert!(matches!(s.status, SessionStatus::Paused));
}

#[test]
fn stop_event_clears_previous_context() {
    let mut s = fresh_session();
    handle_response(
        &mut s,
        DebuggerResponse::Event { event: DebugEvent::Other { pid: 1, tid: 5 } },
    );
    record_context_response(
        &mut s,
        Some(DebuggerResponse::ThreadContext {
            context: ThreadContext { tid: 5, registers: vec![1, 2, 3] },
        }),
    );
    assert!(s.current_context.is_some());
    handle_response(
        &mut s,
        DebuggerResponse::Event { event: DebugEvent::Other { pid: 1, tid: 6 } },
    );
    assert!(s.current_context.is_none());
    assert_eq!(s.events.len(), 2);
}

#[test]
fn matching_context_response_is_stored() {
    let mut s = fresh_session();
    handle_response(
        &mut s,
        DebuggerResponse::Event { event: DebugEvent::Other { pid: 1, tid: 5 } },
    );
    record_context_response(
        &mut s,
        Some(DebuggerResponse::ThreadContext {
            context: ThreadContext { tid: 5, registers: vec![0xAB, 0xCD] },
        }),
    );
    let ctx = s.current_context.as_ref().expect("context stored");
    assert_eq!(ctx.tid, 5);
    assert_eq!(ctx.registers, vec![0xAB, 0xCD]);
}

#[test]
fn unexpected_or_failed_context_fetch_leaves_context_unset() {
    let mut s = fresh_session();
    handle_response(
        &mut s,
        DebuggerResponse::Event { event: DebugEvent::Other { pid: 1, tid: 5 } },
    );
    record_context_response(&mut s, Some(DebuggerResponse::Ack));
    assert!(s.current_context.is_none());
    record_context_response(&mut s, None);
    assert!(s.current_context.is_none());
    record_context_response(
        &mut s,
        Some(DebuggerResponse::ThreadContext {
            context: ThreadContext { tid: 6, registers: vec![] },
        }),
    );
    assert!(s.current_context.is_none());
}

#[test]
fn true_decision_resumes_and_clears_event() {
    let mut s = fresh_session();
    handle_response(
        &mut s,
        DebuggerResponse::Event { event: DebugEvent::Other { pid: 1, tid: 5 } },
    );
    let resume = apply_decision(&mut s, Some(true));
    assert!(resume);
    assert!(matches!(s.status, SessionStatus::Running));
    assert!(s.current_event.is_none());
    assert!(s.current_context.is_none());
}

#[test]
fn false_decision_finishes_and_clears_event() {
    let mut s = fresh_session();
    handle_response(
        &mut s,
        DebuggerResponse::Event { event: DebugEvent::Other { pid: 1, tid: 5 } },
    );
    let resume = apply_decision(&mut s, Some(false));
    assert!(!resume);
    assert!(matches!(s.status, SessionStatus::Finished));
    assert!(s.current_event.is_none());
}

#[test]
fn disconnected_channel_finishes_session() {
    let mut s = fresh_session();
    handle_response(
        &mut s,
        DebuggerResponse::Event { event: DebugEvent::Other { pid: 1, tid: 5 } },
    );
    let resume = apply_decision(&mut s, None);
    assert!(!resume);
    assert!(matches!(s.status, SessionStatus::Finished));
}

#[test]
fn error_response_preserves_message_and_halts() {
    let mut s = fresh_session();
    let action = handle_response(
        &mut s,
        DebuggerResponse::Error { message: String::from("access denied") },
    );
    assert!(matches!(action, LoopAction::Halt));
    match &s.status {
        SessionStatus::Error(m) => assert_eq!(m, "access denied"),
        _ => panic!("status must carry the error message"),
    }
}

#[test]
fn informational_responses_resume_without_changes() {
    let mut s = fresh_session();
    for resp in [
        DebuggerResponse::Ack,
        DebuggerResponse::ProcessList,
        DebuggerResponse::MemoryData,
        DebuggerResponse::WriteAck,
        DebuggerResponse::ThreadContext {
            context: ThreadContext { tid: 1, registers: vec![] },
        },
        DebuggerResponse::SetContextAck,
        DebuggerResponse::Symbol,
        DebuggerResponse::SymbolList,
        DebuggerResponse::AddressSymbol,
        DebuggerResponse::Instructions,
        DebuggerResponse::CallStack,
        DebuggerResponse::ResolvedSymbolList,
    ] {
        let action = handle_response(&mut s, resp);
        assert!(matches!(action, LoopAction::Resume));
    }
    assert!(matches!(s.status, SessionStatus::Initializing));
    assert!(s.modules.is_empty());
    assert!(s.threads.is_empty());
    assert!(s.events.is_empty());
}

#[test]
fn module_list_appends_without_duplicate_guard() {
    let mut s = fresh_session();
    update_session_from_event(&mut s, &dll_loaded(1, 1, Some("x.dll"), 0x7000, 0x400));
    let action = handle_response(
        &mut s,
        DebuggerResponse::ModuleList {
            modules: vec![
                ModuleInfo { name: String::from("x.dll"), base: 0x7000, size: 0x400 },
                ModuleInfo { name: String::from("z.dll"), base: 0x9000, size: 0x200 },
            ],
        },
    );
    assert!(matches!(action, LoopAction::Resume));
    assert_eq!(s.modules.len(), 3);
    assert_eq!(s.modules[1].base, 0x7000);
    assert_eq!(s.modules[2].name, "z.dll");
}

#[test]
fn thread_list_appends_entries() {
    let mut s = fresh_session();
    let action = handle_response(
        &mut s,
        DebuggerResponse::ThreadList {
            threads: vec![
                ThreadInfo { tid: 4, start_address: 0x10 },
                ThreadInfo { tid: 5, start_address: 0x20 },
            ],
        },
    );
    assert!(matches!(action, LoopAction::Resume));
    assert_eq!(s.threads.len(), 2);
    assert_eq!(s.threads[1].tid, 5);
}

#[test]
fn finish_session_is_idempotent_and_keeps_error() {
    let mut s = fresh_session();
    handle_response(
        &mut s,
        DebuggerResponse::Event { event: DebugEvent::Other { pid: 1, tid: 5 } },
    );
    finish_session(&mut s);
    assert!(matches!(s.status, SessionStatus::Finished));
    assert!(s.current_event.is_none());
    finish_session(&mut s);
    assert!(matches!(s.status, SessionStatus::Finished));

    let mut e = fresh_session();
    handle_response(&mut e, DebuggerResponse::Error { message: String::from("boom") });
    finish_session(&mut e);
    match &e.status {
        SessionStatus::Error(m) => assert_eq!(m, "boom"),
        _ => panic!("a terminal error status must be absorbing"),
    }
}

#[test]
fn snapshot_copies_session_fields() {
    let mut s = fresh_session();
    handle_response(
        &mut s,
        DebuggerResponse::Event {
            event: process_created(1, 1, Some("a.exe"), 0x1000, 0x2000),
        },
    );
    let snap = s.to_debug_session();
    assert_eq!(snap.id, "session-1");
    assert!(matches!(snap.status, SessionStatus::Paused));
    assert_eq!(snap.modules.len(), 1);
    assert_eq!(snap.modules[0].name, "a.exe");
    assert_eq!(snap.threads.len(), 1);
    assert!(snap.current_event.is_some());
    assert!(snap.current_context.is_none());
    assert_eq!(snap.events.len(), 1);
}

#[test]
fn event_accessors_expose_pid_and_tid() {
    let ev = dll_loaded(3, 9, Some("x.dll"), 0x7000, 0x400);
    assert_eq!(ev.pid(), 3);
    assert_eq!(ev.tid(), 9);
    let other = DebugEvent::ProcessExited { pid: 12, tid: 0 };
    assert_eq!(other.pid(), 12);
    assert_eq!(other.tid(), 0);
}
