//! The session model: the authoritative snapshot of one debug session, and
//! the ghost-level models (`...Model`) that contracts are stated over.

use vstd::prelude::*;

verus! {

// ---------------------------------------------------------------------------
// Ghost models: the mathematical values that contracts speak of.
// ---------------------------------------------------------------------------

/// Ghost model of a loaded module: its name as a character sequence.
pub struct ModuleModel {
    pub name: Seq<char>,
    pub base: u64,
    pub size: u64,
}

/// Ghost model of a fetched register context: the thread it belongs to and
/// the register words in order.
pub struct ContextModel {
    pub tid: u64,
    pub registers: Seq<u64>,
}

/// Ghost model of a debug event.
pub enum EventModel {
    ProcessCreated {
        pid: u64,
        tid: u64,
        image_file_name: Option<Seq<char>>,
        base_of_image: u64,
        size_of_image: u64,
    },
    DllLoaded { pid: u64, tid: u64, dll_name: Option<Seq<char>>, base_of_dll: u64, size_of_dll: u64 },
    ThreadCreated { pid: u64, tid: u64, start_address: u64 },
    ThreadExited { pid: u64, tid: u64 },
    DllUnloaded { pid: u64, tid: u64, base_of_dll: u64 },
    ProcessExited { pid: u64, tid: u64 },
    Other { pid: u64, tid: u64 },
}

impl EventModel {
    /// Process id carried by the event; zero means "not applicable".
    pub open spec fn pid(self) -> u64 {
        match self {
            EventModel::ProcessCreated { pid, .. } => pid,
            EventModel::DllLoaded { pid, .. } => pid,
            EventModel::ThreadCreated { pid, .. } => pid,
            EventModel::ThreadExited { pid, .. } => pid,
            EventModel::DllUnloaded { pid, .. } => pid,
            EventModel::ProcessExited { pid, .. } => pid,
            EventModel::Other { pid, .. } => pid,
        }
    }

    /// Thread id carried by the event; zero means "not applicable".
    pub open spec fn tid(self) -> u64 {
        match self {
            EventModel::ProcessCreated { tid, .. } => tid,
            EventModel::DllLoaded { tid, .. } => tid,
            EventModel::ThreadCreated { tid, .. } => tid,
            EventModel::ThreadExited { tid, .. } => tid,
            EventModel::DllUnloaded { tid, .. } => tid,
            EventModel::ProcessExited { tid, .. } => tid,
            EventModel::Other { tid, .. } => tid,
        }
    }
}

/// Ghost model of the session status.
pub enum StatusModel {
    Initializing,
    Connected,
    Running,
    Paused,
    Finished,
    Error(Seq<char>),
}

impl StatusModel {
    /// Terminal states are absorbing: no transition leaves them.
    pub open spec fn is_terminal(self) -> bool {
        self is Finished || self is Error
    }
}

/// Ghost model of the whole session.
#[verifier::ext_equal]
pub struct SessionModel {
    pub id: Seq<char>,
    pub server_url: Seq<char>,
    pub launch_command: Seq<char>,
    pub status: StatusModel,
    pub modules: Seq<ModuleModel>,
    pub threads: Seq<ThreadInfo>,
    pub current_event: Option<EventModel>,
    pub current_context: Option<ContextModel>,
    pub events: Seq<EventModel>,
}

/// At most one module per base address.
pub open spec fn modules_unique(ms: Seq<ModuleModel>) -> bool {
    forall|i: int, j: int|
        0 <= i < ms.len() && 0 <= j < ms.len() && i != j ==> ms[i].base != ms[j].base
}

/// At most one thread per thread id.
pub open spec fn threads_unique(ts: Seq<ThreadInfo>) -> bool {
    forall|i: int, j: int|
        0 <= i < ts.len() && 0 <= j < ts.len() && i != j ==> ts[i].tid != ts[j].tid
}

impl SessionModel {
    /// A register context is held only for the thread of the current stop event.
    pub open spec fn context_consistent(self) -> bool {
        self.current_context matches Some(c) ==> {
            &&& self.current_event is Some
            &&& c.tid == self.current_event->0.tid()
        }
    }

    /// The session invariant maintained by every live-event transition.
    pub open spec fn wf(self) -> bool {
        &&& modules_unique(self.modules)
        &&& threads_unique(self.threads)
        &&& self.context_consistent()
    }
}

// ---------------------------------------------------------------------------
// Executable types.
// ---------------------------------------------------------------------------

/// A loaded module: resolved or synthesized name, base address, size.
pub struct ModuleInfo {
    pub name: String,
    pub base: u64,
    pub size: u64,
}

impl View for ModuleInfo {
    type V = ModuleModel;

    open spec fn view(&self) -> ModuleModel {
        ModuleModel { name: self.name@, base: self.base, size: self.size }
    }
}

impl DeepView for ModuleInfo {
    type V = ModuleModel;

    open spec fn deep_view(&self) -> ModuleModel {
        self.view()
    }
}

impl Clone for ModuleInfo {
    fn clone(&self) -> (res: Self)
        ensures
            res == *self,
    {
        ModuleInfo { name: self.name.clone(), base: self.base, size: self.size }
    }
}

/// A live thread: thread id and start address.
#[derive(Clone, Copy)]
pub struct ThreadInfo {
    pub tid: u64,
    pub start_address: u64,
}

impl View for ThreadInfo {
    type V = ThreadInfo;

    open spec fn view(&self) -> ThreadInfo {
        *self
    }
}

impl DeepView for ThreadInfo {
    type V = ThreadInfo;

    open spec fn deep_view(&self) -> ThreadInfo {
        *self
    }
}

/// Register context fetched for one thread: the thread id the fetch was made
/// for, and the register words in a fixed order.
pub struct ThreadContext {
    pub tid: u64,
    pub registers: Vec<u64>,
}

impl View for ThreadContext {
    type V = ContextModel;

    open spec fn view(&self) -> ContextModel {
        ContextModel { tid: self.tid, registers: self.registers@ }
    }
}

impl DeepView for ThreadContext {
    type V = ContextModel;

    open spec fn deep_view(&self) -> ContextModel {
        self.view()
    }
}

impl Clone for ThreadContext {
    fn clone(&self) -> (res: Self)
        ensures
            res@ == self@,
    {
        ThreadContext { tid: self.tid, registers: self.registers.clone() }
    }
}

/// A debug event delivered by the protocol layer.
pub enum DebugEvent {
    ProcessCreated {
        pid: u64,
        tid: u64,
        image_file_name: Option<String>,
        base_of_image: u64,
        size_of_image: u64,
    },
    DllLoaded { pid: u64, tid: u64, dll_name: Option<String>, base_of_dll: u64, size_of_dll: u64 },
    ThreadCreated { pid: u64, tid: u64, start_address: u64 },
    ThreadExited { pid: u64, tid: u64 },
    DllUnloaded { pid: u64, tid: u64, base_of_dll: u64 },
    ProcessExited { pid: u64, tid: u64 },
    Other { pid: u64, tid: u64 },
}

impl View for DebugEvent {
    type V = EventModel;

    open spec fn view(&self) -> EventModel {
        match *self {
            DebugEvent::ProcessCreated {
                pid,
                tid,
                ref image_file_name,
                base_of_image,
                size_of_image,
            } => EventModel::ProcessCreated {
                pid,
                tid,
                image_file_name: image_file_name.deep_view(),
                base_of_image,
                size_of_image,
            },
            DebugEvent::DllLoaded { pid, tid, ref dll_name, base_of_dll, size_of_dll } => {
                EventModel::DllLoaded {
                    pid,
                    tid,
                    dll_name: dll_name.deep_view(),
                    base_of_dll,
                    size_of_dll,
                }
            },
            DebugEvent::ThreadCreated { pid, tid, start_address } => {
                EventModel::ThreadCreated { pid, tid, start_address }
            },
            DebugEvent::ThreadExited { pid, tid } => EventModel::ThreadExited { pid, tid },
            DebugEvent::DllUnloaded { pid, tid, base_of_dll } => {
                EventModel::DllUnloaded { pid, tid, base_of_dll }
            },
            DebugEvent::ProcessExited { pid, tid } => EventModel::ProcessExited { pid, tid },
            DebugEvent::Other { pid, tid } => EventModel::Other { pid, tid },
        }
    }
}

impl DeepView for DebugEvent {
    type V = EventModel;

    open spec fn deep_view(&self) -> EventModel {
        self.view()
    }
}

impl DebugEvent {
    /// Process id carried by the event; zero means "not applicable".
    pub fn pid(&self) -> (r: u64)
        ensures
            r == self@.pid(),
    {
        match self {
            DebugEvent::ProcessCreated { pid, .. } => *pid,
            DebugEvent::DllLoaded { pid, .. } => *pid,
            DebugEvent::ThreadCreated { pid, .. } => *pid,
            DebugEvent::ThreadExited { pid, .. } => *pid,
            DebugEvent::DllUnloaded { pid, .. } => *pid,
            DebugEvent::ProcessExited { pid, .. } => *pid,
            DebugEvent::Other { pid, .. } => *pid,
        }
    }

    /// Thread id carried by the event; zero means "not applicable".
    pub fn tid(&self) -> (r: u64)
        ensures
            r == self@.tid(),
    {
        match self {
            DebugEvent::ProcessCreated { tid, .. } => *tid,
            DebugEvent::DllLoaded { tid, .. } => *tid,
            DebugEvent::ThreadCreated { tid, .. } => *tid,
            DebugEvent::ThreadExited { tid, .. } => *tid,
            DebugEvent::DllUnloaded { tid, .. } => *tid,
            DebugEvent::ProcessExited { tid, .. } => *tid,
            DebugEvent::Other { tid, .. } => *tid,
        }
    }
}

impl Clone for DebugEvent {
    fn clone(&self) -> (res: Self)
        ensures
            res@ == self@,
    {
        match self {
            DebugEvent::ProcessCreated { pid, tid, image_file_name, base_of_image, size_of_image } => {
                DebugEvent::ProcessCreated {
                    pid: *pid,
                    tid: *tid,
                    image_file_name: clone_opt_string(image_file_name),
                    base_of_image: *base_of_image,
                    size_of_image: *size_of_image,
                }
            },
            DebugEvent::DllLoaded { pid, tid, dll_name, base_of_dll, size_of_dll } => {
                DebugEvent::DllLoaded {
                    pid: *pid,
                    tid: *tid,
                    dll_name: clone_opt_string(dll_name),
                    base_of_dll: *base_of_dll,
                    size_of_dll: *size_of_dll,
                }
            },
            DebugEvent::ThreadCreated { pid, tid, start_address } => {
                DebugEvent::ThreadCreated { pid: *pid, tid: *tid, start_address: *start_address }
            },
            DebugEvent::ThreadExited { pid, tid } => {
                DebugEvent::ThreadExited { pid: *pid, tid: *tid }
            },
            DebugEvent::DllUnloaded { pid, tid, base_of_dll } => {
                DebugEvent::DllUnloaded { pid: *pid, tid: *tid, base_of_dll: *base_of_dll }
            },
            DebugEvent::ProcessExited { pid, tid } => {
                DebugEvent::ProcessExited { pid: *pid, tid: *tid }
            },
            DebugEvent::Other { pid, tid } => DebugEvent::Other { pid: *pid, tid: *tid },
        }
    }
}

/// Clones an optional string, keeping its value exactly.
fn clone_opt_string(s: &Option<String>) -> (res: Option<String>)
    ensures
        res == *s,
{
    match s {
        Some(n) => Some(n.clone()),
        None => None,
    }
}

/// Ghost model of a protocol response.
pub enum ResponseModel {
    Event(EventModel),
    Ack,
    Error { message: Seq<char> },
    ProcessList,
    ModuleList { modules: Seq<ModuleModel> },
    ThreadList { threads: Seq<ThreadInfo> },
    MemoryData,
    WriteAck,
    ThreadContext { context: ContextModel },
    SetContextAck,
    Symbol,
    SymbolList,
    AddressSymbol,
    Instructions,
    CallStack,
    ResolvedSymbolList,
}

/// A response delivered by the protocol layer. Payloads that the session
/// core never reads are left off their variants; callers drop them when they
/// convert from the wire representation.
pub enum DebuggerResponse {
    Event { event: DebugEvent },
    Ack,
    Error { message: String },
    ProcessList,
    ModuleList { modules: Vec<ModuleInfo> },
    ThreadList { threads: Vec<ThreadInfo> },
    MemoryData,
    WriteAck,
    ThreadContext { context: ThreadContext },
    SetContextAck,
    Symbol,
    SymbolList,
    AddressSymbol,
    Instructions,
    CallStack,
    ResolvedSymbolList,
}

impl View for DebuggerResponse {
    type V = ResponseModel;

    open spec fn view(&self) -> ResponseModel {
        match *self {
            DebuggerResponse::Event { ref event } => ResponseModel::Event(event@),
            DebuggerResponse::Ack => ResponseModel::Ack,
            DebuggerResponse::Error { ref message } => ResponseModel::Error { message: message@ },
            DebuggerResponse::ProcessList => ResponseModel::ProcessList,
            DebuggerResponse::ModuleList { ref modules } => ResponseModel::ModuleList {
                modules: modules.deep_view(),
            },
            DebuggerResponse::ThreadList { ref threads } => ResponseModel::ThreadList {
                threads: threads.deep_view(),
            },
            DebuggerResponse::MemoryData => ResponseModel::MemoryData,
            DebuggerResponse::WriteAck => ResponseModel::WriteAck,
            DebuggerResponse::ThreadContext { ref context } => ResponseModel::ThreadContext {
                context: context@,
            },
            DebuggerResponse::SetContextAck => ResponseModel::SetContextAck,
            DebuggerResponse::Symbol => ResponseModel::Symbol,
            DebuggerResponse::SymbolList => ResponseModel::SymbolList,
            DebuggerResponse::AddressSymbol => ResponseModel::AddressSymbol,
            DebuggerResponse::Instructions => ResponseModel::Instructions,
            DebuggerResponse::CallStack => ResponseModel::CallStack,
            DebuggerResponse::ResolvedSymbolList => ResponseModel::ResolvedSymbolList,
        }
    }
}

impl DeepView for DebuggerResponse {
    type V = ResponseModel;

    open spec fn deep_view(&self) -> ResponseModel {
        self.view()
    }
}

/// Session status; `Error` carries the peer's message verbatim.
pub enum SessionStatus {
    Initializing,
    Connected,
    Running,
    Paused,
    Finished,
    Error(String),
}

impl View for SessionStatus {
    type V = StatusModel;

    open spec fn view(&self) -> StatusModel {
        match *self {
            SessionStatus::Initializing => StatusModel::Initializing,
            SessionStatus::Connected => StatusModel::Connected,
            SessionStatus::Running => StatusModel::Running,
            SessionStatus::Paused => StatusModel::Paused,
            SessionStatus::Finished => StatusModel::Finished,
            SessionStatus::Error(ref m) => StatusModel::Error(m@),
        }
    }
}

impl Clone for SessionStatus {
    fn clone(&self) -> (res: Self)
        ensures
            res@ == self@,
    {
        match self {
            SessionStatus::Initializing => SessionStatus::Initializing,
            SessionStatus::Connected => SessionStatus::Connected,
            SessionStatus::Running => SessionStatus::Running,
            SessionStatus::Paused => SessionStatus::Paused,
            SessionStatus::Finished => SessionStatus::Finished,
            SessionStatus::Error(m) => SessionStatus::Error(m.clone()),
        }
    }
}

/// The mutable session state. Mutation goes through the updater and the
/// transition functions in `update` and `machine`; callers that share this
/// value across threads wrap it in their own mutual-exclusion guard.
pub struct SessionState {
    pub id: String,
    pub server_url: String,
    pub launch_command: String,
    pub status: SessionStatus,
    pub modules: Vec<ModuleInfo>,
    pub threads: Vec<ThreadInfo>,
    pub current_event: Option<DebugEvent>,
    pub current_context: Option<ThreadContext>,
    pub events: Vec<DebugEvent>,
}

impl View for SessionState {
    type V = SessionModel;

    open spec fn view(&self) -> SessionModel {
        SessionModel {
            id: self.id@,
            server_url: self.server_url@,
            launch_command: self.launch_command@,
            status: self.status@,
            modules: self.modules.deep_view(),
            threads: self.threads.deep_view(),
            current_event: self.current_event.deep_view(),
            current_context: self.current_context.deep_view(),
            events: self.events.deep_view(),
        }
    }
}

impl SessionState {
    /// A fresh session: configuration captured, status `Initializing`,
    /// every collection empty, nothing current.
    pub fn new(id: String, server_url: String, launch_command: String) -> (s: Self)
        ensures
            s@ == (SessionModel {
                id: id@,
                server_url: server_url@,
                launch_command: launch_command@,
                status: StatusModel::Initializing,
                modules: Seq::<ModuleModel>::empty(),
                threads: Seq::<ThreadInfo>::empty(),
                current_event: None::<EventModel>,
                current_context: None::<ContextModel>,
                events: Seq::<EventModel>::empty(),
            }),
            s@.wf(),
    {
        let s = SessionState {
            id,
            server_url,
            launch_command,
            status: SessionStatus::Initializing,
            modules: Vec::new(),
            threads: Vec::new(),
            current_event: None,
            current_context: None,
            events: Vec::new(),
        };
        proof {
            assert(s.modules.deep_view() =~= Seq::<ModuleModel>::empty());
            assert(s.threads.deep_view() =~= Seq::<ThreadInfo>::empty());
            assert(s.events.deep_view() =~= Seq::<EventModel>::empty());
        }
        s
    }
}

/// Errors this core reports to its caller.
pub enum SessionError {
    /// A protocol connection could not be established; fatal to session start.
    ConnectionFailed(String),
    /// The protocol-driven receive loop itself failed.
    DebugLoop(String),
}

} // verus!
