//! Core of a debug-session controller: an in-memory model of a debuggee's
//! runtime state (loaded modules, live threads, current stop event, register
//! context), a pure updater that folds protocol events into that model, and a
//! state machine that decides, for each protocol response and each operator
//! decision, how the session advances.
//!
//! All I/O (the protocol connections, the operator's decision channel, the
//! snapshot sink) lives outside this crate; callers run the receive loop,
//! hand every response and decision to the functions here, and perform the
//! actions these functions return.

pub mod model;
pub mod names;
pub mod update;
pub mod machine;
pub mod snapshot;
