//! Communication and lifecycle core of a runtime application self-protection
//! agent: the shutdown coordinator, the three transport strategies and the
//! line protocol spoken with the attach daemon.
//!
//! The crate decides and keeps state; running programs, reading pipes and
//! sleeping are left to the host, which reports back what happened.
pub mod control;
pub mod error;
pub mod text;
pub mod channel;
pub mod host;
pub mod comm;
pub mod thread_mode;
pub mod kernel;
pub mod pattern;
pub mod ebpf;
pub mod text_map;
pub mod process_mode;
