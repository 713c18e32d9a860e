//! Socket packet-filter programs and their control surface.
//!
//! A caller builds a classic BPF filter program as a sequence of
//! instruction records ([`Op`]) bundled into a [`Prog`], and drives the
//! kernel's per-socket filter options (attach, detach, lock) through it.
//! This crate holds the verified core: the binary-compatible data model,
//! the translation of each control operation into a socket-option
//! request, the mapping of a system call's outcome to a result, a model
//! of how a supporting kernel answers the three operations, and the
//! null variant used on platforms without the facility.
//!
//! Performing the actual `setsockopt` system call requires raw pointers,
//! so the thin layer that executes a [`SockOptRequest`] against a file
//! descriptor lives outside the verified core.

pub mod dummy;
mod error;
mod program;
mod sockopt;
pub mod state;

pub use error::FilterError;
pub use program::{bpfprog, Op, Prog};
pub use sockopt::{
    attach_request, detach_request, lock_request, syscall_result, SockOptPayload, SockOptRequest,
    SO_ATTACH_FILTER, SO_DETACH_FILTER, SO_LOCK_FILTER,
};
