use vstd::prelude::*;

use crate::error::FilterError;
use crate::program::Prog;

verus! {

/// Socket-option name that installs a filter program on a socket.
pub const SO_ATTACH_FILTER: i32 = 26;

/// Socket-option name that removes a socket's current filter.
pub const SO_DETACH_FILTER: i32 = 27;

/// Socket-option name that locks a socket's filter options for good.
pub const SO_LOCK_FILTER: i32 = 44;

/// The option value carried by a socket-option request.
pub enum SockOptPayload {
    /// A filter program, handed over as its length/pointer record.
    Program(Prog),
    /// No value: a null pointer with zero length.
    NoValue,
    /// A single machine integer.
    Flag(i32),
}

/// One socket-option request, ready to be run against a descriptor.
///
/// Every request this crate builds targets the socket option level
/// itself; `name` selects which filter option is set, and `payload`
/// is the value passed with it. A request that carries a program owns
/// that program, so the program's backing storage stays live and
/// unmoved until the request itself is dropped — in particular for the
/// whole duration of the system call that reads it.
pub struct SockOptRequest {
    /// The socket-option name to set.
    pub name: i32,
    /// The option value to pass.
    pub payload: SockOptPayload,
}

/// The request that installs `prog` as a socket's packet filter.
///
/// The program is consumed by value and carried unchanged: the request
/// holds exactly the instructions the caller supplied, whatever they
/// are — no minimum length, no validation. A malformed or empty program
/// is rejected only by the kernel, when the request is run.
pub fn attach_request(prog: Prog) -> (r: SockOptRequest)
    ensures
        r.name == SO_ATTACH_FILTER,
        r.payload matches SockOptPayload::Program(p) && p@ == prog@,
{
    SockOptRequest { name: SO_ATTACH_FILTER, payload: SockOptPayload::Program(prog) }
}

/// The request that removes a socket's current filter, if any.
pub fn detach_request() -> (r: SockOptRequest)
    ensures
        r.name == SO_DETACH_FILTER,
        r.payload is NoValue,
{
    SockOptRequest { name: SO_DETACH_FILTER, payload: SockOptPayload::NoValue }
}

/// The request that locks a socket's filter options, with value `1`,
/// preventing every later attach or detach for the socket's lifetime.
pub fn lock_request() -> (r: SockOptRequest)
    ensures
        r.name == SO_LOCK_FILTER,
        r.payload == SockOptPayload::Flag(1),
{
    SockOptRequest { name: SO_LOCK_FILTER, payload: SockOptPayload::Flag(1) }
}

/// The result a socket-option call's outcome stands for: success for a
/// zero return value, an OS call failure carrying `os_error` otherwise.
pub open spec fn outcome_of(ret: i32, os_error: i32) -> Result<(), FilterError> {
    if ret == 0 {
        Ok(())
    } else {
        Err(FilterError::OsCall(os_error))
    }
}

/// Maps a socket-option call's outcome to this crate's result type.
///
/// A return value of zero is success; any other return value is an
/// [`FilterError::OsCall`] carrying `os_error`, the error code the
/// operating system recorded for the failed call. No other outcome
/// exists: each operation is a single atomic system call.
pub fn syscall_result(ret: i32, os_error: i32) -> (r: Result<(), FilterError>)
    ensures
        r == outcome_of(ret, os_error),
{
    if ret == 0 {
        Ok(())
    } else {
        Err(FilterError::OsCall(os_error))
    }
}

} // verus!
