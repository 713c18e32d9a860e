use vstd::prelude::*;

use crate::error::FilterError;
use crate::program::{Op, Prog};
use crate::sockopt::outcome_of;

verus! {

/// The kernel-visible filtering state of one socket descriptor on a
/// platform that supports socket filters.
///
/// The kernel keeps, per socket, whether a filter program is currently
/// installed and whether the filter options have been locked. The step
/// functions below say how a supporting kernel answers each of the
/// three control operations from such a state, for a valid open
/// descriptor: each returns the successor state together with the
/// system call's return value, zero on success and `-1` on failure.
#[derive(Clone, Copy, Debug, PartialEq, Eq, Structural)]
pub struct FilterState {
    /// Whether a filter program is currently installed on the socket.
    pub installed: bool,
    /// Whether the socket's filter options have been locked.
    pub locked: bool,
}

impl FilterState {
    /// The state of a freshly opened socket: no filter installed, not
    /// locked.
    pub fn new() -> (r: FilterState)
        ensures
            !r.installed,
            !r.locked,
    {
        FilterState { installed: false, locked: false }
    }
}

/// How a supporting kernel answers an attach.
///
/// While the socket is locked the call is refused and the state does
/// not change. Otherwise the outcome is decided by the kernel's own
/// checker alone — `accepted` stands for its verdict on the program —
/// never by anything this crate inspects: an accepted program is
/// installed and the call succeeds; a rejected one leaves the state
/// unchanged and the call fails.
pub open spec fn attach_step(st: FilterState, prog: Seq<Op>, accepted: bool) -> (FilterState, i32) {
    if st.locked {
        (st, -1i32)
    } else if accepted {
        (FilterState { installed: true, locked: st.locked }, 0i32)
    } else {
        (st, -1i32)
    }
}

/// How a supporting kernel answers a detach.
///
/// While the socket is locked the call is refused and the state does
/// not change. Otherwise the call succeeds and leaves no filter
/// installed — also when none was installed to begin with: detaching
/// is idempotent.
pub open spec fn detach_step(st: FilterState) -> (FilterState, i32) {
    if st.locked {
        (st, -1i32)
    } else {
        (FilterState { installed: false, locked: st.locked }, 0i32)
    }
}

/// How a supporting kernel answers a lock (set with value `1`): the
/// call succeeds and the socket's filter options are locked from then
/// on, whether or not they already were.
pub open spec fn lock_step(st: FilterState) -> (FilterState, i32) {
    (FilterState { installed: st.installed, locked: true }, 0i32)
}

/// Runs one attach against the model; `accepted` is the kernel
/// checker's verdict on the program.
pub fn apply_attach(st: FilterState, prog: &Prog, accepted: bool) -> (r: (FilterState, i32))
    ensures
        r == attach_step(st, prog@, accepted),
{
    if st.locked {
        (st, -1)
    } else if accepted {
        (FilterState { installed: true, locked: st.locked }, 0)
    } else {
        (st, -1)
    }
}

/// Runs one detach against the model.
pub fn apply_detach(st: FilterState) -> (r: (FilterState, i32))
    ensures
        r == detach_step(st),
{
    if st.locked {
        (st, -1)
    } else {
        (FilterState { installed: false, locked: st.locked }, 0)
    }
}

/// Runs one lock against the model.
pub fn apply_lock(st: FilterState) -> (r: (FilterState, i32))
    ensures
        r == lock_step(st),
{
    (FilterState { installed: st.installed, locked: true }, 0)
}

/// Law: attach followed by detach on the same socket, with no
/// intervening lock, both succeed on a supporting platform — for a
/// valid open descriptor and a program the kernel's checker accepts.
pub proof fn lemma_attach_then_detach_succeeds(st: FilterState, prog: Seq<Op>)
    requires
        !st.locked,
    ensures
        ({
            let (attached, attach_ret) = attach_step(st, prog, true);
            let (detached, detach_ret) = detach_step(attached);
            attach_ret == 0 && detach_ret == 0
        }),
{
}

/// Law: once a socket's filter options are locked, both attach and
/// detach on that socket fail with an OS call failure, whatever
/// program is offered and whatever the kernel's checker would have
/// said of it.
pub proof fn lemma_lock_then_attach_or_detach_fails(
    st: FilterState,
    prog: Seq<Op>,
    accepted: bool,
    os_error: i32,
)
    ensures
        ({
            let (locked_st, lock_ret) = lock_step(st);
            let (after_attach, attach_ret) = attach_step(locked_st, prog, accepted);
            let (after_detach, detach_ret) = detach_step(locked_st);
            lock_ret == 0 && attach_ret != 0 && detach_ret != 0 && outcome_of(attach_ret, os_error)
                == Err::<(), FilterError>(FilterError::OsCall(os_error)) && outcome_of(
                detach_ret,
                os_error,
            ) == Err::<(), FilterError>(FilterError::OsCall(os_error))
        }),
{
}

/// Law: no operation clears the lock — from a locked state, attach,
/// detach and lock all leave the socket locked.
pub proof fn lemma_lock_is_irreversible(st: FilterState, prog: Seq<Op>, accepted: bool)
    requires
        st.locked,
    ensures
        attach_step(st, prog, accepted).0.locked,
        detach_step(st).0.locked,
        lock_step(st).0.locked,
{
}

/// Law: the answer to an attach never depends on which instructions
/// the program holds — a program built from zero operations is treated
/// exactly like any other; only the lock state and the kernel
/// checker's own verdict decide.
pub proof fn lemma_attach_ignores_instructions(
    st: FilterState,
    p: Seq<Op>,
    q: Seq<Op>,
    accepted: bool,
)
    ensures
        attach_step(st, p, accepted) == attach_step(st, q, accepted),
{
}

} // verus!
