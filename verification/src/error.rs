use vstd::prelude::*;

verus! {

/// The one kind of error this crate reports.
///
/// Building an [`Op`](crate::Op) or a [`Prog`](crate::Prog) is pure data
/// assembly and cannot fail; the only thing that can go wrong is the
/// system call behind attach, detach or lock. A failed call is surfaced
/// as `OsCall` carrying the platform's error code, exactly as the
/// operating system reported it.
#[derive(Clone, Copy, Debug, PartialEq, Eq, Structural)]
pub enum FilterError {
    /// The socket-option system call reported failure; the payload is
    /// the OS error code recorded at that moment.
    OsCall(i32),
}

impl FilterError {
    /// The OS error code this error carries.
    pub fn code(&self) -> (r: i32)
        ensures
            self == FilterError::OsCall(r),
    {
        match self {
            FilterError::OsCall(c) => *c,
        }
    }
}

} // verus!
