use vstd::prelude::*;

use crate::error::FilterError;

verus! {

/// The null variant's filter instruction.
///
/// On a platform without the kernel filter facility this type mirrors
/// the real instruction field for field, so that the same caller code
/// builds against either variant; no value of it ever reaches an
/// operating system.
#[derive(Clone, Copy, Debug, PartialEq, Eq, Structural)]
pub struct Op {
    /// The operation selector: what this instruction would do.
    pub code: u16,
    /// Jump offset taken when the condition holds.
    pub jt: u8,
    /// Jump offset taken when the condition does not hold.
    pub jf: u8,
    /// Immediate argument; its meaning depends on `code`.
    pub k: u32,
}

impl Op {
    /// Builds the instruction with exactly the given fields.
    pub fn new(code: u16, jt: u8, jf: u8, k: u32) -> (r: Op)
        ensures
            r == (Op { code, jt, jf, k }),
    {
        Op { code, jt, jf, k }
    }
}

/// The null variant's program: it carries no program state at all.
///
/// Construction accepts and discards the supplied operations, so every
/// program of this variant is equal to every other.
#[derive(Clone, Copy, Debug, PartialEq, Eq, Structural, Default)]
pub struct Prog {}

impl Prog {
    /// Accepts the given instructions and discards them.
    pub fn new(ops: Vec<Op>) -> (r: Prog)
        ensures
            r == (Prog {  }),
    {
        let _ = ops;
        Prog {  }
    }
}

/// Accepts a size hint and a flat list of `(code, jt, jf, k)` tuples,
/// as the supporting variant's builder does, and discards them all.
pub fn bpfprog(count: usize, ops: Vec<(u16, u8, u8, u32)>) -> (r: Prog)
    ensures
        r == (Prog {  }),
{
    let _ = count;
    let _ = ops;
    Prog {  }
}

/// Attach on a platform without the kernel filter facility: contacts
/// no operating system and succeeds unconditionally, for any
/// descriptor value and any program — a program built from zero
/// operations included.
pub fn attach_filter(fd: i32, prog: Prog) -> (r: Result<(), FilterError>)
    ensures
        r == Ok::<(), FilterError>(()),
{
    let _ = fd;
    let _ = prog;
    Ok(())
}

/// Detach on a platform without the kernel filter facility: contacts
/// no operating system and succeeds unconditionally, for any
/// descriptor value.
pub fn detach_filter(fd: i32) -> (r: Result<(), FilterError>)
    ensures
        r == Ok::<(), FilterError>(()),
{
    let _ = fd;
    Ok(())
}

/// Lock on a platform without the kernel filter facility: contacts no
/// operating system and succeeds unconditionally, for any descriptor
/// value.
pub fn lock_filter(fd: i32) -> (r: Result<(), FilterError>)
    ensures
        r == Ok::<(), FilterError>(()),
{
    let _ = fd;
    Ok(())
}

} // verus!
