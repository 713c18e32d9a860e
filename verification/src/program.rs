use vstd::prelude::*;

verus! {

/// One filter instruction, in the kernel's binary shape.
///
/// The fields mirror the kernel's instruction record bit for bit:
/// a 16-bit operation selector `code`, the 8-bit jump offsets `jt` and
/// `jf` taken when a conditional instruction is true or false, and the
/// 32-bit immediate argument `k`. A value is immutable once built and
/// owns no external resource.
#[derive(Clone, Copy, Debug, PartialEq, Eq, Structural)]
pub struct Op {
    /// The operation selector: what this instruction does.
    pub code: u16,
    /// Jump offset taken when the condition holds.
    pub jt: u8,
    /// Jump offset taken when the condition does not hold.
    pub jf: u8,
    /// Immediate argument; its meaning depends on `code`.
    pub k: u32,
}

/// The instruction an `(code, jt, jf, k)` tuple stands for.
pub open spec fn op_of(t: (u16, u8, u8, u32)) -> Op {
    Op { code: t.0, jt: t.1, jf: t.2, k: t.3 }
}

impl Op {
    /// Builds the instruction with exactly the given fields.
    pub fn new(code: u16, jt: u8, jf: u8, k: u32) -> (r: Op)
        ensures
            r == (Op { code, jt, jf, k }),
    {
        Op { code, jt, jf, k }
    }
}

/// A complete filter program: an ordered sequence of instructions.
///
/// A `Prog` is the sole owner of its instructions' backing storage; the
/// storage lives exactly as long as the `Prog` value and nothing mutates
/// it after construction, so a length/pointer pair derived from it stays
/// valid for the duration of a system call that consumes the program by
/// value. The view of a `Prog` is the sequence of its instructions, and
/// its recorded length always equals that sequence's length.
#[derive(Debug)]
pub struct Prog {
    ops: Vec<Op>,
}

impl View for Prog {
    type V = Seq<Op>;

    closed spec fn view(&self) -> Seq<Op> {
        self.ops@
    }
}

impl Prog {
    /// Takes ownership of the given instructions and records them, in
    /// order, as the program. Construction never fails and performs no
    /// semantic validation: instruction selectors, jump targets and
    /// program length are checked only by the kernel, at attach time.
    pub fn new(ops: Vec<Op>) -> (r: Prog)
        ensures
            r@ == ops@,
    {
        Prog { ops }
    }

    /// The number of instructions in the program.
    pub fn len(&self) -> (r: usize)
        ensures
            r == self@.len(),
    {
        self.ops.len()
    }

    /// The program's instructions, in order.
    pub fn ops(&self) -> (r: &Vec<Op>)
        ensures
            r@ == self@,
    {
        &self.ops
    }
}

/// Builds a [`Prog`] from a flat list of `(code, jt, jf, k)` tuples.
///
/// `count` is an advisory size hint used only to pre-allocate; it is
/// deliberately not validated against the number of tuples, and the
/// program's length is always exactly the number of tuples supplied.
pub fn bpfprog(count: usize, ops: Vec<(u16, u8, u8, u32)>) -> (r: Prog)
    ensures
        r@.len() == ops@.len(),
        forall|i: int| 0 <= i < ops@.len() ==> r@[i] == op_of(ops@[i]),
{
    let mut built: Vec<Op> = Vec::with_capacity(count);
    let mut i: usize = 0;
    while i < ops.len()
        invariant
            i <= ops@.len(),
            built@.len() == i,
            forall|j: int| 0 <= j < i ==> built@[j] == op_of(ops@[j]),
        decreases ops@.len() - i,
    {
        let t = ops[i];
        built.push(Op::new(t.0, t.1, t.2, t.3));
        i = i + 1;
    }
    Prog::new(built)
}

} // verus!
