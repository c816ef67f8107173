use vstd::prelude::*;

verus! {

/// Snapshot of the non-volatile register set, the stack pointer and the
/// resume address of a suspended task. A task's snapshot is written when the
/// scheduler switches it out and is consumed, exactly once, when the
/// scheduler switches it back in; while a task is current its snapshot is
/// stale.
#[derive(Debug, Clone, Copy, PartialEq, Eq, Structural)]
pub struct Jmpbuf {
    pub rbx: u64,
    pub rbp: u64,
    pub r12: u64,
    pub r13: u64,
    pub r14: u64,
    pub r15: u64,
    pub rsp: u64,
    pub rip: u64,
    pub rsi: u64,
}

impl Jmpbuf {
    /// An all-zero snapshot, the state a task record starts from before its
    /// first switch-out fills it.
    pub fn new() -> (r: Jmpbuf)
        ensures
            r == Jmpbuf::blank(),
    {
        Jmpbuf {
            rbx: 0,
            rbp: 0,
            r12: 0,
            r13: 0,
            r14: 0,
            r15: 0,
            rsp: 0,
            rip: 0,
            rsi: 0,
        }
    }

    /// The all-zero snapshot.
    pub open spec fn blank() -> Jmpbuf {
        Jmpbuf { rbx: 0, rbp: 0, r12: 0, r13: 0, r14: 0, r15: 0, rsp: 0, rip: 0, rsi: 0 }
    }
}

} // verus!
