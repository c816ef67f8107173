use vstd::prelude::*;
use crate::context::Jmpbuf;

verus! {

/// Why a blocked task was resumed from a rendezvous wait.
#[derive(Debug, Clone, Copy, PartialEq, Eq, Structural)]
pub enum WakeType {
    /// The peer acknowledged an accept-ready server and delivered the
    /// connection.
    WakeConnection,
    /// The server popped this client from the port queue and is now
    /// actively accepting.
    WakeServerReady,
    /// A child process exited with the given code.
    WakeProcessExited { code: u64 },
    /// The server completed the rendezvous for this client.
    WakeResponded,
}

/// A wake notice: the reason together with the pid of the task that wrote
/// it. `is_cross_task_call` marks wakes delivered on behalf of another
/// address space.
#[derive(Debug, Clone, Copy, PartialEq, Eq, Structural)]
pub struct Wakeop {
    pub wake_type: WakeType,
    pub waker: u64,
    pub is_cross_task_call: bool,
}

/// One operation of the syscall surface, with the user-memory operands
/// already copied across the trap boundary: the trampoline validates and
/// copies raw pointers, the dispatcher only ever sees owned values.
#[derive(Debug, Clone)]
pub enum Syscall {
    /// Never returns to the caller; the task yields forever.
    Exit,
    /// Replaces transfer buffer A with a fresh copy of the given bytes.
    BindBuffer(Vec<u8>),
    /// Returns the length of transfer buffer A, 0 when empty.
    BufferLen,
    /// Copies transfer buffer A out to the caller; returns the length.
    ReadBuffer,
    /// Exchanges transfer buffers A and B.
    SwapBuffers,
    /// Sends the buffers to the named port (or invokes a privileged
    /// service) and waits for the response.
    Send(Vec<u8>),
    /// Registers (or re-registers) a port under the given name.
    Listen(Vec<u8>),
    /// Accepts one connection on the named port.
    Accept(Vec<u8>),
    /// Spawns a new task from the program whose path is in buffer A.
    Exec,
    /// Completes the rendezvous for the task currently being served.
    Respond,
    /// Appends the given bytes to the kernel log.
    Klog(Vec<u8>),
    /// Grows the program break by the given number of bytes.
    Sbrk(u64),
    /// Any other syscall number: answered with the error sentinel.
    Unknown(u64),
}

/// Where a task stands between two scheduler slices. A task inside a
/// blocking syscall records which wait point it sits at, so that the next
/// slice re-checks the wait condition and either proceeds or yields again
/// (the spin-yield discipline: blocked tasks are still scheduled).
#[derive(Debug, Clone)]
pub enum RunState {
    /// In user mode; the next slice starts the next operation of the
    /// task's program.
    Ready,
    /// Client inside `send`, enqueued, waiting to be popped by an
    /// accepting server (`WakeServerReady`).
    SendWaitReady { name: Vec<u8> },
    /// Client inside `send`, acknowledged the active server, waiting for
    /// the connection (`WakeConnection`).
    SendWaitConn { name: Vec<u8> },
    /// Client inside `send`, buffers handed over, waiting for the
    /// response (`WakeResponded`).
    SendWaitResp { name: Vec<u8> },
    /// Server inside `accept`, spinning: drains the port queue when a
    /// client is waiting, else waits for a connection.
    AcceptWaitConn { name: Vec<u8> },
    /// Server inside `accept`, one client popped and acknowledged with
    /// `WakeServerReady`, waiting for that client's `WakeConnection`.
    AcceptPaired,
    /// Server inside `accept`, connection recorded, yielding once so the
    /// client can hand its buffers over before `accept` returns.
    AcceptFinish,
    /// Server inside `respond`, yielding once so the client can observe
    /// the wake.
    RespondYield,
    /// Inside `sbrk`, mapping one fresh page per slice up to `new_break`.
    SbrkMap { new_break: u64, next_page: u64 },
    /// The task called `exit`: it yields forever (no reaping exists).
    ExitLoop,
    /// The task's program is exhausted.
    Done,
}

/// One schedulable execution context.
#[derive(Debug)]
pub struct Task {
    /// Register snapshot, valid only while the task is not current.
    pub state: Jmpbuf,
    /// Stack pointer loaded into the privileged interrupt stack slot
    /// when the task becomes current.
    pub rsp0: u64,
    /// Stack pointer loaded into the syscall-entry stack cell whenever
    /// the task becomes current.
    pub rsp_ptr: u64,
    /// Unique identifier.
    pub pid: u64,
    /// Transfer buffer A: empty, or one exclusively owned region.
    pub box1: Option<Vec<u8>>,
    /// Transfer buffer B: empty, or one exclusively owned region.
    pub box2: Option<Vec<u8>>,
    /// Highest mapped heap address; only ever advances.
    pub program_break: u64,
    /// The last wake notice delivered to the task, if any.
    pub wakeop: Option<Wakeop>,
    /// True while the task spin-waits for a wake notice.
    pub needs_wake: bool,
    /// Isolation tag; carried but not enforced by this core.
    pub uid: i64,
    /// While serving an accepted connection: the client pid to respond to.
    pub responding_to: u64,
    /// Wait point the task currently sits at.
    pub run: RunState,
    /// The task's user program, as the operations it will trap with.
    pub program: Vec<Syscall>,
    /// Index of the next operation of `program`.
    pub pc: usize,
    /// Return values of the completed operations, in program order.
    pub rets: Vec<u64>,
}

impl Task {
    /// The buffer pair as mathematical values.
    pub open spec fn bufs(&self) -> (Option<Seq<u8>>, Option<Seq<u8>>) {
        (buf_view(self.box1), buf_view(self.box2))
    }
}

/// A syscall operation as a mathematical value: payload bytes as
/// sequences.
pub ghost enum SysV {
    Exit,
    BindBuffer(Seq<u8>),
    BufferLen,
    ReadBuffer,
    SwapBuffers,
    Send(Seq<u8>),
    Listen(Seq<u8>),
    Accept(Seq<u8>),
    Exec,
    Respond,
    Klog(Seq<u8>),
    Sbrk(u64),
    Unknown(u64),
}

/// The mathematical value of a syscall operation.
pub open spec fn sys_view(s: Syscall) -> SysV {
    match s {
        Syscall::Exit => SysV::Exit,
        Syscall::BindBuffer(d) => SysV::BindBuffer(d@),
        Syscall::BufferLen => SysV::BufferLen,
        Syscall::ReadBuffer => SysV::ReadBuffer,
        Syscall::SwapBuffers => SysV::SwapBuffers,
        Syscall::Send(n) => SysV::Send(n@),
        Syscall::Listen(n) => SysV::Listen(n@),
        Syscall::Accept(n) => SysV::Accept(n@),
        Syscall::Exec => SysV::Exec,
        Syscall::Respond => SysV::Respond,
        Syscall::Klog(d) => SysV::Klog(d@),
        Syscall::Sbrk(n) => SysV::Sbrk(n),
        Syscall::Unknown(n) => SysV::Unknown(n),
    }
}

/// A wait point as a mathematical value: port names as sequences.
pub ghost enum RunV {
    Ready,
    SendWaitReady { name: Seq<u8> },
    SendWaitConn { name: Seq<u8> },
    SendWaitResp { name: Seq<u8> },
    AcceptWaitConn { name: Seq<u8> },
    AcceptPaired,
    AcceptFinish,
    RespondYield,
    SbrkMap { new_break: u64, next_page: u64 },
    ExitLoop,
    Done,
}

/// The mathematical value of a wait point.
pub open spec fn run_view(r: RunState) -> RunV {
    match r {
        RunState::Ready => RunV::Ready,
        RunState::SendWaitReady { name } => RunV::SendWaitReady { name: name@ },
        RunState::SendWaitConn { name } => RunV::SendWaitConn { name: name@ },
        RunState::SendWaitResp { name } => RunV::SendWaitResp { name: name@ },
        RunState::AcceptWaitConn { name } => RunV::AcceptWaitConn { name: name@ },
        RunState::AcceptPaired => RunV::AcceptPaired,
        RunState::AcceptFinish => RunV::AcceptFinish,
        RunState::RespondYield => RunV::RespondYield,
        RunState::SbrkMap { new_break, next_page } => RunV::SbrkMap { new_break, next_page },
        RunState::ExitLoop => RunV::ExitLoop,
        RunState::Done => RunV::Done,
    }
}

/// Copies a byte vector; the copy holds exactly the same bytes.
pub fn clone_bytes(v: &Vec<u8>) -> (r: Vec<u8>)
    ensures
        r@ == v@,
{
    let r = v.clone();
    proof {
        assert(r@ =~= v@);
    }
    r
}

/// Copies a vector of numbers.
pub fn clone_bytes_u64(v: &Vec<u64>) -> (r: Vec<u64>)
    ensures
        r@ == v@,
{
    let r = v.clone();
    proof {
        assert(r@ =~= v@);
    }
    r
}

/// Copies a wait point; the copy has the same mathematical value.
pub fn dup_run(r: &RunState) -> (r2: RunState)
    ensures
        run_view(r2) == run_view(*r),
{
    match r {
        RunState::Ready => RunState::Ready,
        RunState::SendWaitReady { name } => RunState::SendWaitReady { name: clone_bytes(name) },
        RunState::SendWaitConn { name } => RunState::SendWaitConn { name: clone_bytes(name) },
        RunState::SendWaitResp { name } => RunState::SendWaitResp { name: clone_bytes(name) },
        RunState::AcceptWaitConn { name } => RunState::AcceptWaitConn { name: clone_bytes(name) },
        RunState::AcceptPaired => RunState::AcceptPaired,
        RunState::AcceptFinish => RunState::AcceptFinish,
        RunState::RespondYield => RunState::RespondYield,
        RunState::SbrkMap { new_break, next_page } => RunState::SbrkMap {
            new_break: *new_break,
            next_page: *next_page,
        },
        RunState::ExitLoop => RunState::ExitLoop,
        RunState::Done => RunState::Done,
    }
}

/// Copies a syscall operation; the copy has the same mathematical value.
pub fn dup_syscall(s: &Syscall) -> (r: Syscall)
    ensures
        sys_view(r) == sys_view(*s),
{
    match s {
        Syscall::Exit => Syscall::Exit,
        Syscall::BindBuffer(d) => Syscall::BindBuffer(clone_bytes(d)),
        Syscall::BufferLen => Syscall::BufferLen,
        Syscall::ReadBuffer => Syscall::ReadBuffer,
        Syscall::SwapBuffers => Syscall::SwapBuffers,
        Syscall::Send(n) => Syscall::Send(clone_bytes(n)),
        Syscall::Listen(n) => Syscall::Listen(clone_bytes(n)),
        Syscall::Accept(n) => Syscall::Accept(clone_bytes(n)),
        Syscall::Exec => Syscall::Exec,
        Syscall::Respond => Syscall::Respond,
        Syscall::Klog(d) => Syscall::Klog(clone_bytes(d)),
        Syscall::Sbrk(n) => Syscall::Sbrk(*n),
        Syscall::Unknown(n) => Syscall::Unknown(*n),
    }
}

/// A transfer buffer slot as a mathematical value.
pub open spec fn buf_view(b: Option<Vec<u8>>) -> Option<Seq<u8>> {
    match b {
        Some(v) => Some(v@),
        None => None,
    }
}

/// Effect of `swap_buffers` on a buffer pair.
pub open spec fn swap_spec(p: (Option<Seq<u8>>, Option<Seq<u8>>)) -> (
    Option<Seq<u8>>,
    Option<Seq<u8>>,
) {
    (p.1, p.0)
}

/// Effect of `bind_buffer` on a buffer pair: slot A is freed and replaced
/// by the bound bytes, slot B is untouched.
pub open spec fn bind_spec(p: (Option<Seq<u8>>, Option<Seq<u8>>), data: Seq<u8>) -> (
    Option<Seq<u8>>,
    Option<Seq<u8>>,
) {
    (Some(data), p.1)
}

/// What `read_buffer` hands back: the bytes of slot A, empty when the slot
/// is empty.
pub open spec fn read_spec(p: (Option<Seq<u8>>, Option<Seq<u8>>)) -> Seq<u8> {
    match p.0 {
        Some(s) => s,
        None => Seq::empty(),
    }
}

/// What `buffer_len` returns.
pub open spec fn len_spec(p: (Option<Seq<u8>>, Option<Seq<u8>>)) -> nat {
    match p.0 {
        Some(s) => s.len(),
        None => 0,
    }
}

/// Swapping the buffer pair twice restores the original pairing.
pub proof fn lemma_swap_involution(p: (Option<Seq<u8>>, Option<Seq<u8>>))
    ensures
        swap_spec(swap_spec(p)) == p,
{
}

/// Binding bytes and then reading them back reproduces exactly the bound
/// bytes, and the reported length is the bound length, whatever the
/// buffers held before.
pub proof fn lemma_bind_then_read(p: (Option<Seq<u8>>, Option<Seq<u8>>), data: Seq<u8>)
    ensures
        read_spec(bind_spec(p, data)) == data,
        len_spec(bind_spec(p, data)) == data.len(),
{
}

} // verus!
