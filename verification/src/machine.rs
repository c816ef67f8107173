use vstd::prelude::*;
use crate::kernel::{Kernel, INTERRUPT_STACK_SIZE, SYSCALL_STACK_SIZE};
use crate::ksvc::{dofs_effect, kfs_name, ksvc_effect, ksvc_has};
use crate::rendezvous::{
    accept_entry_effect, accept_finish_effect, accept_paired_effect, accept_wait_effect,
    respond_entry_effect, respond_yield_effect, send_entry_effect, send_wait_conn_effect,
    send_wait_ready_effect, send_wait_resp_effect,
};
use crate::syscall::{faulted_same, tasks_match_except, Action};
use crate::task::{
    buf_view, dup_syscall, len_spec, run_view, sys_view, RunState, RunV, Syscall, SysV, Task,
};
use crate::USER_SPLIT;

verus! {

/// The all-ones answer to a syscall number the dispatcher does not know.
pub const BAD_SYSCALL: u64 = 0xFFFFFFFFFFFFFFFF;

/// Stack bytes a freshly spawned task consumes: one interrupt-entry stack
/// and one syscall-entry stack.
pub const SPAWN_STACK_SIZE: u64 = 36864;

/// Effect of `exit`: the task becomes a perpetual yielder. No process
/// reaping exists; the record stays in the store.
#[verifier::opaque]
pub open spec fn exit_effect(pre: Kernel, post: Kernel) -> bool {
    let c = pre.cur as int;
    let t0 = pre.tasks@[c];
    &&& !post.fault
    &&& tasks_match_except(pre.tasks@, post.tasks@, c)
    &&& post.tasks@[c] == (Task { run: post.tasks@[c].run, ..t0 })
    &&& run_view(post.tasks@[c].run) == RunV::ExitLoop
    &&& post == (Kernel { tasks: post.tasks, ..pre })
}

/// Effect of running out of program: the task is done and only yields.
#[verifier::opaque]
pub open spec fn mark_done_effect(pre: Kernel, post: Kernel) -> bool {
    let c = pre.cur as int;
    let t0 = pre.tasks@[c];
    &&& !post.fault
    &&& tasks_match_except(pre.tasks@, post.tasks@, c)
    &&& post.tasks@[c] == (Task { run: post.tasks@[c].run, ..t0 })
    &&& run_view(post.tasks@[c].run) == RunV::Done
    &&& post == (Kernel { tasks: post.tasks, ..pre })
}

/// Effect of `bind_buffer` on the machine: slot A of the current task is
/// freed and replaced by the caller's bytes.
#[verifier::opaque]
pub open spec fn bind_effect(pre: Kernel, post: Kernel, data: Seq<u8>) -> bool {
    let c = pre.cur as int;
    let t0 = pre.tasks@[c];
    &&& !post.fault
    &&& tasks_match_except(pre.tasks@, post.tasks@, c)
    &&& post.tasks@[c] == (Task { box1: post.tasks@[c].box1, ..t0 })
    &&& buf_view(post.tasks@[c].box1) == Some(data)
    &&& post == (Kernel { tasks: post.tasks, ..pre })
}

/// Effect of `swap_buffers` on the machine: the current task's slots
/// exchange owners.
#[verifier::opaque]
pub open spec fn machine_swap_effect(pre: Kernel, post: Kernel) -> bool {
    let c = pre.cur as int;
    let t0 = pre.tasks@[c];
    &&& !post.fault
    &&& tasks_match_except(pre.tasks@, post.tasks@, c)
    &&& post.tasks@[c] == (Task { box1: t0.box2, box2: t0.box1, ..t0 })
    &&& post == (Kernel { tasks: post.tasks, ..pre })
}

/// Effect of `klog`: the bytes land at the end of the kernel log.
#[verifier::opaque]
pub open spec fn klog_effect(pre: Kernel, post: Kernel, data: Seq<u8>) -> bool {
    &&& !post.fault
    &&& post.klog@ == pre.klog@ + data
    &&& post == (Kernel { klog: post.klog, ..pre })
}

/// Effect of `listen`: the port registry holds the name, bound to a fresh
/// inactive port owned by the current task; re-registering replaces the
/// port in place, anything else appends it.
#[verifier::opaque]
pub open spec fn listen_effect(pre: Kernel, post: Kernel, name: Seq<u8>) -> bool {
    &&& !post.fault
    &&& post.tasks@ == pre.tasks@
    &&& post == (Kernel { ports: post.ports, ..pre })
    &&& crate::ports::has_port(post.ports@, name)
    &&& ({
        let i = crate::ports::port_at(post.ports@, name);
        &&& post.ports@[i].0@ == name
        &&& post.ports@[i].1.pid == pre.tasks@[pre.cur as int].pid
        &&& !post.ports@[i].1.is_active
        &&& post.ports@[i].1.activate_pids@ == Seq::<u64>::empty()
        &&& if crate::ports::has_port(pre.ports@, name) {
            i == crate::ports::port_at(pre.ports@, name) && post.ports@ == pre.ports@.update(
                i,
                post.ports@[i],
            )
        } else {
            i == pre.ports@.len() && post.ports@ == pre.ports@.push(post.ports@[i])
        }
    })
}

/// Effect of entering `sbrk`: the break advances to the requested size
/// rounded up to the page granularity, and the task starts mapping the new
/// pages, one per scheduler slice, from the first page boundary at or
/// above the old break. An overflowing request is fatal.
#[verifier::opaque]
pub open spec fn sbrk_entry_effect(pre: Kernel, post: Kernel, len: u64, done: Option<u64>) -> bool {
    let c = pre.cur as int;
    let t0 = pre.tasks@[c];
    if t0.program_break + len + 4095 > u64::MAX {
        done is None && faulted_same(pre, post)
    } else {
        let nb = ((t0.program_break + len + 4095) / 4096) * 4096;
        let np = ((t0.program_break + 4095) / 4096) * 4096;
        &&& done is None
        &&& !post.fault
        &&& tasks_match_except(pre.tasks@, post.tasks@, c)
        &&& post.tasks@[c] == (Task {
            program_break: nb as u64,
            run: post.tasks@[c].run,
            ..t0
        })
        &&& run_view(post.tasks@[c].run) == (RunV::SbrkMap {
            new_break: nb as u64,
            next_page: np as u64,
        })
        &&& post == (Kernel { tasks: post.tasks, ..pre })
    }
}

/// Effect of one `sbrk` mapping slice: one fresh zero frame is requested
/// from the gateway for the next page, or, once every page is mapped, the
/// syscall returns the new break. A page below the kernel/user split is
/// fatal.
#[verifier::opaque]
pub open spec fn sbrk_map_effect(
    pre: Kernel,
    post: Kernel,
    nb: u64,
    np: u64,
    acts0: Seq<Action>,
    acts1: Seq<Action>,
) -> bool {
    let c = pre.cur as int;
    let t0 = pre.tasks@[c];
    if np < nb {
        if np < USER_SPLIT || np > u64::MAX - 4096 {
            faulted_same(pre, post) && acts1 == acts0
        } else {
            &&& !post.fault
            &&& acts1 == acts0.push(Action::MapPage { virt: np })
            &&& tasks_match_except(pre.tasks@, post.tasks@, c)
            &&& post.tasks@[c] == (Task { run: post.tasks@[c].run, ..t0 })
            &&& run_view(post.tasks@[c].run) == (RunV::SbrkMap {
                new_break: nb,
                next_page: (np + 4096) as u64,
            })
            &&& post == (Kernel { tasks: post.tasks, ..pre })
        }
    } else {
        &&& !post.fault
        &&& acts1 == acts0
        &&& tasks_match_except(pre.tasks@, post.tasks@, c)
        &&& post.tasks@[c] == (Task {
            run: post.tasks@[c].run,
            rets: post.tasks@[c].rets,
            ..t0
        })
        &&& post.tasks@[c].rets@ == t0.rets@.push(nb)
        &&& run_view(post.tasks@[c].run) == RunV::Ready
        &&& post == (Kernel { tasks: post.tasks, ..pre })
    }
}

/// Effect of `exec`: the bytes of transfer buffer A name the program; both
/// of the caller's buffers are released, buffer B surviving as the new
/// task's initial buffer A. A fresh task record is enqueued with a new
/// pid and fresh kernel stacks, and the program loader is asked to load
/// the image into it. Calling `exec` with no bound path, or exhausting
/// pids or stack space, is fatal.
#[verifier::opaque]
pub open spec fn exec_entry_effect(
    pre: Kernel,
    post: Kernel,
    acts0: Seq<Action>,
    acts1: Seq<Action>,
    done: Option<u64>,
) -> bool {
    let c = pre.cur as int;
    let t0 = pre.tasks@[c];
    if t0.box1 is None || pre.next_pid == u64::MAX || pre.stacks_top + SPAWN_STACK_SIZE
        > u64::MAX {
        done is None && faulted_same(pre, post) && acts1 == acts0
    } else {
        let n = pre.tasks@.len() as int;
        let fresh = post.tasks@[n];
        &&& done == Some(0u64)
        &&& !post.fault
        &&& acts1 == acts0.push(Action::ExecRequest { path: t0.box1->Some_0 })
        &&& post.tasks@.len() == n + 1
        &&& (forall|k: int| 0 <= k < n && k != c ==> post.tasks@[k] == pre.tasks@[k])
        &&& post.tasks@[c] == (Task { box1: None, box2: None, ..t0 })
        &&& fresh.pid == pre.next_pid + 1
        &&& fresh.box1 == t0.box2
        &&& fresh.box2 is None
        &&& fresh.program_break == 0
        &&& fresh.wakeop is None
        &&& !fresh.needs_wake
        &&& fresh.responding_to == 0
        &&& run_view(fresh.run) == RunV::Ready
        &&& fresh.program@ == Seq::<Syscall>::empty()
        &&& fresh.pc == 0
        &&& fresh.rets@ == Seq::<u64>::empty()
        &&& fresh.state == crate::context::Jmpbuf::blank()
        &&& fresh.rsp0 == pre.stacks_top + INTERRUPT_STACK_SIZE
        &&& fresh.rsp_ptr == pre.stacks_top + SPAWN_STACK_SIZE
        &&& post.next_pid == pre.next_pid + 1
        &&& post.stacks_top == pre.stacks_top + SPAWN_STACK_SIZE
        &&& post.canaries@.len() == pre.canaries@.len() + 1
        &&& post.canaries@.subrange(0, pre.canaries@.len() as int) == pre.canaries@
        &&& post.canaries@.last().0 == pre.stacks_top + INTERRUPT_STACK_SIZE
        &&& post.canaries@.last().2 == SYSCALL_STACK_SIZE
        &&& post == (Kernel {
            tasks: post.tasks,
            next_pid: post.next_pid,
            stacks_top: post.stacks_top,
            canaries: post.canaries,
            ..pre
        })
    }
}

/// What the dispatcher does for each operation: the routing table of the
/// syscall surface. `done` carries the result when the operation completes
/// within the slice; a blocking operation leaves the task at a wait point
/// and completes in a later slice.
#[verifier::opaque]
pub open spec fn dispatch_effect(
    pre: Kernel,
    post: Kernel,
    op: SysV,
    acts0: Seq<Action>,
    acts1: Seq<Action>,
    done: Option<u64>,
) -> bool {
    let c = pre.cur as int;
    let t0 = pre.tasks@[c];
    match op {
        SysV::Exit => done is None && exit_effect(pre, post) && acts1 == acts0,
        SysV::BindBuffer(d) => done == Some(0u64) && bind_effect(pre, post, d) && acts1 == acts0,
        SysV::BufferLen => done == Some(len_spec(t0.bufs()) as u64) && post == pre && acts1
            == acts0,
        SysV::ReadBuffer => done == Some(len_spec(t0.bufs()) as u64) && post == pre && acts1
            == acts0,
        SysV::SwapBuffers => done == Some(0u64) && machine_swap_effect(pre, post) && acts1
            == acts0,
        SysV::Send(n) => if n == kfs_name() {
            done == Some(0u64) && dofs_effect(pre, post) && acts1 == acts0
        } else if ksvc_has(pre.ksvc_names@, n) {
            done == Some(0u64) && ksvc_effect(pre, post, n, acts0, acts1)
        } else {
            send_entry_effect(pre, post, n, done) && acts1 == acts0
        },
        SysV::Listen(n) => done == Some(0u64) && listen_effect(pre, post, n) && acts1 == acts0,
        SysV::Accept(n) => done is None && accept_entry_effect(pre, post, n) && acts1 == acts0,
        SysV::Exec => exec_entry_effect(pre, post, acts0, acts1, done),
        SysV::Respond => respond_entry_effect(pre, post, done) && acts1 == acts0,
        SysV::Klog(d) => done == Some(0u64) && klog_effect(pre, post, d) && acts1 == acts0,
        SysV::Sbrk(len) => sbrk_entry_effect(pre, post, len, done) && acts1 == acts0,
        SysV::Unknown(n) => done == Some(BAD_SYSCALL) && post == pre && acts1 == acts0,
    }
}

impl Kernel {
    /// The `exit` operation: the task yields forever from now on.
    pub fn op_exit(&mut self)
        requires
            old(self).wf(),
            !old(self).fault,
        ensures
            final(self).wf(),
            exit_effect(*old(self), *final(self)),
    {
        proof {
            reveal(crate::machine::exit_effect);
        }
        let c = self.cur;
        self.tasks[c].run = RunState::ExitLoop;
    }

    /// Starts `sbrk`: rounds the grown break up to the page granularity
    /// and begins mapping the new pages.
    pub fn op_sbrk_entry(&mut self, len: u64) -> (done: Option<u64>)
        requires
            old(self).wf(),
            !old(self).fault,
        ensures
            final(self).wf(),
            sbrk_entry_effect(*old(self), *final(self), len, done),
    {
        proof {
            reveal(crate::machine::sbrk_entry_effect);
        }
        let c = self.cur;
        let ob = self.tasks[c].program_break;
        let s = match ob.checked_add(len) {
            Some(s) => s,
            None => {
                self.fault = true;
                return None;
            },
        };
        let s = match s.checked_add(4095) {
            Some(s) => s,
            None => {
                self.fault = true;
                return None;
            },
        };
        let nb = (s / 4096) * 4096;
        let np = ((ob + 4095) / 4096) * 4096;
        self.tasks[c].program_break = nb;
        self.tasks[c].run = RunState::SbrkMap { new_break: nb, next_page: np };
        None
    }

    /// One `sbrk` mapping slice: maps the next page or returns the new
    /// break.
    pub fn resume_sbrk(&mut self, nb: u64, np: u64, acts: &mut Vec<Action>)
        requires
            old(self).wf(),
            !old(self).fault,
            run_view(old(self).tasks@[old(self).cur as int].run) == (RunV::SbrkMap {
                new_break: nb,
                next_page: np,
            }),
        ensures
            final(self).wf(),
            sbrk_map_effect(*old(self), *final(self), nb, np, old(acts)@, final(acts)@),
    {
        proof {
            reveal(crate::machine::sbrk_map_effect);
        }
        let c = self.cur;
        if np < nb {
            if np < USER_SPLIT || np > u64::MAX - 4096 {
                self.fault = true;
                return;
            }
            acts.push(Action::MapPage { virt: np });
            self.tasks[c].run = RunState::SbrkMap { new_break: nb, next_page: np + 4096 };
        } else {
            self.tasks[c].rets.push(nb);
            self.tasks[c].run = RunState::Ready;
        }
    }

    /// The `exec` operation: releases the caller's buffers, spawns the new
    /// task record (buffer B becomes its initial buffer A) and asks the
    /// loader to load the named program into it.
    pub fn op_exec_entry(&mut self, acts: &mut Vec<Action>) -> (done: Option<u64>)
        requires
            old(self).wf(),
            !old(self).fault,
        ensures
            final(self).wf(),
            exec_entry_effect(*old(self), *final(self), old(acts)@, final(acts)@, done),
    {
        proof {
            reveal(crate::machine::exec_entry_effect);
        }
        let c = self.cur;
        let has_path = match &self.tasks[c].box1 {
            Some(_) => true,
            None => false,
        };
        if !has_path || self.next_pid == u64::MAX || self.stacks_top > u64::MAX
            - SPAWN_STACK_SIZE {
            self.fault = true;
            return None;
        }
        let mut path: Option<Vec<u8>> = None;
        let mut ve: Option<Vec<u8>> = None;
        core::mem::swap(&mut path, &mut self.tasks[c].box1);
        core::mem::swap(&mut ve, &mut self.tasks[c].box2);
        let path = match path {
            Some(p) => p,
            None => unreached(),
        };
        let pid = self.mkpid();
        let rsp0 = self.alloc_stack(INTERRUPT_STACK_SIZE);
        let rsp_ptr = self.alloc_rsp_ptr(String::new());
        self.tasks.push(
            Task {
                state: crate::context::Jmpbuf::new(),
                rsp0,
                rsp_ptr,
                pid,
                box1: ve,
                box2: None,
                program_break: 0,
                wakeop: None,
                needs_wake: false,
                uid: -1,
                responding_to: 0,
                run: RunState::Ready,
                program: Vec::new(),
                pc: 0,
                rets: Vec::new(),
            },
        );
        acts.push(Action::ExecRequest { path });
        proof {
            assert(self.canaries@.subrange(0, old(self).canaries@.len() as int) =~= old(
                self,
            ).canaries@);
        }
        Some(0)
    }

    /// The syscall dispatcher: routes one trapped operation of the current
    /// task. The caller (the trap boundary) has already copied the
    /// user-memory operands across; the dispatcher answers `Some(result)`
    /// for an operation that completes at once and `None` for one that
    /// left the task at a wait point.
    pub fn syscall_handler(&mut self, op: Syscall, acts: &mut Vec<Action>) -> (done: Option<u64>)
        requires
            old(self).wf(),
            !old(self).fault,
        ensures
            final(self).wf(),
            dispatch_effect(
                *old(self),
                *final(self),
                sys_view(op),
                old(acts)@,
                final(acts)@,
                done,
            ),
    {
        proof {
            reveal(crate::machine::dispatch_effect);
            reveal(crate::machine::bind_effect);
            reveal(crate::machine::machine_swap_effect);
            reveal(crate::machine::klog_effect);
            reveal(crate::machine::listen_effect);
        }
        match op {
            Syscall::Exit => {
                self.op_exit();
                None
            },
            Syscall::BindBuffer(d) => Some(self.sys_bind_buffer(d)),
            Syscall::BufferLen => Some(self.sys_buffer_len()),
            Syscall::ReadBuffer => Some(self.sys_buffer_len()),
            Syscall::SwapBuffers => Some(self.sys_swap_buffers()),
            Syscall::Send(n) => {
                if crate::ports::bytes_eq(&n, &crate::ksvc::mk_kfs_name()) {
                    self.dofs();
                    return Some(0);
                }
                if crate::ksvc::ksvc_contains(&self.ksvc_names, &n) {
                    self.ksvc_invoke(&n, acts);
                    return Some(0);
                }
                self.op_send_entry(n)
            },
            Syscall::Listen(n) => Some(self.sys_listen(n)),
            Syscall::Accept(n) => self.op_accept_entry(n),
            Syscall::Exec => self.op_exec_entry(acts),
            Syscall::Respond => self.op_respond_entry(),
            Syscall::Klog(d) => Some(self.sys_klog(d)),
            Syscall::Sbrk(len) => self.op_sbrk_entry(len),
            Syscall::Unknown(_) => Some(BAD_SYSCALL),
        }
    }
}


/// The task sequence after a pc bump of the current task.
#[verifier::opaque]
pub open spec fn pc_bumped(pre: Kernel, mid: Kernel) -> bool {
    let c = pre.cur as int;
    let t0 = pre.tasks@[c];
    &&& tasks_match_except(pre.tasks@, mid.tasks@, c)
    &&& mid.tasks@[c] == (Task { pc: (t0.pc + 1) as usize, ..t0 })
    &&& mid == (Kernel { tasks: mid.tasks, ..pre })
}

/// The result of a completed operation lands in the current task's answer
/// list; a suspended operation records nothing yet.
#[verifier::opaque]
pub open spec fn ret_recorded(mid: Kernel, post: Kernel, done: Option<u64>) -> bool {
    match done {
        None => post == mid,
        Some(r) => {
            let c = mid.cur as int;
            let t = mid.tasks@[c];
            &&& tasks_match_except(mid.tasks@, post.tasks@, c)
            &&& post.tasks@[c] == (Task { rets: post.tasks@[c].rets, ..t })
            &&& post.tasks@[c].rets@ == t.rets@.push(r)
            &&& post == (Kernel { tasks: post.tasks, ..mid })
        },
    }
}

/// Effect of one slice of a task in user mode: the next operation of its
/// program is fetched (bumping the program counter), dispatched, and its
/// result recorded when it completes at once.
#[verifier::opaque]
pub open spec fn ready_slice_effect(pre: Kernel, post: Kernel, acts0: Seq<Action>, acts1: Seq<
    Action,
>) -> bool {
    let c = pre.cur as int;
    let t0 = pre.tasks@[c];
    if t0.pc >= t0.program@.len() {
        mark_done_effect(pre, post) && acts1 == acts0
    } else {
        exists|mid1: Kernel, mid2: Kernel, done: Option<u64>|
            {
                &&& pc_bumped(pre, mid1)
                &&& #[trigger] dispatch_effect(
                    mid1,
                    mid2,
                    sys_view(t0.program@[t0.pc as int]),
                    acts0,
                    acts1,
                    done,
                )
                &&& ret_recorded(mid2, post, done)
            }
    }
}

/// Effect of one scheduler slice of the current task, whatever it is
/// doing: a task in user mode runs its next operation, a blocked task
/// spins on its wait point, an exited or finished task just yields.
pub open spec fn slice_effect(pre: Kernel, post: Kernel, acts0: Seq<Action>, acts1: Seq<
    Action,
>) -> bool {
    let c = pre.cur as int;
    let t0 = pre.tasks@[c];
    match run_view(t0.run) {
        RunV::Ready => ready_slice_effect(pre, post, acts0, acts1),
        RunV::SendWaitReady { name } => send_wait_ready_effect(pre, post, name) && acts1
            == acts0,
        RunV::SendWaitConn { name } => send_wait_conn_effect(pre, post, name) && acts1 == acts0,
        RunV::SendWaitResp { name } => send_wait_resp_effect(pre, post, name) && acts1 == acts0,
        RunV::AcceptWaitConn { name } => accept_wait_effect(pre, post, name) && acts1 == acts0,
        RunV::AcceptPaired => accept_paired_effect(pre, post) && acts1 == acts0,
        RunV::AcceptFinish => accept_finish_effect(pre, post) && acts1 == acts0,
        RunV::RespondYield => respond_yield_effect(pre, post) && acts1 == acts0,
        RunV::SbrkMap { new_break, next_page } => sbrk_map_effect(
            pre,
            post,
            new_break,
            next_page,
            acts0,
            acts1,
        ),
        RunV::ExitLoop => post == pre && acts1 == acts0,
        RunV::Done => post == pre && acts1 == acts0,
    }
}

/// Exact effect of one round-robin scheduler step: the outgoing task's
/// live register state is snapshotted into its record, the cursor moves
/// one position (wrapping), and the incoming task's snapshot and stack
/// pointers become live.
pub open spec fn advance_effect(pre: Kernel, post: Kernel) -> bool {
    &&& post.cur == (pre.cur + 1) % (pre.tasks@.len() as int)
    &&& post.tasks@ == pre.tasks@.update(
        pre.cur as int,
        (Task { state: pre.live, ..pre.tasks@[pre.cur as int] }),
    )
    &&& post.live == post.tasks@[post.cur as int].state
    &&& post.rsp0_cell == post.tasks@[post.cur as int].rsp0
    &&& post.rsp_ptr_cell == post.tasks@[post.cur as int].rsp_ptr
    &&& post == (Kernel {
        tasks: post.tasks,
        cur: post.cur,
        live: post.live,
        rsp0_cell: post.rsp0_cell,
        rsp_ptr_cell: post.rsp_ptr_cell,
        ..pre
    })
}

/// Effect of one whole machine step: nothing on a faulted machine; else
/// one slice of the current task followed, unless the slice faulted, by
/// one scheduler step.
pub open spec fn step_effect(pre: Kernel, post: Kernel, acts0: Seq<Action>, acts1: Seq<
    Action,
>) -> bool {
    if pre.fault {
        post == pre && acts1 == acts0
    } else {
        exists|mid: Kernel|
            {
                &&& #[trigger] slice_effect(pre, mid, acts0, acts1)
                &&& if mid.fault {
                    post == mid
                } else {
                    advance_effect(mid, post)
                }
            }
    }
}

impl Kernel {
    /// One slice of a task in user mode: fetch, dispatch, record.
    fn slice_ready(&mut self, acts: &mut Vec<Action>)
        requires
            old(self).wf(),
            !old(self).fault,
            run_view(old(self).tasks@[old(self).cur as int].run) == RunV::Ready,
        ensures
            final(self).wf(),
            ready_slice_effect(*old(self), *final(self), old(acts)@, final(acts)@),
    {
        proof {
            reveal(crate::machine::ready_slice_effect);
            reveal(crate::machine::pc_bumped);
            reveal(crate::machine::ret_recorded);
            reveal(crate::machine::mark_done_effect);
        }
        let c = self.cur;
        let pc = self.tasks[c].pc;
        if pc >= self.tasks[c].program.len() {
            self.tasks[c].run = RunState::Done;
            return;
        }
        let op = dup_syscall(&self.tasks[c].program[pc]);
        self.tasks[c].pc = pc + 1;
        let ghost mid1 = *self;
        let done = self.syscall_handler(op, acts);
        let ghost mid2 = *self;
        match done {
            Some(r) => {
                let c2 = self.cur;
                self.tasks[c2].rets.push(r);
            },
            None => {},
        }
        proof {
            assert(pc_bumped(*old(self), mid1));
            assert(ret_recorded(mid2, *self, done));
            assert(dispatch_effect(
                mid1,
                mid2,
                sys_view(old(self).tasks@[c as int].program@[pc as int]),
                old(acts)@,
                acts@,
                done,
            ));
        }
    }

    /// Runs one scheduler slice of the current task: its next operation
    /// when it is in user mode, one spin of its wait point when it is
    /// blocked, nothing when it has exited or finished.
    pub fn slice(&mut self, acts: &mut Vec<Action>)
        requires
            old(self).wf(),
            !old(self).fault,
        ensures
            final(self).wf(),
            slice_effect(*old(self), *final(self), old(acts)@, final(acts)@),
    {
        let c = self.cur;
        let rs = crate::task::dup_run(&self.tasks[c].run);
        match rs {
            RunState::Ready => {
                self.slice_ready(acts);
            },
            RunState::SendWaitReady { name } => {
                self.resume_send_wait_ready(name);
            },
            RunState::SendWaitConn { name } => {
                self.resume_send_wait_conn(name);
            },
            RunState::SendWaitResp { name } => {
                self.resume_send_wait_resp(name);
            },
            RunState::AcceptWaitConn { name } => {
                self.resume_accept_wait(name);
            },
            RunState::AcceptPaired => {
                self.resume_accept_paired();
            },
            RunState::AcceptFinish => {
                self.resume_accept_finish();
            },
            RunState::RespondYield => {
                self.resume_respond_yield();
            },
            RunState::SbrkMap { new_break, next_page } => {
                self.resume_sbrk(new_break, next_page, acts);
            },
            RunState::ExitLoop => {},
            RunState::Done => {},
        }
    }

    /// One whole machine step: one slice of the current task, then one
    /// round-robin scheduler step — the voluntary or preemptive yield at
    /// the end of the slice. A faulted machine refuses to step.
    pub fn step(&mut self, acts: &mut Vec<Action>)
        requires
            old(self).wf(),
        ensures
            final(self).wf(),
            step_effect(*old(self), *final(self), old(acts)@, final(acts)@),
    {
        if self.fault {
            return;
        }
        self.slice(acts);
        let ghost mid = *self;
        if !self.fault {
            self.advance();
        }
        proof {
            assert(slice_effect(*old(self), mid, old(acts)@, final(acts)@));
        }
    }

    /// Runs the machine for at most the given number of steps. The count
    /// bounds the simulation; the machine itself never finishes, a kernel
    /// schedules forever.
    pub fn run_steps(&mut self, steps: usize, acts: &mut Vec<Action>)
        requires
            old(self).wf(),
        ensures
            final(self).wf(),
    {
        let mut i: usize = 0;
        while i < steps
            invariant
                self.wf(),
            decreases steps - i,
        {
            self.step(acts);
            i = i + 1;
        }
    }
}

} // verus!
