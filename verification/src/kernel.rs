use vstd::prelude::*;
use crate::context::Jmpbuf;
use crate::ports::{port_names_unique, Service};
use crate::task::{RunState, Syscall, Task};

verus! {

/// Size of one syscall-entry stack, in bytes.
pub const SYSCALL_STACK_SIZE: u64 = 4096 * 5;

/// Size of one interrupt-entry stack, in bytes.
pub const INTERRUPT_STACK_SIZE: u64 = 4096 * 4;

/// The whole kernel core: the task record store with its cursor, the live
/// CPU state of the current task, the privileged stack-pointer cells the
/// scheduler programs on every switch, the port registry, the privileged
/// service directory, and the kernel log.
///
/// The machine is single-core and cooperative: every mutation of this
/// state happens between suspension points, which models the original
/// discipline of disabling the maskable interrupt line around registry and
/// queue mutations.
#[derive(Debug)]
pub struct Kernel {
    /// All live task records, in scheduling order.
    pub tasks: Vec<Task>,
    /// Cursor of the round-robin scheduler: index of the current task.
    pub cur: usize,
    /// Live register state of the current task; the current task's stored
    /// snapshot is stale until the next switch-out.
    pub live: Jmpbuf,
    /// The privileged interrupt-stack register, reprogrammed on every
    /// switch from the incoming task's `rsp0`.
    pub rsp0_cell: u64,
    /// The syscall-entry stack cell, reprogrammed on every switch from the
    /// incoming task's `rsp_ptr`.
    pub rsp_ptr_cell: u64,
    /// The port registry, keyed by name.
    pub ports: Vec<(Vec<u8>, Service)>,
    /// Names of the privileged kernel services reachable through `send`.
    pub ksvc_names: Vec<Vec<u8>>,
    /// Last assigned task identifier.
    pub next_pid: u64,
    /// Everything written to the kernel log so far.
    pub klog: Vec<u8>,
    /// True once a fatal protocol or invariant violation was observed; a
    /// faulted machine halts and refuses further steps.
    pub fault: bool,
    /// Bump cursor of the stack area for fresh kernel stacks.
    pub stacks_top: u64,
    /// Stack canaries: base address, name and size of every allocated
    /// kernel stack.
    pub canaries: Vec<(u64, String, u64)>,
    /// The embedded root filesystem: file name (no leading slash) and
    /// contents.
    pub rootfs: Vec<(Vec<u8>, Vec<u8>)>,
}

impl Kernel {
    /// Shape invariant: there is always at least one task, the cursor
    /// points at one, and port names are unique.
    pub open spec fn wf(&self) -> bool {
        &&& self.tasks@.len() > 0
        &&& self.cur < self.tasks@.len()
        &&& port_names_unique(self.ports@)
    }

    /// A fresh machine with one initial task (pid 1) holding the given
    /// program, an empty port registry and an empty log.
    pub fn boot(program: Vec<Syscall>, rootfs: Vec<(Vec<u8>, Vec<u8>)>) -> (k: Kernel)
        ensures
            k.wf(),
            k.tasks@.len() == 1,
            k.cur == 0,
            k.tasks@[0].pid == 1,
            k.tasks@[0].program == program,
            k.tasks@[0].pc == 0,
            k.tasks@[0].box1 is None,
            k.tasks@[0].box2 is None,
            k.tasks@[0].run is Ready,
            k.ports@.len() == 0,
            k.klog@.len() == 0,
            k.rootfs == rootfs,
            !k.fault,
            k.next_pid == 1,
            k.stacks_top == 0x21000,
            k.tasks@[0].wakeop is None,
            !k.tasks@[0].needs_wake,
            k.tasks@[0].responding_to == 0,
            k.ksvc_names@.len() == 0,
    {
        let mut k = Kernel {
            tasks: Vec::new(),
            cur: 0,
            live: Jmpbuf::new(),
            rsp0_cell: 0,
            rsp_ptr_cell: 0,
            ports: Vec::new(),
            ksvc_names: Vec::new(),
            next_pid: 1,
            klog: Vec::new(),
            fault: false,
            stacks_top: 0x18000,
            canaries: Vec::new(),
            rootfs,
        };
        let rsp0 = k.alloc_stack(INTERRUPT_STACK_SIZE);
        let rsp_ptr = k.alloc_rsp_ptr(String::new());
        k.tasks.push(
            Task {
                state: Jmpbuf::new(),
                rsp0,
                rsp_ptr,
                pid: 1,
                box1: None,
                box2: None,
                program_break: 0,
                wakeop: None,
                needs_wake: false,
                uid: -1,
                responding_to: 0,
                run: RunState::Ready,
                program,
                pc: 0,
                rets: Vec::new(),
            },
        );
        k
    }

    /// Carves a fresh kernel stack out of the stack area and returns its
    /// top. Exhausting the stack area is a fatal resource error, excluded
    /// here by precondition.
    pub fn alloc_stack(&mut self, size: u64) -> (top: u64)
        requires
            old(self).stacks_top + size <= u64::MAX,
        ensures
            *final(self) == (Kernel { stacks_top: (old(self).stacks_top + size) as u64, ..*old(self) }),
            top == old(self).stacks_top + size,
    {
        let base = self.stacks_top;
        self.stacks_top = self.stacks_top + size;
        base + size
    }

    /// Allocates a syscall-entry stack, registers its canary under the
    /// given name, and returns the stack top.
    pub fn alloc_rsp_ptr(&mut self, stack_name: String) -> (top: u64)
        requires
            old(self).stacks_top + SYSCALL_STACK_SIZE <= u64::MAX,
        ensures
            top == old(self).stacks_top + SYSCALL_STACK_SIZE,
            final(self).canaries@ == old(self).canaries@.push(
                (old(self).stacks_top, stack_name, SYSCALL_STACK_SIZE),
            ),
            *final(self) == (Kernel {
                stacks_top: (old(self).stacks_top + SYSCALL_STACK_SIZE) as u64,
                canaries: final(self).canaries,
                ..*old(self)
            }),
    {
        let start = self.stacks_top;
        let top = self.alloc_stack(SYSCALL_STACK_SIZE);
        self.canaries.push((start, stack_name, SYSCALL_STACK_SIZE));
        top
    }

    /// Allocates a fresh syscall-entry stack and programs the syscall
    /// stack cell with it.
    pub fn init_rsp_ptr(&mut self, stack_name: String)
        requires
            old(self).stacks_top + SYSCALL_STACK_SIZE <= u64::MAX,
        ensures
            final(self).rsp_ptr_cell == old(self).stacks_top + SYSCALL_STACK_SIZE,
            final(self).canaries@ == old(self).canaries@.push(
                (old(self).stacks_top, stack_name, SYSCALL_STACK_SIZE),
            ),
            *final(self) == (Kernel {
                stacks_top: (old(self).stacks_top + SYSCALL_STACK_SIZE) as u64,
                canaries: final(self).canaries,
                rsp_ptr_cell: final(self).rsp_ptr_cell,
                ..*old(self)
            }),
    {
        let top = self.alloc_rsp_ptr(stack_name);
        self.rsp_ptr_cell = top;
    }

    /// Draws the next unique task identifier.
    pub fn mkpid(&mut self) -> (pid: u64)
        requires
            old(self).next_pid < u64::MAX,
        ensures
            pid == old(self).next_pid + 1,
            *final(self) == (Kernel { next_pid: (old(self).next_pid + 1) as u64, ..*old(self) }),
    {
        self.next_pid = self.next_pid + 1;
        self.next_pid
    }

    /// The pid of the current task.
    pub fn getpid(&self) -> (pid: u64)
        requires
            self.wf(),
        ensures
            pid == self.tasks@[self.cur as int].pid,
    {
        self.tasks[self.cur].pid
    }

    /// A reference to the current task record.
    pub fn current(&self) -> (t: &Task)
        requires
            self.wf(),
        ensures
            t == self.tasks@[self.cur as int],
    {
        &self.tasks[self.cur]
    }

    /// Appends a task record to the store; it becomes schedulable on the
    /// next round.
    pub fn enqueue(&mut self, t: Task)
        requires
            old(self).wf(),
        ensures
            final(self).wf(),
            *final(self) == (Kernel { tasks: final(self).tasks, ..*old(self) }),
            final(self).tasks@ == old(self).tasks@.push(t),
    {
        self.tasks.push(t);
    }

    /// One round-robin step: saves the live register state into the
    /// outgoing task's snapshot slot, moves the cursor one position
    /// (wrapping), loads the incoming task's snapshot as the live state,
    /// and programs both privileged stack-pointer cells from the incoming
    /// task. Nothing else of the machine changes, and no task is skipped
    /// for being blocked.
    pub fn advance(&mut self)
        requires
            old(self).wf(),
        ensures
            final(self).wf(),
            final(self).cur == (old(self).cur + 1) % (old(self).tasks@.len() as int),
            final(self).tasks@ == old(self).tasks@.update(
                old(self).cur as int,
                (Task { state: old(self).live, ..old(self).tasks@[old(self).cur as int] }),
            ),
            final(self).live == final(self).tasks@[final(self).cur as int].state,
            final(self).rsp0_cell == final(self).tasks@[final(self).cur as int].rsp0,
            final(self).rsp_ptr_cell == final(self).tasks@[final(self).cur as int].rsp_ptr,
            *final(self) == (Kernel {
                tasks: final(self).tasks,
                cur: final(self).cur,
                live: final(self).live,
                rsp0_cell: final(self).rsp0_cell,
                rsp_ptr_cell: final(self).rsp_ptr_cell,
                ..*old(self)
            }),
    {
        let ghost prev = *self;
        let n = self.tasks.len();
        self.tasks[self.cur].state = self.live;
        let mut next = self.cur + 1;
        if next == n {
            next = 0;
        }
        proof {
            crate::queue::lemma_ring_step(prev.cur as int, prev.tasks@.len() as int);
        }
        self.cur = next;
        self.live = self.tasks[self.cur].state;
        self.rsp0_cell = self.tasks[self.cur].rsp0;
        self.rsp_ptr_cell = self.tasks[self.cur].rsp_ptr;
        proof {
            assert(self.tasks@ =~= prev.tasks@.update(
                prev.cur as int,
                (Task { state: prev.live, ..prev.tasks@[prev.cur as int] }),
            ));
        }
    }

    /// Finds the first task record with the given pid.
    pub fn find_task(&self, pid: u64) -> (r: Option<usize>)
        ensures
            match r {
                Some(i) => i < self.tasks@.len() && self.tasks@[i as int].pid == pid && forall|
                    j: int,
                |
                    0 <= j < i ==> self.tasks@[j].pid != pid,
                None => forall|j: int| 0 <= j < self.tasks@.len() ==> self.tasks@[j].pid != pid,
            },
    {
        let mut i: usize = 0;
        while i < self.tasks.len()
            invariant
                i <= self.tasks@.len(),
                forall|j: int| 0 <= j < i ==> self.tasks@[j].pid != pid,
            decreases self.tasks@.len() - i,
        {
            if self.tasks[i].pid == pid {
                return Some(i);
            }
            i = i + 1;
        }
        None
    }

    /// Looks a file of the embedded root filesystem up; entries are stored
    /// without a leading slash but may be addressed with one.
    pub fn lookup_fs(&self, path: &Vec<u8>) -> (r: Option<&Vec<u8>>)
        ensures
            match r {
                Some(d) => exists|i: int|
                    0 <= i < self.rootfs@.len() && fs_name_matches(
                        self.rootfs@[i].0@,
                        path@,
                    ) && d == self.rootfs@[i].1,
                None => forall|i: int|
                    0 <= i < self.rootfs@.len() ==> !fs_name_matches(self.rootfs@[i].0@, path@),
            },
    {
        let mut i: usize = 0;
        while i < self.rootfs.len()
            invariant
                i <= self.rootfs@.len(),
                forall|j: int| 0 <= j < i ==> !fs_name_matches(self.rootfs@[j].0@, path@),
            decreases self.rootfs@.len() - i,
        {
            if fs_name_match(&self.rootfs[i].0, path) {
                return Some(&self.rootfs[i].1);
            }
            i = i + 1;
        }
        None
    }

    /// Reads a file of the embedded root filesystem. Asking for an absent
    /// file is a fatal error, excluded here by precondition; the syscall
    /// paths that cannot exclude it go through `lookup_fs` and fault.
    pub fn readfs(&self, path: &Vec<u8>) -> (r: &Vec<u8>)
        requires
            exists|i: int|
                0 <= i < self.rootfs@.len() && fs_name_matches(self.rootfs@[i].0@, path@),
        ensures
            exists|i: int|
                0 <= i < self.rootfs@.len() && fs_name_matches(self.rootfs@[i].0@, path@) && r
                    == self.rootfs@[i].1,
    {
        match self.lookup_fs(path) {
            Some(d) => d,
            None => unreached(),
        }
    }
}

/// Whether a stored file name answers to the requested path: either
/// exactly, or with one leading slash prepended to the stored name.
pub open spec fn fs_name_matches(name: Seq<u8>, path: Seq<u8>) -> bool {
    path == name || path == seq![47u8] + name
}

/// Checks whether a stored file name answers to the requested path.
fn fs_name_match(name: &Vec<u8>, path: &Vec<u8>) -> (r: bool)
    ensures
        r == fs_name_matches(name@, path@),
{
    if crate::ports::bytes_eq(name, path) {
        return true;
    }
    if path.len() == 0 || path.len() - 1 != name.len() {
        proof {
            assert(path@ != seq![47u8] + name@) by {
                assert((seq![47u8] + name@).len() == name@.len() + 1);
            }
        }
        return false;
    }
    if path[0] != 47 {
        proof {
            assert(path@ != seq![47u8] + name@) by {
                assert((seq![47u8] + name@)[0] == 47u8);
            }
        }
        return false;
    }
    let mut i: usize = 0;
    while i < name.len()
        invariant
            i <= name@.len(),
            path@.len() == name@.len() + 1,
            path@[0] == 47u8,
            forall|j: int| 0 <= j < i ==> path@[j + 1] == name@[j],
        decreases name@.len() - i,
    {
        if path[i + 1] != name[i] {
            proof {
                assert(path@ != seq![47u8] + name@) by {
                    assert((seq![47u8] + name@)[i + 1] == name@[i as int]);
                }
            }
            return false;
        }
        i = i + 1;
    }
    proof {
        assert(path@ =~= seq![47u8] + name@);
    }
    true
}

} // verus!
