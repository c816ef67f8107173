use vstd::prelude::*;
use crate::kernel::Kernel;
use crate::task::{buf_view, len_spec, read_spec, Task};

verus! {

/// Work the kernel core hands to its collaborators: the address-space
/// gateway performs the page operations, the program loader serves the
/// exec requests. The core only decides; it never touches page tables or
/// parses executables itself.
#[derive(Debug, Clone, PartialEq, Eq)]
pub enum Action {
    /// Map one fresh zero frame at this virtual page address.
    MapPage { virt: u64 },
    /// Unmap the page at this virtual address.
    UnmapPage { virt: u64 },
    /// Load the program at this path and start it in the task that was
    /// just enqueued for it.
    ExecRequest { path: Vec<u8> },
}

/// Two kernel states that agree observably: every field, with the
/// collections compared by contents.
pub open spec fn state_eq(a: Kernel, b: Kernel) -> bool {
    &&& a.tasks@ == b.tasks@
    &&& a.cur == b.cur
    &&& a.live == b.live
    &&& a.rsp0_cell == b.rsp0_cell
    &&& a.rsp_ptr_cell == b.rsp_ptr_cell
    &&& a.ports@ == b.ports@
    &&& a.ksvc_names@ == b.ksvc_names@
    &&& a.next_pid == b.next_pid
    &&& a.klog@ == b.klog@
    &&& a.fault == b.fault
    &&& a.stacks_top == b.stacks_top
    &&& a.canaries@ == b.canaries@
    &&& a.rootfs@ == b.rootfs@
}

/// The machine observed a fatal violation: the fault flag is set and
/// nothing else changed.
pub open spec fn faulted_same(pre: Kernel, post: Kernel) -> bool {
    &&& post.fault
    &&& post.tasks@ == pre.tasks@
    &&& post.cur == pre.cur
    &&& post.live == pre.live
    &&& post.rsp0_cell == pre.rsp0_cell
    &&& post.rsp_ptr_cell == pre.rsp_ptr_cell
    &&& post.ports@ == pre.ports@
    &&& post.ksvc_names@ == pre.ksvc_names@
    &&& post.next_pid == pre.next_pid
    &&& post.klog@ == pre.klog@
    &&& post.stacks_top == pre.stacks_top
    &&& post.canaries@ == pre.canaries@
    &&& post.rootfs@ == pre.rootfs@
}

/// Two task records that agree on everything except the transfer buffers.
pub open spec fn task_eq_mod_bufs(a: Task, b: Task) -> bool {
    b == (Task { box1: b.box1, box2: b.box2, ..a })
}

/// The task sequence `b` equals `a` everywhere but at index `i`.
pub open spec fn tasks_match_except(a: Seq<Task>, b: Seq<Task>, i: int) -> bool {
    b.len() == a.len() && forall|j: int| 0 <= j < a.len() && j != i ==> b[j] == a[j]
}

impl Kernel {
    /// Frees the current task's transfer buffer A, if present, and replaces
    /// it with a fresh exclusively owned copy of the caller's bytes.
    /// Always answers 0.
    pub fn sys_bind_buffer(&mut self, data: Vec<u8>) -> (r: u64)
        requires
            old(self).wf(),
        ensures
            r == 0,
            final(self).wf(),
            tasks_match_except(old(self).tasks@, final(self).tasks@, old(self).cur as int),
            task_eq_mod_bufs(
                old(self).tasks@[old(self).cur as int],
                final(self).tasks@[old(self).cur as int],
            ),
            buf_view(final(self).tasks@[old(self).cur as int].box1) == Some(data@),
            final(self).tasks@[old(self).cur as int].box2 == old(self).tasks@[old(self).cur as int].box2,
            *final(self) == (Kernel { tasks: final(self).tasks, ..*old(self) }),
    {
        let c = self.cur;
        self.tasks[c].box1 = Some(data);
        0
    }

    /// The length of the current task's transfer buffer A, 0 when empty.
    /// Read-only.
    pub fn sys_buffer_len(&self) -> (r: u64)
        requires
            self.wf(),
        ensures
            r == len_spec(self.tasks@[self.cur as int].bufs()),
    {
        match &self.tasks[self.cur].box1 {
            Some(b) => b.len() as u64,
            None => 0,
        }
    }

    /// Copies the current task's transfer buffer A to the start of the
    /// caller's destination region, which must be large enough, and
    /// answers the number of bytes copied (0 when the buffer is empty).
    /// Non-destructive: the buffer itself is untouched.
    pub fn sys_read_buffer(&self, dest: &mut Vec<u8>) -> (r: u64)
        requires
            self.wf(),
            old(dest)@.len() >= len_spec(self.tasks@[self.cur as int].bufs()),
        ensures
            r == len_spec(self.tasks@[self.cur as int].bufs()),
            final(dest)@.len() == old(dest)@.len(),
            final(dest)@.subrange(0, r as int) == read_spec(self.tasks@[self.cur as int].bufs()),
            final(dest)@.subrange(r as int, final(dest)@.len() as int) == old(dest)@.subrange(
                r as int,
                old(dest)@.len() as int,
            ),
    {
        match &self.tasks[self.cur].box1 {
            Some(b) => {
                let n = b.len();
                let mut i: usize = 0;
                while i < n
                    invariant
                        i <= n,
                        n == b@.len() <= dest@.len(),
                        dest@.len() == old(dest)@.len(),
                        forall|j: int| 0 <= j < i ==> dest@[j] == b@[j],
                        forall|j: int| i <= j < dest@.len() ==> dest@[j] == old(dest)@[j],
                    decreases n - i,
                {
                    dest[i] = b[i];
                    i = i + 1;
                }
                proof {
                    assert(dest@.subrange(0, n as int) =~= b@);
                    assert(dest@.subrange(n as int, dest@.len() as int) =~= old(dest)@.subrange(
                        n as int,
                        old(dest)@.len() as int,
                    ));
                }
                n as u64
            },
            None => {
                proof {
                    assert(dest@.subrange(0, 0) =~= read_spec(
                        self.tasks@[self.cur as int].bufs(),
                    ));
                    assert(dest@.subrange(0, dest@.len() as int) =~= old(dest)@.subrange(
                        0,
                        old(dest)@.len() as int,
                    ));
                }
                0
            },
        }
    }

    /// Exchanges ownership of the current task's transfer buffers A and B
    /// in place. Always answers 0.
    pub fn sys_swap_buffers(&mut self) -> (r: u64)
        requires
            old(self).wf(),
        ensures
            r == 0,
            final(self).wf(),
            tasks_match_except(old(self).tasks@, final(self).tasks@, old(self).cur as int),
            task_eq_mod_bufs(
                old(self).tasks@[old(self).cur as int],
                final(self).tasks@[old(self).cur as int],
            ),
            final(self).tasks@[old(self).cur as int].box1 == old(self).tasks@[old(self).cur as int].box2,
            final(self).tasks@[old(self).cur as int].box2 == old(self).tasks@[old(self).cur as int].box1,
            *final(self) == (Kernel { tasks: final(self).tasks, ..*old(self) }),
    {
        let c = self.cur;
        let mut a: Option<Vec<u8>> = None;
        let mut b: Option<Vec<u8>> = None;
        core::mem::swap(&mut a, &mut self.tasks[c].box1);
        core::mem::swap(&mut b, &mut self.tasks[c].box2);
        core::mem::swap(&mut a, &mut self.tasks[c].box2);
        core::mem::swap(&mut b, &mut self.tasks[c].box1);
        0
    }

    /// Appends the caller's bytes to the kernel log. Always answers 0.
    pub fn sys_klog(&mut self, data: Vec<u8>) -> (r: u64)
        requires
            old(self).wf(),
        ensures
            r == 0,
            final(self).wf(),
            final(self).klog@ == old(self).klog@ + data@,
            *final(self) == (Kernel { klog: final(self).klog, ..*old(self) }),
    {
        let mut data = data;
        self.klog.append(&mut data);
        0
    }

    /// Registers (or re-registers) a port under the given name, owned by
    /// the current task, not yet accepting, with no waiting clients.
    /// Re-registering replaces the port and discards its queue. Always
    /// answers 0.
    pub fn sys_listen(&mut self, name: Vec<u8>) -> (r: u64)
        requires
            old(self).wf(),
        ensures
            r == 0,
            final(self).wf(),
            final(self).tasks@ == old(self).tasks@,
            *final(self) == (Kernel { ports: final(self).ports, ..*old(self) }),
            crate::ports::has_port(final(self).ports@, name@),
            ({
                let i = crate::ports::port_at(final(self).ports@, name@);
                &&& final(self).ports@[i].0@ == name@
                &&& final(self).ports@[i].1.pid == old(self).tasks@[old(self).cur as int].pid
                &&& !final(self).ports@[i].1.is_active
                &&& final(self).ports@[i].1.activate_pids@ == Seq::<u64>::empty()
                &&& if crate::ports::has_port(old(self).ports@, name@) {
                    i == crate::ports::port_at(old(self).ports@, name@) && final(self).ports@
                        == old(self).ports@.update(i, final(self).ports@[i])
                } else {
                    i == old(self).ports@.len() && final(self).ports@ == old(self).ports@.push(
                        final(self).ports@[i],
                    )
                }
            }),
    {
        let pid = self.getpid();
        let svc = crate::ports::Service { pid, is_active: false, activate_pids: Vec::new() };
        match crate::ports::find_port(&self.ports, &name) {
            Some(i) => {
                self.ports[i] = (name, svc);
                proof {
                    let ghost np = self.ports@;
                    assert(np[i as int].0@ == name@);
                    assert(crate::ports::port_names_unique(np));
                    let w = crate::ports::port_at(np, name@);
                    assert(np[i as int].0@ == name@);
                    assert(0 <= w < np.len() && np[w].0@ == name@);
                    assert(w == i) by {
                        if w != i {
                            assert(np[w].0@ != np[i as int].0@);
                        }
                    }
                    assert(self.ports@ =~= old(self).ports@.update(i as int, self.ports@[i as int]));
                }
            },
            None => {
                self.ports.push((name, svc));
                proof {
                    let ghost np = self.ports@;
                    let ghost n = old(self).ports@.len() as int;
                    assert(crate::ports::port_names_unique(np)) by {
                        assert(forall|j: int|
                            0 <= j < n ==> np[j] == old(self).ports@[j]);
                    }
                    assert(np[n].0@ == name@);
                    let w = crate::ports::port_at(np, name@);
                    assert(0 <= w < np.len() && np[w].0@ == name@);
                    assert(w == n) by {
                        if w != n {
                            assert(np[w].0@ != np[n].0@);
                        }
                    }
                }
            },
        }
        0
    }
}

} // verus!
