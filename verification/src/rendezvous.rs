use vstd::prelude::*;
use crate::kernel::Kernel;
use crate::ports::{find_port, has_port, port_at};
use crate::syscall::{faulted_same, tasks_match_except, Action};
use crate::task::{run_view, RunState, RunV, Task, WakeType, Wakeop};

verus! {

/// Whether a task's last wake notice has the given reason and writer.
pub open spec fn wake_matches(t: Task, w: WakeType, waker: u64) -> bool {
    t.wakeop matches Some(k) && k.wake_type == w && k.waker == waker
}

/// The wake notice the kernel writes when it resumes a blocked peer.
pub open spec fn wake_note(w: WakeType, waker: u64) -> Option<Wakeop> {
    Some(Wakeop { wake_type: w, waker, is_cross_task_call: false })
}

/// The task sequence `b` equals `a` everywhere but at indices `i` and `j`.
pub open spec fn tasks_match_except2(a: Seq<Task>, b: Seq<Task>, i: int, j: int) -> bool {
    b.len() == a.len() && forall|k: int| 0 <= k < a.len() && k != i && k != j ==> b[k] == a[k]
}

/// The port registries agree except that port `i`'s queue lost its head.
pub open spec fn port_queue_popped(
    a: Seq<(Vec<u8>, crate::ports::Service)>,
    b: Seq<(Vec<u8>, crate::ports::Service)>,
    i: int,
) -> bool {
    &&& b.len() == a.len()
    &&& forall|k: int| 0 <= k < a.len() && k != i ==> b[k] == a[k]
    &&& b[i].0 == a[i].0
    &&& b[i].1.pid == a[i].1.pid
    &&& b[i].1.is_active == a[i].1.is_active
    &&& b[i].1.activate_pids@ == a[i].1.activate_pids@.drop_first()
}

/// The port registries agree except that port `i`'s queue grew by `pid`.
pub open spec fn port_queue_pushed(
    a: Seq<(Vec<u8>, crate::ports::Service)>,
    b: Seq<(Vec<u8>, crate::ports::Service)>,
    i: int,
    pid: u64,
) -> bool {
    &&& b.len() == a.len()
    &&& forall|k: int| 0 <= k < a.len() && k != i ==> b[k] == a[k]
    &&& b[i].0 == a[i].0
    &&& b[i].1.pid == a[i].1.pid
    &&& b[i].1.is_active == a[i].1.is_active
    &&& b[i].1.activate_pids@ == a[i].1.activate_pids@.push(pid)
}

/// Exact effect of `op_send_entry`.
#[verifier::opaque]
pub open spec fn send_entry_effect(pre: Kernel, post: Kernel, name: Seq<u8>, done: Option<u64>) -> bool {
        let c = pre.cur as int;
        let t0 = pre.tasks@[c];
        if !has_port(pre.ports@, name) {
            done is None && faulted_same(pre, post)
        } else {
            let i = port_at(pre.ports@, name);
            let owner = pre.ports@[i].1.pid;
            if exists|j: int|
                0 <= j < pre.tasks@.len() && pre.tasks@[j].pid == owner {
                &&& done is None
                &&& !post.fault
                &&& port_queue_pushed(pre.ports@, post.ports@, i, t0.pid)
                &&& tasks_match_except(pre.tasks@, post.tasks@, c)
                &&& post.tasks@[c] == (Task {
                    needs_wake: true,
                    run: post.tasks@[c].run,
                    ..t0
                })
                &&& run_view(post.tasks@[c].run) == (RunV::SendWaitReady {
                    name: name,
                })
                &&& post == (Kernel {
                    tasks: post.tasks,
                    ports: post.ports,
                    ..pre
                })
            } else {
                done == Some(0u64) && post == pre
            }
        }
}

/// Exact effect of `resume_send_wait_ready`.
#[verifier::opaque]
pub open spec fn send_wait_ready_effect(pre: Kernel, post: Kernel, name: Seq<u8>) -> bool {
        let c = pre.cur as int;
        let t0 = pre.tasks@[c];
        if t0.needs_wake {
            post == pre
        } else if !has_port(pre.ports@, name) {
            faulted_same(pre, post)
        } else {
            let i = port_at(pre.ports@, name);
            let owner = pre.ports@[i].1.pid;
            if !wake_matches(t0, WakeType::WakeServerReady, owner) {
                faulted_same(pre, post)
            } else if !pre.ports@[i].1.is_active {
                &&& !post.fault
                &&& port_queue_pushed(pre.ports@, post.ports@, i, t0.pid)
                &&& tasks_match_except(pre.tasks@, post.tasks@, c)
                &&& post.tasks@[c] == (Task {
                    needs_wake: true,
                    run: post.tasks@[c].run,
                    ..t0
                })
                &&& run_view(post.tasks@[c].run) == (RunV::SendWaitReady {
                    name: name,
                })
                &&& post == (Kernel {
                    tasks: post.tasks,
                    ports: post.ports,
                    ..pre
                })
            } else {
                if exists|j: int|
                    0 <= j < pre.tasks@.len() && pre.tasks@[j].pid == owner {
                    let j = choose|j: int|
                        0 <= j < pre.tasks@.len() && pre.tasks@[j].pid
                            == owner && forall|k: int|
                            0 <= k < j ==> pre.tasks@[k].pid != owner;
                    if pre.tasks@[j].needs_wake && j != c {
                        &&& !post.fault
                        &&& tasks_match_except2(
                            pre.tasks@,
                            post.tasks@,
                            c,
                            j,
                        )
                        &&& post.tasks@[j] == (Task {
                            wakeop: wake_note(WakeType::WakeConnection, t0.pid),
                            needs_wake: false,
                            ..pre.tasks@[j]
                        })
                        &&& post.tasks@[c] == (Task {
                            needs_wake: true,
                            run: post.tasks@[c].run,
                            ..t0
                        })
                        &&& run_view(post.tasks@[c].run) == (RunV::SendWaitConn {
                            name: name,
                        })
                        &&& post == (Kernel {
                            tasks: post.tasks,
                            ..pre
                        })
                    } else {
                        faulted_same(pre, post)
                    }
                } else {
                    faulted_same(pre, post)
                }
            }
        }
}

/// Exact effect of `resume_send_wait_conn`.
#[verifier::opaque]
pub open spec fn send_wait_conn_effect(pre: Kernel, post: Kernel, name: Seq<u8>) -> bool {
        let c = pre.cur as int;
        let t0 = pre.tasks@[c];
        if t0.needs_wake {
            post == pre
        } else if !has_port(pre.ports@, name) {
            faulted_same(pre, post)
        } else {
            let i = port_at(pre.ports@, name);
            let owner = pre.ports@[i].1.pid;
            if !wake_matches(t0, WakeType::WakeConnection, owner) {
                faulted_same(pre, post)
            } else {
                if exists|j: int|
                    0 <= j < pre.tasks@.len() && pre.tasks@[j].pid == owner {
                    let j = choose|j: int|
                        0 <= j < pre.tasks@.len() && pre.tasks@[j].pid
                            == owner && forall|k: int|
                            0 <= k < j ==> pre.tasks@[k].pid != owner;
                    if j != c {
                        &&& !post.fault
                        &&& tasks_match_except2(
                            pre.tasks@,
                            post.tasks@,
                            c,
                            j,
                        )
                        &&& post.tasks@[j] == (Task {
                            box1: t0.box1,
                            box2: t0.box2,
                            ..pre.tasks@[j]
                        })
                        &&& post.tasks@[c] == (Task {
                            box1: None,
                            box2: None,
                            needs_wake: true,
                            run: post.tasks@[c].run,
                            ..t0
                        })
                        &&& run_view(post.tasks@[c].run) == (RunV::SendWaitResp {
                            name: name,
                        })
                        &&& post == (Kernel {
                            tasks: post.tasks,
                            ..pre
                        })
                    } else {
                        faulted_same(pre, post)
                    }
                } else {
                    faulted_same(pre, post)
                }
            }
        }
}

/// Exact effect of `resume_send_wait_resp`.
#[verifier::opaque]
pub open spec fn send_wait_resp_effect(pre: Kernel, post: Kernel, name: Seq<u8>) -> bool {
        let c = pre.cur as int;
        let t0 = pre.tasks@[c];
        if t0.needs_wake {
            post == pre
        } else if !has_port(pre.ports@, name) {
            faulted_same(pre, post)
        } else {
            let i = port_at(pre.ports@, name);
            let owner = pre.ports@[i].1.pid;
            if !wake_matches(t0, WakeType::WakeResponded, owner) {
                faulted_same(pre, post)
            } else {
                if exists|j: int|
                    0 <= j < pre.tasks@.len() && pre.tasks@[j].pid == owner {
                    let j = choose|j: int|
                        0 <= j < pre.tasks@.len() && pre.tasks@[j].pid
                            == owner && forall|k: int|
                            0 <= k < j ==> pre.tasks@[k].pid != owner;
                    if j != c {
                        &&& !post.fault
                        &&& tasks_match_except2(
                            pre.tasks@,
                            post.tasks@,
                            c,
                            j,
                        )
                        &&& post.tasks@[j] == (Task {
                            box1: None,
                            box2: None,
                            ..pre.tasks@[j]
                        })
                        &&& post.tasks@[c] == (Task {
                            box1: pre.tasks@[j].box1,
                            box2: pre.tasks@[j].box2,
                            run: post.tasks@[c].run,
                            rets: post.tasks@[c].rets,
                            ..t0
                        })
                        &&& post.tasks@[c].rets@ == t0.rets@.push(0u64)
                        &&& run_view(post.tasks@[c].run) == RunV::Ready
                        &&& post == (Kernel {
                            tasks: post.tasks,
                            ..pre
                        })
                    } else {
                        faulted_same(pre, post)
                    }
                } else {
                    faulted_same(pre, post)
                }
            }
        }
}

/// Exact effect of `op_accept_entry`.
#[verifier::opaque]
pub open spec fn accept_entry_effect(pre: Kernel, post: Kernel, name: Seq<u8>) -> bool {
        let c = pre.cur as int;
        let t0 = pre.tasks@[c];
        if !has_port(pre.ports@, name) {
            faulted_same(pre, post)
        } else {
            let i = port_at(pre.ports@, name);
            &&& !post.fault
            &&& post.ports@.len() == pre.ports@.len()
            &&& (forall|k: int|
                0 <= k < pre.ports@.len() && k != i ==> post.ports@[k] == pre.ports@[k])
            &&& post.ports@[i].0 == pre.ports@[i].0
            &&& post.ports@[i].1.pid == pre.ports@[i].1.pid
            &&& post.ports@[i].1.is_active
            &&& post.ports@[i].1.activate_pids == pre.ports@[i].1.activate_pids
            &&& tasks_match_except(pre.tasks@, post.tasks@, c)
            &&& post.tasks@[c] == (Task {
                needs_wake: true,
                run: post.tasks@[c].run,
                ..t0
            })
            &&& run_view(post.tasks@[c].run) == (RunV::AcceptWaitConn {
                name: name,
            })
            &&& post == (Kernel {
                tasks: post.tasks,
                ports: post.ports,
                ..pre
            })
        }
}

/// Exact effect of `resume_accept_wait`.
#[verifier::opaque]
pub open spec fn accept_wait_effect(pre: Kernel, post: Kernel, name: Seq<u8>) -> bool {
        let c = pre.cur as int;
        let t0 = pre.tasks@[c];
        if !t0.needs_wake {
            faulted_same(pre, post)
        } else if !has_port(pre.ports@, name) {
            faulted_same(pre, post)
        } else {
            let i = port_at(pre.ports@, name);
            let q = pre.ports@[i].1.activate_pids@;
            if q.len() == 0 {
                post == pre
            } else {
                if exists|j: int|
                    0 <= j < pre.tasks@.len() && pre.tasks@[j].pid == q[0] {
                    let j = choose|j: int|
                        0 <= j < pre.tasks@.len() && pre.tasks@[j].pid == q[0]
                            && forall|k: int| 0 <= k < j ==> pre.tasks@[k].pid != q[0];
                    if j != c && pre.tasks@[j].needs_wake {
                        &&& !post.fault
                        &&& port_queue_popped(pre.ports@, post.ports@, i)
                        &&& tasks_match_except2(
                            pre.tasks@,
                            post.tasks@,
                            c,
                            j,
                        )
                        &&& post.tasks@[j] == (Task {
                            wakeop: wake_note(WakeType::WakeServerReady, t0.pid),
                            needs_wake: false,
                            ..pre.tasks@[j]
                        })
                        &&& post.tasks@[c] == (Task {
                            run: post.tasks@[c].run,
                            ..t0
                        })
                        &&& run_view(post.tasks@[c].run) == RunV::AcceptPaired
                        &&& post == (Kernel {
                            tasks: post.tasks,
                            ports: post.ports,
                            ..pre
                        })
                    } else {
                        faulted_same(pre, post)
                    }
                } else {
                    &&& !post.fault
                    &&& port_queue_popped(pre.ports@, post.ports@, i)
                    &&& post.tasks@ == pre.tasks@
                    &&& post == (Kernel { ports: post.ports, ..pre })
                }
            }
        }
}

/// Exact effect of `resume_accept_paired`.
#[verifier::opaque]
pub open spec fn accept_paired_effect(pre: Kernel, post: Kernel) -> bool {
        let c = pre.cur as int;
        let t0 = pre.tasks@[c];
        if t0.needs_wake {
            post == pre
        } else if !(t0.wakeop matches Some(k) && k.wake_type == WakeType::WakeConnection) {
            faulted_same(pre, post)
        } else {
            let from = t0.wakeop->Some_0.waker;
            if exists|j: int|
                0 <= j < pre.tasks@.len() && pre.tasks@[j].pid == from {
                let j = choose|j: int|
                    0 <= j < pre.tasks@.len() && pre.tasks@[j].pid == from
                        && forall|k: int| 0 <= k < j ==> pre.tasks@[k].pid != from;
                if j != c && pre.tasks@[j].needs_wake {
                    &&& !post.fault
                    &&& tasks_match_except2(pre.tasks@, post.tasks@, c, j)
                    &&& post.tasks@[j] == (Task {
                        wakeop: wake_note(WakeType::WakeConnection, t0.pid),
                        needs_wake: false,
                        ..pre.tasks@[j]
                    })
                    &&& post.tasks@[c] == (Task {
                        responding_to: from,
                        run: post.tasks@[c].run,
                        ..t0
                    })
                    &&& run_view(post.tasks@[c].run) == RunV::AcceptFinish
                    &&& post == (Kernel { tasks: post.tasks, ..pre })
                } else {
                    faulted_same(pre, post)
                }
            } else {
                faulted_same(pre, post)
            }
        }
}

/// Exact effect of `resume_accept_finish`.
#[verifier::opaque]
pub open spec fn accept_finish_effect(pre: Kernel, post: Kernel) -> bool {
        let c = pre.cur as int;
        let t0 = pre.tasks@[c];
        &&& !post.fault
        &&& tasks_match_except(pre.tasks@, post.tasks@, c)
        &&& post.tasks@[c] == (Task {
            run: post.tasks@[c].run,
            rets: post.tasks@[c].rets,
            ..t0
        })
        &&& post.tasks@[c].rets@ == t0.rets@.push(0u64)
        &&& run_view(post.tasks@[c].run) == RunV::Ready
        &&& post == (Kernel { tasks: post.tasks, ..pre })
}

/// Exact effect of `op_respond_entry`.
#[verifier::opaque]
pub open spec fn respond_entry_effect(pre: Kernel, post: Kernel, done: Option<u64>) -> bool {
        let c = pre.cur as int;
        let t0 = pre.tasks@[c];
        let resp = t0.responding_to;
        if exists|j: int|
            0 <= j < pre.tasks@.len() && pre.tasks@[j].pid == resp {
            let j = choose|j: int|
                0 <= j < pre.tasks@.len() && pre.tasks@[j].pid == resp
                    && forall|k: int| 0 <= k < j ==> pre.tasks@[k].pid != resp;
            if j != c && pre.tasks@[j].needs_wake {
                &&& done is None
                &&& !post.fault
                &&& tasks_match_except2(pre.tasks@, post.tasks@, c, j)
                &&& post.tasks@[j] == (Task {
                    wakeop: wake_note(WakeType::WakeResponded, t0.pid),
                    needs_wake: false,
                    ..pre.tasks@[j]
                })
                &&& post.tasks@[c] == (Task {
                    run: post.tasks@[c].run,
                    ..t0
                })
                &&& run_view(post.tasks@[c].run) == RunV::RespondYield
                &&& post == (Kernel { tasks: post.tasks, ..pre })
            } else {
                done is None && faulted_same(pre, post)
            }
        } else {
            done == Some(0u64) && post == pre
        }
}

/// Exact effect of `resume_respond_yield`.
#[verifier::opaque]
pub open spec fn respond_yield_effect(pre: Kernel, post: Kernel) -> bool {
        let c = pre.cur as int;
        let t0 = pre.tasks@[c];
        if t0.box1 is None && t0.box2 is None {
            &&& !post.fault
            &&& tasks_match_except(pre.tasks@, post.tasks@, c)
            &&& post.tasks@[c] == (Task {
                run: post.tasks@[c].run,
                rets: post.tasks@[c].rets,
                ..t0
            })
            &&& post.tasks@[c].rets@ == t0.rets@.push(0u64)
            &&& run_view(post.tasks@[c].run) == RunV::Ready
            &&& post == (Kernel { tasks: post.tasks, ..pre })
        } else {
            faulted_same(pre, post)
        }
}

impl Kernel {
    /// Starts the rendezvous `send` for the current task against the named
    /// port: the client enqueues itself and blocks until an accepting
    /// server pops it. Sending to an unregistered port is fatal. When the
    /// port's owner has no task record, the send is skipped silently, as a
    /// send to a dead server. Answers `Some(0)` when the send completed at
    /// once, `None` when the task is now blocked.
    pub fn op_send_entry(&mut self, name: Vec<u8>) -> (done: Option<u64>)
        requires
            old(self).wf(),
            !old(self).fault,
        ensures
            final(self).wf(),
            send_entry_effect(*old(self), *final(self), name@, done),
    {
        proof {
            reveal(crate::rendezvous::send_entry_effect);
        }
        let c = self.cur;
        let i = match find_port(&self.ports, &name) {
            Some(i) => i,
            None => {
                self.fault = true;
                return None;
            },
        };
        let owner = self.ports[i].1.pid;
        match self.find_task(owner) {
            Some(_) => {
                let pid = self.tasks[c].pid;
                self.ports[i].1.activate_pids.push(pid);
                self.tasks[c].needs_wake = true;
                self.tasks[c].run = RunState::SendWaitReady { name };
                proof {
                    assert(crate::ports::port_names_unique(self.ports@)) by {
                        assert(forall|k: int|
                            0 <= k < self.ports@.len() ==> self.ports@[k].0 == old(
                                self,
                            ).ports@[k].0);
                    }
                }
                None
            },
            None => Some(0),
        }
    }

    /// One spin of a client blocked in the first `send` phase. While the
    /// wake notice is missing the state is untouched. A popped client
    /// checks its notice — anything but the server's `WakeServerReady` is
    /// fatal — and then either re-enqueues itself (port not yet active) or
    /// acknowledges the accepting server by writing `WakeConnection` to it
    /// and blocks for the server's own `WakeConnection`. A vanished port,
    /// a vanished server task, or a server that is not awaiting a wake is
    /// fatal.
    pub fn resume_send_wait_ready(&mut self, name: Vec<u8>)
        requires
            old(self).wf(),
            !old(self).fault,
            run_view(old(self).tasks@[old(self).cur as int].run) == (RunV::SendWaitReady {
                name: name@,
            }),
        ensures
            final(self).wf(),
            send_wait_ready_effect(*old(self), *final(self), name@),
    {
        proof {
            reveal(crate::rendezvous::send_wait_ready_effect);
        }
        let c = self.cur;
        if self.tasks[c].needs_wake {
            return;
        }
        let i = match find_port(&self.ports, &name) {
            Some(i) => i,
            None => {
                self.fault = true;
                return;
            },
        };
        let owner = self.ports[i].1.pid;
        let wake_ok = match &self.tasks[c].wakeop {
            Some(k) => matches!(k.wake_type, WakeType::WakeServerReady) && k.waker == owner,
            None => false,
        };
        if !wake_ok {
            self.fault = true;
            return;
        }
        if !self.ports[i].1.is_active {
            let pid = self.tasks[c].pid;
            self.ports[i].1.activate_pids.push(pid);
            self.tasks[c].needs_wake = true;
            self.tasks[c].run = RunState::SendWaitReady { name };
            proof {
                assert(crate::ports::port_names_unique(self.ports@)) by {
                    assert(forall|k: int|
                        0 <= k < self.ports@.len() ==> self.ports@[k].0 == old(self).ports@[k].0);
                }
            }
            return;
        }
        let j = match self.find_task(owner) {
            Some(j) => j,
            None => {
                self.fault = true;
                return;
            },
        };
        if !self.tasks[j].needs_wake || j == c {
            self.fault = true;
            return;
        }
        let pid = self.tasks[c].pid;
        self.tasks[j].wakeop = Some(
            Wakeop { wake_type: WakeType::WakeConnection, waker: pid, is_cross_task_call: false },
        );
        self.tasks[j].needs_wake = false;
        self.tasks[c].needs_wake = true;
        self.tasks[c].run = RunState::SendWaitConn { name };
    }

    /// One spin of a client blocked in the second `send` phase. Once the
    /// server's `WakeConnection` arrives — anything else is fatal — the
    /// client moves ownership of both transfer buffers into the server's
    /// record (its own slots become empty; nothing is copied) and blocks
    /// for the response.
    pub fn resume_send_wait_conn(&mut self, name: Vec<u8>)
        requires
            old(self).wf(),
            !old(self).fault,
            run_view(old(self).tasks@[old(self).cur as int].run) == (RunV::SendWaitConn {
                name: name@,
            }),
        ensures
            final(self).wf(),
            send_wait_conn_effect(*old(self), *final(self), name@),
    {
        proof {
            reveal(crate::rendezvous::send_wait_conn_effect);
        }
        let c = self.cur;
        if self.tasks[c].needs_wake {
            return;
        }
        let i = match find_port(&self.ports, &name) {
            Some(i) => i,
            None => {
                self.fault = true;
                return;
            },
        };
        let owner = self.ports[i].1.pid;
        let wake_ok = match &self.tasks[c].wakeop {
            Some(k) => matches!(k.wake_type, WakeType::WakeConnection) && k.waker == owner,
            None => false,
        };
        if !wake_ok {
            self.fault = true;
            return;
        }
        let j = match self.find_task(owner) {
            Some(j) => j,
            None => {
                self.fault = true;
                return;
            },
        };
        if j == c {
            self.fault = true;
            return;
        }
        let mut b1: Option<Vec<u8>> = None;
        let mut b2: Option<Vec<u8>> = None;
        core::mem::swap(&mut b1, &mut self.tasks[c].box1);
        core::mem::swap(&mut b2, &mut self.tasks[c].box2);
        self.tasks[j].box1 = b1;
        self.tasks[j].box2 = b2;
        self.tasks[c].needs_wake = true;
        self.tasks[c].run = RunState::SendWaitResp { name };
    }

    /// One spin of a client blocked in the last `send` phase. Once the
    /// server's `WakeResponded` arrives — anything else is fatal — the
    /// client frees anything still in its own slots and adopts the server's
    /// buffers, which now carry the response; the server's slots become
    /// empty. The send syscall then returns 0.
    pub fn resume_send_wait_resp(&mut self, name: Vec<u8>)
        requires
            old(self).wf(),
            !old(self).fault,
            run_view(old(self).tasks@[old(self).cur as int].run) == (RunV::SendWaitResp {
                name: name@,
            }),
        ensures
            final(self).wf(),
            send_wait_resp_effect(*old(self), *final(self), name@),
    {
        proof {
            reveal(crate::rendezvous::send_wait_resp_effect);
        }
        let c = self.cur;
        if self.tasks[c].needs_wake {
            return;
        }
        let i = match find_port(&self.ports, &name) {
            Some(i) => i,
            None => {
                self.fault = true;
                return;
            },
        };
        let owner = self.ports[i].1.pid;
        let wake_ok = match &self.tasks[c].wakeop {
            Some(k) => matches!(k.wake_type, WakeType::WakeResponded) && k.waker == owner,
            None => false,
        };
        if !wake_ok {
            self.fault = true;
            return;
        }
        let j = match self.find_task(owner) {
            Some(j) => j,
            None => {
                self.fault = true;
                return;
            },
        };
        if j == c {
            self.fault = true;
            return;
        }
        let mut b1: Option<Vec<u8>> = None;
        let mut b2: Option<Vec<u8>> = None;
        core::mem::swap(&mut b1, &mut self.tasks[j].box1);
        core::mem::swap(&mut b2, &mut self.tasks[j].box2);
        self.tasks[c].box1 = b1;
        self.tasks[c].box2 = b2;
        self.tasks[c].rets.push(0);
        self.tasks[c].run = RunState::Ready;
    }

    /// Starts `accept` for the current task on the named port, which must
    /// exist (anything else is fatal): marks the port as actively
    /// accepting and blocks; the spins drain the port queue.
    pub fn op_accept_entry(&mut self, name: Vec<u8>) -> (done: Option<u64>)
        requires
            old(self).wf(),
            !old(self).fault,
        ensures
            final(self).wf(),
            done is None,
            accept_entry_effect(*old(self), *final(self), name@),
    {
        proof {
            reveal(crate::rendezvous::accept_entry_effect);
        }
        let c = self.cur;
        let i = match find_port(&self.ports, &name) {
            Some(i) => i,
            None => {
                self.fault = true;
                return None;
            },
        };
        self.ports[i].1.is_active = true;
        self.tasks[c].needs_wake = true;
        self.tasks[c].run = RunState::AcceptWaitConn { name };
        proof {
            assert(crate::ports::port_names_unique(self.ports@)) by {
                assert(forall|k: int|
                    0 <= k < self.ports@.len() ==> self.ports@[k].0 == old(self).ports@[k].0);
            }
        }
        None
    }

    /// One spin of a server blocked in `accept`. With an empty port queue
    /// nothing at all changes: accept keeps blocking until a send against
    /// the same name arrives. When a client is queued, the server pops it
    /// and wakes it with `WakeServerReady`, then keeps waiting for that
    /// client's acknowledgment; a popped client whose task record is gone
    /// is dropped silently; a popped client that was not awaiting a wake is
    /// fatal, as is a wake notice arriving in this phase or a vanished
    /// port.
    pub fn resume_accept_wait(&mut self, name: Vec<u8>)
        requires
            old(self).wf(),
            !old(self).fault,
            run_view(old(self).tasks@[old(self).cur as int].run) == (RunV::AcceptWaitConn {
                name: name@,
            }),
        ensures
            final(self).wf(),
            accept_wait_effect(*old(self), *final(self), name@),
    {
        proof {
            reveal(crate::rendezvous::accept_wait_effect);
        }
        let c = self.cur;
        if !self.tasks[c].needs_wake {
            self.fault = true;
            return;
        }
        let i = match find_port(&self.ports, &name) {
            Some(i) => i,
            None => {
                self.fault = true;
                return;
            },
        };
        if self.ports[i].1.activate_pids.len() == 0 {
            return;
        }
        let q = self.ports[i].1.activate_pids[0];
        let j = match self.find_task(q) {
            Some(j) => j,
            None => {
                self.ports[i].1.activate_pids.remove(0);
                proof {
                    assert(crate::ports::port_names_unique(self.ports@)) by {
                        assert(forall|k: int|
                            0 <= k < self.ports@.len() ==> self.ports@[k].0 == old(
                                self,
                            ).ports@[k].0);
                    }
                    assert(self.ports@[i as int].1.activate_pids@ =~= old(
                        self,
                    ).ports@[i as int].1.activate_pids@.drop_first());
                }
                return;
            },
        };
        if j == c || !self.tasks[j].needs_wake {
            self.fault = true;
            return;
        }
        self.ports[i].1.activate_pids.remove(0);
        proof {
            assert(crate::ports::port_names_unique(self.ports@)) by {
                assert(forall|k: int|
                    0 <= k < self.ports@.len() ==> self.ports@[k].0 == old(self).ports@[k].0);
            }
            assert(self.ports@[i as int].1.activate_pids@ =~= old(
                self,
            ).ports@[i as int].1.activate_pids@.drop_first());
        }
        let pid = self.tasks[c].pid;
        self.tasks[j].wakeop = Some(
            Wakeop { wake_type: WakeType::WakeServerReady, waker: pid, is_cross_task_call: false },
        );
        self.tasks[j].needs_wake = false;
        self.tasks[c].run = RunState::AcceptPaired;
    }

    /// One spin of a server paired with a client. While the client's
    /// acknowledgment is missing the state is untouched. Once the
    /// `WakeConnection` notice arrives — anything else is fatal — the
    /// server records the connecting pid as the one it is responding to
    /// and wakes that client with its own `WakeConnection`; the client
    /// must exist and be awaiting the wake, anything else is fatal. The
    /// server then yields once before `accept` returns, so the client
    /// hands its buffers over first.
    pub fn resume_accept_paired(&mut self)
        requires
            old(self).wf(),
            !old(self).fault,
            run_view(old(self).tasks@[old(self).cur as int].run) == RunV::AcceptPaired,
        ensures
            final(self).wf(),
            accept_paired_effect(*old(self), *final(self)),
    {
        proof {
            reveal(crate::rendezvous::accept_paired_effect);
        }
        let c = self.cur;
        if self.tasks[c].needs_wake {
            return;
        }
        let from = match &self.tasks[c].wakeop {
            Some(k) => {
                if matches!(k.wake_type, WakeType::WakeConnection) {
                    k.waker
                } else {
                    self.fault = true;
                    return;
                }
            },
            None => {
                self.fault = true;
                return;
            },
        };
        let j = match self.find_task(from) {
            Some(j) => j,
            None => {
                self.fault = true;
                return;
            },
        };
        if j == c || !self.tasks[j].needs_wake {
            self.fault = true;
            return;
        }
        let pid = self.tasks[c].pid;
        self.tasks[c].responding_to = from;
        self.tasks[j].wakeop = Some(
            Wakeop { wake_type: WakeType::WakeConnection, waker: pid, is_cross_task_call: false },
        );
        self.tasks[j].needs_wake = false;
        self.tasks[c].run = RunState::AcceptFinish;
    }

    /// The last slice of `accept`: the extra yield has passed, the syscall
    /// returns 0 to the server.
    pub fn resume_accept_finish(&mut self)
        requires
            old(self).wf(),
            !old(self).fault,
            run_view(old(self).tasks@[old(self).cur as int].run) == RunV::AcceptFinish,
        ensures
            final(self).wf(),
            accept_finish_effect(*old(self), *final(self)),
    {
        proof {
            reveal(crate::rendezvous::accept_finish_effect);
        }
        let c = self.cur;
        self.tasks[c].rets.push(0);
        self.tasks[c].run = RunState::Ready;
    }

    /// Starts `respond`: completes the rendezvous for the task the server
    /// is currently responding to, waking it with `WakeResponded`, and
    /// yields once so the client can observe the wake. When no task record
    /// carries that pid the respond falls through and answers 0 at once; a
    /// client that is not awaiting a wake is fatal.
    pub fn op_respond_entry(&mut self) -> (done: Option<u64>)
        requires
            old(self).wf(),
            !old(self).fault,
        ensures
            final(self).wf(),
            respond_entry_effect(*old(self), *final(self), done),
    {
        proof {
            reveal(crate::rendezvous::respond_entry_effect);
        }
        let c = self.cur;
        let resp = self.tasks[c].responding_to;
        let j = match self.find_task(resp) {
            Some(j) => j,
            None => {
                return Some(0);
            },
        };
        if j == c || !self.tasks[j].needs_wake {
            self.fault = true;
            return None;
        }
        let pid = self.tasks[c].pid;
        self.tasks[j].wakeop = Some(
            Wakeop { wake_type: WakeType::WakeResponded, waker: pid, is_cross_task_call: false },
        );
        self.tasks[j].needs_wake = false;
        self.tasks[c].run = RunState::RespondYield;
        None
    }

    /// The slice after `respond`'s single yield: by now the responded
    /// client must have adopted the server's buffers, so both of the
    /// server's slots must be empty — anything else is fatal. The respond
    /// syscall then returns 0.
    pub fn resume_respond_yield(&mut self)
        requires
            old(self).wf(),
            !old(self).fault,
            run_view(old(self).tasks@[old(self).cur as int].run) == RunV::RespondYield,
        ensures
            final(self).wf(),
            respond_yield_effect(*old(self), *final(self)),
    {
        proof {
            reveal(crate::rendezvous::respond_yield_effect);
        }
        let c = self.cur;
        let empty1 = matches!(&self.tasks[c].box1, None);
        let empty2 = matches!(&self.tasks[c].box2, None);
        if !empty1 || !empty2 {
            self.fault = true;
            return;
        }
        self.tasks[c].rets.push(0);
        self.tasks[c].run = RunState::Ready;
    }
}

} // verus!
