use vstd::prelude::*;
use crate::kernel::Kernel;
use crate::machine::advance_effect;
use crate::task::{RunState, Syscall, Task};

verus! {

/// The cursor a round-robin scheduler reaches after some number of steps,
/// one wrapping increment per step.
pub open spec fn rr_cursor(c0: int, n: nat, len: int) -> int
    decreases n,
{
    if n == 0 {
        c0
    } else {
        (rr_cursor(c0, (n - 1) as nat, len) + 1) % len
    }
}

/// Round-robin law, cursor form: after any number of scheduler steps the
/// cursor stands at its starting position plus the number of steps, modulo
/// the number of tasks. No task is ever skipped and none is visited twice
/// per round.
pub proof fn lemma_round_robin_cursor(c0: int, n: nat, len: int)
    requires
        0 < len,
        0 <= c0 < len,
    ensures
        rr_cursor(c0, n, len) == (c0 + n) % len,
    decreases n,
{
    if n == 0 {
        vstd::arithmetic::div_mod::lemma_small_mod(c0 as nat, len as nat);
    } else {
        lemma_round_robin_cursor(c0, (n - 1) as nat, len);
        vstd::arithmetic::div_mod::lemma_mod_bound(c0 + n - 1, len);
        if len == 1 {
            vstd::arithmetic::div_mod::lemma_mod_bound(c0 + n, len);
            vstd::arithmetic::div_mod::lemma_mod_bound(((c0 + n - 1) % len) + 1, len);
        } else {
            crate::queue::lemma_ring_add(c0 + n - 1, 1, len);
            vstd::arithmetic::div_mod::lemma_small_mod(1nat, len as nat);
        }
    }
}

/// Round-robin law, machine form: along any run of scheduler steps, the
/// machine at step `i` has its cursor at the starting cursor plus `i`,
/// modulo the unchanged number of tasks; and each step snapshots exactly
/// the live register state of the task it switches out, so that the
/// snapshot loaded when a task is switched back in reproduces what was
/// live when it was switched out.
pub proof fn lemma_round_robin(ks: Seq<Kernel>)
    requires
        ks.len() >= 1,
        ks[0].wf(),
        forall|i: int| 0 <= i < ks.len() - 1 ==> #[trigger] advance_effect(ks[i], ks[i + 1]),
    ensures
        forall|i: int|
            0 <= i < ks.len() ==> (#[trigger] ks[i].tasks@.len()) == ks[0].tasks@.len(),
        forall|i: int|
            0 <= i < ks.len() ==> (#[trigger] ks[i].cur) as int == (ks[0].cur + i) % (
            ks[0].tasks@.len() as int),
        forall|i: int|
            0 <= i < ks.len() - 1 ==> (#[trigger] ks[i + 1].tasks@)[ks[i].cur as int].state
                == ks[i].live,
    decreases ks.len(),
{
    let len = ks[0].tasks@.len() as int;
    if ks.len() == 1 {
        vstd::arithmetic::div_mod::lemma_small_mod(ks[0].cur as nat, len as nat);
    } else {
        let prefix = ks.drop_last();
        assert(forall|i: int| 0 <= i < prefix.len() ==> #[trigger] prefix[i] == ks[i]);
        assert(forall|i: int|
            0 <= i < prefix.len() - 1 ==> #[trigger] advance_effect(prefix[i], prefix[i + 1]))
            by {
            assert(forall|i: int|
                0 <= i < prefix.len() - 1 ==> #[trigger] advance_effect(ks[i], ks[i + 1]));
        }
        lemma_round_robin(prefix);
        let m = ks.len() - 2;
        assert(advance_effect(ks[m], ks[m + 1]));
        assert(ks[m].tasks@.len() == len) by {
            assert(prefix[m] == ks[m]);
            assert(prefix[m].tasks@.len() == prefix[0].tasks@.len());
        }
        assert(ks[m].cur as int == (ks[0].cur + m) % len) by {
            assert(prefix[m].cur as int == (prefix[0].cur + m) % (prefix[0].tasks@.len() as int));
        }
        vstd::arithmetic::div_mod::lemma_mod_bound(ks[0].cur + m, len);
        assert(0 <= ks[m].cur < len);
        assert(ks[m + 1].tasks@ == ks[m].tasks@.update(
            ks[m].cur as int,
            (Task { state: ks[m].live, ..ks[m].tasks@[ks[m].cur as int] }),
        ));
        assert(ks[m + 1].tasks@.len() == len);
        if len == 1 {
            vstd::arithmetic::div_mod::lemma_mod_bound(ks[0].cur + m + 1, len);
        } else {
            crate::queue::lemma_ring_add(ks[0].cur + m, 1, len);
            vstd::arithmetic::div_mod::lemma_small_mod(1nat, len as nat);
        }
        assert(ks[m + 1].cur as int == (ks[0].cur + (m + 1)) % len);
        assert(ks[m + 1].tasks@[ks[m].cur as int].state == ks[m].live);
        assert forall|i: int|
            0 <= i < ks.len() implies (#[trigger] ks[i].tasks@.len()) == ks[0].tasks@.len() by {
            if i < ks.len() - 1 {
                assert(prefix[i] == ks[i]);
                assert(prefix[i].tasks@.len() == prefix[0].tasks@.len());
            }
        }
        assert forall|i: int|
            0 <= i < ks.len() implies ((#[trigger] ks[i].cur) as int) == (ks[0].cur + i) % len by {
            if i < ks.len() - 1 {
                assert(prefix[i] == ks[i]);
                assert(prefix[i].cur as int == (prefix[0].cur + i) % (
                prefix[0].tasks@.len() as int));
            }
        }
        assert forall|i: int|
            0 <= i < ks.len() - 1 implies (#[trigger] ks[i + 1].tasks@)[ks[i].cur as int].state
            == ks[i].live by {
            if i < ks.len() - 2 {
                assert(prefix[i] == ks[i]);
                assert(prefix[i + 1] == ks[i + 1]);
                assert(prefix[i + 1].tasks@[prefix[i].cur as int].state == prefix[i].live);
            }
        }
    }
}

/// Blocking law of `accept`: a server spinning inside `accept` on a port
/// with no waiting clients changes nothing at all — the accept does not
/// return, the machine only yields — until a send against the same name
/// has queued a client.
pub proof fn lemma_accept_blocks(pre: Kernel, post: Kernel, name: Seq<u8>)
    requires
        crate::rendezvous::accept_wait_effect(pre, post, name),
        pre.tasks@[pre.cur as int].needs_wake,
        crate::ports::has_port(pre.ports@, name),
        pre.ports@[crate::ports::port_at(pre.ports@, name)].1.activate_pids@.len() == 0,
    ensures
        post == pre,
{
    reveal(crate::rendezvous::accept_wait_effect);
}

/// Rendezvous round-trip law: a client that binds any payload and sends it
/// to a port whose server listens, accepts and responds without touching
/// the buffers gets exactly its own payload back in transfer buffer A.
/// The run below drives both tasks through the complete two-phase
/// handshake under the round-robin scheduler, one slice per turn, and
/// returns the client's final buffer A: provably the very bytes that went
/// in, under any payload and any port name.
pub fn rendezvous_echo_roundtrip(payload: Vec<u8>, name: Vec<u8>) -> (out: Vec<u8>)
    ensures
        out@ == payload@,
{
    proof {
        reveal(crate::machine::listen_effect);
        reveal(crate::rendezvous::send_entry_effect);
        reveal(crate::rendezvous::send_wait_ready_effect);
        reveal(crate::rendezvous::send_wait_conn_effect);
        reveal(crate::rendezvous::send_wait_resp_effect);
        reveal(crate::rendezvous::accept_entry_effect);
        reveal(crate::rendezvous::accept_wait_effect);
        reveal(crate::rendezvous::accept_paired_effect);
        reveal(crate::rendezvous::accept_finish_effect);
        reveal(crate::rendezvous::respond_entry_effect);
        reveal(crate::rendezvous::respond_yield_effect);
    }
    let ghost nv = name@;
    let ghost pv = payload@;
    let mut k = Kernel::boot(Vec::new(), Vec::new());
    let client_pid = k.mkpid();
    let rsp0 = k.alloc_stack(crate::kernel::INTERRUPT_STACK_SIZE);
    let rsp_ptr = k.alloc_rsp_ptr(String::new());
    k.enqueue(
        Task {
            state: crate::context::Jmpbuf::new(),
            rsp0,
            rsp_ptr,
            pid: client_pid,
            box1: None,
            box2: None,
            program_break: 0,
            wakeop: None,
            needs_wake: false,
            uid: -1,
            responding_to: 0,
            run: RunState::Ready,
            program: Vec::new(),
            pc: 0,
            rets: Vec::new(),
        },
    );
    proof {
        assert(k.tasks@.len() == 2);
        assert(k.tasks@[0].pid == 1 && k.tasks@[1].pid == 2);
    }
    // server (task 0, pid 1) registers the port and begins accepting
    k.sys_listen(crate::task::clone_bytes(&name));
    proof {
        assert(crate::ports::port_at(k.ports@, nv) == 0);
        assert(k.ports@.len() == 1 && k.ports@[0].0@ == nv && k.ports@[0].1.pid == 1);
    }
    k.op_accept_entry(crate::task::clone_bytes(&name));
    proof {
        assert(k.ports@[0].1.is_active && k.ports@[0].1.activate_pids@ =~= Seq::<u64>::empty());
        assert(crate::task::run_view(k.tasks@[0].run) == (crate::task::RunV::AcceptWaitConn {
            name: nv,
        }));
        assert(k.tasks@[0].needs_wake);
    }
    k.advance();
    proof {
        assert(k.cur == 1);
        assert(k.tasks@[1].pid == 2 && k.tasks@[1].run is Ready && !k.tasks@[1].needs_wake);
    }
    // client (task 1, pid 2) binds the payload and starts the send
    k.sys_bind_buffer(payload);
    proof {
        assert(crate::task::buf_view(k.tasks@[1].box1) == Some(pv));
        assert(k.tasks@[1].box2 is None);
    }
    proof {
        assert(crate::ports::port_at(k.ports@, nv) == 0) by {
            assert(k.ports@[0].0@ == nv);
        }
        assert(k.ports@[0].1.activate_pids@ =~= Seq::<u64>::empty());
        assert(k.ports@[0].1.pid == 1 && k.tasks@[0].pid == 1);
    }
    k.op_send_entry(crate::task::clone_bytes(&name));
    proof {
        assert(crate::ports::port_at(k.ports@, nv) == 0) by {
            assert(k.ports@[0].0@ == nv);
        }
        assert(k.ports@[0].1.activate_pids@ =~= seq![2u64]);
        assert(crate::task::run_view(k.tasks@[1].run) == (crate::task::RunV::SendWaitReady {
            name: nv,
        }));
        assert(k.tasks@[1].needs_wake);
        assert(crate::task::buf_view(k.tasks@[1].box1) == Some(pv));
    }
    k.advance();
    // server pops the queued client and acknowledges it
    proof {
        assert(k.cur == 0);
    }
    k.resume_accept_wait(crate::task::clone_bytes(&name));
    proof {
        assert(crate::ports::port_at(k.ports@, nv) == 0) by {
            assert(k.ports@[0].0@ == nv);
        }
        assert(crate::task::run_view(k.tasks@[0].run) == crate::task::RunV::AcceptPaired);
        assert(!k.tasks@[1].needs_wake);
        assert(crate::rendezvous::wake_matches(
            k.tasks@[1],
            crate::task::WakeType::WakeServerReady,
            1,
        ));
    }
    k.advance();
    // client observes the acknowledgment and connects
    proof {
        assert(k.cur == 1);
    }
    k.resume_send_wait_ready(crate::task::clone_bytes(&name));
    proof {
        assert(crate::task::run_view(k.tasks@[1].run) == (crate::task::RunV::SendWaitConn {
            name: nv,
        }));
        assert(!k.tasks@[0].needs_wake && k.tasks@[1].needs_wake);
        assert(crate::rendezvous::wake_matches(
            k.tasks@[0],
            crate::task::WakeType::WakeConnection,
            2,
        ));
        assert(crate::task::buf_view(k.tasks@[1].box1) == Some(pv));
    }
    k.advance();
    // server records the connection and invites the hand-over
    proof {
        assert(k.cur == 0);
    }
    k.resume_accept_paired();
    proof {
        assert(crate::task::run_view(k.tasks@[0].run) == crate::task::RunV::AcceptFinish);
        assert(k.tasks@[0].responding_to == 2);
        assert(!k.tasks@[1].needs_wake);
        assert(crate::rendezvous::wake_matches(
            k.tasks@[1],
            crate::task::WakeType::WakeConnection,
            1,
        ));
    }
    k.advance();
    // client hands both buffers over to the server
    proof {
        assert(k.cur == 1);
    }
    k.resume_send_wait_conn(crate::task::clone_bytes(&name));
    proof {
        assert(crate::task::buf_view(k.tasks@[0].box1) == Some(pv));
        assert(k.tasks@[0].box2 is None);
        assert(k.tasks@[1].box1 is None && k.tasks@[1].box2 is None);
        assert(crate::task::run_view(k.tasks@[1].run) == (crate::task::RunV::SendWaitResp {
            name: nv,
        }));
        assert(k.tasks@[1].needs_wake);
    }
    k.advance();
    // accept returns to the server, which responds without touching the
    // buffers
    proof {
        assert(k.cur == 0);
        assert(crate::task::run_view(k.tasks@[0].run) == crate::task::RunV::AcceptFinish);
    }
    k.resume_accept_finish();
    k.op_respond_entry();
    proof {
        assert(crate::task::run_view(k.tasks@[0].run) == crate::task::RunV::RespondYield);
        assert(!k.tasks@[1].needs_wake);
        assert(crate::rendezvous::wake_matches(
            k.tasks@[1],
            crate::task::WakeType::WakeResponded,
            1,
        ));
        assert(crate::task::buf_view(k.tasks@[0].box1) == Some(pv));
    }
    k.advance();
    // client observes the response and adopts the server's buffers
    proof {
        assert(k.cur == 1);
    }
    k.resume_send_wait_resp(crate::task::clone_bytes(&name));
    proof {
        assert(crate::task::buf_view(k.tasks@[1].box1) == Some(pv));
        assert(k.tasks@[0].box1 is None && k.tasks@[0].box2 is None);
    }
    k.advance();
    // the respond syscall returns on the emptied server
    proof {
        assert(k.cur == 0);
    }
    k.resume_respond_yield();
    proof {
        assert(crate::task::buf_view(k.tasks@[1].box1) == Some(pv));
    }
    let c: usize = 1;
    let mut out: Option<Vec<u8>> = None;
    core::mem::swap(&mut out, &mut k.tasks[c].box1);
    match out {
        Some(v) => v,
        None => unreached(),
    }
}

} // verus!
