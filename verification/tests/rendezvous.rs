use ohes_core::{Jmpbuf, Kernel, RunState, Syscall, Task};

fn blank_task(pid: u64, program: Vec<Syscall>) -> Task {
    Task {
        state: Jmpbuf::new(),
        rsp0: 0,
        rsp_ptr: 0,
        pid,
        box1: None,
        box2: None,
        program_break: 0,
        wakeop: None,
        needs_wake: false,
        uid: -1,
        responding_to: 0,
        run: RunState::Ready,
        program,
        pc: 0,
        rets: Vec::new(),
    }
}

#[test]
fn echo_rendezvous_returns_payload() {
    // a full rendezvous against a server that responds without touching
    // the buffers hands the client its own payload back
    let out = ohes_core::rendezvous_echo_roundtrip(b"any payload at all".to_vec(), b"echo".to_vec());
    assert_eq!(out, b"any payload at all".to_vec());
}

#[test]
fn ping_pong_under_the_scheduler() {
    // client sends PING on port "svc"; the server parks the request with a
    // buffer swap and answers PONG; the client's buffer A ends as PONG
    let server = vec![
        Syscall::Listen(b"svc".to_vec()),
        Syscall::Accept(b"svc".to_vec()),
        Syscall::SwapBuffers,
        Syscall::BindBuffer(b"PONG".to_vec()),
        Syscall::Respond,
    ];
    let client = vec![
        Syscall::BindBuffer(b"PING".to_vec()),
        Syscall::Send(b"svc".to_vec()),
    ];
    let mut k = Kernel::boot(server, Vec::new());
    k.enqueue(blank_task(2, client));
    let mut acts = Vec::new();
    k.run_steps(64, &mut acts);
    assert!(!k.fault);
    assert_eq!(k.tasks[1].box1, Some(b"PONG".to_vec()));
    // the parked request rode back in buffer B
    assert_eq!(k.tasks[1].box2, Some(b"PING".to_vec()));
    // both syscalls answered 0
    assert_eq!(k.tasks[1].rets, vec![0, 0]);
    assert_eq!(k.tasks[0].rets, vec![0, 0, 0, 0, 0]);
    // the server's slots were emptied when the client adopted them
    assert_eq!(k.tasks[0].box1, None);
    assert_eq!(k.tasks[0].box2, None);
}

#[test]
fn accept_blocks_until_a_send_arrives() {
    let server = vec![
        Syscall::Listen(b"svc".to_vec()),
        Syscall::Accept(b"svc".to_vec()),
        Syscall::Respond,
    ];
    // the client dawdles before sending, so accept must wait
    let client = vec![
        Syscall::Klog(b"a".to_vec()),
        Syscall::Klog(b"b".to_vec()),
        Syscall::Klog(b"c".to_vec()),
        Syscall::BindBuffer(b"REQ".to_vec()),
        Syscall::Send(b"svc".to_vec()),
    ];
    let mut k = Kernel::boot(server, Vec::new());
    k.enqueue(blank_task(2, client));
    let mut acts = Vec::new();
    let mut accept_done_at = None;
    let mut send_started_at = None;
    for step in 0..64 {
        k.step(&mut acts);
        if accept_done_at.is_none() && k.tasks[0].rets.len() >= 2 {
            accept_done_at = Some(step);
        }
        if send_started_at.is_none() && k.tasks[1].pc >= 5 {
            send_started_at = Some(step);
        }
    }
    assert!(!k.fault);
    let accept_done_at = accept_done_at.expect("accept completed");
    let send_started_at = send_started_at.expect("send started");
    // accept only completed after the client's first send phase ran
    assert!(send_started_at < accept_done_at);
}

#[test]
fn listen_registers_and_reregisters_port() {
    let mut k = Kernel::boot(Vec::new(), Vec::new());
    assert_eq!(k.sys_listen(b"svc".to_vec()), 0);
    assert_eq!(k.ports.len(), 1);
    assert_eq!(k.ports[0].1.pid, 1);
    assert!(!k.ports[0].1.is_active);
    // re-registering replaces the port rather than adding a second one
    assert_eq!(k.sys_listen(b"svc".to_vec()), 0);
    assert_eq!(k.ports.len(), 1);
    assert_eq!(k.sys_listen(b"other".to_vec()), 0);
    assert_eq!(k.ports.len(), 2);
}

#[test]
fn respond_with_no_client_falls_through() {
    let mut k = Kernel::boot(vec![Syscall::Respond], Vec::new());
    k.tasks[0].responding_to = 99;
    let mut acts = Vec::new();
    k.run_steps(3, &mut acts);
    assert!(!k.fault);
    assert_eq!(k.tasks[0].rets, vec![0]);
}

#[test]
fn send_to_dead_server_is_skipped_silently() {
    let mut k = Kernel::boot(
        vec![Syscall::Listen(b"svc".to_vec()), Syscall::Send(b"svc".to_vec())],
        Vec::new(),
    );
    // make the port belong to a pid with no task record
    let mut acts = Vec::new();
    k.step(&mut acts);
    k.ports[0].1.pid = 77;
    k.run_steps(4, &mut acts);
    assert!(!k.fault);
    assert_eq!(k.tasks[0].rets, vec![0, 0]);
}

#[test]
fn fifo_order_of_two_clients() {
    // two clients race for the same port; the earlier one is served first
    let server = vec![
        Syscall::Listen(b"svc".to_vec()),
        Syscall::Accept(b"svc".to_vec()),
        Syscall::BindBuffer(b"ONE".to_vec()),
        Syscall::Respond,
        Syscall::Accept(b"svc".to_vec()),
        Syscall::BindBuffer(b"TWO".to_vec()),
        Syscall::Respond,
    ];
    let c1 = vec![
        Syscall::BindBuffer(b"req1".to_vec()),
        Syscall::Send(b"svc".to_vec()),
    ];
    let c2 = vec![
        Syscall::Klog(b"wait".to_vec()),
        Syscall::BindBuffer(b"req2".to_vec()),
        Syscall::Send(b"svc".to_vec()),
    ];
    let mut k = Kernel::boot(server, Vec::new());
    k.enqueue(blank_task(2, c1));
    k.enqueue(blank_task(3, c2));
    let mut acts = Vec::new();
    k.run_steps(200, &mut acts);
    assert!(!k.fault);
    assert_eq!(k.tasks[1].box1, Some(b"ONE".to_vec()));
    assert_eq!(k.tasks[2].box1, Some(b"TWO".to_vec()));
}

#[test]
fn privileged_log_service_writes_log_and_answers_success() {
    // payload: a framed text, as the log service's callers encode it
    let mut payload = vec![5u8];
    payload.extend_from_slice(b"hello");
    let mut k = Kernel::boot(
        vec![
            Syscall::BindBuffer(payload),
            Syscall::Send(b"log".to_vec()),
        ],
        Vec::new(),
    );
    k.ksvc_init();
    let mut acts = Vec::new();
    k.run_steps(6, &mut acts);
    assert!(!k.fault);
    assert_eq!(k.klog, b"hello".to_vec());
    assert_eq!(k.tasks[0].box1, Some(vec![0u8]));
    assert_eq!(k.tasks[0].rets, vec![0, 0]);
}

#[test]
fn privileged_pmap_service_requests_the_alias_mapping() {
    // payload: one encoded page address (0x3000)
    let payload = vec![0x80u8, 0x60];
    let mut k = Kernel::boot(
        vec![
            Syscall::BindBuffer(payload),
            Syscall::Send(b"pmap".to_vec()),
        ],
        Vec::new(),
    );
    k.ksvc_init();
    let mut acts = Vec::new();
    k.run_steps(6, &mut acts);
    assert!(!k.fault);
    assert_eq!(acts.len(), 1);
    match &acts[0] {
        ohes_core::Action::MapPage { virt } => assert_eq!(*virt, 0x3000 + 0xFFFFFFFFC0000000),
        other => panic!("unexpected action {:?}", other),
    }
}

#[test]
fn filesystem_service_reads_from_the_embedded_rootfs() {
    // payload: the read operation, then the framed path
    let mut payload = vec![0u8];
    payload.push(9);
    payload.extend_from_slice(b"/bin/init");
    let rootfs = vec![(b"bin/init".to_vec(), b"IMAGE".to_vec())];
    let mut k = Kernel::boot(
        vec![
            Syscall::BindBuffer(payload),
            Syscall::Send(b"kfs".to_vec()),
        ],
        rootfs,
    );
    let mut acts = Vec::new();
    k.run_steps(6, &mut acts);
    assert!(!k.fault);
    // answer: the data variant, then the framed file bytes
    let mut expected = vec![0u8, 5];
    expected.extend_from_slice(b"IMAGE");
    assert_eq!(k.tasks[0].box1, Some(expected));
}

#[test]
fn accept_on_unregistered_port_is_fatal() {
    let mut k = Kernel::boot(vec![Syscall::Accept(b"ghost".to_vec())], Vec::new());
    let mut acts = Vec::new();
    k.run_steps(4, &mut acts);
    assert!(k.fault);
}

#[test]
fn malformed_service_payload_is_fatal() {
    // the log service finds a frame announcing more bytes than it carries
    let mut k = Kernel::boot(
        vec![
            Syscall::BindBuffer(vec![9u8, 1, 2]),
            Syscall::Send(b"log".to_vec()),
        ],
        Vec::new(),
    );
    k.ksvc_init();
    let mut acts = Vec::new();
    k.run_steps(6, &mut acts);
    assert!(k.fault);
}

#[test]
fn directory_requests_answer_with_the_encoded_failure() {
    // operation 1 asks to read a directory, which needs the block device
    let mut payload = vec![1u8];
    payload.push(1);
    payload.extend_from_slice(b"/");
    let mut k = Kernel::boot(
        vec![
            Syscall::BindBuffer(payload),
            Syscall::Send(b"kfs".to_vec()),
        ],
        Vec::new(),
    );
    let mut acts = Vec::new();
    k.run_steps(6, &mut acts);
    assert!(!k.fault);
    let mut expected = vec![3u8, 6];
    expected.extend_from_slice(b"ENODEV");
    assert_eq!(k.tasks[0].box1, Some(expected));
}
