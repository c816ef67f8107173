use ohes_core::{Jmpbuf, Kernel, RunState, Syscall, Task};

fn blank_task(pid: u64, program: Vec<Syscall>) -> Task {
    Task {
        state: Jmpbuf::new(),
        rsp0: 0,
        rsp_ptr: 0,
        pid,
        box1: None,
        box2: None,
        program_break: 0,
        wakeop: None,
        needs_wake: false,
        uid: -1,
        responding_to: 0,
        run: RunState::Ready,
        program,
        pc: 0,
        rets: Vec::new(),
    }
}

#[test]
fn advance_round_robin_cursor() {
    let mut k = Kernel::boot(Vec::new(), Vec::new());
    k.enqueue(blank_task(2, Vec::new()));
    k.enqueue(blank_task(3, Vec::new()));
    assert_eq!(k.cur, 0);
    for n in 1..=7usize {
        k.advance();
        assert_eq!(k.cur, n % 3, "cursor after {} advances", n);
    }
}

#[test]
fn advance_saves_and_restores_live_context() {
    let mut k = Kernel::boot(Vec::new(), Vec::new());
    k.enqueue(blank_task(2, Vec::new()));
    let mut live = Jmpbuf::new();
    live.rbx = 7;
    live.rsp = 0x1234;
    live.rip = 0xfeed;
    k.live = live;
    k.advance();
    // switch-out snapshotted exactly what was live
    assert_eq!(k.tasks[0].state, live);
    k.advance();
    // switching back in restores the identical register values
    assert_eq!(k.live, live);
    assert_eq!(k.cur, 0);
}

#[test]
fn advance_programs_stack_cells() {
    let mut k = Kernel::boot(Vec::new(), Vec::new());
    let mut t = blank_task(2, Vec::new());
    t.rsp0 = 0xaaa0;
    t.rsp_ptr = 0xbbb0;
    k.enqueue(t);
    k.advance();
    assert_eq!(k.rsp0_cell, 0xaaa0);
    assert_eq!(k.rsp_ptr_cell, 0xbbb0);
}

#[test]
fn bind_then_read_buffer_round_trip() {
    let mut k = Kernel::boot(Vec::new(), Vec::new());
    let payload = vec![1u8, 2, 3, 4, 5];
    let r = k.sys_bind_buffer(payload.clone());
    assert_eq!(r, 0);
    assert_eq!(k.sys_buffer_len(), 5);
    let mut dest = vec![0u8; 8];
    let copied = k.sys_read_buffer(&mut dest);
    assert_eq!(copied, 5);
    assert_eq!(&dest[..5], &payload[..]);
    assert_eq!(&dest[5..], &[0, 0, 0]);
    // non-destructive: the buffer is still there
    assert_eq!(k.sys_buffer_len(), 5);
}

#[test]
fn swap_buffers_twice_is_identity() {
    let mut k = Kernel::boot(Vec::new(), Vec::new());
    k.sys_bind_buffer(vec![9u8, 8]);
    let r = k.sys_swap_buffers();
    assert_eq!(r, 0);
    assert_eq!(k.sys_buffer_len(), 0);
    k.sys_swap_buffers();
    assert_eq!(k.sys_buffer_len(), 2);
    let mut dest = vec![0u8; 2];
    k.sys_read_buffer(&mut dest);
    assert_eq!(dest, vec![9u8, 8]);
}

#[test]
fn sbrk_maps_two_pages_and_reports_new_break() {
    let mut k = Kernel::boot(
        vec![Syscall::Sbrk(8192), Syscall::Sbrk(0)],
        Vec::new(),
    );
    k.tasks[0].program_break = 0xFFFF800000000000;
    let mut acts = Vec::new();
    k.run_steps(16, &mut acts);
    assert!(!k.fault);
    let maps: Vec<u64> = acts
        .iter()
        .filter_map(|a| match a {
            ohes_core::Action::MapPage { virt } => Some(*virt),
            _ => None,
        })
        .collect();
    assert_eq!(maps, vec![0xFFFF800000000000u64, 0xFFFF800000001000u64]);
    assert_eq!(
        k.tasks[0].rets,
        vec![0xFFFF800000002000u64, 0xFFFF800000002000u64]
    );
}

#[test]
fn unknown_syscall_answers_sentinel() {
    let mut k = Kernel::boot(vec![Syscall::Unknown(42)], Vec::new());
    let mut acts = Vec::new();
    k.run_steps(3, &mut acts);
    assert!(!k.fault);
    assert_eq!(k.tasks[0].rets, vec![u64::MAX]);
}

#[test]
fn klog_appends_to_kernel_log() {
    let mut k = Kernel::boot(
        vec![Syscall::Klog(b"hi ".to_vec()), Syscall::Klog(b"there".to_vec())],
        Vec::new(),
    );
    let mut acts = Vec::new();
    k.run_steps(6, &mut acts);
    assert_eq!(k.klog, b"hi there".to_vec());
}

#[test]
fn exit_keeps_task_yielding_forever() {
    let mut k = Kernel::boot(vec![Syscall::Exit, Syscall::Klog(b"x".to_vec())], Vec::new());
    let mut acts = Vec::new();
    k.run_steps(10, &mut acts);
    assert!(!k.fault);
    // the operation after exit never runs
    assert_eq!(k.klog.len(), 0);
    assert_eq!(k.tasks[0].rets.len(), 0);
}

#[test]
fn send_to_unregistered_port_is_fatal() {
    let mut k = Kernel::boot(vec![Syscall::Send(b"nope".to_vec())], Vec::new());
    let mut acts = Vec::new();
    k.run_steps(4, &mut acts);
    assert!(k.fault);
}

#[test]
fn exec_spawns_task_and_requests_load() {
    let mut k = Kernel::boot(
        vec![
            Syscall::BindBuffer(b"/bin/init".to_vec()),
            Syscall::SwapBuffers,
            Syscall::BindBuffer(b"/bin/init".to_vec()),
            Syscall::Exec,
        ],
        Vec::new(),
    );
    let mut acts = Vec::new();
    k.run_steps(8, &mut acts);
    assert!(!k.fault);
    assert_eq!(k.tasks.len(), 2);
    assert_eq!(k.tasks[1].pid, 2);
    // buffer B survived as the new task's initial buffer A
    assert_eq!(k.tasks[1].box1, Some(b"/bin/init".to_vec()));
    assert!(acts.iter().any(|a| matches!(
        a,
        ohes_core::Action::ExecRequest { path } if path == &b"/bin/init".to_vec()
    )));
}

#[test]
fn region_checks_reject_kernel_half() {
    assert!(!ohes_core::ensure_region_safe(0x1000, 16));
    assert!(ohes_core::ensure_region_safe(0xFFFF800000000000, 16));
    // an end wrapping below the split is rejected
    assert!(!ohes_core::ensure_region_safe(0xFFFFFFFFFFFFFF00, 0x20000));
}

#[test]
fn readfs_finds_entries_with_or_without_slash() {
    let rootfs = vec![(b"bin/init".to_vec(), b"ELF!".to_vec())];
    let k = Kernel::boot(Vec::new(), rootfs);
    assert_eq!(k.readfs(&b"bin/init".to_vec()), &b"ELF!".to_vec());
    assert_eq!(k.readfs(&b"/bin/init".to_vec()), &b"ELF!".to_vec());
    assert!(k.lookup_fs(&b"/etc/none".to_vec()).is_none());
}

#[test]
fn mkpid_counts_up_and_getpid_reads_current() {
    let mut k = Kernel::boot(Vec::new(), Vec::new());
    assert_eq!(k.getpid(), 1);
    assert_eq!(k.mkpid(), 2);
    assert_eq!(k.mkpid(), 3);
}

#[test]
fn init_rsp_ptr_allocates_and_programs_cell() {
    let mut k = Kernel::boot(Vec::new(), Vec::new());
    let before = k.stacks_top;
    k.init_rsp_ptr(String::from("syscall-stack:init"));
    assert_eq!(k.rsp_ptr_cell, before + 4096 * 5);
    assert_eq!(k.canaries.last().unwrap().0, before);
}

#[test]
fn load_plan_maps_segment_pages_and_sets_break() {
    let segs = vec![
        ohes_core::Segment {
            virtual_addr: 0xFFFF800000000000,
            file_offset: 0,
            file_size: 5000,
            loadable: true,
        },
        ohes_core::Segment {
            virtual_addr: 0xFFFF800000010000,
            file_offset: 5000,
            file_size: 1,
            loadable: true,
        },
        ohes_core::Segment { virtual_addr: 0, file_offset: 0, file_size: 9, loadable: false },
    ];
    let (pages, brk) = ohes_core::plan_load(&segs).expect("plan accepted");
    assert_eq!(
        pages,
        vec![0xFFFF800000000000u64, 0xFFFF800000001000, 0xFFFF800000010000]
    );
    assert_eq!(brk, 0xFFFF800000011000);
}

#[test]
fn load_plan_refuses_the_kernel_half() {
    let segs = vec![ohes_core::Segment {
        virtual_addr: 0x400000,
        file_offset: 0,
        file_size: 16,
        loadable: true,
    }];
    assert!(ohes_core::plan_load(&segs).is_err());
}
