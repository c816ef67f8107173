//! The scheduling and IPC core of a small monolithic kernel: the task
//! record store with its round-robin scheduler, the context-switch and
//! syscall trap boundary as a simulated machine, the named-port registry
//! with its two-phase rendezvous protocol, the privileged-service surface,
//! and the byte-level readers for the boot media the kernel mounts. The
//! memory manager, block devices and executable parsing are collaborators:
//! the core exchanges plain values with them and never drives hardware.

mod constants;
mod context;
mod cpio;
mod events;
mod ext2;
mod gpt;
mod kernel;
mod ksvc;
mod ksymmap;
mod laws;
mod lebytes;
mod loader;
mod machine;
mod mutexcell;
mod numfmt;
mod pci;
mod ports;
mod queue;
mod rendezvous;
mod rodev;
mod shim;
mod syscall;
mod task;
mod wire;

pub use constants::{
    check_const_correct, is_test, should_conio, should_debug_log, should_displayio,
    should_fini_exit, should_fini_wait,
};
pub use context::Jmpbuf;
pub use cpio::{chars2int, parse, parse_one, CPIOEntry, Offreader};
pub use events::{
    create_listener, get_id_by_name, EventListener, EventListenerID, EventListenerIDInterface,
    EventRegistry,
};
pub use ext2::{handle_super_block, readarea, BlkGrpDesc, Ext2InodeAttr, SuperBlock};
pub use gpt::{prntguuid, GPTPart, GetGPTPartitions};
pub use kernel::Kernel;
pub use ksymmap::addr2sym;
pub use laws::{
    lemma_accept_blocks, lemma_round_robin, lemma_round_robin_cursor, rendezvous_echo_roundtrip,
    rr_cursor,
};
pub use loader::{plan_load, Segment};
pub use mutexcell::Mutex;
pub use numfmt::i2s;
pub use pci::idlookup;
pub use ports::Service;
pub use queue::ArrayQueue;
pub use rodev::{ReadOp, RODev, VecDev};
pub use shim::{default_oom_handler, extra_brk, extra_fresh};
pub use syscall::Action;
pub use task::{RunState, Syscall, Task, WakeType, Wakeop};
pub use wire::{get_frame, get_varint, put_frame, put_varint};

use vstd::prelude::*;

verus! {

/// Base of the user-addressable half of the address space: every pointer a
/// task hands to a syscall must lie at or above this address.
pub const USER_SPLIT: u64 = 0xFFFF800000000000;

/// A user-supplied region [ptr, ptr + len) is acceptable exactly when it
/// starts at or above the kernel/user split and its end (wrapping around
/// the 64-bit address space) does not land below the split.
pub open spec fn region_safe(ptr: u64, len: u64) -> bool {
    ptr >= USER_SPLIT && (ptr + len) % 0x10000000000000000 >= USER_SPLIT
}

/// Checks a user-supplied pointer/length pair. A violating region is a
/// fatal protocol error, so callers must establish safety beforehand;
/// this check is the documented validation point of the syscall surface.
pub fn ensure_region_safe(ptr: u64, len: u64) -> (r: bool)
    ensures
        r == region_safe(ptr, len),
{
    if ptr < USER_SPLIT {
        return false;
    }
    ptr.wrapping_add(len) >= USER_SPLIT
}

} // verus!
