use vstd::prelude::*;

verus! {

/// A named rendezvous endpoint. Created by `listen`, owned by the task
/// that registered it, never explicitly destroyed.
#[derive(Debug)]
pub struct Service {
    /// Owner: the task that listens on this port.
    pub pid: u64,
    /// True once the owner has begun accepting.
    pub is_active: bool,
    /// Clients awaiting this port, oldest first (strict FIFO).
    pub activate_pids: Vec<u64>,
}

/// Compares two byte strings for equality of contents.
pub fn bytes_eq(a: &Vec<u8>, b: &Vec<u8>) -> (r: bool)
    ensures
        r == (a@ == b@),
{
    let r = a == b;
    proof {
        if r {
            assert(a@ =~= b@);
        }
    }
    r
}

/// No two registered ports share a name.
pub open spec fn port_names_unique(ports: Seq<(Vec<u8>, Service)>) -> bool {
    forall|i: int, j: int| 0 <= i < j < ports.len() ==> ports[i].0@ != ports[j].0@
}

/// Whether some port is registered under `name`.
pub open spec fn has_port(ports: Seq<(Vec<u8>, Service)>, name: Seq<u8>) -> bool {
    exists|i: int| 0 <= i < ports.len() && ports[i].0@ == name
}

/// The index of the port registered under `name`.
pub open spec fn port_at(ports: Seq<(Vec<u8>, Service)>, name: Seq<u8>) -> int {
    choose|i: int| 0 <= i < ports.len() && ports[i].0@ == name
}

/// Looks a port up by name; returns its index in the registry.
pub fn find_port(ports: &Vec<(Vec<u8>, Service)>, name: &Vec<u8>) -> (r: Option<usize>)
    requires
        port_names_unique(ports@),
    ensures
        match r {
            Some(i) => i < ports@.len() && ports@[i as int].0@ == name@ && i == port_at(
                ports@,
                name@,
            ),
            None => !has_port(ports@, name@),
        },
{
    let mut i: usize = 0;
    while i < ports.len()
        invariant
            i <= ports@.len(),
            port_names_unique(ports@),
            forall|j: int| 0 <= j < i ==> ports@[j].0@ != name@,
        decreases ports@.len() - i,
    {
        if bytes_eq(&ports[i].0, name) {
            proof {
                assert(ports@[i as int].0@ == name@);
                let w = port_at(ports@, name@);
                assert(0 <= w < ports@.len() && ports@[w].0@ == name@);
            }
            return Some(i);
        }
        i = i + 1;
    }
    None
}

} // verus!
