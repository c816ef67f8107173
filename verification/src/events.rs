use vstd::prelude::*;

verus! {

/// A listener's identity: its number and the name it was created under.
#[derive(Debug, Clone)]
pub struct EventListenerID {
    pub id: u32,
    pub name: Vec<u8>,
}

/// A handle to a listener, carrying only its number.
#[derive(Debug, Clone, Copy, PartialEq, Eq, Structural)]
pub struct EventListenerIDInterface {
    pub id: u32,
}

/// One registered listener: its identity and, per event name, the
/// callback tickets subscribed to it. A ticket is the caller's own number
/// for the work to run; the kernel core never runs callbacks itself, it
/// answers which tickets fire.
#[derive(Debug)]
pub struct EventListener {
    pub events: Vec<(Vec<u8>, Vec<u64>)>,
    pub id: EventListenerID,
}

/// The listener directory: every listener, the public name register, and
/// the number counter.
#[derive(Debug)]
pub struct EventRegistry {
    pub listeners: Vec<EventListener>,
    pub names: Vec<(Vec<u8>, u32)>,
    pub next_id: u32,
}

/// Whether some subscription entry carries the given event name.
pub open spec fn has_event(evs: Seq<(Vec<u8>, Vec<u64>)>, name: Seq<u8>) -> bool {
    exists|i: int| 0 <= i < evs.len() && evs[i].0@ == name
}

/// The first subscription entry carrying the given event name.
pub open spec fn event_at(evs: Seq<(Vec<u8>, Vec<u64>)>, name: Seq<u8>) -> int {
    choose|i: int|
        0 <= i < evs.len() && evs[i].0@ == name && (forall|j: int|
            0 <= j < i ==> evs[j].0@ != name)
}

/// The position of the listener with the given number.
pub open spec fn listener_at(ls: Seq<EventListener>, id: u32) -> int {
    choose|i: int|
        0 <= i < ls.len() && ls[i].id.id == id && (forall|j: int|
            0 <= j < i ==> ls[j].id.id != id)
}

/// Whether a listener with the given number exists.
pub open spec fn has_listener(ls: Seq<EventListener>, id: u32) -> bool {
    exists|i: int| 0 <= i < ls.len() && ls[i].id.id == id
}

impl EventRegistry {
    /// An empty directory.
    pub fn new() -> (r: EventRegistry)
        ensures
            r.listeners@ == Seq::<EventListener>::empty(),
            r.names@ == Seq::<(Vec<u8>, u32)>::empty(),
            r.next_id == 0,
    {
        EventRegistry { listeners: Vec::new(), names: Vec::new(), next_id: 0 }
    }

    /// Finds the first listener with the given number.
    fn find(&self, id: u32) -> (r: Option<usize>)
        ensures
            match r {
                Some(i) => i < self.listeners@.len() && self.listeners@[i as int].id.id == id
                    && (forall|j: int| 0 <= j < i ==> self.listeners@[j].id.id != id),
                None => !has_listener(self.listeners@, id),
            },
    {
        let mut i: usize = 0;
        while i < self.listeners.len()
            invariant
                i <= self.listeners@.len(),
                forall|j: int| 0 <= j < i ==> self.listeners@[j].id.id != id,
            decreases self.listeners@.len() - i,
        {
            if self.listeners[i].id.id == id {
                return Some(i);
            }
            i = i + 1;
        }
        None
    }
}

/// Creates a listener under the given name; a public one is also entered
/// into the name register so others can find it.
pub fn create_listener(reg: &mut EventRegistry, name: Vec<u8>, public: bool) -> (r:
    EventListenerIDInterface)
    requires
        old(reg).next_id < u32::MAX,
    ensures
        r.id == old(reg).next_id + 1,
        final(reg).next_id == old(reg).next_id + 1,
        final(reg).listeners@.len() == old(reg).listeners@.len() + 1,
        final(reg).listeners@.subrange(0, old(reg).listeners@.len() as int) == old(reg).listeners@,
        final(reg).listeners@.last().id.id == r.id,
        final(reg).listeners@.last().id.name@ == name@,
        final(reg).listeners@.last().events@ == Seq::<(Vec<u8>, Vec<u64>)>::empty(),
        if public {
            final(reg).names@.len() == old(reg).names@.len() + 1 && final(reg).names@.subrange(
                0,
                old(reg).names@.len() as int,
            ) == old(reg).names@ && final(reg).names@.last().1 == r.id && final(reg).names@.last().0@ == name@
        } else {
            final(reg).names@ == old(reg).names@
        },
{
    reg.next_id = reg.next_id + 1;
    let id = reg.next_id;
    let namebytes = crate::task::clone_bytes(&name);
    let idstruct = EventListenerID { id, name };
    reg.listeners.push(EventListener { events: Vec::new(), id: idstruct });
    if public {
        reg.names.push((namebytes, id));
    }
    proof {
        assert(final(reg).listeners@.subrange(0, old(reg).listeners@.len() as int) =~= old(reg).listeners@);
        if public {
            assert(final(reg).names@.subrange(0, old(reg).names@.len() as int) =~= old(reg).names@);
        }
    }
    r_iface(id)
}

/// Builds a handle.
fn r_iface(id: u32) -> (r: EventListenerIDInterface)
    ensures
        r.id == id,
{
    EventListenerIDInterface { id }
}

/// Finds the handle registered under a public name.
pub fn get_id_by_name(reg: &EventRegistry, name: &Vec<u8>) -> (r: Option<EventListenerIDInterface>)
    ensures
        match r {
            Some(h) => exists|i: int|
                0 <= i < reg.names@.len() && (#[trigger] reg.names@[i]).0@ == name@
                    && reg.names@[i].1 == h.id,
            None => forall|i: int|
                0 <= i < reg.names@.len() ==> (#[trigger] reg.names@[i]).0@ != name@,
        },
{
    let mut i: usize = 0;
    while i < reg.names.len()
        invariant
            i <= reg.names@.len(),
            forall|j: int| 0 <= j < i ==> (#[trigger] reg.names@[j]).0@ != name@,
        decreases reg.names@.len() - i,
    {
        if crate::ports::bytes_eq(&reg.names[i].0, name) {
            return Some(EventListenerIDInterface { id: reg.names[i].1 });
        }
        i = i + 1;
    }
    None
}

/// The first listener found under a number is the one the directory's
/// position function names.
proof fn lemma_listener_first(ls: Seq<EventListener>, id: u32, i: int)
    requires
        0 <= i < ls.len(),
        ls[i].id.id == id,
        forall|j: int| 0 <= j < i ==> ls[j].id.id != id,
    ensures
        listener_at(ls, id) == i,
{
    let w = listener_at(ls, id);
    assert(0 <= w < ls.len() && ls[w].id.id == id && (forall|j: int|
        0 <= j < w ==> ls[j].id.id != id));
}

/// The first subscription entry found under a name is the one the position
/// function names.
proof fn lemma_event_first(evs: Seq<(Vec<u8>, Vec<u64>)>, name: Seq<u8>, i: int)
    requires
        0 <= i < evs.len(),
        evs[i].0@ == name,
        forall|j: int| 0 <= j < i ==> evs[j].0@ != name,
    ensures
        event_at(evs, name) == i,
{
    let w = event_at(evs, name);
    assert(0 <= w < evs.len() && evs[w].0@ == name && (forall|j: int|
        0 <= j < w ==> evs[j].0@ != name));
}

impl EventListenerIDInterface {
    /// The name this handle's listener was created under, or nothing when
    /// the listener does not exist.
    pub fn get_name(&self, reg: &EventRegistry) -> (r: Option<Vec<u8>>)
        ensures
            match r {
                Some(s) => has_listener(reg.listeners@, self.id) && s@ == reg.listeners@[
                    listener_at(reg.listeners@, self.id)].id.name@,
                None => !has_listener(reg.listeners@, self.id),
            },
    {
        match reg.find(self.id) {
            Some(i) => {
                let s = crate::task::clone_bytes(&reg.listeners[i].id.name);
                proof {
                    let w = listener_at(reg.listeners@, self.id);
                    assert(reg.listeners@[i as int].id.id == self.id);
                    assert(0 <= w < reg.listeners@.len() && reg.listeners@[w].id.id == self.id
                        && (forall|j: int| 0 <= j < w ==> reg.listeners@[j].id.id != self.id));
                    assert(w == i) by {
                        if w < i {
                            assert(reg.listeners@[w].id.id != self.id);
                        }
                        if i < w {
                            assert(reg.listeners@[i as int].id.id != self.id);
                        }
                    }
                }
                Some(s)
            },
            None => None,
        }
    }

    /// The callback tickets subscribed to the given event of this
    /// listener, in subscription order; empty when nothing is subscribed.
    /// Asking through a handle whose listener does not exist is an error.
    #[verifier::loop_isolation(false)]
    pub fn emit(&self, reg: &EventRegistry, event_name: &Vec<u8>) -> (r: Result<Vec<u64>, String>)
        ensures
            match r {
                Ok(ts) => {
                    &&& has_listener(reg.listeners@, self.id)
                    &&& ({
                        let evs = reg.listeners@[listener_at(reg.listeners@, self.id)].events@;
                        if has_event(evs, event_name@) {
                            ts@ == evs[event_at(evs, event_name@)].1@
                        } else {
                            ts@ == Seq::<u64>::empty()
                        }
                    })
                },
                Err(_) => !has_listener(reg.listeners@, self.id),
            },
    {
        let i = match reg.find(self.id) {
            Some(i) => i,
            None => {
                return Err(String::from_str("no listener behind this handle"));
            },
        };
        proof {
            lemma_listener_first(reg.listeners@, self.id, i as int);
        }
        let events = &reg.listeners[i].events;
        let mut k: usize = 0;
        while k < events.len()
            invariant
                k <= events@.len(),
                events == reg.listeners@[i as int].events,
                forall|j: int| 0 <= j < k ==> events@[j].0@ != event_name@,
            decreases events@.len() - k,
        {
            if crate::ports::bytes_eq(&events[k].0, event_name) {
                proof {
                    let evs = reg.listeners@[i as int].events@;
                    assert(listener_at(reg.listeners@, self.id) == i);
                    assert(evs[k as int].0@ == event_name@);
                    assert(has_event(evs, event_name@));
                    lemma_event_first(evs, event_name@, k as int);
                }
                return Ok(crate::task::clone_bytes_u64(&events[k].1));
            }
            k = k + 1;
        }
        let empty: Vec<u64> = Vec::new();
        proof {
            assert(empty@ =~= Seq::<u64>::empty());
        }
        Ok(empty)
    }

    /// Subscribes a callback ticket to the given event of this listener:
    /// the ticket joins the event's existing subscription entry, or a
    /// fresh entry is appended for a first subscription. Subscribing
    /// through a handle whose listener does not exist is an error.
    #[verifier::loop_isolation(false)]
    pub fn listen(&self, reg: &mut EventRegistry, event_name: Vec<u8>, ticket: u64) -> (r: Result<
        (),
        String,
    >)
        ensures
            match r {
                Ok(_) => {
                    &&& has_listener(old(reg).listeners@, self.id)
                    &&& final(reg).names@ == old(reg).names@
                    &&& final(reg).next_id == old(reg).next_id
                    &&& final(reg).listeners@.len() == old(reg).listeners@.len()
                    &&& ({
                        let w = listener_at(old(reg).listeners@, self.id);
                        let pre = old(reg).listeners@[w].events@;
                        let post = final(reg).listeners@[w].events@;
                        &&& (forall|j: int|
                            0 <= j < old(reg).listeners@.len() && j != w ==> final(reg).listeners@[j] == old(reg).listeners@[j])
                        &&& final(reg).listeners@[w].id == old(reg).listeners@[w].id
                        &&& if has_event(pre, event_name@) {
                            let e = event_at(pre, event_name@);
                            &&& post.len() == pre.len()
                            &&& (forall|j: int| 0 <= j < pre.len() && j != e ==> post[j] == pre[j])
                            &&& post[e].0 == pre[e].0
                            &&& post[e].1@ == pre[e].1@.push(ticket)
                        } else {
                            &&& post.len() == pre.len() + 1
                            &&& (forall|j: int| 0 <= j < pre.len() ==> post[j] == pre[j])
                            &&& post.last().0@ == event_name@
                            &&& post.last().1@ == seq![ticket]
                        }
                    })
                },
                Err(_) => !has_listener(old(reg).listeners@, self.id) && *final(reg) == *old(reg),
            },
    {
        let i = match reg.find(self.id) {
            Some(i) => i,
            None => {
                return Err(String::from_str("no listener behind this handle"));
            },
        };
        proof {
            lemma_listener_first(reg.listeners@, self.id, i as int);
        }
        let ghost pre = reg.listeners@[i as int].events@;
        let n = reg.listeners[i].events.len();
        let mut k: usize = 0;
        while k < n
            invariant
                k <= n,
                i < reg.listeners@.len(),
                n == reg.listeners@[i as int].events@.len(),
                reg.listeners@[i as int].events@ == pre,
                *reg == *old(reg),
                forall|j: int| 0 <= j < k ==> pre[j].0@ != event_name@,
            decreases n - k,
        {
            if crate::ports::bytes_eq(&reg.listeners[i].events[k].0, &event_name) {
                proof {
                    assert(pre[k as int].0@ == event_name@);
                    assert(has_event(pre, event_name@));
                    lemma_event_first(pre, event_name@, k as int);
                }
                reg.listeners[i].events[k].1.push(ticket);
                proof {
                    let post = reg.listeners@[i as int].events@;
                    assert(post.len() == pre.len());
                    assert(forall|j: int| 0 <= j < pre.len() && j != k ==> post[j] == pre[j]);
                    assert(post[k as int].0 == pre[k as int].0);
                    assert(post[k as int].1@ == pre[k as int].1@.push(ticket));
                    assert(listener_at(old(reg).listeners@, self.id) == i);
                }
                return Ok(());
            }
            k = k + 1;
        }
        let mut tickets: Vec<u64> = Vec::new();
        tickets.push(ticket);
        proof {
            assert(tickets@ =~= seq![ticket]);
        }
        reg.listeners[i].events.push((event_name, tickets));
        proof {
            let post = reg.listeners@[i as int].events@;
            assert(post.len() == pre.len() + 1);
            assert(forall|j: int| 0 <= j < pre.len() ==> post[j] == pre[j]);
            assert(!has_event(pre, event_name@));
            assert(listener_at(old(reg).listeners@, self.id) == i);
        }
        Ok(())
    }
}

} // verus!
