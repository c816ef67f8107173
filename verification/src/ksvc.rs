use vstd::prelude::*;
use crate::kernel::{fs_name_matches, Kernel};
use crate::syscall::{faulted_same, tasks_match_except, Action};
use crate::task::{buf_view, Task};
use crate::wire::{frame_exact, get_frame, get_varint, put_frame, varint_dec};

verus! {

/// Name of the privileged log service.
pub open spec fn log_name() -> Seq<u8> {
    seq![108u8, 111u8, 103u8]
}

/// Name of the privileged page-map service.
pub open spec fn pmap_name() -> Seq<u8> {
    seq![112u8, 109u8, 97u8, 112u8]
}

/// Name of the privileged page-unmap service.
pub open spec fn punmap_name() -> Seq<u8> {
    seq![112u8, 117u8, 110u8, 109u8, 97u8, 112u8]
}

/// Name of the privileged filesystem service.
pub open spec fn kfs_name() -> Seq<u8> {
    seq![107u8, 102u8, 115u8]
}

/// Shared upper-half offset at which the page-map service aliases user
/// frames.
pub const PMAP_OFFSET: u64 = 0xFFFFFFFFC0000000;

/// Builds the log service's name.
pub fn mk_log_name() -> (r: Vec<u8>)
    ensures
        r@ == log_name(),
{
    let mut v: Vec<u8> = Vec::new();
    v.push(108);
    v.push(111);
    v.push(103);
    proof {
        assert(v@ =~= log_name());
    }
    v
}

/// Builds the page-map service's name.
pub fn mk_pmap_name() -> (r: Vec<u8>)
    ensures
        r@ == pmap_name(),
{
    let mut v: Vec<u8> = Vec::new();
    v.push(112);
    v.push(109);
    v.push(97);
    v.push(112);
    proof {
        assert(v@ =~= pmap_name());
    }
    v
}

/// Builds the page-unmap service's name.
pub fn mk_punmap_name() -> (r: Vec<u8>)
    ensures
        r@ == punmap_name(),
{
    let mut v: Vec<u8> = Vec::new();
    v.push(112);
    v.push(117);
    v.push(110);
    v.push(109);
    v.push(97);
    v.push(112);
    proof {
        assert(v@ =~= punmap_name());
    }
    v
}

/// Builds the filesystem service's name.
pub fn mk_kfs_name() -> (r: Vec<u8>)
    ensures
        r@ == kfs_name(),
{
    let mut v: Vec<u8> = Vec::new();
    v.push(107);
    v.push(102);
    v.push(115);
    proof {
        assert(v@ =~= kfs_name());
    }
    v
}

/// The encoded success answer of the log service: the first variant of its
/// result type, a single zero byte.
pub open spec fn success_enc() -> Seq<u8> {
    seq![0u8]
}

/// The encoded file-data answer of the filesystem service: the data
/// variant discriminant, then the bytes as a frame.
pub open spec fn fs_data_enc(data: Seq<u8>) -> Seq<u8> {
    seq![0u8] + crate::wire::frame_enc(data)
}

/// The encoded failure answer of the filesystem service: the failure
/// variant discriminant, then the message as a frame.
pub open spec fn fs_failure_enc(msg: Seq<u8>) -> Seq<u8> {
    seq![3u8] + crate::wire::frame_enc(msg)
}

/// The failure message of a filesystem request this core cannot serve: the
/// directory and attribute operations need the block-device collaborator.
pub open spec fn nodev_msg() -> Seq<u8> {
    seq![69u8, 78u8, 79u8, 68u8, 69u8, 86u8]
}

/// A whole buffer that decodes as exactly one base-128 integer.
pub open spec fn varint_exact(buf: Seq<u8>) -> Option<nat> {
    match varint_dec(buf, 0) {
        Some(d) => if d.1 == buf.len() {
            Some(d.0)
        } else {
            None
        },
        None => None,
    }
}

/// Whether a privileged-service directory holds `name`.
pub open spec fn ksvc_has(names: Seq<Vec<u8>>, name: Seq<u8>) -> bool {
    exists|i: int| 0 <= i < names.len() && names[i]@ == name
}

/// Effect of the log service: the framed text of the caller's transfer
/// buffer A goes to the kernel log and buffer A becomes the encoded
/// success answer; an absent or malformed payload is fatal.
#[verifier::opaque]
pub open spec fn svc_log_effect(pre: Kernel, post: Kernel) -> bool {
    let c = pre.cur as int;
    match buf_view(pre.tasks@[c].box1) {
        Some(buf) => match frame_exact(buf) {
            Some(content) => {
                &&& !post.fault
                &&& post.klog@ == pre.klog@ + content
                &&& buf_view(post.tasks@[c].box1) == Some(success_enc())
                &&& post.tasks@[c] == (Task { box1: post.tasks@[c].box1, ..pre.tasks@[c] })
                &&& tasks_match_except(pre.tasks@, post.tasks@, c)
                &&& post == (Kernel { tasks: post.tasks, klog: post.klog, ..pre })
            },
            None => faulted_same(pre, post),
        },
        None => faulted_same(pre, post),
    }
}

/// Effect of the page-map service: the caller's transfer buffer A holds an
/// encoded page address, which the gateway is asked to alias at the shared
/// upper-half offset. The buffer is left in place.
#[verifier::opaque]
pub open spec fn svc_pmap_effect(pre: Kernel, post: Kernel, acts0: Seq<Action>, acts1: Seq<
    Action,
>) -> bool {
    let c = pre.cur as int;
    match buf_view(pre.tasks@[c].box1) {
        Some(buf) => match varint_exact(buf) {
            Some(v) => if v + PMAP_OFFSET <= u64::MAX {
                &&& post == pre
                &&& acts1 == acts0.push(Action::MapPage { virt: (v + PMAP_OFFSET) as u64 })
            } else {
                faulted_same(pre, post) && acts1 == acts0
            },
            None => faulted_same(pre, post) && acts1 == acts0,
        },
        None => faulted_same(pre, post) && acts1 == acts0,
    }
}

/// Effect of the page-unmap service: the encoded address of the caller's
/// transfer buffer A is handed to the gateway for unmapping.
#[verifier::opaque]
pub open spec fn svc_punmap_effect(pre: Kernel, post: Kernel, acts0: Seq<Action>, acts1: Seq<
    Action,
>) -> bool {
    let c = pre.cur as int;
    match buf_view(pre.tasks@[c].box1) {
        Some(buf) => match varint_exact(buf) {
            Some(v) => if v <= u64::MAX {
                &&& post == pre
                &&& acts1 == acts0.push(Action::UnmapPage { virt: v as u64 })
            } else {
                faulted_same(pre, post) && acts1 == acts0
            },
            None => faulted_same(pre, post) && acts1 == acts0,
        },
        None => faulted_same(pre, post) && acts1 == acts0,
    }
}

/// Effect of the filesystem service. The caller's transfer buffer A holds
/// an encoded request: an operation discriminant, then a framed path. A
/// read request is answered from the embedded root filesystem into buffer
/// A; asking for an absent file is fatal, as is a malformed request. The
/// directory and attribute operations need the block-device collaborator,
/// which this core does not drive, and are answered with the encoded
/// failure.
#[verifier::opaque]
pub open spec fn dofs_effect(pre: Kernel, post: Kernel) -> bool {
    let c = pre.cur as int;
    match buf_view(pre.tasks@[c].box1) {
        Some(buf) => match varint_dec(buf, 0) {
            Some(d) => if d.0 == 0 {
                match frame_exact(buf.subrange(d.1, buf.len() as int)) {
                    Some(path) => if exists|i: int|
                        0 <= i < pre.rootfs@.len() && fs_name_matches(pre.rootfs@[i].0@, path) {
                        &&& !post.fault
                        &&& (exists|i: int|
                            0 <= i < pre.rootfs@.len() && fs_name_matches(pre.rootfs@[i].0@, path)
                                && buf_view(post.tasks@[c].box1) == Some(
                                fs_data_enc(pre.rootfs@[i].1@),
                            ))
                        &&& post.tasks@[c] == (Task {
                            box1: post.tasks@[c].box1,
                            ..pre.tasks@[c]
                        })
                        &&& tasks_match_except(pre.tasks@, post.tasks@, c)
                        &&& post == (Kernel { tasks: post.tasks, ..pre })
                    } else {
                        faulted_same(pre, post)
                    },
                    None => faulted_same(pre, post),
                }
            } else if d.0 == 1 || d.0 == 2 {
                match frame_exact(buf.subrange(d.1, buf.len() as int)) {
                    Some(path) => {
                        &&& !post.fault
                        &&& buf_view(post.tasks@[c].box1) == Some(fs_failure_enc(nodev_msg()))
                        &&& post.tasks@[c] == (Task {
                            box1: post.tasks@[c].box1,
                            ..pre.tasks@[c]
                        })
                        &&& tasks_match_except(pre.tasks@, post.tasks@, c)
                        &&& post == (Kernel { tasks: post.tasks, ..pre })
                    },
                    None => faulted_same(pre, post),
                }
            } else {
                faulted_same(pre, post)
            },
            None => faulted_same(pre, post),
        },
        None => faulted_same(pre, post),
    }
}

/// Effect of invoking the privileged service registered under `name`.
#[verifier::opaque]
pub open spec fn ksvc_effect(pre: Kernel, post: Kernel, name: Seq<u8>, acts0: Seq<Action>, acts1: Seq<
    Action,
>) -> bool {
    if name == log_name() {
        svc_log_effect(pre, post) && acts1 == acts0
    } else if name == pmap_name() {
        svc_pmap_effect(pre, post, acts0, acts1)
    } else if name == punmap_name() {
        svc_punmap_effect(pre, post, acts0, acts1)
    } else if name == kfs_name() {
        dofs_effect(pre, post) && acts1 == acts0
    } else {
        faulted_same(pre, post) && acts1 == acts0
    }
}

/// Checks whether the privileged-service directory holds `name`.
pub fn ksvc_contains(names: &Vec<Vec<u8>>, name: &Vec<u8>) -> (r: bool)
    ensures
        r == ksvc_has(names@, name@),
{
    let mut i: usize = 0;
    while i < names.len()
        invariant
            i <= names@.len(),
            forall|j: int| 0 <= j < i ==> names@[j]@ != name@,
        decreases names@.len() - i,
    {
        if crate::ports::bytes_eq(&names[i], name) {
            return true;
        }
        i = i + 1;
    }
    false
}

impl Kernel {
    /// Registers the privileged kernel services, making their names
    /// reachable through the send syscall.
    pub fn ksvc_init(&mut self)
        ensures
            final(self).ksvc_names@.len() == old(self).ksvc_names@.len() + 4,
            ksvc_has(final(self).ksvc_names@, log_name()),
            ksvc_has(final(self).ksvc_names@, pmap_name()),
            ksvc_has(final(self).ksvc_names@, punmap_name()),
            ksvc_has(final(self).ksvc_names@, kfs_name()),
            forall|n: Seq<u8>|
                ksvc_has(final(self).ksvc_names@, n) <==> ksvc_has(old(self).ksvc_names@, n) || n
                    == log_name() || n == pmap_name() || n == punmap_name() || n == kfs_name(),
            *final(self) == (Kernel { ksvc_names: final(self).ksvc_names, ..*old(self) }),
    {
        let ghost n0 = self.ksvc_names@.len() as int;
        self.ksvc_names.push(mk_log_name());
        self.ksvc_names.push(mk_pmap_name());
        self.ksvc_names.push(mk_punmap_name());
        self.ksvc_names.push(mk_kfs_name());
        proof {
            let post = self.ksvc_names@;
            let pre = old(self).ksvc_names@;
            assert(forall|j: int| 0 <= j < n0 ==> post[j] == pre[j]);
            assert(post[n0]@ == log_name());
            assert(post[n0 + 1]@ == pmap_name());
            assert(post[n0 + 2]@ == punmap_name());
            assert(post[n0 + 3]@ == kfs_name());
            assert forall|n: Seq<u8>|
                ksvc_has(post, n) <==> ksvc_has(pre, n) || n == log_name() || n == pmap_name()
                    || n == punmap_name() || n == kfs_name() by {
                if ksvc_has(pre, n) {
                    let i = choose|i: int| 0 <= i < pre.len() && pre[i]@ == n;
                    assert(post[i]@ == n);
                }
                if ksvc_has(post, n) {
                    let i = choose|i: int| 0 <= i < post.len() && post[i]@ == n;
                    if i < n0 {
                        assert(pre[i]@ == n);
                    }
                }
            }
        }
    }

    /// The log service: appends the framed text of the caller's transfer
    /// buffer A to the kernel log and answers with the encoded success.
    pub fn svc_log(&mut self)
        requires
            old(self).wf(),
            !old(self).fault,
        ensures
            final(self).wf(),
            svc_log_effect(*old(self), *final(self)),
    {
        proof {
            reveal(crate::ksvc::svc_log_effect);
        }
        let c = self.cur;
        let mut taken: Option<Vec<u8>> = None;
        core::mem::swap(&mut taken, &mut self.tasks[c].box1);
        match taken {
            None => {
                self.fault = true;
                proof {
                    assert(self.tasks@ =~= old(self).tasks@);
                }
            },
            Some(buf) => {
                let frame = get_frame(&buf, 0);
                let mut ok = false;
                match &frame {
                    Some(p) => {
                        if p.1 == buf.len() {
                            ok = true;
                        }
                    },
                    None => {},
                }
                if ok {
                    let (content, _end) = match frame {
                        Some(p) => p,
                        None => unreached(),
                    };
                    proof {
                        assert(frame_exact(buf@) == Some(content@));
                    }
                    let mut content = content;
                    self.klog.append(&mut content);
                    let mut answer: Vec<u8> = Vec::new();
                    answer.push(0);
                    self.tasks[c].box1 = Some(answer);
                    proof {
                        assert(buf_view(self.tasks@[c as int].box1)->Some_0 =~= success_enc());
                    }
                } else {
                    self.fault = true;
                    self.tasks[c].box1 = Some(buf);
                    proof {
                        vstd::std_specs::vec::axiom_spec_len(&buf);
                        crate::wire::lemma_varint_dec_end(buf@, 0);
                        assert(frame_exact(buf@) is None);
                        assert(self.tasks@ =~= old(self).tasks@);
                    }
                }
            },
        }
    }

    /// The page-map service: asks the gateway to alias the encoded page of
    /// the caller's transfer buffer A at the shared upper-half offset.
    pub fn svc_pmap(&mut self, acts: &mut Vec<Action>)
        requires
            old(self).wf(),
            !old(self).fault,
        ensures
            final(self).wf(),
            svc_pmap_effect(*old(self), *final(self), old(acts)@, final(acts)@),
    {
        proof {
            reveal(crate::ksvc::svc_pmap_effect);
        }
        let c = self.cur;
        match &self.tasks[c].box1 {
            None => {
                self.fault = true;
            },
            Some(buf) => {
                proof {
                    vstd::std_specs::vec::axiom_spec_len(buf);
                }
                match get_varint(buf, 0) {
                    Some((v, end)) => {
                        if end == buf.len() {
                            if v <= u64::MAX - PMAP_OFFSET {
                                acts.push(Action::MapPage { virt: v + PMAP_OFFSET });
                            } else {
                                self.fault = true;
                            }
                        } else {
                            self.fault = true;
                        }
                    },
                    None => {
                        self.fault = true;
                    },
                }
            },
        }
    }

    /// The page-unmap service: asks the gateway to unmap the encoded page
    /// of the caller's transfer buffer A.
    pub fn svc_punmap(&mut self, acts: &mut Vec<Action>)
        requires
            old(self).wf(),
            !old(self).fault,
        ensures
            final(self).wf(),
            svc_punmap_effect(*old(self), *final(self), old(acts)@, final(acts)@),
    {
        proof {
            reveal(crate::ksvc::svc_punmap_effect);
        }
        let c = self.cur;
        match &self.tasks[c].box1 {
            None => {
                self.fault = true;
            },
            Some(buf) => {
                proof {
                    vstd::std_specs::vec::axiom_spec_len(buf);
                }
                match get_varint(buf, 0) {
                    Some((v, end)) => {
                        if end == buf.len() {
                            acts.push(Action::UnmapPage { virt: v });
                        } else {
                            self.fault = true;
                        }
                    },
                    None => {
                        self.fault = true;
                    },
                }
            },
        }
    }

    /// The filesystem service: answers a read request from the embedded
    /// root filesystem into the caller's transfer buffer A.
    pub fn dofs(&mut self)
        requires
            old(self).wf(),
            !old(self).fault,
        ensures
            final(self).wf(),
            dofs_effect(*old(self), *final(self)),
    {
        proof {
            reveal(crate::ksvc::dofs_effect);
        }
        let c = self.cur;
        let mut taken: Option<Vec<u8>> = None;
        core::mem::swap(&mut taken, &mut self.tasks[c].box1);
        match taken {
            None => {
                self.fault = true;
                proof {
                    assert(self.tasks@ =~= old(self).tasks@);
                }
            },
            Some(buf) => {
                let restore = self.dofs_inner(&buf);
                if restore {
                    self.fault = true;
                    self.tasks[c].box1 = Some(buf);
                    proof {
                        assert(self.tasks@ =~= old(self).tasks@);
                    }
                }
            },
        }
    }

    /// Serves one decoded filesystem request; answers whether the caller
    /// must restore the request buffer and fault instead.
    fn dofs_inner(&mut self, buf: &Vec<u8>) -> (restore: bool)
        requires
            old(self).wf(),
            !old(self).fault,
            old(self).tasks@[old(self).cur as int].box1 is None,
        ensures
            final(self).wf(),
            ({
                let c = old(self).cur as int;
                let pre = *old(self);
                let post = *final(self);
                match varint_dec(buf@, 0) {
                    Some(d) => if d.0 == 0 {
                        match frame_exact(buf@.subrange(d.1, buf@.len() as int)) {
                            Some(path) => if exists|i: int|
                                0 <= i < pre.rootfs@.len() && fs_name_matches(
                                    pre.rootfs@[i].0@,
                                    path,
                                ) {
                                &&& !restore
                                &&& !post.fault
                                &&& (exists|i: int|
                                    0 <= i < pre.rootfs@.len() && fs_name_matches(
                                        pre.rootfs@[i].0@,
                                        path,
                                    ) && buf_view(post.tasks@[c].box1) == Some(
                                        fs_data_enc(pre.rootfs@[i].1@),
                                    ))
                                &&& post.tasks@[c] == (Task {
                                    box1: post.tasks@[c].box1,
                                    ..pre.tasks@[c]
                                })
                                &&& tasks_match_except(pre.tasks@, post.tasks@, c)
                                &&& post == (Kernel { tasks: post.tasks, ..pre })
                            } else {
                                restore && post == pre
                            },
                            None => restore && post == pre,
                        }
                    } else if d.0 == 1 || d.0 == 2 {
                        match frame_exact(buf@.subrange(d.1, buf@.len() as int)) {
                            Some(path) => {
                                &&& !restore
                                &&& !post.fault
                                &&& buf_view(post.tasks@[c].box1) == Some(
                                    fs_failure_enc(nodev_msg()),
                                )
                                &&& post.tasks@[c] == (Task {
                                    box1: post.tasks@[c].box1,
                                    ..pre.tasks@[c]
                                })
                                &&& tasks_match_except(pre.tasks@, post.tasks@, c)
                                &&& post == (Kernel { tasks: post.tasks, ..pre })
                            },
                            None => restore && post == pre,
                        }
                    } else {
                        restore && post == pre
                    },
                    None => restore && post == pre,
                }
            }),
    {
        let c = self.cur;
        let op = match get_varint(buf, 0) {
            Some(p) => p,
            None => {
                return true;
            },
        };
        let (op, at) = op;
        if op > 2 {
            return true;
        }
        let ghost tail = buf@.subrange(at as int, buf@.len() as int);
        let frame = get_frame(buf, at);
        let mut ok = false;
        match &frame {
            Some(p) => {
                if p.1 == buf.len() {
                    ok = true;
                }
            },
            None => {},
        }
        if !ok {
            proof {
                vstd::std_specs::vec::axiom_spec_len(buf);
                crate::wire::lemma_varint_dec_suffix(buf@, at as int, 0);
                crate::wire::lemma_varint_dec_end(tail, 0);
                assert(frame_exact(tail) is None);
            }
            return true;
        }
        let path = match frame {
            Some(p) => p.0,
            None => unreached(),
        };
        proof {
            crate::wire::lemma_varint_dec_suffix(buf@, at as int, 0);
            crate::wire::lemma_varint_dec_end(tail, 0);
            let dt = varint_dec(tail, 0)->Some_0;
            assert(dt.0 + dt.1 == tail.len());
            assert(tail.subrange(dt.1, tail.len() as int) =~= buf@.subrange(
                at + dt.1,
                buf@.len() as int,
            ));
            assert(path@ == buf@.subrange(at + dt.1, buf@.len() as int));
            assert(frame_exact(tail) == Some(path@));
        }
        if op == 0 {
            let data = match self.lookup_fs(&path) {
                Some(d) => d,
                None => {
                    return true;
                },
            };
            let mut answer: Vec<u8> = Vec::new();
            answer.push(0);
            put_frame(&mut answer, data);
            proof {
                assert(answer@ =~= fs_data_enc(data@));
            }
            self.tasks[c].box1 = Some(answer);
            false
        } else {
            let mut answer: Vec<u8> = Vec::new();
            answer.push(3);
            let mut msg: Vec<u8> = Vec::new();
            msg.push(69);
            msg.push(78);
            msg.push(79);
            msg.push(68);
            msg.push(69);
            msg.push(86);
            proof {
                assert(msg@ =~= nodev_msg());
            }
            put_frame(&mut answer, &msg);
            proof {
                assert(answer@ =~= fs_failure_enc(nodev_msg()));
            }
            self.tasks[c].box1 = Some(answer);
            false
        }
    }

    /// Invokes the privileged service registered under `name`.
    pub fn ksvc_invoke(&mut self, name: &Vec<u8>, acts: &mut Vec<Action>)
        requires
            old(self).wf(),
            !old(self).fault,
        ensures
            final(self).wf(),
            ksvc_effect(*old(self), *final(self), name@, old(acts)@, final(acts)@),
    {
        proof {
            reveal(crate::ksvc::ksvc_effect);
        }
        if crate::ports::bytes_eq(name, &mk_log_name()) {
            self.svc_log();
        } else if crate::ports::bytes_eq(name, &mk_pmap_name()) {
            self.svc_pmap(acts);
        } else if crate::ports::bytes_eq(name, &mk_punmap_name()) {
            self.svc_punmap(acts);
        } else if crate::ports::bytes_eq(name, &mk_kfs_name()) {
            self.dofs();
        } else {
            self.fault = true;
        }
    }
}

} // verus!
