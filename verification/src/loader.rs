use vstd::prelude::*;
use crate::USER_SPLIT;

verus! {

/// One program segment as the executable-format collaborator reports it:
/// where it wants to live, where its bytes sit in the image, how many
/// bytes the image carries for it, and whether it is loadable at all.
#[derive(Debug, Clone, Copy, PartialEq, Eq, Structural)]
pub struct Segment {
    pub virtual_addr: u64,
    pub file_offset: u64,
    pub file_size: u64,
    pub loadable: bool,
}

/// How many fresh pages a loadable segment needs: its bytes, padded by its
/// misalignment within the first page, rounded up to whole pages.
pub open spec fn seg_page_count(s: Segment) -> int {
    (s.file_size + 4095 + s.virtual_addr % 4096) / 4096
}

/// The page addresses one segment occupies, first page first.
pub open spec fn seg_pages(s: Segment) -> Seq<u64> {
    if s.loadable {
        Seq::new(seg_page_count(s) as nat, |i: int| (s.virtual_addr + i * 4096) as u64)
    } else {
        Seq::empty()
    }
}

/// Every page of every loadable segment, in segment order.
pub open spec fn plan_pages(segs: Seq<Segment>) -> Seq<u64>
    decreases segs.len(),
{
    if segs.len() == 0 {
        Seq::empty()
    } else {
        plan_pages(segs.drop_last()) + seg_pages(segs.last())
    }
}

/// Where a loadable segment's mapped region ends.
pub open spec fn seg_end(s: Segment) -> int {
    s.virtual_addr + seg_page_count(s) * 4096
}

/// The program break before rounding: the highest mapped segment end, but
/// never below the user half's base.
pub open spec fn plan_break(segs: Seq<Segment>) -> int
    decreases segs.len(),
{
    if segs.len() == 0 {
        USER_SPLIT as int
    } else {
        let rest = plan_break(segs.drop_last());
        let s = segs.last();
        if s.loadable && seg_end(s) > rest {
            seg_end(s)
        } else {
            rest
        }
    }
}

/// A segment the loader must refuse: a loadable one aimed below the
/// kernel/user split, or one whose padded size or mapped region leaves the
/// address space.
pub open spec fn seg_bad(s: Segment) -> bool {
    s.loadable && (s.virtual_addr < USER_SPLIT || s.file_size + 4095 + s.virtual_addr % 4096
        > u64::MAX || seg_end(s) > u64::MAX - 4095)
}

/// Computes the load plan of a program: the pages to map, one fresh zero
/// frame each, and the program break of the new task. The executable
/// format itself is the collaborator's business: this takes the plain
/// segment list it reports and decides where memory goes. A program that
/// aims below the kernel/user split, or past the end of the address
/// space, is refused.
pub fn plan_load(segs: &Vec<Segment>) -> (r: Result<(Vec<u64>, u64), String>)
    ensures
        match r {
            Ok(p) => {
                &&& p.0@ == plan_pages(segs@)
                &&& p.1 == ((plan_break(segs@) + 4095) / 4096) * 4096
                &&& forall|i: int| 0 <= i < segs@.len() ==> !seg_bad(#[trigger] segs@[i])
            },
            Err(_) => exists|i: int| 0 <= i < segs@.len() && seg_bad(#[trigger] segs@[i]),
        },
{
    let mut pages: Vec<u64> = Vec::new();
    let mut brk: u64 = USER_SPLIT;
    let mut s: usize = 0;
    while s < segs.len()
        invariant
            s <= segs@.len(),
            pages@ == plan_pages(segs@.subrange(0, s as int)),
            brk == plan_break(segs@.subrange(0, s as int)),
            USER_SPLIT <= brk <= u64::MAX - 4095,
            forall|i: int| 0 <= i < s ==> !seg_bad(#[trigger] segs@[i]),
        decreases segs@.len() - s,
    {
        let seg = segs[s];
        proof {
            assert(segs@.subrange(0, s + 1).drop_last() =~= segs@.subrange(0, s as int));
            assert(segs@.subrange(0, s + 1).last() == segs@[s as int]);
        }
        if seg.loadable {
            if seg.virtual_addr < USER_SPLIT {
                return Err(String::from_str("program aimed below the kernel/user split"));
            }
            let misalign = seg.virtual_addr % 4096;
            let padded = match seg.file_size.checked_add(4095 + misalign) {
                Some(p) => p,
                None => {
                    return Err(String::from_str("program larger than the address space"));
                },
            };
            let count = padded / 4096;
            let end = match count.checked_mul(4096) {
                Some(bytes) => match seg.virtual_addr.checked_add(bytes) {
                    Some(end) => end,
                    None => {
                        return Err(String::from_str("program larger than the address space"));
                    },
                },
                None => {
                    return Err(String::from_str("program larger than the address space"));
                },
            };
            if end > u64::MAX - 4095 {
                return Err(String::from_str("program larger than the address space"));
            }
            let mut i: u64 = 0;
            while i < count
                invariant
                    i <= count,
                    count == seg_page_count(segs@[s as int]),
                    seg == segs@[s as int],
                    seg.loadable,
                    seg.virtual_addr + count * 4096 <= u64::MAX,
                    pages@ == plan_pages(segs@.subrange(0, s as int)) + seg_pages(
                        segs@[s as int],
                    ).subrange(0, i as int),
                decreases count - i,
            {
                proof {
                    assert(i * 4096 < count * 4096) by (nonlinear_arith)
                        requires
                            0 <= i < count,
                    ;
                }
                pages.push(seg.virtual_addr + i * 4096);
                proof {
                    assert(pages@ =~= plan_pages(segs@.subrange(0, s as int)) + seg_pages(
                        segs@[s as int],
                    ).subrange(0, i + 1));
                }
                i = i + 1;
            }
            proof {
                assert(seg_pages(segs@[s as int]).subrange(
                    0,
                    seg_page_count(segs@[s as int]),
                ) =~= seg_pages(segs@[s as int]));
                assert(pages@ =~= plan_pages(segs@.subrange(0, s + 1)));
            }
            if end > brk {
                brk = end;
            }
        } else {
            proof {
                assert(seg_pages(segs@[s as int]) =~= Seq::<u64>::empty());
                assert(pages@ =~= plan_pages(segs@.subrange(0, s + 1)));
            }
        }
        s = s + 1;
    }
    proof {
        assert(segs@.subrange(0, segs@.len() as int) =~= segs@);
    }
    Ok((pages, ((brk + 4095) / 4096) * 4096))
}

} // verus!
