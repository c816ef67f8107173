use vstd::prelude::*;

verus! {

/// One finished device read: the bytes and the address they came from.
#[derive(Debug, Clone)]
pub struct ReadOp {
    pub data: Vec<u8>,
    pub from: u64,
}

/// The total number of bytes a list of byte-range reads asks for.
pub open spec fn ranges_len(ops: Seq<(u64, u64)>) -> int
    decreases ops.len(),
{
    if ops.len() == 0 {
        0
    } else {
        ranges_len(ops.drop_last()) + ops.last().1
    }
}

/// A read-only block device: the library's port to the storage
/// collaborators. Implementations deliver whole 512-byte sectors.
pub trait RODev {
    /// Reads sector `lba`; a successful read is one whole sector.
    fn read_from(&mut self, lba: u32) -> (r: Result<Vec<u8>, String>)
        ensures
            r matches Ok(v) ==> v@.len() == 512,
    ;

    /// Reads `len` bytes starting at the byte address `addr`, crossing
    /// sector boundaries as needed.
    fn read_unaligned(&mut self, addr: u64, len: u64) -> (r: Result<Vec<u8>, String>)
        requires
            addr / 512 + (len + 511) / 512 + 1 <= u32::MAX,
            len <= usize::MAX,
        ensures
            r matches Ok(v) ==> v@.len() == len,
    {
        let mut q = self.read_from((addr / 512) as u32)?;
        let count = (len + 511) / 512;
        let mut i: u64 = 0;
        while i < count
            invariant
                i <= count,
                count == (len + 511) / 512,
                addr / 512 + count + 1 <= u32::MAX,
                q@.len() == 512 + i * 512,
            decreases count - i,
        {
            let mut more = self.read_from((addr / 512 + 1 + i) as u32)?;
            q.append(&mut more);
            i = i + 1;
        }
        let skip = (addr % 512) as usize;
        let mut q = q.split_off(skip);
        q.truncate(len as usize);
        proof {
            assert(q@.len() == len);
        }
        Ok(q)
    }

    /// Reads several byte ranges back to back into one buffer; a
    /// successful read delivers exactly the bytes asked for, range after
    /// range. What the bytes hold is the device's business.
    fn vector_read_ranges(&mut self, ops: &Vec<(u64, u64)>) -> (r: Result<Vec<u8>, String>)
        requires
            forall|k: int|
                0 <= k < ops@.len() ==> (#[trigger] ops@[k]).0 / 512 + (ops@[k].1 + 511) / 512 + 1
                    <= u32::MAX && ops@[k].1 <= usize::MAX,
            ranges_len(ops@) <= usize::MAX,
        ensures
            r matches Ok(v) ==> v@.len() == ranges_len(ops@),
    {
        let mut p: Vec<u8> = Vec::new();
        let mut i: usize = 0;
        proof {
            lemma_ranges_prefix(ops@, 0);
            assert(ops@.subrange(0, 0) =~= Seq::<(u64, u64)>::empty());
        }
        while i < ops.len()
            invariant
                i <= ops@.len(),
                p@.len() == ranges_len(ops@.subrange(0, i as int)),
                ranges_len(ops@.subrange(0, i as int)) <= ranges_len(ops@),
                forall|k: int|
                    0 <= k < ops@.len() ==> (#[trigger] ops@[k]).0 / 512 + (ops@[k].1 + 511) / 512
                        + 1 <= u32::MAX && ops@[k].1 <= usize::MAX,
                ranges_len(ops@) <= usize::MAX,
            decreases ops@.len() - i,
        {
            let op = ops[i];
            proof {
                assert(ops@.subrange(0, i + 1).drop_last() =~= ops@.subrange(0, i as int));
                assert(ops@.subrange(0, i + 1).last() == ops@[i as int]);
                lemma_ranges_prefix(ops@, i + 1);
            }
            let mut part = self.read_unaligned(op.0, op.1)?;
            p.append(&mut part);
            i = i + 1;
        }
        proof {
            assert(ops@.subrange(0, ops@.len() as int) =~= ops@);
        }
        Ok(p)
    }
}

/// A prefix of a range list never asks for more than the whole list.
proof fn lemma_ranges_prefix(ops: Seq<(u64, u64)>, i: int)
    requires
        0 <= i <= ops.len(),
    ensures
        ranges_len(ops.subrange(0, i)) <= ranges_len(ops),
    decreases ops.len() - i,
{
    if i < ops.len() {
        lemma_ranges_prefix(ops, i + 1);
        assert(ops.subrange(0, i + 1).drop_last() =~= ops.subrange(0, i));
    } else {
        assert(ops.subrange(0, i) =~= ops);
    }
}

/// A block device backed by an in-memory image: the simulated environment
/// the archive and filesystem readers are exercised against.
#[derive(Debug)]
pub struct VecDev {
    pub image: Vec<u8>,
}

impl RODev for VecDev {
    /// Reads sector `lba` of the image; reading past its end fails.
    fn read_from(&mut self, lba: u32) -> (r: Result<Vec<u8>, String>)
        ensures
            final(self).image == old(self).image,
            match r {
                Ok(v) => (lba + 1) * 512 <= old(self).image@.len() && v@ == old(
                    self,
                ).image@.subrange(lba * 512, lba * 512 + 512),
                Err(_) => (lba + 1) * 512 > old(self).image@.len(),
            },
    {
        let n = self.image.len();
        let start64 = (lba as u64) * 512;
        if start64 > n as u64 || (n as u64) - start64 < 512 {
            return Err(String::from_str("sector read past the end of the image"));
        }
        let start = start64 as usize;
        let mut v: Vec<u8> = Vec::new();
        let mut i: usize = 0;
        while i < 512
            invariant
                i <= 512,
                start + 512 <= n,
                n == self.image@.len(),
                start == lba * 512,
                v@ == self.image@.subrange(start as int, start + i),
            decreases 512 - i,
        {
            v.push(self.image[start + i]);
            proof {
                assert(v@ =~= self.image@.subrange(start as int, start + i + 1));
            }
            i = i + 1;
        }
        Ok(v)
    }
}

} // verus!
