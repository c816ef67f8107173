use vstd::prelude::*;
use crate::task::clone_bytes;

verus! {

/// The value of one digit of an archive header field: bytes below the
/// digit zero count as zero, anything else counts as its distance from the
/// digit zero.
pub open spec fn cpio_digit(b: u8) -> nat {
    if b < 48 {
        0
    } else {
        (b - 48) as nat
    }
}

/// The number an archive header field holds: its digits read left to
/// right, base eight.
pub open spec fn cpio_num(s: Seq<u8>) -> nat
    decreases s.len(),
{
    if s.len() == 0 {
        0
    } else {
        cpio_num(s.drop_last()) * 8 + cpio_digit(s.last())
    }
}

/// A header field's value is bounded by its width.
pub proof fn lemma_cpio_num_bound(s: Seq<u8>)
    ensures
        cpio_num(s) + 30 <= 30 * vstd::arithmetic::power::pow(8, s.len()),
    decreases s.len(),
{
    vstd::arithmetic::power::lemma_pow_positive(8, s.len());
    if s.len() > 0 {
        lemma_cpio_num_bound(s.drop_last());
        vstd::arithmetic::power::lemma_pow_positive(8, (s.len() - 1) as nat);
        assert(vstd::arithmetic::power::pow(8, s.len()) == 8 * vstd::arithmetic::power::pow(
            8,
            (s.len() - 1) as nat,
        )) by {
            vstd::arithmetic::power::lemma_pow1(8);
            vstd::arithmetic::power::lemma_pow_adds(8, 1, (s.len() - 1) as nat);
        }
    }
}

/// The name that ends an archive.
pub open spec fn trailer_name() -> Seq<u8> {
    seq![84u8, 82u8, 65u8, 73u8, 76u8, 69u8, 82u8, 33u8, 33u8, 33u8]
}

/// One member of an archive: the eleven numeric header fields, the name
/// (without its terminating byte) and the file contents.
#[derive(Debug, Clone)]
pub struct CPIOEntry {
    pub magic: u64,
    pub dev: u64,
    pub ino: u64,
    pub mode: u64,
    pub uid: u64,
    pub gid: u64,
    pub nlink: u64,
    pub rdev: u64,
    pub mtime: u64,
    pub namesize: u64,
    pub filesize: u64,
    pub name: Vec<u8>,
    pub data: Vec<u8>,
}

/// A sequential reader over an in-memory image of the archive device: the
/// bytes as read from disk, and a cursor.
#[derive(Debug)]
pub struct Offreader {
    pub data: Vec<u8>,
    pub pos: usize,
}

impl Offreader {
    /// A reader over the given image, at its start.
    pub fn new(data: Vec<u8>) -> (r: Offreader)
        ensures
            r.data == data,
            r.pos == 0,
    {
        Offreader { data, pos: 0 }
    }

    /// A copy of this reader advanced by `off` bytes; reading past the
    /// image fails.
    pub fn offset(&self, off: u32) -> (r: Result<Offreader, String>)
        ensures
            match r {
                Ok(o) => self.pos + off <= self.data@.len() && o.data@ == self.data@ && o.pos
                    == self.pos + off,
                Err(_) => self.pos + off > self.data@.len(),
            },
    {
        let n = self.data.len();
        if off as usize > n || self.pos > n - (off as usize) {
            return Err(String::from_str("read past the end of the archive image"));
        }
        Ok(Offreader { data: clone_bytes(&self.data), pos: self.pos + off as usize })
    }

    /// Consumes and returns the next `n` bytes; reading past the image
    /// fails and leaves the cursor alone.
    pub fn read_consume(&mut self, n: u64) -> (r: Result<Vec<u8>, String>)
        ensures
            final(self).data == old(self).data,
            match r {
                Ok(v) => {
                    &&& old(self).pos + n <= old(self).data@.len()
                    &&& v@ == old(self).data@.subrange(
                        old(self).pos as int,
                        old(self).pos + n,
                    )
                    &&& final(self).pos == old(self).pos + n
                },
                Err(_) => {
                    &&& old(self).pos + n > old(self).data@.len()
                    &&& final(self).pos == old(self).pos
                },
            },
    {
        let len = self.data.len();
        if self.pos > len || n > (len - self.pos) as u64 {
            return Err(String::from_str("read past the end of the archive image"));
        }
        let n = n as usize;
        let mut v: Vec<u8> = Vec::new();
        let mut i: usize = 0;
        while i < n
            invariant
                i <= n,
                self.pos + n <= len,
                len == self.data@.len(),
                v@ == self.data@.subrange(self.pos as int, self.pos + i),
            decreases n - i,
        {
            v.push(self.data[self.pos + i]);
            proof {
                assert(v@ =~= self.data@.subrange(self.pos as int, self.pos + i + 1));
            }
            i = i + 1;
        }
        self.pos = self.pos + n;
        Ok(v)
    }
}

/// Reads a header field: digits left to right, base eight, non-digits
/// counting as zero.
pub fn chars2int(c: &[u8]) -> (r: u64)
    requires
        cpio_num(c@) < 0x10000000000000000,
    ensures
        r == cpio_num(c@),
{
    let mut res: u64 = 0;
    let mut i: usize = 0;
    let n = c.len();
    while i < n
        invariant
            i <= n,
            n == c@.len(),
            res == cpio_num(c@.subrange(0, i as int)),
            cpio_num(c@) < 0x10000000000000000,
        decreases n - i,
    {
        proof {
            lemma_cpio_prefix_mono(c@, i + 1);
            assert(c@.subrange(0, i + 1).drop_last() =~= c@.subrange(0, i as int));
            assert(c@.subrange(0, i + 1).last() == c@[i as int]);
        }
        let b = c[i];
        if b < 48 {
            res = res * 8;
        } else {
            res = res * 8;
            res = res + (b - 48) as u64;
        }
        i = i + 1;
    }
    proof {
        assert(c@.subrange(0, n as int) =~= c@);
    }
    res
}

/// A field of at most sixteen digits fits the machine word.
pub proof fn lemma_cpio_num_fits(s: Seq<u8>)
    requires
        s.len() <= 16,
    ensures
        cpio_num(s) < 0x10000000000000000,
{
    lemma_cpio_num_bound(s);
    vstd::arithmetic::power::lemma_pow_increases(8, s.len(), 16);
    assert(vstd::arithmetic::power::pow(8, 16) == 0x1000000000000) by {
        reveal_with_fuel(vstd::arithmetic::power::pow, 17);
    }
}

/// The header's name-size field of an archive member at position `p`.
pub open spec fn entry_ns(d: Seq<u8>, p: int) -> nat {
    cpio_num(d.subrange(p + 59, p + 65))
}

/// The header's file-size field of an archive member at position `p`.
pub open spec fn entry_fs(d: Seq<u8>, p: int) -> nat {
    cpio_num(d.subrange(p + 65, p + 76))
}

/// Where the archive member at position `p` ends: the fixed header, the
/// name and the contents.
pub open spec fn entry_end(d: Seq<u8>, p: int) -> int {
    p + 76 + entry_ns(d, p) + entry_fs(d, p)
}

/// Whether a whole, well-formed, non-trailer archive member sits at
/// position `p`: the header and both variable parts fit in the image, the
/// name is not empty, and it is not the archive-ending trailer name.
pub open spec fn entry_ok(d: Seq<u8>, p: int) -> bool {
    &&& p + 76 <= d.len()
    &&& entry_ns(d, p) >= 1
    &&& entry_end(d, p) <= d.len()
    &&& d.subrange(p + 76, p + 76 + entry_ns(d, p) - 1) != trailer_name()
}

/// The parsed record of the archive member at position `p`: every numeric
/// field read from its header digits, the name without its terminating
/// byte, and the contents.
pub open spec fn entry_matches(d: Seq<u8>, p: int, e: CPIOEntry) -> bool {
    &&& e.magic == cpio_num(d.subrange(p, p + 6))
    &&& e.dev == cpio_num(d.subrange(p + 6, p + 12))
    &&& e.ino == cpio_num(d.subrange(p + 12, p + 18))
    &&& e.mode == cpio_num(d.subrange(p + 18, p + 24))
    &&& e.uid == cpio_num(d.subrange(p + 24, p + 30))
    &&& e.gid == cpio_num(d.subrange(p + 30, p + 36))
    &&& e.nlink == cpio_num(d.subrange(p + 36, p + 42))
    &&& e.rdev == cpio_num(d.subrange(p + 42, p + 48))
    &&& e.mtime == cpio_num(d.subrange(p + 48, p + 59))
    &&& e.namesize == entry_ns(d, p)
    &&& e.filesize == entry_fs(d, p)
    &&& e.name@ == d.subrange(p + 76, p + 76 + entry_ns(d, p) - 1)
    &&& e.data@ == d.subrange(p + 76 + entry_ns(d, p), entry_end(d, p))
}

/// Position of the archive member number `i`, starting from `p0`: members
/// sit back to back.
pub open spec fn entry_pos(d: Seq<u8>, p0: int, i: nat) -> int
    decreases i,
{
    if i == 0 {
        p0
    } else {
        entry_end(d, entry_pos(d, p0, (i - 1) as nat))
    }
}

/// Builds the archive-ending trailer name.
fn mk_trailer() -> (r: Vec<u8>)
    ensures
        r@ == trailer_name(),
{
    let mut v: Vec<u8> = Vec::new();
    v.push(84);
    v.push(82);
    v.push(65);
    v.push(73);
    v.push(76);
    v.push(69);
    v.push(82);
    v.push(33);
    v.push(33);
    v.push(33);
    proof {
        assert(v@ =~= trailer_name());
    }
    v
}

/// Parses one archive member at the reader's cursor. Fails exactly when
/// the member is cut short by the end of the image, its name is empty, or
/// it is the trailer that ends the archive.
pub fn parse_one(drv: &mut Offreader) -> (r: Result<CPIOEntry, String>)
    ensures
        final(drv).data == old(drv).data,
        ({
            let d = old(drv).data@;
            let p = old(drv).pos as int;
            match r {
                Ok(e) => {
                    &&& entry_ok(d, p)
                    &&& entry_matches(d, p, e)
                    &&& final(drv).pos == entry_end(d, p)
                },
                Err(_) => !entry_ok(d, p),
            }
        }),
{
    let ghost d = old(drv).data@;
    let ghost p = old(drv).pos as int;
    let v = drv.read_consume(6)?;
    proof {
        lemma_cpio_num_fits(v@);
    }
    let magic = chars2int(v.as_slice());
    let v = drv.read_consume(6)?;
    proof {
        lemma_cpio_num_fits(v@);
    }
    let dev = chars2int(v.as_slice());
    let v = drv.read_consume(6)?;
    proof {
        lemma_cpio_num_fits(v@);
    }
    let ino = chars2int(v.as_slice());
    let v = drv.read_consume(6)?;
    proof {
        lemma_cpio_num_fits(v@);
    }
    let mode = chars2int(v.as_slice());
    let v = drv.read_consume(6)?;
    proof {
        lemma_cpio_num_fits(v@);
    }
    let uid = chars2int(v.as_slice());
    let v = drv.read_consume(6)?;
    proof {
        lemma_cpio_num_fits(v@);
    }
    let gid = chars2int(v.as_slice());
    let v = drv.read_consume(6)?;
    proof {
        lemma_cpio_num_fits(v@);
    }
    let nlink = chars2int(v.as_slice());
    let v = drv.read_consume(6)?;
    proof {
        lemma_cpio_num_fits(v@);
    }
    let rdev = chars2int(v.as_slice());
    let v = drv.read_consume(11)?;
    proof {
        lemma_cpio_num_fits(v@);
    }
    let mtime = chars2int(v.as_slice());
    let v = drv.read_consume(6)?;
    proof {
        lemma_cpio_num_fits(v@);
    }
    let namesize = chars2int(v.as_slice());
    let v = drv.read_consume(11)?;
    proof {
        lemma_cpio_num_fits(v@);
    }
    let filesize = chars2int(v.as_slice());
    if namesize == 0 {
        return Err(String::from_str("archive member with an empty name"));
    }
    let mut name = drv.read_consume(namesize)?;
    let nlen = name.len();
    name.truncate(nlen - 1);
    let data = drv.read_consume(filesize)?;
    proof {
        assert(name@ =~= d.subrange(p + 76, p + 76 + entry_ns(d, p) - 1));
        assert(data@ =~= d.subrange(p + 76 + entry_ns(d, p), entry_end(d, p)));
    }
    if crate::ports::bytes_eq(&name, &mk_trailer()) {
        return Err(String::from_str("EOF"));
    }
    Ok(
        CPIOEntry {
            magic,
            dev,
            ino,
            mode,
            uid,
            gid,
            nlink,
            rdev,
            mtime,
            namesize,
            filesize,
            name,
            data,
        },
    )
}

/// Parses a whole archive: members back to back until the trailer or the
/// end of the image. An archive whose very first member already fails to
/// parse is an error; otherwise every member parsed so far is returned.
#[verifier::loop_isolation(false)]
pub fn parse(drv: &mut Offreader) -> (r: Result<Vec<CPIOEntry>, String>)
    ensures
        final(drv).data == old(drv).data,
        ({
            let d = old(drv).data@;
            let p0 = old(drv).pos as int;
            match r {
                Ok(v) => {
                    &&& v@.len() >= 1
                    &&& (forall|i: int|
                        0 <= i < v@.len() ==> entry_ok(d, #[trigger] entry_pos(d, p0, i as nat))
                            && entry_matches(d, entry_pos(d, p0, i as nat), v@[i]))
                    &&& !entry_ok(d, entry_pos(d, p0, v@.len() as nat))
                },
                Err(_) => !entry_ok(d, p0),
            }
        }),
{
    let ghost d = old(drv).data@;
    let ghost p0 = old(drv).pos as int;
    let mut rv: Vec<CPIOEntry> = Vec::new();
    loop
        invariant
            drv.data@ == d,
            drv.data == old(drv).data,
            drv.pos == entry_pos(d, p0, rv@.len() as nat),
            forall|i: int|
                0 <= i < rv@.len() ==> entry_ok(d, #[trigger] entry_pos(d, p0, i as nat))
                    && entry_matches(d, entry_pos(d, p0, i as nat), rv@[i]),
        decreases d.len() - drv.pos,
    {
        let ghost before = rv@.len() as nat;
        let x = parse_one(drv);
        match x {
            Ok(o) => {
                rv.push(o);
                proof {
                    assert(entry_pos(d, p0, before + 1) == entry_end(
                        d,
                        entry_pos(d, p0, before),
                    ));
                }
            },
            Err(e) => {
                if rv.len() == 0 {
                    return Err(e);
                }
                return Ok(rv);
            },
        }
    }
}

/// A field's prefix never exceeds the whole field's value.
proof fn lemma_cpio_prefix_mono(s: Seq<u8>, i: int)
    requires
        0 <= i <= s.len(),
    ensures
        cpio_num(s.subrange(0, i)) <= cpio_num(s),
    decreases s.len() - i,
{
    if i < s.len() {
        lemma_cpio_prefix_mono(s, i + 1);
        assert(s.subrange(0, i + 1).drop_last() =~= s.subrange(0, i));
        assert(cpio_num(s.subrange(0, i + 1)) == cpio_num(s.subrange(0, i)) * 8 + cpio_digit(
            s.subrange(0, i + 1).last(),
        ));
    } else {
        assert(s.subrange(0, i) =~= s);
    }
}

} // verus!
