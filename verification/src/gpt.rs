use vstd::prelude::*;
use crate::lebytes::{read_le32, read_le64};
use crate::rodev::RODev;

verus! {

/// The character for one hex digit value, lower case.
pub open spec fn hex_digit(n: u8) -> char {
    if n < 10 {
        ((48 + n) as u8) as char
    } else {
        ((87 + n) as u8) as char
    }
}

/// The lower-case hex spelling of a byte string: two digits per byte, high
/// nibble first.
pub open spec fn hex_seq(b: Seq<u8>) -> Seq<char> {
    Seq::new(
        b.len() * 2,
        |i: int| if i % 2 == 0 {
            hex_digit(b[i / 2] / 16)
        } else {
            hex_digit(b[i / 2] % 16)
        },
    )
}

/// Relies on hex::encode: the result spells each input byte as two
/// lower-case hex digits, high nibble first.
#[verifier::external_body]
fn to_hex(b: &Vec<u8>) -> (r: String)
    ensures
        r@ == hex_seq(b@),
{
    hex::encode(b.as_slice())
}

/// The characters a byte string spells when every byte is plain text.
pub open spec fn ascii_str(b: Seq<u8>) -> Seq<char> {
    Seq::new(b.len(), |i: int| b[i] as char)
}

/// Relies on String::from_utf8: a byte string of plain-text bytes decodes
/// to exactly those characters; bytes that are not well-formed text decode
/// to nothing.
#[verifier::external_body]
fn bytes_to_text(b: Vec<u8>) -> (r: Option<String>)
    ensures
        match r {
            Some(s) => (forall|i: int| 0 <= i < b@.len() ==> b@[i] < 128) ==> s@ == ascii_str(
                b@,
            ),
            None => !(forall|i: int| 0 <= i < b@.len() ==> b@[i] < 128),
        },
{
    match String::from_utf8(b) {
        Ok(s) => Some(s),
        Err(_) => None,
    }
}

/// Copies the bytes `[from, to)` of a vector.
pub fn copy_range(v: &Vec<u8>, from: usize, to: usize) -> (r: Vec<u8>)
    requires
        from <= to <= v@.len(),
    ensures
        r@ == v@.subrange(from as int, to as int),
{
    let mut r: Vec<u8> = Vec::new();
    let mut i: usize = from;
    while i < to
        invariant
            from <= i <= to <= v@.len(),
            r@ == v@.subrange(from as int, i as int),
        decreases to - i,
    {
        r.push(v[i]);
        proof {
            assert(r@ =~= v@.subrange(from as int, i + 1));
        }
        i = i + 1;
    }
    r
}

/// The spelled form of the first sixteen bytes of a partition GUID field:
/// four dash-separated groups covering bytes 0..4, 4..6, 6..8 and 8..14.
pub open spec fn guid_str(g: Seq<u8>) -> Seq<char> {
    hex_seq(g.subrange(0, 4)) + seq!['-'] + hex_seq(g.subrange(4, 6)) + seq!['-'] + hex_seq(
        g.subrange(6, 8),
    ) + seq!['-'] + hex_seq(g.subrange(8, 14))
}

/// Spells a partition GUID field.
pub fn prntguuid(g: &Vec<u8>) -> (r: String)
    requires
        g@.len() >= 16,
    ensures
        r@ == guid_str(g@),
{
    let mut s = to_hex(&copy_range(g, 0, 4));
    s.append("-");
    let h2 = to_hex(&copy_range(g, 4, 6));
    s.append(h2.as_str());
    s.append("-");
    let h3 = to_hex(&copy_range(g, 6, 8));
    s.append(h3.as_str());
    s.append("-");
    let h4 = to_hex(&copy_range(g, 8, 14));
    s.append(h4.as_str());
    proof {
        reveal_strlit("-");
        assert(s@ =~= guid_str(g@));
    }
    s
}

/// One partition of a GUID partition table: its name, its spelled type
/// GUID, its first sector and its length in sectors.
#[derive(Debug)]
pub struct GPTPart {
    pub name: String,
    pub guid: String,
    pub slba: u32,
    pub sz: u32,
}

impl GPTPart {
    /// The partition's name.
    pub fn name(&self) -> (r: String)
        ensures
            r@ == self.name@,
    {
        self.name.clone()
    }

    /// The partition's spelled type GUID.
    pub fn guid(&self) -> (r: String)
        ensures
            r@ == self.guid@,
    {
        self.guid.clone()
    }

    /// The partition's first sector.
    pub fn slba(&self) -> (r: u32)
        ensures
            r == self.slba,
    {
        self.slba
    }

    /// The partition's length in sectors.
    pub fn sz(&self) -> (r: u32)
        ensures
            r == self.sz,
    {
        self.sz
    }
}

/// Reading the partition table out of a device that carries one.
pub trait GetGPTPartitions {
    /// Parses the device's partition table: checks the table signature,
    /// reads the partition entries, and returns one record per used entry
    /// (an all-zero type field marks an unused one). A device whose table
    /// is damaged, missing or unreadable is reported as an error, never
    /// silently misread.
    fn get_gpt_partitions(&mut self) -> (r: Result<Vec<GPTPart>, String>);
}

impl<D: RODev> GetGPTPartitions for D {
    fn get_gpt_partitions(&mut self) -> (r: Result<Vec<GPTPart>, String>) {
        let a = self.read_from(1)?;
        let magic_ok = a[0] == 69 && a[1] == 70 && a[2] == 73 && a[3] == 32 && a[4] == 80 && a[5]
            == 65 && a[6] == 82 && a[7] == 84;
        if !magic_ok {
            return Err(String::from_str("not a GUID-partitioned drive"));
        }
        let startlba = read_le64(a.as_slice(), 0x48);
        let partc = read_le32(a.as_slice(), 0x50);
        if partc > 0x10000 || startlba > 0xFFFFFFFF - 0x4000 {
            return Err(String::from_str("unreasonable partition table header"));
        }
        let sectors = (partc + 3) / 4;
        let mut data: Vec<u8> = Vec::new();
        let mut i: u32 = 0;
        while i < sectors
            invariant
                i <= sectors,
                sectors <= 0x4001,
                startlba <= 0xFFFFFFFF - 0x4000,
                data@.len() == i * 512,
            decreases sectors - i,
        {
            let mut dat = self.read_from((i as u64 + startlba) as u32)?;
            data.append(&mut dat);
            i = i + 1;
        }
        let mut p: Vec<GPTPart> = Vec::new();
        let mut part: u32 = 0;
        while part < partc
            invariant
                part <= partc,
                partc <= 0x10000,
                data@.len() == sectors * 512,
                sectors == (partc + 3) / 4,
            decreases partc - part,
        {
            let startoff = (0x80 * part) as usize;
            proof {
                assert(0x80 * part + 128 <= data@.len()) by {
                    assert(sectors * 512 == ((partc + 3) / 4) * 512);
                    assert(0x80 * part + 128 <= 0x80 * (partc as int));
                    assert(0x80 * (partc as int) <= ((partc + 3) / 4) * 512) by (nonlinear_arith)
                        requires
                            0 <= partc,
                    ;
                }
            }
            let typefield = copy_range(&data, startoff, startoff + 16);
            let mut all_zero = true;
            let mut k: usize = 0;
            while k < 16
                invariant
                    k <= 16,
                    typefield@.len() == 16,
                decreases 16 - k,
            {
                if typefield[k] != 0 {
                    all_zero = false;
                }
                k = k + 1;
            }
            if !all_zero {
                let slba64 = read_le64(data.as_slice(), startoff + 0x20);
                let elba64 = read_le64(data.as_slice(), startoff + 0x28);
                let partid = prntguuid(&copy_range(&data, startoff + 16, startoff + 32));
                let namebytes = copy_range(&data, startoff + 0x38, startoff + 0x80);
                let partname = match bytes_to_text(namebytes) {
                    Some(s) => s,
                    None => {
                        return Err(String::from_str("partition name is not text"));
                    },
                };
                if elba64 < slba64 || elba64 - slba64 == u64::MAX {
                    return Err(String::from_str("partition has no usable extent"));
                }
                #[verifier::truncate]
                let slba = slba64 as u32;
                #[verifier::truncate]
                let sz = (elba64 - slba64 + 1) as u32;
                p.push(GPTPart { name: partname, guid: partid, slba, sz });
            }
            part = part + 1;
        }
        Ok(p)
    }
}

} // verus!
