use vstd::prelude::*;

verus! {

/// The unsigned little-endian base-128 encoding of `x`: seven value bits
/// per byte, least significant group first, high bit set on every byte but
/// the last. This is the length/discriminant prefix of the encoded
/// payloads that privileged services exchange through transfer buffer A.
pub open spec fn varint_enc(x: nat) -> Seq<u8>
    decreases x,
{
    if x < 128 {
        seq![x as u8]
    } else {
        seq![(128 + (x % 128)) as u8] + varint_enc(x / 128)
    }
}

/// What reading a base-128 integer at position `pos` of `data` yields: the
/// value and the position just after it, or nothing when the bytes are
/// truncated.
pub open spec fn varint_dec(data: Seq<u8>, pos: int) -> Option<(nat, int)>
    decreases data.len() - pos,
{
    if pos < 0 || pos >= data.len() {
        None
    } else if data[pos] < 128 {
        Some((data[pos] as nat, pos + 1))
    } else {
        match varint_dec(data, pos + 1) {
            None => None,
            Some((hi, end)) => Some(((hi * 128 + (data[pos] - 128)) as nat, end)),
        }
    }
}

/// An encoded string/byte frame: the length as a varint, then the bytes.
pub open spec fn frame_enc(data: Seq<u8>) -> Seq<u8> {
    varint_enc(data.len()) + data
}

/// Reading an encoding back yields the encoded value: the decoder is a
/// left inverse of the encoder, whatever trailing bytes follow the
/// encoding.
pub proof fn lemma_varint_round_trip(x: nat, rest: Seq<u8>)
    ensures
        varint_dec(varint_enc(x) + rest, 0) == Some((x, varint_enc(x).len() as int)),
    decreases x,
{
    let data = varint_enc(x) + rest;
    if x < 128 {
        assert(data[0] == x as u8);
    } else {
        let head = (128 + (x % 128)) as u8;
        assert(data[0] == head);
        lemma_varint_round_trip(x / 128, rest);
        let tail = varint_enc(x / 128) + rest;
        assert(tail =~= data.subrange(1, data.len() as int));
        lemma_varint_dec_shift(tail, x / 128, varint_enc(x / 128).len() as int, data);
    }
}

/// Decoding is insensitive to one byte prepended in front of the decode
/// position: decoding `data` at 1 agrees with decoding its tail at 0.
proof fn lemma_varint_dec_shift(tail: Seq<u8>, v: nat, e: int, data: Seq<u8>)
    requires
        data.len() == tail.len() + 1,
        tail =~= data.subrange(1, data.len() as int),
        varint_dec(tail, 0) == Some((v, e)),
    ensures
        varint_dec(data, 1) == Some((v, e + 1)),
{
    lemma_varint_dec_offset(tail, data, 0);
}

/// Decoding at `pos` of the tail equals decoding at `pos + 1` of the whole,
/// with the end position shifted by one.
proof fn lemma_varint_dec_offset(tail: Seq<u8>, data: Seq<u8>, pos: int)
    requires
        0 <= pos,
        data.len() == tail.len() + 1,
        tail =~= data.subrange(1, data.len() as int),
    ensures
        match varint_dec(tail, pos) {
            None => varint_dec(data, pos + 1) is None,
            Some((v, e)) => varint_dec(data, pos + 1) == Some((v, e + 1)),
        },
    decreases tail.len() - pos,
{
    if pos < tail.len() {
        assert(data[pos + 1] == tail[pos]);
        if tail[pos] >= 128 {
            lemma_varint_dec_offset(tail, data, pos + 1);
        }
    }
}

/// Decoding inside a suffix agrees with decoding the whole buffer at the
/// shifted position.
pub proof fn lemma_varint_dec_suffix(data: Seq<u8>, s: int, p: int)
    requires
        0 <= s <= data.len(),
        0 <= p,
    ensures
        ({
            let tail = data.subrange(s, data.len() as int);
            match varint_dec(tail, p) {
                None => varint_dec(data, s + p) is None,
                Some((v, e)) => varint_dec(data, s + p) == Some((v, e + s)),
            }
        }),
    decreases data.len() - s - p,
{
    let tail = data.subrange(s, data.len() as int);
    if p < tail.len() {
        assert(data[s + p] == tail[p]);
        if tail[p] >= 128 {
            lemma_varint_dec_suffix(data, s, p + 1);
        }
    }
}

/// Appends the base-128 encoding of `x` to `out`.
pub fn put_varint(out: &mut Vec<u8>, x: u64)
    ensures
        final(out)@ == old(out)@ + varint_enc(x as nat),
    decreases x,
{
    if x < 128 {
        out.push(x as u8);
        proof {
            assert(out@ =~= old(out)@ + varint_enc(x as nat));
        }
    } else {
        out.push(128 + (x % 128) as u8);
        put_varint(out, x / 128);
        proof {
            assert(out@ =~= old(out)@ + varint_enc(x as nat));
        }
    }
}

/// Reads a base-128 integer at position `pos` of `data`. Yields exactly
/// what the decoding function says, refusing values that do not fit in 64
/// bits.
pub fn get_varint(data: &Vec<u8>, pos: usize) -> (r: Option<(u64, usize)>)
    ensures
        match varint_dec(data@, pos as int) {
            None => r is None,
            Some((v, e)) => {
                if v < 0x10000000000000000 {
                    r == Some((v as u64, e as usize)) && pos < e <= data@.len()
                } else {
                    r is None
                }
            },
        },
    decreases data@.len() - pos,
{
    if pos >= data.len() {
        return None;
    }
    let b = data[pos];
    if b < 128 {
        proof {
            lemma_varint_dec_end(data@, pos as int);
        }
        return Some((b as u64, pos + 1));
    }
    match get_varint(data, pos + 1) {
        None => None,
        Some((hi, end)) => {
            if hi > (u64::MAX - ((b - 128) as u64)) / 128 {
                return None;
            }
            Some((hi * 128 + (b - 128) as u64, end))
        },
    }
}

/// A successful decode always ends within the buffer, past its start.
pub proof fn lemma_varint_dec_end(data: Seq<u8>, pos: int)
    ensures
        match varint_dec(data, pos) {
            None => true,
            Some((v, e)) => pos < e <= data.len(),
        },
    decreases data.len() - pos,
{
    if 0 <= pos < data.len() {
        if data[pos] >= 128 {
            lemma_varint_dec_end(data, pos + 1);
        }
    }
}

/// Appends a length-prefixed byte frame to `out`.
pub fn put_frame(out: &mut Vec<u8>, data: &Vec<u8>)
    ensures
        final(out)@ == old(out)@ + frame_enc(data@),
{
    put_varint(out, data.len() as u64);
    let mut i: usize = 0;
    let ghost mid = out@;
    while i < data.len()
        invariant
            i <= data@.len(),
            out@ == mid + data@.subrange(0, i as int),
        decreases data@.len() - i,
    {
        out.push(data[i]);
        proof {
            assert(out@ =~= mid + data@.subrange(0, i + 1));
        }
        i = i + 1;
    }
    proof {
        assert(data@.subrange(0, data@.len() as int) =~= data@);
        assert(out@ =~= old(out)@ + frame_enc(data@));
    }
}

/// The content of a whole buffer that holds exactly one frame: a length
/// prefix and that many content bytes, nothing after.
pub open spec fn frame_exact(buf: Seq<u8>) -> Option<Seq<u8>> {
    match varint_dec(buf, 0) {
        Some(d) => if d.0 + d.1 == buf.len() {
            Some(buf.subrange(d.1, buf.len() as int))
        } else {
            None
        },
        None => None,
    }
}

/// Reads a length-prefixed byte frame at position `pos` of `data`,
/// returning the content and the position just after the frame. Fails
/// exactly when no length can be read there, the length does not fit the
/// machine, or fewer content bytes follow than announced.
pub fn get_frame(data: &Vec<u8>, pos: usize) -> (r: Option<(Vec<u8>, usize)>)
    ensures
        match r {
            Some(p) => {
                &&& pos < p.1 <= data@.len()
                &&& varint_dec(data@, pos as int) matches Some(d) && d.0 == p.0@.len() && p.1
                    == d.1 + d.0 && p.0@ == data@.subrange(p.1 - p.0@.len(), p.1 as int)
            },
            None => match varint_dec(data@, pos as int) {
                None => true,
                Some(d) => d.0 >= 0x10000000000000000 || d.1 + d.0 > data@.len(),
            },
        },
{
    match get_varint(data, pos) {
        None => None,
        Some((len, at)) => {
            proof {
                lemma_varint_dec_end(data@, pos as int);
            }
            if len > (data.len() - at) as u64 {
                return None;
            }
            let len = len as usize;
            let n = data.len();
            let mut content: Vec<u8> = Vec::new();
            let mut i: usize = 0;
            while i < len
                invariant
                    i <= len,
                    at + len <= n,
                    n == data@.len(),
                    content@ == data@.subrange(at as int, at + i),
                decreases len - i,
            {
                content.push(data[at + i]);
                proof {
                    assert(content@ =~= data@.subrange(at as int, at + i + 1));
                }
                i = i + 1;
            }
            Some((content, at + len))
        },
    }
}

} // verus!
