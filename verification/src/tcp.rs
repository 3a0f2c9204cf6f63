//! The framing of messages on the deduction server's TCP connections: a
//! four-byte big-endian length, counting itself, then the message bytes.
use vstd::prelude::*;
use vstd::string::StringSliceAdditionalSpecFns;

verus! {

/// The four big-endian bytes of a 32-bit length.
pub open spec fn be32(n: nat) -> Seq<u8> {
    seq![(n / 16777216) as u8, ((n / 65536) % 256) as u8, ((n / 256) % 256) as u8, (n % 256) as u8]
}

/// The value of four big-endian bytes.
pub open spec fn be32_value(b: Seq<u8>) -> nat {
    (b[0] as nat) * 16777216 + (b[1] as nat) * 65536 + (b[2] as nat) * 256 + (b[3] as nat)
}

/// A framed message: its length with the header, then its bytes.
pub open spec fn frame(payload: Seq<u8>) -> Seq<u8> {
    be32(payload.len() + 4) + payload
}

/// The message framed at `pos`, and the position after it; `None` where the
/// data there holds no complete frame.
pub open spec fn unframe(data: Seq<u8>, pos: int) -> Option<(Seq<u8>, int)> {
    if pos < 0 || pos + 4 > data.len() {
        None
    } else {
        let total = be32_value(data.subrange(pos, pos + 4)) as int;
        if total < 4 || pos + total > data.len() {
            None
        } else {
            Some((data.subrange(pos + 4, pos + total), pos + total))
        }
    }
}

/// Reading a frame gives back the message framed.
pub proof fn lemma_unframe_frame(payload: Seq<u8>, rest: Seq<u8>)
    requires
        payload.len() + 4 < 0x1_0000_0000,
    ensures
        unframe(frame(payload) + rest, 0) == Some((payload, payload.len() + 4int)),
{
    let n = (payload.len() + 4) as nat;
    let data = frame(payload) + rest;
    assert(data.subrange(0, 4) =~= be32(n));
    assert(be32_value(be32(n)) == n) by {
        let b0 = n / 16777216;
        let b1 = (n / 65536) % 256;
        let b2 = (n / 256) % 256;
        let b3 = n % 256;
        assert(b0 < 256);
        assert(b0 * 16777216 + b1 * 65536 + b2 * 256 + b3 == n) by (nonlinear_arith)
            requires
                b0 == n / 16777216,
                b1 == (n / 65536) % 256,
                b2 == (n / 256) % 256,
                b3 == n % 256,
                n < 0x1_0000_0000,
        ;
    }
    assert(data.subrange(4, 4 + payload.len() as int) =~= payload);
}

/// The frame of a message.
pub fn pack_bytes(payload: &Vec<u8>) -> (out: Vec<u8>)
    requires
        payload.len() + 4 < 0x1_0000_0000,
    ensures
        out@ == frame(payload@),
{
    let n: u64 = (payload.len() + 4) as u64;
    let mut out: Vec<u8> = Vec::new();
    out.push((n / 16777216) as u8);
    out.push(((n / 65536) % 256) as u8);
    out.push(((n / 256) % 256) as u8);
    out.push((n % 256) as u8);
    let mut i: usize = 0;
    while i < payload.len()
        invariant
            i <= payload.len(),
            out@ == be32(n as nat) + payload@.take(i as int),
        decreases payload.len() - i,
    {
        out.push(payload[i]);
        proof {
            assert(payload@.take(i + 1) == payload@.take(i as int).push(payload@[i as int]));
        }
        i = i + 1;
    }
    proof {
        assert(payload@.take(payload.len() as int) == payload@);
    }
    out
}

/// The frame of a text message (its UTF-8 bytes).
pub fn pack(msg: &str) -> (out: Vec<u8>)
    requires
        msg.spec_bytes().len() + 4 < 0x1_0000_0000,
    ensures
        out@ == frame(msg.spec_bytes()),
{
    let b = msg.as_bytes();
    let mut v: Vec<u8> = Vec::new();
    let mut i: usize = 0;
    while i < b.len()
        invariant
            i <= b.len(),
            b@ == msg.spec_bytes(),
            v@ == b@.take(i as int),
        decreases b.len() - i,
    {
        v.push(b[i]);
        proof {
            assert(b@.take(i + 1) == b@.take(i as int).push(b@[i as int]));
        }
        i = i + 1;
    }
    proof {
        assert(b@.take(b.len() as int) == b@);
    }
    pack_bytes(&v)
}

/// The message framed at `pos` and the position after it (see `unframe`).
pub fn unpack(data: &Vec<u8>, pos: usize) -> (r: Option<(Vec<u8>, usize)>)
    ensures
        match unframe(data@, pos as int) {
            Some((m, e)) => r matches Some((v, e2)) && v@ == m && e2 == e,
            None => r is None,
        },
{
    if pos > data.len() || data.len() - pos < 4 {
        return None;
    }
    let total: u64 = (data[pos] as u64) * 16777216 + (data[pos + 1] as u64) * 65536 + (data[pos + 2] as u64) * 256
        + (data[pos + 3] as u64);
    proof {
        assert(data@.subrange(pos as int, pos + 4)[0] == data@[pos as int]);
        assert(data@.subrange(pos as int, pos + 4)[1] == data@[pos + 1]);
        assert(data@.subrange(pos as int, pos + 4)[2] == data@[pos + 2]);
        assert(data@.subrange(pos as int, pos + 4)[3] == data@[pos + 3]);
    }
    if total < 4 || total > (data.len() - pos) as u64 {
        return None;
    }
    let end = pos + total as usize;
    let mut v: Vec<u8> = Vec::new();
    let mut i: usize = pos + 4;
    while i < end
        invariant
            pos + 4 <= i <= end <= data.len(),
            v@ == data@.subrange(pos + 4, i as int),
        decreases end - i,
    {
        v.push(data[i]);
        proof {
            assert(data@.subrange(pos + 4, i + 1) == data@.subrange(pos + 4, i as int).push(data@[i as int]));
        }
        i = i + 1;
    }
    Some((v, end))
}

} // verus!
