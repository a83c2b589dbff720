//! The daemon wire encoding: the protocol preamble, the per-sub-chunk
//! length-prefixed framing, and the zero-length terminator.

use vstd::prelude::*;

verus! {

/// Largest payload carried behind one length prefix; a longer chunk is split.
pub const CHUNK_SIZE: usize = 4096;

/// The fixed 10-byte preamble `"zINSTREAM\0"` that opens a scan dialogue.
pub open spec fn preamble() -> Seq<u8> {
    seq![122u8, 73u8, 78u8, 83u8, 84u8, 82u8, 69u8, 65u8, 77u8, 0u8]
}

/// The 4-byte all-zero length field that ends the data phase.
pub open spec fn terminator() -> Seq<u8> {
    seq![0u8, 0u8, 0u8, 0u8]
}

/// The 4-byte big-endian encoding of a length.
pub open spec fn be32(n: u32) -> Seq<u8> {
    seq![
        ((n >> 24) & 0xff) as u8,
        ((n >> 16) & 0xff) as u8,
        ((n >> 8) & 0xff) as u8,
        (n & 0xff) as u8,
    ]
}

/// The wire form of one upstream chunk: each sub-chunk of at most
/// [`CHUNK_SIZE`] bytes behind its big-endian length, in order.  An empty
/// chunk contributes nothing to the wire.
pub open spec fn framed(data: Seq<u8>) -> Seq<u8>
    decreases data.len(),
{
    if data.len() == 0 {
        Seq::empty()
    } else if data.len() <= CHUNK_SIZE {
        be32(data.len() as u32) + data
    } else {
        be32(CHUNK_SIZE as u32) + data.subrange(0, CHUNK_SIZE as int) + framed(
            data.subrange(CHUNK_SIZE as int, data.len() as int),
        )
    }
}

/// The preamble as bytes.
pub fn preamble_bytes() -> (v: Vec<u8>)
    ensures
        v@ == preamble(),
{
    let mut v: Vec<u8> = Vec::new();
    v.push(122);
    v.push(73);
    v.push(78);
    v.push(83);
    v.push(84);
    v.push(82);
    v.push(69);
    v.push(65);
    v.push(77);
    v.push(0);
    proof {
        assert(v@ =~= preamble());
    }
    v
}

/// The terminator as bytes.
pub fn terminator_bytes() -> (v: Vec<u8>)
    ensures
        v@ == terminator(),
{
    let mut v: Vec<u8> = Vec::new();
    v.push(0);
    v.push(0);
    v.push(0);
    v.push(0);
    proof {
        assert(v@ =~= terminator());
    }
    v
}

/// Appends the 4-byte big-endian form of `n` to `out`.
fn push_be32(out: &mut Vec<u8>, n: u32)
    ensures
        final(out)@ == old(out)@ + be32(n),
{
    proof {
        assert((n >> 24) & 0xff < 256 && (n >> 16) & 0xff < 256 && (n >> 8) & 0xff < 256 && n
            & 0xff < 256) by (bit_vector);
    }
    out.push(((n >> 24) & 0xff) as u8);
    out.push(((n >> 16) & 0xff) as u8);
    out.push(((n >> 8) & 0xff) as u8);
    out.push((n & 0xff) as u8);
    proof {
        assert(out@ =~= old(out)@ + be32(n));
    }
}

/// Encodes one upstream chunk for the wire: splits it into sub-chunks of at
/// most [`CHUNK_SIZE`] bytes and writes each behind its big-endian length.
pub fn encode_chunk(data: &Vec<u8>) -> (wire: Vec<u8>)
    ensures
        wire@ == framed(data@),
{
    let mut wire: Vec<u8> = Vec::new();
    let mut i: usize = 0;
    proof {
        assert(data@.subrange(0, data@.len() as int) =~= data@);
        assert(Seq::<u8>::empty() + framed(data@) =~= framed(data@));
    }
    while i < data.len()
        invariant
            i <= data.len(),
            wire@ + framed(data@.subrange(i as int, data@.len() as int)) == framed(data@),
        decreases data.len() - i,
    {
        let rest = data.len() - i;
        let take = if rest < CHUNK_SIZE {
            rest
        } else {
            CHUNK_SIZE
        };
        let ghost pending = data@.subrange(i as int, data@.len() as int);
        let ghost wire_before = wire@;
        push_be32(&mut wire, take as u32);
        let mut j: usize = i;
        while j < i + take
            invariant
                i <= j <= i + take,
                i + take <= data.len(),
                wire@ == wire_before + be32(take as u32) + data@.subrange(i as int, j as int),
            decreases i + take - j,
        {
            wire.push(data[j]);
            proof {
                assert(wire@ =~= wire_before + be32(take as u32) + data@.subrange(
                    i as int,
                    j as int + 1,
                ));
            }
            j += 1;
        }
        proof {
            let taken = data@.subrange(i as int, (i + take) as int);
            let after = data@.subrange((i + take) as int, data@.len() as int);
            if pending.len() <= CHUNK_SIZE {
                assert(taken =~= pending);
                assert(after =~= Seq::<u8>::empty());
                assert(framed(pending) == be32(take as u32) + pending);
            } else {
                assert(taken =~= pending.subrange(0, CHUNK_SIZE as int));
                assert(after =~= pending.subrange(CHUNK_SIZE as int, pending.len() as int));
            }
            assert(framed(pending) =~= be32(take as u32) + taken + framed(after));
            assert(wire@ + framed(after) =~= framed(data@));
        }
        i += take;
    }
    proof {
        assert(data@.subrange(i as int, data@.len() as int) =~= Seq::<u8>::empty());
        assert(wire@ =~= framed(data@));
    }
    wire
}

} // verus!
