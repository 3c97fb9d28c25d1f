use vstd::prelude::*;

use vstd::bytes::{
    lemma_auto_spec_u64_to_from_le_bytes, spec_u64_from_le_bytes, spec_u64_to_le_bytes,
    u64_from_le_bytes, u64_to_le_bytes,
};
use vstd::slice::slice_subrange;

use crate::pubkey::Pubkey;

verus! {

/// The payload of one call, as placed in a buffer.
///
/// A payload either fills its buffer completely, or occupies only a prefix
/// of a fixed-capacity buffer: variable-length fields are embedded with a
/// length prefix, and the buffer keeps its static maximum size while only
/// the prefix up to the valid length is meaningful.
pub enum InstructionData {
    /// The whole buffer is meaningful.
    Full(Vec<u8>),
    /// Only the prefix up to the given length is meaningful.
    Truncated(Vec<u8>, usize),
}

impl InstructionData {
    /// The valid length never exceeds the buffer's physical size.
    pub open spec fn wf(&self) -> bool {
        match self {
            InstructionData::Full(_) => true,
            InstructionData::Truncated(buf, len) => *len <= buf@.len(),
        }
    }

    /// The physical size of the underlying buffer.
    pub open spec fn spec_capacity(&self) -> nat {
        match self {
            InstructionData::Full(buf) => buf@.len(),
            InstructionData::Truncated(buf, _) => buf@.len(),
        }
    }

    /// The physical size of the underlying buffer.
    pub fn capacity(&self) -> (n: usize)
        ensures
            n == self.spec_capacity(),
    {
        match self {
            InstructionData::Full(buf) => buf.len(),
            InstructionData::Truncated(buf, _) => buf.len(),
        }
    }

    /// The number of meaningful payload bytes.
    pub fn payload_len(&self) -> (n: usize)
        requires
            self.wf(),
        ensures
            n == self@.len(),
    {
        match self {
            InstructionData::Full(buf) => buf.len(),
            InstructionData::Truncated(_, len) => *len,
        }
    }

    /// The meaningful payload bytes, as an owned vector.
    pub fn payload(&self) -> (v: Vec<u8>)
        requires
            self.wf(),
        ensures
            v@ == self@,
    {
        match self {
            InstructionData::Full(buf) => {
                let v = copy_prefix(buf, buf.len());
                proof {
                    assert(v@ =~= buf@);
                }
                v
            },
            InstructionData::Truncated(buf, len) => copy_prefix(buf, *len),
        }
    }
}

impl View for InstructionData {
    type V = Seq<u8>;

    /// The meaningful payload bytes.
    open spec fn view(&self) -> Seq<u8> {
        match self {
            InstructionData::Full(buf) => buf@,
            InstructionData::Truncated(buf, len) => buf@.subrange(0, *len as int),
        }
    }
}

/// The first `n` bytes of `src`, as an owned vector.
pub fn copy_prefix(src: &Vec<u8>, n: usize) -> (v: Vec<u8>)
    requires
        n <= src@.len(),
    ensures
        v@ == src@.subrange(0, n as int),
{
    let mut v: Vec<u8> = Vec::new();
    let mut i: usize = 0;
    while i < n
        invariant
            i <= n <= src@.len(),
            v@ =~= src@.subrange(0, i as int),
        decreases n - i,
    {
        v.push(src[i]);
        i += 1;
    }
    proof {
        assert(v@ =~= src@.subrange(0, n as int));
    }
    v
}

/// Append a 64-bit value in little-endian order.
pub fn push_u64_le(v: &mut Vec<u8>, x: u64)
    ensures
        final(v)@ == old(v)@ + spec_u64_to_le_bytes(x),
{
    let mut b = u64_to_le_bytes(x);
    v.append(&mut b);
}

/// Append all bytes of `src`.
pub fn push_bytes(v: &mut Vec<u8>, src: &Vec<u8>)
    ensures
        final(v)@ == old(v)@ + src@,
{
    let ghost orig = v@;
    let mut i: usize = 0;
    while i < src.len()
        invariant
            i <= src@.len(),
            v@ =~= orig + src@.subrange(0, i as int),
            orig == old(v)@,
        decreases src@.len() - i,
    {
        v.push(src[i]);
        i += 1;
    }
    proof {
        assert(v@ =~= old(v)@ + src@);
    }
}

/// Append the 32 bytes of an identifier.
pub fn push_pubkey(v: &mut Vec<u8>, k: &Pubkey)
    ensures
        final(v)@ == old(v)@ + k@,
{
    let mut b = k.to_vec();
    v.append(&mut b);
}

/// Zero bytes of the given count.
pub open spec fn zero_bytes(n: nat) -> Seq<u8> {
    Seq::new(n, |i: int| 0u8)
}

/// Pad with zero bytes up to the given capacity.
pub fn pad_to(v: &mut Vec<u8>, capacity: usize)
    requires
        old(v)@.len() <= capacity,
    ensures
        final(v)@ == old(v)@ + zero_bytes((capacity - old(v)@.len()) as nat),
{
    let ghost orig = v@;
    while v.len() < capacity
        invariant
            orig.len() <= v@.len() <= capacity,
            v@ =~= orig + zero_bytes((v@.len() - orig.len()) as nat),
            orig == old(v)@,
        decreases capacity - v@.len(),
    {
        v.push(0);
        proof {
            assert(v@ =~= orig + zero_bytes((v@.len() - orig.len()) as nat));
        }
    }
    proof {
        assert(v@ =~= old(v)@ + zero_bytes((capacity - old(v)@.len()) as nat));
    }
}

/// Read the 64-bit little-endian value at the given offset.
pub fn read_u64_le(data: &Vec<u8>, offset: usize) -> (x: u64)
    requires
        offset + 8 <= data@.len(),
    ensures
        x == spec_u64_from_le_bytes(data@.subrange(offset as int, offset as int + 8)),
{
    let n = data.len();
    assert(offset + 8 <= n);
    let s = slice_subrange(data.as_slice(), offset, offset + 8);
    u64_from_le_bytes(s)
}

/// Read the 32-byte identifier at the given offset.
pub fn read_pubkey(data: &Vec<u8>, offset: usize) -> (k: Pubkey)
    requires
        offset + 32 <= data@.len(),
    ensures
        k@ == data@.subrange(offset as int, offset as int + 32),
{
    let n = data.len();
    assert(offset + 32 <= n);
    let mut bytes = [0u8; 32];
    let mut i: usize = 0;
    while i < 32
        invariant
            i <= 32,
            offset + 32 <= n == data@.len(),
            bytes@.len() == 32,
            forall|j: int| 0 <= j < i ==> bytes@[j] == data@[offset + j],
        decreases 32 - i,
    {
        bytes[i] = data[offset + i];
        i += 1;
    }
    proof {
        assert(bytes@ =~= data@.subrange(offset as int, offset as int + 32));
    }
    Pubkey { bytes }
}

/// The bytes of `src` from `from` (inclusive) to `to` (exclusive), as an
/// owned vector.
pub fn copy_range(src: &Vec<u8>, from: usize, to: usize) -> (v: Vec<u8>)
    requires
        from <= to <= src@.len(),
    ensures
        v@ == src@.subrange(from as int, to as int),
{
    let mut v: Vec<u8> = Vec::new();
    let mut i: usize = from;
    while i < to
        invariant
            from <= i <= to <= src@.len(),
            v@ =~= src@.subrange(from as int, i as int),
        decreases to - i,
    {
        v.push(src[i]);
        i += 1;
    }
    proof {
        assert(v@ =~= src@.subrange(from as int, to as int));
    }
    v
}

/// Law: a 64-bit field encoded little-endian decodes back to itself.
pub proof fn lemma_u64_le_round_trip(x: u64)
    ensures
        spec_u64_from_le_bytes(spec_u64_to_le_bytes(x)) == x,
        spec_u64_to_le_bytes(x).len() == 8,
{
    lemma_auto_spec_u64_to_from_le_bytes();
}

} // verus!
