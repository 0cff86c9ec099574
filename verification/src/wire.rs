//! The TFTP wire format: specification-level descriptions of the byte
//! layout shared by every packet kind, and small verified helpers for
//! reading and writing it.

use vstd::prelude::*;

verus! {

/// Opcode of a read request.
pub const OPCODE_RRQ: u16 = 1;

/// Opcode of a write request.
pub const OPCODE_WRQ: u16 = 2;

/// Opcode of a data packet.
pub const OPCODE_DATA: u16 = 3;

/// Opcode of an acknowledgement.
pub const OPCODE_ACK: u16 = 4;

/// Opcode of an error packet.
pub const OPCODE_ERROR: u16 = 5;

/// Fixed data block size: every non-final DATA payload is exactly this long.
pub const BLOCK_SIZE: usize = 512;

/// The two big-endian bytes that encode a 16-bit word on the wire.
pub open spec fn be16(x: u16) -> Seq<u8> {
    seq![(x / 256) as u8, (x % 256) as u8]
}

/// The 16-bit word stored big-endian at offset `i`.
pub open spec fn word_at(data: Seq<u8>, i: int) -> u16
    recommends
        0 <= i,
        i + 2 <= data.len(),
{
    (data[i] * 256 + data[i + 1]) as u16
}

/// A text field is transmittable when it is non-empty and contains no NUL
/// byte, since NUL terminates the field on the wire.
pub open spec fn valid_text_bytes(b: Seq<u8>) -> bool {
    b.len() > 0 && (forall|i: int| 0 <= i < b.len() ==> b[i] != 0)
}

/// Index of the first NUL byte at or after `from`, if any.
pub open spec fn find_nul(data: Seq<u8>, from: int) -> Option<int>
    decreases data.len() - from,
{
    if from < 0 || from >= data.len() {
        None
    } else if data[from] == 0 {
        Some(from)
    } else {
        find_nul(data, from + 1)
    }
}

/// `find_nul` returns exactly the first NUL position.
pub proof fn lemma_find_nul_found(data: Seq<u8>, from: int, i: int)
    requires
        0 <= from <= i < data.len(),
        data[i] == 0,
        forall|k: int| from <= k < i ==> data[k] != 0,
    ensures
        find_nul(data, from) == Some(i),
    decreases i - from,
{
    if from < i {
        lemma_find_nul_found(data, from + 1, i);
    }
}

/// Without a NUL byte from `from` onward, `find_nul` finds nothing.
pub proof fn lemma_find_nul_none(data: Seq<u8>, from: int)
    requires
        0 <= from,
        forall|k: int| from <= k < data.len() ==> data[k] != 0,
    ensures
        find_nul(data, from) is None,
    decreases data.len() - from,
{
    if from < data.len() {
        lemma_find_nul_none(data, from + 1);
    }
}

/// What a successful `find_nul` says about the bytes it scanned.
pub proof fn lemma_find_nul_props(data: Seq<u8>, from: int)
    requires
        0 <= from,
    ensures
        match find_nul(data, from) {
            Some(i) => from <= i < data.len() && data[i] == 0 && (forall|k: int|
                from <= k < i ==> data[k] != 0),
            None => forall|k: int| from <= k < data.len() ==> data[k] != 0,
        },
    decreases data.len() - from,
{
    if from < data.len() && data[from] != 0 {
        lemma_find_nul_props(data, from + 1);
    }
}

/// Reads the big-endian word at offset `i`.
pub fn read_word(data: &[u8], i: usize) -> (w: u16)
    requires
        i + 2 <= data@.len(),
    ensures
        w == word_at(data@, i as int),
{
    (data[i] as u16) * 256 + (data[i + 1] as u16)
}

/// Appends the big-endian encoding of `x`.
pub fn push_word(v: &mut Vec<u8>, x: u16)
    ensures
        final(v)@ == old(v)@ + be16(x),
{
    v.push((x / 256) as u8);
    v.push((x % 256) as u8);
    proof {
        assert(final(v)@ =~= old(v)@ + be16(x));
    }
}

/// The big-endian encoding reads back as the word it came from.
pub proof fn lemma_word_at_be16(x: u16, data: Seq<u8>, i: int)
    requires
        0 <= i,
        i + 2 <= data.len(),
        data[i] == be16(x)[0],
        data[i + 1] == be16(x)[1],
    ensures
        word_at(data, i) == x,
{
    assert((x / 256) * 256 + x % 256 == x) by {
        vstd::arithmetic::div_mod::lemma_fundamental_div_mod(x as int, 256);
    }
}

/// Appends every byte of `s`.
pub fn append_bytes(v: &mut Vec<u8>, s: &[u8])
    ensures
        final(v)@ == old(v)@ + s@,
{
    let mut j: usize = 0;
    while j < s.len()
        invariant
            j <= s@.len(),
            v@ == old(v)@ + s@.subrange(0, j as int),
        decreases s@.len() - j,
    {
        v.push(s[j]);
        j += 1;
        proof {
            assert(v@ =~= old(v)@ + s@.subrange(0, j as int));
        }
    }
    proof {
        assert(v@ =~= old(v)@ + s@);
    }
}

} // verus!
