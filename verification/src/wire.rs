//! Bytes on the wire: the two bytes of a 16-bit field, the Internet
//! checksum, and chunks laid end to end.

use vstd::prelude::*;

verus! {

/// The higher byte of a 16-bit field.
pub open spec fn high_byte(v: u16) -> u8 {
    (v / 256) as u8
}

/// The lower byte of a 16-bit field.
pub open spec fn low_byte(v: u16) -> u8 {
    (v % 256) as u8
}

/// The sum of the first `n` bytes as 16-bit words, highest byte first: a
/// byte at an even place counts 256 times.
pub open spec fn weighted_sum(bytes: Seq<u8>, n: int) -> nat
    decreases n,
{
    if n <= 0 {
        0
    } else if (n - 1) % 2 == 0 {
        weighted_sum(bytes, n - 1) + bytes[n - 1] as nat * 256
    } else {
        weighted_sum(bytes, n - 1) + bytes[n - 1] as nat
    }
}

/// The Internet checksum of `bytes`: the 16-bit words are added, what
/// exceeds 16 bits is added in again, and every bit of the result is
/// turned. A last odd byte stands for the higher byte of a word.
pub open spec fn internet_checksum(bytes: Seq<u8>) -> u16 {
    let sum = weighted_sum(bytes, bytes.len() as int);
    if sum == 0 {
        0xffff
    } else {
        (0xffff - ((sum - 1) % 0xffff + 1)) as u16
    }
}

/// Computes the Internet checksum of `bytes`.
pub fn checksum_of(bytes: &Vec<u8>) -> (c: u16)
    requires
        bytes@.len() <= 0x1_0000_0000,
    ensures
        c == internet_checksum(bytes@),
{
    let mut sum: u64 = 0;
    let mut i: usize = 0;
    while i < bytes.len()
        invariant
            i <= bytes@.len(),
            bytes@.len() <= 0x1_0000_0000,
            sum == weighted_sum(bytes@, i as int),
            sum <= i * 0xff00,
        decreases bytes@.len() - i,
    {
        let b: u64 = bytes[i] as u64;
        if i % 2 == 0 {
            sum = sum + b * 256;
        } else {
            sum = sum + b;
        }
        i = i + 1;
    }
    if sum == 0 {
        0xffff
    } else {
        (0xffff - ((sum - 1) % 0xffff + 1)) as u16
    }
}

/// What each chunk holds.
pub open spec fn views(chunks: Seq<Vec<u8>>) -> Seq<Seq<u8>> {
    chunks.map_values(|chunk: Vec<u8>| chunk@)
}

/// The bytes of the first `n` chunks, one chunk after the other.
pub open spec fn joined_prefix(chunks: Seq<Seq<u8>>, n: int) -> Seq<u8>
    decreases n,
{
    if n <= 0 {
        Seq::empty()
    } else {
        joined_prefix(chunks, n - 1) + chunks[n - 1]
    }
}

/// The bytes of all chunks, one chunk after the other.
pub open spec fn joined(chunks: Seq<Seq<u8>>) -> Seq<u8> {
    joined_prefix(chunks, chunks.len() as int)
}

/// Lays the chunks end to end, in the order given, with nothing between them.
pub fn flatten(chunks: &Vec<Vec<u8>>) -> (bytes: Vec<u8>)
    ensures
        bytes@ == joined(views(chunks@)),
{
    let mut bytes: Vec<u8> = Vec::new();
    let mut i: usize = 0;
    while i < chunks.len()
        invariant
            i <= chunks@.len(),
            bytes@ == joined_prefix(views(chunks@), i as int),
        decreases chunks@.len() - i,
    {
        let chunk = &chunks[i];
        let mut j: usize = 0;
        while j < chunk.len()
            invariant
                i < chunks@.len(),
                chunk == chunks@[i as int],
                j <= chunk@.len(),
                bytes@ == joined_prefix(views(chunks@), i as int) + chunk@.subrange(0, j as int),
            decreases chunk@.len() - j,
        {
            bytes.push(chunk[j]);
            proof {
                assert(chunk@.subrange(0, j + 1) =~= chunk@.subrange(0, j as int).push(
                    chunk@[j as int],
                ));
                assert(bytes@ =~= joined_prefix(views(chunks@), i as int) + chunk@.subrange(
                    0,
                    j + 1,
                ));
            }
            j = j + 1;
        }
        proof {
            assert(chunk@.subrange(0, j as int) =~= chunk@);
            assert(views(chunks@)[i as int] == chunk@);
        }
        i = i + 1;
    }
    bytes
}

/// Three chunks laid end to end are the first, then the second, then the
/// third.
pub proof fn lemma_joined_three(chunks: Seq<Seq<u8>>)
    requires
        chunks.len() == 3,
    ensures
        joined(chunks) == chunks[0] + chunks[1] + chunks[2],
{
    reveal_with_fuel(joined_prefix, 4);
    assert(joined(chunks) =~= chunks[0] + chunks[1] + chunks[2]);
}

} // verus!
