//! The bytes that make up 32-bit words in memory.

use vstd::prelude::*;

verus! {

/// How many bytes one instance occupies.
pub const INSTANCE_SIZE: u64 = 144;

/// The bit patterns of one instance: the colour, then the source and the world matrix.
pub type InstanceGPU = [u32; 36];

/// Byte `j` of `word`, counted from the least significant one.
pub open spec fn byte_of(word: u32, j: int) -> u8 {
    if j == 0 {
        (word % 0x100) as u8
    } else if j == 1 {
        ((word / 0x100) % 0x100) as u8
    } else if j == 2 {
        ((word / 0x1_0000) % 0x100) as u8
    } else {
        (word / 0x100_0000) as u8
    }
}

/// The bytes of `words`, least significant first.
pub open spec fn little_endian(words: Seq<u32>) -> Seq<u8> {
    Seq::new(4 * words.len(), |k: int| byte_of(words[k / 4], k % 4))
}

/// The bytes of `words`, most significant first.
pub open spec fn big_endian(words: Seq<u32>) -> Seq<u8> {
    Seq::new(4 * words.len(), |k: int| byte_of(words[k / 4], 3 - k % 4))
}

/// `bytes` is how `words` lie in memory, on a machine of either byte order.
pub open spec fn memory_image(bytes: Seq<u8>, words: Seq<u32>) -> bool {
    bytes == little_endian(words) || bytes == big_endian(words)
}

/// The words of all rows, one row after the other.
pub open spec fn flatten<const N: usize>(rows: Seq<[u32; N]>) -> Seq<u32> {
    Seq::new(rows.len() * N as nat, |k: int| rows[k / N as int]@[k % N as int])
}

/// `bytemuck::bytes_of` on an array of words: the array's memory, byte by byte, in the order
/// that the machine keeps.
#[verifier::external_body]
pub(crate) fn bytes_of<const N: usize>(words: &[u32; N]) -> (bytes: Vec<u8>)
    ensures
        memory_image(bytes@, words@),
{
    bytemuck::bytes_of(words).to_vec()
}

/// `bytemuck::cast_slice` from rows of words to bytes: the rows' memory, one row after the
/// other. The cast cannot fail, since a byte has no alignment and divides every size.
#[verifier::external_body]
pub(crate) fn cast_slice<const N: usize>(rows: &[[u32; N]]) -> (bytes: Vec<u8>)
    ensures
        memory_image(bytes@, flatten(rows@)),
{
    bytemuck::cast_slice::<[u32; N], u8>(rows).to_vec()
}

} // verus!
