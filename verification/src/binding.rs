//! The resource-binding layout shared by every kernel, and the byte contents
//! of the buffers bound through it.

use vstd::prelude::*;

verus! {

/// Kind of resource a kernel sees at one binding index.
#[derive(Clone, Copy, PartialEq, Eq, Structural, Debug)]
pub enum BindingType {
    /// The parameter block, read-only in the kernel.
    UniformBuffer,
    /// The output image: a read-write storage texture with four 8-bit
    /// unsigned-normalized channels.
    StorageTexture,
    /// The grid state: a read-write array of 32-bit words.
    StorageBuffer,
}

/// The binding layout of the simulation kernels, in binding-index order.
pub open spec fn simulation_layout() -> Seq<BindingType> {
    seq![BindingType::UniformBuffer, BindingType::StorageTexture, BindingType::StorageBuffer]
}

/// Builds [`simulation_layout`]: entry `i` describes binding `i`.
pub fn layout_entries() -> (entries: Vec<BindingType>)
    ensures
        entries@ == simulation_layout(),
{
    let mut entries: Vec<BindingType> = Vec::new();
    entries.push(BindingType::UniformBuffer);
    entries.push(BindingType::StorageTexture);
    entries.push(BindingType::StorageBuffer);
    entries
}

/// Byte `index` of `word`, counted from the least significant.
pub open spec fn word_byte(word: u32, index: int) -> u8 {
    if index == 0 {
        (word as int % 256) as u8
    } else if index == 1 {
        (word as int / 0x100 % 256) as u8
    } else if index == 2 {
        (word as int / 0x1_0000 % 256) as u8
    } else {
        (word as int / 0x100_0000 % 256) as u8
    }
}

/// `words` laid out least significant byte first.
pub open spec fn little_endian(words: Seq<u32>) -> Seq<u8> {
    Seq::new(4 * words.len(), |i: int| word_byte(words[i / 4], i % 4))
}

/// `words` laid out most significant byte first.
pub open spec fn big_endian(words: Seq<u32>) -> Seq<u8> {
    Seq::new(4 * words.len(), |i: int| word_byte(words[i / 4], 3 - i % 4))
}

/// `bytes` is the memory image of `words` on a machine of either byte
/// order.
pub open spec fn memory_image(words: Seq<u32>, bytes: Seq<u8>) -> bool {
    bytes == little_endian(words) || bytes == big_endian(words)
}

/// Calls `bytemuck::cast_slice` to reinterpret `words` as bytes and copies
/// them out. The cast from 32-bit words to bytes cannot fail, keeps the
/// words' order and yields each word's four bytes in the machine's byte
/// order; nothing here is proved.
#[verifier::external_body]
pub(crate) fn words_as_bytes(words: &Vec<u32>) -> (bytes: Vec<u8>)
    ensures
        memory_image(words@, bytes@),
{
    bytemuck::cast_slice::<u32, u8>(words.as_slice()).to_vec()
}

/// The bytes of a buffer of `word_count` words that are all zero.
pub fn zeroed_contents(word_count: u32) -> (bytes: Vec<u8>)
    ensures
        bytes@ == Seq::new(4 * word_count as nat, |i: int| 0u8),
{
    let words: Vec<u32> = vec![0u32; word_count as usize];
    let bytes = words_as_bytes(&words);
    proof {
        assert forall|i: int| 0 <= i < 4 * word_count implies #[trigger] bytes@[i] == 0u8 by {
            assert(words@[i / 4] == 0u32);
        }
        assert(bytes@ =~= Seq::new(4 * word_count as nat, |i: int| 0u8));
    }
    bytes
}

} // verus!
