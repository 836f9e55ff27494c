//! The byte image of the voxel grid, as it is uploaded to the storage
//! buffer: every voxel as two 32-bit words, type tag first, each word in the
//! byte order of the machine.

use crate::grid::VoxelGrid;
use crate::voxel::Voxel;
use vstd::prelude::*;

verus! {

/// Byte `k` of a word, counted from the least significant one.
pub open spec fn word_byte(word: u32, k: int) -> u8 {
    if k == 0 {
        (word as int % 0x100) as u8
    } else if k == 1 {
        (word as int / 0x100 % 0x100) as u8
    } else if k == 2 {
        (word as int / 0x1_0000 % 0x100) as u8
    } else {
        (word as int / 0x100_0000 % 0x100) as u8
    }
}

/// The words that a run of voxels is laid out as: for each voxel its type
/// tag, then its colour.
pub open spec fn words_of(cells: Seq<Voxel>) -> Seq<u32> {
    Seq::new(
        2 * cells.len(),
        |j: int|
            if j % 2 == 0 {
                cells[j / 2].voxel_type
            } else {
                cells[j / 2].color
            },
    )
}

/// The bytes of a run of words, least significant byte of each word first.
pub open spec fn little_endian(words: Seq<u32>) -> Seq<u8> {
    Seq::new(4 * words.len(), |j: int| word_byte(words[j / 4], j % 4))
}

/// The bytes of a run of words, most significant byte of each word first.
pub open spec fn big_endian(words: Seq<u32>) -> Seq<u8> {
    Seq::new(4 * words.len(), |j: int| word_byte(words[j / 4], 3 - j % 4))
}

/// Whether `bytes` is how `words` lie in memory on a machine of either byte
/// order.
pub open spec fn is_memory_image(words: Seq<u32>, bytes: Seq<u8>) -> bool {
    bytes == little_endian(words) || bytes == big_endian(words)
}

/// Copies out the bytes of `words` through `bytemuck::cast_slice`, which
/// reinterprets the slice of words as the slice of the bytes it occupies.
/// Trusted: the result is four bytes per word, in the order of the words,
/// each word in the byte order of the machine, which is one of the two.
#[verifier::external_body]
fn cast_words(words: &Vec<u32>) -> (bytes: Vec<u8>)
    ensures
        is_memory_image(words@, bytes@),
{
    bytemuck::cast_slice::<u32, u8>(words.as_slice()).to_vec()
}

impl VoxelGrid {
    /// The cells as words: type tag and colour of each voxel in turn.
    pub fn to_words(&self) -> (words: Vec<u32>)
        ensures
            words@ == words_of(self@),
    {
        let cells: &Vec<Voxel> = self.data();
        let mut words: Vec<u32> = Vec::new();
        let mut i: usize = 0;
        while i < cells.len()
            invariant
                i <= cells.len(),
                words@.len() == 2 * i,
                forall|j: int|
                    0 <= j < 2 * i ==> #[trigger] words@[j] == (if j % 2 == 0 {
                        cells@[j / 2].voxel_type
                    } else {
                        cells@[j / 2].color
                    }),
            decreases cells.len() - i,
        {
            words.push(cells[i].voxel_type);
            words.push(cells[i].color);
            i = i + 1;
        }
        assert(words@ =~= words_of(self@));
        words
    }

    /// The image of the grid in memory: eight bytes per voxel, in flat-index
    /// order, the words of each voxel in the byte order of the machine.
    pub fn to_bytes(&self) -> (bytes: Vec<u8>)
        ensures
            is_memory_image(words_of(self@), bytes@),
            bytes@.len() == 8 * self@.len(),
    {
        let words: Vec<u32> = self.to_words();
        cast_words(&words)
    }
}

} // verus!
