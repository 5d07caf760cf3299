//! The byte image of what goes to the GPU.
//!
//! An instance is thirteen 32-bit words and a transform sixteen, each word the
//! bit pattern of one number. A buffer receives them as bytes in the byte
//! order of the machine.

use vstd::prelude::*;
use vstd::slice::slice_to_vec;
use crate::instance::Instance;
use crate::scalar::Scalar;

verus! {

/// Bytes in one word.
pub const WORD_SIZE: usize = 4;

/// Words in one instance.
pub const INSTANCE_WORDS: usize = 13;

/// Bytes in one instance: the stride of the instance buffer.
pub const INSTANCE_SIZE: usize = 52;

/// Words in a transform, a 4 by 4 matrix.
pub const TRANSFORM_WORDS: usize = 16;

/// Bytes in a transform.
pub const TRANSFORM_SIZE: usize = 64;

/// The four bytes of a word, least significant first.
pub open spec fn little_endian(word: u32) -> Seq<u8> {
    seq![
        (word % 0x100) as u8,
        (word / 0x100 % 0x100) as u8,
        (word / 0x1_0000 % 0x100) as u8,
        (word / 0x100_0000) as u8,
    ]
}

/// The four bytes of a word, most significant first.
pub open spec fn big_endian(word: u32) -> Seq<u8> {
    seq![
        (word / 0x100_0000) as u8,
        (word / 0x1_0000 % 0x100) as u8,
        (word / 0x100 % 0x100) as u8,
        (word % 0x100) as u8,
    ]
}

/// The bytes of a run of words, each word least significant byte first.
pub open spec fn little_endian_image(words: Seq<u32>) -> Seq<u8> {
    Seq::new(4 * words.len(), |i: int| little_endian(words[i / 4])[i % 4])
}

/// The bytes of a run of words, each word most significant byte first.
pub open spec fn big_endian_image(words: Seq<u32>) -> Seq<u8> {
    Seq::new(4 * words.len(), |i: int| big_endian(words[i / 4])[i % 4])
}

/// Whether `bytes` is how a machine holds `words` in memory: word after word,
/// all of them in one byte order.
pub open spec fn is_image(words: Seq<u32>, bytes: Seq<u8>) -> bool {
    bytes == little_endian_image(words) || bytes == big_endian_image(words)
}

/// The bit patterns of a run of numbers.
pub open spec fn bits_of(numbers: Seq<Scalar>) -> Seq<u32> {
    Seq::new(numbers.len(), |i: int| numbers[i].bits)
}

/// The words of a run of instances, instance after instance.
pub open spec fn flatten(instances: Seq<Instance>) -> Seq<u32> {
    Seq::new(13 * instances.len(), |i: int| instances[i / 13].words()[i % 13])
}

/// `bytemuck::cast_slice` from 32-bit words to bytes. It hands out the memory
/// of the slice as it is, four bytes for each word. Taken on trust: the bytes
/// are those of the words in their order, each word in the byte order of the
/// machine, which is the same for all of them and either little-endian or
/// big-endian. The cast fails on a slice that is misaligned for the target or
/// does not divide into whole items; going to bytes, neither can be.
#[verifier::external_body]
fn cast_words(words: &[u32]) -> (bytes: &[u8])
    requires
        4 * words@.len() <= usize::MAX,
    ensures
        is_image(words@, bytes@),
{
    bytemuck::cast_slice(words)
}

impl Instance {
    /// The thirteen words of an instance in the order of its fields: the
    /// corner `left_top` with the depth, the corner `right_bottom`, the two
    /// texture corners, the colour.
    pub open spec fn words(self) -> Seq<u32> {
        seq![
            self.left_top[0].bits,
            self.left_top[1].bits,
            self.left_top[2].bits,
            self.right_bottom[0].bits,
            self.right_bottom[1].bits,
            self.tex_left_top[0].bits,
            self.tex_left_top[1].bits,
            self.tex_right_bottom[0].bits,
            self.tex_right_bottom[1].bits,
            self.color[0].bits,
            self.color[1].bits,
            self.color[2].bits,
            self.color[3].bits,
        ]
    }

    fn to_words(&self) -> (words: [u32; 13])
        ensures
            words@ == self.words(),
    {
        let words: [u32; 13] = [
            self.left_top[0].bits,
            self.left_top[1].bits,
            self.left_top[2].bits,
            self.right_bottom[0].bits,
            self.right_bottom[1].bits,
            self.tex_left_top[0].bits,
            self.tex_left_top[1].bits,
            self.tex_right_bottom[0].bits,
            self.tex_right_bottom[1].bits,
            self.color[0].bits,
            self.color[1].bits,
            self.color[2].bits,
            self.color[3].bits,
        ];
        assert(words@ =~= self.words());
        words
    }
}

/// Lays instances out word by word.
fn pack(instances: &[Instance]) -> (words: Vec<u32>)
    ensures
        words@ == flatten(instances@),
{
    let mut words: Vec<u32> = Vec::new();
    let mut i: usize = 0;
    while i < instances.len()
        invariant
            i <= instances@.len(),
            words@ == flatten(instances@.take(i as int)),
        decreases instances@.len() - i,
    {
        let record = instances[i].to_words();
        let ghost before = words@;
        let mut k: usize = 0;
        while k < INSTANCE_WORDS
            invariant
                k <= INSTANCE_WORDS,
                i < instances@.len(),
                record@ == instances@[i as int].words(),
                before == flatten(instances@.take(i as int)),
                words@ == before + record@.take(k as int),
            decreases INSTANCE_WORDS - k,
        {
            words.push(record[k]);
            k += 1;
            assert(words@ =~= before + record@.take(k as int));
        }
        i += 1;
        assert(words@ =~= flatten(instances@.take(i as int)));
    }
    assert(instances@.take(i as int) =~= instances@);
    words
}

/// The bytes that a run of instances is written to its buffer as.
pub fn instance_bytes(instances: &[Instance]) -> (bytes: Vec<u8>)
    requires
        instances@.len() * INSTANCE_SIZE <= usize::MAX,
    ensures
        is_image(flatten(instances@), bytes@),
        bytes@.len() == INSTANCE_SIZE * instances@.len(),
{
    let words = pack(instances);
    slice_to_vec(cast_words(words.as_slice()))
}

/// The bytes that a transform is written to the uniform buffer as.
pub fn transform_bytes(transform: &[Scalar; 16]) -> (bytes: Vec<u8>)
    ensures
        is_image(bits_of(transform@), bytes@),
        bytes@.len() == TRANSFORM_SIZE,
{
    let mut words: Vec<u32> = Vec::new();
    let mut i: usize = 0;
    while i < TRANSFORM_WORDS
        invariant
            i <= TRANSFORM_WORDS,
            words@ == bits_of(transform@.take(i as int)),
        decreases TRANSFORM_WORDS - i,
    {
        words.push(transform[i].bits);
        i += 1;
        assert(words@ =~= bits_of(transform@.take(i as int)));
    }
    assert(transform@.take(16) =~= transform@);
    slice_to_vec(cast_words(words.as_slice()))
}

} // verus!
