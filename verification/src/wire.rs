//! Byte images of 32-bit words, as device-visible memory holds them.
//!
//! Buffers handed to the device are plain bytes. A word occupies four
//! consecutive bytes, in the byte order of the host.

use vstd::prelude::*;

verus! {

/// Order in which the four bytes of a word follow one another in memory.
pub enum ByteOrder {
    /// Least significant byte first.
    LittleEndian,
    /// Most significant byte first.
    BigEndian,
}

/// Byte `k` of `w`, counted from the least significant byte.
pub open spec fn byte_of(w: u32, k: int) -> u8 {
    if k == 0 {
        (w % 0x100) as u8
    } else if k == 1 {
        (w / 0x100 % 0x100) as u8
    } else if k == 2 {
        (w / 0x1_0000 % 0x100) as u8
    } else {
        (w / 0x100_0000 % 0x100) as u8
    }
}

/// The byte found at offset `k` (0 to 3) of the memory image of `w`.
pub open spec fn image_byte(w: u32, order: ByteOrder, k: int) -> u8 {
    match order {
        ByteOrder::LittleEndian => byte_of(w, k),
        ByteOrder::BigEndian => byte_of(w, 3 - k),
    }
}

/// The memory image of `words`: four bytes per word, back to back, in the
/// order of the words.
pub open spec fn image_of(words: Seq<u32>, order: ByteOrder) -> Seq<u8> {
    Seq::new(4 * words.len(), |i: int| image_byte(words[i / 4], order, i % 4))
}

/// `bytes` is the memory image of `words` on a host of either byte order.
pub open spec fn is_image(bytes: Seq<u8>, words: Seq<u32>) -> bool {
    ||| bytes == image_of(words, ByteOrder::LittleEndian)
    ||| bytes == image_of(words, ByteOrder::BigEndian)
}

/// A word is the sum of its four bytes, each at its place value.
pub proof fn lemma_bytes_make_word(w: u32)
    ensures
        w == byte_of(w, 0) + 0x100 * byte_of(w, 1) + 0x1_0000 * byte_of(w, 2) + 0x100_0000
            * byte_of(w, 3),
{
}

/// An image has four bytes for each word.
pub proof fn lemma_image_len(bytes: Seq<u8>, words: Seq<u32>)
    requires
        is_image(bytes, words),
    ensures
        bytes.len() == 4 * words.len(),
{
}

/// In one byte order, two word sequences with the same image are equal.
pub proof fn lemma_image_determines_words(a: Seq<u32>, b: Seq<u32>, order: ByteOrder)
    requires
        image_of(a, order) == image_of(b, order),
    ensures
        a == b,
{
    assert(image_of(a, order).len() == 4 * a.len());
    assert(image_of(b, order).len() == 4 * b.len());
    assert(a.len() == b.len());
    assert forall|i: int| 0 <= i < a.len() implies a[i] == b[i] by {
        let ia = image_of(a, order);
        let ib = image_of(b, order);
        assert(ia[4 * i] == ib[4 * i]);
        assert(ia[4 * i + 1] == ib[4 * i + 1]);
        assert(ia[4 * i + 2] == ib[4 * i + 2]);
        assert(ia[4 * i + 3] == ib[4 * i + 3]);
        lemma_bytes_make_word(a[i]);
        lemma_bytes_make_word(b[i]);
    }
    assert(a =~= b);
}

/// Copies the memory of `words` out as bytes, through
/// `bytemuck::cast_slice::<u32, u8>`. That cast reinterprets the slice in
/// place and cannot fail towards a byte slice; the result is therefore the
/// memory image of the words in the byte order of the host.
#[verifier::external_body]
pub(crate) fn words_to_bytes(words: &[u32]) -> (bytes: Vec<u8>)
    ensures
        is_image(bytes@, words@),
{
    bytemuck::cast_slice::<u32, u8>(words).to_vec()
}

/// Reads `bytes` as words, through `bytemuck::pod_collect_to_vec::<u8, u32>`.
/// That function copies the bytes into freshly allocated, zeroed words, so
/// the input needs no alignment; with a length that is a multiple of four
/// no padding is added and the bytes are exactly the memory image of the
/// words that come back.
#[verifier::external_body]
pub(crate) fn bytes_to_words(bytes: &[u8]) -> (words: Vec<u32>)
    requires
        bytes@.len() % 4 == 0,
    ensures
        is_image(bytes@, words@),
{
    bytemuck::pod_collect_to_vec::<u8, u32>(bytes)
}

} // verus!
