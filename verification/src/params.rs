//! The sampled region: where the grid lies in field space.
//!
//! Coordinates are single-precision numbers. This crate does no arithmetic
//! on them; it carries each one as the word of its binary32 encoding.

use vstd::prelude::*;
use crate::binary32::{is_positive, INFINITY_WORD};
use crate::wire::{is_image, words_to_bytes};

verus! {

/// Encoding of -2.0, the left edge of the region shown at startup.
pub const INITIAL_LEFT: u32 = 0xC000_0000;

/// Encoding of -1.5, the bottom edge of the region shown at startup.
pub const INITIAL_BOTTOM: u32 = 0xBFC0_0000;

/// Encoding of 3.0, the side length of the region shown at startup.
pub const INITIAL_SIZE: u32 = 0x4040_0000;

/// Number of bytes that the parameters occupy in device-visible memory.
pub const PARAMETER_BYTES: usize = 12;

/// Origin and side length of the square region that the grid samples.
#[derive(Clone, Copy, Debug, PartialEq, Eq)]
pub struct Parameters {
    left: u32,
    bottom: u32,
    size: u32,
}

impl Parameters {
    /// Encoding of the horizontal coordinate of the region's origin.
    pub closed spec fn spec_left(&self) -> u32 {
        self.left
    }

    /// Encoding of the vertical coordinate of the region's origin.
    pub closed spec fn spec_bottom(&self) -> u32 {
        self.bottom
    }

    /// Encoding of the region's side length.
    pub closed spec fn spec_size(&self) -> u32 {
        self.size
    }

    /// The three words in the order in which the device reads them.
    pub open spec fn words(&self) -> Seq<u32> {
        seq![self.spec_left(), self.spec_bottom(), self.spec_size()]
    }

    /// The side length is greater than zero.
    pub open spec fn wf(&self) -> bool {
        is_positive(self.spec_size())
    }

    /// Parameters with the given encoded coordinates, unless `size` does not
    /// encode a number greater than zero.
    pub fn new(left: u32, bottom: u32, size: u32) -> (made: Option<Parameters>)
        ensures
            made is Some <==> is_positive(size),
            made matches Some(p) ==> p.wf() && p.spec_left() == left && p.spec_bottom() == bottom
                && p.spec_size() == size,
    {
        if 0 < size && size <= INFINITY_WORD {
            Some(Parameters { left, bottom, size })
        } else {
            None
        }
    }

    #[verifier::when_used_as_spec(spec_left)]
    pub fn left(&self) -> (word: u32)
        ensures
            word == self.spec_left(),
    {
        self.left
    }

    #[verifier::when_used_as_spec(spec_bottom)]
    pub fn bottom(&self) -> (word: u32)
        ensures
            word == self.spec_bottom(),
    {
        self.bottom
    }

    #[verifier::when_used_as_spec(spec_size)]
    pub fn size(&self) -> (word: u32)
        ensures
            word == self.spec_size(),
    {
        self.size
    }

    /// The bytes to place in the uniform region: `left`, `bottom`, `size`,
    /// four bytes each, with nothing between or after them.
    pub fn to_bytes(&self) -> (bytes: Vec<u8>)
        ensures
            bytes@.len() == PARAMETER_BYTES,
            is_image(bytes@, self.words()),
    {
        let mut words: Vec<u32> = Vec::with_capacity(3);
        words.push(self.left);
        words.push(self.bottom);
        words.push(self.size);
        assert(words@ =~= self.words());
        words_to_bytes(words.as_slice())
    }
}

impl Default for Parameters {
    /// The region shown at startup: origin (-2.0, -1.5), side length 3.0.
    fn default() -> (p: Parameters)
        ensures
            p.wf(),
            p.spec_left() == INITIAL_LEFT,
            p.spec_bottom() == INITIAL_BOTTOM,
            p.spec_size() == INITIAL_SIZE,
    {
        Parameters { left: INITIAL_LEFT, bottom: INITIAL_BOTTOM, size: INITIAL_SIZE }
    }
}

} // verus!
