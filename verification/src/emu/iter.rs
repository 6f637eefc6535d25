//! Reading a program as a sequence of 16-bit words.

use vstd::prelude::*;

verus! {

/// The word with the high byte `high` and the low byte `low`.
pub open spec fn be_word(high: u8, low: u8) -> u16 {
    (high * 256 + low) as u16
}

/// The words of a program: each pair of bytes gives one word, high byte first.
pub open spec fn words_of(bytes: Seq<u8>) -> Seq<u16> {
    Seq::new(bytes.len() / 2, |i: int| be_word(bytes[2 * i], bytes[2 * i + 1]))
}

/// Walks a program word by word.
pub struct ByteCodeIter<'a> {
    slice: &'a [u8],
    index: usize,
    len: usize,
}

impl<'a> ByteCodeIter<'a> {
    /// The iterator stands inside its program.
    pub closed spec fn wf(&self) -> bool {
        &&& self.slice@.len() % 2 == 0
        &&& self.len == self.slice@.len() / 2
        &&& self.index <= self.len
    }

    /// The words that are still to come.
    pub closed spec fn remaining(&self) -> Seq<u16> {
        words_of(self.slice@).skip(self.index as int)
    }

    /// An iterator over the words of a program of even length.
    pub fn new(slice: &'a [u8]) -> (iter: Self)
        requires
            slice@.len() % 2 == 0,
        ensures
            iter.wf(),
            iter.remaining() == words_of(slice@),
    {
        let iter = Self { slice, index: 0usize, len: slice.len() / 2 };
        assert(iter.remaining() =~= words_of(slice@));
        iter
    }

    /// The next word, or `None` at the end of the program.
    pub fn next(&mut self) -> (word: Option<u16>)
        requires
            old(self).wf(),
        ensures
            final(self).wf(),
            old(self).remaining().len() == 0 ==> {
                &&& word is None
                &&& final(self).remaining() == old(self).remaining()
            },
            old(self).remaining().len() > 0 ==> {
                &&& word == Some(old(self).remaining()[0])
                &&& final(self).remaining() == old(self).remaining().skip(1)
            },
    {
        if self.index == self.len {
            return None;
        }
        let total = self.slice.len();
        assert(self.index * 2 + 1 < total);
        let high = self.slice[self.index * 2];
        let low = self.slice[self.index * 2 + 1];
        assert(((high as u16) << 8) == high * 256) by (bit_vector);
        let code = ((high as u16) << 8) + low as u16;
        self.index += 1;
        assert(self.remaining() =~= old(self).remaining().skip(1));
        Some(code)
    }
}

} // verus!
