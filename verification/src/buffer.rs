//! The layout in memory of a caller's transfer buffer.
//!
//! The controller moves data one 32-bit word at a time, so a buffer must
//! begin and end on a word boundary. Whether it does depends only on where
//! the buffer lies and how long it is, which is what a [`BufferLayout`]
//! records.

use vstd::prelude::*;

verus! {

/// Size in bytes of one block of the device.
pub const BLOCK_SIZE: usize = 512;

/// Size in bytes of the words in which the controller moves data.
pub const WORD_SIZE: usize = 4;

/// How a buffer lies relative to the word boundaries of memory.
#[derive(Debug, Clone, Copy, PartialEq, Eq)]
pub enum Alignment {
    /// The buffer is a whole number of words, the first of which starts on a
    /// word boundary.
    Aligned,
    /// Bytes at the start of the buffer lie before its first word boundary.
    MisalignedPrefix,
    /// The buffer starts on a word boundary, and bytes at its end are left
    /// over after its last whole word.
    MisalignedSuffix,
}

/// Where a byte buffer lies in memory.
#[derive(Debug, Clone, Copy, PartialEq, Eq)]
pub struct BufferLayout {
    /// Address of the first byte.
    pub addr: usize,
    /// Length in bytes.
    pub len: usize,
}

/// `<[u8]>::as_ptr`, read as a number: the address of the first byte of `buf`.
/// Nothing is claimed of the address.
#[verifier::external_body]
fn start_address(buf: &[u8]) -> usize {
    buf.as_ptr() as usize
}

impl BufferLayout {
    /// Number of bytes of the buffer that lie before its first word boundary:
    /// the distance from `addr` up to the next boundary, or the whole buffer
    /// where it ends before reaching one.
    pub open spec fn prefix_len(self) -> int {
        let to_boundary = (WORD_SIZE - self.addr % WORD_SIZE) % (WORD_SIZE as int);
        if to_boundary <= self.len {
            to_boundary
        } else {
            self.len as int
        }
    }

    /// Number of bytes left over at the end of the buffer once the prefix and
    /// every whole word after it are taken away.
    pub open spec fn suffix_len(self) -> int {
        (self.len - self.prefix_len()) % (WORD_SIZE as int)
    }

    /// The alignment of the buffer: a buffer with a prefix is
    /// `MisalignedPrefix` whether or not it has a suffix too.
    pub open spec fn alignment_spec(self) -> Alignment {
        if self.prefix_len() != 0 {
            Alignment::MisalignedPrefix
        } else if self.suffix_len() != 0 {
            Alignment::MisalignedSuffix
        } else {
            Alignment::Aligned
        }
    }

    /// Both the first byte of the buffer and the byte after its last lie on
    /// word boundaries.
    pub open spec fn ends_on_boundaries(self) -> bool {
        self.addr % WORD_SIZE == 0 && (self.addr + self.len) % (WORD_SIZE as int) == 0
    }

    /// The layout of `buf`. Its length is that of `buf`; its address is
    /// wherever `buf` happens to lie.
    pub fn of(buf: &[u8]) -> (layout: BufferLayout)
        ensures
            layout.len == buf@.len(),
    {
        BufferLayout { addr: start_address(buf), len: buf.len() }
    }

    /// Tells how the buffer lies relative to the word boundaries.
    pub fn alignment(&self) -> (a: Alignment)
        ensures
            a == self.alignment_spec(),
    {
        let offset: usize = self.addr % WORD_SIZE;
        let to_boundary: usize = if offset == 0 {
            0
        } else {
            WORD_SIZE - offset
        };
        let prefix: usize = if to_boundary <= self.len {
            to_boundary
        } else {
            self.len
        };
        if prefix != 0 {
            Alignment::MisalignedPrefix
        } else if (self.len - prefix) % WORD_SIZE != 0 {
            Alignment::MisalignedSuffix
        } else {
            Alignment::Aligned
        }
    }
}

/// A buffer long enough to reach a word boundary is aligned exactly when both
/// its first byte and the byte after its last lie on word boundaries; it has
/// a prefix exactly when its first byte does not.
pub proof fn lemma_alignment_by_ends(layout: BufferLayout)
    requires
        layout.len >= WORD_SIZE - 1,
    ensures
        layout.alignment_spec() is Aligned <==> layout.ends_on_boundaries(),
        layout.alignment_spec() is MisalignedPrefix <==> layout.addr % WORD_SIZE != 0,
{
}

} // verus!
