//! The errors a parse can end in.
//!
//! A parse either returns a complete tree or one of these errors; there is no
//! partial result.  Every variant carries the byte offset at which the
//! condition was detected.  Unrecognized chunk ids below the root are not
//! errors at all: they are skipped.

use vstd::prelude::*;

verus! {

/// Why a parse was aborted.
#[derive(Clone, Copy, Debug, PartialEq, Eq, Structural)]
pub enum ParseError {
    /// Fewer bytes remain at `offset` than a chunk header requires.
    Truncated { offset: usize },
    /// The chunk starting at `offset` declares a length shorter than its own
    /// header, or an end lying outside its container.
    Corrupt { offset: usize },
    /// The string payload starting at `offset` has no null terminator before
    /// its chunk's declared end.
    MissingTerminator { offset: usize },
    /// The string payload starting at `offset` is not valid UTF-8.
    InvalidUtf8 { offset: usize },
    /// The outermost chunk at `offset` carries `id` instead of the
    /// container-root id: the buffer is not this format at all.
    UnsupportedRoot { offset: usize, id: u16 },
}

impl ParseError {
    /// The byte offset at which the error was detected.
    pub fn offset(&self) -> (r: usize)
        ensures
            r == self.spec_offset(),
    {
        match self {
            ParseError::Truncated { offset } => *offset,
            ParseError::Corrupt { offset } => *offset,
            ParseError::MissingTerminator { offset } => *offset,
            ParseError::InvalidUtf8 { offset } => *offset,
            ParseError::UnsupportedRoot { offset, .. } => *offset,
        }
    }

    /// The byte offset carried by each variant.
    pub open spec fn spec_offset(&self) -> usize {
        match self {
            ParseError::Truncated { offset } => *offset,
            ParseError::Corrupt { offset } => *offset,
            ParseError::MissingTerminator { offset } => *offset,
            ParseError::InvalidUtf8 { offset } => *offset,
            ParseError::UnsupportedRoot { offset, .. } => *offset,
        }
    }
}

} // verus!
