//! The mathematical model of the format.
//!
//! These spec functions define, over a byte sequence alone, exactly which
//! tree (or which error) a buffer denotes.  The executable walkers in
//! [`crate::parser`] are proved to return precisely these values.
//!
//! Shape of the model, leaf-first: each nesting level has one recursive
//! function over a half-open byte range `[pos, end)` that reads one child
//! header, validates the child's extent, turns the child into zero or one
//! tree nodes, and continues at the child's declared end.  A chunk id that a
//! level does not recognize contributes nothing and is skipped.  The walk of
//! a range rejects a chunk whose declared length is shorter than its own
//! header or whose declared end lies beyond the range: both would otherwise
//! let a crafted length field drag the cursor backward or out of the
//! container, so they are structural corruption.

use crate::chunks::{
    EDIT_MATERIAL, MAIN3DS, MAIN_EDITOR, MATERIAL_NAME, MATERIAL_TEXTURE_MAP,
    MATERIAL_TEXTURE_MAP_NAME,
};
use crate::error::ParseError;
use crate::tree::{EditorView, MainView, MaterialTextureMapView, MaterialView};
use vstd::bytes::{spec_u16_from_le_bytes, spec_u32_from_le_bytes};
use vstd::prelude::*;

verus! {

/// The number of bytes in a chunk header: a 16-bit id and a 32-bit length.
pub const HEADER_LEN: usize = 6;

/// The chunk id stored little-endian in the first two header bytes at `pos`.
pub open spec fn spec_chunk_id(b: Seq<u8>, pos: int) -> u16 {
    spec_u16_from_le_bytes(b.subrange(pos, pos + 2))
}

/// The total chunk length (header included) stored little-endian in the last
/// four header bytes at `pos`.
pub open spec fn spec_chunk_len(b: Seq<u8>, pos: int) -> u32 {
    spec_u32_from_le_bytes(b.subrange(pos + 2, pos + 6))
}

/// The absolute offset one past the chunk starting at `pos`: the length
/// field counts from the start of the header itself.
pub open spec fn spec_chunk_end(b: Seq<u8>, pos: int) -> int {
    pos + spec_chunk_len(b, pos)
}

/// The index of the first zero byte in `[from, to)`, if any.
pub open spec fn spec_find_nul(b: Seq<u8>, from: int, to: int) -> Option<int>
    decreases to - from,
{
    if from >= to {
        None
    } else if b[from] == 0 {
        Some(from)
    } else {
        spec_find_nul(b, from + 1, to)
    }
}

/// The index of the first zero byte of `b` in `[from, to)` is `i`.
pub proof fn lemma_find_nul_some(b: Seq<u8>, from: int, to: int, i: int)
    requires
        from <= i < to,
        b[i] == 0,
        forall|j: int| from <= j < i ==> b[j] != 0,
    ensures
        spec_find_nul(b, from, to) == Some(i),
    decreases i - from,
{
    if from < i {
        lemma_find_nul_some(b, from + 1, to, i);
    }
}

/// `b` has no zero byte in `[from, to)`.
pub proof fn lemma_find_nul_none(b: Seq<u8>, from: int, to: int)
    requires
        forall|j: int| from <= j < to ==> b[j] != 0,
    ensures
        spec_find_nul(b, from, to) is None,
    decreases to - from,
{
    if from < to {
        lemma_find_nul_none(b, from + 1, to);
    }
}

/// What `String::from_utf8` yields on `bytes`: the decoded characters when
/// `bytes` is valid UTF-8, and nothing otherwise.  The relation between byte
/// sequences and character sequences is left uninterpreted; the trusted
/// wrapper in [`crate::parser`] ties it to the real decoder.
pub uninterp spec fn utf8_decode(bytes: Seq<u8>) -> Option<Seq<char>>;

/// The string payload of a scalar-leaf chunk: the bytes of `[start, end)` up
/// to but excluding the first null terminator, decoded as UTF-8.  A missing
/// terminator and an invalid encoding are both hard errors.
pub open spec fn spec_name_at(b: Seq<u8>, start: int, end: int) -> Result<Seq<char>, ParseError> {
    match spec_find_nul(b, start, end) {
        None => Err(ParseError::MissingTerminator { offset: start as usize }),
        Some(i) => match utf8_decode(b.subrange(start, i)) {
            Some(chars) => Ok(chars),
            None => Err(ParseError::InvalidUtf8 { offset: start as usize }),
        },
    }
}

/// Does the chunk starting at `pos` fit its container `[pos, end)`?  Its
/// declared length must cover at least its own header and its declared end
/// must not pass the container's end.
pub open spec fn spec_child_fits(b: Seq<u8>, pos: int, end: int) -> bool {
    pos + HEADER_LEN <= spec_chunk_end(b, pos) <= end
}

/// The chain of sibling chunks starting at `pos` tiles `[pos, end)` without
/// overrunning it: every header along the chain is wholly inside the buffer
/// and every chunk ends inside the container.
pub open spec fn spec_chunks_fit(b: Seq<u8>, pos: int, end: int) -> bool
    decreases end - pos,
{
    pos >= end || (pos + HEADER_LEN <= b.len() && spec_child_fits(b, pos, end)
        && spec_chunks_fit(b, spec_chunk_end(b, pos), end))
}

/// The walk of a texture-map group's children over `[pos, end)`.
pub open spec fn spec_texture_items(b: Seq<u8>, pos: int, end: int) -> Result<
    Seq<MaterialTextureMapView>,
    ParseError,
>
    decreases end - pos,
{
    if pos >= end {
        Ok(Seq::empty())
    } else if pos + HEADER_LEN > b.len() {
        Err(ParseError::Truncated { offset: pos as usize })
    } else if !spec_child_fits(b, pos, end) {
        Err(ParseError::Corrupt { offset: pos as usize })
    } else {
        let cend = spec_chunk_end(b, pos);
        let step: Result<Seq<MaterialTextureMapView>, ParseError> = if spec_chunk_id(b, pos)
            == MATERIAL_TEXTURE_MAP_NAME {
            match spec_name_at(b, pos + HEADER_LEN, cend) {
                Ok(name) => Ok(seq![MaterialTextureMapView::Name(name)]),
                Err(e) => Err(e),
            }
        } else {
            Ok(Seq::empty())
        };
        match step {
            Ok(items) => match spec_texture_items(b, cend, end) {
                Ok(rest) => Ok(items + rest),
                Err(e) => Err(e),
            },
            Err(e) => Err(e),
        }
    }
}

/// The walk of a material group's children over `[pos, end)`.
pub open spec fn spec_material_items(b: Seq<u8>, pos: int, end: int) -> Result<
    Seq<MaterialView>,
    ParseError,
>
    decreases end - pos,
{
    if pos >= end {
        Ok(Seq::empty())
    } else if pos + HEADER_LEN > b.len() {
        Err(ParseError::Truncated { offset: pos as usize })
    } else if !spec_child_fits(b, pos, end) {
        Err(ParseError::Corrupt { offset: pos as usize })
    } else {
        let cend = spec_chunk_end(b, pos);
        let step: Result<Seq<MaterialView>, ParseError> = if spec_chunk_id(b, pos)
            == MATERIAL_NAME {
            match spec_name_at(b, pos + HEADER_LEN, cend) {
                Ok(name) => Ok(seq![MaterialView::Name(name)]),
                Err(e) => Err(e),
            }
        } else if spec_chunk_id(b, pos) == MATERIAL_TEXTURE_MAP {
            match spec_texture_items(b, pos + HEADER_LEN, cend) {
                Ok(entries) => Ok(seq![MaterialView::TextureMap(entries)]),
                Err(e) => Err(e),
            }
        } else {
            Ok(Seq::empty())
        };
        match step {
            Ok(items) => match spec_material_items(b, cend, end) {
                Ok(rest) => Ok(items + rest),
                Err(e) => Err(e),
            },
            Err(e) => Err(e),
        }
    }
}

/// The walk of an editor group's children over `[pos, end)`.
pub open spec fn spec_editor_items(b: Seq<u8>, pos: int, end: int) -> Result<
    Seq<EditorView>,
    ParseError,
>
    decreases end - pos,
{
    if pos >= end {
        Ok(Seq::empty())
    } else if pos + HEADER_LEN > b.len() {
        Err(ParseError::Truncated { offset: pos as usize })
    } else if !spec_child_fits(b, pos, end) {
        Err(ParseError::Corrupt { offset: pos as usize })
    } else {
        let cend = spec_chunk_end(b, pos);
        let step: Result<Seq<EditorView>, ParseError> = if spec_chunk_id(b, pos)
            == EDIT_MATERIAL {
            match spec_material_items(b, pos + HEADER_LEN, cend) {
                Ok(materials) => Ok(seq![EditorView::Material(materials)]),
                Err(e) => Err(e),
            }
        } else {
            Ok(Seq::empty())
        };
        match step {
            Ok(items) => match spec_editor_items(b, cend, end) {
                Ok(rest) => Ok(items + rest),
                Err(e) => Err(e),
            },
            Err(e) => Err(e),
        }
    }
}

/// The walk of the root's children over `[pos, end)`.
pub open spec fn spec_main_items(b: Seq<u8>, pos: int, end: int) -> Result<
    Seq<MainView>,
    ParseError,
>
    decreases end - pos,
{
    if pos >= end {
        Ok(Seq::empty())
    } else if pos + HEADER_LEN > b.len() {
        Err(ParseError::Truncated { offset: pos as usize })
    } else if !spec_child_fits(b, pos, end) {
        Err(ParseError::Corrupt { offset: pos as usize })
    } else {
        let cend = spec_chunk_end(b, pos);
        let step: Result<Seq<MainView>, ParseError> = if spec_chunk_id(b, pos) == MAIN_EDITOR {
            match spec_editor_items(b, pos + HEADER_LEN, cend) {
                Ok(editors) => Ok(seq![MainView::Editor(editors)]),
                Err(e) => Err(e),
            }
        } else {
            Ok(Seq::empty())
        };
        match step {
            Ok(items) => match spec_main_items(b, cend, end) {
                Ok(rest) => Ok(items + rest),
                Err(e) => Err(e),
            },
            Err(e) => Err(e),
        }
    }
}

/// The whole parse, starting at `pos`.  The single outermost chunk must
/// carry the container-root id; its children are then walked over its
/// declared extent, which must itself lie within the buffer.
pub open spec fn spec_read_main(b: Seq<u8>, pos: int) -> Result<Seq<MainView>, ParseError> {
    if pos + HEADER_LEN > b.len() {
        Err(ParseError::Truncated { offset: pos as usize })
    } else if spec_chunk_id(b, pos) != MAIN3DS {
        Err(ParseError::UnsupportedRoot { offset: pos as usize, id: spec_chunk_id(b, pos) })
    } else if !spec_child_fits(b, pos, b.len() as int) {
        Err(ParseError::Corrupt { offset: pos as usize })
    } else {
        spec_main_items(b, pos + HEADER_LEN, spec_chunk_end(b, pos))
    }
}

} // verus!
