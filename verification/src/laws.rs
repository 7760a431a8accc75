//! Laws of the model: what holds of every buffer.
//!
//! Each proof function here states a property of the walk defined in
//! [`crate::model`], for all inputs; the executable reader inherits each
//! property through its contracts, which tie its results to that model.

use crate::chunks::{
    EDIT_MATERIAL, MAIN3DS, MAIN_EDITOR, MATERIAL_NAME, MATERIAL_TEXTURE_MAP,
    MATERIAL_TEXTURE_MAP_NAME,
};
use crate::error::ParseError;
use crate::model::{
    lemma_find_nul_none, spec_child_fits, spec_chunk_end, spec_chunk_id, spec_chunks_fit, spec_editor_items,
    spec_main_items, spec_material_items, spec_read_main, spec_texture_items, HEADER_LEN,
};
use crate::tree::{EditorView, MainView, MaterialTextureMapView, MaterialView};
use vstd::prelude::*;

verus! {

/// Every chunk a successful walk visits fits its container: when a walk over
/// `[pos, end)` returns a tree, each sibling chunk along the walked chain was
/// wholly readable and ended inside `[pos, end)`.  Nested chunks are covered
/// in turn, since a group's children are walked over the group's own extent,
/// and the root's children over the root's.
pub proof fn lemma_visited_chunks_fit(b: Seq<u8>, pos: int, end: int)
    ensures
        spec_main_items(b, pos, end) is Ok ==> spec_chunks_fit(b, pos, end),
        spec_editor_items(b, pos, end) is Ok ==> spec_chunks_fit(b, pos, end),
        spec_material_items(b, pos, end) is Ok ==> spec_chunks_fit(b, pos, end),
        spec_texture_items(b, pos, end) is Ok ==> spec_chunks_fit(b, pos, end),
    decreases end - pos,
{
    if pos < end && pos + HEADER_LEN <= b.len() && spec_child_fits(b, pos, end) {
        lemma_visited_chunks_fit(b, spec_chunk_end(b, pos), end);
    }
}

/// The same, for the whole parse: a successful parse read a root chunk that
/// lay wholly inside the buffer, and walked a chain of children that fit the
/// root's extent.
pub proof fn lemma_parsed_chunks_fit(b: Seq<u8>, pos: int)
    requires
        spec_read_main(b, pos) is Ok,
    ensures
        pos + HEADER_LEN <= b.len(),
        spec_child_fits(b, pos, b.len() as int),
        spec_chunks_fit(b, pos + HEADER_LEN, spec_chunk_end(b, pos)),
{
    lemma_visited_chunks_fit(b, pos + HEADER_LEN, spec_chunk_end(b, pos));
}

/// A chunk whose declared length is shorter than its own header, or whose
/// declared end lies beyond its container's end, aborts the walk as
/// structural corruption, at every nesting level.  Such a length field would
/// otherwise drag the cursor backward or out of the container.
pub proof fn lemma_ill_sized_chunk_rejected(b: Seq<u8>, pos: int, end: int)
    requires
        pos < end,
        pos + HEADER_LEN <= b.len(),
        !spec_child_fits(b, pos, end),
    ensures
        spec_main_items(b, pos, end) == Err::<Seq<MainView>, ParseError>(
            ParseError::Corrupt { offset: pos as usize },
        ),
        spec_editor_items(b, pos, end) == Err::<Seq<EditorView>, ParseError>(
            ParseError::Corrupt { offset: pos as usize },
        ),
        spec_material_items(b, pos, end) == Err::<Seq<MaterialView>, ParseError>(
            ParseError::Corrupt { offset: pos as usize },
        ),
        spec_texture_items(b, pos, end) == Err::<Seq<MaterialTextureMapView>, ParseError>(
            ParseError::Corrupt { offset: pos as usize },
        ),
{
}

/// Skip policy: a chunk id a level does not recognize contributes nothing,
/// and the walk resumes at the chunk's declared end.  Inserting such a chunk
/// with a valid extent anywhere among a container's children therefore
/// leaves the recognized output unchanged and never aborts the parse.
pub proof fn lemma_unrecognized_chunk_skipped(b: Seq<u8>, pos: int, end: int)
    requires
        pos < end,
        pos + HEADER_LEN <= b.len(),
        spec_child_fits(b, pos, end),
    ensures
        spec_chunk_id(b, pos) != MAIN_EDITOR ==> spec_main_items(b, pos, end) == spec_main_items(
            b,
            spec_chunk_end(b, pos),
            end,
        ),
        spec_chunk_id(b, pos) != EDIT_MATERIAL ==> spec_editor_items(b, pos, end)
            == spec_editor_items(b, spec_chunk_end(b, pos), end),
        spec_chunk_id(b, pos) != MATERIAL_NAME && spec_chunk_id(b, pos) != MATERIAL_TEXTURE_MAP
            ==> spec_material_items(b, pos, end) == spec_material_items(
            b,
            spec_chunk_end(b, pos),
            end,
        ),
        spec_chunk_id(b, pos) != MATERIAL_TEXTURE_MAP_NAME ==> spec_texture_items(b, pos, end)
            == spec_texture_items(b, spec_chunk_end(b, pos), end),
{
    let cend = spec_chunk_end(b, pos);
    if spec_main_items(b, cend, end) is Ok {
        assert(Seq::<MainView>::empty() + spec_main_items(b, cend, end)->Ok_0 =~= spec_main_items(
            b,
            cend,
            end,
        )->Ok_0);
    }
    if spec_editor_items(b, cend, end) is Ok {
        assert(Seq::<EditorView>::empty() + spec_editor_items(b, cend, end)->Ok_0
            =~= spec_editor_items(b, cend, end)->Ok_0);
    }
    if spec_material_items(b, cend, end) is Ok {
        assert(Seq::<MaterialView>::empty() + spec_material_items(b, cend, end)->Ok_0
            =~= spec_material_items(b, cend, end)->Ok_0);
    }
    if spec_texture_items(b, cend, end) is Ok {
        assert(Seq::<MaterialTextureMapView>::empty() + spec_texture_items(b, cend, end)->Ok_0
            =~= spec_texture_items(b, cend, end)->Ok_0);
    }
}

/// Truncation: when fewer bytes than a header remain at a position still
/// inside the container, the walk fails with a truncation error at every
/// level — it never returns an empty-but-successful result — and so does the
/// whole parse when the buffer ends before the root header.
pub proof fn lemma_truncated_header_rejected(b: Seq<u8>, pos: int, end: int)
    requires
        pos < end,
        pos + HEADER_LEN > b.len(),
    ensures
        spec_main_items(b, pos, end) == Err::<Seq<MainView>, ParseError>(
            ParseError::Truncated { offset: pos as usize },
        ),
        spec_editor_items(b, pos, end) == Err::<Seq<EditorView>, ParseError>(
            ParseError::Truncated { offset: pos as usize },
        ),
        spec_material_items(b, pos, end) == Err::<Seq<MaterialView>, ParseError>(
            ParseError::Truncated { offset: pos as usize },
        ),
        spec_texture_items(b, pos, end) == Err::<Seq<MaterialTextureMapView>, ParseError>(
            ParseError::Truncated { offset: pos as usize },
        ),
        spec_read_main(b, pos) == Err::<Seq<MainView>, ParseError>(
            ParseError::Truncated { offset: pos as usize },
        ),
{
}

/// A name chunk whose payload holds no null terminator before the chunk's
/// declared end fails with a missing-terminator error: the walk never reads
/// past the chunk's boundary looking for one.
pub proof fn lemma_unterminated_name_rejected(b: Seq<u8>, pos: int, end: int)
    requires
        pos < end,
        pos + HEADER_LEN <= b.len(),
        spec_child_fits(b, pos, end),
        forall|j: int| pos + HEADER_LEN <= j < spec_chunk_end(b, pos) ==> b[j] != 0,
    ensures
        spec_chunk_id(b, pos) == MATERIAL_NAME ==> spec_material_items(b, pos, end) == Err::<
            Seq<MaterialView>,
            ParseError,
        >(ParseError::MissingTerminator { offset: (pos + HEADER_LEN) as usize }),
        spec_chunk_id(b, pos) == MATERIAL_TEXTURE_MAP_NAME ==> spec_texture_items(b, pos, end)
            == Err::<Seq<MaterialTextureMapView>, ParseError>(
            ParseError::MissingTerminator { offset: (pos + HEADER_LEN) as usize },
        ),
{
    lemma_find_nul_none(b, pos + HEADER_LEN, spec_chunk_end(b, pos));
}

/// Root mismatch: a buffer whose first chunk id is not the container-root id
/// fails with the unsupported-root error, before any further parsing — the
/// buffer is not this format at all, so nothing is skipped.
pub proof fn lemma_root_mismatch_rejected(b: Seq<u8>, pos: int)
    requires
        pos + HEADER_LEN <= b.len(),
        spec_chunk_id(b, pos) != MAIN3DS,
    ensures
        spec_read_main(b, pos) == Err::<Seq<MainView>, ParseError>(
            ParseError::UnsupportedRoot { offset: pos as usize, id: spec_chunk_id(b, pos) },
        ),
{
}

/// The model is a function of the bytes alone: two parses of the same buffer
/// from the same position end in the same result, so parsing a buffer twice
/// yields structurally equal trees — no hidden state survives a call.
pub proof fn lemma_parse_deterministic(
    b: Seq<u8>,
    pos: int,
    r1: Result<Seq<MainView>, ParseError>,
    r2: Result<Seq<MainView>, ParseError>,
)
    requires
        r1 == spec_read_main(b, pos),
        r2 == spec_read_main(b, pos),
    ensures
        r1 == r2,
{
}

} // verus!
