//! The executable reader.
//!
//! [`Parser3DS`] borrows one read-only byte buffer and threads one cursor
//! (the current read position) through every call.  Each traversal routine is
//! proved to return exactly what the model in [`crate::model`] says the bytes
//! denote, and to leave the cursor where the model's walk ends.

use crate::chunks::{
    EDIT_MATERIAL, MAIN3DS, MAIN_EDITOR, MATERIAL_NAME, MATERIAL_TEXTURE_MAP,
    MATERIAL_TEXTURE_MAP_NAME,
};
use crate::error::ParseError;
use crate::model::{
    lemma_find_nul_none, lemma_find_nul_some, spec_chunk_end, spec_chunk_id, spec_chunk_len,
    spec_editor_items, spec_find_nul, spec_main_items, spec_material_items, spec_name_at,
    spec_read_main, spec_texture_items, utf8_decode, HEADER_LEN,
};
use crate::tree::{
    Editor, EditorView, Main, MainView, Material, MaterialTextureMap, MaterialTextureMapView,
    MaterialView,
};
use vstd::bytes::{u16_from_le_bytes, u32_from_le_bytes};
use vstd::prelude::*;
use vstd::slice::{slice_index_get, slice_subrange, slice_to_vec, spec_slice_len};

verus! {

/// Relies on `String::from_utf8`: it succeeds exactly when the bytes are
/// valid UTF-8, and the returned string holds their decoding, a function of
/// the bytes alone.
#[verifier::external_body]
fn bytes_to_string(bytes: Vec<u8>) -> (r: Option<String>)
    ensures
        r is Some <==> utf8_decode(bytes@) is Some,
        r is Some ==> r->Some_0@ == utf8_decode(bytes@)->Some_0,
{
    match String::from_utf8(bytes) {
        Ok(s) => Some(s),
        Err(_) => None,
    }
}

/// One decoded chunk header: the chunk's id, the byte position where the
/// header begins, and the chunk's total length, header included.
#[derive(Clone, Copy, Debug, PartialEq, Eq, Structural)]
pub struct ChunkInfo {
    id: u16,
    offset: u64,
    next_chunk_offset: u32,
}

impl ChunkInfo {
    /// The chunk id.
    pub closed spec fn spec_id(&self) -> u16 {
        self.id
    }

    /// The byte position where the header begins.
    pub closed spec fn spec_offset(&self) -> u64 {
        self.offset
    }

    /// The declared total length of the chunk, header included.
    pub closed spec fn spec_len(&self) -> u32 {
        self.next_chunk_offset
    }

    /// The absolute byte offset one past the chunk.
    pub open spec fn spec_end(&self) -> int {
        self.spec_offset() + self.spec_len()
    }

    /// The absolute byte offset where the chunk ends: the length field
    /// counts from the start of the header itself.
    pub fn get_end(&self) -> (r: u64)
        requires
            self.spec_end() <= u64::MAX,
        ensures
            r == self.spec_end(),
    {
        self.offset + self.next_chunk_offset as u64
    }
}

/// Read-cursor queries shared by buffer readers.
pub trait CursorExt {
    /// The number of bytes between the cursor and the end of the buffer.
    spec fn spec_remaining(&self) -> int;

    /// The number of bytes left to read.
    fn remaining(&self) -> (r: usize)
        requires
            0 <= self.spec_remaining() <= usize::MAX,
        ensures
            r == self.spec_remaining(),
    ;
}

/// A reader over one borrowed byte buffer with one mutable cursor.
pub struct Parser3DS<'a> {
    data: &'a [u8],
    pos: usize,
}

impl<'a> CursorExt for Parser3DS<'a> {
    open spec fn spec_remaining(&self) -> int {
        self.spec_bytes().len() - self.spec_pos()
    }

    fn remaining(&self) -> (r: usize) {
        self.data.len() - self.pos
    }
}

impl<'a> Parser3DS<'a> {
    /// The buffer being read.
    pub closed spec fn spec_bytes(&self) -> Seq<u8> {
        self.data@
    }

    /// The cursor: the position the next read starts at.
    pub closed spec fn spec_pos(&self) -> int {
        self.pos as int
    }

    /// The cursor never lies outside the buffer, and the buffer is
    /// addressable: its length fits the machine's word.
    pub open spec fn wf(&self) -> bool {
        0 <= self.spec_pos() <= self.spec_bytes().len() <= usize::MAX
    }

    /// A reader over `data`, with the cursor at the start.
    pub fn new(data: &'a [u8]) -> (p: Parser3DS<'a>)
        ensures
            p.spec_bytes() == data@,
            p.spec_pos() == 0,
            p.wf(),
    {
        proof {
            assert(spec_slice_len(data) == data@.len());
        }
        Parser3DS { data, pos: 0 }
    }

    /// The position the next read starts at.  Together with
    /// [`CursorExt::remaining`] it lets a caller locate the buffer's end and
    /// so check a chunk's extent before walking it.
    pub fn position(&self) -> (r: usize)
        ensures
            r == self.spec_pos(),
    {
        self.pos
    }

    /// Decodes the 6-byte chunk header at the cursor and advances the cursor
    /// past it.  Fails without moving the cursor when fewer than 6 bytes
    /// remain.
    pub fn read_chunk_info(&mut self) -> (r: Result<ChunkInfo, ParseError>)
        requires
            old(self).wf(),
        ensures
            final(self).wf(),
            final(self).spec_bytes() == old(self).spec_bytes(),
            match r {
                Ok(info) => {
                    &&& old(self).spec_pos() + HEADER_LEN <= old(self).spec_bytes().len()
                    &&& final(self).spec_pos() == old(self).spec_pos() + HEADER_LEN
                    &&& info.spec_id() == spec_chunk_id(old(self).spec_bytes(), old(self).spec_pos())
                    &&& info.spec_offset() == old(self).spec_pos()
                    &&& info.spec_len() == spec_chunk_len(old(self).spec_bytes(), old(self).spec_pos())
                },
                Err(e) => {
                    &&& old(self).spec_pos() + HEADER_LEN > old(self).spec_bytes().len()
                    &&& final(self).spec_pos() == old(self).spec_pos()
                    &&& e == (ParseError::Truncated { offset: old(self).spec_pos() as usize })
                },
            },
    {
        if self.data.len() - self.pos < HEADER_LEN {
            return Err(ParseError::Truncated { offset: self.pos });
        }
        let id = u16_from_le_bytes(slice_subrange(self.data, self.pos, self.pos + 2));
        let next_chunk_offset = u32_from_le_bytes(
            slice_subrange(self.data, self.pos + 2, self.pos + 6),
        );
        let offset = self.pos as u64;
        self.pos = self.pos + HEADER_LEN;
        Ok(ChunkInfo { id, offset, next_chunk_offset })
    }

    /// Repositions the cursor to `info`'s declared end, regardless of how far
    /// traversal of the chunk's body progressed.  Fails without moving the
    /// cursor when that end lies outside the buffer.
    pub fn seek_to_next_chunk(&mut self, info: &ChunkInfo) -> (r: Result<(), ParseError>)
        requires
            old(self).wf(),
        ensures
            final(self).wf(),
            final(self).spec_bytes() == old(self).spec_bytes(),
            if info.spec_end() <= old(self).spec_bytes().len() {
                r is Ok && final(self).spec_pos() == info.spec_end()
            } else {
                r == Err::<(), ParseError>(
                    ParseError::Corrupt { offset: info.spec_offset() as usize },
                ) && final(self).spec_pos() == old(self).spec_pos()
            },
    {
        let len = self.data.len() as u64;
        if info.offset <= len && info.next_chunk_offset as u64 <= len - info.offset {
            self.pos = (info.offset + info.next_chunk_offset as u64) as usize;
            Ok(())
        } else {
            Err(ParseError::Corrupt { offset: info.offset as usize })
        }
    }

    /// The index of the first zero byte in `[from, end)` of the buffer.
    fn find_nul(&self, from: usize, end: usize) -> (r: Option<usize>)
        requires
            from <= end <= self.spec_bytes().len(),
        ensures
            match r {
                Some(i) => {
                    &&& from <= i < end
                    &&& self.spec_bytes()[i as int] == 0
                    &&& forall|j: int| from <= j < i ==> self.spec_bytes()[j] != 0
                },
                None => forall|j: int| from <= j < end ==> self.spec_bytes()[j] != 0,
            },
    {
        let mut i: usize = from;
        while i < end
            invariant
                from <= i <= end <= self.spec_bytes().len(),
                forall|j: int| from <= j < i ==> self.spec_bytes()[j] != 0,
            decreases end - i,
        {
            if *slice_index_get(self.data, i) == 0 {
                return Some(i);
            }
            i = i + 1;
        }
        None
    }

    /// Reads the null-terminated string payload lying between the cursor and
    /// `end`, leaving the cursor just past the terminator.  Fails, with the
    /// cursor unmoved, when no terminator exists before `end` or when the
    /// bytes before it are not valid UTF-8.
    fn read_name(&mut self, end: usize) -> (r: Result<String, ParseError>)
        requires
            old(self).wf(),
            old(self).spec_pos() <= end <= old(self).spec_bytes().len(),
        ensures
            final(self).wf(),
            final(self).spec_bytes() == old(self).spec_bytes(),
            match r {
                Ok(name) => {
                    &&& spec_name_at(old(self).spec_bytes(), old(self).spec_pos(), end as int)
                        == Ok::<Seq<char>, ParseError>(name@)
                    &&& spec_find_nul(old(self).spec_bytes(), old(self).spec_pos(), end as int)
                        is Some
                    &&& final(self).spec_pos() == spec_find_nul(
                        old(self).spec_bytes(),
                        old(self).spec_pos(),
                        end as int,
                    )->Some_0 + 1
                },
                Err(e) => {
                    &&& spec_name_at(old(self).spec_bytes(), old(self).spec_pos(), end as int)
                        == Err::<Seq<char>, ParseError>(e)
                    &&& final(self).spec_pos() == old(self).spec_pos()
                },
            },
    {
        let start = self.pos;
        match self.find_nul(start, end) {
            None => {
                proof {
                    lemma_find_nul_none(self.spec_bytes(), start as int, end as int);
                }
                Err(ParseError::MissingTerminator { offset: start })
            },
            Some(i) => {
                proof {
                    lemma_find_nul_some(self.spec_bytes(), start as int, end as int, i as int);
                }
                let bytes = slice_to_vec(slice_subrange(self.data, start, i));
                match bytes_to_string(bytes) {
                    Some(name) => {
                        self.pos = i + 1;
                        Ok(name)
                    },
                    None => Err(ParseError::InvalidUtf8 { offset: start }),
                }
            },
        }
    }

    /// Walks the children of a texture-map group from the cursor to `info`'s
    /// declared end, collecting each texture file name in file order and
    /// skipping every chunk it does not recognize.
    #[verifier::loop_isolation(false)]
    pub fn read_material_texture_map(&mut self, info: &ChunkInfo) -> (r: Result<
        Vec<MaterialTextureMap>,
        ParseError,
    >)
        requires
            old(self).wf(),
            info.spec_end() <= old(self).spec_bytes().len(),
        ensures
            final(self).wf(),
            final(self).spec_bytes() == old(self).spec_bytes(),
            match r {
                Ok(items) => {
                    &&& spec_texture_items(
                        old(self).spec_bytes(),
                        old(self).spec_pos(),
                        info.spec_end(),
                    ) == Ok::<Seq<MaterialTextureMapView>, ParseError>(items.deep_view())
                    &&& final(self).spec_pos() == if old(self).spec_pos() < info.spec_end() {
                        info.spec_end()
                    } else {
                        old(self).spec_pos()
                    }
                },
                Err(e) => spec_texture_items(
                    old(self).spec_bytes(),
                    old(self).spec_pos(),
                    info.spec_end(),
                ) == Err::<Seq<MaterialTextureMapView>, ParseError>(e),
            },
    {
        let ghost b: Seq<u8> = self.spec_bytes();
        let ghost start: int = self.spec_pos();
        let ghost gend: int = info.spec_end();
        let end: u64 = info.get_end();
        let mut items: Vec<MaterialTextureMap> = Vec::new();
        while (self.pos as u64) < end
            invariant
                self.wf(),
                self.spec_bytes() == b,
                end == gend,
                gend <= b.len(),
                start <= self.spec_pos(),
                self.spec_pos() <= gend || self.spec_pos() == start,
                spec_texture_items(b, start, gend) == (match spec_texture_items(
                    b,
                    self.spec_pos(),
                    gend,
                ) {
                    Ok(rest) => Ok::<Seq<MaterialTextureMapView>, ParseError>(
                        items.deep_view() + rest,
                    ),
                    Err(e) => Err::<Seq<MaterialTextureMapView>, ParseError>(e),
                }),
            decreases gend - self.spec_pos(),
        {
            let ghost p: int = self.spec_pos();
            let ghost items_before: Seq<MaterialTextureMapView> = items.deep_view();
            let chunk_start = self.pos;
            let child = match self.read_chunk_info() {
                Ok(c) => c,
                Err(e) => {
                    return Err(e);
                },
            };
            if child.next_chunk_offset < 6 || child.next_chunk_offset as u64 > end - child.offset {
                return Err(ParseError::Corrupt { offset: chunk_start });
            }
            let ghost cend: int = spec_chunk_end(b, p);
            let ghost mut step_items: Seq<MaterialTextureMapView> = Seq::empty();
            if child.id == MATERIAL_TEXTURE_MAP_NAME {
                let name_end = (child.offset + child.next_chunk_offset as u64) as usize;
                match self.read_name(name_end) {
                    Ok(name) => {
                        proof {
                            step_items = seq![MaterialTextureMapView::Name(name@)];
                        }
                        items.push(MaterialTextureMap::Name(name));
                    },
                    Err(e) => {
                        return Err(e);
                    },
                }
            }
            let _ = self.seek_to_next_chunk(&child);
            proof {
                assert(items.deep_view() =~= items_before + step_items);
                let snext = spec_texture_items(b, cend, gend);
                if snext is Ok {
                    let rest = snext->Ok_0;
                    assert((items_before + step_items) + rest =~= items_before + (step_items
                        + rest));
                }
            }
        }
        proof {
            assert(items.deep_view() + Seq::<MaterialTextureMapView>::empty() =~= items.deep_view());
        }
        Ok(items)
    }

    /// Walks the children of a material group from the cursor to `info`'s
    /// declared end, collecting names and texture-map groups in file order
    /// and skipping every chunk it does not recognize.
    #[verifier::loop_isolation(false)]
    pub fn read_material(&mut self, info: &ChunkInfo) -> (r: Result<Vec<Material>, ParseError>)
        requires
            old(self).wf(),
            info.spec_end() <= old(self).spec_bytes().len(),
        ensures
            final(self).wf(),
            final(self).spec_bytes() == old(self).spec_bytes(),
            match r {
                Ok(items) => {
                    &&& spec_material_items(
                        old(self).spec_bytes(),
                        old(self).spec_pos(),
                        info.spec_end(),
                    ) == Ok::<Seq<MaterialView>, ParseError>(items.deep_view())
                    &&& final(self).spec_pos() == if old(self).spec_pos() < info.spec_end() {
                        info.spec_end()
                    } else {
                        old(self).spec_pos()
                    }
                },
                Err(e) => spec_material_items(
                    old(self).spec_bytes(),
                    old(self).spec_pos(),
                    info.spec_end(),
                ) == Err::<Seq<MaterialView>, ParseError>(e),
            },
    {
        let ghost b: Seq<u8> = self.spec_bytes();
        let ghost start: int = self.spec_pos();
        let ghost gend: int = info.spec_end();
        let end: u64 = info.get_end();
        let mut items: Vec<Material> = Vec::new();
        while (self.pos as u64) < end
            invariant
                self.wf(),
                self.spec_bytes() == b,
                start <= self.spec_pos(),
                self.spec_pos() <= gend || self.spec_pos() == start,
                spec_material_items(b, start, gend) == (match spec_material_items(
                    b,
                    self.spec_pos(),
                    gend,
                ) {
                    Ok(rest) => Ok::<Seq<MaterialView>, ParseError>(items.deep_view() + rest),
                    Err(e) => Err::<Seq<MaterialView>, ParseError>(e),
                }),
            decreases gend - self.spec_pos(),
        {
            let ghost p: int = self.spec_pos();
            let ghost items_before: Seq<MaterialView> = items.deep_view();
            let chunk_start = self.pos;
            let child = match self.read_chunk_info() {
                Ok(c) => c,
                Err(e) => {
                    return Err(e);
                },
            };
            if child.next_chunk_offset < 6 || child.next_chunk_offset as u64 > end - child.offset {
                return Err(ParseError::Corrupt { offset: chunk_start });
            }
            let ghost cend: int = spec_chunk_end(b, p);
            let ghost mut step_items: Seq<MaterialView> = Seq::empty();
            if child.id == MATERIAL_NAME {
                let name_end = (child.offset + child.next_chunk_offset as u64) as usize;
                match self.read_name(name_end) {
                    Ok(name) => {
                        proof {
                            step_items = seq![MaterialView::Name(name@)];
                        }
                        items.push(Material::Name(name));
                    },
                    Err(e) => {
                        return Err(e);
                    },
                }
            } else if child.id == MATERIAL_TEXTURE_MAP {
                match self.read_material_texture_map(&child) {
                    Ok(entries) => {
                        proof {
                            step_items = seq![MaterialView::TextureMap(entries.deep_view())];
                        }
                        items.push(Material::TextureMap(entries));
                    },
                    Err(e) => {
                        return Err(e);
                    },
                }
            }
            let _ = self.seek_to_next_chunk(&child);
            proof {
                assert(items.deep_view() =~= items_before + step_items);
                let snext = spec_material_items(b, cend, gend);
                if snext is Ok {
                    let rest = snext->Ok_0;
                    assert((items_before + step_items) + rest =~= items_before + (step_items
                        + rest));
                }
            }
        }
        proof {
            assert(items.deep_view() + Seq::<MaterialView>::empty() =~= items.deep_view());
        }
        Ok(items)
    }

    /// Walks the children of an editor group from the cursor to `info`'s
    /// declared end, collecting material groups in file order and skipping
    /// every chunk it does not recognize, mesh version markers included.
    #[verifier::loop_isolation(false)]
    pub fn read_editor(&mut self, info: &ChunkInfo) -> (r: Result<Vec<Editor>, ParseError>)
        requires
            old(self).wf(),
            info.spec_end() <= old(self).spec_bytes().len(),
        ensures
            final(self).wf(),
            final(self).spec_bytes() == old(self).spec_bytes(),
            match r {
                Ok(items) => {
                    &&& spec_editor_items(
                        old(self).spec_bytes(),
                        old(self).spec_pos(),
                        info.spec_end(),
                    ) == Ok::<Seq<EditorView>, ParseError>(items.deep_view())
                    &&& final(self).spec_pos() == if old(self).spec_pos() < info.spec_end() {
                        info.spec_end()
                    } else {
                        old(self).spec_pos()
                    }
                },
                Err(e) => spec_editor_items(
                    old(self).spec_bytes(),
                    old(self).spec_pos(),
                    info.spec_end(),
                ) == Err::<Seq<EditorView>, ParseError>(e),
            },
    {
        let ghost b: Seq<u8> = self.spec_bytes();
        let ghost start: int = self.spec_pos();
        let ghost gend: int = info.spec_end();
        let end: u64 = info.get_end();
        let mut items: Vec<Editor> = Vec::new();
        while (self.pos as u64) < end
            invariant
                self.wf(),
                self.spec_bytes() == b,
                start <= self.spec_pos(),
                self.spec_pos() <= gend || self.spec_pos() == start,
                spec_editor_items(b, start, gend) == (match spec_editor_items(
                    b,
                    self.spec_pos(),
                    gend,
                ) {
                    Ok(rest) => Ok::<Seq<EditorView>, ParseError>(items.deep_view() + rest),
                    Err(e) => Err::<Seq<EditorView>, ParseError>(e),
                }),
            decreases gend - self.spec_pos(),
        {
            let ghost p: int = self.spec_pos();
            let ghost items_before: Seq<EditorView> = items.deep_view();
            let chunk_start = self.pos;
            let child = match self.read_chunk_info() {
                Ok(c) => c,
                Err(e) => {
                    return Err(e);
                },
            };
            if child.next_chunk_offset < 6 || child.next_chunk_offset as u64 > end - child.offset {
                return Err(ParseError::Corrupt { offset: chunk_start });
            }
            let ghost cend: int = spec_chunk_end(b, p);
            let ghost mut step_items: Seq<EditorView> = Seq::empty();
            if child.id == EDIT_MATERIAL {
                match self.read_material(&child) {
                    Ok(materials) => {
                        proof {
                            step_items = seq![EditorView::Material(materials.deep_view())];
                        }
                        items.push(Editor::Material(materials));
                    },
                    Err(e) => {
                        return Err(e);
                    },
                }
            }
            let _ = self.seek_to_next_chunk(&child);
            proof {
                assert(items.deep_view() =~= items_before + step_items);
                let snext = spec_editor_items(b, cend, gend);
                if snext is Ok {
                    let rest = snext->Ok_0;
                    assert((items_before + step_items) + rest =~= items_before + (step_items
                        + rest));
                }
            }
        }
        proof {
            assert(items.deep_view() + Seq::<EditorView>::empty() =~= items.deep_view());
        }
        Ok(items)
    }

    /// Reads the single outermost chunk and walks its children, collecting
    /// editor groups in file order and skipping version markers, keyframe
    /// data and every other chunk id.  The outermost chunk must carry the
    /// container-root id and must lie within the buffer; anything else is a
    /// fatal error, never a skip.
    #[verifier::loop_isolation(false)]
    pub fn read_main(&mut self) -> (r: Result<Vec<Main>, ParseError>)
        requires
            old(self).wf(),
        ensures
            final(self).wf(),
            final(self).spec_bytes() == old(self).spec_bytes(),
            match r {
                Ok(items) => {
                    &&& spec_read_main(old(self).spec_bytes(), old(self).spec_pos())
                        == Ok::<Seq<MainView>, ParseError>(items.deep_view())
                    &&& final(self).spec_pos() == spec_chunk_end(
                        old(self).spec_bytes(),
                        old(self).spec_pos(),
                    )
                },
                Err(e) => spec_read_main(old(self).spec_bytes(), old(self).spec_pos())
                    == Err::<Seq<MainView>, ParseError>(e),
            },
    {
        let ghost b: Seq<u8> = self.spec_bytes();
        let ghost start: int = self.spec_pos();
        let chunk_start = self.pos;
        let root = match self.read_chunk_info() {
            Ok(c) => c,
            Err(e) => {
                return Err(e);
            },
        };
        if root.id != MAIN3DS {
            return Err(ParseError::UnsupportedRoot { offset: chunk_start, id: root.id });
        }
        let buf_len = self.data.len();
        if root.next_chunk_offset < 6 || root.next_chunk_offset as u64 > buf_len as u64
            - root.offset {
            return Err(ParseError::Corrupt { offset: chunk_start });
        }
        let ghost gend: int = root.spec_end();
        let ghost loop_start: int = self.spec_pos();
        let end: u64 = root.get_end();
        let mut items: Vec<Main> = Vec::new();
        while (self.pos as u64) < end
            invariant
                self.wf(),
                self.spec_bytes() == b,
                loop_start <= self.spec_pos() <= gend,
                spec_main_items(b, loop_start, gend) == (match spec_main_items(
                    b,
                    self.spec_pos(),
                    gend,
                ) {
                    Ok(rest) => Ok::<Seq<MainView>, ParseError>(items.deep_view() + rest),
                    Err(e) => Err::<Seq<MainView>, ParseError>(e),
                }),
            decreases gend - self.spec_pos(),
        {
            let ghost p: int = self.spec_pos();
            let ghost items_before: Seq<MainView> = items.deep_view();
            let child_start = self.pos;
            let child = match self.read_chunk_info() {
                Ok(c) => c,
                Err(e) => {
                    return Err(e);
                },
            };
            if child.next_chunk_offset < 6 || child.next_chunk_offset as u64 > end - child.offset {
                return Err(ParseError::Corrupt { offset: child_start });
            }
            let ghost cend: int = spec_chunk_end(b, p);
            let ghost mut step_items: Seq<MainView> = Seq::empty();
            if child.id == MAIN_EDITOR {
                match self.read_editor(&child) {
                    Ok(editors) => {
                        proof {
                            step_items = seq![MainView::Editor(editors.deep_view())];
                        }
                        items.push(Main::Editor(editors));
                    },
                    Err(e) => {
                        return Err(e);
                    },
                }
            }
            let _ = self.seek_to_next_chunk(&child);
            proof {
                assert(items.deep_view() =~= items_before + step_items);
                let snext = spec_main_items(b, cend, gend);
                if snext is Ok {
                    let rest = snext->Ok_0;
                    assert((items_before + step_items) + rest =~= items_before + (step_items
                        + rest));
                }
            }
        }
        proof {
            assert(items.deep_view() + Seq::<MainView>::empty() =~= items.deep_view());
        }
        Ok(items)
    }
}

} // verus!
