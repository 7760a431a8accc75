use parse3ds::chunks::{
    EDIT_MATERIAL, EDIT_VERSION, MAIN3DS, MAIN_EDITOR, MAIN_KEYFRAMES, MAIN_VERSION,
    MATERIAL_NAME, MATERIAL_TEXTURE_MAP, MATERIAL_TEXTURE_MAP_NAME,
};
use parse3ds::{
    CursorExt, Editor, Main, Material, MaterialTextureMap, ParseError, Parser3DS,
};

/// One chunk: little-endian id, little-endian total length (header included),
/// then the body.
fn chunk(id: u16, body: &[u8]) -> Vec<u8> {
    let total = (body.len() + 6) as u32;
    let mut v = Vec::new();
    v.extend_from_slice(&id.to_le_bytes());
    v.extend_from_slice(&total.to_le_bytes());
    v.extend_from_slice(body);
    v
}

/// A chunk whose length field lies: it claims `claimed` bytes in total.
fn chunk_claiming(id: u16, body: &[u8], claimed: u32) -> Vec<u8> {
    let mut v = Vec::new();
    v.extend_from_slice(&id.to_le_bytes());
    v.extend_from_slice(&claimed.to_le_bytes());
    v.extend_from_slice(body);
    v
}

fn material_body() -> Vec<u8> {
    let name = chunk(MATERIAL_NAME, b"Wood\0");
    let tex_name = chunk(MATERIAL_TEXTURE_MAP_NAME, b"wood.bmp\0");
    let tex = chunk(MATERIAL_TEXTURE_MAP, &tex_name);
    [name, tex].concat()
}

fn expected_tree() -> Vec<Main> {
    vec![Main::Editor(vec![Editor::Material(vec![
        Material::Name("Wood".to_string()),
        Material::TextureMap(vec![MaterialTextureMap::Name("wood.bmp".to_string())]),
    ])])]
}

#[test]
fn round_trip_single_material() {
    let material = chunk(EDIT_MATERIAL, &material_body());
    let editor = chunk(MAIN_EDITOR, &material);
    let root = chunk(MAIN3DS, &editor);
    let mut parser = Parser3DS::new(&root);
    assert_eq!(parser.read_main().unwrap(), expected_tree());
}

#[test]
fn unknown_chunk_skipped_anywhere_among_material_children() {
    let name = chunk(MATERIAL_NAME, b"Wood\0");
    let tex_name = chunk(MATERIAL_TEXTURE_MAP_NAME, b"wood.bmp\0");
    let tex = chunk(MATERIAL_TEXTURE_MAP, &tex_name);
    let unknown = chunk(0x0F0F, b"opaque payload");
    let bodies = [
        [unknown.clone(), name.clone(), tex.clone()].concat(),
        [name.clone(), unknown.clone(), tex.clone()].concat(),
        [name, tex, unknown].concat(),
    ];
    for body in bodies {
        let material = chunk(EDIT_MATERIAL, &body);
        let editor = chunk(MAIN_EDITOR, &material);
        let root = chunk(MAIN3DS, &editor);
        let mut parser = Parser3DS::new(&root);
        assert_eq!(parser.read_main().unwrap(), expected_tree());
    }
}

#[test]
fn version_and_keyframe_chunks_are_not_represented() {
    let material = chunk(EDIT_MATERIAL, &material_body());
    let editor_body = [chunk(EDIT_VERSION, &3u32.to_le_bytes()), material].concat();
    let editor = chunk(MAIN_EDITOR, &editor_body);
    let root_body = [
        chunk(MAIN_VERSION, &3u32.to_le_bytes()),
        editor,
        chunk(MAIN_KEYFRAMES, b"animation data"),
    ]
    .concat();
    let root = chunk(MAIN3DS, &root_body);
    let mut parser = Parser3DS::new(&root);
    assert_eq!(parser.read_main().unwrap(), expected_tree());
}

#[test]
fn unknown_chunk_in_texture_map_skipped() {
    let tex_name = chunk(MATERIAL_TEXTURE_MAP_NAME, b"wood.bmp\0");
    let tex_body = [chunk(0xABCD, b"x"), tex_name].concat();
    let tex = chunk(MATERIAL_TEXTURE_MAP, &tex_body);
    let material = chunk(EDIT_MATERIAL, &tex);
    let editor = chunk(MAIN_EDITOR, &material);
    let root = chunk(MAIN3DS, &editor);
    let mut parser = Parser3DS::new(&root);
    assert_eq!(
        parser.read_main().unwrap(),
        vec![Main::Editor(vec![Editor::Material(vec![Material::TextureMap(vec![
            MaterialTextureMap::Name("wood.bmp".to_string())
        ])])])]
    );
}

#[test]
fn empty_buffer_is_truncated() {
    let mut parser = Parser3DS::new(&[]);
    assert_eq!(parser.read_main(), Err(ParseError::Truncated { offset: 0 }));
}

#[test]
fn buffer_ending_mid_header_is_truncated() {
    let data = [0x4Du8, 0x4D, 0x0A, 0x00];
    let mut parser = Parser3DS::new(&data);
    assert_eq!(parser.read_main(), Err(ParseError::Truncated { offset: 0 }));
}

#[test]
fn stray_bytes_before_root_end_are_truncated() {
    let editor = chunk(MAIN_EDITOR, &[]);
    let root = chunk(MAIN3DS, &[editor, vec![7u8, 7, 7]].concat());
    let mut parser = Parser3DS::new(&root);
    let stray_offset = root.len() - 3;
    assert_eq!(
        parser.read_main(),
        Err(ParseError::Truncated { offset: stray_offset })
    );
}

#[test]
fn root_mismatch_is_fatal() {
    let root = chunk(0x1234, b"not this format");
    let mut parser = Parser3DS::new(&root);
    assert_eq!(
        parser.read_main(),
        Err(ParseError::UnsupportedRoot { offset: 0, id: 0x1234 })
    );
}

#[test]
fn root_length_shorter_than_header_is_corrupt() {
    let root = chunk_claiming(MAIN3DS, &[], 3);
    let mut parser = Parser3DS::new(&root);
    assert_eq!(parser.read_main(), Err(ParseError::Corrupt { offset: 0 }));
}

#[test]
fn root_end_beyond_buffer_is_corrupt() {
    let root = chunk_claiming(MAIN3DS, b"abc", 100);
    let mut parser = Parser3DS::new(&root);
    assert_eq!(parser.read_main(), Err(ParseError::Corrupt { offset: 0 }));
}

#[test]
fn child_end_beyond_parent_is_corrupt() {
    let editor = chunk_claiming(MAIN_EDITOR, b"xy", 50);
    let root = chunk(MAIN3DS, &editor);
    let mut parser = Parser3DS::new(&root);
    assert_eq!(parser.read_main(), Err(ParseError::Corrupt { offset: 6 }));
}

#[test]
fn name_without_terminator_fails() {
    let name = chunk(MATERIAL_NAME, b"Wood");
    let material = chunk(EDIT_MATERIAL, &name);
    let editor = chunk(MAIN_EDITOR, &material);
    let root = chunk(MAIN3DS, &editor);
    let mut parser = Parser3DS::new(&root);
    assert_eq!(
        parser.read_main(),
        Err(ParseError::MissingTerminator { offset: 24 })
    );
}

#[test]
fn name_scan_stops_at_chunk_boundary() {
    // The only null byte lies in the next sibling; the name chunk itself has
    // none before its declared end, so the parse must fail rather than read on.
    let name = chunk(MATERIAL_NAME, b"Wood");
    let sibling = chunk(0x0F0F, b"\0\0\0");
    let material = chunk(EDIT_MATERIAL, &[name, sibling].concat());
    let editor = chunk(MAIN_EDITOR, &material);
    let root = chunk(MAIN3DS, &editor);
    let mut parser = Parser3DS::new(&root);
    assert_eq!(
        parser.read_main(),
        Err(ParseError::MissingTerminator { offset: 24 })
    );
}

#[test]
fn invalid_utf8_name_fails() {
    let name = chunk(MATERIAL_NAME, &[0xFF, 0xFE, 0x00]);
    let material = chunk(EDIT_MATERIAL, &name);
    let editor = chunk(MAIN_EDITOR, &material);
    let root = chunk(MAIN3DS, &editor);
    let mut parser = Parser3DS::new(&root);
    assert_eq!(
        parser.read_main(),
        Err(ParseError::InvalidUtf8 { offset: 24 })
    );
}

#[test]
fn multibyte_utf8_name_is_decoded() {
    // "Käse" in UTF-8; a decoder that handed the raw bytes back unchanged
    // could not produce these characters.
    let name = chunk(MATERIAL_NAME, &[0x4B, 0xC3, 0xA4, 0x73, 0x65, 0x00]);
    let material = chunk(EDIT_MATERIAL, &name);
    let editor = chunk(MAIN_EDITOR, &material);
    let root = chunk(MAIN3DS, &editor);
    let mut parser = Parser3DS::new(&root);
    assert_eq!(
        parser.read_main().unwrap(),
        vec![Main::Editor(vec![Editor::Material(vec![Material::Name(
            "K\u{e4}se".to_string()
        )])])]
    );
}

#[test]
fn empty_name_is_kept() {
    let name = chunk(MATERIAL_NAME, b"\0");
    let material = chunk(EDIT_MATERIAL, &name);
    let editor = chunk(MAIN_EDITOR, &material);
    let root = chunk(MAIN3DS, &editor);
    let mut parser = Parser3DS::new(&root);
    assert_eq!(
        parser.read_main().unwrap(),
        vec![Main::Editor(vec![Editor::Material(vec![Material::Name(String::new())])])]
    );
}

#[test]
fn empty_root_yields_empty_tree() {
    let root = chunk(MAIN3DS, &[]);
    let mut parser = Parser3DS::new(&root);
    assert_eq!(parser.read_main().unwrap(), Vec::<Main>::new());
}

#[test]
fn sibling_order_is_kept() {
    let body = [
        chunk(MATERIAL_NAME, b"First\0"),
        chunk(MATERIAL_NAME, b"Second\0"),
    ]
    .concat();
    let material = chunk(EDIT_MATERIAL, &body);
    let editor = chunk(MAIN_EDITOR, &material);
    let root = chunk(MAIN3DS, &editor);
    let mut parser = Parser3DS::new(&root);
    assert_eq!(
        parser.read_main().unwrap(),
        vec![Main::Editor(vec![Editor::Material(vec![
            Material::Name("First".to_string()),
            Material::Name("Second".to_string()),
        ])])]
    );
}

#[test]
fn parsing_twice_yields_equal_trees() {
    let material = chunk(EDIT_MATERIAL, &material_body());
    let editor = chunk(MAIN_EDITOR, &material);
    let root = chunk(MAIN3DS, &editor);
    let first = Parser3DS::new(&root).read_main();
    let second = Parser3DS::new(&root).read_main();
    assert_eq!(first, second);
    assert_eq!(first.unwrap(), expected_tree());
}

#[test]
fn header_reading_and_seeking() {
    let root = chunk(MAIN3DS, &[1, 2, 3, 4]);
    let mut parser = Parser3DS::new(&root);
    assert_eq!(parser.remaining(), 10);
    let info = parser.read_chunk_info().unwrap();
    assert_eq!(info.get_end(), 10);
    assert_eq!(parser.remaining(), 4);
    parser.seek_to_next_chunk(&info).unwrap();
    assert_eq!(parser.remaining(), 0);
}

#[test]
fn read_chunk_info_on_short_buffer_fails_without_moving() {
    let data = [0x4Du8, 0x4D, 0x0A];
    let mut parser = Parser3DS::new(&data);
    assert_eq!(
        parser.read_chunk_info(),
        Err(ParseError::Truncated { offset: 0 })
    );
    assert_eq!(parser.remaining(), 3);
}

#[test]
fn seek_beyond_buffer_fails_without_moving() {
    let data = chunk_claiming(MAIN3DS, b"abc", 100);
    let mut parser = Parser3DS::new(&data);
    let info = parser.read_chunk_info().unwrap();
    assert_eq!(info.get_end(), 100);
    assert_eq!(
        parser.seek_to_next_chunk(&info),
        Err(ParseError::Corrupt { offset: 0 })
    );
    assert_eq!(parser.remaining(), 3);
}

#[test]
fn error_offset_accessor() {
    assert_eq!(ParseError::Truncated { offset: 5 }.offset(), 5);
    assert_eq!(ParseError::Corrupt { offset: 6 }.offset(), 6);
    assert_eq!(ParseError::MissingTerminator { offset: 7 }.offset(), 7);
    assert_eq!(ParseError::InvalidUtf8 { offset: 8 }.offset(), 8);
    assert_eq!(ParseError::UnsupportedRoot { offset: 0, id: 9 }.offset(), 0);
}

#[test]
fn nested_error_propagates_unchanged() {
    // The failing name sits two groups deep; the parse reports exactly that
    // error, not a wrapper around it.
    let tex_name = chunk(MATERIAL_TEXTURE_MAP_NAME, b"no terminator");
    let tex = chunk(MATERIAL_TEXTURE_MAP, &tex_name);
    let material = chunk(EDIT_MATERIAL, &tex);
    let editor = chunk(MAIN_EDITOR, &material);
    let root = chunk(MAIN3DS, &editor);
    let mut parser = Parser3DS::new(&root);
    assert_eq!(
        parser.read_main(),
        Err(ParseError::MissingTerminator { offset: 30 })
    );
}
