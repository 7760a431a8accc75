//! Chunk identifiers of the container format.
//!
//! Each chunk header names its kind with one of these 16-bit ids.  Only the
//! ids listed here are recognized; every other id is skipped over when it
//! appears below the root, and rejected when it appears as the root itself.

use vstd::prelude::*;

verus! {

/// The single container-root chunk expected at the start of a buffer.
pub const MAIN3DS: u16 = 0x4D4D;

/// Format version marker directly under the root; acknowledged, not kept.
pub const MAIN_VERSION: u16 = 0x0002;

/// Editor (scene) group under the root; its body is a sequence of chunks.
pub const MAIN_EDITOR: u16 = 0x3D3D;

/// Keyframe or animation data under the root; acknowledged, not kept.
pub const MAIN_KEYFRAMES: u16 = 0xB000;

/// Mesh version marker inside an editor group; acknowledged, not kept.
pub const EDIT_VERSION: u16 = 0x3D3E;

/// Material group inside an editor group; its body is a sequence of chunks.
pub const EDIT_MATERIAL: u16 = 0xAFFF;

/// Material name inside a material group; a null-terminated string payload.
pub const MATERIAL_NAME: u16 = 0xA000;

/// Texture-map group inside a material group.
pub const MATERIAL_TEXTURE_MAP: u16 = 0xA200;

/// Texture-map file name inside a texture-map group; a null-terminated
/// string payload.
pub const MATERIAL_TEXTURE_MAP_NAME: u16 = 0xA300;

} // verus!
