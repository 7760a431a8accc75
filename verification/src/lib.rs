//! A verified reader for the chunk-based "3DS" binary scene container.
//!
//! The format is a self-describing tree of length-prefixed chunks: each chunk
//! starts with a 6-byte header (a little-endian 16-bit chunk id followed by a
//! little-endian 32-bit total length that covers the header itself), and its
//! body is either a raw payload or a sequence of nested chunks.  The reader
//! walks that tree by recursive descent, collects the chunk kinds it
//! recognizes (editor groups, materials, material names, texture-map
//! references), and silently skips over any nested chunk it does not
//! recognize.  The single outermost chunk must be the container root; any
//! other id there is a fatal error rather than a skip.
//!
//! The behaviour of the executable reader is pinned down by a mathematical
//! model: the spec functions in [`model`] define, over the byte sequence
//! alone, exactly which tree (or which error) a buffer denotes, and every
//! public parsing function is proved to return precisely the model's answer.
//!
//! Two structural checks are deliberate hardening: a chunk's declared length
//! must cover at least its own 6-byte header, and a chunk's declared end must
//! lie inside its container.  Without them a crafted length field could drag
//! the cursor backward (so the walk would not terminate) or past the parent's
//! end; both cases are rejected as corruption, and [`laws`] proves that a
//! successful parse visited only chunks that fit.

pub mod chunks;
pub mod error;
pub mod laws;
pub mod model;
pub mod parser;
pub mod tree;

pub use error::ParseError;
pub use parser::ChunkInfo;
pub use parser::CursorExt;
pub use parser::Parser3DS;
pub use tree::Editor;
pub use tree::EditorView;
pub use tree::Main;
pub use tree::MainView;
pub use tree::Material;
pub use tree::MaterialTextureMap;
pub use tree::MaterialTextureMapView;
pub use tree::MaterialView;
