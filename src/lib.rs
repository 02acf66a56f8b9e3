//! Safe handles over a 2D graphics engine's native objects: enum and flag
//! translation, reference-counted and value handles, vertex meshes with their
//! builder and binary encoding, and paragraph styles.
pub mod codec;
pub mod enums;
pub mod geometry;
pub mod handle;
pub mod paragraph;
pub mod refcnt;
pub mod vertices;
