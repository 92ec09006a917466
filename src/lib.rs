//! Chunk streaming, navigation-grid synchronisation and sprite animation state
//! for an open-world 2D game whose world is generated in fixed-size chunks.
pub mod animation;
pub mod chunk_set;
pub mod chunks;
pub mod geometry;
pub mod navigation;
pub mod tiles;
pub mod timer;
