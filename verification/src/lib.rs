//! A thin, verified convenience layer over a native GPU graphics API.
//!
//! The library wraps buffers, textures, texture views and bind groups,
//! and keeps a cache so that bind-group layouts with identical entry
//! structure are compiled once and reused. Every fact the library's own
//! logic depends on — usage flags, formats, sizes, slot sequences — is
//! modelled in plain values and verified; the graphics API's handles are
//! carried opaquely, and every call on one stands behind a small trusted
//! wrapper whose contract states what the API documents.

pub mod bindgroup;
pub mod buffer;
pub mod format;
pub mod gpu;
pub mod raw;
pub mod resource;
pub mod strfmt;
pub mod texture;
