//! A codec for the SSBH family of binary container formats: each file is a
//! shared header plus a tree of typed records connected by file-relative or
//! field-relative byte offsets.
//!
//! Decoding reads a fully buffered byte stream into an owned record graph;
//! encoding reproduces a flat byte layout from that graph by threading a
//! shared, monotonically advancing data cursor through the whole write, so
//! that every pointee payload is placed after the fixed-size fields that
//! could still reference it, aligned for its type.
//!
//! The offset/pointer engine lives in `ptr`, the write-time layout
//! arithmetic in `layout` and `writer`, the container primitives in
//! `arrays` and `strings`, the per-format record layouts under `formats`,
//! and the derived mesh-buffer and skeleton logic in `mesh_data` and
//! `skel_data`.

pub mod arrays;
pub mod bytes;
pub mod engine;
pub mod error;
pub mod formats;
pub mod layout;
pub mod mesh_data;
pub mod ptr;
pub mod skel_data;
pub mod ssbh;
pub mod strings;
pub mod vectors;
pub mod writer;
