//! Decoder for the binary resource files of a 1990s isometric RPG engine:
//! map files, object-template ("prototype") files, and palette files.
//!
//! Everything is decoded from an in-memory byte buffer held by a
//! [`source::Source`] cursor. All integers are big-endian. Decoding is
//! all-or-nothing: the first failure aborts the whole parse and no partial
//! model is returned.

pub mod errors;
pub mod geometry;
pub mod identifier;
pub mod map;
pub mod pal;
pub mod pro;
pub mod source;
