//! Decoder for the binary save-game images of a family of handheld
//! role-playing games.
//!
//! The image is a fixed positional layout (trainer block, party block, item
//! block, storage-box block) described by a per-version [`schema::Schema`].
//! Each creature record is stored as an encrypted blob: a linear-congruential
//! stream cipher seeded by the record's checksum field, with the four 16-word
//! quarters of the decrypted body shuffled by a permutation selected by bits
//! of the record's identity value. The [`cipher`] module reproduces that
//! encoding exactly; [`decode`] drives a [`reader::Reader`] through a schema
//! and assembles the in-memory [`model`].

use vstd::prelude::*;

pub mod cipher;
pub mod decode;
pub mod model;
pub mod reader;
pub mod schema;
pub mod text;
pub mod time;

verus! {

/// Why a decode gave up.
///
/// Every failure is terminal for the current decode call: there is no retry
/// and no partial result.
#[derive(Clone, Copy, Debug, PartialEq, Eq, Structural)]
pub enum DecodeError {
    /// The image file could not be opened at all.
    FileNotFound,
    /// A seek or read went beyond the image bounds, or the underlying
    /// byte source failed.
    Io,
    /// A scalar field decoded to a value outside its expected closed set,
    /// such as an undefined gender code.
    InvalidField,
}

} // verus!
