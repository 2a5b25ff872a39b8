//! Decoder for packed, pointer-relative FPGA chip databases.
//!
//! A chip database arrives as one immutable byte buffer in which every
//! variable-length field is reached through a signed offset relative to
//! the position just past the field's own header.  This crate decodes
//! such a buffer into fully owned records, projects the result onto a
//! reduced schema, and carries that reduced schema over a compact
//! transport encoding wrapped in a deflate stream, with an exact
//! inverse.
//!
//! Two concrete schemas share the reader discipline: a tile-template
//! one (`ecp5`), in which many grid tiles reference one deduplicated
//! location type, and a flat one (`ice40`), in which every element
//! carries absolute coordinates.

use vstd::prelude::*;

verus! {

/// A failure while decoding a packed chip database buffer.
#[derive(Clone, Copy, Debug, PartialEq, Eq, Structural)]
pub enum DecodeError {
    /// A read or a seek went past the end of the buffer.
    Truncated,
    /// An integer-coded kind field held a value outside its closed
    /// enumeration; carries the offending value.
    UnknownTag(u32),
}

/// A failure while decoding a minimized transport blob.
#[derive(Clone, Copy, Debug, PartialEq, Eq, Structural)]
pub enum CodecError {
    /// The compressed stream could not be inflated.
    DecompressionError,
    /// The inflated bytes were not a well-formed minimized encoding.
    DecodeError,
}

} // verus!

mod architecture;
pub mod codec;
mod compress;
mod constids;
mod cursor;
pub mod ecp5;
pub mod ice40;
mod reltypes;
mod strings;
pub mod varint;

pub use architecture::{ECP5Arch, ICE40Arch};
pub use compress::{deflate_of, inflate_of};
pub use constids::{ConstId, GfxTileWireId};
pub use cursor::{in_range, spec_u16_be_at, spec_u16_le_at, spec_u32_le_at, Cursor};
pub use reltypes::{
    lemma_relslice_length_matches_header, lemma_relslice_zero_length, lemma_relstring_sentinel,
    read_reli32arr, read_relptr, read_relslice, read_relstring, read_relstringarr, read_relu32arr,
    spec_relptr, spec_relslice, spec_relstring, views_of, POD,
};
