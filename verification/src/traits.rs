//! The two traits through which a type is read from and written to VGM bytes.

use crate::errors::VgmResult;
use bytes::{Bytes, BytesMut};
use vstd::prelude::*;

verus! {

/// A type that can be read from the front of a byte buffer.
pub trait VgmParser {
    /// Reads a value, consuming the bytes it was read from.
    fn from_bytes(data: &mut Bytes) -> VgmResult<Self> where Self: Sized;
}

/// A type that can be appended to a byte buffer.
pub trait VgmWriter {
    /// Appends the value's bytes to `buffer`.
    fn to_bytes(&self, buffer: &mut BytesMut) -> VgmResult<()>;
}

} // verus!
