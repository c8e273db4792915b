//! The frame that carries one encoded value over either transport: the
//! encoding, then one line feed.

use vstd::prelude::*;

verus! {

/// The size of the buffer that a datagram is received into.
pub const BUFFER_SIZE: usize = 2048;

/// The byte that ends a frame.
pub const TERMINATOR: u8 = 10;

/// Makes a frame of an encoded value.
pub fn frame(encoded: Vec<u8>) -> (bytes: Vec<u8>)
    ensures
        bytes@ == encoded@.push(TERMINATOR),
{
    let mut bytes = encoded;
    bytes.push(TERMINATOR);
    bytes
}

} // verus!
