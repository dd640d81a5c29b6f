//! Bounds on what is handed to the codec, and the frame of what comes back.
//!
//! The codec adds the lengths of values up in 32 bits when it builds a group
//! length. The library hands it no identifier that is longer than
//! [`IDENTIFIER_LIMIT`], and no command set of more than
//! [`COMMAND_SET_LIMIT`] elements, so that these sums stay in range.

use vstd::prelude::*;
use vstd::utf8::encode_utf8;

verus! {

/// The largest number of bytes of an identifier that is handed to the codec.
pub const IDENTIFIER_LIMIT: usize = 0x0800_0000;

/// The largest number of elements handed to the codec as one command set.
pub const COMMAND_SET_LIMIT: usize = 16;

/// The number of bytes that a text takes when encoded as UTF-8.
pub open spec fn byte_len(text: Seq<char>) -> nat {
    encode_utf8(text).len()
}

/// Counts the bytes that a text takes when encoded as UTF-8.
pub fn text_byte_len(text: &str) -> (n: usize)
    ensures
        n == byte_len(text@),
{
    text.as_bytes().len()
}

/// Whether the bytes begin as a DICOM file does: a preamble of 128 zero
/// bytes, then the magic code `DICM`.
pub open spec fn starts_as_file(bytes: Seq<u8>) -> bool {
    &&& bytes.len() >= 132
    &&& forall|i: int| 0 <= i < 128 ==> bytes[i] == 0
    &&& bytes[128] == 0x44
    &&& bytes[129] == 0x49
    &&& bytes[130] == 0x43
    &&& bytes[131] == 0x4d
}

} // verus!
