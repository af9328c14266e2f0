//! Strings and flags as the server reads and writes them.
//!
//! The encoding is that of the `variable_len_reader` crate, which does the
//! work; this file states what the rest of the crate relies on.

use bytes::{Buf, BufMut};
use variable_len_reader::{VariableReader, VariableWriter};
use vstd::prelude::*;

verus! {

/// `std::io::Error`, carried through without looking inside.
#[verifier::external_type_specification]
#[verifier::external_body]
pub struct ExIoError(std::io::Error);

/// The bytes that `variable_len_reader` writes for a string: its length and
/// then its text.
pub uninterp spec fn string_frame(text: Seq<char>) -> Seq<u8>;

/// Calls `VariableWriter::write_string` of `variable_len_reader` on an empty
/// `bytes::BytesMut` and returns what it wrote: the frame of `func`. The
/// writer of `bytes` appends to a buffer that grows, and reports no failure.
#[verifier::external_body]
pub(crate) fn write_string(func: &str) -> (written: Result<Vec<u8>, std::io::Error>)
    ensures
        written is Ok,
        written matches Ok(frame) ==> frame@ == string_frame(func@),
{
    let mut writer = bytes::BytesMut::new().writer();
    writer.write_string(func)?;
    Ok(writer.into_inner().to_vec())
}

/// Calls `VariableReader::read_bool` of `variable_len_reader` on a reader
/// over `reply`. It reads one byte: 0 is `false`, 1 is `true`, and any other
/// byte, or none, is an error.
#[verifier::external_body]
pub(crate) fn read_bool(reply: &[u8]) -> (flag: Result<bool, std::io::Error>)
    ensures
        match flag {
            Ok(value) => reply@.len() > 0 && reply@[0] == (if value {
                1u8
            } else {
                0u8
            }),
            Err(_) => reply@.len() == 0 || reply@[0] > 1,
        },
{
    let mut reader = reply.reader();
    reader.read_bool()
}

} // verus!
