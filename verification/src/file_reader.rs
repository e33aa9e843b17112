//! Reading a file in a browser, where it arrives as the body of a fetched
//! response.

use vstd::prelude::*;

verus! {

/// Receives the body of a fetched file.
#[derive(Clone, Copy, Debug)]
pub struct WasmFileReader {}

impl WasmFileReader {
    /// The buffer into which a body of `length` bytes is copied: that many
    /// zero bytes.
    pub fn buffer(length: u32) -> (bytes: Vec<u8>)
        ensures
            bytes@ == Seq::new(length as nat, |i: int| 0u8),
    {
        let bytes: Vec<u8> = vec![0u8; length as usize];
        bytes
    }
}

} // verus!
