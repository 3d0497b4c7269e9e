//! The state of the MD5 digest.

use vstd::prelude::*;

verus! {

/// The running state of a digest.
#[derive(Copy, Clone)]
pub struct MD5_CTX {
    /// The four chaining words.
    pub state: [u32; 4],
    /// The number of bits taken in so far, low word first.
    pub count: [u32; 2],
    /// Input that has not yet filled a block.
    pub buffer: [u8; 64],
}

} // verus!
