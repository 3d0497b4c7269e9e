//! Property requests and their answers.

use vstd::prelude::*;

verus! {

/// The number of properties that a fresh context makes room for.
pub const PROP_DEFAULT: u32 = 4;

/// A property context, known only by reference.
#[derive(Debug, Copy, Clone)]
pub struct propctx {
    _unused: [u8; 0],
}

} // verus!
