//! The states of the keyed MD5 digest.

use crate::md5::MD5_CTX;
use vstd::prelude::*;

verus! {

/// The running state of a keyed digest: an inner and an outer digest.
#[derive(Copy, Clone)]
pub struct HMAC_MD5_CTX_s {
    pub ictx: MD5_CTX,
    pub octx: MD5_CTX,
}

/// The state of a keyed digest once the key has been absorbed.
#[derive(Debug, Copy, Clone)]
pub struct HMAC_MD5_STATE_s {
    pub istate: [u32; 4],
    pub ostate: [u32; 4],
}

} // verus!
