//! The main SASL interface: opaque handles and the version that the
//! declarations were built against.

use crate::version::version_full;
use vstd::prelude::*;
use vstd::string::*;
use vstd::utf8::*;

verus! {

/// A connection, known only by reference.
#[derive(Debug, Copy, Clone)]
pub struct sasl_conn {
    _unused: [u8; 0],
}

/// The state of the random number pool, known only by reference.
#[derive(Debug, Copy, Clone)]
pub struct sasl_rand_s {
    _unused: [u8; 0],
}

/// The version as the build published it: one text per component, whose
/// first byte is the component.
#[derive(Debug, Clone)]
pub struct PublishedVersion {
    pub major: String,
    pub minor: String,
    pub step: String,
}

/// The first byte of a text in UTF-8.
pub open spec fn first_byte(s: Seq<char>) -> u8
    recommends
        s.len() > 0,
{
    encode_utf8(s)[0]
}

/// A text that begins with a character below 128 begins with that byte.
pub proof fn lemma_first_byte_ascii(s: Seq<char>)
    requires
        s.len() > 0,
        (s[0] as u32) < 128,
    ensures
        first_byte(s) as u32 == s[0] as u32,
{
    let c = s[0] as u32;
    assert(encode_utf8(s)[0] == encode_scalar(c)[0]);
    assert((c & 0x7f) as u8 as u32 == c) by (bit_vector)
        requires
            c < 128,
    ;
}

/// Decodes one published component: the first byte of its text.
pub fn decode_version(s: &str) -> (component: u8)
    requires
        s@.len() > 0,
    ensures
        component == first_byte(s@),
        (s@[0] as u32) < 128 ==> component as u32 == s@[0] as u32,
{
    proof {
        assert(encode_scalar(s@[0] as u32).len() > 0);
        assert(encode_utf8(s@).len() > 0);
        if (s@[0] as u32) < 128 {
            lemma_first_byte_ascii(s@);
        }
    }
    s.as_bytes()[0]
}

/// The major version that was published.
pub fn sasl_version_major(published: &PublishedVersion) -> (major: u8)
    requires
        published.major@.len() > 0,
    ensures
        major == first_byte(published.major@),
{
    decode_version(published.major.as_str())
}

/// The minor version that was published.
pub fn sasl_version_minor(published: &PublishedVersion) -> (minor: u8)
    requires
        published.minor@.len() > 0,
    ensures
        minor == first_byte(published.minor@),
{
    decode_version(published.minor.as_str())
}

/// The step that was published.
pub fn sasl_version_step(published: &PublishedVersion) -> (step: u8)
    requires
        published.step@.len() > 0,
    ensures
        step == first_byte(published.step@),
{
    decode_version(published.step.as_str())
}

/// The published version packed into one number, major highest.
pub fn sasl_version_full(published: &PublishedVersion) -> (full: i32)
    requires
        published.major@.len() > 0,
        published.minor@.len() > 0,
        published.step@.len() > 0,
    ensures
        full == crate::version::packed(
            first_byte(published.major@),
            first_byte(published.minor@),
            first_byte(published.step@),
        ),
{
    version_full(
        sasl_version_major(published),
        sasl_version_minor(published),
        sasl_version_step(published),
    )
}

} // verus!
