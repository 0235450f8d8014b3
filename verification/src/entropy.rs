//! The source of random bytes.

use vstd::prelude::*;

verus! {

/// Sixteen bytes from `rand::random`, which draws them from the generator of
/// the calling thread.
///
/// Nothing is claimed of the bytes: each call may give any sixteen. The
/// generator takes its seed from the operating system when a thread first
/// uses it, and panics there if the system gives none; no argument has a
/// part in that.
#[verifier::external_body]
pub(crate) fn random_bytes() -> (bytes: [u8; 16]) {
    rand::random()
}

} // verus!
