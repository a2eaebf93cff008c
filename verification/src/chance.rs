//! The source of chance for seeding a grid.

use vstd::prelude::*;

verus! {

/// `rand::random::<u8>()`: a byte from the thread's random generator.
///
/// Nothing is claimed of the byte: two calls may give any two values. The
/// generator takes its seed from the operating system when a thread first
/// uses it, and the call fails where that source does.
#[verifier::external_body]
pub(crate) fn random_byte() -> u8 {
    rand::random::<u8>()
}

} // verus!
