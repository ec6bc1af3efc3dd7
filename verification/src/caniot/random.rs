use vstd::prelude::*;

verus! {

/// Calls `rand::random::<u8>()`: a byte drawn from the thread-local
/// generator. Nothing is promised of its value.
#[verifier::external_body]
pub(crate) fn random_u8() -> (r: u8) {
    rand::random::<u8>()
}

/// Calls `rand::random::<u16>()`: a 16-bit value drawn from the thread-local
/// generator. Nothing is promised of its value.
#[verifier::external_body]
pub(crate) fn random_u16() -> (r: u16) {
    rand::random::<u16>()
}

/// Calls `rand::random::<u32>()`: a 32-bit value drawn from the thread-local
/// generator. Nothing is promised of its value.
#[verifier::external_body]
pub(crate) fn random_u32() -> (r: u32) {
    rand::random::<u32>()
}

/// Calls `rand::random::<bool>()`: a boolean drawn from the thread-local
/// generator. Nothing is promised of its value.
#[verifier::external_body]
pub(crate) fn random_bool() -> (r: bool) {
    rand::random::<bool>()
}

} // verus!
