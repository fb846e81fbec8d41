//! The host's clock.
//!
//! Nothing in this module is proved: it hands one call to the NEAR SDK.

use vstd::prelude::*;

verus! {

/// `near_sdk::env::block_timestamp`: the instant of the current block, in
/// nanoseconds. Nothing is claimed of the value: it is the host's to give,
/// and two calls may differ.
#[verifier::external_body]
pub(crate) fn block_timestamp() -> (now: u64) {
    near_sdk::env::block_timestamp()
}

} // verus!
