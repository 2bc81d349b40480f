//! Fingerprints of rendered output: the benchmark hashes what an engine wrote
//! and empties the buffer for the next round.
use vstd::prelude::*;

use crate::output::Output;

verus! {

/// `ahash::RandomState`, a hasher seeded with fixed keys.
#[verifier::external_type_specification]
#[verifier::external_body]
pub struct ExRandomState(::ahash::RandomState);

/// The fixed keys of the output hash: the first hexadecimal digits of pi.
pub const PI_0: u64 = 0x243f_6a88_85a3_08d3;

/// The second key of the output hash.
pub const PI_1: u64 = 0x1319_8a2e_0370_7344;

/// The third key of the output hash.
pub const PI_2: u64 = 0xa409_3822_299f_31d0;

/// The fourth key of the output hash.
pub const PI_3: u64 = 0x082e_fa98_ec4e_6c89;

/// `ahash::RandomState::with_seeds`: a hasher built from four keys.  Nothing
/// is stated of it: ahash documents that its hashes differ between platforms
/// and versions.
#[verifier::external_body]
fn random_state_with_seeds(k0: u64, k1: u64, k2: u64, k3: u64) -> ::ahash::RandomState {
    ::ahash::RandomState::with_seeds(k0, k1, k2, k3)
}

/// `ahash::RandomState::hash_one` on a byte slice.  Nothing is stated of the
/// hash: ahash documents that it differs between platforms and versions.
#[verifier::external_body]
fn random_state_hash_one(state: &::ahash::RandomState, bytes: &[u8]) -> u64 {
    state.hash_one(bytes)
}

/// Hashes what `output` holds with the fixed keys, then empties `output`.
pub fn collect_output<O: Output>(output: &mut O) -> (hash: u64)
    ensures
        final(output).written() == Seq::<u8>::empty(),
{
    let state = random_state_with_seeds(PI_0, PI_1, PI_2, PI_3);
    let hash = random_state_hash_one(&state, output.as_bytes());
    output.clear();
    hash
}

} // verus!
