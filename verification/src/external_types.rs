//! Types of other crates that the library holds without looking inside.

use vstd::prelude::*;

verus! {

/// `alloy_primitives::FixedBytes`, of which `B256` is the form with 32 bytes.
#[verifier::external_type_specification]
#[verifier::external_body]
pub struct ExFixedBytes<const N: usize>(alloy_primitives::FixedBytes<N>);

/// `alloy_primitives::Uint`, of which `U256` is the form with 256 bits.
#[verifier::external_type_specification]
#[verifier::external_body]
pub struct ExUint<const BITS: usize, const LIMBS: usize>(alloy_primitives::Uint<BITS, LIMBS>);

/// `lock_api::Mutex`, which `parking_lot::Mutex` is with `parking_lot::RawMutex` as its lock.
#[verifier::external_type_specification]
#[verifier::external_body]
#[verifier::reject_recursive_types(R)]
#[verifier::reject_recursive_types(T)]
pub struct ExMutex<R, T: ?Sized>(parking_lot::lock_api::Mutex<R, T>);

/// `parking_lot::RawMutex`, the lock inside `parking_lot::Mutex`.
#[verifier::external_type_specification]
#[verifier::external_body]
pub struct ExRawMutex(parking_lot::RawMutex);

} // verus!
