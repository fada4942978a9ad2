use vstd::prelude::*;

verus! {

/// Weight of one instruction's execution overhead on the storage chain.
pub const UNIT_XCM_WEIGHT: u64 = 1_000_000_000;

/// Index of the storage module in the storage chain's runtime.
pub const XSTORAGE_PALLET_INDEX: u8 = 127;

/// Index of the order-placing call within the storage module.
pub const XSTORAGE_CALL_INDEX: u8 = 0;

/// Weight that the storage chain charges for the order-placing call itself.
pub const XSTORAGE_CALL_WEIGHT: u64 = 1_000_001;

/// One second of execution, in weight units.
pub const WEIGHT_PER_SECOND: u64 = 1_000_000_000_000;

/// Price of one weight unit when the fee is paid in the local native token.
pub const NATIVE_FEE_MULTIPLIER: u128 = 10;

} // verus!
