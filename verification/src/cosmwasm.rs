use cosmwasm_std::{StdError, Timestamp};
use vstd::prelude::*;

verus! {

/// `cosmwasm_std::StdError`, carried through as an opaque value.
#[verifier::external_type_specification]
#[verifier::external_body]
pub struct ExStdError(StdError);

/// Number of nanoseconds in a second, as used by `Timestamp::plus_seconds`.
pub const NANOS_PER_SECOND: u64 = 1_000_000_000;

/// `Timestamp::from_nanos(nanos).plus_seconds(seconds)`, read back in nanoseconds.
///
/// The crate multiplies `seconds` by one billion and adds the product with
/// `strict_add`; both panic on overflow, so `requires` rules that out. The
/// result is then the exact sum.
#[verifier::external_body]
pub fn timestamp_plus_seconds(nanos: u64, seconds: u64) -> (r: u64)
    requires
        seconds * NANOS_PER_SECOND <= u64::MAX,
        nanos + seconds * NANOS_PER_SECOND <= u64::MAX,
    ensures
        r == nanos + seconds * NANOS_PER_SECOND,
{
    Timestamp::from_nanos(nanos).plus_seconds(seconds).nanos()
}

} // verus!
