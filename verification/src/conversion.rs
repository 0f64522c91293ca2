use vstd::prelude::*;

verus! {

/// The largest value that `i128_to_u64` accepts.
pub const I128_TO_U64_MAX: i128 = 18446744073709551612i128;

/// What `i128_to_u64` returns: the value itself when it lies in
/// `0..=I128_TO_U64_MAX`, and nothing otherwise.
pub open spec fn i128_to_u64_result(u: int) -> Option<u64> {
    if u < 0 || u > I128_TO_U64_MAX {
        None
    } else {
        Some(u as u64)
    }
}

/// Narrows a signed 128-bit integer to an unsigned 64-bit one, rejecting
/// negative values and values above `I128_TO_U64_MAX`.
pub fn i128_to_u64(u: i128) -> (r: Option<u64>)
    ensures
        r == i128_to_u64_result(u as int),
        r matches Some(v) ==> v as int == u as int,
{
    let min: i128 = 0;
    let max: i128 = I128_TO_U64_MAX;
    if u < min || u > max {
        None
    } else {
        Some(u as u64)
    }
}

/// Every unsigned value up to the bound survives the trip through `i128`:
/// converting it back gives the value it started from.
pub proof fn i128_to_u64_round_trip(v: u64)
    requires
        v <= I128_TO_U64_MAX,
    ensures
        i128_to_u64_result(v as int) == Some(v),
{
}

} // verus!
