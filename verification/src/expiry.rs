//! When an escrow counts as expired.

use vstd::prelude::*;

verus! {

/// Whether deadlines `(expiry_height, expiry_time)` have passed at
/// `(current_height, current_time)`.
///
/// A deadline of zero is unset. A set deadline has passed as soon as the
/// current value reaches it; either deadline alone expires the escrow.
pub open spec fn expired(
    expiry_height: int,
    expiry_time: int,
    current_height: int,
    current_time: int,
) -> bool {
    ||| expiry_height != 0 && current_height >= expiry_height
    ||| expiry_time != 0 && current_time >= expiry_time
}

/// Decides whether an escrow with the given deadlines is expired at the given
/// block height and time.
pub fn is_expired(
    expiry_height: i64,
    expiry_time: i64,
    current_height: i64,
    current_time: i64,
) -> (res: bool)
    ensures
        res == expired(
            expiry_height as int,
            expiry_time as int,
            current_height as int,
            current_time as int,
        ),
{
    (expiry_height != 0 && current_height >= expiry_height) || (expiry_time != 0 && current_time
        >= expiry_time)
}

} // verus!
