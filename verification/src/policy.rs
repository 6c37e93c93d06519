use vstd::prelude::*;

use crate::types::FactoryError;

verus! {

/// Maximum accepted value for the factory `min_duration` policy, in seconds.
///
/// The ceiling is intentionally generous (100 years of 365 days) so normal
/// treasury vesting schedules remain valid while malformed policies cannot
/// silently make stream creation through the factory impractical forever.
pub const MAX_MIN_DURATION_SECONDS: u64 = 100 * 365 * 24 * 60 * 60;

/// A deposit cap is usable if it is positive: under any other cap every
/// positive deposit would exceed it.
pub open spec fn cap_check(max_deposit: i128) -> Result<(), FactoryError> {
    if max_deposit >= 1 {
        Ok(())
    } else {
        Err(FactoryError::InvalidCap)
    }
}

/// A minimum duration is usable up to the ceiling; zero switches it off.
pub open spec fn min_duration_check(min_duration: u64) -> Result<(), FactoryError> {
    if min_duration <= MAX_MIN_DURATION_SECONDS {
        Ok(())
    } else {
        Err(FactoryError::InvalidMinDuration)
    }
}

/// Validate a factory deposit cap before storing it.
///
/// Accepted range: `1..=i128::MAX`.
pub fn validate_cap(max_deposit: i128) -> (checked: Result<(), FactoryError>)
    ensures
        checked == cap_check(max_deposit),
{
    if max_deposit <= 0 {
        return Err(FactoryError::InvalidCap);
    }
    Ok(())
}

/// Validate a factory minimum-duration policy before storing it.
///
/// Accepted range: `0..=MAX_MIN_DURATION_SECONDS` seconds.
pub fn validate_min_duration(min_duration: u64) -> (checked: Result<(), FactoryError>)
    ensures
        checked == min_duration_check(min_duration),
{
    if min_duration > MAX_MIN_DURATION_SECONDS {
        return Err(FactoryError::InvalidMinDuration);
    }
    Ok(())
}

} // verus!
