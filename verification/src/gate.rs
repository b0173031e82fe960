//! The authorization gate and the clock, which stand before the engines.

use vstd::prelude::*;
use crate::error::MarketError;
use crate::identity::Identity;
use crate::ledger::clock_unix_timestamp;

verus! {

/// Admits `caller` to an operation reserved for `required`, and nobody else.
pub fn authorize(caller: &Identity, required: &Identity) -> (res: Result<(), MarketError>)
    ensures
        *caller == *required ==> res == Ok::<(), MarketError>(()),
        *caller != *required ==> res == Err::<(), MarketError>(MarketError::Unauthorized),
{
    if *caller == *required {
        Ok(())
    } else {
        Err(MarketError::Unauthorized)
    }
}

/// The current time as the runtime reports it, in seconds since the epoch.
/// The only failure is that the runtime reports none.
pub fn current_time() -> (res: Result<i64, MarketError>)
    ensures
        res is Err ==> res == Err::<i64, MarketError>(MarketError::ClockUnavailable),
{
    reported_time(clock_unix_timestamp())
}

/// What a reading of the runtime's clock means to the engines: the time that
/// was read, or `ClockUnavailable` where the runtime refused, whatever its
/// reason.
pub fn reported_time(
    reading: Result<i64, anchor_lang::solana_program::program_error::ProgramError>,
) -> (res: Result<i64, MarketError>)
    ensures
        reading is Ok ==> res == Ok::<i64, MarketError>(reading->Ok_0),
        reading is Err ==> res == Err::<i64, MarketError>(MarketError::ClockUnavailable),
{
    match reading {
        Ok(now) => Ok(now),
        Err(_) => Err(MarketError::ClockUnavailable),
    }
}

} // verus!
