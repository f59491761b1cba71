//! The birthright clock: the day boundaries at which the daily 1 TIME
//! birthright becomes claimable.
//!
//! The clock does not push birthright tokens. It marks the day boundary
//! (unix time / 86400, as BirthrightClock.sol keys its days); verified humans
//! then self-claim through the contract with their World ID proof.
use vstd::prelude::*;
use crate::error::TimeModuleError;
use crate::trusted::unix_time_secs;

verus! {

/// Length of one birthright day in seconds.
pub const SECONDS_PER_DAY: u64 = 86_400;

/// How long the clock backs off after a failed tick before it tries again.
pub const TICK_RETRY_BACKOFF_SECS: u64 = 300;

/// The day that a unix timestamp falls in: whole days since the epoch.
pub open spec fn day_of(now_secs: u64) -> int {
    (now_secs / SECONDS_PER_DAY) as int
}

/// Seconds from a unix timestamp to the start of the next day.
pub open spec fn secs_to_next_day(now_secs: u64) -> int {
    SECONDS_PER_DAY - now_secs % SECONDS_PER_DAY
}

/// Seconds from a unix timestamp to the clock's next tick. Ticks fall on the
/// multiples of `interval_secs` since the epoch (for the default of one day:
/// each UTC midnight); an interval of 0 falls back to one day.
pub open spec fn secs_to_next_tick(now_secs: u64, interval_secs: u64) -> int {
    if interval_secs == 0 {
        secs_to_next_day(now_secs)
    } else {
        interval_secs - now_secs % interval_secs
    }
}

/// The day number of a unix timestamp, matching BirthrightClock.sol.
pub fn day_number(now_secs: u64) -> (day: u64)
    ensures
        day == day_of(now_secs),
{
    now_secs / SECONDS_PER_DAY
}

/// Seconds from a unix timestamp to the next UTC midnight (day boundary); a
/// full day when the timestamp is itself a boundary.
pub fn seconds_until_day_boundary(now_secs: u64) -> (secs: u64)
    ensures
        secs == secs_to_next_day(now_secs),
{
    SECONDS_PER_DAY - now_secs % SECONDS_PER_DAY
}

/// Seconds from a unix timestamp to the clock's next tick, for a tick every
/// `interval_secs` seconds (aligned to the epoch, so daily ticks fall on UTC
/// midnight); an interval of 0 ticks daily.
pub fn seconds_until_next_tick(now_secs: u64, interval_secs: u64) -> (secs: u64)
    ensures
        secs == secs_to_next_tick(now_secs, interval_secs),
{
    if interval_secs == 0 {
        SECONDS_PER_DAY - now_secs % SECONDS_PER_DAY
    } else {
        interval_secs - now_secs % interval_secs
    }
}

/// Ticks once per `interval_secs` (by default 24 hours, aligned to UTC
/// midnight), opening each new day's birthright claim window.
pub struct BirthrightClock {
    pub rpc_url: String,
    pub contract_address: String,
    pub world_id_address: String,
    pub interval_secs: u64,
    pub signer_key_env: String,
}

impl BirthrightClock {
    /// A clock with the given settings; this cannot fail.
    pub fn new(
        rpc_url: String,
        contract_address: String,
        world_id_address: String,
        interval_secs: u64,
        signer_key_env: String,
    ) -> (clock: Result<Self, TimeModuleError>)
        ensures
            clock matches Ok(c) && c.rpc_url == rpc_url && c.contract_address == contract_address
                && c.world_id_address == world_id_address && c.interval_secs == interval_secs
                && c.signer_key_env == signer_key_env,
    {
        Ok(BirthrightClock { rpc_url, contract_address, world_id_address, interval_secs, signer_key_env })
    }

    /// Current day number (unix timestamp / 86400), matching
    /// BirthrightClock.sol. Whatever the clock reads, the result is the day
    /// number of some unix timestamp.
    pub fn current_day(&self) -> (day: u64)
        ensures
            exists|now_secs: u64| day == day_of(now_secs),
    {
        let now_secs = unix_time_secs();
        let day = day_number(now_secs);
        assert(day == day_of(now_secs));
        day
    }

    /// Seconds until the next UTC midnight (day boundary). Whatever the clock
    /// reads, the result is the distance from some unix timestamp to the next
    /// day boundary.
    pub fn seconds_until_next_day(&self) -> (secs: u64)
        ensures
            exists|now_secs: u64| secs == secs_to_next_day(now_secs),
    {
        let now_secs = unix_time_secs();
        let secs = seconds_until_day_boundary(now_secs);
        assert(secs == secs_to_next_day(now_secs));
        secs
    }

    /// Seconds until the clock's next tick: the next multiple of
    /// `interval_secs` (UTC midnight for the default interval of one day; an
    /// interval of 0 ticks daily). The run loop waits this long. Whatever the
    /// clock reads, the result is the distance from some unix timestamp to its
    /// next tick.
    pub fn seconds_until_next_tick(&self) -> (secs: u64)
        ensures
            exists|now_secs: u64| secs == secs_to_next_tick(now_secs, self.interval_secs),
    {
        let now_secs = unix_time_secs();
        let secs = seconds_until_next_tick(now_secs, self.interval_secs);
        assert(secs == secs_to_next_tick(now_secs, self.interval_secs));
        secs
    }

    /// Execute the daily tick: the day that has opened. On chain the tick is
    /// implicit in block time (the contract keys days by
    /// `block.timestamp / 86400`), so this never fails.
    pub fn tick(&self) -> (day: Result<u64, TimeModuleError>)
        ensures
            day matches Ok(d) && exists|now_secs: u64| d == day_of(now_secs),
    {
        Ok(self.current_day())
    }
}

/// How long the clock's run loop backs off after a tick before it waits for
/// the next day boundary: not at all after a tick that opened a day,
/// `TICK_RETRY_BACKOFF_SECS` after a failed one.
pub fn backoff_after_tick(tick: &Result<u64, TimeModuleError>) -> (secs: u64)
    ensures
        tick is Ok ==> secs == 0,
        tick is Err ==> secs == TICK_RETRY_BACKOFF_SECS,
{
    match tick {
        Ok(_) => 0,
        Err(_) => TICK_RETRY_BACKOFF_SECS,
    }
}

/// The next day boundary is between one second and one full day away, falls
/// on a multiple of a day, and opens the day after the current one.
pub proof fn lemma_day_boundary(now_secs: u64)
    ensures
        1 <= secs_to_next_day(now_secs) <= SECONDS_PER_DAY,
        (now_secs + secs_to_next_day(now_secs)) % (SECONDS_PER_DAY as int) == 0,
        (now_secs + secs_to_next_day(now_secs)) / (SECONDS_PER_DAY as int) == day_of(now_secs) + 1,
{
    let d = SECONDS_PER_DAY as int;
    let q = now_secs / SECONDS_PER_DAY;
    let r = now_secs % SECONDS_PER_DAY;
    assert(now_secs == q * d + r);
    assert(now_secs + (d - r) == (q + 1) * d);
    vstd::arithmetic::div_mod::lemma_mod_multiples_basic(q + 1, d);
    vstd::arithmetic::div_mod::lemma_div_multiples_vanish(q + 1, d);
}

/// The next tick is between one second and one interval away, falls on a
/// multiple of the interval, and starts the interval after the current one.
pub proof fn lemma_tick_boundary(now_secs: u64, interval_secs: u64)
    requires
        interval_secs > 0,
    ensures
        1 <= secs_to_next_tick(now_secs, interval_secs) <= interval_secs,
        (now_secs + secs_to_next_tick(now_secs, interval_secs)) % (interval_secs as int) == 0,
        (now_secs + secs_to_next_tick(now_secs, interval_secs)) / (interval_secs as int)
            == now_secs / interval_secs + 1,
{
    let d = interval_secs as int;
    let q = now_secs / interval_secs;
    let r = now_secs % interval_secs;
    vstd::arithmetic::div_mod::lemma_fundamental_div_mod(now_secs as int, d);
    assert(now_secs == d * q + r);
    vstd::arithmetic::mul::lemma_mul_is_distributive_add(d, q as int, 1);
    assert(now_secs + (d - r) == d * (q + 1));
    vstd::arithmetic::mul::lemma_mul_is_commutative(d, q + 1);
    vstd::arithmetic::div_mod::lemma_mod_multiples_basic(q + 1, d);
    vstd::arithmetic::div_mod::lemma_div_multiples_vanish(q + 1, d);
}

/// With the default interval of one day, the clock ticks at each UTC
/// midnight: the wait is the distance to the next day boundary.
pub proof fn lemma_daily_ticks_at_midnight(now_secs: u64)
    ensures
        secs_to_next_tick(now_secs, SECONDS_PER_DAY) == secs_to_next_day(now_secs),
{
}

} // verus!
