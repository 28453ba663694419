use vstd::prelude::*;

verus! {

/// Relies on std::time::SystemTime::now, read as a duration since the Unix
/// epoch: the whole nanoseconds of that duration, or None when the clock
/// reads earlier than the epoch. Nothing is promised of the value: the
/// system clock may move freely between reads.
#[verifier::external_body]
fn clock_ns() -> Option<u128> {
    std::time::SystemTime::now()
        .duration_since(std::time::SystemTime::UNIX_EPOCH)
        .ok()
        .map(|d| d.as_nanos())
}

/// The clock reading, with 0 standing in for a clock set before the epoch.
fn clock_ns_or_zero() -> u128 {
    match clock_ns() {
        Some(t) => t,
        None => 0,
    }
}

/// The whole milliseconds in a duration of `d` nanoseconds.
pub fn ns_to_ms(d: u128) -> (r: u128)
    ensures
        r == d / 1_000_000,
{
    d / 1_000_000
}

/// The whole microseconds in a duration of `d` nanoseconds.
pub fn ns_to_us(d: u128) -> (r: u128)
    ensures
        r == d / 1000,
{
    d / 1000
}

/// The whole milliseconds in a duration of `u` microseconds.
pub fn us_to_ms(u: u128) -> (r: u128)
    ensures
        r == u / 1000,
{
    u / 1000
}

/// Whole milliseconds of the clock's duration since the Unix epoch.
pub fn now_ms() -> u128 {
    ns_to_ms(clock_ns_or_zero())
}

/// Whole milliseconds, computed by way of the microsecond reading.
pub fn now_ms_workaround() -> u128 {
    us_to_ms(now_us())
}

/// Whole microseconds of the clock's duration since the Unix epoch.
pub fn now_us() -> u128 {
    ns_to_us(clock_ns_or_zero())
}

/// Whole nanoseconds of the clock's duration since the Unix epoch.
pub fn now_ns() -> u128 {
    clock_ns_or_zero()
}

/// A stopwatch: the clock readings taken at the moment it was built.
/// A caller reads them back later to see how much time a stretch of work
/// took at each resolution.
pub struct TimerScoped {
    pub t_ms: u128,
    pub t_us: u128,
    pub t_ns: u128,
}

impl TimerScoped {
    pub fn new() -> Self {
        let t_ms: u128 = now_ms();
        let t_us: u128 = now_us();
        let t_ns: u128 = now_ns();
        TimerScoped { t_ms, t_us, t_ns }
    }
}

} // verus!
