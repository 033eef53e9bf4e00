//! Arithmetic on the ARM generic timer: uptime in milliseconds and busy-wait
//! deadlines. The counter and frequency registers are read by the caller.
use vstd::prelude::*;

verus! {

/// Number of milliseconds in a second.
pub const MILLIS_PER_SEC: u64 = 1000;

/// `x * y`, clamped to `u64::MAX`.
pub open spec fn saturating_mul_u64(x: u64, y: u64) -> u64 {
    if x * y > u64::MAX {
        u64::MAX
    } else {
        (x * y) as u64
    }
}

/// `x` raised to at least `1`.
pub open spec fn at_least_one(x: u64) -> u64 {
    if x < 1 {
        1
    } else {
        x
    }
}

/// `(now - start) mod 2^64`: the ticks elapsed on a free-running 64-bit counter.
pub open spec fn ticks_between(start: u64, now: u64) -> u64 {
    if now >= start {
        (now - start) as u64
    } else {
        (now - start + 0x1_0000_0000_0000_0000) as u64
    }
}

/// Milliseconds since the counter started, as the kernel reports them.
pub open spec fn spec_uptime_millis(counter: u64, frequency: u64) -> u64 {
    (saturating_mul_u64(counter, MILLIS_PER_SEC) / at_least_one(frequency)) as u64
}

/// Counter ticks that make up `ms` milliseconds at `frequency` Hz.
pub open spec fn spec_wait_ticks(frequency: u64, ms: u64) -> u64 {
    saturating_mul_u64(at_least_one(frequency / MILLIS_PER_SEC), ms)
}

fn saturating_mul(x: u64, y: u64) -> (r: u64)
    ensures
        r == saturating_mul_u64(x, y),
{
    match x.checked_mul(y) {
        Some(v) => v,
        None => u64::MAX,
    }
}

fn max_one(x: u64) -> (r: u64)
    ensures
        r == at_least_one(x),
{
    if x < 1 {
        1
    } else {
        x
    }
}

/// Milliseconds elapsed since the counter started: `counter * 1000`
/// (saturating) divided by the counter frequency, a frequency of `0` being
/// taken as `1`.
pub fn uptime_millis(counter: u64, frequency: u64) -> (r: u64)
    ensures
        r == spec_uptime_millis(counter, frequency),
{
    saturating_mul(counter, MILLIS_PER_SEC) / max_one(frequency)
}

/// The uptime as a signed millisecond timestamp, as the network stack takes it:
/// the value of [`uptime_millis`] reinterpreted as `i64`.
pub fn now_millis(counter: u64, frequency: u64) -> (r: i64)
    ensures
        r as int == if spec_uptime_millis(counter, frequency) <= i64::MAX {
            spec_uptime_millis(counter, frequency) as int
        } else {
            spec_uptime_millis(counter, frequency) - 0x1_0000_0000_0000_0000
        },
{
    let ms = uptime_millis(counter, frequency);
    if ms <= i64::MAX as u64 {
        ms as i64
    } else {
        let below: u64 = ms - (i64::MAX as u64) - 1;
        i64::MIN + (below as i64)
    }
}

/// A busy-wait deadline on the free-running counter.
#[derive(Clone, Copy, Debug)]
pub struct Delay {
    /// Counter value when the wait began.
    pub start: u64,
    /// Ticks that must elapse before the wait is over.
    pub wait_ticks: u64,
}

impl Delay {
    /// Whether the wait is over at counter value `now`: the ticks elapsed since
    /// `start`, modulo `2^64`, have reached `wait_ticks`.
    pub fn is_done(&self, now: u64) -> (r: bool)
        ensures
            r == (ticks_between(self.start, now) >= self.wait_ticks),
    {
        now.wrapping_sub(self.start) >= self.wait_ticks
    }
}

/// Starts a wait of `ms` milliseconds at counter value `start` on a counter
/// running at `frequency` Hz: one millisecond is `frequency / 1000` ticks,
/// raised to at least one tick, and the product saturates.
pub fn delay_ms(ms: u64, frequency: u64, start: u64) -> (d: Delay)
    ensures
        d.start == start,
        d.wait_ticks == spec_wait_ticks(frequency, ms),
        d.wait_ticks == (if (if frequency / 1000 >= 1 {
            frequency / 1000
        } else {
            1
        }) * ms <= u64::MAX {
            (if frequency / 1000 >= 1 {
                frequency / 1000
            } else {
                1
            }) * ms
        } else {
            u64::MAX as int
        }),
{
    let ticks_per_ms = max_one(frequency / MILLIS_PER_SEC);
    Delay { start, wait_ticks: saturating_mul(ticks_per_ms, ms) }
}

/// A wait lasts `ms` milliseconds of the counter: `frequency / 1000` ticks
/// per millisecond (at least one tick), times `ms`, clamped to `u64::MAX`;
/// with a counter of at least 1 kHz and no clamping that is exactly
/// `(frequency / 1000) * ms` ticks.
pub proof fn wait_is_ms_milliseconds_of_ticks(frequency: u64, ms: u64)
    ensures
        spec_wait_ticks(frequency, ms) == (if (if frequency / 1000 >= 1 {
            frequency / 1000
        } else {
            1
        }) * ms <= u64::MAX {
            (if frequency / 1000 >= 1 {
                frequency / 1000
            } else {
                1
            }) * ms
        } else {
            u64::MAX as int
        }),
        frequency >= 1000 && (frequency / 1000) * ms <= u64::MAX ==> spec_wait_ticks(frequency, ms)
            == (frequency / 1000) * ms,
        frequency < 1000 ==> spec_wait_ticks(frequency, ms) == ms,
{
}

/// Uptime is the counter converted to milliseconds, rounded down: with a
/// frequency `f >= 1` and no saturation, `uptime * f <= counter * 1000 <
/// (uptime + 1) * f`; a frequency of `0` counts as 1 Hz, and a product past
/// `u64::MAX` is clamped to it before the division.
pub proof fn uptime_is_counter_in_milliseconds(counter: u64, frequency: u64)
    ensures
        spec_uptime_millis(counter, frequency) == (if counter * 1000 <= u64::MAX {
            counter * 1000
        } else {
            u64::MAX as int
        }) / (if frequency >= 1 {
            frequency as int
        } else {
            1
        }),
        frequency >= 1 && counter * 1000 <= u64::MAX ==> spec_uptime_millis(counter, frequency)
            * frequency <= counter * 1000 < (spec_uptime_millis(counter, frequency) + 1)
            * frequency,
{
    if frequency >= 1 && counter * 1000 <= u64::MAX {
        let u = spec_uptime_millis(counter, frequency) as int;
        let x = counter * 1000;
        assert(u == x / (frequency as int));
        vstd::arithmetic::div_mod::lemma_fundamental_div_mod(x, frequency as int);
        vstd::arithmetic::div_mod::lemma_mod_bound(x, frequency as int);
        assert(u * frequency <= x < (u + 1) * frequency) by (nonlinear_arith)
            requires
                x == frequency * u + x % (frequency as int),
                0 <= x % (frequency as int) < frequency,
        ;
    }
}

/// Uptime never runs backwards: for a fixed frequency, a later counter value
/// gives at least as many milliseconds.
pub proof fn uptime_is_monotonic(earlier: u64, later: u64, frequency: u64)
    requires
        earlier <= later,
    ensures
        spec_uptime_millis(earlier, frequency) <= spec_uptime_millis(later, frequency),
{
    let a = saturating_mul_u64(earlier, MILLIS_PER_SEC);
    let b = saturating_mul_u64(later, MILLIS_PER_SEC);
    assert(a <= b);
    vstd::arithmetic::div_mod::lemma_div_is_ordered(
        a as int,
        b as int,
        at_least_one(frequency) as int,
    );
}

/// Waits survive the counter wrapping around: `k` ticks after `start`, the
/// counter reads `(start + k) mod 2^64`, and exactly `k` ticks are counted
/// as elapsed.
pub proof fn elapsed_ticks_across_wraparound(start: u64, k: u64)
    ensures
        ticks_between(start, ((start + k) % 0x1_0000_0000_0000_0000) as u64) == k,
{
    if start + k >= 0x1_0000_0000_0000_0000 {
        assert((start + k) % 0x1_0000_0000_0000_0000 == start + k - 0x1_0000_0000_0000_0000);
    } else {
        assert((start + k) % 0x1_0000_0000_0000_0000 == start + k);
    }
}

/// A started wait ends exactly when its ticks have elapsed: `k` ticks after
/// the start, [`Delay::is_done`] holds exactly when `k` reaches the wait.
pub proof fn delay_ends_after_its_ticks(d: Delay, k: u64)
    ensures
        (ticks_between(d.start, ((d.start + k) % 0x1_0000_0000_0000_0000) as u64)
            >= d.wait_ticks) == (k >= d.wait_ticks),
{
    elapsed_ticks_across_wraparound(d.start, k);
}

} // verus!
