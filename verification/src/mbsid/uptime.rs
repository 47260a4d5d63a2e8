//! Wraparound-safe deadlines on the 1 ms uptime clock, which wraps every
//! ~49.7 days: compare elapsed times, never raw clock readings.
use vstd::prelude::*;

verus! {

/// Milliseconds elapsed from `start_ms` to `now_ms` on a wrapping 32-bit clock.
pub open spec fn elapsed_ms(start_ms: u32, now_ms: u32) -> int {
    (now_ms as int - start_ms as int) % 0x1_0000_0000
}

/// Wraparound-safe deadline check.
pub fn deadline_expired(start_ms: u32, now_ms: u32, limit_ms: u32) -> (r: bool)
    ensures
        r == (elapsed_ms(start_ms, now_ms) >= limit_ms),
{
    now_ms.wrapping_sub(start_ms) >= limit_ms
}

/// Whether a message shown since `set_at` has outlived `ttl_ms`; nothing
/// shown never expires.
pub fn ttl_expired(set_at: Option<u32>, now_ms: u32, ttl_ms: u32) -> (r: bool)
    ensures
        r == (set_at matches Some(t) && elapsed_ms(t, now_ms) >= ttl_ms),
{
    match set_at {
        Some(t) => deadline_expired(t, now_ms, ttl_ms),
        None => false,
    }
}

}
