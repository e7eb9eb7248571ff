//! Conversion of a duration in milliseconds into SysTick reload ticks.
use vstd::prelude::*;

verus! {

/// Core clock ticks per millisecond at the 12 MHz default core clock.
pub const TICKS_PER_MS: u32 = 12_000;

/// Largest value the 24-bit SysTick reload register holds.
pub const MAX_RELOAD: u32 = 0x00ff_ffff;

/// Longest delay, in milliseconds, whose tick count fits the reload register.
pub const MAX_DELAY_MS: u32 = 1398;

/// Number of ticks the countdown runs for a delay of `ms` milliseconds.
pub open spec fn ticks_of(ms: nat) -> nat {
    TICKS_PER_MS as nat * ms
}

/// Whether a delay of `ms` milliseconds can be programmed into the reload
/// register without losing bits.
pub open spec fn fits_reload(ms: nat) -> bool {
    ticks_of(ms) <= MAX_RELOAD as nat
}

/// The largest representable delay is exactly `MAX_DELAY_MS`.
pub proof fn lemma_fits_reload_bound(ms: nat)
    ensures
        fits_reload(ms) <==> ms <= MAX_DELAY_MS as nat,
{
    if ms <= MAX_DELAY_MS as nat {
        assert(TICKS_PER_MS as nat * ms <= TICKS_PER_MS as nat * MAX_DELAY_MS as nat)
            by (nonlinear_arith)
            requires
                ms <= MAX_DELAY_MS as nat,
        ;
    } else {
        assert(TICKS_PER_MS as nat * ms >= TICKS_PER_MS as nat * (MAX_DELAY_MS as nat + 1))
            by (nonlinear_arith)
            requires
                ms >= MAX_DELAY_MS as nat + 1,
        ;
    }
}

/// The reload value for a delay of `ms` milliseconds: `Some` of exactly
/// `12000 * ms` when that fits the 24-bit register, `None` otherwise.
pub fn reload_for(ms: u32) -> (r: Option<u32>)
    ensures
        r matches Some(v) ==> v as nat == ticks_of(ms as nat),
        r is Some <==> fits_reload(ms as nat),
{
    proof {
        lemma_fits_reload_bound(ms as nat);
    }
    if ms <= MAX_DELAY_MS {
        Some(TICKS_PER_MS * ms)
    } else {
        None
    }
}

} // verus!
