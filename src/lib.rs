//! Busy-wait delays on the Cortex-M SysTick countdown timer.
//!
//! The library holds every decision the firmware makes and proves it: how a
//! duration becomes a reload value, the order in which one delay programs,
//! polls and stops the timer, the text of its diagnostic lines, and the
//! firmware's claim-once, long-short alternation. Touching the registers and
//! the debug console is left to the caller, which performs each requested
//! action and reports back what it observed.
pub mod delay;
pub mod firmware;
pub mod text;
pub mod ticks;
