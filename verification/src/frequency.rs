//! Clock frequencies of the buses, in Hz, as the board runs out of reset
//! (internal 8 MHz oscillator, no PLL, no bus prescaling).
use vstd::prelude::*;

verus! {

/// Frequency of the APB1 bus clock, which feeds the basic and general purpose
/// timers.
pub const APB1: u32 = 8_000_000;

/// Frequency of the APB2 bus clock, which feeds USART1.
pub const APB2: u32 = 8_000_000;

} // verus!
