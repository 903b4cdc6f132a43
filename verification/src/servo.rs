//! Servo output on PA0 (TIM2 channel 1 in PWM mode): the counter period and
//! the compare value of a pulse.
use vstd::prelude::*;
use crate::frequency::APB1;

verus! {

/// Frequency of the PWM signal, in Hz.
pub const FREQUENCY: u32 = 300;

/// Timer clock ticks per microsecond.
pub open spec fn ticks_per_us() -> int {
    APB1 as int / 1_000_000
}

/// The auto-reload value: timer clock ticks in one period of the PWM signal.
pub fn period() -> (arr: u16)
    ensures
        arr == APB1 / FREQUENCY,
{
    (APB1 / FREQUENCY) as u16
}

/// The compare value for a pulse of `us` microseconds: the number of timer
/// clock ticks the output stays high in each period. The pulse must not
/// overflow the 16-bit compare register.
pub fn pulse(us: u16) -> (ccr: u16)
    requires
        us * ticks_per_us() <= u16::MAX,
    ensures
        ccr == us * ticks_per_us(),
        ccr == us * (APB1 as int / 1_000_000),
        ccr * 1_000_000 == us * APB1 as int,
{
    let ccr = us * ((APB1 / 1_000_000) as u16);
    assert(ccr * 1_000_000 == us * 8_000_000) by (nonlinear_arith)
        requires
            ccr == us * 8,
    ;
    ccr
}

/// A pulse shorter than the PWM period gives a compare value below the
/// auto-reload value, so that the output goes low again within each period;
/// and the auto-reload value spans the period of `FREQUENCY` to within one
/// clock tick.
pub proof fn lemma_pulse_within_period(us: u16)
    requires
        us * FREQUENCY < 1_000_000,
    ensures
        us * ticks_per_us() < APB1 / FREQUENCY,
        (APB1 / FREQUENCY) * FREQUENCY <= APB1 < (APB1 / FREQUENCY + 1) * FREQUENCY,
{
    assert(us * 8 < 26666) by (nonlinear_arith)
        requires
            us * 300 < 1_000_000,
    ;
}

} // verus!
