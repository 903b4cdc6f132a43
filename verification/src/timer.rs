//! Periodic timer (TIM7): the prescaler and auto-reload values that give a
//! timeout of a requested frequency, and the decisions taken on the update
//! flag.
use vstd::prelude::*;
use crate::cast_checked::{u16_from_u32, u32_from_u16};
use crate::frequency::APB1;

verus! {

/// An error of the timer.
pub enum Error {
    /// No update event has occurred yet.
    WouldBlock,
    /// Reserved, so that more errors may be added later.
    _Extensible,
}

/// The state of a poll: done with a value, or not done yet.
pub enum Async<T> {
    /// The operation completed.
    Ready(T),
    /// The operation has not completed; poll again later.
    NotReady,
}

/// Timer clock ticks in one period of the requested frequency.
pub open spec fn ratio(frequency: u32) -> int {
    APB1 as int / frequency as int
}

/// The prescaler chosen for `frequency`: the smallest one with which the
/// period fits the 16-bit counter.
pub open spec fn prescaler(frequency: u32) -> int {
    (ratio(frequency) - 1) / (u16::MAX as int)
}

/// The period counted in prescaled ticks, rounded to the nearest whole tick.
pub open spec fn prescaled_period(frequency: u32) -> int {
    (ratio(frequency) + (prescaler(frequency) + 1) / 2) / (prescaler(frequency) + 1)
}

/// The auto-reload value chosen for `frequency`. The counter runs from zero
/// to the auto-reload value, so an update event comes every `arr + 1`
/// prescaled ticks: the auto-reload value is one less than the rounded
/// period, and never zero (a zero auto-reload value stops the counter).
pub open spec fn reload(frequency: u32) -> int {
    if prescaled_period(frequency) > 1 {
        prescaled_period(frequency) - 1
    } else {
        1
    }
}

/// Timer clock cycles between two update events: `(psc + 1) * (arr + 1)`.
pub open spec fn update_period(frequency: u32) -> int {
    (prescaler(frequency) + 1) * (reload(frequency) + 1)
}

/// For every frequency that `init_values` accepts, the prescaler and the
/// auto-reload value fit in 16 bits and the auto-reload value is positive.
/// Whenever the period is at least two clock cycles, the update period is
/// the one nearest to the requested period that the prescaler allows: it is
/// within half a prescaled tick of it, and exactly equal to it when the
/// prescaler divides it. The one period shorter than two cycles (a frequency
/// equal to the timer clock) gets the shortest period the counter can run,
/// two cycles.
pub proof fn lemma_period_fits(frequency: u32)
    requires
        0 < frequency <= APB1,
    ensures
        0 <= prescaler(frequency) <= u16::MAX,
        1 <= prescaled_period(frequency) <= u16::MAX,
        1 <= reload(frequency) <= u16::MAX,
        ratio(frequency) >= 2 ==> update_period(frequency) - (prescaler(frequency) + 1) / 2
            <= ratio(frequency),
        ratio(frequency) >= 2 ==> ratio(frequency) < update_period(frequency) + (prescaler(
            frequency,
        ) + 1) - (prescaler(frequency) + 1) / 2,
        ratio(frequency) >= 2 && ratio(frequency) % (prescaler(frequency) + 1) == 0
            ==> update_period(frequency) == ratio(frequency),
        ratio(frequency) == 1 ==> update_period(frequency) == 2,
{
    let r = ratio(frequency);
    let p = prescaler(frequency);
    let h = (p + 1) / 2;
    let n = prescaled_period(frequency);
    assert(1 <= r <= APB1) by (nonlinear_arith)
        requires
            r == APB1 as int / frequency as int,
            0 < frequency <= APB1,
    ;
    assert(0 <= p <= r - 1 && r <= 65535 * (p + 1) && 65535 * p <= r - 1) by (nonlinear_arith)
        requires
            p == (r - 1) / 65535,
            r >= 1,
    ;
    assert(p <= 65535) by (nonlinear_arith)
        requires
            p == (r - 1) / 65535,
            1 <= r <= 8_000_000,
    ;
    assert(0 <= h < p + 1 && 2 * h <= p + 1);
    assert((p + 1) * n <= r + h < (p + 1) * (n + 1)) by (nonlinear_arith)
        requires
            n == (r + h) / (p + 1),
            p >= 0,
            h >= 0,
    ;
    assert(1 <= n <= 65535) by (nonlinear_arith)
        requires
            (p + 1) * n <= r + h,
            r + h < (p + 1) * (n + 1),
            r <= 65535 * (p + 1),
            0 <= h < p + 1,
            p + 1 <= r,
            p >= 0,
    ;
    if r >= 2 {
        assert(n >= 2) by (nonlinear_arith)
            requires
                r + h < (p + 1) * (n + 1),
                r >= 2,
                65535 * p <= r - 1,
                0 <= h,
                p >= 0,
                n >= 1,
        ;
        assert(reload(frequency) == n - 1);
        assert(update_period(frequency) == (p + 1) * n);
        assert((p + 1) * (n + 1) == (p + 1) * n + (p + 1)) by (nonlinear_arith);
        if r % (p + 1) == 0 {
            assert((p + 1) * n == r) by (nonlinear_arith)
                requires
                    r % (p + 1) == 0,
                    (p + 1) * n <= r + h,
                    r + h < (p + 1) * (n + 1),
                    0 <= h < p + 1,
                    p >= 0,
            ;
        }
    } else {
        assert(p == 0 && h == 0 && n == 1);
    }
}

/// The prescaler and auto-reload values that make the timer time out
/// periodically at `frequency` Hz: the prescaler is the smallest with which
/// the period fits the 16-bit counter, and the auto-reload value gives the
/// update period nearest to the requested one. A frequency of zero (a
/// division by zero) or above the timer clock (an empty period) is not
/// accepted.
pub fn init_values(frequency: u32) -> (r: (u16, u16))
    requires
        0 < frequency <= APB1,
    ensures
        r.0 == prescaler(frequency),
        r.1 == reload(frequency),
        65535 * r.0 < (APB1 as int / frequency as int) <= 65535 * (r.0 + 1),
        r.1 >= 1,
        (APB1 as int / frequency as int) >= 2 ==> (r.0 + 1) * (r.1 + 1) - (r.0 + 1) / 2
            <= (APB1 as int / frequency as int),
        (APB1 as int / frequency as int) >= 2 ==> (APB1 as int / frequency as int) < (r.0 + 1) * (
        r.1 + 1) + (r.0 + 1) - (r.0 + 1) / 2,
        (APB1 as int / frequency as int) >= 2 && (APB1 as int / frequency as int) % (r.0 + 1) == 0
            ==> (r.0 + 1) * (r.1 + 1) == (APB1 as int / frequency as int),
        (APB1 as int / frequency as int) == 1 ==> r.1 == 1,
{
    proof {
        lemma_period_fits(frequency);
    }
    let ratio = APB1 / frequency;
    let psc = u16_from_u32((ratio - 1) / u32_from_u16(u16::MAX)).unwrap();
    let ticks = u32_from_u16(psc) + 1;
    let period = u16_from_u32((ratio + ticks / 2) / ticks).unwrap();
    let arr = if period > 1 {
        period - 1
    } else {
        1
    };
    (psc, arr)
}

/// Whether a wait on update interrupt flag `uif` reports an update event,
/// and so asks for the status register to be cleared.
pub open spec fn wait_clears(uif: u8) -> bool {
    uif != 0
}

/// The update interrupt flag after a wait has been acted on: cleared when
/// the wait asked for it (`clear`), as it was otherwise.
pub open spec fn flag_after(uif: u8, clear: bool) -> u8 {
    if clear {
        0
    } else {
        uif
    }
}

/// The outcome of waiting for a timeout, given the update interrupt flag
/// (`uif`) of the status register: `WouldBlock` while the flag is clear, and
/// otherwise `Ok` together with the instruction to clear the status register
/// (the second component), so that the event is reported once.
pub fn wait_status(uif: u8) -> (r: (Result<(), Error>, bool))
    ensures
        uif == 0 ==> r.0 == Err::<(), Error>(Error::WouldBlock),
        uif != 0 ==> r.0 == Ok::<(), Error>(()),
        r.1 == wait_clears(uif),
        r.1 <==> r.0 is Ok,
        r.0 is Ok ==> flag_after(uif, r.1) == 0,
        r.0 is Err ==> flag_after(uif, r.1) == uif,
{
    if uif == 0 {
        (Err(Error::WouldBlock), false)
    } else {
        (Ok(()), true)
    }
}

/// One update event gives at most one `Ok`: once a wait has reported it and
/// the status register has been cleared as the wait asked, the next wait
/// blocks until the hardware raises the flag again; a wait that blocked
/// leaves the flag as it was.
pub proof fn lemma_one_ok_per_event(uif: u8)
    ensures
        wait_clears(uif) ==> !wait_clears(flag_after(uif, wait_clears(uif))),
        !wait_clears(uif) ==> flag_after(uif, wait_clears(uif)) == uif,
{
}

/// Turns the outcome of a non-blocking operation into the outcome of a poll:
/// `WouldBlock` means not ready yet, any other error is passed on.
pub fn try_nb<T>(r: Result<T, Error>) -> (p: Result<Async<T>, Error>)
    ensures
        r matches Ok(t) ==> p == Ok::<Async<T>, Error>(Async::Ready(t)),
        r matches Err(Error::WouldBlock) ==> p == Ok::<Async<T>, Error>(Async::NotReady),
        r matches Err(Error::_Extensible) ==> p == Err::<Async<T>, Error>(Error::_Extensible),
{
    match r {
        Ok(t) => Ok(Async::Ready(t)),
        Err(Error::WouldBlock) => Ok(Async::NotReady),
        Err(e) => Err(e),
    }
}

} // verus!
