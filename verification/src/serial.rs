//! Serial interface (USART1, TX on PA9, RX on PA10): the baud rate register
//! value and the decisions taken on the status flags.
use vstd::prelude::*;
use crate::cast_checked::{u16_from_u32, u8_from_u16};
use crate::frequency::APB2;

verus! {

/// An error of the serial interface: no byte to read, or a write that would
/// overrun the transmit buffer.
pub struct Error {
    _0: (),
}

/// The USART clock divided by the baud rate: the value of the baud rate
/// register, in sixteenths of the USART divider.
pub open spec fn divider(baud_rate: u32) -> int {
    APB2 as int / baud_rate as int
}

/// Whether `baud_rate` can be programmed: it is not zero and its divider fits
/// in the 16-bit baud rate register.
pub open spec fn valid_baud_rate(baud_rate: u32) -> bool {
    baud_rate > 0 && APB2 as int / baud_rate as int <= u16::MAX
}

/// The baud rate register holds the USART clock over the baud rate: a value
/// `brr` of `mantissa * 16 + fraction` programs a baud rate of `APB2 / brr`,
/// and when `brr` is the clock divided by `baud_rate`, rounded down, that
/// rate is `baud_rate` up to the rounding: `brr * baud_rate <= APB2 <
/// (brr + 1) * baud_rate`.
pub proof fn lemma_register_gives_baud_rate(baud_rate: u32, mantissa: int, fraction: int)
    requires
        baud_rate > 0,
        0 <= fraction < 16,
        mantissa * 16 + fraction == APB2 as int / baud_rate as int,
    ensures
        (mantissa * 16 + fraction) * baud_rate <= APB2,
        APB2 < (mantissa * 16 + fraction + 1) * baud_rate,
{
    let brr = mantissa * 16 + fraction;
    assert(brr * baud_rate <= APB2 < (brr + 1) * baud_rate) by (nonlinear_arith)
        requires
            baud_rate > 0,
            brr == 8_000_000int / baud_rate as int,
    ;
}

/// The mantissa and fraction fields of the baud rate register for
/// `baud_rate` bits per second: the integer and sixteenths parts of the
/// divider, so that `mantissa * 16 + fraction` is the divider.
pub fn baud_rate_fields(baud_rate: u32) -> (r: (u16, u8))
    requires
        valid_baud_rate(baud_rate),
    ensures
        r.0 == divider(baud_rate) / 16,
        r.1 == divider(baud_rate) % 16,
        r.0 * 16 + r.1 == divider(baud_rate),
        r.0 * 16 + r.1 == APB2 as int / baud_rate as int,
        (r.0 * 16 + r.1) * baud_rate <= APB2,
        APB2 < (r.0 * 16 + r.1 + 1) * baud_rate,
        r.0 < 4096,
        r.1 < 16,
{
    let brr = u16_from_u32(APB2 / baud_rate).unwrap();
    let mantissa = brr >> 4;
    let low = brr & 0b1111;
    assert(mantissa == brr / 16 && low == brr % 16) by (bit_vector)
        requires
            mantissa == brr >> 4,
            low == brr & 0b1111,
    ;
    let fraction = u8_from_u16(low).unwrap();
    proof {
        lemma_register_gives_baud_rate(baud_rate, mantissa as int, fraction as int);
    }
    (mantissa, fraction)
}

/// The outcome of a read, given the RX-not-empty flag (`rxne`) of the status
/// register: a byte is there to be read from the data register exactly when
/// the flag is set.
pub fn read_status(rxne: u8) -> (r: Result<(), Error>)
    ensures
        r is Ok <==> rxne == 1,
{
    if rxne == 1 {
        Ok(())
    } else {
        Err(Error { _0: () })
    }
}

/// The outcome of a write, given the TX-empty flag (`txe`) of the status
/// register: the byte may go to the data register exactly when the flag is
/// set, and otherwise the write would overrun the transmit buffer.
pub fn write_status(txe: u8) -> (r: Result<(), Error>)
    ensures
        r is Ok <==> txe == 1,
{
    if txe == 1 {
        Ok(())
    } else {
        Err(Error { _0: () })
    }
}

} // verus!
