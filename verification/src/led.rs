//! User LEDs (PC8 blue, PC9 green): the words written to the bit set/reset
//! register of port C to drive them.
use vstd::prelude::*;

verus! {

/// A user LED, known by its pin on port C.
pub struct Led {
    i: u8,
}

impl Led {
    /// The pin is in the lower half of the 16 pins of the port.
    #[verifier::type_invariant]
    spec fn inv(&self) -> bool {
        self.i < 16
    }

    /// The LED's pin on port C.
    pub closed spec fn pin(&self) -> u32 {
        self.i as u32
    }

    /// The blue LED (PC8).
    pub fn blue() -> (l: Led)
        ensures
            l.pin() == 8,
    {
        Led { i: 8 }
    }

    /// The green LED (PC9).
    pub fn green() -> (l: Led)
        ensures
            l.pin() == 9,
    {
        Led { i: 9 }
    }

    /// The word whose write to the bit set/reset register turns the LED off:
    /// the reset bit of its pin, in the upper half of the register.
    pub fn off(&self) -> (w: u32)
        ensures
            self.pin() < 16,
            w == 1u32 << (self.pin() + 16u32),
    {
        proof {
            use_type_invariant(self);
        }
        1u32 << (self.i + 16)
    }

    /// The word whose write to the bit set/reset register turns the LED on:
    /// the set bit of its pin, in the lower half of the register.
    pub fn on(&self) -> (w: u32)
        ensures
            self.pin() < 16,
            w == 1u32 << self.pin(),
    {
        proof {
            use_type_invariant(self);
        }
        1u32 << self.i
    }
}

/// The output levels of port C after `word` is written to its bit set/reset
/// register: the lower half of the word sets pins, the upper half clears
/// them, and a pin named in both halves is set.
pub open spec fn after_bsrr(odr: u32, word: u32) -> u32 {
    (odr & !(word >> 16u32)) | (word & 0xffffu32)
}

/// Writing the word of `on` drives the LED's pin high, writing the word of
/// `off` drives it low, and neither write changes any other pin; the two
/// words have no bit in common.
pub proof fn lemma_on_off(odr: u32, pin: u32)
    requires
        pin < 16,
    ensures
        (after_bsrr(odr, 1u32 << pin) >> pin) & 1u32 == 1u32,
        (after_bsrr(odr, 1u32 << (pin + 16u32)) >> pin) & 1u32 == 0u32,
        after_bsrr(odr, 1u32 << pin) & !(1u32 << pin) == odr & !(1u32 << pin),
        after_bsrr(odr, 1u32 << (pin + 16u32)) & !(1u32 << pin) == odr & !(1u32 << pin),
        (1u32 << pin) & (1u32 << (pin + 16u32)) == 0u32,
{
    assert((((odr & !((1u32 << pin) >> 16u32)) | ((1u32 << pin) & 0xffffu32)) >> pin) & 1u32 == 1u32)
        by (bit_vector)
        requires
            pin < 16,
    ;
    assert((((odr & !((1u32 << (pin + 16u32)) >> 16u32)) | ((1u32 << (pin + 16u32)) & 0xffffu32))
        >> pin) & 1u32 == 0u32) by (bit_vector)
        requires
            pin < 16,
    ;
    assert(((odr & !((1u32 << pin) >> 16u32)) | ((1u32 << pin) & 0xffffu32)) & !(1u32 << pin) == odr
        & !(1u32 << pin)) by (bit_vector)
        requires
            pin < 16,
    ;
    assert(((odr & !((1u32 << (pin + 16u32)) >> 16u32)) | ((1u32 << (pin + 16u32)) & 0xffffu32))
        & !(1u32 << pin) == odr & !(1u32 << pin)) by (bit_vector)
        requires
            pin < 16,
    ;
    assert((1u32 << pin) & (1u32 << (pin + 16u32)) == 0u32) by (bit_vector)
        requires
            pin < 16,
    ;
}

} // verus!
