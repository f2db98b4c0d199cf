//! Layout of the GPIO register block and the word/bit arithmetic per pin.
//!
//! The block is word addressed: 32-bit words, offsets counted in words. Three
//! register families matter here: function select (ten pins per word, three
//! mode bits per pin, `0b001` drives the pin as an output), set (one bit per
//! pin, write 1 to drive high) and clear (one bit per pin, write 1 to drive
//! low). Set and clear are write-only, so driving a pin never needs a
//! read-modify-write and cannot race another pin's bit; function select is
//! read-modify-write, and the laws below show the update of one pin's mode
//! field leaves every other pin's field alone.

use vstd::prelude::*;

verus! {

/// Highest vendor (BCM) pin number the board offers.
pub const GPIO_MAX_BCM_NUMBER: usize = 27;
/// Pin slots kept by the allocator: one per BCM number from 0 to the maximum.
pub const GPIO_PIN_COUNT: usize = 28;

/// Word offset of GPIO Function Select 0.
pub const GPFSEL0_OFFSET: usize = 0x00;
/// Pins configured per function-select word.
pub const GPFSEL_PINS_PER_REGISTER: usize = 10;
/// Mode bits per pin within a function-select word.
pub const GPFSEL_BITS_PER_PIN: usize = 3;
/// Three-bit mode value that makes a pin drive a voltage (output mode).
pub const OUTPUT_MODE_BITS: u32 = 0b001;
/// Function-select words needed to cover every supported pin.
pub const GPFSEL_WORD_COUNT: usize = 3;

/// Word offset of GPIO Pin Output Set 0 (write 1 to drive high).
pub const GPSET0_OFFSET: usize = 0x1c;
/// Pins per set word.
pub const GPSET_PINS_PER_REGISTER: usize = 32;
/// Word offset of GPIO Pin Output Clear 0 (write 1 to drive low).
pub const GPCLR0_OFFSET: usize = 0x28;
/// Pins per clear word.
pub const GPCLR_PINS_PER_REGISTER: usize = 32;
/// Words the mapped block must cover: through the clear word.
pub const REGISTER_BLOCK_WORDS: usize = 0x29;

/// A pin number the board supports.
pub open spec fn valid_pin(pin: int) -> bool {
    0 <= pin <= GPIO_MAX_BCM_NUMBER
}

/// One word operation on the register block, as the hardware layer must
/// perform it. `Write` is a plain store; `ReadModifyWrite` reads the word,
/// clears the bits of `mask`, ors in `value` and stores the result back.
#[derive(Clone, Copy, PartialEq, Eq, Structural, Debug)]
pub enum RegisterOp {
    Write { offset: usize, value: u32 },
    ReadModifyWrite { offset: usize, mask: u32, value: u32 },
}

/// Word offset of the set register that holds this pin's bit.
pub open spec fn set_offset(pin: int) -> int {
    GPSET0_OFFSET + pin / (GPSET_PINS_PER_REGISTER as int)
}

/// Word offset of the clear register that holds this pin's bit.
pub open spec fn clear_offset(pin: int) -> int {
    GPCLR0_OFFSET + pin / (GPCLR_PINS_PER_REGISTER as int)
}

/// Bit position of the pin within its set or clear word.
pub open spec fn pin_shift(pin: int) -> u32 {
    (pin % (GPSET_PINS_PER_REGISTER as int)) as u32
}

/// The single bit that drives this pin in a set or clear word.
pub open spec fn pin_bit(pin: int) -> u32 {
    1u32 << pin_shift(pin)
}

/// The store that drives the pin high.
pub open spec fn set_high_op(pin: int) -> RegisterOp {
    RegisterOp::Write { offset: set_offset(pin) as usize, value: pin_bit(pin) }
}

/// The store that drives the pin low.
pub open spec fn set_low_op(pin: int) -> RegisterOp {
    RegisterOp::Write { offset: clear_offset(pin) as usize, value: pin_bit(pin) }
}

/// Index of the function-select word that configures this pin.
pub open spec fn fsel_index(pin: int) -> int {
    pin / (GPFSEL_PINS_PER_REGISTER as int)
}

/// Bit position of the pin's three-bit mode field within its word.
pub open spec fn fsel_shift(pin: int) -> u32 {
    ((pin % (GPFSEL_PINS_PER_REGISTER as int)) * (GPFSEL_BITS_PER_PIN as int)) as u32
}

/// The pin's three-bit mode field as configured by this word.
pub open spec fn mode_bits_of(word: u32, pin: int) -> u32 {
    (word >> fsel_shift(pin)) & 7u32
}

/// The word after the pin's mode field is set to output, other fields kept.
pub open spec fn with_output_mode(word: u32, pin: int) -> u32 {
    (word & !(7u32 << fsel_shift(pin))) | (OUTPUT_MODE_BITS << fsel_shift(pin))
}

/// The read-modify-write that configures the pin as an output.
pub open spec fn output_mode_op(pin: int) -> RegisterOp {
    RegisterOp::ReadModifyWrite {
        offset: (GPFSEL0_OFFSET + fsel_index(pin)) as usize,
        mask: 7u32 << fsel_shift(pin),
        value: OUTPUT_MODE_BITS << fsel_shift(pin),
    }
}

/// Law: within the set and clear registers, no supported pin's bit aliases
/// another's. Two distinct pins always land in the same word here, and their
/// shifts differ, so their drive bits are disjoint: a store for one pin can
/// never touch the other pin's bit.
pub proof fn lemma_set_clear_no_alias(p: int, q: int)
    requires
        valid_pin(p),
        valid_pin(q),
        p != q,
    ensures
        set_offset(p) == set_offset(q) ==> pin_shift(p) != pin_shift(q),
        clear_offset(p) == clear_offset(q) ==> pin_shift(p) != pin_shift(q),
        pin_bit(p) & pin_bit(q) == 0,
{
    let pu = pin_shift(p);
    let qu = pin_shift(q);
    assert(pu == p && qu == q);
    assert((1u32 << pu) & (1u32 << qu) == 0) by (bit_vector)
        requires
            pu < 32,
            qu < 32,
            pu != qu,
    ;
}

/// Law: a pin's drive bit is never zero, so each set or clear store really
/// addresses one bit of the word.
pub proof fn lemma_pin_bit_nonzero(p: int)
    requires
        valid_pin(p),
    ensures
        pin_bit(p) != 0,
{
    let pu = pin_shift(p);
    assert(1u32 << pu != 0) by (bit_vector)
        requires
            pu < 32,
    ;
}

/// Law: updating one pin's mode field of a function-select word sets that
/// field to the output configuration and leaves the field of every other pin
/// of the same word untouched, whatever the word held before. The hardware
/// layer applies the same masked update to the live register, so this holds
/// of the device as well, whatever modes the firmware left behind.
pub proof fn lemma_output_mode_word(word: u32, p: int, q: int)
    requires
        valid_pin(p),
        valid_pin(q),
        p != q,
        fsel_index(p) == fsel_index(q),
    ensures
        mode_bits_of(with_output_mode(word, p), p) == OUTPUT_MODE_BITS,
        mode_bits_of(with_output_mode(word, p), q) == mode_bits_of(word, q),
{
    let sp = fsel_shift(p);
    let sq = fsel_shift(q);
    let a = (p % 10) as u32;
    let b = (q % 10) as u32;
    assert(p == 10 * (p / 10) + p % 10) by {
        vstd::arithmetic::div_mod::lemma_fundamental_div_mod(p, 10);
    }
    assert(q == 10 * (q / 10) + q % 10) by {
        vstd::arithmetic::div_mod::lemma_fundamental_div_mod(q, 10);
    }
    assert(a != b);
    assert(sp == 3 * a && sq == 3 * b);
    assert((((word & !(7u32 << sp)) | (1u32 << sp)) >> sp) & 7u32 == 1u32) by (bit_vector)
        requires
            a < 10,
            sp == 3 * a,
    ;
    assert((((word & !(7u32 << sp)) | (1u32 << sp)) >> sq) & 7u32 == (word >> sq) & 7u32)
        by (bit_vector)
        requires
            a < 10,
            b < 10,
            a != b,
            sp == 3 * a,
            sq == 3 * b,
    ;
}

} // verus!
