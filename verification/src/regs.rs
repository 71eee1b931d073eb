//! The registers of the converter and the fields the protocol uses.
//!
//! A register is a 32-bit word. A field is named by its mask; every flag
//! below is a single bit. The predicates and the few facts about `&`, `|` and
//! `!` that the rest of the crate needs are collected here, so that no other
//! module has to reason about bits.

use vstd::prelude::*;

verus! {

/// A register of the converter.
#[derive(Clone, Copy, Debug, PartialEq, Eq, Structural)]
pub enum Reg {
    /// Interrupt and status flags. A flag is cleared by writing one to it.
    Isr,
    /// Interrupt enables.
    Ier,
    /// Control. A request bit is set by writing one to it and cleared by the
    /// hardware once the request has been served.
    Cr,
    /// Configuration: resolution, alignment, triggers, DMA.
    Cfgr1,
    /// Sampling time.
    Smpr,
    /// Channel selection, one bit per channel.
    Chselr,
    /// Conversion result. Read-only; reading it clears the completion flag.
    Dr,
    /// Common configuration: the switches of the internal sources.
    Ccr,
}

/// Status: the converter is enabled and ready to convert.
pub const ISR_ADRDY: u32 = 0x0000_0001;

/// Status: the sampling phase of a conversion has ended.
pub const ISR_EOSMP: u32 = 0x0000_0002;

/// Status: a conversion has completed and its result is in the data register.
pub const ISR_EOC: u32 = 0x0000_0004;

/// Interrupt enable for the completion flag.
pub const IER_EOCIE: u32 = 0x0000_0004;

/// Control: enable request; reads as one while the converter is enabled.
pub const CR_ADEN: u32 = 0x0000_0001;

/// Control: disable request.
pub const CR_ADDIS: u32 = 0x0000_0002;

/// Control: start of conversion; reads as one while a conversion runs.
pub const CR_ADSTART: u32 = 0x0000_0004;

/// Control: stop request for a running conversion.
pub const CR_ADSTP: u32 = 0x0000_0010;

/// Control: calibration request; reads as one while calibration runs.
pub const CR_ADCAL: u32 = 0x8000_0000;

/// Configuration: results are handed to the DMA controller.
pub const CFGR1_DMAEN: u32 = 0x0000_0001;

/// Configuration: the two bits of the resolution field.
pub const CFGR1_RES: u32 = 0x0000_0018;

/// Configuration: position of the resolution field.
pub const CFGR1_RES_SHIFT: u32 = 3;

/// Sampling time: the three bits of the only field.
pub const SMPR_SMP: u32 = 0x0000_0007;

/// Data: the sixteen bits of the result.
pub const DR_DATA: u32 = 0x0000_ffff;

/// Common configuration: reference voltage switch.
pub const CCR_VREFEN: u32 = 0x0040_0000;

/// Common configuration: temperature sensor switch.
pub const CCR_TSEN: u32 = 0x0080_0000;

/// Common configuration: battery voltage switch.
pub const CCR_VBATEN: u32 = 0x0100_0000;

/// Whether any bit of `mask` is set in `word`.
pub open spec fn is_set(word: u32, mask: u32) -> bool {
    word & mask != 0
}

/// The value of the field `mask` in `word`, in place.
pub open spec fn field(word: u32, mask: u32) -> u32 {
    word & mask
}

/// `word` with the field `mask` replaced by `value`, which is given in place.
pub open spec fn with_field(word: u32, mask: u32, value: u32) -> u32 {
    (word & !mask) | (value & mask)
}

/// Tests a flag.
pub fn probe(word: u32, mask: u32) -> (set: bool)
    ensures
        set == is_set(word, mask),
{
    word & mask != 0
}

/// Replaces a field.
pub fn put(word: u32, mask: u32, value: u32) -> (out: u32)
    ensures
        out == with_field(word, mask, value),
{
    (word & !mask) | (value & mask)
}

/// Setting bits sets them and leaves every other bit alone.
pub proof fn lemma_set(word: u32, bits: u32, mask: u32)
    ensures
        is_set(word | bits, mask) == (is_set(word, mask) || is_set(bits, mask)),
        field(word | bits, mask) == field(word, mask) | field(bits, mask),
{
    assert(((word | bits) & mask != 0) == ((word & mask != 0) || (bits & mask != 0)))
        by (bit_vector);
    assert((word | bits) & mask == (word & mask) | (bits & mask)) by (bit_vector);
}

/// Clearing bits leaves the fields that do not meet them alone, and nothing
/// of the cleared bits remains.
pub proof fn lemma_clear(word: u32, bits: u32, mask: u32)
    ensures
        bits & mask == 0 ==> field(word & !bits, mask) == field(word, mask),
        !is_set(word & !bits, bits),
        is_set(word & !bits, mask) ==> is_set(word, mask),
{
    assert(bits & mask == 0 ==> (word & !bits) & mask == word & mask) by (bit_vector);
    assert((word & !bits) & bits == 0) by (bit_vector);
    assert((word & !bits) & mask != 0 ==> word & mask != 0) by (bit_vector);
}

/// A replaced field holds the new value, and the fields that do not meet it
/// are unchanged.
pub proof fn lemma_with_field(word: u32, mask: u32, value: u32, other: u32)
    ensures
        field(with_field(word, mask, value), mask) == field(value, mask),
        mask & other == 0 ==> field(with_field(word, mask, value), other) == field(word, other),
{
    assert(((word & !mask) | (value & mask)) & mask == value & mask) by (bit_vector);
    assert(mask & other == 0 ==> ((word & !mask) | (value & mask)) & other == word & other)
        by (bit_vector);
}

/// Whether `flag` is one of the single-bit flags of the status, interrupt
/// enable and control registers.
pub open spec fn is_flag(flag: u32) -> bool {
    flag == 0x1 || flag == 0x2 || flag == 0x4 || flag == 0x10 || flag == 0x8000_0000
}

/// How the flags behave when bits are set and cleared: a flag is up after
/// bits have been set if it was up before or is among the bits, and up after
/// bits have been cleared if it was up before and is not among them. No flag
/// is up in zero, and one flag is up in another only if they are the same.
pub proof fn lemma_flags()
    ensures
        forall|word: u32, bits: u32, flag: u32|
            #![trigger is_set(word | bits, flag)]
            is_set(word | bits, flag) == (is_set(word, flag) || is_set(bits, flag)),
        forall|word: u32, bits: u32, flag: u32|
            #![trigger is_set(word & !bits, flag)]
            is_flag(flag) ==> is_set(word & !bits, flag) == (is_set(word, flag) && !is_set(
                bits,
                flag,
            )),
        forall|flag: u32| !#[trigger] is_set(0, flag),
        forall|one: u32, other: u32|
            is_flag(one) && is_flag(other) ==> #[trigger] is_set(one, other) == (one == other),
{
    assert forall|word: u32, bits: u32, flag: u32|
        #![trigger is_set(word | bits, flag)]
        is_set(word | bits, flag) == (is_set(word, flag) || is_set(bits, flag)) by {
        lemma_set(word, bits, flag);
    }
    assert forall|word: u32, bits: u32, flag: u32|
        #![trigger is_set(word & !bits, flag)]
        is_flag(flag) implies is_set(word & !bits, flag) == (is_set(word, flag) && !is_set(
            bits,
            flag,
        )) by {
        assert((flag == 0x1 || flag == 0x2 || flag == 0x4 || flag == 0x10 || flag == 0x8000_0000)
            ==> (((word & !bits) & flag != 0) <==> (word & flag != 0 && bits & flag == 0)))
            by (bit_vector);
    }
    assert forall|flag: u32| !#[trigger] is_set(0, flag) by {
        assert(0u32 & flag == 0) by (bit_vector);
    }
    assert forall|one: u32, other: u32| is_flag(one) && is_flag(other) implies #[trigger] is_set(
        one,
        other,
    ) == (one == other) by {
        assert((one == 0x1 || one == 0x2 || one == 0x4 || one == 0x10 || one == 0x8000_0000) && (
        other == 0x1 || other == 0x2 || other == 0x4 || other == 0x10 || other == 0x8000_0000)
            ==> ((one & other != 0) <==> one == other)) by (bit_vector);
    }
}

} // verus!
