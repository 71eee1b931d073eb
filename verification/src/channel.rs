//! Channel numbers, the selection register, and the tokens of the internal
//! sources.
//!
//! A channel is a small number. The converter has one selection bit per
//! channel, and the driver converts one channel at a time, so the word it
//! writes to the selection register has exactly one bit set.

use vstd::prelude::*;

use crate::regs::is_set;
use crate::seal::Sealed;

verus! {

/// The number of channels: channels are numbered from zero to one less.
pub const CHANNELS: u8 = 19;

/// The channel of the temperature sensor.
pub const TEMPERATURE_CHANNEL: u8 = 16;

/// The channel of the internal reference voltage.
pub const VREF_CHANNEL: u8 = 17;

/// The channel of the battery voltage.
pub const VBAT_CHANNEL: u8 = 18;

/// The word of the selection register that selects `channel` and no other.
pub open spec fn selection(channel: u8) -> u32 {
    1u32 << (channel as u32)
}

/// Whether `word`, as a selection register, has `channel` selected.
pub open spec fn selects(word: u32, channel: u8) -> bool {
    is_set(word, selection(channel))
}

/// Computes the selection word of a channel.
pub fn select(channel: u8) -> (word: u32)
    requires
        channel < CHANNELS,
    ensures
        word == selection(channel),
{
    1u32 << (channel as u32)
}

/// A selection word selects its own channel and no other.
pub proof fn lemma_selection_is_exclusive(channel: u8, other: u8)
    requires
        channel < CHANNELS,
        other < CHANNELS,
    ensures
        selects(selection(channel), other) <==> other == channel,
{
    let c = channel as u32;
    let o = other as u32;
    assert(c < 32 && o < 32 ==> (((1u32 << c) & (1u32 << o) != 0) <==> o == c)) by (bit_vector);
}

/// A source inside the chip that the converter can measure. The only values
/// are the tokens that the driver hands out when a source is switched on.
pub trait InternalChannel: Sealed {
    /// The channel the source is wired to.
    spec fn number(&self) -> u8;

    /// The channel the source is wired to.
    fn channel(&self) -> (n: u8)
        ensures
            n == self.number(),
            n < CHANNELS,
    ;
}

/// Proof that the battery voltage has been switched on.
#[derive(Debug)]
pub struct Vbat {
    granted: (),
}

/// Proof that the internal reference voltage has been switched on.
#[derive(Debug)]
pub struct Vref {
    granted: (),
}

/// Proof that the temperature sensor has been switched on.
#[derive(Debug)]
pub struct Temperature {
    granted: (),
}

impl Vbat {
    pub(crate) fn grant() -> Vbat {
        Vbat { granted: () }
    }
}

impl Vref {
    pub(crate) fn grant() -> Vref {
        Vref { granted: () }
    }
}

impl Temperature {
    pub(crate) fn grant() -> Temperature {
        Temperature { granted: () }
    }
}

impl Sealed for Vbat {

}

impl Sealed for Vref {

}

impl Sealed for Temperature {

}

impl InternalChannel for Vbat {
    open spec fn number(&self) -> u8 {
        VBAT_CHANNEL
    }

    fn channel(&self) -> (n: u8) {
        VBAT_CHANNEL
    }
}

impl InternalChannel for Vref {
    open spec fn number(&self) -> u8 {
        VREF_CHANNEL
    }

    fn channel(&self) -> (n: u8) {
        VREF_CHANNEL
    }
}

impl InternalChannel for Temperature {
    open spec fn number(&self) -> u8 {
        TEMPERATURE_CHANNEL
    }

    fn channel(&self) -> (n: u8) {
        TEMPERATURE_CHANNEL
    }
}

} // verus!
