//! Sample time and resolution, and how each is written into its register.

use vstd::prelude::*;

use crate::regs::{field, lemma_with_field, with_field, CFGR1_RES, CFGR1_RES_SHIFT, SMPR_SMP};

verus! {

/// How long the input is held while it is sampled, in converter clock cycles.
/// Longer is slower and more accurate.
#[allow(non_camel_case_types)]
#[derive(Clone, Copy, Debug, PartialEq, Eq, Structural)]
pub enum SampleTime {
    /// 1.5 cycles.
    Cycles1_5,
    /// 7.5 cycles.
    Cycles7_5,
    /// 13.5 cycles.
    Cycles13_5,
    /// 28.5 cycles.
    Cycles28_5,
    /// 41.5 cycles.
    Cycles41_5,
    /// 55.5 cycles.
    Cycles55_5,
    /// 71.5 cycles.
    Cycles71_5,
    /// 239.5 cycles.
    Cycles239_5,
}

impl SampleTime {
    /// The value of the sampling-time field that selects this setting.
    pub open spec fn code(self) -> u32 {
        match self {
            SampleTime::Cycles1_5 => 0,
            SampleTime::Cycles7_5 => 1,
            SampleTime::Cycles13_5 => 2,
            SampleTime::Cycles28_5 => 3,
            SampleTime::Cycles41_5 => 4,
            SampleTime::Cycles55_5 => 5,
            SampleTime::Cycles71_5 => 6,
            SampleTime::Cycles239_5 => 7,
        }
    }

    /// The setting that a value of the sampling-time field selects.
    pub open spec fn decode(code: u32) -> SampleTime {
        if code == 0 {
            SampleTime::Cycles1_5
        } else if code == 1 {
            SampleTime::Cycles7_5
        } else if code == 2 {
            SampleTime::Cycles13_5
        } else if code == 3 {
            SampleTime::Cycles28_5
        } else if code == 4 {
            SampleTime::Cycles41_5
        } else if code == 5 {
            SampleTime::Cycles55_5
        } else if code == 6 {
            SampleTime::Cycles71_5
        } else {
            SampleTime::Cycles239_5
        }
    }

    /// The sampling-time register `word` with this setting written into it.
    pub open spec fn written(self, word: u32) -> u32 {
        with_field(word, SMPR_SMP, self.code())
    }

    /// The setting that the sampling-time register `word` holds.
    pub open spec fn held(word: u32) -> SampleTime {
        Self::decode(field(word, SMPR_SMP))
    }

    /// The value of the sampling-time field that selects this setting.
    pub fn bits(self) -> (code: u32)
        ensures
            code == self.code(),
            code <= 7,
    {
        match self {
            SampleTime::Cycles1_5 => 0,
            SampleTime::Cycles7_5 => 1,
            SampleTime::Cycles13_5 => 2,
            SampleTime::Cycles28_5 => 3,
            SampleTime::Cycles41_5 => 4,
            SampleTime::Cycles55_5 => 5,
            SampleTime::Cycles71_5 => 6,
            SampleTime::Cycles239_5 => 7,
        }
    }

    /// Writing a setting into the register and reading it back gives the
    /// setting, and touches nothing outside the field.
    pub proof fn lemma_written_is_held(self, word: u32)
        ensures
            Self::held(self.written(word)) == self,
            field(self.written(word), !SMPR_SMP) == field(word, !SMPR_SMP),
    {
        let c = self.code();
        lemma_with_field(word, SMPR_SMP, c, !SMPR_SMP);
        assert(c <= 7 ==> c & 7 == c) by (bit_vector);
        assert(7u32 & !7u32 == 0) by (bit_vector);
    }
}

impl Default for SampleTime {
    /// The shortest sample time.
    fn default() -> (s: SampleTime)
        ensures
            s == SampleTime::Cycles1_5,
    {
        SampleTime::Cycles1_5
    }
}

/// The width of the result of a conversion.
#[derive(Clone, Copy, Debug, PartialEq, Eq, Structural)]
pub enum Resolution {
    /// Twelve bits: results up to 4095.
    TwelveBit,
    /// Ten bits: results up to 1023.
    TenBit,
    /// Eight bits: results up to 255.
    EightBit,
    /// Six bits: results up to 63.
    SixBit,
}

impl Resolution {
    /// The number of bits of a result.
    pub open spec fn width(self) -> nat {
        match self {
            Resolution::TwelveBit => 12,
            Resolution::TenBit => 10,
            Resolution::EightBit => 8,
            Resolution::SixBit => 6,
        }
    }

    /// The largest result: two to the power of the width, less one.
    pub open spec fn max_code(self) -> u16 {
        match self {
            Resolution::TwelveBit => 4095,
            Resolution::TenBit => 1023,
            Resolution::EightBit => 255,
            Resolution::SixBit => 63,
        }
    }

    /// The value of the resolution field that selects this resolution.
    pub open spec fn code(self) -> u32 {
        match self {
            Resolution::TwelveBit => 0,
            Resolution::TenBit => 1,
            Resolution::EightBit => 2,
            Resolution::SixBit => 3,
        }
    }

    /// The resolution that a value of the resolution field selects.
    pub open spec fn decode(code: u32) -> Resolution {
        if code == 0 {
            Resolution::TwelveBit
        } else if code == 1 {
            Resolution::TenBit
        } else if code == 2 {
            Resolution::EightBit
        } else {
            Resolution::SixBit
        }
    }

    /// The configuration register `word` with this resolution written into it.
    pub open spec fn written(self, word: u32) -> u32 {
        with_field(word, CFGR1_RES, self.code() << CFGR1_RES_SHIFT)
    }

    /// The resolution that the configuration register `word` holds.
    pub open spec fn held(word: u32) -> Resolution {
        Self::decode(field(word, CFGR1_RES) >> CFGR1_RES_SHIFT)
    }

    /// The number of bits of a result.
    pub fn bit_width(self) -> (w: u8)
        ensures
            w == self.width(),
    {
        match self {
            Resolution::TwelveBit => 12,
            Resolution::TenBit => 10,
            Resolution::EightBit => 8,
            Resolution::SixBit => 6,
        }
    }

    /// The largest result at this resolution.
    pub fn to_max_count(self) -> (m: u16)
        ensures
            m == self.max_code(),
            m + 1 == vstd::arithmetic::power2::pow2(self.width()),
    {
        proof {
            vstd::arithmetic::power2::lemma2_to64();
        }
        match self {
            Resolution::TwelveBit => 4095,
            Resolution::TenBit => 1023,
            Resolution::EightBit => 255,
            Resolution::SixBit => 63,
        }
    }

    /// The value of the resolution field that selects this resolution.
    pub fn bits(self) -> (code: u32)
        ensures
            code == self.code(),
            code <= 3,
    {
        match self {
            Resolution::TwelveBit => 0,
            Resolution::TenBit => 1,
            Resolution::EightBit => 2,
            Resolution::SixBit => 3,
        }
    }

    /// Writing a resolution into the register and reading it back gives the
    /// resolution, and touches nothing outside the field.
    pub proof fn lemma_written_is_held(self, word: u32)
        ensures
            Self::held(self.written(word)) == self,
            field(self.written(word), !CFGR1_RES) == field(word, !CFGR1_RES),
    {
        let c = self.code();
        lemma_with_field(word, CFGR1_RES, c << CFGR1_RES_SHIFT, !CFGR1_RES);
        assert(c <= 3 ==> ((c << 3) & 0x18) >> 3 == c) by (bit_vector);
        assert(0x18u32 & !0x18u32 == 0) by (bit_vector);
    }
}

impl Default for Resolution {
    /// Twelve bits, which is also what the converter resets to.
    fn default() -> (r: Resolution)
        ensures
            r == Resolution::TwelveBit,
    {
        Resolution::TwelveBit
    }
}

} // verus!
