//! Conversion parameters for the converter: resolution, oversampling,
//! reference, gain, acquisition time and resistor mode, together with the
//! register encoding of each selector and the documented default set.

use vstd::prelude::*;

verus! {

/// Output resolution of one converted sample, in bits.
#[derive(Clone, Copy, Debug, PartialEq, Eq, Structural)]
pub enum Resolution {
    /// 8-bit samples.
    Bits8,
    /// 10-bit samples.
    Bits10,
    /// 12-bit samples.
    Bits12,
    /// 14-bit samples.
    Bits14,
}

impl Resolution {
    /// Value written to the resolution register for this selector.
    pub open spec fn spec_bits(self) -> u8 {
        match self {
            Resolution::Bits8 => 0,
            Resolution::Bits10 => 1,
            Resolution::Bits12 => 2,
            Resolution::Bits14 => 3,
        }
    }

    /// Register encoding of this resolution.
    pub fn bits(self) -> (b: u8)
        ensures
            b == self.spec_bits(),
    {
        match self {
            Resolution::Bits8 => 0,
            Resolution::Bits10 => 1,
            Resolution::Bits12 => 2,
            Resolution::Bits14 => 3,
        }
    }
}

/// How many consecutive raw conversions the hardware averages into one
/// reported result: 2 to the power of the selector's index.
#[derive(Clone, Copy, Debug, PartialEq, Eq, Structural)]
pub enum Oversample {
    /// No averaging: every conversion is reported.
    Bypass,
    /// Average 2 conversions.
    Over2x,
    /// Average 4 conversions.
    Over4x,
    /// Average 8 conversions.
    Over8x,
    /// Average 16 conversions.
    Over16x,
    /// Average 32 conversions.
    Over32x,
    /// Average 64 conversions.
    Over64x,
    /// Average 128 conversions.
    Over128x,
    /// Average 256 conversions.
    Over256x,
}

impl Oversample {
    /// Value written to the oversample register for this selector.
    pub open spec fn spec_bits(self) -> u8 {
        match self {
            Oversample::Bypass => 0,
            Oversample::Over2x => 1,
            Oversample::Over4x => 2,
            Oversample::Over8x => 3,
            Oversample::Over16x => 4,
            Oversample::Over32x => 5,
            Oversample::Over64x => 6,
            Oversample::Over128x => 7,
            Oversample::Over256x => 8,
        }
    }

    /// Register encoding of this oversampling factor.
    pub fn bits(self) -> (b: u8)
        ensures
            b == self.spec_bits(),
    {
        match self {
            Oversample::Bypass => 0,
            Oversample::Over2x => 1,
            Oversample::Over4x => 2,
            Oversample::Over8x => 3,
            Oversample::Over16x => 4,
            Oversample::Over32x => 5,
            Oversample::Over64x => 6,
            Oversample::Over128x => 7,
            Oversample::Over256x => 8,
        }
    }
}

/// Reference voltage against which the input is compared.
#[derive(Clone, Copy, Debug, PartialEq, Eq, Structural)]
pub enum Reference {
    /// The fixed internal reference (0.6 V).
    Internal,
    /// One quarter of the supply voltage.
    Vdd1_4,
}

impl Reference {
    /// Value written to the per-channel reference field for this selector.
    pub open spec fn spec_bits(self) -> u8 {
        match self {
            Reference::Internal => 0,
            Reference::Vdd1_4 => 1,
        }
    }

    /// Register encoding of this reference selector.
    pub fn bits(self) -> (b: u8)
        ensures
            b == self.spec_bits(),
    {
        match self {
            Reference::Internal => 0,
            Reference::Vdd1_4 => 1,
        }
    }
}

/// Gain applied to the input before conversion, controlling the effective
/// input range.
#[derive(Clone, Copy, Debug, PartialEq, Eq, Structural)]
pub enum Gain {
    /// Gain of 1/6.
    Gain1_6,
    /// Gain of 1/5.
    Gain1_5,
    /// Gain of 1/4.
    Gain1_4,
    /// Gain of 1/3.
    Gain1_3,
    /// Gain of 1/2.
    Gain1_2,
    /// Unity gain.
    Gain1,
    /// Gain of 2.
    Gain2,
    /// Gain of 4.
    Gain4,
}

impl Gain {
    /// Value written to the per-channel gain field for this selector.
    pub open spec fn spec_bits(self) -> u8 {
        match self {
            Gain::Gain1_6 => 0,
            Gain::Gain1_5 => 1,
            Gain::Gain1_4 => 2,
            Gain::Gain1_3 => 3,
            Gain::Gain1_2 => 4,
            Gain::Gain1 => 5,
            Gain::Gain2 => 6,
            Gain::Gain4 => 7,
        }
    }

    /// Register encoding of this gain selector.
    pub fn bits(self) -> (b: u8)
        ensures
            b == self.spec_bits(),
    {
        match self {
            Gain::Gain1_6 => 0,
            Gain::Gain1_5 => 1,
            Gain::Gain1_4 => 2,
            Gain::Gain1_3 => 3,
            Gain::Gain1_2 => 4,
            Gain::Gain1 => 5,
            Gain::Gain2 => 6,
            Gain::Gain4 => 7,
        }
    }
}

/// Resistor (pull) network switched onto the positive input.
#[derive(Clone, Copy, Debug, PartialEq, Eq, Structural)]
pub enum Resistor {
    /// No resistor: the input is connected directly.
    Bypass,
    /// Pull the input towards ground.
    Pulldown,
    /// Pull the input towards the supply voltage.
    Pullup,
    /// Hold the input at half the supply voltage.
    Vdd1_2,
}

impl Resistor {
    /// Value written to the per-channel resistor field for this selector.
    pub open spec fn spec_bits(self) -> u8 {
        match self {
            Resistor::Bypass => 0,
            Resistor::Pulldown => 1,
            Resistor::Pullup => 2,
            Resistor::Vdd1_2 => 3,
        }
    }

    /// Register encoding of this resistor mode.
    pub fn bits(self) -> (b: u8)
        ensures
            b == self.spec_bits(),
    {
        match self {
            Resistor::Bypass => 0,
            Resistor::Pulldown => 1,
            Resistor::Pullup => 2,
            Resistor::Vdd1_2 => 3,
        }
    }
}

/// How long the converter samples the input before converting, in
/// microseconds; longer times tolerate higher source impedance.
#[derive(Clone, Copy, Debug, PartialEq, Eq, Structural)]
pub enum Time {
    /// Acquire for 3 microseconds.
    Us3,
    /// Acquire for 5 microseconds.
    Us5,
    /// Acquire for 10 microseconds.
    Us10,
    /// Acquire for 15 microseconds.
    Us15,
    /// Acquire for 20 microseconds.
    Us20,
    /// Acquire for 40 microseconds.
    Us40,
}

impl Time {
    /// Value written to the per-channel acquisition-time field for this
    /// selector.
    pub open spec fn spec_bits(self) -> u8 {
        match self {
            Time::Us3 => 0,
            Time::Us5 => 1,
            Time::Us10 => 2,
            Time::Us15 => 3,
            Time::Us20 => 4,
            Time::Us40 => 5,
        }
    }

    /// Register encoding of this acquisition time.
    pub fn bits(self) -> (b: u8)
        ensures
            b == self.spec_bits(),
    {
        match self {
            Time::Us3 => 0,
            Time::Us5 => 1,
            Time::Us10 => 2,
            Time::Us15 => 3,
            Time::Us20 => 4,
            Time::Us40 => 5,
        }
    }
}

/// Immutable set of conversion parameters handed to the engine at setup.
///
/// The same parameters are written to every channel slot that a cycle uses.
#[derive(Clone, Copy, Debug, PartialEq, Eq, Structural)]
pub struct SaadcConfig {
    /// Output resolution in bits.
    pub resolution: Resolution,
    /// Averaging factor applied before a result is transferred to memory.
    pub oversample: Oversample,
    /// Reference voltage of the converter input.
    pub reference: Reference,
    /// Gain used to control the effective input range.
    pub gain: Gain,
    /// Positive-channel resistor control.
    pub resistor: Resistor,
    /// Acquisition time in microseconds.
    pub time: Time,
}

/// Value of one channel-slot configuration register for the given
/// parameters: the resistor bits in the lowest field, then gain,
/// reference and acquisition time at their documented offsets,
/// single-ended mode with the negative network bypassed (both encoded as
/// zero), and burst accumulation enabled in the highest field.
pub open spec fn spec_channel_config_bits(cfg: SaadcConfig) -> u32 {
    (cfg.resistor.spec_bits() as u32) | ((cfg.gain.spec_bits() as u32) << 8) | ((
    cfg.reference.spec_bits() as u32) << 12) | ((cfg.time.spec_bits() as u32) << 16) | (1u32 << 24)
}

impl SaadcConfig {
    /// Packs these parameters into the value written to a channel-slot
    /// configuration register.
    pub fn channel_config_bits(&self) -> (b: u32)
        ensures
            b == spec_channel_config_bits(*self),
    {
        (self.resistor.bits() as u32) | ((self.gain.bits() as u32) << 8) | ((self.reference.bits()
            as u32) << 12) | ((self.time.bits() as u32) << 16) | (1u32 << 24)
    }

    /// The documented default parameter set: 14-bit resolution, 8-fold
    /// oversampling, supply/4 reference with gain 1/4 (so 0 V reads as the
    /// minimum code and the supply voltage as the maximum), resistor
    /// bypass, and a 20 microsecond acquisition time.
    pub open spec fn spec_default() -> SaadcConfig {
        SaadcConfig {
            resolution: Resolution::Bits14,
            oversample: Oversample::Over8x,
            reference: Reference::Vdd1_4,
            gain: Gain::Gain1_4,
            resistor: Resistor::Bypass,
            time: Time::Us20,
        }
    }
}

impl Default for SaadcConfig {
    /// Returns the documented default parameter set.
    fn default() -> (c: SaadcConfig)
        ensures
            c == SaadcConfig::spec_default(),
    {
        SaadcConfig {
            resolution: Resolution::Bits14,
            oversample: Oversample::Over8x,
            reference: Reference::Vdd1_4,
            gain: Gain::Gain1_4,
            resistor: Resistor::Bypass,
            time: Time::Us20,
        }
    }
}

} // verus!
