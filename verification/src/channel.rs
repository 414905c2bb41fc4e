//! Channel resolution: mapping a logical analog source to the positive-input
//! multiplexer encoding, and the capability tokens that name those sources.
//!
//! The domain of logical channel codes is closed: external analog inputs 0
//! through 7, the internal supply-voltage sense, and the internal divided
//! supply sense found on variants with the divider. Any other code is
//! rejected with an explicit error rather than aborting, so that channel
//! indices arriving as runtime values are never a crash surface.

use vstd::prelude::*;

verus! {

/// Logical channel code of the internal supply-voltage sense.
pub const CODE_VDD: u8 = 8;

/// Logical channel code of the internal divided-supply sense (the high
/// supply pin divided by 5, present only on variants with the divider).
pub const CODE_VDDHDIV5: u8 = 13;

/// Positive-input-select encoding for "not connected".
pub const PSEL_NC: u8 = 0;

/// Positive-input-select encoding of the internal supply-voltage sense.
pub const PSEL_VDD: u8 = 9;

/// Positive-input-select encoding of the internal divided-supply sense.
pub const PSEL_VDDHDIV5: u8 = 13;

/// Whether a logical channel code belongs to the closed set of sources the
/// positive-input multiplexer can select.
pub open spec fn psel_valid(code: u8) -> bool {
    code < 8 || code == CODE_VDD || code == CODE_VDDHDIV5
}

/// Positive-input-select encoding of a valid logical channel code: external
/// input `n` encodes as `n + 1` (0 selects "not connected"), and the two
/// internal senses have fixed encodings.
pub open spec fn psel_of(code: u8) -> u8 {
    if code < 8 {
        (code + 1) as u8
    } else if code == CODE_VDD {
        PSEL_VDD
    } else {
        PSEL_VDDHDIV5
    }
}

/// Maps a logical channel code to its positive-input-select encoding, or
/// `None` when the code lies outside the closed set of selectable sources.
pub fn psel_encoding(code: u8) -> (r: Option<u8>)
    ensures
        r is Some <==> psel_valid(code),
        psel_valid(code) ==> r == Some(psel_of(code)),
{
    if code < 8 {
        Some(code + 1)
    } else if code == CODE_VDD {
        Some(PSEL_VDD)
    } else if code == CODE_VDDHDIV5 {
        Some(PSEL_VDDHDIV5)
    } else {
        None
    }
}

/// A capability naming one analog source the engine may sample.
///
/// Implementing types are compile-time tokens: holding a value of one is
/// the permission to select the source it names, and the engine learns
/// nothing of the token but its logical channel code.
pub trait Channel {
    /// The logical channel code that this token names.
    spec fn channel_spec() -> u8;

    /// Returns the logical channel code that this token names.
    fn channel() -> (c: u8)
        ensures
            c == Self::channel_spec(),
    ;
}

/// Capability token for the external analog input `N` (0 through 7).
pub struct AnalogPin<const N: u8>;

impl<const N: u8> Channel for AnalogPin<N> {
    open spec fn channel_spec() -> u8 {
        N
    }

    fn channel() -> u8 {
        N
    }
}

/// Capability token for the channel that samples not a pin but the internal
/// supply voltage.
pub struct InternalVdd;

impl Channel for InternalVdd {
    open spec fn channel_spec() -> u8 {
        CODE_VDD
    }

    fn channel() -> u8 {
        CODE_VDD
    }
}

/// Capability token for the voltage on the high-supply pin, divided by 5.
pub struct InternalVddHdiv5;

impl Channel for InternalVddHdiv5 {
    open spec fn channel_spec() -> u8 {
        CODE_VDDHDIV5
    }

    fn channel() -> u8 {
        CODE_VDDHDIV5
    }
}

} // verus!
