//! Failures that the conversion engine surfaces to its caller.

use vstd::prelude::*;

verus! {

/// A failure of peripheral setup or of one sampling cycle.
///
/// Every failure is surfaced once, synchronously, to the immediate caller;
/// no retries are built in anywhere.
#[derive(Clone, Copy, Debug, PartialEq, Eq, Structural)]
pub enum Error {
    /// A logical channel code lies outside the closed set that the
    /// positive-input multiplexer can encode.
    UnsupportedChannel,
    /// The bounded busy-wait gave up before the completion event was
    /// observed. Hardware state is left as it was: the caller must not
    /// assume the peripheral is idle.
    Timeout,
    /// The calibration-done event was not observed within the bounded
    /// wait during setup.
    CalibrationTimeout,
    /// The cycle completed, but the number of transferred results differs
    /// from the requested channel count; the buffer contents are not
    /// surfaced as valid data.
    TransferCountMismatch,
}

} // verus!
