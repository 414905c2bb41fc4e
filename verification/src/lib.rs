//! Driver core for a successive-approximation analog-to-digital converter
//! whose results arrive over direct memory access.
//!
//! The memory-mapped register block itself is an external collaborator:
//! the library works on [`periph::SaadcPeriph`], a plain-value model of
//! that interface that also carries the programmable outcome of the
//! hardware behind it, so the conversion engine, the channel
//! multiplexing and both completion-detection strategies are verified
//! for every hardware behaviour the model can express. Binding the model
//! to a real register block is the surrounding application's concern.

pub mod channel;
pub mod config;
pub mod engine;
pub mod error;
pub mod periph;

pub use channel::{psel_encoding, AnalogPin, Channel, InternalVdd, InternalVddHdiv5};
pub use config::{Gain, Oversample, Reference, Resistor, Resolution, SaadcConfig, Time};
pub use engine::{Saadc, SaadcTask, SamplePoll, POLL_LIMIT};
pub use error::Error;
pub use periph::{ChanCfg, SaadcPeriph};
