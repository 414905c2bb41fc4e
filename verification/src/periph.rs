//! Plain-value model of the converter's memory-mapped register block.
//!
//! The real register block is an external collaborator that software can
//! only write fields into and poll events out of. This module models the
//! fields the driver reads and writes, and the one thing the driver can
//! never see directly: what the hardware behind those registers will do.
//! That behaviour is carried as a programmable agenda — the codes the next
//! conversion transfers, how many completion polls it takes, and how many
//! polls calibration takes — so the engine above is verified for every
//! behaviour the agenda can express, and the hardware side (a test bench
//! or the register binding of an application) decides what actually
//! happens.

use vstd::prelude::*;

use crate::channel::PSEL_NC;
use crate::config::{Gain, Reference, Resistor, Resolution, Oversample, Time};

verus! {

/// Largest element count the transfer-count register can hold.
pub const MAX_TRANSFER: usize = 0xFFFF;

/// Configuration registers of one channel slot.
#[derive(Clone, Copy, Debug, PartialEq, Eq, Structural)]
pub struct ChanCfg {
    /// Reference-voltage selector.
    pub refsel: Reference,
    /// Gain selector.
    pub gain: Gain,
    /// Acquisition-time selector.
    pub tacq: Time,
    /// Single-ended mode (the negative input is ignored).
    pub mode_se: bool,
    /// Resistor network on the positive input.
    pub resp: Resistor,
    /// Whether the negative-input resistor network is bypassed.
    pub resn_bypass: bool,
    /// Whether burst accumulation (oversampling without per-sample tasks)
    /// is enabled.
    pub burst: bool,
    /// Positive-input-select encoding; `PSEL_NC` leaves the slot disabled.
    pub pselp: u8,
    /// Negative-input-select encoding; always `PSEL_NC` here, as the
    /// engine drives single-ended conversions only.
    pub pseln: u8,
}

impl ChanCfg {
    /// The power-on state of one channel slot: everything at its first
    /// encoding and both inputs not connected.
    pub open spec fn spec_reset() -> ChanCfg {
        ChanCfg {
            refsel: Reference::Internal,
            gain: Gain::Gain1_6,
            tacq: Time::Us10,
            mode_se: false,
            resp: Resistor::Bypass,
            resn_bypass: false,
            burst: false,
            pselp: PSEL_NC,
            pseln: PSEL_NC,
        }
    }

    /// Returns the power-on state of one channel slot.
    pub fn reset() -> (c: ChanCfg)
        ensures
            c == ChanCfg::spec_reset(),
    {
        ChanCfg {
            refsel: Reference::Internal,
            gain: Gain::Gain1_6,
            tacq: Time::Us10,
            mode_se: false,
            resp: Resistor::Bypass,
            resn_bypass: false,
            burst: false,
            pselp: PSEL_NC,
            pseln: PSEL_NC,
        }
    }
}

/// Mathematical state of the modeled peripheral: the register fields the
/// driver touches, and the programmed agenda of the hardware behind them.
#[verifier::ext_equal]
pub struct PeriphView {
    /// Whether the peripheral is enabled.
    pub enabled: bool,
    /// Resolution register.
    pub resolution: Resolution,
    /// Oversample register.
    pub oversample: Oversample,
    /// Whether the sample-rate register selects task-driven sampling
    /// (as opposed to an internal timer).
    pub samplerate_task_mode: bool,
    /// The eight channel-slot configurations.
    pub ch: Seq<ChanCfg>,
    /// Calibration-done event flag.
    pub events_calibratedone: bool,
    /// End-of-conversion event flag.
    pub events_end: bool,
    /// Whether the end-of-conversion interrupt is enabled.
    pub inten_end: bool,
    /// Programmed maximum element count of the result transfer.
    pub result_maxcnt: u16,
    /// Number of elements the last completed transfer wrote.
    pub result_amount: u16,
    /// The memory region behind the programmed result pointer: the codes
    /// the last completed transfer wrote there.
    pub dma_buf: Seq<i16>,
    /// Whether a calibration cycle is running.
    pub calib_pending: bool,
    /// How many calibration-done polls the running or next calibration
    /// cycle returns false before the event appears.
    pub calib_latency: u32,
    /// Whether the start task has armed the result transfer.
    pub started: bool,
    /// Whether a triggered conversion cycle is in flight.
    pub conv_pending: bool,
    /// How many end-event polls the in-flight or next conversion returns
    /// false before it completes.
    pub conv_latency: u32,
    /// The codes the in-flight or next conversion transfers on completion.
    pub next_values: Seq<i16>,
}

impl PeriphView {
    /// Well-formedness of the model: eight channel slots, a transfer
    /// count that matches the transferred region, and an agenda whose
    /// element count fits the transfer-count register.
    pub open spec fn wf(self) -> bool {
        &&& self.ch.len() == 8
        &&& self.dma_buf.len() == self.result_amount as nat
        &&& self.next_values.len() <= MAX_TRANSFER as nat
    }

    /// The power-on state of the whole peripheral.
    pub open spec fn spec_reset() -> PeriphView {
        PeriphView {
            enabled: false,
            resolution: Resolution::Bits8,
            oversample: Oversample::Bypass,
            samplerate_task_mode: true,
            ch: Seq::new(8, |i: int| ChanCfg::spec_reset()),
            events_calibratedone: false,
            events_end: false,
            inten_end: false,
            result_maxcnt: 0,
            result_amount: 0,
            dma_buf: Seq::empty(),
            calib_pending: false,
            calib_latency: 0,
            started: false,
            conv_pending: false,
            conv_latency: 0,
            next_values: Seq::empty(),
        }
    }

    /// Whether the next end-event poll observes completion: either the
    /// event is already set, or an in-flight conversion is about to
    /// complete.
    pub open spec fn end_observable(self) -> bool {
        self.events_end || (self.conv_pending && self.conv_latency == 0)
    }

    /// The element count that the poll observing completion reads from
    /// the transfer-count register.
    pub open spec fn observed_amount(self) -> nat {
        if self.events_end {
            self.result_amount as nat
        } else {
            self.next_values.len()
        }
    }

    /// The codes that stand in the transferred region once completion is
    /// observed.
    pub open spec fn observed_codes(self) -> Seq<i16> {
        if self.events_end {
            self.dma_buf
        } else {
            self.next_values
        }
    }

    /// Whether the next calibration-done poll observes the event.
    pub open spec fn calib_observable(self) -> bool {
        self.events_calibratedone || (self.calib_pending && self.calib_latency == 0)
    }
}

/// The modeled peripheral handle.
///
/// Exactly one conversion engine may own it at a time; an engine takes it
/// at construction and hands it back at teardown, so the exclusive
/// ownership of the real singleton peripheral is mirrored by plain move
/// semantics.
pub struct SaadcPeriph {
    /// Whether the peripheral is enabled.
    pub enabled: bool,
    /// Resolution register.
    pub resolution: Resolution,
    /// Oversample register.
    pub oversample: Oversample,
    /// Whether the sample-rate register selects task-driven sampling.
    pub samplerate_task_mode: bool,
    /// The eight channel-slot configurations.
    pub ch: Vec<ChanCfg>,
    /// Calibration-done event flag.
    pub events_calibratedone: bool,
    /// End-of-conversion event flag.
    pub events_end: bool,
    /// Whether the end-of-conversion interrupt is enabled.
    pub inten_end: bool,
    /// Programmed maximum element count of the result transfer.
    pub result_maxcnt: u16,
    /// Number of elements the last completed transfer wrote.
    pub result_amount: u16,
    /// The codes the last completed transfer wrote.
    pub dma_buf: Vec<i16>,
    /// Whether a calibration cycle is running.
    pub calib_pending: bool,
    /// Remaining calibration-done polls before the event appears.
    pub calib_latency: u32,
    /// Whether the start task has armed the result transfer.
    pub started: bool,
    /// Whether a triggered conversion cycle is in flight.
    pub conv_pending: bool,
    /// Remaining end-event polls before the conversion completes.
    pub conv_latency: u32,
    /// The codes the in-flight or next conversion transfers.
    pub next_values: Vec<i16>,
}

impl View for SaadcPeriph {
    type V = PeriphView;

    open spec fn view(&self) -> PeriphView {
        PeriphView {
            enabled: self.enabled,
            resolution: self.resolution,
            oversample: self.oversample,
            samplerate_task_mode: self.samplerate_task_mode,
            ch: self.ch@,
            events_calibratedone: self.events_calibratedone,
            events_end: self.events_end,
            inten_end: self.inten_end,
            result_maxcnt: self.result_maxcnt,
            result_amount: self.result_amount,
            dma_buf: self.dma_buf@,
            calib_pending: self.calib_pending,
            calib_latency: self.calib_latency,
            started: self.started,
            conv_pending: self.conv_pending,
            conv_latency: self.conv_latency,
            next_values: self.next_values@,
        }
    }
}

/// Copies a buffer of raw codes, as the modeled transfer does.
pub(crate) fn copy_codes(src: &Vec<i16>) -> (r: Vec<i16>)
    ensures
        r@ == src@,
{
    let mut r: Vec<i16> = Vec::new();
    let mut i: usize = 0;
    while i < src.len()
        invariant
            i <= src.len(),
            r@ == src@.subrange(0, i as int),
        decreases src.len() - i,
    {
        r.push(src[i]);
        i = i + 1;
        proof {
            assert(r@ =~= src@.subrange(0, i as int));
        }
    }
    proof {
        assert(r@ =~= src@);
    }
    r
}

impl SaadcPeriph {
    /// Returns a peripheral in its power-on state: disabled, no events
    /// set, and a hardware agenda under which calibration completes at
    /// the first poll and a conversion transfers nothing.
    pub fn new() -> (p: SaadcPeriph)
        ensures
            p@ == PeriphView::spec_reset(),
            p@.wf(),
    {
        let mut ch: Vec<ChanCfg> = Vec::new();
        let mut i: usize = 0;
        while i < 8
            invariant
                i <= 8,
                ch@.len() == i as nat,
                forall|j: int| 0 <= j < i ==> ch@[j] == ChanCfg::spec_reset(),
            decreases 8 - i,
        {
            ch.push(ChanCfg::reset());
            i = i + 1;
        }
        let p = SaadcPeriph {
            enabled: false,
            resolution: Resolution::Bits8,
            oversample: Oversample::Bypass,
            samplerate_task_mode: true,
            ch,
            events_calibratedone: false,
            events_end: false,
            inten_end: false,
            result_maxcnt: 0,
            result_amount: 0,
            dma_buf: Vec::new(),
            calib_pending: false,
            calib_latency: 0,
            started: false,
            conv_pending: false,
            conv_latency: 0,
            next_values: Vec::new(),
        };
        proof {
            assert(p@.ch =~= PeriphView::spec_reset().ch);
            assert(p@ =~= PeriphView::spec_reset());
        }
        p
    }

    /// Programs the hardware side of the model: the codes the next
    /// conversion transfers, and how many end-event polls pass before it
    /// completes.
    pub fn set_next_conversion(&mut self, values: Vec<i16>, latency: u32)
        requires
            values@.len() <= MAX_TRANSFER as nat,
        ensures
            final(self)@ == (PeriphView {
                next_values: values@,
                conv_latency: latency,
                ..old(self)@
            }),
    {
        self.next_values = values;
        self.conv_latency = latency;
    }

    /// Programs how many calibration-done polls pass before a triggered
    /// calibration completes.
    pub fn set_calibration_latency(&mut self, polls: u32)
        ensures
            final(self)@ == (PeriphView { calib_latency: polls, ..old(self)@ }),
    {
        self.calib_latency = polls;
    }

    /// Clears the calibration-done event and triggers the
    /// calibrate-offset task.
    pub fn trigger_calibrate(&mut self)
        ensures
            final(self)@ == (PeriphView {
                events_calibratedone: false,
                calib_pending: true,
                ..old(self)@
            }),
    {
        self.events_calibratedone = false;
        self.calib_pending = true;
    }

    /// Triggers the start task, arming the result transfer.
    pub fn fire_start_task(&mut self)
        ensures
            final(self)@ == (PeriphView { started: true, ..old(self)@ }),
    {
        self.started = true;
    }

    /// Triggers the sample task. A conversion cycle begins only when the
    /// transfer has been armed by the start task.
    pub fn fire_sample_task(&mut self)
        ensures
            final(self)@ == (PeriphView {
                conv_pending: old(self)@.conv_pending || old(self)@.started,
                ..old(self)@
            }),
    {
        if self.started {
            self.conv_pending = true;
        }
    }

    /// Reads the calibration-done event once, letting the modeled
    /// hardware advance: a running calibration counts one poll of its
    /// latency down, and completes when none is left.
    pub fn poll_calibrate(&mut self) -> (done: bool)
        ensures
            done == old(self)@.calib_observable(),
            old(self)@.events_calibratedone ==> final(self)@ == old(self)@,
            (!old(self)@.events_calibratedone && old(self)@.calib_pending
                && old(self)@.calib_latency > 0) ==> final(self)@ == (PeriphView {
                calib_latency: (old(self)@.calib_latency - 1) as u32,
                ..old(self)@
            }),
            (!old(self)@.events_calibratedone && old(self)@.calib_pending
                && old(self)@.calib_latency == 0) ==> final(self)@ == (PeriphView {
                events_calibratedone: true,
                calib_pending: false,
                ..old(self)@
            }),
            (!old(self)@.events_calibratedone && !old(self)@.calib_pending)
                ==> final(self)@ == old(self)@,
    {
        if self.events_calibratedone {
            true
        } else if self.calib_pending {
            if self.calib_latency > 0 {
                self.calib_latency = self.calib_latency - 1;
                false
            } else {
                self.events_calibratedone = true;
                self.calib_pending = false;
                true
            }
        } else {
            false
        }
    }

    /// Reads the end-of-conversion event once, letting the modeled
    /// hardware advance: an in-flight conversion counts one poll of its
    /// latency down, and when none is left it transfers the programmed
    /// codes, records the transferred element count, and sets the event.
    pub fn poll_end(&mut self) -> (done: bool)
        requires
            old(self)@.wf(),
        ensures
            final(self)@.wf(),
            done == old(self)@.end_observable(),
            old(self)@.events_end ==> final(self)@ == old(self)@,
            (!old(self)@.events_end && old(self)@.conv_pending
                && old(self)@.conv_latency > 0) ==> final(self)@ == (PeriphView {
                conv_latency: (old(self)@.conv_latency - 1) as u32,
                ..old(self)@
            }),
            (!old(self)@.events_end && old(self)@.conv_pending
                && old(self)@.conv_latency == 0) ==> final(self)@ == (PeriphView {
                events_end: true,
                conv_pending: false,
                started: false,
                dma_buf: old(self)@.next_values,
                result_amount: old(self)@.next_values.len() as u16,
                ..old(self)@
            }),
            (!old(self)@.events_end && !old(self)@.conv_pending)
                ==> final(self)@ == old(self)@,
    {
        if self.events_end {
            true
        } else if self.conv_pending {
            if self.conv_latency > 0 {
                self.conv_latency = self.conv_latency - 1;
                false
            } else {
                self.dma_buf = copy_codes(&self.next_values);
                self.result_amount = self.next_values.len() as u16;
                self.events_end = true;
                self.conv_pending = false;
                self.started = false;
                true
            }
        } else {
            false
        }
    }
}

} // verus!
