//! The conversion engine: exclusive owner of the peripheral handle, it
//! performs setup and calibration, programs the result transfer for each
//! sampling cycle, triggers the cycle, and detects completion either by a
//! bounded busy-wait or by externally driven polling.

use vstd::prelude::*;

use crate::channel::{psel_encoding, psel_of, psel_valid, Channel, PSEL_NC};
use crate::config::SaadcConfig;
use crate::error::Error;
use crate::periph::{copy_codes, ChanCfg, PeriphView, SaadcPeriph, MAX_TRANSFER};

verus! {

/// Iteration ceiling of every bounded busy-wait on a hardware event.
pub const POLL_LIMIT: u32 = 10_000;

/// The configuration that setup writes into one used channel slot:
/// the shared conversion parameters, single-ended mode with the negative
/// network bypassed, burst accumulation, and the given positive-input
/// selection.
pub open spec fn configured_slot(cfg: SaadcConfig, pselp: u8) -> ChanCfg {
    ChanCfg {
        refsel: cfg.reference,
        gain: cfg.gain,
        tacq: cfg.time,
        mode_se: true,
        resp: cfg.resistor,
        resn_bypass: true,
        burst: true,
        pselp: pselp,
        pseln: PSEL_NC,
    }
}

/// Whether every logical channel code in the sequence can be encoded by
/// the positive-input multiplexer.
pub open spec fn codes_valid(codes: Seq<u8>) -> bool {
    forall|i: int| 0 <= i < codes.len() ==> psel_valid(#[trigger] codes[i])
}

/// The channel-slot contents after setup over the given codes: one
/// configured slot per code, and every remaining slot back at its
/// power-on state, so that no input selected by an earlier owner of the
/// handle stays connected.
pub open spec fn setup_slots(cfg: SaadcConfig, codes: Seq<u8>) -> Seq<ChanCfg> {
    Seq::new(
        8,
        |i: int|
            if 0 <= i < codes.len() {
                configured_slot(cfg, psel_of(codes[i]))
            } else {
                ChanCfg::spec_reset()
            },
    )
}

/// The peripheral state after multi-channel setup: parameters and
/// channel slots written, task-driven sampling selected, the peripheral
/// enabled, the end-of-conversion interrupt enabled, and calibration
/// completed. Fields of the result transfer and of the hardware agenda
/// are untouched.
pub open spec fn spec_setup(v: PeriphView, cfg: SaadcConfig, codes: Seq<u8>) -> PeriphView {
    PeriphView {
        enabled: true,
        resolution: cfg.resolution,
        oversample: cfg.oversample,
        samplerate_task_mode: true,
        ch: setup_slots(cfg, codes),
        events_calibratedone: true,
        calib_pending: false,
        calib_latency: 0,
        inten_end: true,
        ..v
    }
}

/// The peripheral state after one-shot setup: as [`spec_setup`], but only
/// slot 0 is configured and no input is selected yet — each blocking read
/// selects its own input.
pub open spec fn spec_setup_single(v: PeriphView, cfg: SaadcConfig) -> PeriphView {
    PeriphView {
        enabled: true,
        resolution: cfg.resolution,
        oversample: cfg.oversample,
        samplerate_task_mode: true,
        ch: Seq::new(
            8,
            |i: int|
                if i == 0 {
                    configured_slot(cfg, PSEL_NC)
                } else {
                    ChanCfg::spec_reset()
                },
        ),
        events_calibratedone: true,
        calib_pending: false,
        calib_latency: 0,
        ..v
    }
}

/// The peripheral state after teardown: disabled, everything else as the
/// engine left it.
pub open spec fn spec_free(v: PeriphView) -> PeriphView {
    PeriphView { enabled: false, ..v }
}

/// Whether the bounded calibration wait of setup observes the
/// calibration-done event before giving up.
pub open spec fn calib_completes(v: PeriphView) -> bool {
    v.calib_latency < POLL_LIMIT
}

/// Writes the global conversion parameters: resolution, oversampling,
/// and task-driven sampling.
fn write_global_config(p: &mut SaadcPeriph, cfg: SaadcConfig)
    ensures
        final(p)@ == (PeriphView {
            resolution: cfg.resolution,
            oversample: cfg.oversample,
            samplerate_task_mode: true,
            ..old(p)@
        }),
{
    p.resolution = cfg.resolution;
    p.oversample = cfg.oversample;
    p.samplerate_task_mode = true;
}

/// Builds the channel-slot value that setup writes for one used slot.
fn build_slot(cfg: SaadcConfig, pselp: u8) -> (c: ChanCfg)
    ensures
        c == configured_slot(cfg, pselp),
{
    ChanCfg {
        refsel: cfg.reference,
        gain: cfg.gain,
        tacq: cfg.time,
        mode_se: true,
        resp: cfg.resistor,
        resn_bypass: true,
        burst: true,
        pselp: pselp,
        pseln: PSEL_NC,
    }
}

/// Clears the calibration-done event, triggers the calibrate-offset task,
/// and busy-waits for the event with a bounded number of polls, so that a
/// hardware fault during calibration cannot hang initialization forever.
fn calibrate(p: &mut SaadcPeriph, limit: u32) -> (ok: bool)
    ensures
        ok == (old(p)@.calib_latency < limit),
        ok ==> final(p)@ == (PeriphView {
            events_calibratedone: true,
            calib_pending: false,
            calib_latency: 0,
            ..old(p)@
        }),
        !ok ==> final(p)@ == (PeriphView {
            events_calibratedone: false,
            calib_pending: true,
            calib_latency: (old(p)@.calib_latency - limit) as u32,
            ..old(p)@
        }),
{
    p.trigger_calibrate();
    let ghost triggered = p@;
    let mut count: u32 = 0;
    while count < limit
        invariant
            count <= limit,
            count <= triggered.calib_latency,
            triggered == (PeriphView {
                events_calibratedone: false,
                calib_pending: true,
                ..old(p)@
            }),
            p@ == (PeriphView {
                calib_latency: (triggered.calib_latency - count) as u32,
                ..triggered
            }),
        decreases limit - count,
    {
        if p.poll_calibrate() {
            return true;
        }
        count = count + 1;
    }
    false
}

/// Busy-waits for the end-of-conversion event of an in-flight cycle with
/// a bounded number of polls. On success the modeled transfer has landed;
/// on timeout the cycle is still in flight and hardware state is left as
/// it stands.
fn wait_end(p: &mut SaadcPeriph, limit: u32) -> (ok: bool)
    requires
        old(p)@.wf(),
        !old(p)@.events_end,
        old(p)@.conv_pending,
    ensures
        final(p)@.wf(),
        ok == (old(p)@.conv_latency < limit),
        ok ==> final(p)@ == (PeriphView {
            events_end: true,
            conv_pending: false,
            started: false,
            conv_latency: 0,
            dma_buf: old(p)@.next_values,
            result_amount: old(p)@.next_values.len() as u16,
            ..old(p)@
        }),
        !ok ==> final(p)@ == (PeriphView {
            conv_latency: (old(p)@.conv_latency - limit) as u32,
            ..old(p)@
        }),
{
    let ghost entry = p@;
    let mut count: u32 = 0;
    while count < limit
        invariant
            p@.wf(),
            entry == old(p)@,
            entry.wf(),
            !entry.events_end,
            entry.conv_pending,
            count <= limit,
            count <= entry.conv_latency,
            p@ == (PeriphView {
                conv_latency: (entry.conv_latency - count) as u32,
                ..entry
            }),
        decreases limit - count,
    {
        if p.poll_end() {
            return true;
        }
        count = count + 1;
    }
    false
}

/// The simple blocking engine: owns the peripheral, samples one channel
/// per call over slot 0, and busy-waits for each result with a bounded
/// number of polls.
pub struct Saadc {
    p: SaadcPeriph,
}

impl View for Saadc {
    type V = PeriphView;

    closed spec fn view(&self) -> PeriphView {
        self.p@
    }
}

impl Saadc {
    /// Takes exclusive ownership of the peripheral, writes the conversion
    /// parameters, configures slot 0 for single-ended conversions, and
    /// calibrates. Fails only when the calibration-done event is not
    /// observed within the bounded wait; channel selection happens per
    /// read.
    pub fn new(saadc: SaadcPeriph, config: SaadcConfig) -> (r: Result<Saadc, Error>)
        requires
            saadc@.wf(),
        ensures
            r is Ok <==> calib_completes(saadc@),
            r matches Ok(s) ==> s@ == spec_setup_single(saadc@, config) && s@.wf(),
            r is Err ==> r == Err::<Saadc, Error>(Error::CalibrationTimeout),
    {
        let ghost old_view = saadc@;
        let mut p = saadc;
        write_global_config(&mut p, config);
        let slot0 = build_slot(config, PSEL_NC);
        p.ch[0] = slot0;
        let mut idx: usize = 1;
        while idx < 8
            invariant
                1 <= idx <= 8,
                p@ == (PeriphView {
                    resolution: config.resolution,
                    oversample: config.oversample,
                    samplerate_task_mode: true,
                    ch: p@.ch,
                    ..old_view
                }),
                p@.ch.len() == 8,
                p@.ch[0] == configured_slot(config, PSEL_NC),
                forall|j: int| 1 <= j < idx ==> p@.ch[j] == ChanCfg::spec_reset(),
                forall|j: int| idx <= j < 8 ==> p@.ch[j] == old_view.ch[j],
            decreases 8 - idx,
        {
            p.ch[idx] = ChanCfg::reset();
            idx = idx + 1;
        }
        p.enabled = true;
        let ok = calibrate(&mut p, POLL_LIMIT);
        if !ok {
            return Err(Error::CalibrationTimeout);
        }
        proof {
            assert(p@.ch =~= spec_setup_single(old_view, config).ch);
            assert(p@ =~= spec_setup_single(old_view, config));
        }
        Ok(Saadc { p })
    }

    /// Disables the peripheral and returns the handle for reuse
    /// elsewhere.
    pub fn free(self) -> (p: SaadcPeriph)
        ensures
            p@ == spec_free(self@),
    {
        let mut p = self.p;
        p.enabled = false;
        p
    }

    /// Programs the hardware side of the model through the engine: the
    /// codes the next conversion transfers, and how many completion
    /// polls pass before it completes.
    pub fn set_next_conversion(&mut self, values: Vec<i16>, latency: u32)
        requires
            values@.len() <= MAX_TRANSFER as nat,
        ensures
            final(self)@ == (PeriphView {
                next_values: values@,
                conv_latency: latency,
                ..old(self)@
            }),
    {
        self.p.set_next_conversion(values, latency);
    }

    /// Whether the end-of-conversion event flag is currently set.
    pub fn end_event_set(&self) -> (b: bool)
        ensures
            b == self@.events_end,
    {
        self.p.events_end
    }

    /// Samples the channel that the capability token names: selects its
    /// input on slot 0, programs a one-element result transfer, triggers
    /// the cycle, busy-waits for completion with a bounded number of
    /// polls, clears the completion event, verifies that exactly one
    /// element was transferred, and returns the signed raw code.
    ///
    /// On a timeout the cycle is left in flight: the caller must not
    /// assume the peripheral is idle.
    pub fn read_channel<PIN: Channel>(&mut self, _pin: &mut PIN) -> (r: Result<i16, Error>)
        requires
            old(self)@.wf(),
        ensures
            final(self)@.wf(),
            ({
                let v = old(self)@;
                let code = PIN::channel_spec();
                &&& (r is Ok <==> psel_valid(code) && v.conv_latency < POLL_LIMIT
                    && v.next_values.len() == 1)
                &&& (r matches Ok(x) ==> x == v.next_values[0])
                &&& (r == Err::<i16, Error>(Error::UnsupportedChannel) <==> !psel_valid(code))
                &&& (r == Err::<i16, Error>(Error::Timeout) <==> psel_valid(code)
                    && v.conv_latency >= POLL_LIMIT)
                &&& (r == Err::<i16, Error>(Error::TransferCountMismatch) <==> psel_valid(code)
                    && v.conv_latency < POLL_LIMIT && v.next_values.len() != 1)
                &&& (!psel_valid(code) ==> final(self)@ == v)
                &&& (psel_valid(code) && v.conv_latency < POLL_LIMIT ==> final(self)@
                    == (PeriphView {
                    ch: v.ch.update(0, (ChanCfg { pselp: psel_of(code), ..v.ch[0] })),
                    events_end: false,
                    result_maxcnt: 1,
                    started: false,
                    conv_pending: false,
                    conv_latency: 0,
                    dma_buf: v.next_values,
                    result_amount: v.next_values.len() as u16,
                    ..v
                }))
                &&& (psel_valid(code) && v.conv_latency >= POLL_LIMIT ==> final(self)@
                    == (PeriphView {
                    ch: v.ch.update(0, (ChanCfg { pselp: psel_of(code), ..v.ch[0] })),
                    events_end: false,
                    result_maxcnt: 1,
                    started: true,
                    conv_pending: true,
                    conv_latency: (v.conv_latency - POLL_LIMIT) as u32,
                    ..v
                }))
            }),
    {
        let code = PIN::channel();
        let psel = match psel_encoding(code) {
            Some(x) => x,
            None => {
                return Err(Error::UnsupportedChannel);
            },
        };
        let mut slot0 = self.p.ch[0];
        slot0.pselp = psel;
        self.p.ch[0] = slot0;
        self.p.events_end = false;
        self.p.result_maxcnt = 1;
        // the transfer target and count must be visible to the transfer
        // engine before the tasks fire; the model's writes are program
        // order, so no explicit ordering barrier is modeled
        self.p.fire_start_task();
        self.p.fire_sample_task();
        let ok = wait_end(&mut self.p, POLL_LIMIT);
        if !ok {
            return Err(Error::Timeout);
        }
        self.p.events_end = false;
        if self.p.result_amount != 1 {
            return Err(Error::TransferCountMismatch);
        }
        Ok(self.p.dma_buf[0])
    }
}

/// Result of one poll of an in-flight measurement cycle.
#[derive(Debug, PartialEq, Eq)]
pub enum SamplePoll {
    /// The completion condition does not hold yet: poll again later.
    Pending,
    /// The cycle completed with the expected element count; the raw
    /// codes the hardware transferred, copied out of the reclaimed
    /// buffer.
    Ready(Vec<i16>),
}

/// Mathematical state of the task-driven engine.
#[verifier::ext_equal]
pub struct TaskView {
    /// The modeled peripheral.
    pub p: PeriphView,
    /// Number of channels configured for each cycle.
    pub n: nat,
    /// The engine's sample buffer: the raw codes reclaimed from the most
    /// recently completed cycle.
    pub buffer: Seq<i16>,
    /// Whether a triggered cycle has not yet had its result consumed.
    pub in_flight: bool,
}

impl TaskView {
    /// Well-formedness of the engine: a well-formed peripheral, one to
    /// eight configured channels, and a sample buffer of exactly that
    /// many codes.
    pub open spec fn wf(self) -> bool {
        &&& self.p.wf()
        &&& 1 <= self.n <= 8
        &&& self.buffer.len() == self.n
    }
}

/// The peripheral state after an end-event poll that observed
/// completion: either the event was already set and nothing changes, or
/// the in-flight conversion lands its transfer.
pub open spec fn after_end_observed(v: PeriphView) -> PeriphView {
    if v.events_end {
        v
    } else {
        PeriphView {
            events_end: true,
            conv_pending: false,
            started: false,
            dma_buf: v.next_values,
            result_amount: v.next_values.len() as u16,
            ..v
        }
    }
}

/// The peripheral state after an end-event poll that came back pending:
/// an in-flight conversion counts one poll of its latency down.
pub open spec fn after_end_pending(v: PeriphView) -> PeriphView {
    if v.conv_pending && v.conv_latency > 0 {
        PeriphView { conv_latency: (v.conv_latency - 1) as u32, ..v }
    } else {
        v
    }
}

/// Whether a poll of the suspension strategy would report the cycle
/// ready now: a cycle is in flight, completion is observable, and the
/// transferred element count matches the configured channel count.
pub open spec fn poll_ready_now(t: TaskView) -> bool {
    t.in_flight && t.p.end_observable() && t.p.observed_amount() == t.n
}

/// The task-driven engine: owns the peripheral and a fixed-size sample
/// buffer, and runs repeatable measurement cycles over one to eight
/// configured channels.
///
/// While a cycle is in flight the hardware transfer engine owns the
/// result memory; the engine's own buffer holds codes reclaimed from the
/// most recently completed cycle, copied out only after the completion
/// event was observed, and is never exposed mid-cycle.
///
/// Abandoning a triggered cycle without completing it leaves the
/// hardware converting: the suspension strategy never cancels on its
/// own, and a caller that discards an in-flight cycle must also disable
/// the peripheral if it needs the hardware idle.
pub struct SaadcTask {
    p: SaadcPeriph,
    n: usize,
    buffer: Vec<i16>,
    in_flight: bool,
}

impl View for SaadcTask {
    type V = TaskView;

    closed spec fn view(&self) -> TaskView {
        TaskView { p: self.p@, n: self.n as nat, buffer: self.buffer@, in_flight: self.in_flight }
    }
}

impl SaadcTask {
    /// Takes exclusive ownership of the peripheral, writes the
    /// conversion parameters, configures one channel slot per logical
    /// channel code (resetting every unused slot so that no input
    /// selected by an earlier owner stays connected), enables the
    /// peripheral and its end-of-conversion interrupt, and calibrates
    /// with a bounded wait.
    ///
    /// Any code outside the selectable domain is rejected before a
    /// single register is written.
    pub fn new(
        saadc: SaadcPeriph,
        config: SaadcConfig,
        channels: &Vec<u8>,
        buffer: Vec<i16>,
    ) -> (r: Result<SaadcTask, Error>)
        requires
            saadc@.wf(),
            1 <= channels@.len() <= 8,
            buffer@.len() == channels@.len(),
        ensures
            r is Ok <==> codes_valid(channels@) && calib_completes(saadc@),
            r matches Ok(t) ==> t@ == (TaskView {
                p: spec_setup(saadc@, config, channels@),
                n: channels@.len(),
                buffer: buffer@,
                in_flight: false,
            }) && t@.wf(),
            r == Err::<SaadcTask, Error>(Error::UnsupportedChannel) <==> !codes_valid(channels@),
            r == Err::<SaadcTask, Error>(Error::CalibrationTimeout) <==> codes_valid(channels@)
                && !calib_completes(saadc@),
    {
        let mut i: usize = 0;
        while i < channels.len()
            invariant
                i <= channels@.len(),
                forall|j: int| 0 <= j < i ==> psel_valid(#[trigger] channels@[j]),
            decreases channels@.len() - i,
        {
            if psel_encoding(channels[i]).is_none() {
                return Err(Error::UnsupportedChannel);
            }
            i = i + 1;
        }
        let ghost entry = saadc@;
        let mut p = saadc;
        write_global_config(&mut p, config);
        let mut idx: usize = 0;
        while idx < 8
            invariant
                idx <= 8,
                channels@.len() <= 8,
                codes_valid(channels@),
                p@ == (PeriphView {
                    resolution: config.resolution,
                    oversample: config.oversample,
                    samplerate_task_mode: true,
                    ch: p@.ch,
                    ..entry
                }),
                p@.ch.len() == 8,
                forall|j: int| 0 <= j < idx ==> p@.ch[j] == setup_slots(config, channels@)[j],
            decreases 8 - idx,
        {
            if idx < channels.len() {
                let psel = psel_encoding(channels[idx]).unwrap();
                p.ch[idx] = build_slot(config, psel);
            } else {
                p.ch[idx] = ChanCfg::reset();
            }
            idx = idx + 1;
        }
        p.enabled = true;
        p.inten_end = true;
        let ok = calibrate(&mut p, POLL_LIMIT);
        if !ok {
            return Err(Error::CalibrationTimeout);
        }
        proof {
            assert(p@.ch =~= setup_slots(config, channels@));
            assert(p@ =~= spec_setup(entry, config, channels@));
        }
        Ok(SaadcTask { p, n: channels.len(), buffer, in_flight: false })
    }

    /// Number of channels configured for each cycle.
    pub fn channel_count(&self) -> (n: usize)
        ensures
            n as nat == self@.n,
    {
        self.n
    }

    /// Starts a new measurement cycle: clears the completion event,
    /// programs the result transfer for the configured channel count,
    /// re-enables the peripheral, arms the transfer, begins conversion,
    /// and enables the completion interrupt.
    pub fn start_sample(&mut self)
        requires
            old(self)@.wf(),
        ensures
            final(self)@.wf(),
            final(self)@ == (TaskView {
                p: (PeriphView {
                    events_end: false,
                    result_maxcnt: old(self)@.n as u16,
                    enabled: true,
                    started: true,
                    conv_pending: true,
                    inten_end: true,
                    ..old(self)@.p
                }),
                in_flight: true,
                ..old(self)@
            }),
    {
        self.p.events_end = false;
        self.p.result_maxcnt = self.n as u16;
        self.p.enabled = true;
        // the transfer target and count must be visible to the transfer
        // engine before the tasks fire; the model's writes are program
        // order, so no explicit ordering barrier is modeled
        self.p.fire_start_task();
        self.p.fire_sample_task();
        self.p.inten_end = true;
        self.in_flight = true;
    }

    /// Arms a cycle without beginning conversion: as
    /// [`Self::start_sample`], but the sample task is left for the
    /// caller to trigger, so that conversion can be timed against other
    /// events.
    pub fn prepare_sample(&mut self)
        requires
            old(self)@.wf(),
        ensures
            final(self)@.wf(),
            final(self)@ == (TaskView {
                p: (PeriphView {
                    events_end: false,
                    result_maxcnt: old(self)@.n as u16,
                    enabled: true,
                    started: true,
                    ..old(self)@.p
                }),
                in_flight: false,
                ..old(self)@
            }),
    {
        self.p.events_end = false;
        self.p.result_maxcnt = self.n as u16;
        self.p.enabled = true;
        // the transfer target and count must be visible to the transfer
        // engine before the start task fires
        self.p.fire_start_task();
        self.in_flight = false;
    }

    /// Begins conversion of a previously prepared cycle by triggering
    /// the sample task; sampling then runs without further software
    /// involvement.
    pub fn trigger_sample(&mut self)
        requires
            old(self)@.wf(),
        ensures
            final(self)@.wf(),
            final(self)@ == (TaskView {
                p: (PeriphView {
                    conv_pending: old(self)@.p.conv_pending || old(self)@.p.started,
                    ..old(self)@.p
                }),
                in_flight: old(self)@.in_flight || old(self)@.p.conv_pending
                    || old(self)@.p.started,
                ..old(self)@
            }),
    {
        self.p.fire_sample_task();
        if self.p.conv_pending {
            self.in_flight = true;
        }
    }

    /// Non-blocking status query: reads the completion event once,
    /// letting the modeled hardware advance. The caller chooses the
    /// waiting policy — spin, yield, or sleep until an interrupt.
    pub fn sample_ready(&mut self) -> (done: bool)
        requires
            old(self)@.wf(),
        ensures
            final(self)@.wf(),
            done == old(self)@.p.end_observable(),
            done ==> final(self)@ == (TaskView {
                p: after_end_observed(old(self)@.p),
                ..old(self)@
            }),
            !done ==> final(self)@ == (TaskView {
                p: after_end_pending(old(self)@.p),
                ..old(self)@
            }),
    {
        self.p.poll_end()
    }

    /// One poll of the cooperative-suspension strategy: a pure status
    /// query that reports `Pending` until the completion condition — the
    /// end event with the expected element count — holds, and `Ready`
    /// with the transferred codes on the first poll where it holds.
    /// Readiness is single-resolution: a `Ready` result clears the
    /// completion event and retires the cycle, so no further poll
    /// reports `Ready` until a new cycle is triggered. This strategy
    /// never times out on its own.
    pub fn poll_sample(&mut self) -> (r: SamplePoll)
        requires
            old(self)@.wf(),
        ensures
            final(self)@.wf(),
            r is Ready <==> poll_ready_now(old(self)@),
            r is Ready ==> !poll_ready_now(final(self)@),
            ({
                let o = old(self)@;
                &&& (!o.in_flight ==> final(self)@ == o)
                &&& (poll_ready_now(o) ==> {
                    let w = after_end_observed(o.p);
                    &&& (r matches SamplePoll::Ready(b) ==> b@ == w.dma_buf)
                    &&& final(self)@ == (TaskView {
                        p: (PeriphView { events_end: false, ..w }),
                        buffer: w.dma_buf,
                        in_flight: false,
                        ..o
                    })
                })
                &&& (o.in_flight && o.p.end_observable() && o.p.observed_amount() != o.n
                    ==> final(self)@ == (TaskView { p: after_end_observed(o.p), ..o }))
                &&& (o.in_flight && !o.p.end_observable() ==> final(self)@ == (TaskView {
                    p: after_end_pending(o.p),
                    ..o
                }))
            }),
    {
        if !self.in_flight {
            return SamplePoll::Pending;
        }
        let done = self.p.poll_end();
        if !done {
            return SamplePoll::Pending;
        }
        if self.p.result_amount as usize != self.n {
            return SamplePoll::Pending;
        }
        self.p.events_end = false;
        let vals = copy_codes(&self.p.dma_buf);
        let out = copy_codes(&vals);
        self.buffer = vals;
        self.in_flight = false;
        SamplePoll::Ready(out)
    }

    /// Completes an observed cycle: clears the completion event,
    /// disables the end-of-conversion interrupt, verifies that the
    /// transferred element count equals the configured channel count,
    /// reclaims the transferred codes into the engine's buffer, and
    /// returns one mapped value per code through the caller-supplied
    /// conversion. On a count mismatch the raw codes are not surfaced as
    /// valid data.
    ///
    /// The caller must have observed completion first, through
    /// [`Self::sample_ready`] or an interrupt.
    pub fn complete_sample<T, F: Fn(i16) -> T>(&mut self, callback: F) -> (r: Result<
        Vec<T>,
        Error,
    >)
        requires
            old(self)@.wf(),
            old(self)@.p.events_end,
            forall|v: i16| #[trigger] call_requires(callback, (v,)),
        ensures
            final(self)@.wf(),
            ({
                let o = old(self)@;
                &&& (r is Ok <==> o.p.result_amount as nat == o.n)
                &&& (r matches Ok(res) ==> {
                    &&& res@.len() == o.n
                    &&& forall|i: int|
                        0 <= i < res@.len() ==> call_ensures(
                            callback,
                            (o.p.dma_buf[i],),
                            #[trigger] res@[i],
                        )
                    &&& final(self)@ == (TaskView {
                        p: (PeriphView { events_end: false, inten_end: false, ..o.p }),
                        buffer: o.p.dma_buf,
                        in_flight: false,
                        ..o
                    })
                })
                &&& (r is Err ==> r == Err::<Vec<T>, Error>(Error::TransferCountMismatch)
                    && final(self)@ == (TaskView {
                    p: (PeriphView { events_end: false, inten_end: false, ..o.p }),
                    in_flight: false,
                    ..o
                }))
            }),
    {
        self.p.events_end = false;
        self.p.inten_end = false;
        if self.p.result_amount as usize != self.n {
            self.in_flight = false;
            return Err(Error::TransferCountMismatch);
        }
        let vals = copy_codes(&self.p.dma_buf);
        let mut res: Vec<T> = Vec::new();
        let mut i: usize = 0;
        while i < vals.len()
            invariant
                i <= vals@.len(),
                res@.len() == i as nat,
                forall|j: int|
                    0 <= j < i ==> call_ensures(callback, (vals@[j],), #[trigger] res@[j]),
                forall|v: i16| #[trigger] call_requires(callback, (v,)),
            decreases vals@.len() - i,
        {
            let x = callback(vals[i]);
            res.push(x);
            i = i + 1;
        }
        self.buffer = vals;
        self.in_flight = false;
        Ok(res)
    }

    /// Returns one mapped value per code in the engine's buffer — the
    /// codes reclaimed from the most recently completed cycle — through
    /// the caller-supplied conversion.
    pub fn read_buffer<T, F: Fn(i16) -> T>(&self, callback: F) -> (r: Vec<T>)
        requires
            forall|v: i16| #[trigger] call_requires(callback, (v,)),
        ensures
            r@.len() == self@.buffer.len(),
            forall|i: int|
                0 <= i < r@.len() ==> call_ensures(callback, (self@.buffer[i],), #[trigger] r@[i]),
    {
        let mut res: Vec<T> = Vec::new();
        let mut i: usize = 0;
        while i < self.buffer.len()
            invariant
                i <= self.buffer@.len(),
                res@.len() == i as nat,
                forall|j: int|
                    0 <= j < i ==> call_ensures(callback, (self.buffer@[j],), #[trigger] res@[j]),
                forall|v: i16| #[trigger] call_requires(callback, (v,)),
            decreases self.buffer@.len() - i,
        {
            let x = callback(self.buffer[i]);
            res.push(x);
            i = i + 1;
        }
        res
    }

    /// The blocking completion strategy: triggers a cycle and busy-waits
    /// for completion, giving up with a timeout failure exactly when the
    /// completion event is not observed within [`POLL_LIMIT`] polls. On
    /// success the transferred count is verified and one mapped value
    /// per code is returned, as in [`Self::complete_sample`]. After a
    /// timeout the cycle is left in flight: hardware state is not reset.
    pub fn sample_blocking<T, F: Fn(i16) -> T>(&mut self, callback: F) -> (r: Result<
        Vec<T>,
        Error,
    >)
        requires
            old(self)@.wf(),
            forall|v: i16| #[trigger] call_requires(callback, (v,)),
        ensures
            final(self)@.wf(),
            ({
                let o = old(self)@;
                &&& (r is Ok <==> o.p.conv_latency < POLL_LIMIT && o.p.next_values.len() == o.n)
                &&& (r == Err::<Vec<T>, Error>(Error::Timeout) <==> o.p.conv_latency
                    >= POLL_LIMIT)
                &&& (r == Err::<Vec<T>, Error>(Error::TransferCountMismatch) <==> o.p.conv_latency
                    < POLL_LIMIT && o.p.next_values.len() != o.n)
                &&& (r matches Ok(res) ==> {
                    &&& res@.len() == o.n
                    &&& forall|i: int|
                        0 <= i < res@.len() ==> call_ensures(
                            callback,
                            (o.p.next_values[i],),
                            #[trigger] res@[i],
                        )
                    &&& final(self)@ == (TaskView {
                        p: (PeriphView {
                            events_end: false,
                            result_maxcnt: o.n as u16,
                            enabled: true,
                            inten_end: false,
                            started: false,
                            conv_pending: false,
                            conv_latency: 0,
                            dma_buf: o.p.next_values,
                            result_amount: o.p.next_values.len() as u16,
                            ..o.p
                        }),
                        buffer: o.p.next_values,
                        in_flight: false,
                        ..o
                    })
                })
                &&& (r == Err::<Vec<T>, Error>(Error::Timeout) ==> final(self)@ == (TaskView {
                    p: (PeriphView {
                        events_end: false,
                        result_maxcnt: o.n as u16,
                        enabled: true,
                        inten_end: false,
                        started: true,
                        conv_pending: true,
                        conv_latency: (o.p.conv_latency - POLL_LIMIT) as u32,
                        ..o.p
                    }),
                    in_flight: true,
                    ..o
                }))
                &&& (r == Err::<Vec<T>, Error>(Error::TransferCountMismatch) ==> final(self)@
                    == (TaskView {
                    p: (PeriphView {
                        events_end: false,
                        result_maxcnt: o.n as u16,
                        enabled: true,
                        inten_end: false,
                        started: false,
                        conv_pending: false,
                        conv_latency: 0,
                        dma_buf: o.p.next_values,
                        result_amount: o.p.next_values.len() as u16,
                        ..o.p
                    }),
                    in_flight: false,
                    ..o
                }))
            }),
    {
        self.p.events_end = false;
        self.p.result_maxcnt = self.n as u16;
        self.p.enabled = true;
        // the transfer target and count must be visible to the transfer
        // engine before the tasks fire; the model's writes are program
        // order, so no explicit ordering barrier is modeled
        self.p.fire_start_task();
        self.p.fire_sample_task();
        self.p.inten_end = false;
        self.in_flight = true;
        let ok = wait_end(&mut self.p, POLL_LIMIT);
        if !ok {
            return Err(Error::Timeout);
        }
        self.p.events_end = false;
        if self.p.result_amount as usize != self.n {
            self.in_flight = false;
            return Err(Error::TransferCountMismatch);
        }
        let vals = copy_codes(&self.p.dma_buf);
        let mut res: Vec<T> = Vec::new();
        let mut i: usize = 0;
        while i < vals.len()
            invariant
                i <= vals@.len(),
                res@.len() == i as nat,
                forall|j: int|
                    0 <= j < i ==> call_ensures(callback, (vals@[j],), #[trigger] res@[j]),
                forall|v: i16| #[trigger] call_requires(callback, (v,)),
            decreases vals@.len() - i,
        {
            let x = callback(vals[i]);
            res.push(x);
            i = i + 1;
        }
        self.buffer = vals;
        self.in_flight = false;
        Ok(res)
    }

    /// Programs the hardware side of the model through the engine: the
    /// codes the next conversion transfers, and how many completion
    /// polls pass before it completes.
    pub fn set_next_conversion(&mut self, values: Vec<i16>, latency: u32)
        requires
            values@.len() <= MAX_TRANSFER as nat,
        ensures
            final(self)@ == (TaskView {
                p: (PeriphView {
                    next_values: values@,
                    conv_latency: latency,
                    ..old(self)@.p
                }),
                ..old(self)@
            }),
    {
        self.p.set_next_conversion(values, latency);
    }

    /// Whether the end-of-conversion event flag is currently set.
    pub fn end_event_set(&self) -> (b: bool)
        ensures
            b == self@.p.events_end,
    {
        self.p.events_end
    }

    /// Whether the end-of-conversion interrupt is currently enabled:
    /// setup and [`Self::start_sample`] enable it, and
    /// [`Self::complete_sample`] and [`Self::sample_blocking`] disable
    /// it.
    pub fn end_interrupt_enabled(&self) -> (b: bool)
        ensures
            b == self@.p.inten_end,
    {
        self.p.inten_end
    }

    /// Disables the peripheral and returns the handle for reuse
    /// elsewhere.
    pub fn free(self) -> (p: SaadcPeriph)
        ensures
            p@ == spec_free(self@.p),
    {
        let mut p = self.p;
        p.enabled = false;
        p
    }
}

/// Law: tearing the task-driven engine down and reinitializing over the
/// returned handle succeeds like first-time initialization. After any
/// setup, the handle that teardown returns calibrates within the bounded
/// wait again, and setting it up once more writes exactly the
/// configuration that setup writes over a power-on peripheral: no
/// residual state leaks into the new configuration.
pub proof fn lemma_reinit_like_first_init(
    v: PeriphView,
    cfg1: SaadcConfig,
    codes1: Seq<u8>,
    cfg2: SaadcConfig,
    codes2: Seq<u8>,
)
    ensures
        ({
            let handed_back = spec_free(spec_setup(v, cfg1, codes1));
            let again = spec_setup(handed_back, cfg2, codes2);
            let fresh = spec_setup(PeriphView::spec_reset(), cfg2, codes2);
            &&& calib_completes(handed_back)
            &&& again.enabled == fresh.enabled
            &&& again.resolution == fresh.resolution
            &&& again.oversample == fresh.oversample
            &&& again.samplerate_task_mode == fresh.samplerate_task_mode
            &&& again.ch == fresh.ch
            &&& again.events_calibratedone == fresh.events_calibratedone
            &&& again.calib_pending == fresh.calib_pending
            &&& again.calib_latency == fresh.calib_latency
            &&& again.inten_end == fresh.inten_end
        }),
{
    let handed_back = spec_free(spec_setup(v, cfg1, codes1));
    assert(spec_setup(handed_back, cfg2, codes2).ch =~= spec_setup(
        PeriphView::spec_reset(),
        cfg2,
        codes2,
    ).ch);
}

/// Law: the same holds for the one-shot engine — teardown hands back a
/// handle over which setup succeeds and configures exactly as over a
/// power-on peripheral.
pub proof fn lemma_oneshot_reinit_like_first_init(
    v: PeriphView,
    cfg1: SaadcConfig,
    cfg2: SaadcConfig,
)
    ensures
        ({
            let handed_back = spec_free(spec_setup_single(v, cfg1));
            let again = spec_setup_single(handed_back, cfg2);
            let fresh = spec_setup_single(PeriphView::spec_reset(), cfg2);
            &&& calib_completes(handed_back)
            &&& again.enabled == fresh.enabled
            &&& again.resolution == fresh.resolution
            &&& again.oversample == fresh.oversample
            &&& again.samplerate_task_mode == fresh.samplerate_task_mode
            &&& again.ch == fresh.ch
            &&& again.events_calibratedone == fresh.events_calibratedone
            &&& again.calib_pending == fresh.calib_pending
            &&& again.calib_latency == fresh.calib_latency
        }),
{
    let handed_back = spec_free(spec_setup_single(v, cfg1));
    assert(spec_setup_single(handed_back, cfg2).ch =~= spec_setup_single(
        PeriphView::spec_reset(),
        cfg2,
    ).ch);
}

} // verus!
