use saadc::{
    AnalogPin, Error, InternalVdd, Saadc, SaadcConfig, SaadcPeriph, SaadcTask, SamplePoll,
    POLL_LIMIT,
};

fn one_shot_engine(values: Vec<i16>, latency: u32) -> Saadc {
    let mut p = SaadcPeriph::new();
    p.set_next_conversion(values, latency);
    Saadc::new(p, SaadcConfig::default()).unwrap()
}

fn task_engine(codes: Vec<u8>, values: Vec<i16>, latency: u32) -> SaadcTask {
    let mut p = SaadcPeriph::new();
    p.set_next_conversion(values, latency);
    let n = codes.len();
    SaadcTask::new(p, SaadcConfig::default(), &codes, vec![0i16; n]).unwrap()
}

#[test]
fn one_channel_blocking_read_returns_code_and_clears_event() {
    let mut s = one_shot_engine(vec![1234], 0);
    let mut pin = AnalogPin::<2>;
    assert_eq!(s.read_channel(&mut pin), Ok(1234));
    assert!(!s.end_event_set());
    // the next cycle starts from a clean event state
    s.set_next_conversion(vec![-42], 3);
    assert_eq!(s.read_channel(&mut pin), Ok(-42));
    assert!(!s.end_event_set());
}

#[test]
fn one_shot_read_of_internal_supply_sense() {
    let mut s = one_shot_engine(vec![777], 1);
    let mut sense = InternalVdd;
    assert_eq!(s.read_channel(&mut sense), Ok(777));
}

#[test]
fn one_shot_read_rejects_unsupported_channel() {
    let mut s = one_shot_engine(vec![5], 0);
    let mut bad = AnalogPin::<12>;
    assert_eq!(s.read_channel(&mut bad), Err(Error::UnsupportedChannel));
    // the engine is untouched: a valid read still succeeds
    let mut pin = AnalogPin::<0>;
    assert_eq!(s.read_channel(&mut pin), Ok(5));
}

#[test]
fn one_shot_read_times_out_when_completion_never_comes() {
    let mut s = one_shot_engine(vec![5], POLL_LIMIT);
    let mut pin = AnalogPin::<1>;
    assert_eq!(s.read_channel(&mut pin), Err(Error::Timeout));
}

#[test]
fn one_shot_read_rejects_transfer_count_mismatch() {
    // two elements transferred where one was requested
    let mut s = one_shot_engine(vec![10, 20], 0);
    let mut pin = AnalogPin::<3>;
    assert_eq!(s.read_channel(&mut pin), Err(Error::TransferCountMismatch));
}

#[test]
fn three_channel_cycle_maps_doubled_values() {
    let mut t = task_engine(vec![0, 1, 8], vec![100, 200, 300], 0);
    t.start_sample();
    assert!(t.sample_ready());
    let doubled = t.complete_sample(|v| v * 2).unwrap();
    assert_eq!(doubled, vec![200, 400, 600]);
}

#[test]
fn completed_cycle_yields_exactly_n_results_for_each_n() {
    for n in 1..=8u8 {
        let codes: Vec<u8> = (0..n).collect();
        let values: Vec<i16> = (1..=n as i16).map(|v| v * 11).collect();
        let mut t = task_engine(codes, values.clone(), 0);
        t.start_sample();
        assert!(t.sample_ready());
        let out = t.complete_sample(|v| v).unwrap();
        assert_eq!(out.len(), n as usize);
        assert_eq!(out, values);
    }
}

#[test]
fn transfer_count_mismatch_never_surfaces_buffer_contents() {
    // three channels requested, two elements transferred
    let mut t = task_engine(vec![0, 1, 2], vec![100, 200], 0);
    let before = t.read_buffer(|v| v);
    t.start_sample();
    assert!(t.sample_ready());
    let r = t.complete_sample(|v| v);
    assert_eq!(r, Err(Error::TransferCountMismatch));
    // the engine's buffer still holds the previous cycle's codes
    assert_eq!(t.read_buffer(|v| v), before);
}

#[test]
fn blocking_strategy_succeeds_when_completion_is_observed_at_the_bound() {
    // the last poll that can still observe completion
    let mut t = task_engine(vec![4], vec![99], POLL_LIMIT - 1);
    let out = t.sample_blocking(|v| v).unwrap();
    assert_eq!(out, vec![99]);
    assert!(!t.end_event_set());
}

#[test]
fn blocking_strategy_times_out_one_past_the_bound() {
    let mut t = task_engine(vec![4], vec![99], POLL_LIMIT);
    assert_eq!(t.sample_blocking(|v| v), Err(Error::Timeout));
}

#[test]
fn blocking_strategy_reports_mismatch_over_timeout_free_cycle() {
    let mut t = task_engine(vec![4, 5], vec![1, 2, 3], 7);
    assert_eq!(t.sample_blocking(|v| v), Err(Error::TransferCountMismatch));
}

#[test]
fn suspension_strategy_reports_pending_until_ready_then_never_again() {
    let mut t = task_engine(vec![0, 1], vec![-5, 6], 5);
    t.start_sample();
    for _ in 0..5 {
        assert!(matches!(t.poll_sample(), SamplePoll::Pending));
    }
    match t.poll_sample() {
        SamplePoll::Ready(codes) => assert_eq!(codes, vec![-5, 6]),
        SamplePoll::Pending => panic!("cycle must be ready at the sixth poll"),
    }
    // single-resolution: the same cycle cannot be polled to readiness twice
    assert!(matches!(t.poll_sample(), SamplePoll::Pending));
    assert!(matches!(t.poll_sample(), SamplePoll::Pending));
}

#[test]
fn suspension_strategy_stays_pending_without_a_triggered_cycle() {
    let mut t = task_engine(vec![0], vec![1], 0);
    assert!(matches!(t.poll_sample(), SamplePoll::Pending));
}

#[test]
fn prepared_cycle_converts_only_after_the_sample_trigger() {
    let mut t = task_engine(vec![6], vec![321], 0);
    t.prepare_sample();
    // armed but not begun: polling observes nothing
    assert!(!t.sample_ready());
    assert!(matches!(t.poll_sample(), SamplePoll::Pending));
    t.trigger_sample();
    assert!(t.sample_ready());
    assert_eq!(t.complete_sample(|v| v).unwrap(), vec![321]);
}

#[test]
fn read_buffer_maps_reclaimed_codes() {
    let mut t = task_engine(vec![0, 1, 2], vec![10, 20, 30], 0);
    t.start_sample();
    assert!(t.sample_ready());
    t.complete_sample(|v| v).unwrap();
    assert_eq!(t.read_buffer(|v| i32::from(v) + 1), vec![11, 21, 31]);
    assert_eq!(t.channel_count(), 3);
}

#[test]
fn end_interrupt_follows_the_cycle() {
    let mut t = task_engine(vec![0, 1], vec![1, 2], 0);
    // setup leaves the end interrupt enabled
    assert!(t.end_interrupt_enabled());
    t.start_sample();
    assert!(t.end_interrupt_enabled());
    assert!(t.sample_ready());
    // completion disables it again
    t.complete_sample(|v| v).unwrap();
    assert!(!t.end_interrupt_enabled());
    // the blocking strategy polls the event itself and leaves it off
    t.set_next_conversion(vec![3, 4], 0);
    t.sample_blocking(|v| v).unwrap();
    assert!(!t.end_interrupt_enabled());
}

#[test]
fn task_setup_rejects_unsupported_channel_code() {
    let p = SaadcPeriph::new();
    let r = SaadcTask::new(p, SaadcConfig::default(), &vec![0, 9], vec![0i16; 2]);
    assert!(matches!(r, Err(Error::UnsupportedChannel)));
}

#[test]
fn setup_fails_when_calibration_never_completes() {
    let mut p = SaadcPeriph::new();
    p.set_calibration_latency(POLL_LIMIT);
    let r = Saadc::new(p, SaadcConfig::default());
    assert!(matches!(r, Err(Error::CalibrationTimeout)));

    let mut p2 = SaadcPeriph::new();
    p2.set_calibration_latency(POLL_LIMIT);
    let r2 = SaadcTask::new(p2, SaadcConfig::default(), &vec![0], vec![0i16]);
    assert!(matches!(r2, Err(Error::CalibrationTimeout)));
}

#[test]
fn setup_succeeds_when_calibration_completes_within_the_bound() {
    let mut p = SaadcPeriph::new();
    p.set_calibration_latency(POLL_LIMIT - 1);
    assert!(Saadc::new(p, SaadcConfig::default()).is_ok());
}

#[test]
fn reinitialization_after_teardown_works_like_first_initialization() {
    // one-shot engine: use, tear down, set up again over the same handle
    let mut p = SaadcPeriph::new();
    p.set_next_conversion(vec![111], 2);
    let mut s = Saadc::new(p, SaadcConfig::default()).unwrap();
    let mut pin = AnalogPin::<2>;
    assert_eq!(s.read_channel(&mut pin), Ok(111));
    let handle = s.free();

    let mut s2 = Saadc::new(handle, SaadcConfig::default()).unwrap();
    s2.set_next_conversion(vec![222], 2);
    assert_eq!(s2.read_channel(&mut pin), Ok(222));

    // the handle moves on to a task engine just as a fresh one would
    let handle = s2.free();
    let mut t = SaadcTask::new(handle, SaadcConfig::default(), &vec![0, 1], vec![0i16; 2])
        .unwrap();
    t.set_next_conversion(vec![7, 8], 0);
    t.start_sample();
    assert!(t.sample_ready());
    assert_eq!(t.complete_sample(|v| v).unwrap(), vec![7, 8]);
}
