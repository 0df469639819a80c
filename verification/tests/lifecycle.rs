use alsa_sink::params::{negotiate, DeviceCaps, NegotiationError, SinkConfig};
use alsa_sink::sink::{
    AlsaSink, DeviceFailure, SinkError, SinkRequest, StartFailure, StartStep, StopStep, WriteStep,
};

fn caps() -> DeviceCaps {
    DeviceCaps {
        min_rate: 8000,
        max_rate: 192000,
        min_channels: 1,
        max_channels: 32,
        min_buffer_frames: 64,
        max_buffer_frames: 262144,
        min_period_frames: 32,
        max_period_frames: 131072,
    }
}

fn config() -> SinkConfig {
    SinkConfig { resample: false, debug_dump: false }
}

fn closed_sink(name: &str) -> AlsaSink {
    match AlsaSink::open(Some(name.to_string())) {
        SinkRequest::Playback(s) => s,
        SinkRequest::ListOutputs => panic!("a device name must build a sink"),
    }
}

fn opened_sink(name: &str) -> AlsaSink {
    let mut sink = closed_sink(name);
    let req = match sink.begin_start(config()) {
        StartStep::NeedsOpen(req) => req,
        StartStep::Done(_) => panic!("a closed sink must ask for an open"),
    };
    let params = negotiate(&caps(), req.config).unwrap();
    sink.complete_start(Ok(params)).unwrap();
    sink
}

#[test]
fn open_binds_the_given_name_closed() {
    let sink = closed_sink("hw:0");
    assert_eq!(sink.device_name, "hw:0");
    assert!(!sink.is_open());
}

#[test]
fn open_without_a_name_takes_the_default_device() {
    let sink = match AlsaSink::open(None) {
        SinkRequest::Playback(s) => s,
        SinkRequest::ListOutputs => panic!("no selector must build a sink"),
    };
    assert_eq!(sink.device_name, "default");
    assert!(!sink.is_open());
}

#[test]
fn the_question_mark_selector_requests_the_listing() {
    assert!(matches!(AlsaSink::open(Some("?".to_string())), SinkRequest::ListOutputs));
}

#[test]
fn start_then_stop_without_writes_succeeds_and_closes() {
    let mut sink = closed_sink("hw:0");

    let req = match sink.begin_start(config()) {
        StartStep::NeedsOpen(req) => req,
        StartStep::Done(_) => panic!("a closed sink must ask for an open"),
    };
    assert_eq!(req.device, "hw:0");
    let params = negotiate(&caps(), req.config).unwrap();
    assert_eq!(sink.complete_start(Ok(params)), Ok(()));
    assert!(sink.is_open());
    assert_eq!(sink.handle, Some(params));

    assert!(matches!(sink.begin_stop(), StopStep::NeedsDrain));
    assert_eq!(sink.complete_stop(Ok(())), Ok(()));
    assert!(!sink.is_open());
    assert_eq!(sink.handle, None);
}

#[test]
fn a_second_start_is_a_no_op_success() {
    let mut sink = opened_sink("hw:0");
    let before = sink.handle;
    match sink.begin_start(config()) {
        StartStep::Done(r) => assert_eq!(r, Ok(())),
        StartStep::NeedsOpen(_) => panic!("an open sink must not re-open the device"),
    }
    assert_eq!(sink.handle, before);
}

#[test]
fn negotiated_values_after_start_meet_the_targets() {
    let sink = opened_sink("hw:0");
    let p = sink.handle.unwrap();
    assert!(p.buffer_frames >= 22052);
    assert!(p.period_frames >= 5513);
    assert_eq!(p.start_threshold, p.buffer_frames - p.period_frames);
}

#[test]
fn a_failed_device_open_leaves_the_sink_closed() {
    let mut sink = closed_sink("hw:0");
    let outcome = Err(StartFailure::DeviceOpen(DeviceFailure { errno: -16 }));
    assert_eq!(sink.complete_start(outcome), Err(SinkError::OpenFailed));
    assert!(!sink.is_open());
}

#[test]
fn a_rejected_negotiation_surfaces_as_an_open_failure() {
    let mut sink = closed_sink("hw:0");
    let outcome = Err(StartFailure::Negotiation(NegotiationError::ChannelsUnsupported));
    assert_eq!(sink.complete_start(outcome), Err(SinkError::OpenFailed));
    assert!(!sink.is_open());
}

#[test]
fn write_before_start_is_rejected() {
    let sink = closed_sink("hw:0");
    assert_eq!(sink.begin_write(), Err(SinkError::NotOpen));
}

#[test]
fn write_while_open_may_proceed() {
    let sink = opened_sink("hw:0");
    assert_eq!(sink.begin_write(), Ok(()));
}

#[test]
fn an_accepted_write_is_done_even_when_short() {
    let sink = opened_sink("hw:0");
    assert_eq!(sink.on_write_result(Ok(128)), WriteStep::Done);
}

#[test]
fn an_underrun_asks_for_a_loud_recovery_and_recovers() {
    let sink = opened_sink("hw:0");
    let step = sink.on_write_result(Err(DeviceFailure { errno: -32 }));
    assert_eq!(step, WriteStep::Recover { silent: false });
    assert_eq!(sink.on_recover_result(Ok(())), Ok(()));
}

#[test]
fn a_failed_recovery_is_fatal_to_the_write() {
    let sink = opened_sink("hw:0");
    let step = sink.on_write_result(Err(DeviceFailure { errno: -32 }));
    assert_eq!(step, WriteStep::Recover { silent: false });
    let verdict = sink.on_recover_result(Err(DeviceFailure { errno: -32 }));
    assert_eq!(verdict, Err(SinkError::WriteFatal));
}

#[test]
fn a_failed_drain_surfaces_but_still_closes_the_sink() {
    let mut sink = opened_sink("hw:0");
    assert!(matches!(sink.begin_stop(), StopStep::NeedsDrain));
    let r = sink.complete_stop(Err(DeviceFailure { errno: -5 }));
    assert_eq!(r, Err(SinkError::DrainFailed));
    assert!(!sink.is_open());
}

#[test]
fn stop_while_closed_is_a_no_op_success() {
    let sink = closed_sink("hw:0");
    match sink.begin_stop() {
        StopStep::Done(r) => assert_eq!(r, Ok(())),
        StopStep::NeedsDrain => panic!("a closed sink has nothing to drain"),
    }
}
