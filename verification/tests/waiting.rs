use std::time::{Duration, Instant};

use crossbeam::channel::{bounded, Receiver, Sender};
use sev_step_lib::api::{
    abort_signal, trigger_status, AbortSignal, Event, Received, SevStep, SevStepError,
    TriggerStatus,
};
use sev_step_lib::types::{PAGE_FAULT_EVENT, PF_RECORD_BYTES, SEV_STEP_EVENT, STEP_HEADER_BYTES};

fn fault_record(gpa: u64) -> Vec<u8> {
    let mut raw = vec![0u8; PF_RECORD_BYTES];
    raw[0..8].copy_from_slice(&gpa.to_le_bytes());
    raw
}

fn step_record(retired: u32) -> Vec<u8> {
    let mut raw = vec![0u8; STEP_HEADER_BYTES];
    raw[0..4].copy_from_slice(&retired.to_le_bytes());
    raw
}

/// An open connection with the sending side of its abort channel.
fn connection(error_on_multi_step: bool) -> (SevStep, Sender<()>) {
    let (abort, aborted) = bounded(1);
    let mut api = SevStep::new(false, aborted, error_on_multi_step);
    assert!(api.complete_call(0).is_ok());
    (api, abort)
}

/// The channel of a trigger that has finished with `result`.
fn finished_trigger(result: Result<(), String>) -> Receiver<Result<(), String>> {
    let (s, r) = bounded(1);
    s.send(result).unwrap();
    r
}

#[test]
fn pending_event_is_returned_with_a_trigger_that_is_done_at_once() {
    let (mut api, _abort) = connection(true);
    assert!(api.post_event(PAGE_FAULT_EVENT, &fault_record(0x5000)));
    let trigger = finished_trigger(Ok(()));
    // long past the deadline, and still it is the event that comes back
    match api.block_untill_event(&trigger, 10_000_000_000, Some(1)) {
        Ok(Some(Event::PageFaultEvent(e))) => assert_eq!(e.faulted_gpa, 0x5000),
        other => panic!("unexpected {:?}", other),
    }
}

#[test]
fn wait_without_event_times_out_close_to_the_deadline() {
    let (mut api, _abort) = connection(true);
    let trigger = finished_trigger(Ok(()));
    let timeout = Duration::from_millis(100);
    let start = Instant::now();
    let result = loop {
        let elapsed = start.elapsed().as_nanos();
        match api.block_untill_event(&trigger, elapsed, Some(timeout.as_nanos())) {
            Ok(None) => continue,
            other => break other,
        }
    };
    let took = start.elapsed();
    assert!(matches!(result, Err(SevStepError::Timeout)));
    assert!(took > timeout);
    // the loop is tight: the margin is generous for a busy machine
    assert!(took < Duration::from_millis(500), "took {:?}", took);
}

#[test]
fn abort_before_any_event_ends_the_wait_with_the_abort_error() {
    let (mut api, abort) = connection(true);
    abort.send(()).unwrap();
    assert!(api.post_event(PAGE_FAULT_EVENT, &fault_record(0x5000)));
    let trigger = finished_trigger(Ok(()));
    let r = api.block_untill_event(&trigger, 0, None);
    assert!(matches!(r, Err(SevStepError::Abort)));
    // the event was not taken, and the trigger's result was not looked at
    assert!(api.have_event());
    assert_eq!(trigger.len(), 1);
}

#[test]
fn lost_abort_channel_ends_the_wait() {
    let (mut api, abort) = connection(true);
    drop(abort);
    let trigger = finished_trigger(Ok(()));
    match api.block_untill_event(&trigger, 0, None) {
        Err(SevStepError::Other { message, .. }) => {
            assert_eq!(message, "error checking abort channel")
        }
        other => panic!("unexpected {:?}", other),
    }
}

#[test]
fn failed_trigger_ends_the_wait() {
    let (mut api, _abort) = connection(true);
    let trigger = finished_trigger(Err("victim did not start".to_string()));
    match api.block_untill_event(&trigger, 0, None) {
        Err(SevStepError::TriggerFailed { source }) => assert_eq!(source, "victim did not start"),
        other => panic!("unexpected {:?}", other),
    }
}

#[test]
fn trigger_that_ends_without_a_result_ends_the_wait() {
    let (mut api, _abort) = connection(true);
    let (s, trigger) = bounded::<Result<(), String>>(1);
    assert!(matches!(api.block_untill_event(&trigger, 0, None), Ok(None)));
    drop(s);
    match api.block_untill_event(&trigger, 1, None) {
        Err(SevStepError::TriggerFailed { source }) => {
            assert_eq!(source, "receiving on an empty and disconnected channel")
        }
        other => panic!("unexpected {:?}", other),
    }
}

#[test]
fn finished_trigger_is_not_asked_again() {
    let (mut api, _abort) = connection(true);
    let trigger = finished_trigger(Ok(()));
    // this round takes the result; the channel is empty and without sender
    // from now on
    assert!(matches!(api.block_untill_event(&trigger, 0, None), Ok(None)));
    assert!(matches!(api.block_untill_event(&trigger, 1, None), Ok(None)));
    assert!(api.post_event(SEV_STEP_EVENT, &step_record(1)));
    assert!(matches!(
        api.block_untill_event(&trigger, 2, None),
        Ok(Some(Event::StepEvent(_)))
    ));
}

#[test]
fn multi_step_ends_the_wait_and_stays_pending() {
    let (mut api, _abort) = connection(true);
    assert!(api.post_event(SEV_STEP_EVENT, &step_record(2)));
    let trigger = finished_trigger(Ok(()));
    match api.block_untill_event(&trigger, 0, None) {
        Err(SevStepError::MultiStep { event }) => assert_eq!(event.retired_instructions, 2),
        other => panic!("unexpected {:?}", other),
    }
    assert!(api.have_event());
    api.ack_event();
    assert!(!api.have_event());
}

#[test]
fn what_was_received_is_read_as_signal_and_status() {
    assert_eq!(abort_signal(Received::Message(())), AbortSignal::Raised);
    assert_eq!(abort_signal(Received::Empty), AbortSignal::Quiet);
    assert_eq!(abort_signal(Received::Disconnected), AbortSignal::Disconnected);
    assert!(matches!(trigger_status(Received::Message(Ok(()))), TriggerStatus::Finished));
    assert!(matches!(trigger_status(Received::Empty), TriggerStatus::Running));
    match trigger_status(Received::Message(Err("no".to_string()))) {
        TriggerStatus::Failed(message) => assert_eq!(message, "no"),
        other => panic!("unexpected {:?}", other),
    }
    match trigger_status(Received::Disconnected) {
        TriggerStatus::Failed(message) => {
            assert_eq!(message, "receiving on an empty and disconnected channel")
        }
        other => panic!("unexpected {:?}", other),
    }
}
