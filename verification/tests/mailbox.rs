use sev_step_lib::api::{
    AbortSignal, Event, PageFaultEvent, SevStep, SevStepError, SevStepEvent, TriggerStatus,
};
use sev_step_lib::types::{
    VmsaRegister, EVENT_ACKED_OFFSET, EVENT_BUFFER_BYTES, EVENT_BUFFER_OFFSET, EVENT_TYPE_OFFSET,
    HAVE_EVENT_OFFSET, PAGE_FAULT_EVENT, PF_RECORD_BYTES, SEV_STEP_EVENT,
    SEV_STEP_SHARED_MEM_BYTES, SPINLOCK_OFFSET, STEP_HEADER_BYTES,
};

/// The receiving side of an abort channel on which nothing is ever sent.
/// The sender is kept alive for as long as the test runs.
fn never_aborted() -> crossbeam::channel::Receiver<()> {
    let (sender, receiver) = crossbeam::channel::bounded(1);
    std::mem::forget(sender);
    receiver
}

fn put_u64(buf: &mut [u8], offset: usize, value: u64) {
    buf[offset..offset + 8].copy_from_slice(&value.to_le_bytes());
}

fn put_u32(buf: &mut [u8], offset: usize, value: u32) {
    buf[offset..offset + 4].copy_from_slice(&value.to_le_bytes());
}

/// A page fault record at `gpa`; with `rip` the register block is valid
/// and holds that instruction pointer.
fn page_fault_record(gpa: u64, rip: Option<u64>) -> Vec<u8> {
    let mut raw = vec![0u8; PF_RECORD_BYTES];
    put_u64(&mut raw, 0, gpa);
    if let Some(rip) = rip {
        put_u64(&mut raw, 8 + 8, rip);
        raw[128] = 1;
    }
    raw
}

/// A step record; with `probes` a cache trace of that many entries.
fn step_record(retired: u32, rip: Option<u64>, probes: Option<(&[u64], &[u64])>) -> Vec<u8> {
    let n = probes.map(|p| p.0.len()).unwrap_or(0);
    let mut raw = vec![0u8; STEP_HEADER_BYTES + 16 * n];
    put_u32(&mut raw, 0, retired);
    if let Some(rip) = rip {
        put_u64(&mut raw, 8 + 8, rip);
        raw[128] = 1;
    }
    if let Some((timings, perf)) = probes {
        put_u64(&mut raw, 136, 0xdead_0000);
        put_u64(&mut raw, 144, 0xbeef_0000);
        put_u64(&mut raw, 152, n as u64);
        for (i, t) in timings.iter().enumerate() {
            put_u64(&mut raw, STEP_HEADER_BYTES + 8 * i, *t);
        }
        for (i, p) in perf.iter().enumerate() {
            put_u64(&mut raw, STEP_HEADER_BYTES + 8 * n + 8 * i, *p);
        }
    }
    raw
}

fn opened() -> SevStep {
    let mut api = SevStep::new(false, never_aborted(), true);
    assert!(api.complete_call(0).is_ok());
    assert!(api.is_open());
    api
}

#[test]
fn page_fault_record_decodes_address_and_registers() {
    let raw = page_fault_record(0x7000, Some(0x4010));
    let event = PageFaultEvent::from_c_struct(&raw).unwrap();
    assert_eq!(event.faulted_gpa, 0x7000);
    assert_eq!(event.get_register(VmsaRegister::Rip), Some(0x4010));
    assert_eq!(event.get_register(VmsaRegister::Rflags), Some(0));
}

#[test]
fn page_fault_record_without_valid_registers_has_none() {
    let raw = page_fault_record(0x7000, None);
    let event = PageFaultEvent::from_c_struct(&raw).unwrap();
    assert_eq!(event.get_register(VmsaRegister::Rip), None);
}

#[test]
fn page_fault_record_with_failed_register_fetch_has_none() {
    let mut raw = page_fault_record(0x7000, Some(0x4010));
    raw[8 + 8 * 14] = 1;
    let event = PageFaultEvent::from_c_struct(&raw).unwrap();
    assert_eq!(event.get_register(VmsaRegister::Rip), None);
}

#[test]
fn short_page_fault_record_is_refused() {
    let raw = vec![0u8; PF_RECORD_BYTES - 1];
    assert!(PageFaultEvent::from_c_struct(&raw).is_none());
}

#[test]
fn step_record_decodes_count_and_cache_trace() {
    let raw = step_record(1, Some(0x4000), Some((&[10, 20, 30], &[1, 2, 3])));
    let event = SevStepEvent::from_raw_event_buffer(&raw).unwrap();
    assert_eq!(event.retired_instructions, 1);
    assert_eq!(event.get_register(VmsaRegister::Rip), Some(0x4000));
    let trace = event.get_cache_trace().unwrap();
    assert_eq!(trace.timing_probes, vec![10, 20, 30]);
    assert_eq!(trace.perf_counter_probes, vec![1, 2, 3]);
}

#[test]
fn step_record_without_probes_has_no_cache_trace() {
    let raw = step_record(3, None, None);
    let event = SevStepEvent::from_raw_event_buffer(&raw).unwrap();
    assert_eq!(event.retired_instructions, 3);
    assert!(event.get_cache_trace().is_none());
    assert_eq!(event.get_register(VmsaRegister::Rip), None);
}

#[test]
fn step_record_whose_probes_do_not_fit_is_refused() {
    let mut raw = step_record(1, None, Some((&[10, 20], &[1, 2])));
    put_u64(&mut raw, 152, 3);
    assert!(SevStepEvent::from_raw_event_buffer(&raw).is_none());
    put_u64(&mut raw, 152, u64::MAX);
    assert!(SevStepEvent::from_raw_event_buffer(&raw).is_none());
}

#[test]
fn unknown_event_type_is_refused() {
    let raw = page_fault_record(0x7000, None);
    assert!(Event::decode(7, &raw).is_none());
    assert!(matches!(Event::decode(PAGE_FAULT_EVENT, &raw), Some(Event::PageFaultEvent(_))));
}

#[test]
fn fresh_mailbox_has_no_event() {
    let mut api = opened();
    assert!(!api.have_event());
    assert!(matches!(api.poll_event(), Ok(None)));
}

#[test]
fn mailbox_cycles_between_empty_and_pending() {
    let mut api = opened();
    assert!(api.post_event(PAGE_FAULT_EVENT, &page_fault_record(0x5000, None)));
    assert!(api.have_event());
    // a second event is not taken while the first is pending
    assert!(!api.post_event(PAGE_FAULT_EVENT, &page_fault_record(0x6000, None)));
    match api.poll_event() {
        Ok(Some(Event::PageFaultEvent(e))) => assert_eq!(e.faulted_gpa, 0x5000),
        other => panic!("unexpected {:?}", other),
    }
    // polling does not acknowledge
    assert!(api.have_event());
    api.ack_event();
    assert!(!api.have_event());
    assert!(matches!(api.poll_event(), Ok(None)));
    assert!(api.post_event(PAGE_FAULT_EVENT, &page_fault_record(0x6000, None)));
}

#[test]
fn oversized_payload_is_refused() {
    let mut api = opened();
    let raw = vec![0u8; EVENT_BUFFER_BYTES + 1];
    assert!(!api.post_event(PAGE_FAULT_EVENT, &raw));
    assert!(!api.have_event());
}

#[test]
fn malformed_event_in_mailbox_is_an_error() {
    let mut api = opened();
    assert!(api.post_event(9, &[]));
    match api.poll_event() {
        Err(SevStepError::Other { message, .. }) => {
            assert_eq!(message, "malformed event in mailbox")
        }
        other => panic!("unexpected {:?}", other),
    }
}

#[test]
fn block_until_event_returns_pending_event_whatever_the_clock_says() {
    let mut api = opened();
    assert!(api.post_event(PAGE_FAULT_EVENT, &page_fault_record(0x5000, None)));
    // the deadline has long passed, and still the event is returned
    let r = api.wait_round(AbortSignal::Quiet, &TriggerStatus::Finished, 1_000_000, Some(1));
    match r {
        Ok(Some(Event::PageFaultEvent(e))) => assert_eq!(e.faulted_gpa, 0x5000),
        other => panic!("unexpected {:?}", other),
    }
}

#[test]
fn block_until_event_times_out_without_event() {
    let mut api = opened();
    let timeout = Some(100_000_000u128);
    let r = api.wait_round(AbortSignal::Quiet, &TriggerStatus::Running, 99_999_999, timeout);
    assert!(matches!(r, Ok(None)));
    let r = api.wait_round(AbortSignal::Quiet, &TriggerStatus::Running, 100_000_000, timeout);
    assert!(matches!(r, Ok(None)));
    let r = api.wait_round(AbortSignal::Quiet, &TriggerStatus::Running, 100_000_001, timeout);
    assert!(matches!(r, Err(SevStepError::Timeout)));
}

#[test]
fn block_until_event_without_timeout_keeps_waiting() {
    let mut api = opened();
    let r = api.wait_round(AbortSignal::Quiet, &TriggerStatus::Running, u128::MAX, None);
    assert!(matches!(r, Ok(None)));
}

#[test]
fn abort_wins_over_a_pending_event() {
    let mut api = opened();
    assert!(api.post_event(PAGE_FAULT_EVENT, &page_fault_record(0x5000, None)));
    let r = api.wait_round(AbortSignal::Raised, &TriggerStatus::Finished, 0, None);
    assert!(matches!(r, Err(SevStepError::Abort)));
    // the event is still there
    assert!(api.have_event());
}

#[test]
fn lost_abort_channel_is_an_error() {
    let mut api = opened();
    let r = api.wait_round(AbortSignal::Disconnected, &TriggerStatus::Running, 0, None);
    match r {
        Err(SevStepError::Other { message, .. }) => {
            assert_eq!(message, "error checking abort channel")
        }
        other => panic!("unexpected {:?}", other),
    }
}

#[test]
fn failed_trigger_fails_the_wait() {
    let mut api = opened();
    assert!(api.post_event(PAGE_FAULT_EVENT, &page_fault_record(0x5000, None)));
    let trigger = TriggerStatus::Failed("victim did not start".to_string());
    let r = api.wait_round(AbortSignal::Quiet, &trigger, 0, None);
    match r {
        Err(SevStepError::TriggerFailed { source }) => assert_eq!(source, "victim did not start"),
        other => panic!("unexpected {:?}", other),
    }
}

#[test]
fn trigger_is_not_looked_at_once_it_has_finished() {
    let mut api = opened();
    let r = api.wait_round(AbortSignal::Quiet, &TriggerStatus::Finished, 0, None);
    assert!(matches!(r, Ok(None)));
    // the channel of a finished trigger reads as failed from now on
    let gone = TriggerStatus::Failed("gone".to_string());
    let r = api.wait_round(AbortSignal::Quiet, &gone, 1, None);
    assert!(matches!(r, Ok(None)));
    assert!(api.post_event(SEV_STEP_EVENT, &step_record(1, None, None)));
    let r = api.wait_round(AbortSignal::Quiet, &gone, 2, None);
    assert!(matches!(r, Ok(Some(Event::StepEvent(_)))));
    // the next wait starts afresh
    api.ack_event();
    let r = api.wait_round(AbortSignal::Quiet, &gone, 0, None);
    assert!(matches!(r, Err(SevStepError::TriggerFailed { .. })));
}

#[test]
fn multi_step_is_an_error_and_is_not_acknowledged() {
    let mut api = opened();
    assert!(api.post_event(SEV_STEP_EVENT, &step_record(2, None, None)));
    let r = api.wait_round(AbortSignal::Quiet, &TriggerStatus::Finished, 0, None);
    match r {
        Err(SevStepError::MultiStep { event }) => assert_eq!(event.retired_instructions, 2),
        other => panic!("unexpected {:?}", other),
    }
    assert!(api.have_event());
    api.ack_event();
    assert!(!api.have_event());
}

#[test]
fn multi_step_passes_where_it_is_no_error() {
    let mut api = SevStep::new(false, never_aborted(), false);
    assert!(api.complete_call(0).is_ok());
    assert!(api.post_event(SEV_STEP_EVENT, &step_record(2, None, None)));
    let r = api.wait_round(AbortSignal::Quiet, &TriggerStatus::Finished, 0, None);
    match r {
        Ok(Some(Event::StepEvent(event))) => assert_eq!(event.retired_instructions, 2),
        other => panic!("unexpected {:?}", other),
    }
}

#[test]
fn single_step_passes_strict_checking() {
    let mut api = opened();
    assert!(api.post_event(SEV_STEP_EVENT, &step_record(1, None, None)));
    let r = api.wait_round(AbortSignal::Quiet, &TriggerStatus::Finished, 0, None);
    assert!(matches!(r, Ok(Some(Event::StepEvent(_)))));
}

/// The shared region as the driver leaves it with an event in it.
fn page_with(event_type: u32, record: &[u8]) -> Vec<u8> {
    let mut page = vec![0u8; SEV_STEP_SHARED_MEM_BYTES];
    put_u32(&mut page, SPINLOCK_OFFSET, 1);
    put_u32(&mut page, EVENT_ACKED_OFFSET, 0);
    put_u32(&mut page, HAVE_EVENT_OFFSET, 1);
    put_u32(&mut page, EVENT_TYPE_OFFSET, event_type);
    page[EVENT_BUFFER_OFFSET..EVENT_BUFFER_OFFSET + record.len()].copy_from_slice(record);
    page
}

#[test]
fn shared_region_layout() {
    assert_eq!(SEV_STEP_SHARED_MEM_BYTES, 20 * 4096);
    assert_eq!(SPINLOCK_OFFSET, 0);
    assert_eq!(EVENT_ACKED_OFFSET, 4);
    assert_eq!(HAVE_EVENT_OFFSET, 8);
    assert_eq!(EVENT_TYPE_OFFSET, 12);
    assert_eq!(EVENT_BUFFER_OFFSET, 16);
    assert_eq!(EVENT_BUFFER_BYTES, SEV_STEP_SHARED_MEM_BYTES - EVENT_BUFFER_OFFSET);
}

#[test]
fn event_is_taken_from_a_copy_of_the_shared_region() {
    let mut api = opened();
    let page = page_with(SEV_STEP_EVENT, &step_record(1, Some(0x77), None));
    assert!(api.post_page(&page));
    match api.poll_event() {
        Ok(Some(Event::StepEvent(e))) => {
            assert_eq!(e.retired_instructions, 1);
            assert_eq!(e.get_register(VmsaRegister::Rip), Some(0x77));
        }
        other => panic!("unexpected {:?}", other),
    }
    // not taken twice
    assert!(!api.post_page(&page));
}

#[test]
fn nothing_is_taken_from_a_region_without_event_or_of_the_wrong_size() {
    let mut api = opened();
    let mut page = page_with(PAGE_FAULT_EVENT, &page_fault_record(0x5000, None));
    put_u32(&mut page, HAVE_EVENT_OFFSET, 0);
    assert!(!api.post_page(&page));
    put_u32(&mut page, HAVE_EVENT_OFFSET, 1);
    assert!(!api.post_page(&page[..page.len() - 1]));
    assert!(!api.have_event());
    assert!(api.post_page(&page));
    assert!(api.have_event());
}
