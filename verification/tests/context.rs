use sev_step_lib::api::{ControlCall, SevStep, SevStepError};
use sev_step_lib::context::Context;
use sev_step_lib::ioctls::{map_result, status_of_failure};
use sev_step_lib::page_tracking::TrackedPages;
use sev_step_lib::raw_spinlock;
use sev_step_lib::single_stepper::{EventHandler, SkipIfNotOnTargetGPAs};
use sev_step_lib::types::PageTrackMode;

/// The receiving side of an abort channel on which nothing is ever sent.
/// The sender is kept alive for as long as the test runs.
fn never_aborted() -> crossbeam::channel::Receiver<()> {
    let (sender, receiver) = crossbeam::channel::bounded(1);
    std::mem::forget(sender);
    receiver
}

#[test]
fn spinlock_init_lock_unlock() {
    let mut word: i32 = 42;
    raw_spinlock::init(&mut word);
    assert_eq!(word, raw_spinlock::UNLOCKED);
    assert_eq!(word, 1);
    raw_spinlock::lock(&mut word);
    assert_eq!(word, raw_spinlock::LOCKED);
    raw_spinlock::unlock(&mut word);
    assert_eq!(word, raw_spinlock::UNLOCKED);
}

#[test]
fn context_stores_and_overwrites() {
    let mut ctx = Context::new();
    assert!(ctx.get("a").is_none());
    ctx.insert("a".to_string(), vec![1, 2, 3]);
    ctx.insert("b".to_string(), vec![4]);
    assert_eq!(ctx.get("a"), Some(&vec![1, 2, 3]));
    ctx.insert("a".to_string(), vec![9]);
    assert_eq!(ctx.get("a"), Some(&vec![9]));
    assert_eq!(ctx.get("b"), Some(&vec![4]));
    assert!(ctx.get("c").is_none());
}

#[test]
fn context_numbers_are_eight_bytes_lowest_first() {
    let mut ctx = Context::new();
    assert!(ctx.put_u64("n", 0x0102_0304_0506_0708).is_ok());
    assert_eq!(ctx.get("n"), Some(&vec![8, 7, 6, 5, 4, 3, 2, 1]));
    assert_eq!(ctx.get_u64("n").unwrap(), 0x0102_0304_0506_0708);
}

#[test]
fn context_number_reads_ignore_trailing_bytes_and_refuse_short_blobs() {
    let mut ctx = Context::new();
    ctx.insert("long".to_string(), vec![1, 0, 0, 0, 0, 0, 0, 0, 0xff, 0xff]);
    assert_eq!(ctx.get_u64("long").unwrap(), 1);
    ctx.insert("short".to_string(), vec![1, 2, 3]);
    match ctx.get_u64("short") {
        Err(SevStepError::Other { message, .. }) => assert_eq!(message, "failed to deserialize"),
        other => panic!("unexpected {:?}", other),
    }
    match ctx.get_u64("absent") {
        Err(SevStepError::Other { message, .. }) => assert_eq!(message, "data not present"),
        other => panic!("unexpected {:?}", other),
    }
}

#[test]
fn control_calls_come_out_in_the_order_of_the_requests() {
    let mut api = SevStep::new(true, never_aborted(), false);
    api.track_page(0x1000, PageTrackMode::Access);
    api.untrack_page(0x1000, PageTrackMode::Access);
    api.track_all_pages(PageTrackMode::Write);
    api.untrack_all_pages(PageTrackMode::Exec);
    api.start_stepping(0x40, &[0x1000, 0x2000], false);
    api.stop_stepping();
    api.close();
    let mut seen = Vec::new();
    let mut numbers = Vec::new();
    while let Some(call) = api.next_call() {
        numbers.push(call.request_number());
        seen.push(format!("{:?}", call));
        assert!(api.complete_call(0).is_ok());
    }
    assert_eq!(
        seen,
        vec![
            "InitApi { decrypt_vmsa: true }",
            "TrackPage { gpa: 4096, track_mode: Access }",
            "UntrackPage { gpa: 4096, track_mode: Access }",
            "TrackAllPages { track_mode: Write }",
            "UntrackAllPages { track_mode: Exec }",
            "StartStepping { timer_value: 64, target_gpas: [4096, 8192], flush_tlb: false }",
            "StopStepping",
            "StopStepping",
            "CloseApi",
        ]
    );
    assert_eq!(numbers, vec![0x0f, 0x0b, 0x0e, 0x0c, 0x0d, 0x11, 0x12, 0x12, 0x10]);
    assert!(!api.is_open());
}

#[test]
fn connection_opens_only_when_the_driver_accepts() {
    let mut api = SevStep::new(false, never_aborted(), false);
    assert!(!api.is_open());
    match api.complete_call(16) {
        Err(SevStepError::Other { message, call_status }) => {
            assert_eq!(message, "init_api ioctl failed");
            assert_eq!(call_status, Some(16));
        }
        other => panic!("unexpected {:?}", other),
    }
    assert!(!api.is_open());
    match api.complete_call(0) {
        Err(SevStepError::Other { message, call_status }) => {
            assert_eq!(message, "no control call is pending");
            assert_eq!(call_status, None);
        }
        other => panic!("unexpected {:?}", other),
    }
}

#[test]
fn failed_track_page_keeps_address_and_mode() {
    let call = ControlCall::TrackPage { gpa: 0xabc000, track_mode: PageTrackMode::Exec };
    match call.outcome(-22) {
        Err(SevStepError::PageTracking { status, gpa, tracking_mode, message }) => {
            assert_eq!(status, -22);
            assert_eq!(gpa, 0xabc000);
            assert_eq!(tracking_mode, PageTrackMode::Exec);
            assert_eq!(message, "track_page failed");
        }
        other => panic!("unexpected {:?}", other),
    }
    assert!(call.outcome(0).is_ok());
}

#[test]
fn other_failed_calls_are_reported_with_their_context() {
    let cases = vec![
        (
            ControlCall::UntrackPage { gpa: 1, track_mode: PageTrackMode::Write },
            "untrack page ioctl failed",
        ),
        (ControlCall::TrackAllPages { track_mode: PageTrackMode::Write }, "track all pages ioctl failed"),
        (
            ControlCall::UntrackAllPages { track_mode: PageTrackMode::Write },
            "untrack all pages ioctl failed",
        ),
        (
            ControlCall::StartStepping { timer_value: 1, target_gpas: vec![], flush_tlb: true },
            "start stepping ioctl failed",
        ),
        (ControlCall::StopStepping, "stop stepping ioctls failed"),
        (ControlCall::CloseApi, "close_api ioctl failed"),
    ];
    for (call, text) in cases {
        match call.outcome(5) {
            Err(SevStepError::Other { message, call_status }) => {
                assert_eq!(message, text);
                assert_eq!(call_status, Some(5));
            }
            other => panic!("unexpected {:?}", other),
        }
    }
}

#[test]
fn track_mode_wire_values() {
    assert_eq!(PageTrackMode::Write.wire_value(), 0);
    assert_eq!(PageTrackMode::Access.wire_value(), 1);
    assert_eq!(PageTrackMode::Exec.wire_value(), 3);
}

#[test]
fn tracked_pages_follow_the_calls_in_order() {
    let calls = vec![
        ControlCall::TrackPage { gpa: 0x1000, track_mode: PageTrackMode::Access },
        ControlCall::TrackPage { gpa: 0x2000, track_mode: PageTrackMode::Access },
        ControlCall::UntrackPage { gpa: 0x1000, track_mode: PageTrackMode::Access },
        ControlCall::UntrackPage { gpa: 0x3000, track_mode: PageTrackMode::Access },
        ControlCall::TrackPage { gpa: 0x3000, track_mode: PageTrackMode::Exec },
        ControlCall::StopStepping,
    ];
    let book = TrackedPages::replay(&calls);
    assert!(!book.is_tracked(0x1000, PageTrackMode::Access));
    assert!(book.is_tracked(0x2000, PageTrackMode::Access));
    assert!(!book.is_tracked(0x3000, PageTrackMode::Access));
    assert!(book.is_tracked(0x3000, PageTrackMode::Exec));
    assert!(!book.is_tracked(0x2000, PageTrackMode::Write));

    // the same calls in another order leave another set
    let mut book = TrackedPages::new();
    book.apply(&ControlCall::UntrackPage { gpa: 0x1000, track_mode: PageTrackMode::Access });
    book.apply(&ControlCall::TrackPage { gpa: 0x1000, track_mode: PageTrackMode::Access });
    assert!(book.is_tracked(0x1000, PageTrackMode::Access));
}

#[test]
fn tracked_pages_know_track_all_and_untrack_all() {
    let mut book = TrackedPages::new();
    book.apply(&ControlCall::TrackPage { gpa: 0x1000, track_mode: PageTrackMode::Write });
    book.apply(&ControlCall::TrackAllPages { track_mode: PageTrackMode::Exec });
    assert!(book.is_tracked(0x1000, PageTrackMode::Exec));
    assert!(book.is_tracked(0xffff_f000, PageTrackMode::Exec));
    assert!(!book.is_tracked(0x2000, PageTrackMode::Write));
    book.apply(&ControlCall::UntrackPage { gpa: 0x1000, track_mode: PageTrackMode::Exec });
    assert!(!book.is_tracked(0x1000, PageTrackMode::Exec));
    assert!(book.is_tracked(0x2000, PageTrackMode::Exec));
    book.apply(&ControlCall::TrackPage { gpa: 0x1000, track_mode: PageTrackMode::Exec });
    assert!(book.is_tracked(0x1000, PageTrackMode::Exec));
    book.apply(&ControlCall::UntrackAllPages { track_mode: PageTrackMode::Exec });
    assert!(!book.is_tracked(0x1000, PageTrackMode::Exec));
    assert!(!book.is_tracked(0x2000, PageTrackMode::Exec));
    assert!(book.is_tracked(0x1000, PageTrackMode::Write));
}

#[test]
fn requests_on_a_connection_reach_the_book_unchanged() {
    let mut api = SevStep::new(false, never_aborted(), false);
    api.track_page(0x1000, PageTrackMode::Access);
    api.track_page(0x2000, PageTrackMode::Access);
    // looking into the mailbox and acknowledging request nothing
    assert!(matches!(api.poll_event(), Ok(None)));
    api.ack_event();
    api.untrack_page(0x2000, PageTrackMode::Access);
    let mut calls = Vec::new();
    while let Some(call) = api.next_call() {
        assert!(api.complete_call(0).is_ok());
        calls.push(call);
    }
    assert_eq!(calls.len(), 4);
    let book = TrackedPages::replay(&calls);
    assert!(book.is_tracked(0x1000, PageTrackMode::Access));
    assert!(!book.is_tracked(0x2000, PageTrackMode::Access));
}

#[test]
fn every_answer_but_zero_is_a_failure() {
    assert_eq!(map_result(Ok(0)), 0);
    // a return value that is an error number of the platform
    assert_eq!(map_result(Ok(1)), 1);
    assert_eq!(map_result(Ok(14)), 14);
    // and one that is none
    assert_eq!(map_result(Ok(-5)), -5);
    assert_eq!(map_result(Ok(i32::MAX)), i32::MAX);
    assert_eq!(map_result(Err(22)), 22);
    assert_eq!(map_result(Err(0)), -1);
}

#[test]
fn failures_are_known_by_the_best_number_at_hand() {
    assert_eq!(status_of_failure(7, 13), 13);
    assert_eq!(status_of_failure(7, 0), 7);
    assert_eq!(status_of_failure(0, 0), -1);
    assert_eq!(status_of_failure(0, 5), 5);
}

#[test]
fn abandoned_calls_are_not_asked_of_the_driver() {
    let mut api = SevStep::new(false, never_aborted(), false);
    api.track_page(0x1000, PageTrackMode::Access);
    api.stop_stepping();
    assert!(api.next_call().is_some());
    api.abandon_calls();
    assert!(api.next_call().is_none());
    assert!(!api.is_open());
}

#[test]
fn handler_snapshots_are_copies() {
    let h = SkipIfNotOnTargetGPAs::new(&[1, 2], PageTrackMode::Exec, 3);
    let copy = h.snapshot();
    assert_eq!(copy.get_name(), h.get_name());
}
