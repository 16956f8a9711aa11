use std::collections::HashSet;

use sev_step_lib::api::{
    CacheTrace, ControlCall, Event, PageFaultEvent, SevStep, SevStepError, SevStepEvent,
};
use sev_step_lib::context::Context;
use sev_step_lib::event_handlers::state_machine_handlers::{
    ComposableHandler, SequenceMatchingStrategy, SkipUntilNSingleSteps, SkipUntilPageFaultSequence,
};
use sev_step_lib::event_handlers::{ComposableEventHandler, EventHandlerOutcome};
use sev_step_lib::single_stepper::{
    BuildStepHistogram, EventHandler, Handler, RetrackGPASet, SkipIfNotOnTargetGPAs,
    StateMachineNextAction, StopAfterNSingleStepsHandler,
};
use sev_step_lib::types::{PageTrackMode, RegisterSnapshot, REGISTER_COUNT};

/// The receiving side of an abort channel on which nothing is ever sent.
/// The sender is kept alive for as long as the test runs.
fn never_aborted() -> crossbeam::channel::Receiver<()> {
    let (sender, receiver) = crossbeam::channel::bounded(1);
    std::mem::forget(sender);
    receiver
}

const A: u64 = 0xa000;
const B: u64 = 0xb000;
const C: u64 = 0xc000;
const X: u64 = 0x1000;
const Y: u64 = 0x2000;

fn fault(gpa: u64) -> Event {
    Event::PageFaultEvent(PageFaultEvent { faulted_gpa: gpa, register_values: None })
}

fn step(retired: u32) -> Event {
    Event::StepEvent(SevStepEvent {
        retired_instructions: retired,
        register_values: None,
        cache_trace: None,
    })
}

fn step_at(retired: u32, rip: u64) -> Event {
    let mut register_values = [0u64; REGISTER_COUNT];
    register_values[1] = rip;
    Event::StepEvent(SevStepEvent {
        retired_instructions: retired,
        register_values: Some(RegisterSnapshot { register_values }),
        cache_trace: None,
    })
}

/// A connection with nothing pending.
fn idle_api() -> SevStep {
    let mut api = SevStep::new(false, never_aborted(), true);
    assert!(api.complete_call(0).is_ok());
    api
}

/// Takes all pending calls off the connection, each answered with success.
fn drain(api: &mut SevStep) -> Vec<ControlCall> {
    let mut calls = Vec::new();
    while let Some(call) = api.next_call() {
        assert!(api.complete_call(0).is_ok());
        calls.push(call);
    }
    calls
}

fn describe(calls: &[ControlCall]) -> Vec<String> {
    calls.iter().map(|c| format!("{:?}", c)).collect()
}

fn other_message(r: Result<StateMachineNextAction, SevStepError>) -> String {
    match r {
        Err(SevStepError::Other { message, .. }) => message,
        other => panic!("unexpected {:?}", other),
    }
}

#[test]
fn skip_if_not_on_target_walks_through_its_four_transitions() {
    let mut api = idle_api();
    let mut ctx = Context::new();
    let mut h = SkipIfNotOnTargetGPAs::new(&[A, B], PageTrackMode::Exec, 0x38);

    // off target, fault off target: skipped, nothing asked of the driver
    let r = h.process(&fault(X), &mut api, &mut ctx);
    assert!(matches!(r, Ok(StateMachineNextAction::SKIP)));
    assert!(drain(&mut api).is_empty());

    // off target, fault on target: entered
    let r = h.process(&fault(A), &mut api, &mut ctx);
    assert!(matches!(r, Ok(StateMachineNextAction::NEXT)));
    assert_eq!(
        describe(&drain(&mut api)),
        vec![
            "TrackAllPages { track_mode: Exec }".to_string(),
            format!("UntrackPage {{ gpa: {}, track_mode: Exec }}", A),
            format!("UntrackPage {{ gpa: {}, track_mode: Exec }}", B),
            format!(
                "StartStepping {{ timer_value: 56, target_gpas: [{}, {}], flush_tlb: true }}",
                A, B
            ),
        ]
    );

    // on target, a second fault on target: cannot be
    let r = h.process(&fault(B), &mut api, &mut ctx);
    assert_eq!(
        other_message(r),
        "Internal state assumed to be on victim pages but got page fault for victim page. This should never happen"
    );
    assert!(drain(&mut api).is_empty());

    // on target, fault off target: left
    let r = h.process(&fault(Y), &mut api, &mut ctx);
    assert!(matches!(r, Ok(StateMachineNextAction::SKIP)));
    assert_eq!(
        describe(&drain(&mut api)),
        vec![
            "StopStepping".to_string(),
            "UntrackAllPages { track_mode: Exec }".to_string(),
            format!("TrackPage {{ gpa: {}, track_mode: Exec }}", A),
            format!("TrackPage {{ gpa: {}, track_mode: Exec }}", B),
        ]
    );

    // and off target again
    let r = h.process(&fault(X), &mut api, &mut ctx);
    assert!(matches!(r, Ok(StateMachineNextAction::SKIP)));
}

#[test]
fn skip_if_not_on_target_passes_step_events_in_either_state() {
    let mut api = idle_api();
    let mut ctx = Context::new();
    let mut h = SkipIfNotOnTargetGPAs::new(&[A], PageTrackMode::Access, 1);
    assert!(matches!(h.process(&step(1), &mut api, &mut ctx), Ok(StateMachineNextAction::NEXT)));
    assert!(matches!(h.process(&fault(A), &mut api, &mut ctx), Ok(StateMachineNextAction::NEXT)));
    assert!(matches!(h.process(&step(0), &mut api, &mut ctx), Ok(StateMachineNextAction::NEXT)));
}

#[test]
fn skip_if_not_on_target_counts_a_repeated_target_once() {
    let mut api = idle_api();
    let mut ctx = Context::new();
    let mut h = SkipIfNotOnTargetGPAs::new(&[B, A, B, B, A], PageTrackMode::Write, 7);
    assert!(matches!(h.process(&fault(A), &mut api, &mut ctx), Ok(StateMachineNextAction::NEXT)));
    assert_eq!(
        describe(&drain(&mut api)),
        vec![
            "TrackAllPages { track_mode: Write }".to_string(),
            format!("UntrackPage {{ gpa: {}, track_mode: Write }}", B),
            format!("UntrackPage {{ gpa: {}, track_mode: Write }}", A),
            format!("StartStepping {{ timer_value: 7, target_gpas: [{}, {}], flush_tlb: true }}", B, A),
        ]
    );
}

#[test]
fn histogram_counts_step_sizes() {
    let mut api = idle_api();
    let mut ctx = Context::new();
    let mut h = BuildStepHistogram::new();
    for size in [1u32, 1, 0, 1, 2] {
        let r = h.process(&step(size), &mut api, &mut ctx);
        assert!(matches!(r, Ok(StateMachineNextAction::NEXT)));
    }
    let values = h.get_values();
    assert_eq!(values.len(), 3);
    assert_eq!(values.get(&1), Some(&3));
    assert_eq!(values.get(&0), Some(&1));
    assert_eq!(values.get(&2), Some(&1));
}

#[test]
fn histogram_passes_page_faults_by() {
    let mut api = idle_api();
    let mut ctx = Context::new();
    let mut h = BuildStepHistogram::new();
    assert!(matches!(h.process(&fault(A), &mut api, &mut ctx), Ok(StateMachineNextAction::NEXT)));
    assert!(h.get_values().is_empty());
    assert!(drain(&mut api).is_empty());
    assert_eq!(h.get_name(), "BuildStepHistogram");
}

#[test]
fn stop_after_n_shuts_down_once_the_count_exceeds_n() {
    let mut api = idle_api();
    let mut ctx = Context::new();
    let mut h = StopAfterNSingleStepsHandler::new(2, None);
    assert!(StopAfterNSingleStepsHandler::get_step_counter_from_ctx(&ctx).is_err());
    assert!(matches!(h.process(&step(1), &mut api, &mut ctx), Ok(StateMachineNextAction::NEXT)));
    // steps that retired nothing and page faults are not counted
    assert!(matches!(h.process(&step(0), &mut api, &mut ctx), Ok(StateMachineNextAction::NEXT)));
    assert!(matches!(h.process(&fault(A), &mut api, &mut ctx), Ok(StateMachineNextAction::NEXT)));
    assert_eq!(StopAfterNSingleStepsHandler::get_step_counter_from_ctx(&ctx).unwrap(), 1);
    assert!(matches!(h.process(&step(1), &mut api, &mut ctx), Ok(StateMachineNextAction::NEXT)));
    assert_eq!(StopAfterNSingleStepsHandler::get_step_counter_from_ctx(&ctx).unwrap(), 2);
    assert!(matches!(
        h.process(&step(1), &mut api, &mut ctx),
        Ok(StateMachineNextAction::SHUTDOWN)
    ));
    assert_eq!(StopAfterNSingleStepsHandler::get_step_counter_from_ctx(&ctx).unwrap(), 3);
    assert_eq!(h.get_name(), "StopAfterNStepsHandler");
}

#[test]
fn stop_after_n_counts_a_multi_step_as_one() {
    let mut api = idle_api();
    let mut ctx = Context::new();
    let mut h = StopAfterNSingleStepsHandler::new(5, None);
    assert!(matches!(h.process(&step(4), &mut api, &mut ctx), Ok(StateMachineNextAction::NEXT)));
    assert_eq!(StopAfterNSingleStepsHandler::get_step_counter_from_ctx(&ctx).unwrap(), 1);
}

#[test]
fn stop_after_n_checks_expected_instruction_pointers() {
    let mut api = idle_api();
    let mut ctx = Context::new();
    let mut h = StopAfterNSingleStepsHandler::new(10, Some(vec![0x400, 0x404]));
    assert!(matches!(
        h.process(&step_at(1, 0x400), &mut api, &mut ctx),
        Ok(StateMachineNextAction::NEXT)
    ));
    assert_eq!(
        other_message(h.process(&step_at(1, 0x999), &mut api, &mut ctx)),
        "at step 2, expected RIP 0x404 got 0x999"
    );
    // the failed step was not counted
    assert_eq!(StopAfterNSingleStepsHandler::get_step_counter_from_ctx(&ctx).unwrap(), 1);
    assert_eq!(
        other_message(h.process(&step(1), &mut api, &mut ctx)),
        "failed to get RIP to compare against expected rip values"
    );
    assert!(matches!(
        h.process(&step_at(1, 0x404), &mut api, &mut ctx),
        Ok(StateMachineNextAction::NEXT)
    ));
    // beyond the list nothing is compared
    assert!(matches!(h.process(&step(1), &mut api, &mut ctx), Ok(StateMachineNextAction::NEXT)));
}

#[test]
fn retrack_tracks_a_page_again_one_fault_later() {
    let mut api = idle_api();
    let mut ctx = Context::new();
    let gpas: HashSet<u64> = [A, B].into_iter().collect();
    let mut h = RetrackGPASet::new(gpas, PageTrackMode::Access, None);
    assert!(RetrackGPASet::get_current_gpa_from_ctx(&ctx).is_err());

    assert!(matches!(h.process(&fault(A), &mut api, &mut ctx), Ok(StateMachineNextAction::NEXT)));
    assert!(drain(&mut api).is_empty());
    assert_eq!(RetrackGPASet::get_current_gpa_from_ctx(&ctx).unwrap(), A);

    assert!(matches!(h.process(&fault(B), &mut api, &mut ctx), Ok(StateMachineNextAction::NEXT)));
    assert_eq!(
        describe(&drain(&mut api)),
        vec![format!("TrackPage {{ gpa: {}, track_mode: Access }}", A)]
    );
    assert_eq!(RetrackGPASet::get_current_gpa_from_ctx(&ctx).unwrap(), B);

    // a fault outside the set still has the waiting page tracked again
    assert!(matches!(h.process(&fault(X), &mut api, &mut ctx), Ok(StateMachineNextAction::NEXT)));
    assert_eq!(
        describe(&drain(&mut api)),
        vec![format!("TrackPage {{ gpa: {}, track_mode: Access }}", B)]
    );
    // and leaves nothing waiting
    assert!(matches!(h.process(&fault(Y), &mut api, &mut ctx), Ok(StateMachineNextAction::NEXT)));
    assert!(drain(&mut api).is_empty());
    assert!(matches!(h.process(&step(1), &mut api, &mut ctx), Ok(StateMachineNextAction::NEXT)));
    assert_eq!(h.get_name(), "RetrackGPASet");
}

#[test]
fn retrack_fails_on_a_second_fault_for_the_waiting_page() {
    let mut api = idle_api();
    let mut ctx = Context::new();
    let gpas: HashSet<u64> = [A].into_iter().collect();
    let mut h = RetrackGPASet::new(gpas, PageTrackMode::Access, None);
    assert!(matches!(h.process(&fault(A), &mut api, &mut ctx), Ok(StateMachineNextAction::NEXT)));
    assert_eq!(
        other_message(h.process(&fault(A), &mut api, &mut ctx)),
        "got second fault for gpa 0xa000"
    );
    assert!(drain(&mut api).is_empty());
}

#[test]
fn retrack_shuts_down_at_the_iteration_limit() {
    let mut api = idle_api();
    let mut ctx = Context::new();
    let gpas: HashSet<u64> = [A, B].into_iter().collect();
    let mut h = RetrackGPASet::new(gpas, PageTrackMode::Exec, Some(3));
    assert!(matches!(h.process(&fault(A), &mut api, &mut ctx), Ok(StateMachineNextAction::NEXT)));
    assert!(matches!(h.process(&step(1), &mut api, &mut ctx), Ok(StateMachineNextAction::NEXT)));
    assert!(matches!(h.process(&fault(B), &mut api, &mut ctx), Ok(StateMachineNextAction::NEXT)));
    assert!(matches!(
        h.process(&fault(A), &mut api, &mut ctx),
        Ok(StateMachineNextAction::SHUTDOWN)
    ));
}

/// Feeds the faults to the handler until it is done or fails; says how
/// many were consumed and how it ended.
fn feed(
    h: &mut SkipUntilPageFaultSequence,
    stream: &[u64],
) -> (usize, Option<EventHandlerOutcome>) {
    let mut api = idle_api();
    let mut ctx = Context::new();
    for (i, gpa) in stream.iter().enumerate() {
        match h.process(&fault(*gpa), &mut api, &mut ctx).unwrap() {
            None => {}
            Some(outcome) => return (i, Some(outcome)),
        }
    }
    (stream.len(), None)
}

fn pending_gpa(outcome: &EventHandlerOutcome) -> u64 {
    match &outcome.pending_event {
        Event::PageFaultEvent(e) => e.faulted_gpa,
        other => panic!("unexpected {:?}", other),
    }
}

#[test]
fn scattered_matching_ignores_faults_in_between() {
    let mut h = SkipUntilPageFaultSequence::new(vec![A, B, C], SequenceMatchingStrategy::Scattered);
    let (at, outcome) = feed(&mut h, &[A, X, B, Y, C]);
    let outcome = outcome.unwrap();
    assert_eq!(at, 4);
    assert!(matches!(outcome.next_action, StateMachineNextAction::NEXT));
    assert_eq!(pending_gpa(&outcome), C);
}

#[test]
fn strict_matching_with_abort_fails_at_the_first_fault_in_between() {
    let mut h =
        SkipUntilPageFaultSequence::new(vec![A, B, C], SequenceMatchingStrategy::StrictWithAbort);
    let (at, outcome) = feed(&mut h, &[A, X, B, Y, C]);
    let outcome = outcome.unwrap();
    assert_eq!(at, 1);
    assert_eq!(pending_gpa(&outcome), X);
    match outcome.next_action {
        StateMachineNextAction::ErrorShutdown(message) => assert_eq!(
            message,
            "requested StrictWithAbort matching and at idx 1 we got fault at gpa 0x1000 instead of expected 0xb000"
        ),
        other => panic!("unexpected {:?}", other),
    }
}

#[test]
fn strict_matching_with_reset_starts_over() {
    let mut h =
        SkipUntilPageFaultSequence::new(vec![A, B, C], SequenceMatchingStrategy::StrictWithReset);
    let (at, outcome) = feed(&mut h, &[A, X, A, B, C]);
    let outcome = outcome.unwrap();
    assert_eq!(at, 4);
    assert!(matches!(outcome.next_action, StateMachineNextAction::NEXT));
    assert_eq!(pending_gpa(&outcome), C);
}

#[test]
fn strict_matching_with_reset_does_not_finish_on_an_interrupted_sequence() {
    let mut h =
        SkipUntilPageFaultSequence::new(vec![A, B, C], SequenceMatchingStrategy::StrictWithReset);
    let (at, outcome) = feed(&mut h, &[A, X, B, Y, C]);
    assert_eq!(at, 5);
    assert!(outcome.is_none());
}

#[test]
fn page_fault_sequence_consumes_step_events() {
    let mut api = idle_api();
    let mut ctx = Context::new();
    let mut h = SkipUntilPageFaultSequence::new(vec![A], SequenceMatchingStrategy::Scattered);
    assert!(h.process(&step(1), &mut api, &mut ctx).unwrap().is_none());
    let outcome = h.process(&fault(A), &mut api, &mut ctx).unwrap().unwrap();
    assert!(matches!(outcome.next_action, StateMachineNextAction::NEXT));
    assert_eq!(h.get_name(), "SkipUntilPageFaultSequence");
}

#[test]
fn empty_page_fault_sequence_hands_on_at_once() {
    let mut api = idle_api();
    let mut ctx = Context::new();
    let mut h = SkipUntilPageFaultSequence::new(vec![], SequenceMatchingStrategy::StrictWithAbort);
    let outcome = h.process(&fault(X), &mut api, &mut ctx).unwrap().unwrap();
    assert!(matches!(outcome.next_action, StateMachineNextAction::NEXT));
    assert_eq!(pending_gpa(&outcome), X);
}

#[test]
fn skip_until_n_single_steps_counts_single_steps_only() {
    let mut api = idle_api();
    let mut ctx = Context::new();
    let mut h = SkipUntilNSingleSteps::new(3, None);
    assert!(h.process(&fault(A), &mut api, &mut ctx).unwrap().is_none());
    assert!(h.process(&step(1), &mut api, &mut ctx).unwrap().is_none());
    assert!(h.process(&step(0), &mut api, &mut ctx).unwrap().is_none());
    assert!(h.process(&step(2), &mut api, &mut ctx).unwrap().is_none());
    assert!(h.process(&step(1), &mut api, &mut ctx).unwrap().is_none());
    let outcome = h.process(&step(1), &mut api, &mut ctx).unwrap().unwrap();
    assert!(matches!(outcome.next_action, StateMachineNextAction::NEXT));
    assert!(matches!(outcome.pending_event, Event::StepEvent(_)));
    assert_eq!(h.get_name(), "SkipUntilNSingleSteps");
}

#[test]
fn skip_until_n_single_steps_gives_up_after_too_many_zero_steps() {
    let mut api = idle_api();
    let mut ctx = Context::new();
    let mut h = SkipUntilNSingleSteps::new(3, None);
    for _ in 0..10 {
        assert!(h.process(&step(0), &mut api, &mut ctx).unwrap().is_none());
    }
    let outcome = h.process(&step(0), &mut api, &mut ctx).unwrap().unwrap();
    match outcome.next_action {
        StateMachineNextAction::ErrorShutdown(message) => {
            assert_eq!(message, "SkipUntilNSingleSteps: got 11 consecutive zero steps")
        }
        other => panic!("unexpected {:?}", other),
    }
}

#[test]
fn skip_until_n_single_steps_forgets_zero_steps_after_a_real_step() {
    let mut api = idle_api();
    let mut ctx = Context::new();
    let mut h = SkipUntilNSingleSteps::new(100, None);
    for _ in 0..3 {
        for _ in 0..10 {
            assert!(h.process(&step(0), &mut api, &mut ctx).unwrap().is_none());
        }
        assert!(h.process(&step(1), &mut api, &mut ctx).unwrap().is_none());
    }
}

#[test]
fn skip_until_n_single_steps_checks_expected_instruction_pointers() {
    let mut api = idle_api();
    let mut ctx = Context::new();
    let mut h = SkipUntilNSingleSteps::new(5, Some(vec![0x10, 0x14]));
    assert!(h.process(&step_at(1, 0x10), &mut api, &mut ctx).unwrap().is_none());
    match h.process(&step(1), &mut api, &mut ctx) {
        Err(SevStepError::Other { message, .. }) => {
            assert_eq!(message, "failed to get RIP to compare against expected rip values")
        }
        other => panic!("unexpected {:?}", other),
    }
    let outcome = h.process(&step_at(1, 0x18), &mut api, &mut ctx).unwrap().unwrap();
    match outcome.next_action {
        StateMachineNextAction::ErrorShutdown(message) => {
            assert_eq!(message, "at step 2, expected RIP 0x14 got 0x18")
        }
        other => panic!("unexpected {:?}", other),
    }
}

#[test]
fn handler_sum_type_behaves_as_the_handler_inside() {
    let mut api = idle_api();
    let mut ctx = Context::new();
    let mut h = Handler::StopAfterNSingleSteps(StopAfterNSingleStepsHandler::new(0, None));
    assert!(matches!(
        h.process(&step(1), &mut api, &mut ctx),
        Ok(StateMachineNextAction::SHUTDOWN)
    ));
    assert_eq!(h.get_name(), "StopAfterNStepsHandler");
    let mut c = ComposableHandler::SkipUntilNSingleSteps(SkipUntilNSingleSteps::new(1, None));
    let outcome = c.process(&step(1), &mut api, &mut ctx).unwrap().unwrap();
    assert!(matches!(outcome.next_action, StateMachineNextAction::NEXT));
    assert_eq!(c.get_name(), "SkipUntilNSingleSteps");
}

#[test]
fn cache_trace_travels_with_a_cloned_event() {
    let event = Event::StepEvent(SevStepEvent {
        retired_instructions: 1,
        register_values: None,
        cache_trace: Some(CacheTrace { timing_probes: vec![5, 6], perf_counter_probes: vec![7, 8] }),
    });
    match event.clone() {
        Event::StepEvent(e) => {
            let trace = e.get_cache_trace().unwrap();
            assert_eq!(trace.timing_probes, vec![5, 6]);
            assert_eq!(trace.perf_counter_probes, vec![7, 8]);
        }
        other => panic!("unexpected {:?}", other),
    }
}

fn histogram_of(sizes: &[u32]) -> BuildStepHistogram {
    let mut api = idle_api();
    let mut ctx = Context::new();
    let mut h = BuildStepHistogram::new();
    for size in sizes {
        assert!(h.process(&step(*size), &mut api, &mut ctx).is_ok());
    }
    h
}

#[test]
fn clean_single_stepping_is_recognised() {
    assert!(histogram_of(&[1, 1, 1]).stepped_singly(100));
    assert!(histogram_of(&[1, 0, 1, 0, 1]).stepped_singly(3));
    assert!(!histogram_of(&[1, 0, 1, 0, 1]).stepped_singly(4));
    assert!(!histogram_of(&[1, 2, 1]).stepped_singly(1));
    assert!(!histogram_of(&[0, 0]).stepped_singly(0));
    assert!(!histogram_of(&[]).stepped_singly(0));
    assert!(!histogram_of(&[1, 0, 2]).stepped_singly(1));
}
