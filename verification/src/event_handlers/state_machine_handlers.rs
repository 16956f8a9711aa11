//! Handlers that wait for something to happen: a sequence of page faults,
//! a number of single steps.

use vstd::prelude::*;
use vstd::string::StringExecFns;
use crate::api::{Event, EventView, SevStep, SevStepError, SevStepErrorView, SevStepView};
use crate::context::Context;
use crate::event_handlers::{
    ComposableEventHandler, Composed, EventHandlerOutcome, EventHandlerOutcomeView, give_up, hand_on,
    outcome_view,
};
use crate::single_stepper::{
    StateMachineNextAction, StateMachineNextActionView, clone_optional_values, clone_values,
    count_up, expected_rip, rip_mismatch_message, rip_mismatch_text, values_view,
};
use crate::text::{decimal, hex, spec_decimal, spec_hex};
use crate::types::VmsaRegister;

verus! {

/// What a page fault does that is not the next one of the sequence.
#[derive(Clone, Copy, Debug, PartialEq, Eq, Structural)]
pub enum SequenceMatchingStrategy {
    /// It sets the progress back to the start of the sequence.
    StrictWithReset,
    /// It ends the run with an error.
    StrictWithAbort,
    /// It is ignored.
    Scattered,
}

/// Consumes events until a given sequence of page faults has been seen.
/// Tracking has to be set up already.
pub struct SkipUntilPageFaultSequence {
    idx_next_pf: usize,
    pf_sequence: Vec<u64>,
    matching: SequenceMatchingStrategy,
}

/// The handler as contracts see it: how far the sequence has come.
pub struct SkipUntilPageFaultSequenceView {
    pub idx_next_pf: usize,
    pub pf_sequence: Seq<u64>,
    pub matching: SequenceMatchingStrategy,
}

/// What one call of a composable handler amounts to: the handler
/// afterwards and what it returned.
pub struct Consumed<S> {
    pub state: S,
    pub result: Result<Option<EventHandlerOutcomeView>, SevStepErrorView>,
}

impl<S> Consumed<S> {
    /// The same, as a chain sees it: with the connection and the context,
    /// which the handlers of this module leave as they are.
    pub open spec fn on(self, api: SevStepView, ctx: Map<Seq<char>, Seq<u8>>) -> Composed<S> {
        Composed { state: self.state, api, ctx, result: self.result }
    }
}

/// The text of the error for a page fault that breaks a sequence under
/// strict matching with abort.
pub open spec fn broken_sequence_text(idx: nat, got: u64, expected: u64) -> Seq<char> {
    "requested StrictWithAbort matching and at idx "@ + spec_decimal(idx)
        + " we got fault at gpa 0x"@ + spec_hex(got as nat) + " instead of expected 0x"@ + spec_hex(
        expected as nat,
    )
}

fn broken_sequence_message(idx: usize, got: u64, expected: u64) -> (r: String)
    ensures
        r@ == broken_sequence_text(idx as nat, got, expected),
{
    let mut text: String = "requested StrictWithAbort matching and at idx ".to_owned();
    text.append(decimal(idx as u64).as_str());
    text.append(" we got fault at gpa 0x");
    text.append(hex(got).as_str());
    text.append(" instead of expected 0x");
    text.append(hex(expected).as_str());
    text
}

/// The text of the error for too many steps in a row that retired
/// nothing.
pub open spec fn zero_steps_text(count: nat) -> Seq<char> {
    "SkipUntilNSingleSteps: got "@ + spec_decimal(count) + " consecutive zero steps"@
}

fn zero_steps_message(count: usize) -> (r: String)
    ensures
        r@ == zero_steps_text(count as nat),
{
    let mut text: String = "SkipUntilNSingleSteps: got ".to_owned();
    text.append(decimal(count as u64).as_str());
    text.append(" consecutive zero steps");
    text
}

impl SkipUntilPageFaultSequenceView {
    /// The progress after a page fault at `gpa`, where the sequence is not
    /// complete yet and the matching does not abort on this fault.
    pub open spec fn advance(self, gpa: u64) -> usize {
        if gpa == self.pf_sequence[self.idx_next_pf as int] {
            (self.idx_next_pf + 1) as usize
        } else if self.matching == SequenceMatchingStrategy::StrictWithReset {
            0
        } else {
            self.idx_next_pf
        }
    }

    /// Step events are consumed. A page fault is consumed as long as the
    /// sequence is not complete with it: the expected one advances the
    /// progress, any other one is treated as the matching says. The fault
    /// that completes the sequence stays pending and the chain goes on. A
    /// handler whose sequence is complete already hands on at once.
    pub open spec fn process(self, event: EventView) -> Consumed<SkipUntilPageFaultSequenceView> {
        match event {
            EventView::StepEvent(_) => Consumed { state: self, result: Ok(None) },
            EventView::PageFaultEvent(fault) => {
                if self.idx_next_pf >= self.pf_sequence.len() {
                    Consumed { state: self, result: hand_on(event) }
                } else if fault.faulted_gpa != self.pf_sequence[self.idx_next_pf as int]
                    && self.matching == SequenceMatchingStrategy::StrictWithAbort {
                    Consumed {
                        state: self,
                        result: give_up(
                            event,
                            broken_sequence_text(
                                self.idx_next_pf as nat,
                                fault.faulted_gpa,
                                self.pf_sequence[self.idx_next_pf as int],
                            ),
                        ),
                    }
                } else {
                    let idx = self.advance(fault.faulted_gpa);
                    Consumed {
                        state: SkipUntilPageFaultSequenceView { idx_next_pf: idx, ..self },
                        result: if idx == self.pf_sequence.len() {
                            hand_on(event)
                        } else {
                            Ok(None)
                        },
                    }
                }
            },
        }
    }
}

/// A page fault at `gpa` without registers.
pub open spec fn fault_at(gpa: u64) -> EventView {
    EventView::PageFaultEvent(
        crate::api::PageFaultEventView { faulted_gpa: gpa, register_values: None },
    )
}

/// Where a handler stands after a stream of events: how many events it
/// consumed, and what it returned for the one after them, or nothing if
/// it consumed the whole stream.
pub struct Fed {
    pub state: SkipUntilPageFaultSequenceView,
    pub consumed: nat,
    pub result: Result<Option<EventHandlerOutcomeView>, SevStepErrorView>,
}

impl SkipUntilPageFaultSequenceView {
    /// The handler after the page faults `faults`, one call for each, up
    /// to the first call that does not consume its fault.
    pub open spec fn feed(self, faults: Seq<u64>) -> Fed
        decreases faults.len(),
    {
        if faults.len() == 0 {
            Fed { state: self, consumed: 0, result: Ok(None) }
        } else {
            let step = self.process(fault_at(faults[0]));
            if step.result == Ok::<Option<EventHandlerOutcomeView>, SevStepErrorView>(None) {
                let rest = step.state.feed(faults.drop_first());
                Fed { consumed: rest.consumed + 1, ..rest }
            } else {
                Fed { state: step.state, consumed: 0, result: step.result }
            }
        }
    }
}

/// Scattered matching passes over page faults in between: the sequence
/// `a`, `b`, `c` is complete with the last fault of `a`, `x`, `b`, `y`,
/// `c`, where `x` and `y` are not the faults that were due.
pub proof fn lemma_scattered_passes_over(a: u64, b: u64, c: u64, x: u64, y: u64)
    requires
        x != b,
        y != c,
    ensures
        ({
            let handler = SkipUntilPageFaultSequenceView {
                idx_next_pf: 0,
                pf_sequence: seq![a, b, c],
                matching: SequenceMatchingStrategy::Scattered,
            };
            let fed = handler.feed(seq![a, x, b, y, c]);
            fed.consumed == 4 && fed.result == hand_on(fault_at(c))
        }),
{
    let h0 = SkipUntilPageFaultSequenceView {
        idx_next_pf: 0,
        pf_sequence: seq![a, b, c],
        matching: SequenceMatchingStrategy::Scattered,
    };
    let s0 = seq![a, x, b, y, c];
    let s1 = seq![x, b, y, c];
    let s2 = seq![b, y, c];
    let s3 = seq![y, c];
    let s4 = seq![c];
    assert(s0.drop_first() =~= s1);
    assert(s1.drop_first() =~= s2);
    assert(s2.drop_first() =~= s3);
    assert(s3.drop_first() =~= s4);
    let h1 = SkipUntilPageFaultSequenceView { idx_next_pf: 1, ..h0 };
    let h2 = SkipUntilPageFaultSequenceView { idx_next_pf: 2, ..h0 };
    assert(h0.process(fault_at(a)).state == h1);
    assert(h1.process(fault_at(x)).state == h1);
    assert(h1.process(fault_at(b)).state == h2);
    assert(h2.process(fault_at(y)).state == h2);
    assert(h2.feed(s4).consumed == 0 && h2.feed(s4).result == hand_on(fault_at(c)));
    assert(h2.feed(s3).consumed == 1 && h2.feed(s3).result == hand_on(fault_at(c)));
    assert(h1.feed(s2).consumed == 2 && h1.feed(s2).result == hand_on(fault_at(c)));
    assert(h1.feed(s1).consumed == 3 && h1.feed(s1).result == hand_on(fault_at(c)));
}

/// Strict matching with abort fails at the first page fault in between:
/// on `a`, `x`, and whatever follows, where `x` is not the `b` that was
/// due, the handler gives up with `x` pending.
pub proof fn lemma_strict_with_abort_fails(a: u64, b: u64, c: u64, x: u64, rest: Seq<u64>)
    requires
        x != b,
    ensures
        ({
            let handler = SkipUntilPageFaultSequenceView {
                idx_next_pf: 0,
                pf_sequence: seq![a, b, c],
                matching: SequenceMatchingStrategy::StrictWithAbort,
            };
            let fed = handler.feed(seq![a, x] + rest);
            &&& fed.consumed == 1
            &&& fed.result matches Ok(Some(outcome))
            &&& outcome.pending_event == fault_at(x)
            &&& outcome.next_action is ErrorShutdown
        }),
{
    let h0 = SkipUntilPageFaultSequenceView {
        idx_next_pf: 0,
        pf_sequence: seq![a, b, c],
        matching: SequenceMatchingStrategy::StrictWithAbort,
    };
    let s0 = seq![a, x] + rest;
    let s1 = seq![x] + rest;
    assert(s0.drop_first() =~= s1);
    assert(s0[0] == a);
    assert(s1[0] == x);
    let h1 = SkipUntilPageFaultSequenceView { idx_next_pf: 1, ..h0 };
    assert(h0.process(fault_at(a)).state == h1);
    assert(h1.feed(s1).consumed == 0);
}

/// Strict matching with reset starts over at a page fault in between:
/// the sequence `a`, `b`, `c` is complete with the last fault of `a`,
/// `x`, `a`, `b`, `c`, where `x` is not the `b` that was due.
pub proof fn lemma_strict_with_reset_starts_over(a: u64, b: u64, c: u64, x: u64)
    requires
        x != b,
    ensures
        ({
            let handler = SkipUntilPageFaultSequenceView {
                idx_next_pf: 0,
                pf_sequence: seq![a, b, c],
                matching: SequenceMatchingStrategy::StrictWithReset,
            };
            let fed = handler.feed(seq![a, x, a, b, c]);
            fed.consumed == 4 && fed.result == hand_on(fault_at(c))
        }),
{
    let h0 = SkipUntilPageFaultSequenceView {
        idx_next_pf: 0,
        pf_sequence: seq![a, b, c],
        matching: SequenceMatchingStrategy::StrictWithReset,
    };
    let s0 = seq![a, x, a, b, c];
    let s1 = seq![x, a, b, c];
    let s2 = seq![a, b, c];
    let s3 = seq![b, c];
    let s4 = seq![c];
    assert(s0.drop_first() =~= s1);
    assert(s1.drop_first() =~= s2);
    assert(s2.drop_first() =~= s3);
    assert(s3.drop_first() =~= s4);
    let h1 = SkipUntilPageFaultSequenceView { idx_next_pf: 1, ..h0 };
    let h2 = SkipUntilPageFaultSequenceView { idx_next_pf: 2, ..h0 };
    assert(h0.process(fault_at(a)).state == h1);
    assert(h1.process(fault_at(x)).state == h0);
    assert(h1.process(fault_at(b)).state == h2);
    assert(h2.feed(s4).consumed == 0 && h2.feed(s4).result == hand_on(fault_at(c)));
    assert(h1.feed(s3).consumed == 1 && h1.feed(s3).result == hand_on(fault_at(c)));
    assert(h0.feed(s2).consumed == 2 && h0.feed(s2).result == hand_on(fault_at(c)));
    assert(h1.feed(s1).consumed == 3 && h1.feed(s1).result == hand_on(fault_at(c)));
}

impl View for SkipUntilPageFaultSequence {
    type V = SkipUntilPageFaultSequenceView;

    closed spec fn view(&self) -> SkipUntilPageFaultSequenceView {
        SkipUntilPageFaultSequenceView {
            idx_next_pf: self.idx_next_pf,
            pf_sequence: self.pf_sequence@,
            matching: self.matching,
        }
    }
}

impl SkipUntilPageFaultSequence {
    /// A handler that waits for page faults at the addresses
    /// `pf_sequence`, in this order; `matching` says what other page
    /// faults in between do.
    pub fn new(pf_sequence: Vec<u64>, matching: SequenceMatchingStrategy) -> (r:
        SkipUntilPageFaultSequence)
        ensures
            r@ == (SkipUntilPageFaultSequenceView {
                idx_next_pf: 0,
                pf_sequence: pf_sequence@,
                matching,
            }),
    {
        SkipUntilPageFaultSequence { idx_next_pf: 0, pf_sequence, matching }
    }
}

impl ComposableEventHandler for SkipUntilPageFaultSequence {
    type Model = SkipUntilPageFaultSequenceView;

    open spec fn model(&self) -> SkipUntilPageFaultSequenceView {
        self@
    }

    open spec fn name(m: SkipUntilPageFaultSequenceView) -> Seq<char> {
        "SkipUntilPageFaultSequence"@
    }

    open spec fn processed(
        m: SkipUntilPageFaultSequenceView,
        event: EventView,
        api: SevStepView,
        ctx: Map<Seq<char>, Seq<u8>>,
    ) -> Composed<SkipUntilPageFaultSequenceView> {
        m.process(event).on(api, ctx)
    }

    fn process(&mut self, event: &Event, api: &mut SevStep, ctx: &mut Context) -> (r: Result<
        Option<EventHandlerOutcome>,
        SevStepError,
    >)
        ensures
            final(self)@ == old(self)@.process(event@).state,
            final(api)@ == old(api)@,
            final(ctx)@ == old(ctx)@,
            outcome_view(r) == old(self)@.process(event@).result,
    {
        let pf_event = match event {
            Event::PageFaultEvent(v) => v,
            Event::StepEvent(_) => {
                return Ok(None);
            },
        };
        if self.idx_next_pf >= self.pf_sequence.len() {
            return Ok(
                Some(
                    EventHandlerOutcome {
                        pending_event: event.clone(),
                        next_action: StateMachineNextAction::NEXT,
                    },
                ),
            );
        }
        let expected_gpa = self.pf_sequence[self.idx_next_pf];
        if pf_event.faulted_gpa == expected_gpa {
            self.idx_next_pf = self.idx_next_pf + 1;
        } else {
            match self.matching {
                SequenceMatchingStrategy::StrictWithReset => {
                    self.idx_next_pf = 0;
                },
                SequenceMatchingStrategy::StrictWithAbort => {
                    return Ok(
                        Some(
                            EventHandlerOutcome {
                                pending_event: event.clone(),
                                next_action: StateMachineNextAction::ErrorShutdown(
                                    broken_sequence_message(
                                        self.idx_next_pf,
                                        pf_event.faulted_gpa,
                                        expected_gpa,
                                    ),
                                ),
                            },
                        ),
                    );
                },
                SequenceMatchingStrategy::Scattered => {},
            }
        }
        if self.idx_next_pf == self.pf_sequence.len() {
            return Ok(
                Some(
                    EventHandlerOutcome {
                        pending_event: event.clone(),
                        next_action: StateMachineNextAction::NEXT,
                    },
                ),
            );
        }
        Ok(None)
    }

    fn get_name(&self) -> (r: &str)
        ensures
            r@ == "SkipUntilPageFaultSequence"@,
    {
        "SkipUntilPageFaultSequence"
    }

    fn snapshot(&self) -> (r: Self) {
        SkipUntilPageFaultSequence {
            idx_next_pf: self.idx_next_pf,
            pf_sequence: clone_values(&self.pf_sequence),
            matching: self.matching,
        }
    }
}

/// Number of steps in a row that may retire nothing before
/// [`SkipUntilNSingleSteps`] gives up.
pub const ZERO_STEP_ABORT_THRESH: usize = 10;

/// Consumes events until a given number of single steps has been seen.
/// Stepping has to be set up already, and stays on afterwards.
pub struct SkipUntilNSingleSteps {
    step_counter: usize,
    wanted_step_count: usize,
    expected_rip_values: Option<Vec<u64>>,
    consecutive_zero_steps: usize,
}

/// The handler as contracts see it: its counts and what it expects.
pub struct SkipUntilNSingleStepsView {
    pub step_counter: usize,
    pub wanted_step_count: usize,
    pub expected_rip_values: Option<Seq<u64>>,
    pub consecutive_zero_steps: usize,
}

impl SkipUntilNSingleStepsView {
    /// Page faults are consumed. A step that retired nothing is consumed
    /// too, unless it is one too many in a row, which is an error. A step
    /// that retired more than one instruction is consumed and not counted.
    /// A step that retired exactly one instruction is checked against the
    /// expected instruction pointer, where one was given for it, and
    /// counted; the step that makes the count full stays pending and the
    /// chain goes on.
    pub open spec fn process(self, event: EventView) -> Consumed<SkipUntilNSingleStepsView> {
        match event {
            EventView::PageFaultEvent(_) => Consumed { state: self, result: Ok(None) },
            EventView::StepEvent(step) => {
                let want = expected_rip(self.expected_rip_values, self.step_counter as int);
                let got = step.register(VmsaRegister::Rip);
                let awake = SkipUntilNSingleStepsView { consecutive_zero_steps: 0, ..self };
                if step.retired_instructions == 0 {
                    let zero_steps = count_up(
                        self.consecutive_zero_steps as int,
                        usize::MAX as int,
                    ) as usize;
                    Consumed {
                        state: SkipUntilNSingleStepsView {
                            consecutive_zero_steps: zero_steps,
                            ..self
                        },
                        result: if zero_steps > ZERO_STEP_ABORT_THRESH {
                            give_up(event, zero_steps_text(zero_steps as nat))
                        } else {
                            Ok(None)
                        },
                    }
                } else if step.retired_instructions > 1 {
                    Consumed { state: awake, result: Ok(None) }
                } else if want is Some && got is None {
                    Consumed {
                        state: awake,
                        result: Err(
                            SevStepErrorView::Other {
                                message: "failed to get RIP to compare against expected rip values"@,
                                call_status: None,
                            },
                        ),
                    }
                } else if want is Some && want != got {
                    Consumed {
                        state: awake,
                        result: give_up(
                            event,
                            rip_mismatch_text(
                                (self.step_counter + 1) as nat,
                                want.unwrap(),
                                got.unwrap(),
                            ),
                        ),
                    }
                } else {
                    let counted = count_up(self.step_counter as int, usize::MAX as int) as usize;
                    Consumed {
                        state: SkipUntilNSingleStepsView { step_counter: counted, ..awake },
                        result: if counted == self.wanted_step_count {
                            hand_on(event)
                        } else {
                            Ok(None)
                        },
                    }
                }
            },
        }
    }
}

impl View for SkipUntilNSingleSteps {
    type V = SkipUntilNSingleStepsView;

    closed spec fn view(&self) -> SkipUntilNSingleStepsView {
        SkipUntilNSingleStepsView {
            step_counter: self.step_counter,
            wanted_step_count: self.wanted_step_count,
            expected_rip_values: values_view(self.expected_rip_values),
            consecutive_zero_steps: self.consecutive_zero_steps,
        }
    }
}

impl SkipUntilNSingleSteps {
    /// A handler that waits for `wanted_step_count` single steps. With
    /// `expected_rip_values` the instruction pointer of each counted step
    /// is compared with the value at its position, as far as the list
    /// goes; this needs a guest in debug mode.
    pub fn new(wanted_step_count: usize, expected_rip_values: Option<Vec<u64>>) -> (r:
        SkipUntilNSingleSteps)
        ensures
            r@ == (SkipUntilNSingleStepsView {
                step_counter: 0,
                wanted_step_count,
                expected_rip_values: values_view(expected_rip_values),
                consecutive_zero_steps: 0,
            }),
    {
        SkipUntilNSingleSteps {
            step_counter: 0,
            wanted_step_count,
            expected_rip_values,
            consecutive_zero_steps: 0,
        }
    }
}

impl ComposableEventHandler for SkipUntilNSingleSteps {
    type Model = SkipUntilNSingleStepsView;

    open spec fn model(&self) -> SkipUntilNSingleStepsView {
        self@
    }

    open spec fn name(m: SkipUntilNSingleStepsView) -> Seq<char> {
        "SkipUntilNSingleSteps"@
    }

    open spec fn processed(
        m: SkipUntilNSingleStepsView,
        event: EventView,
        api: SevStepView,
        ctx: Map<Seq<char>, Seq<u8>>,
    ) -> Composed<SkipUntilNSingleStepsView> {
        m.process(event).on(api, ctx)
    }

    fn process(&mut self, event: &Event, api: &mut SevStep, ctx: &mut Context) -> (r: Result<
        Option<EventHandlerOutcome>,
        SevStepError,
    >)
        ensures
            final(self)@ == old(self)@.process(event@).state,
            final(api)@ == old(api)@,
            final(ctx)@ == old(ctx)@,
            outcome_view(r) == old(self)@.process(event@).result,
    {
        let step_event = match event {
            Event::PageFaultEvent(_) => {
                return Ok(None);
            },
            Event::StepEvent(v) => v,
        };
        if step_event.retired_instructions == 0 {
            if self.consecutive_zero_steps < usize::MAX {
                self.consecutive_zero_steps = self.consecutive_zero_steps + 1;
            }
            if self.consecutive_zero_steps > ZERO_STEP_ABORT_THRESH {
                return Ok(
                    Some(
                        EventHandlerOutcome {
                            pending_event: event.clone(),
                            next_action: StateMachineNextAction::ErrorShutdown(
                                zero_steps_message(self.consecutive_zero_steps),
                            ),
                        },
                    ),
                );
            }
            return Ok(None);
        }
        self.consecutive_zero_steps = 0;
        if step_event.retired_instructions > 1 {
            return Ok(None);
        }
        if let Some(expected_rip_values) = &self.expected_rip_values {
            if expected_rip_values.len() > self.step_counter {
                let got_rip = match step_event.get_register(VmsaRegister::Rip) {
                    Some(v) => v,
                    None => {
                        return Err(
                            SevStepError::Other {
                                message: "failed to get RIP to compare against expected rip values".to_owned(),
                                call_status: None,
                            },
                        );
                    },
                };
                let want_rip = expected_rip_values[self.step_counter];
                if want_rip != got_rip {
                    return Ok(
                        Some(
                            EventHandlerOutcome {
                                pending_event: event.clone(),
                                next_action: StateMachineNextAction::ErrorShutdown(
                                    rip_mismatch_message(
                                        self.step_counter as u64 + 1,
                                        want_rip,
                                        got_rip,
                                    ),
                                ),
                            },
                        ),
                    );
                }
            }
        }
        if self.step_counter < usize::MAX {
            self.step_counter = self.step_counter + 1;
        }
        if self.step_counter == self.wanted_step_count {
            return Ok(
                Some(
                    EventHandlerOutcome {
                        pending_event: event.clone(),
                        next_action: StateMachineNextAction::NEXT,
                    },
                ),
            );
        }
        Ok(None)
    }

    fn get_name(&self) -> (r: &str)
        ensures
            r@ == "SkipUntilNSingleSteps"@,
    {
        "SkipUntilNSingleSteps"
    }

    fn snapshot(&self) -> (r: Self) {
        SkipUntilNSingleSteps {
            step_counter: self.step_counter,
            wanted_step_count: self.wanted_step_count,
            expected_rip_values: clone_optional_values(&self.expected_rip_values),
            consecutive_zero_steps: self.consecutive_zero_steps,
        }
    }
}

/// Either of the handlers of this module, so that a chain can hold
/// handlers of both kinds.
pub enum ComposableHandler {
    SkipUntilPageFaultSequence(SkipUntilPageFaultSequence),
    SkipUntilNSingleSteps(SkipUntilNSingleSteps),
}

/// Either handler as contracts see it.
pub enum ComposableHandlerView {
    SkipUntilPageFaultSequence(SkipUntilPageFaultSequenceView),
    SkipUntilNSingleSteps(SkipUntilNSingleStepsView),
}

impl View for ComposableHandler {
    type V = ComposableHandlerView;

    open spec fn view(&self) -> ComposableHandlerView {
        match self {
            ComposableHandler::SkipUntilPageFaultSequence(
                h,
            ) => ComposableHandlerView::SkipUntilPageFaultSequence(h@),
            ComposableHandler::SkipUntilNSingleSteps(h) => ComposableHandlerView::SkipUntilNSingleSteps(
                h@,
            ),
        }
    }
}

impl ComposableHandlerView {
    /// The name of the handler inside.
    pub open spec fn name(self) -> Seq<char> {
        match self {
            ComposableHandlerView::SkipUntilPageFaultSequence(_) => "SkipUntilPageFaultSequence"@,
            ComposableHandlerView::SkipUntilNSingleSteps(_) => "SkipUntilNSingleSteps"@,
        }
    }

    /// What the handler inside does with the event.
    pub open spec fn process(self, event: EventView) -> Consumed<ComposableHandlerView> {
        match self {
            ComposableHandlerView::SkipUntilPageFaultSequence(h) => {
                let step = h.process(event);
                Consumed {
                    state: ComposableHandlerView::SkipUntilPageFaultSequence(step.state),
                    result: step.result,
                }
            },
            ComposableHandlerView::SkipUntilNSingleSteps(h) => {
                let step = h.process(event);
                Consumed {
                    state: ComposableHandlerView::SkipUntilNSingleSteps(step.state),
                    result: step.result,
                }
            },
        }
    }
}

impl ComposableEventHandler for ComposableHandler {
    type Model = ComposableHandlerView;

    open spec fn model(&self) -> ComposableHandlerView {
        self@
    }

    open spec fn name(m: ComposableHandlerView) -> Seq<char> {
        m.name()
    }

    open spec fn processed(
        m: ComposableHandlerView,
        event: EventView,
        api: SevStepView,
        ctx: Map<Seq<char>, Seq<u8>>,
    ) -> Composed<ComposableHandlerView> {
        m.process(event).on(api, ctx)
    }

    fn process(&mut self, event: &Event, api: &mut SevStep, ctx: &mut Context) -> (r: Result<
        Option<EventHandlerOutcome>,
        SevStepError,
    >)
        ensures
            final(self)@ == old(self)@.process(event@).state,
            final(api)@ == old(api)@,
            final(ctx)@ == old(ctx)@,
            outcome_view(r) == old(self)@.process(event@).result,
    {
        match self {
            ComposableHandler::SkipUntilPageFaultSequence(h) => h.process(event, api, ctx),
            ComposableHandler::SkipUntilNSingleSteps(h) => h.process(event, api, ctx),
        }
    }

    fn get_name(&self) -> (r: &str)
        ensures
            r@ == self@.name(),
    {
        match self {
            ComposableHandler::SkipUntilPageFaultSequence(h) => h.get_name(),
            ComposableHandler::SkipUntilNSingleSteps(h) => h.get_name(),
        }
    }

    fn snapshot(&self) -> (r: Self) {
        match self {
            ComposableHandler::SkipUntilPageFaultSequence(
                h,
            ) => ComposableHandler::SkipUntilPageFaultSequence(h.snapshot()),
            ComposableHandler::SkipUntilNSingleSteps(h) => ComposableHandler::SkipUntilNSingleSteps(
                h.snapshot(),
            ),
        }
    }
}

} // verus!
