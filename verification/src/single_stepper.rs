//! Event handlers that can be chained, much like middleware, and the
//! [`TargetedStepper`] that runs such a chain: every event is handed to
//! the handlers in order, then acknowledged.

use vstd::prelude::*;
use vstd::bytes::spec_u64_to_le_bytes;
use vstd::string::StringExecFns;
use std::collections::{HashMap, HashSet};
use crate::api::{
    ControlCall, ControlCallView, Event, EventView, SevStep, SevStepError, SevStepErrorView,
    SevStepView, outcome_view,
};
use crate::context::{Context, number_view, spec_get_u64};
use crate::text::{decimal, hex, spec_decimal, spec_hex};
use crate::types::{PageTrackMode, VmsaRegister};

verus! {

/// What a handler asks of the chain after it has seen an event.
#[allow(non_camel_case_types)]
#[derive(Debug)]
pub enum StateMachineNextAction {
    /// Go on with the next handler of the chain.
    NEXT,
    /// Skip the remaining handlers for this event.
    SKIP,
    /// End the run.
    SHUTDOWN,
    /// End the run because of an error; the text says why.
    ErrorShutdown(String),
}

/// What a handler asks of the chain, as contracts see it.
#[allow(non_camel_case_types)]
pub enum StateMachineNextActionView {
    NEXT,
    SKIP,
    SHUTDOWN,
    ErrorShutdown(Seq<char>),
}

impl View for StateMachineNextAction {
    type V = StateMachineNextActionView;

    open spec fn view(&self) -> StateMachineNextActionView {
        match self {
            StateMachineNextAction::NEXT => StateMachineNextActionView::NEXT,
            StateMachineNextAction::SKIP => StateMachineNextActionView::SKIP,
            StateMachineNextAction::SHUTDOWN => StateMachineNextActionView::SHUTDOWN,
            StateMachineNextAction::ErrorShutdown(message) => StateMachineNextActionView::ErrorShutdown(
                message@,
            ),
        }
    }
}

/// The view of what a handler returns.
pub open spec fn action_view(r: Result<StateMachineNextAction, SevStepError>) -> Result<
    StateMachineNextActionView,
    SevStepErrorView,
> {
    match r {
        Ok(action) => Ok(action@),
        Err(e) => Err(e@),
    }
}

/// What one call of a handler amounts to, as a chain sees it: the handler
/// afterwards, the connection afterwards, the context afterwards and what
/// the handler returned.
pub struct Processed<M> {
    pub state: M,
    pub api: SevStepView,
    pub ctx: Map<Seq<char>, Seq<u8>>,
    pub result: Result<StateMachineNextActionView, SevStepErrorView>,
}

/// A handler that sees every event of a run, one call per event, in chain
/// order. Control calls that it requests on the connection are carried
/// out before the next handler sees the event and before the event is
/// acknowledged.
///
/// `process` requests control calls and does not wait for the driver's
/// answers, so it returns as if they had been accepted. A chain makes up
/// for that: if the driver rejects one of the calls, the chain gives up
/// the calls that are left and puts the handler back as it was before it
/// saw the event. Whoever calls `process` without a chain has to do the
/// same, with `snapshot` and [`SevStep::abandon_calls`].
///
/// A handler is a state machine: what `process` does is decided by the
/// handler, the event, the connection and the context. `processed` says
/// what it does, over what `model` shows of the handler, so that what a
/// chain of handlers does can be said too. Of a handler that says nothing
/// of itself only this much is known: that it is such a state machine.
pub trait EventHandler: Sized {
    /// What contracts see of a handler.
    type Model;

    /// The handler as contracts see it.
    open spec fn model(&self) -> Self::Model {
        arbitrary()
    }

    /// The name of the handler.
    open spec fn name(m: Self::Model) -> Seq<char> {
        arbitrary()
    }

    /// What `process` does.
    open spec fn processed(
        m: Self::Model,
        event: EventView,
        api: SevStepView,
        ctx: Map<Seq<char>, Seq<u8>>,
    ) -> Processed<Self::Model> {
        arbitrary()
    }

    fn process(&mut self, event: &Event, api: &mut SevStep, ctx: &mut Context) -> (r: Result<
        StateMachineNextAction,
        SevStepError,
    >)
        requires
            old(api)@.wf(),
        ensures
            final(api)@.wf(),
            final(self).model() == Self::processed(
                old(self).model(),
                event@,
                old(api)@,
                old(ctx)@,
            ).state,
            final(api)@ == Self::processed(old(self).model(), event@, old(api)@, old(ctx)@).api,
            final(ctx)@ == Self::processed(old(self).model(), event@, old(api)@, old(ctx)@).ctx,
            action_view(r) == Self::processed(
                old(self).model(),
                event@,
                old(api)@,
                old(ctx)@,
            ).result,
    ;

    fn get_name(&self) -> (r: &str)
        ensures
            r@ == Self::name(self.model()),
    ;

    /// A copy of the handler as it is now. A chain takes one before each
    /// call of `process`, and puts it back in place of the handler if the
    /// driver rejects a control call that the handler requested: what a
    /// handler does on an event counts only once its calls were
    /// accepted.
    fn snapshot(&self) -> (r: Self)
        ensures
            r.model() == self.model(),
    ;
}

/// What one call of a handler amounts to: the handler afterwards, the
/// control calls it requested, the context afterwards and what it
/// returned.
pub struct Handled<S> {
    pub state: S,
    pub calls: Seq<ControlCallView>,
    pub ctx: Map<Seq<char>, Seq<u8>>,
    pub result: Result<StateMachineNextActionView, SevStepErrorView>,
}

impl<S> Handled<S> {
    /// The same, as a chain sees it: with the connection after the
    /// control calls were requested on `api`.
    pub open spec fn on(self, api: SevStepView) -> Processed<S> {
        Processed {
            state: self.state,
            api: requested(api, self.calls),
            ctx: self.ctx,
            result: self.result,
        }
    }
}

/// The connection after the control calls `calls` were requested on it.
pub open spec fn requested(api: SevStepView, calls: Seq<ControlCallView>) -> SevStepView {
    SevStepView { pending_calls: api.pending_calls + calls, ..api }
}

/// Counts one up, stopping at the largest number.
pub open spec fn count_up(n: int, max: int) -> int {
    if n < max {
        n + 1
    } else {
        n
    }
}

/// `HashSet::clone` of std, which returns a copy of the set: a set with
/// the same elements.
#[verifier::external_body]
fn clone_set(set: &HashSet<u64>) -> (r: HashSet<u64>)
    ensures
        r@ == set@,
{
    set.clone()
}

/// A copy of a list of numbers.
pub fn clone_values(values: &Vec<u64>) -> (r: Vec<u64>)
    ensures
        r@ == values@,
{
    let r = values.clone();
    assert(r@ =~= values@);
    r
}

/// A copy of an optional list of numbers.
pub fn clone_optional_values(values: &Option<Vec<u64>>) -> (r: Option<Vec<u64>>)
    ensures
        values_view(r) == values_view(*values),
{
    match values {
        Some(v) => Some(clone_values(v)),
        None => None,
    }
}

/// Counts how often each step size occurs among the step events of a run.
pub struct BuildStepHistogram {
    step_histogram: HashMap<u64, u64>,
    event_counter: usize,
}

/// The handler as contracts see it: the table and the number of step events seen.
pub struct BuildStepHistogramView {
    pub step_histogram: Map<u64, u64>,
    pub event_counter: usize,
}

impl BuildStepHistogramView {
    /// The table after one more step of size `size`.
    pub open spec fn counted(self, size: u64) -> Map<u64, u64> {
        let before: u64 = if self.step_histogram.contains_key(size) {
            self.step_histogram[size]
        } else {
            0
        };
        self.step_histogram.insert(size, count_up(before as int, u64::MAX as int) as u64)
    }

    /// A step event is counted under its size; a page fault is passed by.
    /// Either way the chain goes on.
    pub open spec fn process(self, event: EventView, ctx: Map<Seq<char>, Seq<u8>>) -> Handled<
        BuildStepHistogramView,
    > {
        Handled {
            state: match event {
                EventView::PageFaultEvent(_) => self,
                EventView::StepEvent(step) => BuildStepHistogramView {
                    step_histogram: self.counted(step.retired_instructions as u64),
                    event_counter: count_up(self.event_counter as int, usize::MAX as int) as usize,
                },
            },
            calls: Seq::empty(),
            ctx,
            result: Ok(StateMachineNextActionView::NEXT),
        }
    }
}

impl View for BuildStepHistogram {
    type V = BuildStepHistogramView;

    closed spec fn view(&self) -> BuildStepHistogramView {
        BuildStepHistogramView {
            step_histogram: self.step_histogram@,
            event_counter: self.event_counter,
        }
    }
}

impl BuildStepHistogram {
    /// A handler with an empty table.
    pub fn new() -> (r: Self)
        ensures
            r@ == (BuildStepHistogramView { step_histogram: Map::empty(), event_counter: 0 }),
    {
        BuildStepHistogram { step_histogram: HashMap::new(), event_counter: 0 }
    }

    /// The table that maps each step size seen so far to the number of
    /// steps of that size.
    pub fn get_values(&self) -> (r: &HashMap<u64, u64>)
        ensures
            r@ == self@.step_histogram,
    {
        &self.step_histogram
    }
}

impl BuildStepHistogramView {
    /// The guest was stepped cleanly: every step retired one instruction,
    /// or there were steps that retired nothing beside at least
    /// `required` steps that retired one; and no step retired more.
    pub open spec fn stepped_singly(self, required: u64) -> bool {
        let table = self.step_histogram;
        ||| table.len() == 1 && table.contains_key(1)
        ||| table.len() == 2 && table.contains_key(1) && table.contains_key(0) && table[1]
            >= required
    }
}

/// A step event of the given size, with nothing else in it.
pub open spec fn step_of(size: u32) -> EventView {
    EventView::StepEvent(
        crate::api::SevStepEventView {
            retired_instructions: size,
            register_values: None,
            cache_trace: None,
        },
    )
}

/// How often `size` occurs among `sizes`.
pub open spec fn occurrences(sizes: Seq<u32>, size: u64) -> nat
    decreases sizes.len(),
{
    if sizes.len() == 0 {
        0
    } else {
        occurrences(sizes.drop_last(), size) + (if sizes.last() as u64 == size {
            1nat
        } else {
            0nat
        })
    }
}

impl BuildStepHistogramView {
    /// The handler after step events of the sizes `sizes`, one after the
    /// other.
    pub open spec fn after_steps(self, sizes: Seq<u32>) -> BuildStepHistogramView
        decreases sizes.len(),
    {
        if sizes.len() == 0 {
            self
        } else {
            self.after_steps(sizes.drop_last()).process(step_of(sizes.last()), Map::empty()).state
        }
    }
}

/// The table of a handler that began empty holds, for each step size that
/// occurred, how often it occurred, and nothing for any other size. (A
/// count stops at the largest number that it can hold.)
pub proof fn lemma_histogram_counts_occurrences(sizes: Seq<u32>, size: u64)
    ensures
        ({
            let fresh = BuildStepHistogramView { step_histogram: Map::empty(), event_counter: 0 };
            let table = fresh.after_steps(sizes).step_histogram;
            let n = occurrences(sizes, size);
            &&& table.contains_key(size) <==> n > 0
            &&& n > 0 ==> table[size] == (if n <= u64::MAX {
                n as u64
            } else {
                u64::MAX
            })
        }),
    decreases sizes.len(),
{
    if sizes.len() > 0 {
        lemma_histogram_counts_occurrences(sizes.drop_last(), size);
    }
}

impl BuildStepHistogram {
    /// Whether the guest was stepped cleanly, with at least `required`
    /// single steps where some steps retired nothing.
    pub fn stepped_singly(&self, required: u64) -> (r: bool)
        ensures
            r == self@.stepped_singly(required),
    {
        let step_sizes = &self.step_histogram;
        if step_sizes.len() == 1 && step_sizes.contains_key(&1) {
            true
        } else if step_sizes.len() == 2 && step_sizes.contains_key(&1) && step_sizes.contains_key(
            &0,
        ) {
            match step_sizes.get(&1) {
                Some(count) => *count >= required,
                None => false,
            }
        } else {
            false
        }
    }
}

impl EventHandler for BuildStepHistogram {
    type Model = BuildStepHistogramView;

    open spec fn model(&self) -> BuildStepHistogramView {
        self@
    }

    open spec fn name(m: BuildStepHistogramView) -> Seq<char> {
        "BuildStepHistogram"@
    }

    open spec fn processed(
        m: BuildStepHistogramView,
        event: EventView,
        api: SevStepView,
        ctx: Map<Seq<char>, Seq<u8>>,
    ) -> Processed<BuildStepHistogramView> {
        m.process(event, ctx).on(api)
    }

    fn process(&mut self, event: &Event, api: &mut SevStep, ctx: &mut Context) -> (r: Result<
        StateMachineNextAction,
        SevStepError,
    >)
        ensures
            final(self)@ == old(self)@.process(event@, old(ctx)@).state,
            final(api)@ == old(api)@,
            final(ctx)@ == old(ctx)@,
            action_view(r) == old(self)@.process(event@, old(ctx)@).result,
    {
        assert(api@.pending_calls + Seq::<ControlCallView>::empty() =~= api@.pending_calls);
        let event = match event {
            Event::PageFaultEvent(_) => {
                return Ok(StateMachineNextAction::NEXT);
            },
            Event::StepEvent(v) => v,
        };
        let size: u64 = event.retired_instructions as u64;
        let before: u64 = match self.step_histogram.get(&size) {
            Some(count) => *count,
            None => 0,
        };
        let after: u64 = if before < u64::MAX {
            before + 1
        } else {
            before
        };
        self.step_histogram.insert(size, after);
        if self.event_counter < usize::MAX {
            self.event_counter = self.event_counter + 1;
        }
        Ok(StateMachineNextAction::NEXT)
    }

    fn get_name(&self) -> (r: &str)
        ensures
            r@ == "BuildStepHistogram"@,
    {
        "BuildStepHistogram"
    }

    fn snapshot(&self) -> (r: Self) {
        BuildStepHistogram {
            step_histogram: self.step_histogram.clone(),
            event_counter: self.event_counter,
        }
    }
}

/// The text of the error for a step whose instruction pointer is not the
/// expected one. `step` counts from one.
pub open spec fn rip_mismatch_text(step: nat, want: u64, got: u64) -> Seq<char> {
    "at step "@ + spec_decimal(step) + ", expected RIP 0x"@ + spec_hex(want as nat) + " got 0x"@
        + spec_hex(got as nat)
}

/// Writes the error for a step whose instruction pointer is not the
/// expected one.
pub fn rip_mismatch_message(step: u64, want: u64, got: u64) -> (r: String)
    ensures
        r@ == rip_mismatch_text(step as nat, want, got),
{
    let mut text: String = "at step ".to_owned();
    text.append(decimal(step).as_str());
    text.append(", expected RIP 0x");
    text.append(hex(want).as_str());
    text.append(" got 0x");
    text.append(hex(got).as_str());
    text
}

/// The text of the error for a second fault on a page that waits to be
/// tracked again.
pub open spec fn second_fault_text(gpa: u64) -> Seq<char> {
    "got second fault for gpa 0x"@ + spec_hex(gpa as nat)
}

/// Name under which [`StopAfterNSingleStepsHandler`] keeps its count in
/// the context.
pub const CK_STEPS: &'static str = "CK_StopAfterNSingleStepsHandler_Step_Counter";

/// Counts the step events that retired at least one instruction and ends
/// the run once their number exceeds a threshold. Steps that retired
/// nothing are passed by.
pub struct StopAfterNSingleStepsHandler {
    step_counter: usize,
    abort_thresh: usize,
    expected_rip_values: Option<Vec<u64>>,
}

/// The handler as contracts see it: its count, its threshold and what it expects.
pub struct StopAfterNSingleStepsHandlerView {
    pub step_counter: usize,
    pub abort_thresh: usize,
    pub expected_rip_values: Option<Seq<u64>>,
}

/// The instruction pointer that is expected at the step with the given
/// number, counted from zero, if one is expected there.
pub open spec fn expected_rip(expected_rip_values: Option<Seq<u64>>, step: int) -> Option<u64> {
    match expected_rip_values {
        Some(values) => if 0 <= step < values.len() {
            Some(values[step])
        } else {
            None
        },
        None => None,
    }
}

impl StopAfterNSingleStepsHandlerView {
    /// A step event that retired an instruction is checked against the
    /// expected instruction pointer, where one was given for it, then
    /// counted; the count goes into the context, and the run ends once the
    /// count exceeds the threshold. Everything else is passed by.
    pub open spec fn process(self, event: EventView, ctx: Map<Seq<char>, Seq<u8>>) -> Handled<
        StopAfterNSingleStepsHandlerView,
    > {
        let pass = Handled {
            state: self,
            calls: Seq::empty(),
            ctx,
            result: Ok(StateMachineNextActionView::NEXT),
        };
        match event {
            EventView::PageFaultEvent(_) => pass,
            EventView::StepEvent(step) => {
                let want = expected_rip(self.expected_rip_values, self.step_counter as int);
                let got = step.register(VmsaRegister::Rip);
                if step.retired_instructions == 0 {
                    pass
                } else if want is Some && got is None {
                    Handled {
                        result: Err(
                            SevStepErrorView::Other {
                                message: "failed to get RIP to compare against expected rip values"@,
                                call_status: None,
                            },
                        ),
                        ..pass
                    }
                } else if want is Some && want != got {
                    Handled {
                        result: Err(
                            SevStepErrorView::Other {
                                message: rip_mismatch_text(
                                    (self.step_counter + 1) as nat,
                                    want.unwrap(),
                                    got.unwrap(),
                                ),
                                call_status: None,
                            },
                        ),
                        ..pass
                    }
                } else {
                    let counted = count_up(self.step_counter as int, usize::MAX as int) as usize;
                    Handled {
                        state: StopAfterNSingleStepsHandlerView { step_counter: counted, ..self },
                        calls: Seq::empty(),
                        ctx: ctx.insert(CK_STEPS@, spec_u64_to_le_bytes(counted as u64)),
                        result: Ok(
                            if counted > self.abort_thresh {
                                StateMachineNextActionView::SHUTDOWN
                            } else {
                                StateMachineNextActionView::NEXT
                            },
                        ),
                    }
                }
            },
        }
    }
}

/// The view of an optional list of numbers.
pub open spec fn values_view(values: Option<Vec<u64>>) -> Option<Seq<u64>> {
    match values {
        Some(v) => Some(v@),
        None => None,
    }
}

impl View for StopAfterNSingleStepsHandler {
    type V = StopAfterNSingleStepsHandlerView;

    closed spec fn view(&self) -> StopAfterNSingleStepsHandlerView {
        StopAfterNSingleStepsHandlerView {
            step_counter: self.step_counter,
            abort_thresh: self.abort_thresh,
            expected_rip_values: values_view(self.expected_rip_values),
        }
    }
}

/// Compares the instruction pointer of a step with the one expected at
/// step number `step`, where one is expected there.
fn check_rip(expected_rip_values: &Option<Vec<u64>>, step: usize, got: Option<u64>) -> (r: Result<
    (),
    SevStepError,
>)
    ensures
        ({
            let want = expected_rip(values_view(*expected_rip_values), step as int);
            match r {
                Ok(()) => want is None || want == got,
                Err(e) => if got is None {
                    want is Some && e@ == (SevStepErrorView::Other {
                        message: "failed to get RIP to compare against expected rip values"@,
                        call_status: None,
                    })
                } else {
                    want is Some && want != got && e@ == (SevStepErrorView::Other {
                        message: rip_mismatch_text((step + 1) as nat, want.unwrap(), got.unwrap()),
                        call_status: None,
                    })
                },
            }
        }),
{
    if let Some(values) = expected_rip_values {
        if values.len() > step {
            let got_rip = match got {
                Some(v) => v,
                None => {
                    return Err(
                        SevStepError::Other {
                            message: "failed to get RIP to compare against expected rip values".to_owned(),
                            call_status: None,
                        },
                    );
                },
            };
            let want_rip = values[step];
            if want_rip != got_rip {
                return Err(
                    SevStepError::Other {
                        message: rip_mismatch_message(step as u64 + 1, want_rip, got_rip),
                        call_status: None,
                    },
                );
            }
        }
    }
    Ok(())
}

impl StopAfterNSingleStepsHandler {
    /// A handler that ends the run after more than `n` counted steps. With
    /// `expected_rip_values` the instruction pointer of each counted step
    /// is compared with the value at its position, as far as the list
    /// goes; this needs a guest in debug mode.
    pub fn new(n: usize, expected_rip_values: Option<Vec<u64>>) -> (r: StopAfterNSingleStepsHandler)
        ensures
            r@ == (StopAfterNSingleStepsHandlerView {
                step_counter: 0,
                abort_thresh: n,
                expected_rip_values: values_view(expected_rip_values),
            }),
    {
        StopAfterNSingleStepsHandler { step_counter: 0, abort_thresh: n, expected_rip_values }
    }

    /// The count that the handler left in the context.
    pub fn get_step_counter_from_ctx(ctx: &Context) -> (r: Result<usize, SevStepError>)
        ensures
            match spec_get_u64(ctx@, CK_STEPS@) {
                Ok(count) => if count <= usize::MAX {
                    r == Ok::<usize, SevStepError>(count as usize)
                } else {
                    r matches Err(e) && e@ == (SevStepErrorView::Other {
                        message: "failed to deserialize"@,
                        call_status: None,
                    })
                },
                Err(e) => r is Err && r->Err_0@ == e,
            },
    {
        match ctx.get_u64(CK_STEPS) {
            Ok(count) => {
                if count <= usize::MAX as u64 {
                    Ok(count as usize)
                } else {
                    Err(
                        SevStepError::Other {
                            message: "failed to deserialize".to_owned(),
                            call_status: None,
                        },
                    )
                }
            },
            Err(e) => Err(e),
        }
    }
}

impl EventHandler for StopAfterNSingleStepsHandler {
    type Model = StopAfterNSingleStepsHandlerView;

    open spec fn model(&self) -> StopAfterNSingleStepsHandlerView {
        self@
    }

    open spec fn name(m: StopAfterNSingleStepsHandlerView) -> Seq<char> {
        "StopAfterNStepsHandler"@
    }

    open spec fn processed(
        m: StopAfterNSingleStepsHandlerView,
        event: EventView,
        api: SevStepView,
        ctx: Map<Seq<char>, Seq<u8>>,
    ) -> Processed<StopAfterNSingleStepsHandlerView> {
        m.process(event, ctx).on(api)
    }

    fn process(&mut self, event: &Event, api: &mut SevStep, ctx: &mut Context) -> (r: Result<
        StateMachineNextAction,
        SevStepError,
    >)
        ensures
            final(self)@ == old(self)@.process(event@, old(ctx)@).state,
            final(api)@ == old(api)@,
            final(ctx)@ == old(self)@.process(event@, old(ctx)@).ctx,
            action_view(r) == old(self)@.process(event@, old(ctx)@).result,
    {
        assert(api@.pending_calls + Seq::<ControlCallView>::empty() =~= api@.pending_calls);
        let event = match event {
            Event::PageFaultEvent(_) => {
                return Ok(StateMachineNextAction::NEXT);
            },
            Event::StepEvent(v) => v,
        };
        if event.retired_instructions == 0 {
            return Ok(StateMachineNextAction::NEXT);
        }
        match check_rip(
            &self.expected_rip_values,
            self.step_counter,
            event.get_register(VmsaRegister::Rip),
        ) {
            Ok(()) => {},
            Err(e) => {
                return Err(e);
            },
        }
        if self.step_counter < usize::MAX {
            self.step_counter = self.step_counter + 1;
        }
        match ctx.put_u64(CK_STEPS, self.step_counter as u64) {
            Ok(()) => {},
            Err(e) => {
                return Err(e);
            },
        }
        if self.step_counter > self.abort_thresh {
            return Ok(StateMachineNextAction::SHUTDOWN);
        }
        Ok(StateMachineNextAction::NEXT)
    }

    fn get_name(&self) -> (r: &str)
        ensures
            r@ == "StopAfterNStepsHandler"@,
    {
        "StopAfterNStepsHandler"
    }

    fn snapshot(&self) -> (r: Self) {
        StopAfterNSingleStepsHandler {
            step_counter: self.step_counter,
            abort_thresh: self.abort_thresh,
            expected_rip_values: clone_optional_values(&self.expected_rip_values),
        }
    }
}

/// Name under which [`RetrackGPASet`] keeps the address of the latest
/// page fault in the context.
pub const CK_CURRENT_GPA: &'static str = "RetrackGPASet_Current_GPA";

/// Keeps a set of pages tracked: a page of the set that faulted is tracked
/// again at the next page fault. The pages are taken to be tracked when
/// the run begins.
///
/// Retracking waits for the next fault because the fault is still being
/// delivered while its own event is handled. A page that the driver
/// refuses to track again goes on waiting: a chain puts the handler back
/// as it was before the fault.
pub struct RetrackGPASet {
    gpas: HashSet<u64>,
    track_mode: PageTrackMode,
    gpa_for_retrack: Option<u64>,
    iteration_count: usize,
    max_iterations: Option<usize>,
}

/// The handler as contracts see it: its pages and which page waits to be tracked again.
pub struct RetrackGPASetView {
    pub gpas: Set<u64>,
    pub track_mode: PageTrackMode,
    pub gpa_for_retrack: Option<u64>,
    pub iteration_count: usize,
    pub max_iterations: Option<usize>,
}

impl RetrackGPASetView {
    /// A page fault is noted in the context. If a page waits to be tracked
    /// again, a second fault on that very page is an error; any other
    /// fault has it tracked again. A fault on a page of the set makes that
    /// page wait in turn. The run ends once the number of faults seen
    /// reaches the limit, if there is one. Step events are passed by.
    pub open spec fn process(self, event: EventView, ctx: Map<Seq<char>, Seq<u8>>) -> Handled<
        RetrackGPASetView,
    > {
        match event {
            EventView::StepEvent(_) => Handled {
                state: self,
                calls: Seq::empty(),
                ctx,
                result: Ok(StateMachineNextActionView::NEXT),
            },
            EventView::PageFaultEvent(fault) => {
                let noted = ctx.insert(CK_CURRENT_GPA@, spec_u64_to_le_bytes(fault.faulted_gpa));
                if self.gpa_for_retrack == Some(fault.faulted_gpa) {
                    Handled {
                        state: self,
                        calls: Seq::empty(),
                        ctx: noted,
                        result: Err(
                            SevStepErrorView::Other {
                                message: second_fault_text(fault.faulted_gpa),
                                call_status: None,
                            },
                        ),
                    }
                } else {
                    let count = count_up(self.iteration_count as int, usize::MAX as int) as usize;
                    Handled {
                        state: RetrackGPASetView {
                            gpa_for_retrack: if self.gpas.contains(fault.faulted_gpa) {
                                Some(fault.faulted_gpa)
                            } else {
                                None
                            },
                            iteration_count: count,
                            ..self
                        },
                        calls: match self.gpa_for_retrack {
                            Some(gpa) => seq![
                                ControlCallView::TrackPage { gpa, track_mode: self.track_mode },
                            ],
                            None => Seq::empty(),
                        },
                        ctx: noted,
                        result: Ok(
                            if self.max_iterations is Some && count >= self.max_iterations.unwrap() {
                                StateMachineNextActionView::SHUTDOWN
                            } else {
                                StateMachineNextActionView::NEXT
                            },
                        ),
                    }
                }
            },
        }
    }
}

impl View for RetrackGPASet {
    type V = RetrackGPASetView;

    closed spec fn view(&self) -> RetrackGPASetView {
        RetrackGPASetView {
            gpas: self.gpas@,
            track_mode: self.track_mode,
            gpa_for_retrack: self.gpa_for_retrack,
            iteration_count: self.iteration_count,
            max_iterations: self.max_iterations,
        }
    }
}

impl RetrackGPASet {
    /// A handler for the pages `gpas`, tracked with `track_mode`. With
    /// `max_iterations` the run ends after that many page faults.
    pub fn new(gpas: HashSet<u64>, track_mode: PageTrackMode, max_iterations: Option<usize>) -> (r:
        Self)
        ensures
            r@ == (RetrackGPASetView {
                gpas: gpas@,
                track_mode,
                gpa_for_retrack: None,
                iteration_count: 0,
                max_iterations,
            }),
    {
        RetrackGPASet {
            gpas,
            track_mode,
            gpa_for_retrack: None,
            iteration_count: 0,
            max_iterations,
        }
    }

    /// The address of the latest page fault that the handler saw, as it
    /// left it in the context.
    pub fn get_current_gpa_from_ctx(ctx: &Context) -> (r: Result<u64, SevStepError>)
        ensures
            number_view(r) == spec_get_u64(ctx@, CK_CURRENT_GPA@),
    {
        ctx.get_u64(CK_CURRENT_GPA)
    }
}

impl EventHandler for RetrackGPASet {
    type Model = RetrackGPASetView;

    open spec fn model(&self) -> RetrackGPASetView {
        self@
    }

    open spec fn name(m: RetrackGPASetView) -> Seq<char> {
        "RetrackGPASet"@
    }

    open spec fn processed(
        m: RetrackGPASetView,
        event: EventView,
        api: SevStepView,
        ctx: Map<Seq<char>, Seq<u8>>,
    ) -> Processed<RetrackGPASetView> {
        m.process(event, ctx).on(api)
    }

    fn process(&mut self, event: &Event, api: &mut SevStep, ctx: &mut Context) -> (r: Result<
        StateMachineNextAction,
        SevStepError,
    >)
        ensures
            final(self)@ == old(self)@.process(event@, old(ctx)@).state,
            final(api)@ == requested(old(api)@, old(self)@.process(event@, old(ctx)@).calls),
            final(ctx)@ == old(self)@.process(event@, old(ctx)@).ctx,
            action_view(r) == old(self)@.process(event@, old(ctx)@).result,
    {
        match event {
            Event::PageFaultEvent(pf_event) => {
                match ctx.put_u64(CK_CURRENT_GPA, pf_event.faulted_gpa) {
                    Ok(()) => {},
                    Err(e) => {
                        return Err(e);
                    },
                }
                if let Some(gpa) = self.gpa_for_retrack {
                    if gpa == pf_event.faulted_gpa {
                        assert(api@.pending_calls + Seq::<ControlCallView>::empty()
                            =~= api@.pending_calls);
                        let mut message: String = "got second fault for gpa 0x".to_owned();
                        message.append(hex(gpa).as_str());
                        return Err(SevStepError::Other { message, call_status: None });
                    }
                    api.track_page(gpa, self.track_mode);
                    self.gpa_for_retrack = None;
                }
                if self.gpas.contains(&pf_event.faulted_gpa) {
                    self.gpa_for_retrack = Some(pf_event.faulted_gpa);
                }
                if self.iteration_count < usize::MAX {
                    self.iteration_count = self.iteration_count + 1;
                }
                assert(api@.pending_calls =~= requested(
                    old(api)@,
                    old(self)@.process(event@, old(ctx)@).calls,
                ).pending_calls);
                if let Some(max_iterations) = self.max_iterations {
                    if self.iteration_count >= max_iterations {
                        return Ok(StateMachineNextAction::SHUTDOWN);
                    }
                }
                Ok(StateMachineNextAction::NEXT)
            },
            Event::StepEvent(_) => {
                assert(api@.pending_calls + Seq::<ControlCallView>::empty() =~= api@.pending_calls);
                Ok(StateMachineNextAction::NEXT)
            },
        }
    }

    fn get_name(&self) -> (r: &str)
        ensures
            r@ == "RetrackGPASet"@,
    {
        "RetrackGPASet"
    }

    fn snapshot(&self) -> (r: Self) {
        RetrackGPASet {
            gpas: clone_set(&self.gpas),
            track_mode: self.track_mode,
            gpa_for_retrack: self.gpa_for_retrack,
            iteration_count: self.iteration_count,
            max_iterations: self.max_iterations,
        }
    }
}

/// The numbers of `gpas` in the order of their first occurrence, each
/// once.
pub open spec fn distinct(gpas: Seq<u64>) -> Seq<u64>
    decreases gpas.len(),
{
    if gpas.len() == 0 {
        Seq::empty()
    } else {
        let before = distinct(gpas.drop_last());
        if before.contains(gpas.last()) {
            before
        } else {
            before.push(gpas.last())
        }
    }
}

/// One request to track a page for each of `gpas`, in order.
pub open spec fn track_calls(gpas: Seq<u64>, track_mode: PageTrackMode) -> Seq<ControlCallView> {
    gpas.map_values(|gpa: u64| ControlCallView::TrackPage { gpa, track_mode })
}

/// One request to stop tracking a page for each of `gpas`, in order.
pub open spec fn untrack_calls(gpas: Seq<u64>, track_mode: PageTrackMode) -> Seq<ControlCallView> {
    gpas.map_values(|gpa: u64| ControlCallView::UntrackPage { gpa, track_mode })
}

/// Lets the rest of the chain see events only while the guest runs on the
/// target pages, and has the guest single-stepped there.
///
/// Off the target pages only the target pages are tracked. A fault on one
/// of them means that the guest has entered them: then every page but the
/// target pages is tracked and stepping begins. The next fault means that
/// the guest has left again.
///
/// A transition counts only once the driver has accepted its control
/// calls: a chain puts the handler back where it was if one of them is
/// rejected.
pub struct SkipIfNotOnTargetGPAs {
    on_victim_pages: bool,
    /// The target pages in the order in which they are asked of the
    /// driver.
    target_gpas: Vec<u64>,
    /// The target pages once more, for the question whether a page is one
    /// of them.
    target_set: HashSet<u64>,
    track_mode: PageTrackMode,
    timer_value: u32,
}

/// The handler as contracts see it: where the guest is and what is configured.
pub struct SkipIfNotOnTargetGPAsView {
    pub on_victim_pages: bool,
    pub target_gpas: Seq<u64>,
    pub track_mode: PageTrackMode,
    pub timer_value: u32,
}

impl SkipIfNotOnTargetGPAsView {
    /// The control calls on entering the target pages.
    pub open spec fn enter_calls(self) -> Seq<ControlCallView> {
        seq![ControlCallView::TrackAllPages { track_mode: self.track_mode }] + untrack_calls(
            self.target_gpas,
            self.track_mode,
        ) + seq![
            ControlCallView::StartStepping {
                timer_value: self.timer_value,
                target_gpas: self.target_gpas,
                flush_tlb: true,
            },
        ]
    }

    /// The control calls on leaving the target pages.
    pub open spec fn leave_calls(self) -> Seq<ControlCallView> {
        seq![
            ControlCallView::StopStepping,
            ControlCallView::UntrackAllPages { track_mode: self.track_mode },
        ] + track_calls(self.target_gpas, self.track_mode)
    }

    /// Step events go on down the chain. A page fault is judged by where
    /// the guest was and where it faulted: off target and off target
    /// again, the event is skipped; off target and now on a target page,
    /// the guest has entered and the event goes on; on target and on a
    /// target page again, which cannot be, is an error; on target and now
    /// elsewhere, the guest has left and the event is skipped.
    pub open spec fn process(self, event: EventView, ctx: Map<Seq<char>, Seq<u8>>) -> Handled<
        SkipIfNotOnTargetGPAsView,
    > {
        let stay = Handled {
            state: self,
            calls: Seq::empty(),
            ctx,
            result: Ok(StateMachineNextActionView::NEXT),
        };
        match event {
            EventView::StepEvent(_) => stay,
            EventView::PageFaultEvent(fault) => {
                let on_target = self.target_gpas.contains(fault.faulted_gpa);
                if self.on_victim_pages && on_target {
                    Handled {
                        result: Err(
                            SevStepErrorView::Other {
                                message: "Internal state assumed to be on victim pages but got page fault for victim page. This should never happen"@,
                                call_status: None,
                            },
                        ),
                        ..stay
                    }
                } else if self.on_victim_pages {
                    Handled {
                        state: SkipIfNotOnTargetGPAsView { on_victim_pages: false, ..self },
                        calls: self.leave_calls(),
                        ctx,
                        result: Ok(StateMachineNextActionView::SKIP),
                    }
                } else if on_target {
                    Handled {
                        state: SkipIfNotOnTargetGPAsView { on_victim_pages: true, ..self },
                        calls: self.enter_calls(),
                        ctx,
                        result: Ok(StateMachineNextActionView::NEXT),
                    }
                } else {
                    Handled { result: Ok(StateMachineNextActionView::SKIP), ..stay }
                }
            },
        }
    }
}

/// The four transitions of [`SkipIfNotOnTargetGPAs`] on a page fault.
/// Off target, a fault off target is skipped and a fault on target enters
/// and is handed on. On target, a fault on target is an error and a fault
/// off target leaves and is skipped.
pub proof fn lemma_target_transitions(
    handler: SkipIfNotOnTargetGPAsView,
    fault: crate::api::PageFaultEventView,
    ctx: Map<Seq<char>, Seq<u8>>,
)
    ensures
        ({
            let step = handler.process(EventView::PageFaultEvent(fault), ctx);
            let on_target = handler.target_gpas.contains(fault.faulted_gpa);
            &&& !handler.on_victim_pages && !on_target ==> step.result == Ok::<
                StateMachineNextActionView,
                SevStepErrorView,
            >(StateMachineNextActionView::SKIP) && !step.state.on_victim_pages
            &&& !handler.on_victim_pages && on_target ==> step.result == Ok::<
                StateMachineNextActionView,
                SevStepErrorView,
            >(StateMachineNextActionView::NEXT) && step.state.on_victim_pages
            &&& handler.on_victim_pages && on_target ==> step.result is Err
                && step.state.on_victim_pages
            &&& handler.on_victim_pages && !on_target ==> step.result == Ok::<
                StateMachineNextActionView,
                SevStepErrorView,
            >(StateMachineNextActionView::SKIP) && !step.state.on_victim_pages
            &&& step.ctx == ctx
        }),
{
}

impl View for SkipIfNotOnTargetGPAs {
    type V = SkipIfNotOnTargetGPAsView;

    closed spec fn view(&self) -> SkipIfNotOnTargetGPAsView {
        SkipIfNotOnTargetGPAsView {
            on_victim_pages: self.on_victim_pages,
            target_gpas: self.target_gpas@,
            track_mode: self.track_mode,
            timer_value: self.timer_value,
        }
    }
}

impl SkipIfNotOnTargetGPAs {
    #[verifier::type_invariant]
    spec fn inv(self) -> bool {
        self.target_set@ == self.target_gpas@.to_set()
    }

    /// A handler for the target pages `target_gpas`, which begins off
    /// target. Pages are tracked with `track_mode` and the guest is
    /// stepped with `timer_value`. An address given twice counts once.
    pub fn new(target_gpas: &[u64], track_mode: PageTrackMode, timer_value: u32) -> (r:
        SkipIfNotOnTargetGPAs)
        ensures
            r@ == (SkipIfNotOnTargetGPAsView {
                on_victim_pages: false,
                target_gpas: distinct(target_gpas@),
                track_mode,
                timer_value,
            }),
    {
        let mut gpas: Vec<u64> = Vec::new();
        let mut seen: HashSet<u64> = HashSet::new();
        let mut i: usize = 0;
        assert(seen@ =~= gpas@.to_set());
        while i < target_gpas.len()
            invariant
                i <= target_gpas.len(),
                gpas@ == distinct(target_gpas@.take(i as int)),
                seen@ == gpas@.to_set(),
            decreases target_gpas.len() - i,
        {
            assert(target_gpas@.take(i + 1).drop_last() =~= target_gpas@.take(i as int));
            let gpa = target_gpas[i];
            if !seen.contains(&gpa) {
                let ghost before = gpas@;
                gpas.push(gpa);
                seen.insert(gpa);
                assert(seen@ =~= gpas@.to_set()) by {
                    assert forall|x: u64| gpas@.contains(x) <==> (before.contains(x) || x == gpa) by {
                        if before.contains(x) {
                            let k = choose|k: int| 0 <= k < before.len() && before[k] == x;
                            assert(gpas@[k] == x);
                        }
                        if x == gpa {
                            assert(gpas@[before.len() as int] == x);
                        }
                    }
                }
            }
            i = i + 1;
        }
        assert(target_gpas@.take(i as int) =~= target_gpas@);
        SkipIfNotOnTargetGPAs {
            on_victim_pages: false,
            target_gpas: gpas,
            target_set: seen,
            track_mode,
            timer_value,
        }
    }

    /// Requests that each target page be tracked, in order.
    fn track_targets(&self, api: &mut SevStep)
        ensures
            final(api)@ == requested(old(api)@, track_calls(self.target_gpas@, self.track_mode)),
    {
        let mut i: usize = 0;
        assert(old(api)@.pending_calls + track_calls(self.target_gpas@.take(0), self.track_mode)
            =~= old(api)@.pending_calls);
        while i < self.target_gpas.len()
            invariant
                i <= self.target_gpas.len(),
                api@ == requested(
                    old(api)@,
                    track_calls(self.target_gpas@.take(i as int), self.track_mode),
                ),
            decreases self.target_gpas.len() - i,
        {
            api.track_page(self.target_gpas[i], self.track_mode);
            assert(api@.pending_calls =~= old(api)@.pending_calls + track_calls(
                self.target_gpas@.take(i + 1),
                self.track_mode,
            ));
            i = i + 1;
        }
        assert(self.target_gpas@.take(i as int) =~= self.target_gpas@);
    }

    /// Requests that each target page be tracked no longer, in order.
    fn untrack_targets(&self, api: &mut SevStep)
        ensures
            final(api)@ == requested(old(api)@, untrack_calls(self.target_gpas@, self.track_mode)),
    {
        let mut i: usize = 0;
        assert(old(api)@.pending_calls + untrack_calls(self.target_gpas@.take(0), self.track_mode)
            =~= old(api)@.pending_calls);
        while i < self.target_gpas.len()
            invariant
                i <= self.target_gpas.len(),
                api@ == requested(
                    old(api)@,
                    untrack_calls(self.target_gpas@.take(i as int), self.track_mode),
                ),
            decreases self.target_gpas.len() - i,
        {
            api.untrack_page(self.target_gpas[i], self.track_mode);
            assert(api@.pending_calls =~= old(api)@.pending_calls + untrack_calls(
                self.target_gpas@.take(i + 1),
                self.track_mode,
            ));
            i = i + 1;
        }
        assert(self.target_gpas@.take(i as int) =~= self.target_gpas@);
    }
}

impl EventHandler for SkipIfNotOnTargetGPAs {
    type Model = SkipIfNotOnTargetGPAsView;

    open spec fn model(&self) -> SkipIfNotOnTargetGPAsView {
        self@
    }

    open spec fn name(m: SkipIfNotOnTargetGPAsView) -> Seq<char> {
        "SkipIfNotOnTargetGPAs"@
    }

    open spec fn processed(
        m: SkipIfNotOnTargetGPAsView,
        event: EventView,
        api: SevStepView,
        ctx: Map<Seq<char>, Seq<u8>>,
    ) -> Processed<SkipIfNotOnTargetGPAsView> {
        m.process(event, ctx).on(api)
    }

    fn process(&mut self, event: &Event, api: &mut SevStep, ctx: &mut Context) -> (r: Result<
        StateMachineNextAction,
        SevStepError,
    >)
        ensures
            final(self)@ == old(self)@.process(event@, old(ctx)@).state,
            final(api)@ == requested(old(api)@, old(self)@.process(event@, old(ctx)@).calls),
            final(ctx)@ == old(self)@.process(event@, old(ctx)@).ctx,
            action_view(r) == old(self)@.process(event@, old(ctx)@).result,
    {
        assert(api@.pending_calls + Seq::<ControlCallView>::empty() =~= api@.pending_calls);
        let event = match event {
            Event::PageFaultEvent(v) => v,
            Event::StepEvent(_) => {
                return Ok(StateMachineNextAction::NEXT);
            },
        };
        proof {
            use_type_invariant(&*self);
        }
        let on_target = self.target_set.contains(&event.faulted_gpa);
        if self.on_victim_pages {
            if on_target {
                return Err(
                    SevStepError::Other {
                        message: "Internal state assumed to be on victim pages but got page fault for victim page. This should never happen".to_owned(),
                        call_status: None,
                    },
                );
            } else {
                api.stop_stepping();
                api.untrack_all_pages(self.track_mode);
                self.track_targets(api);
                self.on_victim_pages = false;
                assert(api@.pending_calls =~= old(api)@.pending_calls + old(self)@.leave_calls());
            }
        } else {
            if on_target {
                api.track_all_pages(self.track_mode);
                self.untrack_targets(api);
                api.start_stepping(self.timer_value, self.target_gpas.as_slice(), true);
                self.on_victim_pages = true;
                assert(api@.pending_calls =~= old(api)@.pending_calls + old(self)@.enter_calls());
            }
        }
        if self.on_victim_pages {
            Ok(StateMachineNextAction::NEXT)
        } else {
            Ok(StateMachineNextAction::SKIP)
        }
    }

    fn get_name(&self) -> (r: &str)
        ensures
            r@ == "SkipIfNotOnTargetGPAs"@,
    {
        "SkipIfNotOnTargetGPAs"
    }

    fn snapshot(&self) -> (r: Self) {
        proof {
            use_type_invariant(self);
        }
        SkipIfNotOnTargetGPAs {
            on_victim_pages: self.on_victim_pages,
            target_gpas: clone_values(&self.target_gpas),
            target_set: clone_set(&self.target_set),
            track_mode: self.track_mode,
            timer_value: self.timer_value,
        }
    }
}

/// Any one of the handlers of this module, so that a chain can hold
/// handlers of different kinds.
pub enum Handler {
    RetrackGPASet(RetrackGPASet),
    SkipIfNotOnTargetGPAs(SkipIfNotOnTargetGPAs),
    BuildStepHistogram(BuildStepHistogram),
    StopAfterNSingleSteps(StopAfterNSingleStepsHandler),
}

/// Any one handler as contracts see it.
pub enum HandlerView {
    RetrackGPASet(RetrackGPASetView),
    SkipIfNotOnTargetGPAs(SkipIfNotOnTargetGPAsView),
    BuildStepHistogram(BuildStepHistogramView),
    StopAfterNSingleSteps(StopAfterNSingleStepsHandlerView),
}

impl View for Handler {
    type V = HandlerView;

    open spec fn view(&self) -> HandlerView {
        match self {
            Handler::RetrackGPASet(h) => HandlerView::RetrackGPASet(h@),
            Handler::SkipIfNotOnTargetGPAs(h) => HandlerView::SkipIfNotOnTargetGPAs(h@),
            Handler::BuildStepHistogram(h) => HandlerView::BuildStepHistogram(h@),
            Handler::StopAfterNSingleSteps(h) => HandlerView::StopAfterNSingleSteps(h@),
        }
    }
}

impl HandlerView {
    /// The name of the handler inside.
    pub open spec fn name(self) -> Seq<char> {
        match self {
            HandlerView::RetrackGPASet(_) => "RetrackGPASet"@,
            HandlerView::SkipIfNotOnTargetGPAs(_) => "SkipIfNotOnTargetGPAs"@,
            HandlerView::BuildStepHistogram(_) => "BuildStepHistogram"@,
            HandlerView::StopAfterNSingleSteps(_) => "StopAfterNStepsHandler"@,
        }
    }

    /// What the handler inside does with the event.
    pub open spec fn process(self, event: EventView, ctx: Map<Seq<char>, Seq<u8>>) -> Handled<
        HandlerView,
    > {
        match self {
            HandlerView::RetrackGPASet(h) => {
                let step = h.process(event, ctx);
                Handled {
                    state: HandlerView::RetrackGPASet(step.state),
                    calls: step.calls,
                    ctx: step.ctx,
                    result: step.result,
                }
            },
            HandlerView::SkipIfNotOnTargetGPAs(h) => {
                let step = h.process(event, ctx);
                Handled {
                    state: HandlerView::SkipIfNotOnTargetGPAs(step.state),
                    calls: step.calls,
                    ctx: step.ctx,
                    result: step.result,
                }
            },
            HandlerView::BuildStepHistogram(h) => {
                let step = h.process(event, ctx);
                Handled {
                    state: HandlerView::BuildStepHistogram(step.state),
                    calls: step.calls,
                    ctx: step.ctx,
                    result: step.result,
                }
            },
            HandlerView::StopAfterNSingleSteps(h) => {
                let step = h.process(event, ctx);
                Handled {
                    state: HandlerView::StopAfterNSingleSteps(step.state),
                    calls: step.calls,
                    ctx: step.ctx,
                    result: step.result,
                }
            },
        }
    }
}

impl EventHandler for Handler {
    type Model = HandlerView;

    open spec fn model(&self) -> HandlerView {
        self@
    }

    open spec fn name(m: HandlerView) -> Seq<char> {
        m.name()
    }

    open spec fn processed(
        m: HandlerView,
        event: EventView,
        api: SevStepView,
        ctx: Map<Seq<char>, Seq<u8>>,
    ) -> Processed<HandlerView> {
        m.process(event, ctx).on(api)
    }

    fn process(&mut self, event: &Event, api: &mut SevStep, ctx: &mut Context) -> (r: Result<
        StateMachineNextAction,
        SevStepError,
    >)
        ensures
            final(self)@ == old(self)@.process(event@, old(ctx)@).state,
            final(api)@ == requested(old(api)@, old(self)@.process(event@, old(ctx)@).calls),
            final(ctx)@ == old(self)@.process(event@, old(ctx)@).ctx,
            action_view(r) == old(self)@.process(event@, old(ctx)@).result,
    {
        assert(api@.pending_calls + Seq::<ControlCallView>::empty() =~= api@.pending_calls);
        match self {
            Handler::RetrackGPASet(h) => h.process(event, api, ctx),
            Handler::SkipIfNotOnTargetGPAs(h) => h.process(event, api, ctx),
            Handler::BuildStepHistogram(h) => h.process(event, api, ctx),
            Handler::StopAfterNSingleSteps(h) => h.process(event, api, ctx),
        }
    }

    fn get_name(&self) -> (r: &str)
        ensures
            r@ == self@.name(),
    {
        match self {
            Handler::RetrackGPASet(h) => h.get_name(),
            Handler::SkipIfNotOnTargetGPAs(h) => h.get_name(),
            Handler::BuildStepHistogram(h) => h.get_name(),
            Handler::StopAfterNSingleSteps(h) => h.get_name(),
        }
    }

    fn snapshot(&self) -> (r: Self) {
        match self {
            Handler::RetrackGPASet(h) => Handler::RetrackGPASet(h.snapshot()),
            Handler::SkipIfNotOnTargetGPAs(h) => Handler::SkipIfNotOnTargetGPAs(h.snapshot()),
            Handler::BuildStepHistogram(h) => Handler::BuildStepHistogram(h.snapshot()),
            Handler::StopAfterNSingleSteps(h) => Handler::StopAfterNSingleSteps(h.snapshot()),
        }
    }
}

/// What the result of one handler means for the chain.
#[derive(Debug)]
pub enum ChainDecision {
    /// The next handler sees the event.
    Continue,
    /// No further handler sees the event; it is acknowledged and the run
    /// goes on with the next event.
    SkipRest,
    /// The event is acknowledged and the run ends.
    Shutdown,
    /// The run ends with this error; the event is not acknowledged.
    Fail(SevStepError),
}

/// A decision of the chain as contracts see it.
pub enum ChainDecisionView {
    Continue,
    SkipRest,
    Shutdown,
    Fail(SevStepErrorView),
}

impl View for ChainDecision {
    type V = ChainDecisionView;

    open spec fn view(&self) -> ChainDecisionView {
        match self {
            ChainDecision::Continue => ChainDecisionView::Continue,
            ChainDecision::SkipRest => ChainDecisionView::SkipRest,
            ChainDecision::Shutdown => ChainDecisionView::Shutdown,
            ChainDecision::Fail(e) => ChainDecisionView::Fail(e@),
        }
    }
}

/// The text of the error that a handler's `ErrorShutdown` turns into.
pub open spec fn logic_error_text(handler_name: Seq<char>, message: Seq<char>) -> Seq<char> {
    "logic error in handler "@ + handler_name + " : "@ + message
}

/// What the result of one handler means for the chain: an error of the
/// handler ends the run as it is, and an `ErrorShutdown` ends it with an
/// error that names the handler.
pub open spec fn spec_chain_decision(
    result: Result<StateMachineNextActionView, SevStepErrorView>,
    handler_name: Seq<char>,
) -> ChainDecisionView {
    match result {
        Ok(StateMachineNextActionView::NEXT) => ChainDecisionView::Continue,
        Ok(StateMachineNextActionView::SKIP) => ChainDecisionView::SkipRest,
        Ok(StateMachineNextActionView::SHUTDOWN) => ChainDecisionView::Shutdown,
        Ok(StateMachineNextActionView::ErrorShutdown(message)) => ChainDecisionView::Fail(
            SevStepErrorView::Other {
                message: logic_error_text(handler_name, message),
                call_status: None,
            },
        ),
        Err(e) => ChainDecisionView::Fail(e),
    }
}

/// The error for an `ErrorShutdown` with `message` from the handler
/// `handler_name`.
pub fn logic_error(handler_name: &str, message: &str) -> (r: SevStepError)
    ensures
        r@ == (SevStepErrorView::Other {
            message: logic_error_text(handler_name@, message@),
            call_status: None,
        }),
{
    let mut text: String = "logic error in handler ".to_owned();
    text.append(handler_name);
    text.append(" : ");
    text.append(message);
    SevStepError::Other { message: text, call_status: None }
}

/// Says what the result of one handler means for the chain.
pub fn chain_decision(result: Result<StateMachineNextAction, SevStepError>, handler_name: &str) -> (r:
    ChainDecision)
    ensures
        r@ == spec_chain_decision(action_view(result), handler_name@),
{
    match result {
        Ok(StateMachineNextAction::NEXT) => ChainDecision::Continue,
        Ok(StateMachineNextAction::SKIP) => ChainDecision::SkipRest,
        Ok(StateMachineNextAction::SHUTDOWN) => ChainDecision::Shutdown,
        Ok(StateMachineNextAction::ErrorShutdown(message)) => ChainDecision::Fail(
            logic_error(handler_name, message.as_str()),
        ),
        Err(e) => ChainDecision::Fail(e),
    }
}

/// Where a run stands.
#[derive(Clone, Copy, Debug, PartialEq, Eq, Structural)]
pub enum RunPhase {
    /// The run has not begun.
    Idle,
    /// The control calls of the initial tracking are under way.
    InitialTracking,
    /// The run waits for an event.
    Waiting,
    /// An event is with the handlers.
    Handling,
    /// A handler has consumed the event; what is left is to carry out the
    /// pending control calls, to acknowledge and to wait for the next
    /// event.
    Acknowledging,
    /// A handler has asked for the end of the run; what is left is to
    /// carry out the pending control calls and to acknowledge.
    ShuttingDown,
    /// A handler has failed; what is left is to carry out the control
    /// calls that it requested before.
    Failing,
    /// The run is over.
    Finished,
}

/// What the caller brings to a run.
#[derive(Debug)]
pub enum RunInput {
    /// Nothing: the run is to begin.
    Start,
    /// The driver's status for the control call that the run asked for.
    CallStatus(i32),
    /// The event that the run waited for.
    Event(Event),
}

/// What the caller brings to a run, as contracts see it.
pub enum RunInputView {
    Start,
    CallStatus(i32),
    Event(EventView),
}

impl RunInputView {
    /// The input reports that a control call failed.
    pub open spec fn reports_failure(self) -> bool {
        self is CallStatus && self->CallStatus_0 != 0
    }
}

impl View for RunInput {
    type V = RunInputView;

    open spec fn view(&self) -> RunInputView {
        match self {
            RunInput::Start => RunInputView::Start,
            RunInput::CallStatus(status) => RunInputView::CallStatus(*status),
            RunInput::Event(event) => RunInputView::Event(event@),
        }
    }
}

/// What a run asks of the caller.
#[derive(Debug)]
pub enum RunAction {
    /// Carry out this control call and come back with the driver's status.
    Call(ControlCall),
    /// Wait for the next event and come back with it. The first wait of a
    /// run is the one beside which the trigger runs.
    Wait { with_trigger: bool },
    /// The run is over, with this result.
    Done(Result<(), SevStepError>),
}

/// What a run asks of the caller, as contracts see it.
pub enum RunActionView {
    Call(ControlCallView),
    Wait { with_trigger: bool },
    Done(Result<(), SevStepErrorView>),
}

impl View for RunAction {
    type V = RunActionView;

    open spec fn view(&self) -> RunActionView {
        match self {
            RunAction::Call(call) => RunActionView::Call(call@),
            RunAction::Wait { with_trigger } => RunActionView::Wait { with_trigger: *with_trigger },
            RunAction::Done(result) => RunActionView::Done(outcome_view(*result)),
        }
    }
}

/// The error for an input that does not answer what the run asked for.
pub open spec fn out_of_turn() -> SevStepErrorView {
    SevStepErrorView::Other { message: "input does not answer what the run asked for"@, call_status: None }
}

/// Runs a chain of handlers over the events of a connection.
///
/// The stepper decides, the caller acts: [`TargetedStepper::run`] takes
/// what the caller has to report and returns what it is to do next. The
/// run begins with the tracking of the initial pages and the wait for the
/// first event. Each event goes through the handlers in order; the control
/// calls that a handler requests are carried out before the next handler
/// sees the event. Then the event is acknowledged, once, and the run waits
/// for the next one.
///
/// A control call that the driver rejects ends the run with the error of
/// that call. The calls that are still pending then are given up, and the
/// handler that requested them is put back as it was before it saw the
/// event; the context stays as the handlers left it. A wait that fails
/// ends the run too, see [`TargetedStepper::wait_failed`].
pub struct TargetedStepper<H: EventHandler> {
    api: SevStep,
    handler_chain: Vec<H>,
    track_mode: PageTrackMode,
    initially_tracked_gpas: Vec<u64>,
    ctx: Context,
    phase: RunPhase,
    event: Option<Event>,
    next_handler: usize,
    failure: Option<SevStepError>,
    /// The handler that saw the event last, as it was before it saw the
    /// event.
    undo: Option<H>,
    /// The place in the chain of the handler that saw the event last.
    current: usize,
}

/// A run as contracts see it; `M` is what they see of a handler.
pub struct TargetedStepperView<M> {
    pub api: SevStepView,
    pub handlers: Seq<M>,
    pub track_mode: PageTrackMode,
    pub initially_tracked_gpas: Seq<u64>,
    pub ctx: Map<Seq<char>, Seq<u8>>,
    pub phase: RunPhase,
    pub event: Option<EventView>,
    pub next_handler: nat,
    pub failure: Option<SevStepErrorView>,
    /// The handler that saw the event last, as it was before it saw the
    /// event.
    pub undo: Option<M>,
    /// The place in the chain of the handler that saw the event last.
    pub current: nat,
}

impl<M> TargetedStepperView<M> {
    /// The run is in order: the connection is at rest, and the run holds
    /// what its phase needs.
    pub open spec fn wf(self) -> bool {
        &&& self.api.wf()
        &&& self.next_handler <= self.handlers.len()
        &&& (self.phase == RunPhase::Handling ==> self.event is Some)
        &&& (self.phase == RunPhase::Failing ==> self.failure is Some)
        &&& (self.undo is Some ==> self.current < self.handlers.len())
    }

    /// The handlers with the one that saw the event last as it was before
    /// it saw the event.
    pub open spec fn taken_back(self) -> Seq<M> {
        if self.undo is Some && self.current < self.handlers.len() {
            self.handlers.update(self.current as int, self.undo.unwrap())
        } else {
            self.handlers
        }
    }

    /// A control call is under way: the run has asked for the oldest
    /// pending call and waits for its status.
    pub open spec fn awaits_status(self) -> bool {
        &&& self.api.pending_calls.len() > 0
        &&& (self.phase == RunPhase::InitialTracking || self.phase == RunPhase::Handling
            || self.phase == RunPhase::ShuttingDown || self.phase == RunPhase::Failing)
    }

    /// The input answers what the run asked for last.
    pub open spec fn in_turn(self, input: RunInputView) -> bool {
        match input {
            RunInputView::Start => self.phase == RunPhase::Idle,
            RunInputView::CallStatus(_) => self.awaits_status(),
            RunInputView::Event(_) => self.phase == RunPhase::Waiting,
        }
    }

    /// The run after it has taken in an input that was in turn: the
    /// initial pages are requested, the control call is answered, or the
    /// event is set before the first handler.
    ///
    /// A control call that the driver rejected ends the run. What is
    /// still pending then is given up, so that no further call is made,
    /// and the handler that requested the calls is as it was before it
    /// saw the event: what it did counts only once its calls were
    /// accepted.
    pub open spec fn took_in(self, input: RunInputView) -> TargetedStepperView<M> {
        match input {
            RunInputView::Start => TargetedStepperView {
                api: requested(self.api, track_calls(self.initially_tracked_gpas, self.track_mode)),
                phase: RunPhase::InitialTracking,
                ..self
            },
            RunInputView::CallStatus(status) => if status == 0 {
                TargetedStepperView { api: self.api.answered(status), ..self }
            } else {
                TargetedStepperView {
                    api: self.api.answered(status).abandoned(),
                    handlers: self.taken_back(),
                    undo: None,
                    phase: RunPhase::Finished,
                    ..self
                }
            },
            RunInputView::Event(event) => TargetedStepperView {
                event: Some(event),
                next_handler: 0,
                phase: RunPhase::Handling,
                undo: None,
                ..self
            },
        }
    }

    /// The run after a wait of the caller's has failed: it is over.
    pub open spec fn gave_up(self) -> TargetedStepperView<M> {
        TargetedStepperView { phase: RunPhase::Finished, ..self }
    }

    /// A handler is to see the event next: no control call is pending and
    /// the chain is not through with the event.
    pub open spec fn handler_is_due(self) -> bool {
        &&& self.phase == RunPhase::Handling
        &&& self.api.pending_calls.len() == 0
        &&& self.next_handler < self.handlers.len()
    }

    /// Where the run goes, and what it asks of the caller, while no
    /// handler is due: the oldest pending control call; after the initial
    /// tracking, the first wait; when the chain is through with an event,
    /// the acknowledgement and the next wait; after a shutdown, the
    /// acknowledgement and the end; after a failure, the end with the
    /// error, and no acknowledgement.
    pub open spec fn settled(self) -> (TargetedStepperView<M>, RunActionView) {
        if self.api.pending_calls.len() > 0 {
            (self, RunActionView::Call(self.api.pending_calls[0]))
        } else if self.phase == RunPhase::InitialTracking {
            (
                TargetedStepperView { phase: RunPhase::Waiting, ..self },
                RunActionView::Wait { with_trigger: true },
            )
        } else if self.phase == RunPhase::ShuttingDown {
            (
                TargetedStepperView {
                    api: self.api.acknowledged(),
                    phase: RunPhase::Finished,
                    ..self
                },
                RunActionView::Done(Ok(())),
            )
        } else if self.phase == RunPhase::Failing {
            (
                TargetedStepperView { phase: RunPhase::Finished, failure: None, ..self },
                RunActionView::Done(Err(self.failure.unwrap())),
            )
        } else {
            (
                TargetedStepperView { api: self.api.acknowledged(), phase: RunPhase::Waiting, ..self },
                RunActionView::Wait { with_trigger: false },
            )
        }
    }

    /// The run after the handler that was due has seen the event, given
    /// what that handler did and what its result means for the chain.
    pub open spec fn decided(self, did: Processed<M>, decision: ChainDecisionView) -> TargetedStepperView<
        M,
    > {
        let after = TargetedStepperView {
            api: did.api,
            handlers: self.handlers.update(self.next_handler as int, did.state),
            ctx: did.ctx,
            undo: Some(self.handlers[self.next_handler as int]),
            current: self.next_handler,
            ..self
        };
        match decision {
            ChainDecisionView::Continue => TargetedStepperView {
                next_handler: self.next_handler + 1,
                ..after
            },
            ChainDecisionView::SkipRest => TargetedStepperView {
                next_handler: self.handlers.len(),
                ..after
            },
            ChainDecisionView::Shutdown => TargetedStepperView {
                phase: RunPhase::ShuttingDown,
                ..after
            },
            ChainDecisionView::Fail(e) => TargetedStepperView {
                phase: RunPhase::Failing,
                failure: Some(e),
                ..after
            },
        }
    }

    /// How far a run is from asking something of the caller.
    pub open spec fn distance(self) -> nat {
        if self.phase == RunPhase::Handling && self.next_handler <= self.handlers.len() {
            (self.handlers.len() - self.next_handler + 1) as nat
        } else {
            0
        }
    }
}

/// The run after the handler that is due has seen the event.
pub open spec fn after_next_handler<H: EventHandler>(
    run: TargetedStepperView<H::Model>,
) -> TargetedStepperView<H::Model> {
    let handler = run.handlers[run.next_handler as int];
    let did = H::processed(handler, run.event.unwrap(), run.api, run.ctx);
    run.decided(did, spec_chain_decision(did.result, H::name(did.state)))
}

/// Where a run goes, and what it asks of the caller: the handlers see the
/// event one after the other, as long as one is due, and then the run
/// settles.
pub open spec fn advanced<H: EventHandler>(run: TargetedStepperView<H::Model>) -> (
    TargetedStepperView<H::Model>,
    RunActionView,
)
    decreases run.distance(),
{
    if run.handler_is_due() {
        advanced::<H>(after_next_handler::<H>(run))
    } else {
        run.settled()
    }
}

/// Whatever the handlers do, a run waits for the next event, or ends
/// well, only with the last event acknowledged; and when it ends with the
/// error of a handler, it has not acknowledged since that handler saw
/// the event.
pub proof fn lemma_acknowledged_before_going_on<H: EventHandler>(run: TargetedStepperView<H::Model>)
    ensures
        ({
            let (after, action) = advanced::<H>(run);
            &&& action == (RunActionView::Wait { with_trigger: false }) || action
                == RunActionView::Done(Ok(())) ==> after.api.mailbox.have_event == 0
                && after.api.mailbox.event_acked == 1
            &&& !run.handler_is_due() && action is Done && action->Done_0 is Err ==> after.api
                == run.api
        }),
    decreases run.distance(),
{
    if run.handler_is_due() {
        lemma_acknowledged_before_going_on::<H>(after_next_handler::<H>(run));
    }
}

/// A control call that the driver rejects ends the run with the error of
/// that call. No further control call is made: nothing is pending
/// afterwards. And the handler that saw the event last is as it was
/// before it saw the event.
pub proof fn lemma_rejected_call_ends_the_run<H: EventHandler>(
    run: TargetedStepperView<H::Model>,
    status: i32,
)
    requires
        run.awaits_status(),
        status != 0,
    ensures
        ({
            let (ended, action) = spec_run::<H>(run, RunInputView::CallStatus(status));
            &&& action == RunActionView::Done(run.api.pending_calls[0].outcome(status))
            &&& action->Done_0 is Err
            &&& ended.phase == RunPhase::Finished
            &&& ended.api.pending_calls.len() == 0
            &&& ended.api.mailbox == run.api.mailbox
            &&& ended.handlers == run.taken_back()
        }),
{
}

/// What a handler does on an event counts only once the driver has
/// accepted the control calls that the handler requested for it. If the
/// handler whose turn it is requests control calls, the run asks for the
/// first of them; and if the driver rejects that one, the run is over,
/// nothing is pending and every handler is as it was before this handler
/// saw the event.
pub proof fn lemma_rejected_call_takes_the_handler_back<H: EventHandler>(
    run: TargetedStepperView<H::Model>,
    status: i32,
)
    requires
        run.wf(),
        run.handler_is_due(),
        after_next_handler::<H>(run).api.pending_calls.len() > 0,
        status != 0,
    ensures
        ({
            let (asked, action) = advanced::<H>(run);
            let (ended, end) = spec_run::<H>(asked, RunInputView::CallStatus(status));
            &&& action == RunActionView::Call(asked.api.pending_calls[0])
            &&& end == RunActionView::Done(asked.api.pending_calls[0].outcome(status))
            &&& ended.phase == RunPhase::Finished
            &&& ended.api.pending_calls.len() == 0
            &&& ended.handlers == run.handlers
        }),
{
    let after = after_next_handler::<H>(run);
    assert(!after.handler_is_due());
    assert(advanced::<H>(after) == after.settled());
    assert(advanced::<H>(run) == advanced::<H>(after));
    assert(after.taken_back() =~= run.handlers);
}

/// A transition of [`SkipIfNotOnTargetGPAs`] is made only if the driver
/// accepts its control calls. When the handler is due for a page fault
/// that takes the guest onto the target pages or off them, the run asks
/// for the first control call of the transition; if the driver rejects
/// it, the run ends with the error of that call, the handler is where it
/// was, on target or off, and no further control call is pending.
pub proof fn lemma_rejected_transition_is_not_made(
    run: TargetedStepperView<SkipIfNotOnTargetGPAsView>,
    fault: crate::api::PageFaultEventView,
    status: i32,
)
    requires
        run.wf(),
        run.handler_is_due(),
        run.event == Some(EventView::PageFaultEvent(fault)),
        run.handlers[run.next_handler as int].on_victim_pages
            != run.handlers[run.next_handler as int].target_gpas.contains(fault.faulted_gpa),
        status != 0,
    ensures
        ({
            let handler = run.handlers[run.next_handler as int];
            let first = if handler.on_victim_pages {
                ControlCallView::StopStepping
            } else {
                ControlCallView::TrackAllPages { track_mode: handler.track_mode }
            };
            let (asked, action) = advanced::<SkipIfNotOnTargetGPAs>(run);
            let (ended, end) = spec_run::<SkipIfNotOnTargetGPAs>(
                asked,
                RunInputView::CallStatus(status),
            );
            &&& action == RunActionView::Call(first)
            &&& end == RunActionView::Done(first.outcome(status))
            &&& end->Done_0 is Err
            &&& ended.handlers[run.next_handler as int] == handler
            &&& ended.handlers == run.handlers
            &&& ended.api.pending_calls.len() == 0
            &&& ended.phase == RunPhase::Finished
        }),
{
    let handler = run.handlers[run.next_handler as int];
    let after = after_next_handler::<SkipIfNotOnTargetGPAs>(run);
    let did = handler.process(run.event.unwrap(), run.ctx);
    assert(run.api.pending_calls =~= Seq::<ControlCallView>::empty());
    if handler.on_victim_pages {
        assert(did.calls == handler.leave_calls());
        assert(did.calls[0] == ControlCallView::StopStepping);
    } else {
        assert(did.calls == handler.enter_calls());
        assert(did.calls[0] == (ControlCallView::TrackAllPages { track_mode: handler.track_mode }));
    }
    assert(after.api.pending_calls =~= did.calls);
    assert(after.api.pending_calls.len() > 0);
    assert(!after.handler_is_due());
    assert(advanced::<SkipIfNotOnTargetGPAs>(after) == after.settled());
    assert(advanced::<SkipIfNotOnTargetGPAs>(run) == advanced::<SkipIfNotOnTargetGPAs>(after));
    assert(after.awaits_status());
    assert(after.taken_back() =~= run.handlers);
}

/// What a call of [`TargetedStepper::run`] does: the run afterwards, and
/// what it asks of the caller. An input out of turn ends the run with an
/// error and so does a control call that failed; any other input is
/// taken in, and the run advances.
pub open spec fn spec_run<H: EventHandler>(
    run: TargetedStepperView<H::Model>,
    input: RunInputView,
) -> (TargetedStepperView<H::Model>, RunActionView) {
    if !run.in_turn(input) {
        (
            TargetedStepperView { phase: RunPhase::Finished, ..run },
            RunActionView::Done(Err(out_of_turn())),
        )
    } else if input.reports_failure() {
        (
            run.took_in(input),
            RunActionView::Done(run.api.pending_calls[0].outcome(input->CallStatus_0)),
        )
    } else {
        advanced::<H>(run.took_in(input))
    }
}

/// What `models` shows of each handler of a chain.
pub open spec fn models<H: EventHandler>(chain: Seq<H>) -> Seq<H::Model> {
    chain.map_values(|h: H| h.model())
}

impl<H: EventHandler> View for TargetedStepper<H> {
    type V = TargetedStepperView<H::Model>;

    closed spec fn view(&self) -> TargetedStepperView<H::Model> {
        TargetedStepperView {
            api: self.api@,
            handlers: models(self.handler_chain@),
            track_mode: self.track_mode,
            initially_tracked_gpas: self.initially_tracked_gpas@,
            ctx: self.ctx@,
            phase: self.phase,
            event: match self.event {
                Some(e) => Some(e@),
                None => None,
            },
            next_handler: self.next_handler as nat,
            failure: match self.failure {
                Some(e) => Some(e@),
                None => None,
            },
            undo: match self.undo {
                Some(h) => Some(h.model()),
                None => None,
            },
            current: self.current as nat,
        }
    }
}

impl<H: EventHandler> TargetedStepper<H> {
    /// A stepper for the connection `api` and the handlers
    /// `handler_chain`, which are run in this order. Before the first
    /// wait the pages `initially_tracked_gpas` are tracked with
    /// `initial_track_mode`.
    pub fn new(
        api: SevStep,
        handler_chain: Vec<H>,
        initial_track_mode: PageTrackMode,
        initially_tracked_gpas: Vec<u64>,
    ) -> (r: TargetedStepper<H>)
        requires
            api@.wf(),
        ensures
            r@ == (TargetedStepperView {
                api: api@,
                handlers: models(handler_chain@),
                track_mode: initial_track_mode,
                initially_tracked_gpas: initially_tracked_gpas@,
                ctx: Map::empty(),
                phase: RunPhase::Idle,
                event: None,
                next_handler: 0,
                failure: None,
                undo: None,
                current: 0,
            }),
            r.chain() == handler_chain@,
            r@.wf(),
    {
        TargetedStepper {
            api,
            handler_chain,
            track_mode: initial_track_mode,
            initially_tracked_gpas,
            ctx: Context::new(),
            phase: RunPhase::Idle,
            event: None,
            next_handler: 0,
            failure: None,
            undo: None,
            current: 0,
        }
    }

    /// The handlers of the chain, in order.
    pub closed spec fn chain(&self) -> Seq<H> {
        self.handler_chain@
    }

    /// Whether the run is in order, as it is between any two calls on a
    /// stepper that [`TargetedStepper::new`] made with a connection at
    /// rest.
    pub fn is_wf(&self) -> (r: bool)
        ensures
            r == self@.wf(),
    {
        self.api.is_wf() && self.next_handler <= self.handler_chain.len() && (match self.phase {
            RunPhase::Handling => self.event.is_some(),
            RunPhase::Failing => self.failure.is_some(),
            _ => true,
        }) && (self.undo.is_none() || self.current < self.handler_chain.len())
    }

    /// The handlers, for a look at what they have gathered.
    pub fn handlers(&self) -> (r: &Vec<H>)
        ensures
            r@ == self.chain(),
            models(r@) == self@.handlers,
    {
        &self.handler_chain
    }

    /// The context that the handlers have produced so far.
    pub fn context(&self) -> (r: &Context)
        ensures
            r@ == self@.ctx,
    {
        &self.ctx
    }

    /// The connection, for the caller's side of a wait.
    pub fn api(&mut self) -> (r: &mut SevStep)
        ensures
            r@ == old(self)@.api,
            final(self)@ == (TargetedStepperView { api: final(r)@, ..old(self)@ }),
            final(self).chain() == old(self).chain(),
    {
        &mut self.api
    }

    /// Gives the connection and the handlers back.
    pub fn into_parts(self) -> (r: (SevStep, Vec<H>))
        ensures
            r.0@ == self@.api,
            r.1@ == self.chain(),
    {
        (self.api, self.handler_chain)
    }

    /// Requests the tracking of the initial pages, in order.
    fn track_initial(&mut self)
        ensures
            final(self)@ == (TargetedStepperView {
                api: requested(
                    old(self)@.api,
                    track_calls(old(self)@.initially_tracked_gpas, old(self)@.track_mode),
                ),
                ..old(self)@
            }),
    {
        let mut i: usize = 0;
        assert(self.api@.pending_calls + track_calls(
            self.initially_tracked_gpas@.take(0),
            self.track_mode,
        ) =~= self.api@.pending_calls);
        while i < self.initially_tracked_gpas.len()
            invariant
                i <= self.initially_tracked_gpas.len(),
                self@ == (TargetedStepperView {
                    api: requested(
                        old(self)@.api,
                        track_calls(
                            old(self)@.initially_tracked_gpas.take(i as int),
                            old(self)@.track_mode,
                        ),
                    ),
                    ..old(self)@
                }),
            decreases self.initially_tracked_gpas.len() - i,
        {
            self.api.track_page(self.initially_tracked_gpas[i], self.track_mode);
            assert(self.api@.pending_calls =~= old(self)@.api.pending_calls + track_calls(
                old(self)@.initially_tracked_gpas.take(i + 1),
                old(self)@.track_mode,
            ));
            i = i + 1;
        }
        assert(self.initially_tracked_gpas@.take(i as int) =~= self.initially_tracked_gpas@);
    }

    /// Ends the run with an error.
    fn fail(&mut self, e: SevStepError) -> (r: RunAction)
        requires
            old(self)@.wf(),
        ensures
            final(self)@ == (TargetedStepperView { phase: RunPhase::Finished, ..old(self)@ }),
            final(self).chain() == old(self).chain(),
            r@ == RunActionView::Done(Err(e@)),
    {
        self.phase = RunPhase::Finished;
        RunAction::Done(Err(e))
    }

    fn out_of_turn_error() -> (r: SevStepError)
        ensures
            r@ == out_of_turn(),
    {
        SevStepError::Other {
            message: "input does not answer what the run asked for".to_owned(),
            call_status: None,
        }
    }

    /// Takes what the caller reports and says what it is to do next.
    ///
    /// The caller begins with `Start`, answers each `Call` with the
    /// driver's status for that call and each `Wait` with the event that
    /// arrived. An input that does not answer what was asked for ends the
    /// run with an error, and so does the failure of a control call.
    ///
    /// What the handlers return decides the rest, as
    /// [`chain_decision`] says for each result: the event is
    /// acknowledged, once, when the chain is through with it or a handler
    /// asked to skip the rest or to shut down, and not when a handler
    /// failed. The caller whose wait fails says so with
    /// [`TargetedStepper::wait_failed`].
    pub fn run(&mut self, input: RunInput) -> (r: RunAction)
        requires
            old(self)@.wf(),
        ensures
            final(self)@.wf(),
            (final(self)@, r@) == spec_run::<H>(old(self)@, input@),
    {
        match input {
            RunInput::Start => {
                if self.phase != RunPhase::Idle {
                    return self.fail(Self::out_of_turn_error());
                }
                self.track_initial();
                self.phase = RunPhase::InitialTracking;
            },
            RunInput::CallStatus(status) => {
                let awaited = match self.phase {
                    RunPhase::InitialTracking | RunPhase::Handling | RunPhase::ShuttingDown
                    | RunPhase::Failing => self.api.next_call().is_some(),
                    _ => false,
                };
                if !awaited {
                    return self.fail(Self::out_of_turn_error());
                }
                match self.api.complete_call(status) {
                    Ok(()) => {},
                    Err(e) => {
                        self.api.abandon_calls();
                        self.take_back();
                        return self.fail(e);
                    },
                }
            },
            RunInput::Event(event) => {
                if self.phase != RunPhase::Waiting {
                    return self.fail(Self::out_of_turn_error());
                }
                self.event = Some(event);
                self.next_handler = 0;
                self.phase = RunPhase::Handling;
                self.undo = None;
            },
        }
        self.advance()
    }

    /// Puts the handler that saw the event last back as it was before it
    /// saw the event.
    fn take_back(&mut self)
        requires
            old(self)@.wf(),
        ensures
            final(self)@ == (TargetedStepperView {
                handlers: old(self)@.taken_back(),
                undo: None,
                ..old(self)@
            }),
    {
        let ghost before = self@;
        match self.undo.take() {
            Some(earlier) => {
                if self.current < self.handler_chain.len() {
                    self.handler_chain.set(self.current, earlier);
                    assert(models(self.handler_chain@) =~= before.handlers.update(
                        before.current as int,
                        before.undo.unwrap(),
                    ));
                }
            },
            None => {},
        }
    }

    /// Takes the news that a wait of the caller's has failed, which ends
    /// the run with the error of the wait. No handler sees anything of
    /// it, and nothing that was acknowledged before is taken back. A run
    /// that was not waiting is told something out of turn, and ends with
    /// that error.
    pub fn wait_failed(&mut self, e: SevStepError) -> (r: RunAction)
        requires
            old(self)@.wf(),
        ensures
            final(self)@.wf(),
            final(self)@ == old(self)@.gave_up(),
            final(self).chain() == old(self).chain(),
            r@ == RunActionView::Done(
                Err(
                    if old(self)@.phase == RunPhase::Waiting {
                        e@
                    } else {
                        out_of_turn()
                    },
                ),
            ),
    {
        if self.phase != RunPhase::Waiting {
            return self.fail(Self::out_of_turn_error());
        }
        self.fail(e)
    }

    /// Goes on with the run until the caller has to act.
    fn advance(&mut self) -> (r: RunAction)
        requires
            old(self)@.wf(),
            old(self)@.phase == RunPhase::InitialTracking || old(self)@.phase == RunPhase::Handling
                || old(self)@.phase == RunPhase::ShuttingDown || old(self)@.phase
                == RunPhase::Failing,
        ensures
            final(self)@.wf(),
            (final(self)@, r@) == advanced::<H>(old(self)@),
    {
        loop
            invariant
                self@.wf(),
                self@.phase == RunPhase::InitialTracking || self@.phase == RunPhase::Handling
                    || self@.phase == RunPhase::ShuttingDown || self@.phase == RunPhase::Failing,
                advanced::<H>(self@) == advanced::<H>(old(self)@),
            decreases self@.distance(),
        {
            if let Some(call) = self.api.next_call() {
                return RunAction::Call(call);
            }
            match self.phase {
                RunPhase::InitialTracking => {
                    self.phase = RunPhase::Waiting;
                    return RunAction::Wait { with_trigger: true };
                },
                RunPhase::ShuttingDown => {
                    self.api.ack_event();
                    self.phase = RunPhase::Finished;
                    return RunAction::Done(Ok(()));
                },
                RunPhase::Failing => {
                    self.phase = RunPhase::Finished;
                    let failure = self.failure.take();
                    return RunAction::Done(
                        Err(
                            match failure {
                                Some(e) => e,
                                None => Self::out_of_turn_error(),
                            },
                        ),
                    );
                },
                RunPhase::Handling => {
                    if self.next_handler >= self.handler_chain.len() {
                        self.api.ack_event();
                        self.phase = RunPhase::Waiting;
                        return RunAction::Wait { with_trigger: false };
                    }
                    let ghost before = self@;
                    let earlier = self.handler_chain[self.next_handler].snapshot();
                    let decision = match &self.event {
                        Some(event) => {
                            let result = self.handler_chain[self.next_handler].process(
                                event,
                                &mut self.api,
                                &mut self.ctx,
                            );
                            chain_decision(result, self.handler_chain[self.next_handler].get_name())
                        },
                        None => ChainDecision::Fail(Self::out_of_turn_error()),
                    };
                    self.undo = Some(earlier);
                    self.current = self.next_handler;
                    let ghost handler = before.handlers[before.next_handler as int];
                    let ghost did = H::processed(handler, before.event.unwrap(), before.api, before.ctx);
                    assert(decision@ == spec_chain_decision(did.result, H::name(did.state)));
                    assert(self@.handlers =~= before.handlers.update(
                        before.next_handler as int,
                        did.state,
                    ));
                    match decision {
                        ChainDecision::Continue => {
                            self.next_handler = self.next_handler + 1;
                        },
                        ChainDecision::SkipRest => {
                            self.next_handler = self.handler_chain.len();
                        },
                        ChainDecision::Shutdown => {
                            self.phase = RunPhase::ShuttingDown;
                        },
                        ChainDecision::Fail(e) => {
                            self.failure = Some(e);
                            self.phase = RunPhase::Failing;
                        },
                    }
                    assert(self@ == after_next_handler::<H>(before));
                },
                _ => {
                    return self.fail(Self::out_of_turn_error());
                },
            }
        }
    }
}

} // verus!
