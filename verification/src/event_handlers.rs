//! Handlers that may consume many events before they hand on, and the
//! [`ComposableHandlerChain`] that runs a sequence of them once from end
//! to end.

use vstd::prelude::*;
use crate::api::{
    ControlCall, ControlCallView, Event, EventView, SevStep, SevStepError, SevStepErrorView,
    SevStepView,
};
use crate::context::Context;
use crate::single_stepper::{
    RunInput, RunInputView, RunPhase, StateMachineNextAction, StateMachineNextActionView,
    logic_error, logic_error_text, out_of_turn, requested, track_calls,
};
use crate::types::PageTrackMode;

pub mod state_machine_handlers;

verus! {

/// What a handler leaves behind when it is done.
#[derive(Debug)]
pub struct EventHandlerOutcome {
    /// The event that is pending now: received, and not acknowledged. The
    /// guest stays paused on it.
    pub pending_event: Event,
    /// How the chain is to proceed.
    pub next_action: StateMachineNextAction,
}

/// What a handler leaves behind, as contracts see it.
pub struct EventHandlerOutcomeView {
    pub pending_event: EventView,
    pub next_action: StateMachineNextActionView,
}

impl View for EventHandlerOutcome {
    type V = EventHandlerOutcomeView;

    open spec fn view(&self) -> EventHandlerOutcomeView {
        EventHandlerOutcomeView {
            pending_event: self.pending_event@,
            next_action: self.next_action@,
        }
    }
}

/// The view of what a composable handler returns.
pub open spec fn outcome_view(r: Result<Option<EventHandlerOutcome>, SevStepError>) -> Result<
    Option<EventHandlerOutcomeView>,
    SevStepErrorView,
> {
    match r {
        Ok(Some(outcome)) => Ok(Some(outcome@)),
        Ok(None) => Ok(None),
        Err(e) => Err(e@),
    }
}

/// The outcome "done, `event` is pending, go on with the next handler".
pub open spec fn hand_on(event: EventView) -> Result<
    Option<EventHandlerOutcomeView>,
    SevStepErrorView,
> {
    Ok(
        Some(
            EventHandlerOutcomeView {
                pending_event: event,
                next_action: StateMachineNextActionView::NEXT,
            },
        ),
    )
}

/// The outcome "done, `event` is pending, end the run with this error".
pub open spec fn give_up(event: EventView, message: Seq<char>) -> Result<
    Option<EventHandlerOutcomeView>,
    SevStepErrorView,
> {
    Ok(
        Some(
            EventHandlerOutcomeView {
                pending_event: event,
                next_action: StateMachineNextActionView::ErrorShutdown(message),
            },
        ),
    )
}

/// What one call of a composable handler amounts to, as a chain sees it:
/// the handler afterwards, the connection afterwards, the context
/// afterwards and what the handler returned.
pub struct Composed<M> {
    pub state: M,
    pub api: SevStepView,
    pub ctx: Map<Seq<char>, Seq<u8>>,
    pub result: Result<Option<EventHandlerOutcomeView>, SevStepErrorView>,
}

/// A handler that holds its place in the chain for as many events as it
/// needs.
///
/// `process` is called with the pending event. If it returns nothing, the
/// handler has consumed that event: the event is acknowledged and the
/// handler is called again with the next one. If it returns an outcome,
/// the handler is done, and the outcome names the event that is pending
/// then.
///
/// A handler is a state machine: what `process` does is decided by the
/// handler, the event, the connection and the context. `processed` says
/// what it does, over what `model` shows of the handler, so that what a
/// chain of handlers does can be said too. Of a handler that says nothing
/// of itself only this much is known: that it is such a state machine.
pub trait ComposableEventHandler: Sized {
    /// What contracts see of a handler.
    type Model;

    /// The handler as contracts see it.
    open spec fn model(&self) -> Self::Model {
        arbitrary()
    }

    /// The name of the handler.
    open spec fn name(m: Self::Model) -> Seq<char> {
        arbitrary()
    }

    /// What `process` does.
    open spec fn processed(
        m: Self::Model,
        event: EventView,
        api: SevStepView,
        ctx: Map<Seq<char>, Seq<u8>>,
    ) -> Composed<Self::Model> {
        arbitrary()
    }

    fn process(&mut self, event: &Event, api: &mut SevStep, ctx: &mut Context) -> (r: Result<
        Option<EventHandlerOutcome>,
        SevStepError,
    >)
        requires
            old(api)@.wf(),
        ensures
            final(api)@.wf(),
            final(self).model() == Self::processed(
                old(self).model(),
                event@,
                old(api)@,
                old(ctx)@,
            ).state,
            final(api)@ == Self::processed(old(self).model(), event@, old(api)@, old(ctx)@).api,
            final(ctx)@ == Self::processed(old(self).model(), event@, old(api)@, old(ctx)@).ctx,
            outcome_view(r) == Self::processed(
                old(self).model(),
                event@,
                old(api)@,
                old(ctx)@,
            ).result,
    ;

    fn get_name(&self) -> (r: &str)
        ensures
            r@ == Self::name(self.model()),
    ;

    /// A copy of the handler as it is now. A chain takes one before each
    /// call of `process`, and puts it back in place of the handler if the
    /// driver rejects a control call that the handler requested: what a
    /// handler does on an event counts only once its calls were
    /// accepted.
    fn snapshot(&self) -> (r: Self)
        ensures
            r.model() == self.model(),
    ;
}

/// What the caller gets back from a chain that has run.
pub struct ComposableHandlerChainOutcome {
    /// The event that is still pending. Whoever goes on with the
    /// connection starts from it.
    pub pending_event: Event,
    /// The context that the handlers produced.
    pub produced_ctx: Context,
}

/// Pages to track before a chain waits for its first event.
pub struct InitialTrackingRequest {
    pub mode: PageTrackMode,
    pub gpas: Vec<u64>,
}

/// What the result of one call of a composable handler means for the
/// chain.
#[derive(Debug)]
pub enum ComposableDecision {
    /// The handler has consumed the event: it is acknowledged, and the
    /// same handler sees the next one.
    Again,
    /// The handler is done: the next handler sees the pending event.
    Continue(Event),
    /// The run ends, and the event stays pending.
    Shutdown(Event),
    /// The run ends with this error.
    Fail(SevStepError),
}

/// A decision of the chain as contracts see it.
pub enum ComposableDecisionView {
    Again,
    Continue(EventView),
    Shutdown(EventView),
    Fail(SevStepErrorView),
}

impl View for ComposableDecision {
    type V = ComposableDecisionView;

    open spec fn view(&self) -> ComposableDecisionView {
        match self {
            ComposableDecision::Again => ComposableDecisionView::Again,
            ComposableDecision::Continue(e) => ComposableDecisionView::Continue(e@),
            ComposableDecision::Shutdown(e) => ComposableDecisionView::Shutdown(e@),
            ComposableDecision::Fail(e) => ComposableDecisionView::Fail(e@),
        }
    }
}

/// What the result of one call of a composable handler means for the
/// chain. To skip is not for composable handlers: asking for it is an
/// error of the handler.
pub open spec fn spec_composable_decision(
    result: Result<Option<EventHandlerOutcomeView>, SevStepErrorView>,
    handler_name: Seq<char>,
) -> ComposableDecisionView {
    match result {
        Ok(None) => ComposableDecisionView::Again,
        Ok(Some(outcome)) => match outcome.next_action {
            StateMachineNextActionView::NEXT => ComposableDecisionView::Continue(
                outcome.pending_event,
            ),
            StateMachineNextActionView::SKIP => ComposableDecisionView::Fail(
                SevStepErrorView::Other {
                    message: "composable handler chain does not support SKIP"@,
                    call_status: None,
                },
            ),
            StateMachineNextActionView::SHUTDOWN => ComposableDecisionView::Shutdown(
                outcome.pending_event,
            ),
            StateMachineNextActionView::ErrorShutdown(message) => ComposableDecisionView::Fail(
                SevStepErrorView::Other {
                    message: logic_error_text(handler_name, message),
                    call_status: None,
                },
            ),
        },
        Err(e) => ComposableDecisionView::Fail(e),
    }
}

/// Says what the result of one call of a composable handler means for the
/// chain.
pub fn composable_decision(
    result: Result<Option<EventHandlerOutcome>, SevStepError>,
    handler_name: &str,
) -> (r: ComposableDecision)
    ensures
        r@ == spec_composable_decision(outcome_view(result), handler_name@),
{
    match result {
        Ok(None) => ComposableDecision::Again,
        Ok(Some(outcome)) => match outcome.next_action {
            StateMachineNextAction::NEXT => ComposableDecision::Continue(outcome.pending_event),
            StateMachineNextAction::SKIP => ComposableDecision::Fail(
                SevStepError::Other {
                    message: "composable handler chain does not support SKIP".to_owned(),
                    call_status: None,
                },
            ),
            StateMachineNextAction::SHUTDOWN => ComposableDecision::Shutdown(outcome.pending_event),
            StateMachineNextAction::ErrorShutdown(message) => ComposableDecision::Fail(
                logic_error(handler_name, message.as_str()),
            ),
        },
        Err(e) => ComposableDecision::Fail(e),
    }
}

/// What a chain asks of the caller.
pub enum ChainAction {
    /// Carry out this control call and come back with the driver's status.
    Call(ControlCall),
    /// Wait for the next event and come back with it. The first wait of a
    /// run is the one beside which the trigger runs.
    Wait { with_trigger: bool },
    /// The run is over, with this result.
    Done(Result<ComposableHandlerChainOutcome, SevStepError>),
}

/// What a chain asks of the caller, as contracts see it.
pub enum ChainActionView {
    Call(ControlCallView),
    Wait { with_trigger: bool },
    Done(Result<(EventView, Map<Seq<char>, Seq<u8>>), SevStepErrorView>),
}

impl View for ChainAction {
    type V = ChainActionView;

    open spec fn view(&self) -> ChainActionView {
        match self {
            ChainAction::Call(call) => ChainActionView::Call(call@),
            ChainAction::Wait { with_trigger } => ChainActionView::Wait {
                with_trigger: *with_trigger,
            },
            ChainAction::Done(result) => ChainActionView::Done(done_view(*result)),
        }
    }
}

/// Runs a sequence of composable handlers once from end to end.
///
/// The chain decides, the caller acts: [`ComposableHandlerChain::run`]
/// takes what the caller has to report and returns what it is to do next.
/// Each handler keeps its place until it is done, and hands the event
/// that is pending then to the next handler. At the end that event is
/// still pending: the caller may go on from it with another chain.
///
/// A control call that the driver rejects ends the run with the error of
/// that call. The calls that are still pending then are given up, and the
/// handler that requested them is put back as it was before it saw the
/// event; the context stays as the handlers left it. A wait that fails
/// ends the run too, see [`ComposableHandlerChain::wait_failed`].
pub struct ComposableHandlerChain<H: ComposableEventHandler> {
    api: SevStep,
    handler_chain: Vec<H>,
    initial_tracking: Option<InitialTrackingRequest>,
    ctx: Context,
    phase: RunPhase,
    event: Option<Event>,
    next_handler: usize,
    failure: Option<SevStepError>,
    /// The handler that saw the event last, as it was before it saw the
    /// event.
    undo: Option<H>,
    /// The place in the chain of the handler that saw the event last.
    current: usize,
}

/// A run as contracts see it; `M` is what they see of a handler.
pub struct ComposableHandlerChainView<M> {
    pub api: SevStepView,
    pub handlers: Seq<M>,
    pub initial_calls: Seq<ControlCallView>,
    pub ctx: Map<Seq<char>, Seq<u8>>,
    pub phase: RunPhase,
    pub event: Option<EventView>,
    pub next_handler: nat,
    pub failure: Option<SevStepErrorView>,
    /// The handler that saw the event last, as it was before it saw the
    /// event.
    pub undo: Option<M>,
    /// The place in the chain of the handler that saw the event last.
    pub current: nat,
}

impl<M> ComposableHandlerChainView<M> {
    /// The run is in order: the connection is at rest, and the run holds
    /// what its phase needs.
    pub open spec fn wf(self) -> bool {
        &&& self.api.wf()
        &&& self.next_handler <= self.handlers.len()
        &&& (self.phase == RunPhase::Handling || self.phase == RunPhase::ShuttingDown
            ==> self.event is Some)
        &&& (self.phase == RunPhase::Failing ==> self.failure is Some)
        &&& (self.undo is Some ==> self.current < self.handlers.len())
    }

    /// The handlers with the one that saw the event last as it was before
    /// it saw the event.
    pub open spec fn taken_back(self) -> Seq<M> {
        if self.undo is Some && self.current < self.handlers.len() {
            self.handlers.update(self.current as int, self.undo.unwrap())
        } else {
            self.handlers
        }
    }

    /// A control call is under way: the run has asked for the oldest
    /// pending call and waits for its status.
    pub open spec fn awaits_status(self) -> bool {
        &&& self.api.pending_calls.len() > 0
        &&& (self.phase == RunPhase::InitialTracking || self.phase == RunPhase::Handling
            || self.phase == RunPhase::Acknowledging || self.phase == RunPhase::ShuttingDown
            || self.phase == RunPhase::Failing)
    }

    /// The input answers what the run asked for last.
    pub open spec fn in_turn(self, input: RunInputView) -> bool {
        match input {
            RunInputView::Start => self.phase == RunPhase::Idle,
            RunInputView::CallStatus(_) => self.awaits_status(),
            RunInputView::Event(_) => self.phase == RunPhase::Waiting,
        }
    }

    /// The run after it has taken in an input that was in turn: the
    /// initial pages are requested, the control call is answered, or the
    /// event is set before the handler whose turn it is.
    ///
    /// A control call that the driver rejected ends the run. What is
    /// still pending then is given up, so that no further call is made,
    /// and the handler that requested the calls is as it was before it
    /// saw the event: what it did counts only once its calls were
    /// accepted.
    pub open spec fn took_in(self, input: RunInputView) -> ComposableHandlerChainView<M> {
        match input {
            RunInputView::Start => ComposableHandlerChainView {
                api: requested(self.api, self.initial_calls),
                phase: RunPhase::InitialTracking,
                ..self
            },
            RunInputView::CallStatus(status) => if status == 0 {
                ComposableHandlerChainView { api: self.api.answered(status), ..self }
            } else {
                ComposableHandlerChainView {
                    api: self.api.answered(status).abandoned(),
                    handlers: self.taken_back(),
                    undo: None,
                    phase: RunPhase::Finished,
                    ..self
                }
            },
            RunInputView::Event(event) => ComposableHandlerChainView {
                event: Some(event),
                phase: RunPhase::Handling,
                undo: None,
                ..self
            },
        }
    }

    /// The run after a wait of the caller's has failed: it is over.
    pub open spec fn gave_up(self) -> ComposableHandlerChainView<M> {
        ComposableHandlerChainView { phase: RunPhase::Finished, ..self }
    }

    /// A handler is to see the event next: no control call is pending and
    /// not every handler is done.
    pub open spec fn handler_is_due(self) -> bool {
        &&& self.phase == RunPhase::Handling
        &&& self.api.pending_calls.len() == 0
        &&& self.next_handler < self.handlers.len()
    }

    /// Where the run goes, and what it asks of the caller, while no
    /// handler is due: the oldest pending control call; after the initial
    /// tracking, the first wait; after a handler has consumed an event,
    /// the acknowledgement and the next wait; when every handler is done,
    /// or after a shutdown, the end with the pending event and the
    /// context, and no acknowledgement; after a failure, the end with the
    /// error.
    pub open spec fn settled(self) -> (ComposableHandlerChainView<M>, ChainActionView) {
        if self.api.pending_calls.len() > 0 {
            (self, ChainActionView::Call(self.api.pending_calls[0]))
        } else if self.phase == RunPhase::InitialTracking {
            (
                ComposableHandlerChainView { phase: RunPhase::Waiting, ..self },
                ChainActionView::Wait { with_trigger: true },
            )
        } else if self.phase == RunPhase::Acknowledging {
            (
                ComposableHandlerChainView {
                    api: self.api.acknowledged(),
                    phase: RunPhase::Waiting,
                    event: None,
                    ..self
                },
                ChainActionView::Wait { with_trigger: false },
            )
        } else if self.phase == RunPhase::Failing {
            (
                ComposableHandlerChainView { phase: RunPhase::Finished, failure: None, ..self },
                ChainActionView::Done(Err(self.failure.unwrap())),
            )
        } else {
            (
                ComposableHandlerChainView {
                    phase: RunPhase::Finished,
                    event: None,
                    ctx: Map::empty(),
                    ..self
                },
                ChainActionView::Done(Ok((self.event.unwrap(), self.ctx))),
            )
        }
    }

    /// The run after the handler that was due has seen the event, given
    /// what that handler did and what its result means for the chain.
    pub open spec fn decided(
        self,
        did: Composed<M>,
        decision: ComposableDecisionView,
    ) -> ComposableHandlerChainView<M> {
        let after = ComposableHandlerChainView {
            api: did.api,
            handlers: self.handlers.update(self.next_handler as int, did.state),
            ctx: did.ctx,
            undo: Some(self.handlers[self.next_handler as int]),
            current: self.next_handler,
            ..self
        };
        match decision {
            ComposableDecisionView::Again => ComposableHandlerChainView {
                phase: RunPhase::Acknowledging,
                ..after
            },
            ComposableDecisionView::Continue(pending) => ComposableHandlerChainView {
                event: Some(pending),
                next_handler: self.next_handler + 1,
                ..after
            },
            ComposableDecisionView::Shutdown(pending) => ComposableHandlerChainView {
                event: Some(pending),
                phase: RunPhase::ShuttingDown,
                ..after
            },
            ComposableDecisionView::Fail(e) => ComposableHandlerChainView {
                phase: RunPhase::Failing,
                failure: Some(e),
                ..after
            },
        }
    }

    /// How far a run is from asking something of the caller.
    pub open spec fn distance(self) -> nat {
        if self.phase == RunPhase::Handling && self.next_handler <= self.handlers.len() {
            (self.handlers.len() - self.next_handler + 1) as nat
        } else {
            0
        }
    }
}

/// The run after the handler that is due has seen the event.
pub open spec fn after_next_handler<H: ComposableEventHandler>(
    run: ComposableHandlerChainView<H::Model>,
) -> ComposableHandlerChainView<H::Model> {
    let handler = run.handlers[run.next_handler as int];
    let did = H::processed(handler, run.event.unwrap(), run.api, run.ctx);
    run.decided(did, spec_composable_decision(did.result, H::name(did.state)))
}

/// Where a run goes, and what it asks of the caller: the handlers whose
/// turn it is see the event one after the other, as long as one is due,
/// and then the run settles.
pub open spec fn advanced<H: ComposableEventHandler>(run: ComposableHandlerChainView<H::Model>) -> (
    ComposableHandlerChainView<H::Model>,
    ChainActionView,
)
    decreases run.distance(),
{
    if run.handler_is_due() {
        advanced::<H>(after_next_handler::<H>(run))
    } else {
        run.settled()
    }
}

/// Whatever the handlers do, a run waits for the next event only with
/// the last event acknowledged; and when no handler is due any more, the
/// run ends without touching the connection, so that the pending event
/// stays pending.
pub proof fn lemma_acknowledged_before_waiting<H: ComposableEventHandler>(
    run: ComposableHandlerChainView<H::Model>,
)
    ensures
        ({
            let (after, action) = advanced::<H>(run);
            &&& action == (ChainActionView::Wait { with_trigger: false })
                ==> after.api.mailbox.have_event == 0 && after.api.mailbox.event_acked == 1
            &&& !run.handler_is_due() && action is Done ==> after.api == run.api
        }),
    decreases run.distance(),
{
    if run.handler_is_due() {
        lemma_acknowledged_before_waiting::<H>(after_next_handler::<H>(run));
    }
}

/// A control call that the driver rejects ends the run with the error of
/// that call. No further control call is made: nothing is pending
/// afterwards. And the handler that saw the event last is as it was
/// before it saw the event.
pub proof fn lemma_rejected_call_ends_the_run<H: ComposableEventHandler>(
    run: ComposableHandlerChainView<H::Model>,
    status: i32,
)
    requires
        run.awaits_status(),
        status != 0,
    ensures
        ({
            let (ended, action) = spec_run::<H>(run, RunInputView::CallStatus(status));
            &&& action is Done
            &&& action->Done_0 is Err
            &&& Err::<(), SevStepErrorView>(action->Done_0->Err_0)
                == run.api.pending_calls[0].outcome(status)
            &&& ended.phase == RunPhase::Finished
            &&& ended.api.pending_calls.len() == 0
            &&& ended.api.mailbox == run.api.mailbox
            &&& ended.handlers == run.taken_back()
        }),
{
}

/// What a handler does on an event counts only once the driver has
/// accepted the control calls that the handler requested for it. If the
/// handler whose turn it is requests control calls, the run asks for the
/// first of them; and if the driver rejects that one, the run is over,
/// nothing is pending and every handler is as it was before this handler
/// saw the event.
pub proof fn lemma_rejected_call_takes_the_handler_back<H: ComposableEventHandler>(
    run: ComposableHandlerChainView<H::Model>,
    status: i32,
)
    requires
        run.wf(),
        run.handler_is_due(),
        after_next_handler::<H>(run).api.pending_calls.len() > 0,
        status != 0,
    ensures
        ({
            let (asked, action) = advanced::<H>(run);
            let (ended, end) = spec_run::<H>(asked, RunInputView::CallStatus(status));
            &&& action == ChainActionView::Call(asked.api.pending_calls[0])
            &&& end is Done
            &&& end->Done_0 is Err
            &&& ended.phase == RunPhase::Finished
            &&& ended.api.pending_calls.len() == 0
            &&& ended.handlers == run.handlers
        }),
{
    let after = after_next_handler::<H>(run);
    assert(!after.handler_is_due());
    assert(advanced::<H>(after) == after.settled());
    assert(advanced::<H>(run) == advanced::<H>(after));
    assert(after.taken_back() =~= run.handlers);
}

/// What a call of [`ComposableHandlerChain::run`] does: the run
/// afterwards, and what it asks of the caller. An input out of turn ends
/// the run with an error and so does a control call that failed; any
/// other input is taken in, and the run advances.
pub open spec fn spec_run<H: ComposableEventHandler>(
    run: ComposableHandlerChainView<H::Model>,
    input: RunInputView,
) -> (ComposableHandlerChainView<H::Model>, ChainActionView) {
    if !run.in_turn(input) {
        (
            ComposableHandlerChainView { phase: RunPhase::Finished, ..run },
            ChainActionView::Done(Err(out_of_turn())),
        )
    } else if input.reports_failure() {
        (
            run.took_in(input),
            ChainActionView::Done(
                Err(run.api.pending_calls[0].outcome(input->CallStatus_0)->Err_0),
            ),
        )
    } else {
        advanced::<H>(run.took_in(input))
    }
}

/// What `model` shows of each handler of a chain.
pub open spec fn models<H: ComposableEventHandler>(chain: Seq<H>) -> Seq<H::Model> {
    chain.map_values(|h: H| h.model())
}

/// The control calls that an initial tracking request stands for.
pub open spec fn initial_calls(request: Option<InitialTrackingRequest>) -> Seq<ControlCallView> {
    match request {
        Some(tracking) => track_calls(tracking.gpas@, tracking.mode),
        None => Seq::empty(),
    }
}

impl<H: ComposableEventHandler> View for ComposableHandlerChain<H> {
    type V = ComposableHandlerChainView<H::Model>;

    closed spec fn view(&self) -> ComposableHandlerChainView<H::Model> {
        ComposableHandlerChainView {
            api: self.api@,
            handlers: models(self.handler_chain@),
            initial_calls: initial_calls(self.initial_tracking),
            ctx: self.ctx@,
            phase: self.phase,
            event: match self.event {
                Some(e) => Some(e@),
                None => None,
            },
            next_handler: self.next_handler as nat,
            failure: match self.failure {
                Some(e) => Some(e@),
                None => None,
            },
            undo: match self.undo {
                Some(h) => Some(h.model()),
                None => None,
            },
            current: self.current as nat,
        }
    }
}

/// What a finished run hands back, seen through views.
pub open spec fn done_view(r: Result<ComposableHandlerChainOutcome, SevStepError>) -> Result<
    (EventView, Map<Seq<char>, Seq<u8>>),
    SevStepErrorView,
> {
    match r {
        Ok(outcome) => Ok((outcome.pending_event@, outcome.produced_ctx@)),
        Err(e) => Err(e@),
    }
}

impl<H: ComposableEventHandler> ComposableHandlerChain<H> {
    /// A chain for the connection `api` and the handlers `handler_chain`,
    /// which are run in this order. With `initial_tracking` its pages are
    /// tracked before the first wait.
    pub fn new(
        api: SevStep,
        handler_chain: Vec<H>,
        initial_tracking: Option<InitialTrackingRequest>,
    ) -> (r: ComposableHandlerChain<H>)
        requires
            api@.wf(),
        ensures
            r@ == (ComposableHandlerChainView {
                api: api@,
                handlers: models(handler_chain@),
                initial_calls: initial_calls(initial_tracking),
                ctx: Map::empty(),
                phase: RunPhase::Idle,
                event: None,
                next_handler: 0,
                failure: None,
                undo: None,
                current: 0,
            }),
            r.chain() == handler_chain@,
            r@.wf(),
    {
        ComposableHandlerChain {
            api,
            handler_chain,
            initial_tracking,
            ctx: Context::new(),
            phase: RunPhase::Idle,
            event: None,
            next_handler: 0,
            failure: None,
            undo: None,
            current: 0,
        }
    }

    /// The handlers of the chain, in order.
    pub closed spec fn chain(&self) -> Seq<H> {
        self.handler_chain@
    }

    /// Whether the run is in order, as it is between any two calls on a
    /// chain that [`ComposableHandlerChain::new`] made with a connection
    /// at rest.
    pub fn is_wf(&self) -> (r: bool)
        ensures
            r == self@.wf(),
    {
        self.api.is_wf() && self.next_handler <= self.handler_chain.len() && (match self.phase {
            RunPhase::Handling | RunPhase::ShuttingDown => self.event.is_some(),
            RunPhase::Failing => self.failure.is_some(),
            _ => true,
        }) && (self.undo.is_none() || self.current < self.handler_chain.len())
    }

    /// The handlers, for a look at what they have gathered.
    pub fn handlers(&self) -> (r: &Vec<H>)
        ensures
            r@ == self.chain(),
            models(r@) == self@.handlers,
    {
        &self.handler_chain
    }

    /// The connection, for the caller's side of a wait.
    pub fn api(&mut self) -> (r: &mut SevStep)
        ensures
            r@ == old(self)@.api,
            final(self)@ == (ComposableHandlerChainView { api: final(r)@, ..old(self)@ }),
            final(self).chain() == old(self).chain(),
    {
        &mut self.api
    }

    /// Gives the connection and the handlers back.
    pub fn into_parts(self) -> (r: (SevStep, Vec<H>))
        ensures
            r.0@ == self@.api,
            r.1@ == self.chain(),
    {
        (self.api, self.handler_chain)
    }

    /// Requests the tracking of the initial pages, in order.
    fn track_initial(&mut self)
        ensures
            final(self)@ == (ComposableHandlerChainView {
                api: requested(old(self)@.api, old(self)@.initial_calls),
                ..old(self)@
            }),
    {
        match &self.initial_tracking {
            None => {
                assert(self.api@.pending_calls + Seq::<ControlCallView>::empty()
                    =~= self.api@.pending_calls);
            },
            Some(tracking) => {
                let mut i: usize = 0;
                assert(self.api@.pending_calls + track_calls(tracking.gpas@.take(0), tracking.mode)
                    =~= self.api@.pending_calls);
                while i < tracking.gpas.len()
                    invariant
                        i <= tracking.gpas.len(),
                        self.initial_tracking == Some(*tracking),
                        self.initial_tracking == old(self).initial_tracking,
                        self.api@ == requested(
                            old(self)@.api,
                            track_calls(tracking.gpas@.take(i as int), tracking.mode),
                        ),
                        self.handler_chain == old(self).handler_chain,
                        self.ctx == old(self).ctx,
                        self.phase == old(self).phase,
                        self.event == old(self).event,
                        self.next_handler == old(self).next_handler,
                        self.failure == old(self).failure,
                        self.undo == old(self).undo,
                        self.current == old(self).current,
                    decreases tracking.gpas.len() - i,
                {
                    self.api.track_page(tracking.gpas[i], tracking.mode);
                    assert(self.api@.pending_calls =~= old(self)@.api.pending_calls + track_calls(
                        tracking.gpas@.take(i + 1),
                        tracking.mode,
                    ));
                    i = i + 1;
                }
                assert(tracking.gpas@.take(i as int) =~= tracking.gpas@);
            },
        }
    }

    /// Ends the run with an error.
    fn fail(&mut self, e: SevStepError) -> (r: ChainAction)
        requires
            old(self)@.wf(),
        ensures
            final(self)@ == (ComposableHandlerChainView { phase: RunPhase::Finished, ..old(self)@ }),
            final(self).chain() == old(self).chain(),
            r@ == ChainActionView::Done(Err(e@)),
    {
        self.phase = RunPhase::Finished;
        ChainAction::Done(Err(e))
    }

    fn out_of_turn_error() -> (r: SevStepError)
        ensures
            r@ == out_of_turn(),
    {
        SevStepError::Other {
            message: "input does not answer what the run asked for".to_owned(),
            call_status: None,
        }
    }

    /// Hands the pending event and the context to the caller.
    fn finish(&mut self) -> (r: ChainAction)
        requires
            old(self)@.wf(),
            old(self)@.event is Some,
        ensures
            final(self)@ == (ComposableHandlerChainView {
                phase: RunPhase::Finished,
                event: None,
                ctx: Map::empty(),
                ..old(self)@
            }),
            r@ == ChainActionView::Done(Ok((old(self)@.event.unwrap(), old(self)@.ctx))),
    {
        self.phase = RunPhase::Finished;
        let mut produced_ctx = Context::new();
        core::mem::swap(&mut produced_ctx, &mut self.ctx);
        match self.event.take() {
            Some(pending_event) => ChainAction::Done(
                Ok(ComposableHandlerChainOutcome { pending_event, produced_ctx }),
            ),
            None => ChainAction::Done(Err(Self::out_of_turn_error())),
        }
    }

    /// Takes what the caller reports and says what it is to do next.
    ///
    /// The caller begins with `Start`, answers each `Call` with the
    /// driver's status for that call and each `Wait` with the event that
    /// arrived. An input that does not answer what was asked for ends the
    /// run with an error, and so does the failure of a control call.
    ///
    /// What the handlers return decides the rest, as
    /// [`composable_decision`] says for each result. An event is
    /// acknowledged only when a handler has consumed it; the event that is
    /// pending when the run ends well is handed to the caller as it is,
    /// with the context.
    pub fn run(&mut self, input: RunInput) -> (r: ChainAction)
        requires
            old(self)@.wf(),
        ensures
            final(self)@.wf(),
            (final(self)@, r@) == spec_run::<H>(old(self)@, input@),
    {
        match input {
            RunInput::Start => {
                if self.phase != RunPhase::Idle {
                    return self.fail(Self::out_of_turn_error());
                }
                self.track_initial();
                self.phase = RunPhase::InitialTracking;
            },
            RunInput::CallStatus(status) => {
                let awaited = match self.phase {
                    RunPhase::InitialTracking | RunPhase::Handling | RunPhase::Acknowledging
                    | RunPhase::ShuttingDown | RunPhase::Failing => self.api.next_call().is_some(),
                    _ => false,
                };
                if !awaited {
                    return self.fail(Self::out_of_turn_error());
                }
                match self.api.complete_call(status) {
                    Ok(()) => {},
                    Err(e) => {
                        self.api.abandon_calls();
                        self.take_back();
                        return self.fail(e);
                    },
                }
            },
            RunInput::Event(event) => {
                if self.phase != RunPhase::Waiting {
                    return self.fail(Self::out_of_turn_error());
                }
                self.event = Some(event);
                self.phase = RunPhase::Handling;
                self.undo = None;
            },
        }
        self.advance()
    }

    /// Puts the handler that saw the event last back as it was before it
    /// saw the event.
    fn take_back(&mut self)
        requires
            old(self)@.wf(),
        ensures
            final(self)@ == (ComposableHandlerChainView {
                handlers: old(self)@.taken_back(),
                undo: None,
                ..old(self)@
            }),
    {
        let ghost before = self@;
        match self.undo.take() {
            Some(earlier) => {
                if self.current < self.handler_chain.len() {
                    self.handler_chain.set(self.current, earlier);
                    assert(models(self.handler_chain@) =~= before.handlers.update(
                        before.current as int,
                        before.undo.unwrap(),
                    ));
                }
            },
            None => {},
        }
    }

    /// Takes the news that a wait of the caller's has failed, which ends
    /// the run with the error of the wait. No handler sees anything of
    /// it, and nothing that was acknowledged before is taken back. A run
    /// that was not waiting is told something out of turn, and ends with
    /// that error.
    pub fn wait_failed(&mut self, e: SevStepError) -> (r: ChainAction)
        requires
            old(self)@.wf(),
        ensures
            final(self)@.wf(),
            final(self)@ == old(self)@.gave_up(),
            final(self).chain() == old(self).chain(),
            r@ == ChainActionView::Done(
                Err(
                    if old(self)@.phase == RunPhase::Waiting {
                        e@
                    } else {
                        out_of_turn()
                    },
                ),
            ),
    {
        if self.phase != RunPhase::Waiting {
            return self.fail(Self::out_of_turn_error());
        }
        self.fail(e)
    }

    /// Goes on with the run until the caller has to act.
    fn advance(&mut self) -> (r: ChainAction)
        requires
            old(self)@.wf(),
            old(self)@.phase == RunPhase::InitialTracking || old(self)@.phase == RunPhase::Handling
                || old(self)@.phase == RunPhase::Acknowledging || old(self)@.phase
                == RunPhase::ShuttingDown || old(self)@.phase == RunPhase::Failing,
        ensures
            final(self)@.wf(),
            (final(self)@, r@) == advanced::<H>(old(self)@),
    {
        loop
            invariant
                self@.wf(),
                self@.phase == RunPhase::InitialTracking || self@.phase == RunPhase::Handling
                    || self@.phase == RunPhase::Acknowledging || self@.phase
                    == RunPhase::ShuttingDown || self@.phase == RunPhase::Failing,
                advanced::<H>(self@) == advanced::<H>(old(self)@),
            decreases self@.distance(),
        {
            if let Some(call) = self.api.next_call() {
                return ChainAction::Call(call);
            }
            match self.phase {
                RunPhase::InitialTracking => {
                    self.phase = RunPhase::Waiting;
                    return ChainAction::Wait { with_trigger: true };
                },
                RunPhase::Acknowledging => {
                    self.api.ack_event();
                    self.event = None;
                    self.phase = RunPhase::Waiting;
                    return ChainAction::Wait { with_trigger: false };
                },
                RunPhase::ShuttingDown => {
                    return self.finish();
                },
                RunPhase::Failing => {
                    self.phase = RunPhase::Finished;
                    let failure = self.failure.take();
                    return ChainAction::Done(
                        Err(
                            match failure {
                                Some(e) => e,
                                None => Self::out_of_turn_error(),
                            },
                        ),
                    );
                },
                RunPhase::Handling => {
                    if self.next_handler >= self.handler_chain.len() {
                        return self.finish();
                    }
                    let ghost before = self@;
                    let earlier = self.handler_chain[self.next_handler].snapshot();
                    let decision = match &self.event {
                        Some(event) => {
                            let result = self.handler_chain[self.next_handler].process(
                                event,
                                &mut self.api,
                                &mut self.ctx,
                            );
                            composable_decision(
                                result,
                                self.handler_chain[self.next_handler].get_name(),
                            )
                        },
                        None => ComposableDecision::Fail(Self::out_of_turn_error()),
                    };
                    self.undo = Some(earlier);
                    self.current = self.next_handler;
                    let ghost handler = before.handlers[before.next_handler as int];
                    let ghost did = H::processed(handler, before.event.unwrap(), before.api, before.ctx);
                    assert(decision@ == spec_composable_decision(did.result, H::name(did.state)));
                    assert(self@.handlers =~= before.handlers.update(
                        before.next_handler as int,
                        did.state,
                    ));
                    match decision {
                        ComposableDecision::Again => {
                            self.phase = RunPhase::Acknowledging;
                        },
                        ComposableDecision::Continue(pending) => {
                            self.event = Some(pending);
                            self.next_handler = self.next_handler + 1;
                        },
                        ComposableDecision::Shutdown(pending) => {
                            self.event = Some(pending);
                            self.phase = RunPhase::ShuttingDown;
                        },
                        ComposableDecision::Fail(e) => {
                            self.failure = Some(e);
                            self.phase = RunPhase::Failing;
                        },
                    }
                    assert(self@ == after_next_handler::<H>(before));
                },
                _ => {
                    return self.fail(Self::out_of_turn_error());
                },
            }
        }
    }
}

} // verus!
