//! The connection to the driver: the events it delivers, the errors it
//! reports and the protocol around the shared mailbox.
//!
//! Nothing in this module touches a device. A [`SevStep`] keeps the state
//! of the protocol and decides; whoever embeds it carries the control
//! calls to the driver and the mailbox contents back.

use vstd::prelude::*;
use vstd::string::StringExecFns;
use crossbeam::channel::{Receiver, TryRecvError};
use crate::raw_spinlock;
use crate::shared_mem::{SharedMemRegion, SharedMemRegionView};
use crate::text::{hex, signed_decimal, spec_hex, spec_signed_decimal};
use crate::types::{
    PageTrackMode, RegisterSnapshot, VmsaRegister, read_snapshot, read_u32, read_u64, read_words,
    spec_snapshot_at, spec_u32_at, spec_u64_at, spec_words_at, EVENT_BUFFER_OFFSET,
    EVENT_TYPE_OFFSET, HAVE_EVENT_OFFSET, PAGE_FAULT_EVENT, PF_FAULTED_GPA_OFFSET, PF_RECORD_BYTES,
    PF_REGISTERS_OFFSET, PF_REGISTERS_VALID_OFFSET, SEV_STEP_EVENT, SEV_STEP_SHARED_MEM_BYTES,
    STEP_CACHE_LEN_OFFSET, STEP_CACHE_PERF_OFFSET, STEP_COUNTED_INSTRUCTIONS_OFFSET,
    STEP_HEADER_BYTES, STEP_REGISTERS_OFFSET, STEP_REGISTERS_VALID_OFFSET,
};

verus! {

/// Probe results of a cache attack that ran during one step.
///
/// `timing_probes` holds access times, `perf_counter_probes` the change of
/// the configured performance counter over the same accesses. A trace that
/// was decoded from the mailbox has as many entries in one as in the other.
#[derive(Debug)]
pub struct CacheTrace {
    pub timing_probes: Vec<u64>,
    pub perf_counter_probes: Vec<u64>,
}

/// A cache trace as contracts see it.
pub struct CacheTraceView {
    pub timing_probes: Seq<u64>,
    pub perf_counter_probes: Seq<u64>,
}

impl View for CacheTrace {
    type V = CacheTraceView;

    open spec fn view(&self) -> CacheTraceView {
        CacheTraceView {
            timing_probes: self.timing_probes@,
            perf_counter_probes: self.perf_counter_probes@,
        }
    }
}

impl Clone for CacheTrace {
    fn clone(&self) -> (r: Self)
        ensures
            r@ == self@,
    {
        let r = CacheTrace {
            timing_probes: self.timing_probes.clone(),
            perf_counter_probes: self.perf_counter_probes.clone(),
        };
        assert(r.timing_probes@ =~= self.timing_probes@);
        assert(r.perf_counter_probes@ =~= self.perf_counter_probes@);
        r
    }
}

/// The view of an optional register snapshot.
pub open spec fn snapshot_view(snapshot: Option<RegisterSnapshot>) -> Option<Seq<u64>> {
    match snapshot {
        Some(s) => Some(s@),
        None => None,
    }
}

/// The view of an optional cache trace.
pub open spec fn trace_view(trace: Option<CacheTrace>) -> Option<CacheTraceView> {
    match trace {
        Some(t) => Some(t@),
        None => None,
    }
}

/// The guest was paused by the stepping timer.
#[derive(Debug)]
pub struct SevStepEvent {
    /// Number of instructions that the guest retired in this step.
    pub retired_instructions: u32,
    /// The guest's registers, if it runs in debug mode and they were
    /// captured.
    pub register_values: Option<RegisterSnapshot>,
    /// Probe results, if a cache attack was armed for this step.
    pub cache_trace: Option<CacheTrace>,
}

/// A step event as contracts see it.
pub struct SevStepEventView {
    pub retired_instructions: u32,
    pub register_values: Option<Seq<u64>>,
    pub cache_trace: Option<CacheTraceView>,
}

impl View for SevStepEvent {
    type V = SevStepEventView;

    open spec fn view(&self) -> SevStepEventView {
        SevStepEventView {
            retired_instructions: self.retired_instructions,
            register_values: snapshot_view(self.register_values),
            cache_trace: trace_view(self.cache_trace),
        }
    }
}

impl SevStepEventView {
    /// The value of one register, where registers were captured.
    pub open spec fn register(self, name: VmsaRegister) -> Option<u64> {
        match self.register_values {
            Some(values) => Some(values[name.spec_index() as int]),
            None => None,
        }
    }
}

impl Clone for SevStepEvent {
    fn clone(&self) -> (r: Self)
        ensures
            r@ == self@,
    {
        SevStepEvent {
            retired_instructions: self.retired_instructions,
            register_values: self.register_values,
            cache_trace: match &self.cache_trace {
                Some(trace) => Some(trace.clone()),
                None => None,
            },
        }
    }
}

/// What a step record of the mailbox decodes to.
///
/// The record is too short if its fixed part does not fit, or if probes are
/// announced and the two probe arrays do not fit behind it.
pub open spec fn spec_step_event(raw: Seq<u8>) -> Option<SevStepEventView> {
    if raw.len() < STEP_HEADER_BYTES {
        None
    } else {
        let retired_instructions = spec_u32_at(raw, STEP_COUNTED_INSTRUCTIONS_OFFSET as int).unwrap();
        let register_values = spec_snapshot_at(
            raw,
            STEP_REGISTERS_OFFSET as int,
            STEP_REGISTERS_VALID_OFFSET as int,
        );
        let len = spec_u64_at(raw, STEP_CACHE_LEN_OFFSET as int).unwrap();
        if spec_u64_at(raw, STEP_CACHE_PERF_OFFSET as int).unwrap() == 0 {
            Some(SevStepEventView { retired_instructions, register_values, cache_trace: None })
        } else if STEP_HEADER_BYTES + 16 * len > raw.len() {
            None
        } else {
            Some(
                SevStepEventView {
                    retired_instructions,
                    register_values,
                    cache_trace: Some(
                        CacheTraceView {
                            timing_probes: spec_words_at(
                                raw,
                                STEP_HEADER_BYTES as int,
                                len as int,
                            ).unwrap(),
                            perf_counter_probes: spec_words_at(
                                raw,
                                STEP_HEADER_BYTES + 8 * len,
                                len as int,
                            ).unwrap(),
                        },
                    ),
                },
            )
        }
    }
}

impl SevStepEvent {
    /// The value of one register, if the guest runs in debug mode and its
    /// registers were captured.
    pub fn get_register(&self, name: VmsaRegister) -> (r: Option<u64>)
        ensures
            r == self@.register(name),
    {
        match &self.register_values {
            Some(values) => Some(values.get(name)),
            None => None,
        }
    }

    /// The probe results of this step, if a cache attack was armed.
    pub fn get_cache_trace(&self) -> (r: Option<&CacheTrace>)
        ensures
            r is Some == self.cache_trace is Some,
            r matches Some(trace) ==> *trace == self.cache_trace.unwrap(),
    {
        self.cache_trace.as_ref()
    }

    /// Decodes a step record. Every read is checked against the length of
    /// `raw_event_buff`; a record that does not fit decodes to nothing.
    pub fn from_raw_event_buffer(raw_event_buff: &[u8]) -> (r: Option<SevStepEvent>)
        ensures
            r is Some == spec_step_event(raw_event_buff@) is Some,
            r matches Some(event) ==> event@ == spec_step_event(raw_event_buff@).unwrap(),
    {
        if raw_event_buff.len() < STEP_HEADER_BYTES {
            return None;
        }
        let retired_instructions = read_u32(raw_event_buff, STEP_COUNTED_INSTRUCTIONS_OFFSET).unwrap();
        let register_values = read_snapshot(
            raw_event_buff,
            STEP_REGISTERS_OFFSET,
            STEP_REGISTERS_VALID_OFFSET,
        );
        let len = read_u64(raw_event_buff, STEP_CACHE_LEN_OFFSET).unwrap();
        let armed = read_u64(raw_event_buff, STEP_CACHE_PERF_OFFSET).unwrap();
        if armed == 0 {
            return Some(SevStepEvent { retired_instructions, register_values, cache_trace: None });
        }
        let room: usize = raw_event_buff.len() - STEP_HEADER_BYTES;
        if len > (room / 16) as u64 {
            return None;
        }
        let count: usize = len as usize;
        let timing_probes = read_words(raw_event_buff, STEP_HEADER_BYTES, count).unwrap();
        let perf_counter_probes = read_words(
            raw_event_buff,
            STEP_HEADER_BYTES + 8 * count,
            count,
        ).unwrap();
        Some(
            SevStepEvent {
                retired_instructions,
                register_values,
                cache_trace: Some(CacheTrace { timing_probes, perf_counter_probes }),
            },
        )
    }
}

/// The guest touched a tracked page.
#[derive(Clone, Copy, Debug)]
pub struct PageFaultEvent {
    /// Guest-physical address at which the fault occurred.
    pub faulted_gpa: u64,
    /// The guest's registers, if it runs in debug mode and they were
    /// captured.
    pub register_values: Option<RegisterSnapshot>,
}

/// A page fault event as contracts see it.
pub struct PageFaultEventView {
    pub faulted_gpa: u64,
    pub register_values: Option<Seq<u64>>,
}

impl View for PageFaultEvent {
    type V = PageFaultEventView;

    open spec fn view(&self) -> PageFaultEventView {
        PageFaultEventView {
            faulted_gpa: self.faulted_gpa,
            register_values: snapshot_view(self.register_values),
        }
    }
}

impl PageFaultEventView {
    /// The value of one register, where registers were captured.
    pub open spec fn register(self, name: VmsaRegister) -> Option<u64> {
        match self.register_values {
            Some(values) => Some(values[name.spec_index() as int]),
            None => None,
        }
    }
}

/// What a page fault record of the mailbox decodes to.
pub open spec fn spec_page_fault_event(raw: Seq<u8>) -> Option<PageFaultEventView> {
    if raw.len() < PF_RECORD_BYTES {
        None
    } else {
        Some(
            PageFaultEventView {
                faulted_gpa: spec_u64_at(raw, PF_FAULTED_GPA_OFFSET as int).unwrap(),
                register_values: spec_snapshot_at(
                    raw,
                    PF_REGISTERS_OFFSET as int,
                    PF_REGISTERS_VALID_OFFSET as int,
                ),
            },
        )
    }
}

impl PageFaultEvent {
    /// The value of one register, if the guest runs in debug mode and its
    /// registers were captured.
    pub fn get_register(&self, name: VmsaRegister) -> (r: Option<u64>)
        ensures
            r == self@.register(name),
    {
        match &self.register_values {
            Some(values) => Some(values.get(name)),
            None => None,
        }
    }

    /// Decodes a page fault record. A record shorter than the layout
    /// decodes to nothing.
    pub fn from_c_struct(raw: &[u8]) -> (r: Option<PageFaultEvent>)
        ensures
            r is Some == spec_page_fault_event(raw@) is Some,
            r matches Some(event) ==> event@ == spec_page_fault_event(raw@).unwrap(),
    {
        if raw.len() < PF_RECORD_BYTES {
            return None;
        }
        let faulted_gpa = read_u64(raw, PF_FAULTED_GPA_OFFSET).unwrap();
        let register_values = read_snapshot(raw, PF_REGISTERS_OFFSET, PF_REGISTERS_VALID_OFFSET);
        Some(PageFaultEvent { faulted_gpa, register_values })
    }
}

/// One notification from the driver.
#[derive(Debug)]
pub enum Event {
    PageFaultEvent(PageFaultEvent),
    StepEvent(SevStepEvent),
}

/// An event as contracts see it.
pub enum EventView {
    PageFaultEvent(PageFaultEventView),
    StepEvent(SevStepEventView),
}

impl View for Event {
    type V = EventView;

    open spec fn view(&self) -> EventView {
        match self {
            Event::PageFaultEvent(e) => EventView::PageFaultEvent(e@),
            Event::StepEvent(e) => EventView::StepEvent(e@),
        }
    }
}

impl Clone for Event {
    fn clone(&self) -> (r: Self)
        ensures
            r@ == self@,
    {
        match self {
            Event::PageFaultEvent(e) => Event::PageFaultEvent(*e),
            Event::StepEvent(e) => Event::StepEvent(e.clone()),
        }
    }
}

/// What a mailbox record with the given type tag decodes to. An unknown
/// tag decodes to nothing.
pub open spec fn spec_decode_event(event_type: u32, raw: Seq<u8>) -> Option<EventView> {
    if event_type == PAGE_FAULT_EVENT {
        match spec_page_fault_event(raw) {
            Some(e) => Some(EventView::PageFaultEvent(e)),
            None => None,
        }
    } else if event_type == SEV_STEP_EVENT {
        match spec_step_event(raw) {
            Some(e) => Some(EventView::StepEvent(e)),
            None => None,
        }
    } else {
        None
    }
}

impl Event {
    /// Decodes the mailbox record with the given type tag.
    pub fn decode(event_type: u32, raw: &[u8]) -> (r: Option<Event>)
        ensures
            r is Some == spec_decode_event(event_type, raw@) is Some,
            r matches Some(event) ==> event@ == spec_decode_event(event_type, raw@).unwrap(),
    {
        if event_type == PAGE_FAULT_EVENT {
            match PageFaultEvent::from_c_struct(raw) {
                Some(e) => Some(Event::PageFaultEvent(e)),
                None => None,
            }
        } else if event_type == SEV_STEP_EVENT {
            match SevStepEvent::from_raw_event_buffer(raw) {
                Some(e) => Some(Event::StepEvent(e)),
                None => None,
            }
        } else {
            None
        }
    }
}

/// Everything that can go wrong on a connection.
#[derive(Debug)]
pub enum SevStepError {
    /// The trigger that was to start the guest's work failed.
    TriggerFailed { source: String },
    /// No event arrived within the requested time.
    Timeout,
    /// The driver refused to track a page; `status` is its answer.
    PageTracking { status: i32, gpa: u64, tracking_mode: PageTrackMode, message: String },
    /// A step retired more than one instruction while that counts as an
    /// error.
    MultiStep { event: SevStepEvent },
    /// The abort signal fired during a wait.
    Abort,
    /// Any other failure; `call_status` is the driver's answer where a control
    /// call failed.
    Other { message: String, call_status: Option<i32> },
}

/// An error as contracts see it.
pub enum SevStepErrorView {
    TriggerFailed { source: Seq<char> },
    Timeout,
    PageTracking { status: i32, gpa: u64, tracking_mode: PageTrackMode, message: Seq<char> },
    MultiStep { event: SevStepEventView },
    Abort,
    Other { message: Seq<char>, call_status: Option<i32> },
}

impl View for SevStepError {
    type V = SevStepErrorView;

    open spec fn view(&self) -> SevStepErrorView {
        match self {
            SevStepError::TriggerFailed { source } => SevStepErrorView::TriggerFailed {
                source: source@,
            },
            SevStepError::Timeout => SevStepErrorView::Timeout,
            SevStepError::PageTracking {
                status,
                gpa,
                tracking_mode,
                message,
            } => SevStepErrorView::PageTracking {
                status: *status,
                gpa: *gpa,
                tracking_mode: *tracking_mode,
                message: message@,
            },
            SevStepError::MultiStep { event } => SevStepErrorView::MultiStep { event: event@ },
            SevStepError::Abort => SevStepErrorView::Abort,
            SevStepError::Other { message, call_status } => SevStepErrorView::Other {
                message: message@,
                call_status: *call_status,
            },
        }
    }
}

impl SevStepErrorView {
    /// The error in words.
    pub open spec fn text(self) -> Seq<char> {
        match self {
            SevStepErrorView::TriggerFailed { source } => "failed to execute trigger function : "@
                + source,
            SevStepErrorView::Timeout => "operation timed out"@,
            SevStepErrorView::PageTracking {
                status,
                gpa,
                tracking_mode,
                message,
            } => "page tracking error, gpa=0x"@ + spec_hex(gpa as nat) + ", mode="@
                + tracking_mode.spec_name() + ", message="@ + message + " : driver status "@
                + spec_signed_decimal(status as int),
            SevStepErrorView::MultiStep { .. } => "multi step"@,
            SevStepErrorView::Abort => "received abort signal"@,
            SevStepErrorView::Other { message, call_status } => match call_status {
                Some(status) => message + " : driver status "@ + spec_signed_decimal(status as int),
                None => message,
            },
        }
    }
}

impl SevStepError {
    /// The error in words, for a log or a user.
    pub fn describe(&self) -> (r: String)
        ensures
            r@ == self@.text(),
    {
        match self {
            SevStepError::TriggerFailed { source } => {
                let mut text: String = "failed to execute trigger function : ".to_owned();
                text.append(source.as_str());
                text
            },
            SevStepError::Timeout => "operation timed out".to_owned(),
            SevStepError::PageTracking { status, gpa, tracking_mode, message } => {
                let mut text: String = "page tracking error, gpa=0x".to_owned();
                text.append(hex(*gpa).as_str());
                text.append(", mode=");
                text.append(tracking_mode.name());
                text.append(", message=");
                text.append(message.as_str());
                text.append(" : driver status ");
                text.append(signed_decimal(*status as i64).as_str());
                text
            },
            SevStepError::MultiStep { .. } => "multi step".to_owned(),
            SevStepError::Abort => "received abort signal".to_owned(),
            SevStepError::Other { message, call_status } => {
                let mut text: String = message.clone();
                match call_status {
                    Some(status) => {
                        text.append(" : driver status ");
                        text.append(signed_decimal(*status as i64).as_str());
                    },
                    None => {},
                }
                text
            },
        }
    }
}

/// A request to the driver. Each is synchronous and answered with a
/// status: zero for success, anything else for failure.
#[derive(Debug)]
pub enum ControlCall {
    InitApi { decrypt_vmsa: bool },
    CloseApi,
    TrackPage { gpa: u64, track_mode: PageTrackMode },
    UntrackPage { gpa: u64, track_mode: PageTrackMode },
    TrackAllPages { track_mode: PageTrackMode },
    UntrackAllPages { track_mode: PageTrackMode },
    StartStepping { timer_value: u32, target_gpas: Vec<u64>, flush_tlb: bool },
    StopStepping,
}

/// A control call as contracts see it.
pub enum ControlCallView {
    InitApi { decrypt_vmsa: bool },
    CloseApi,
    TrackPage { gpa: u64, track_mode: PageTrackMode },
    UntrackPage { gpa: u64, track_mode: PageTrackMode },
    TrackAllPages { track_mode: PageTrackMode },
    UntrackAllPages { track_mode: PageTrackMode },
    StartStepping { timer_value: u32, target_gpas: Seq<u64>, flush_tlb: bool },
    StopStepping,
}

impl View for ControlCall {
    type V = ControlCallView;

    open spec fn view(&self) -> ControlCallView {
        match self {
            ControlCall::InitApi { decrypt_vmsa } => ControlCallView::InitApi {
                decrypt_vmsa: *decrypt_vmsa,
            },
            ControlCall::CloseApi => ControlCallView::CloseApi,
            ControlCall::TrackPage { gpa, track_mode } => ControlCallView::TrackPage {
                gpa: *gpa,
                track_mode: *track_mode,
            },
            ControlCall::UntrackPage { gpa, track_mode } => ControlCallView::UntrackPage {
                gpa: *gpa,
                track_mode: *track_mode,
            },
            ControlCall::TrackAllPages { track_mode } => ControlCallView::TrackAllPages {
                track_mode: *track_mode,
            },
            ControlCall::UntrackAllPages { track_mode } => ControlCallView::UntrackAllPages {
                track_mode: *track_mode,
            },
            ControlCall::StartStepping {
                timer_value,
                target_gpas,
                flush_tlb,
            } => ControlCallView::StartStepping {
                timer_value: *timer_value,
                target_gpas: target_gpas@,
                flush_tlb: *flush_tlb,
            },
            ControlCall::StopStepping => ControlCallView::StopStepping,
        }
    }
}

impl Clone for ControlCall {
    fn clone(&self) -> (r: Self)
        ensures
            r@ == self@,
    {
        match self {
            ControlCall::InitApi { decrypt_vmsa } => ControlCall::InitApi {
                decrypt_vmsa: *decrypt_vmsa,
            },
            ControlCall::CloseApi => ControlCall::CloseApi,
            ControlCall::TrackPage { gpa, track_mode } => ControlCall::TrackPage {
                gpa: *gpa,
                track_mode: *track_mode,
            },
            ControlCall::UntrackPage { gpa, track_mode } => ControlCall::UntrackPage {
                gpa: *gpa,
                track_mode: *track_mode,
            },
            ControlCall::TrackAllPages { track_mode } => ControlCall::TrackAllPages {
                track_mode: *track_mode,
            },
            ControlCall::UntrackAllPages { track_mode } => ControlCall::UntrackAllPages {
                track_mode: *track_mode,
            },
            ControlCall::StartStepping { timer_value, target_gpas, flush_tlb } => {
                let gpas = target_gpas.clone();
                assert(gpas@ =~= target_gpas@);
                ControlCall::StartStepping {
                    timer_value: *timer_value,
                    target_gpas: gpas,
                    flush_tlb: *flush_tlb,
                }
            },
            ControlCall::StopStepping => ControlCall::StopStepping,
        }
    }
}

/// The views of a sequence of control calls.
pub open spec fn calls_view(calls: Seq<ControlCall>) -> Seq<ControlCallView> {
    calls.map_values(|c: ControlCall| c@)
}

impl ControlCallView {
    /// What the driver's status means for this call: zero is success, and
    /// each call has its own way to report anything else.
    pub open spec fn outcome(self, status: i32) -> Result<(), SevStepErrorView> {
        if status == 0 {
            Ok(())
        } else {
            Err(
                match self {
                    ControlCallView::InitApi { .. } => SevStepErrorView::Other {
                        message: "init_api ioctl failed"@,
                        call_status: Some(status),
                    },
                    ControlCallView::CloseApi => SevStepErrorView::Other {
                        message: "close_api ioctl failed"@,
                        call_status: Some(status),
                    },
                    ControlCallView::TrackPage { gpa, track_mode } => SevStepErrorView::PageTracking {
                        status,
                        gpa,
                        tracking_mode: track_mode,
                        message: "track_page failed"@,
                    },
                    ControlCallView::UntrackPage { .. } => SevStepErrorView::Other {
                        message: "untrack page ioctl failed"@,
                        call_status: Some(status),
                    },
                    ControlCallView::TrackAllPages { .. } => SevStepErrorView::Other {
                        message: "track all pages ioctl failed"@,
                        call_status: Some(status),
                    },
                    ControlCallView::UntrackAllPages { .. } => SevStepErrorView::Other {
                        message: "untrack all pages ioctl failed"@,
                        call_status: Some(status),
                    },
                    ControlCallView::StartStepping { .. } => SevStepErrorView::Other {
                        message: "start stepping ioctl failed"@,
                        call_status: Some(status),
                    },
                    ControlCallView::StopStepping => SevStepErrorView::Other {
                        message: "stop stepping ioctls failed"@,
                        call_status: Some(status),
                    },
                },
            )
        }
    }
}

/// The view of the result of a control call.
pub open spec fn outcome_view(r: Result<(), SevStepError>) -> Result<(), SevStepErrorView> {
    match r {
        Ok(()) => Ok(()),
        Err(e) => Err(e@),
    }
}

impl ControlCall {
    /// Number of the request on the driver's control surface.
    pub fn request_number(&self) -> (r: u8)
        ensures
            r == match self@ {
                ControlCallView::TrackPage { .. } => 0x0bu8,
                ControlCallView::TrackAllPages { .. } => 0x0cu8,
                ControlCallView::UntrackAllPages { .. } => 0x0du8,
                ControlCallView::UntrackPage { .. } => 0x0eu8,
                ControlCallView::InitApi { .. } => 0x0fu8,
                ControlCallView::CloseApi => 0x10u8,
                ControlCallView::StartStepping { .. } => 0x11u8,
                ControlCallView::StopStepping => 0x12u8,
            },
    {
        match self {
            ControlCall::TrackPage { .. } => 0x0b,
            ControlCall::TrackAllPages { .. } => 0x0c,
            ControlCall::UntrackAllPages { .. } => 0x0d,
            ControlCall::UntrackPage { .. } => 0x0e,
            ControlCall::InitApi { .. } => 0x0f,
            ControlCall::CloseApi => 0x10,
            ControlCall::StartStepping { .. } => 0x11,
            ControlCall::StopStepping => 0x12,
        }
    }

    /// Turns the driver's status for this call into a result.
    pub fn outcome(&self, status: i32) -> (r: Result<(), SevStepError>)
        ensures
            outcome_view(r) == self@.outcome(status),
    {
        if status == 0 {
            return Ok(());
        }
        let driver_status: Option<i32> = Some(status);
        Err(
            match self {
                ControlCall::InitApi { .. } => SevStepError::Other {
                    message: "init_api ioctl failed".to_owned(),
                    call_status: driver_status,
                },
                ControlCall::CloseApi => SevStepError::Other {
                    message: "close_api ioctl failed".to_owned(),
                    call_status: driver_status,
                },
                ControlCall::TrackPage { gpa, track_mode } => SevStepError::PageTracking {
                    status,
                    gpa: *gpa,
                    tracking_mode: *track_mode,
                    message: "track_page failed".to_owned(),
                },
                ControlCall::UntrackPage { .. } => SevStepError::Other {
                    message: "untrack page ioctl failed".to_owned(),
                    call_status: driver_status,
                },
                ControlCall::TrackAllPages { .. } => SevStepError::Other {
                    message: "track all pages ioctl failed".to_owned(),
                    call_status: driver_status,
                },
                ControlCall::UntrackAllPages { .. } => SevStepError::Other {
                    message: "untrack all pages ioctl failed".to_owned(),
                    call_status: driver_status,
                },
                ControlCall::StartStepping { .. } => SevStepError::Other {
                    message: "start stepping ioctl failed".to_owned(),
                    call_status: driver_status,
                },
                ControlCall::StopStepping => SevStepError::Other {
                    message: "stop stepping ioctls failed".to_owned(),
                    call_status: driver_status,
                },
            },
        )
    }
}

/// What a look at the abort channel found.
#[derive(Clone, Copy, Debug, PartialEq, Eq, Structural)]
pub enum AbortSignal {
    /// Nobody asked to abort.
    Quiet,
    /// An abort was requested.
    Raised,
    /// The channel is gone: all its senders were dropped.
    Disconnected,
}

/// What a look at the trigger found. The trigger is the action that runs
/// beside a wait, such as "start the victim program".
#[derive(Debug)]
pub enum TriggerStatus {
    /// The trigger has not finished yet.
    Running,
    /// The trigger finished without error.
    Finished,
    /// The trigger failed, with its message.
    Failed(String),
}

/// What a look at the trigger found, as contracts see it.
pub enum TriggerStatusView {
    Running,
    Finished,
    Failed(Seq<char>),
}

impl View for TriggerStatus {
    type V = TriggerStatusView;

    open spec fn view(&self) -> TriggerStatusView {
        match self {
            TriggerStatus::Running => TriggerStatusView::Running,
            TriggerStatus::Finished => TriggerStatusView::Finished,
            TriggerStatus::Failed(message) => TriggerStatusView::Failed(message@),
        }
    }
}

/// `crossbeam::channel::Receiver`, the receiving side of a channel. This
/// library looks at nothing inside it.
#[verifier::external_type_specification]
#[verifier::external_body]
#[verifier::reject_recursive_types(T)]
pub struct ExReceiver<T>(Receiver<T>);

/// What an attempt to receive from a channel found.
pub enum Received<T> {
    /// A message was there, and has been taken.
    Message(T),
    /// No message was there.
    Empty,
    /// No message was there and none will come: all senders are gone.
    Disconnected,
}

/// `crossbeam::channel::Receiver::try_recv`, which takes a message from
/// the channel if one is there and does not wait. What it finds depends
/// on what the senders have done, so nothing is claimed of it.
#[verifier::external_body]
fn try_recv<T>(receiver: &Receiver<T>) -> (r: Received<T>) {
    match receiver.try_recv() {
        Ok(message) => Received::Message(message),
        Err(TryRecvError::Empty) => Received::Empty,
        Err(TryRecvError::Disconnected) => Received::Disconnected,
    }
}

/// What a look at the abort channel means: a message is a request to
/// abort.
pub fn abort_signal(received: Received<()>) -> (r: AbortSignal)
    ensures
        r == match received {
            Received::Message(_) => AbortSignal::Raised,
            Received::Empty => AbortSignal::Quiet,
            Received::Disconnected => AbortSignal::Disconnected,
        },
{
    match received {
        Received::Message(_) => AbortSignal::Raised,
        Received::Empty => AbortSignal::Quiet,
        Received::Disconnected => AbortSignal::Disconnected,
    }
}

/// What a look at the channel of the trigger's result means: no message,
/// the trigger still runs; a message, it has finished, well or with the
/// error in the message; a channel without senders and without a message,
/// it has ended without a result, which counts as a failure.
pub fn trigger_status(received: Received<Result<(), String>>) -> (r: TriggerStatus)
    ensures
        r@ == match received {
            Received::Message(Ok(())) => TriggerStatusView::Finished,
            Received::Message(Err(message)) => TriggerStatusView::Failed(message@),
            Received::Empty => TriggerStatusView::Running,
            Received::Disconnected => TriggerStatusView::Failed(
                "receiving on an empty and disconnected channel"@,
            ),
        },
{
    match received {
        Received::Message(Ok(())) => TriggerStatus::Finished,
        Received::Message(Err(message)) => TriggerStatus::Failed(message),
        Received::Empty => TriggerStatus::Running,
        Received::Disconnected => TriggerStatus::Failed(
            "receiving on an empty and disconnected channel".to_owned(),
        ),
    }
}

/// The view of what a look into the mailbox returns.
pub open spec fn poll_view(r: Result<Option<Event>, SevStepError>) -> Result<
    Option<EventView>,
    SevStepErrorView,
> {
    match r {
        Ok(Some(event)) => Ok(Some(event@)),
        Ok(None) => Ok(None),
        Err(e) => Err(e@),
    }
}

/// The state of a connection: the mailbox, the control calls that were
/// requested and not yet answered, and how waits are to be judged.
pub struct SevStep {
    shared_mem_region: SharedMemRegion,
    pending_calls: Vec<ControlCall>,
    /// A message on this channel aborts a wait.
    abort: Receiver<()>,
    error_on_multi_step: bool,
    trigger_finished: bool,
    open: bool,
}

/// A connection as contracts see it.
pub struct SevStepView {
    pub mailbox: SharedMemRegionView,
    pub pending_calls: Seq<ControlCallView>,
    pub error_on_multi_step: bool,
    pub trigger_finished: bool,
    pub open: bool,
}

impl SevStepView {
    /// Between two calls the mailbox of a connection is at rest.
    pub open spec fn wf(self) -> bool {
        self.mailbox.wf()
    }

    /// The connection after the driver has answered the oldest pending
    /// control call with `status`.
    pub open spec fn answered(self, status: i32) -> SevStepView {
        SevStepView {
            pending_calls: self.pending_calls.remove(0),
            open: match self.pending_calls[0] {
                ControlCallView::InitApi { .. } => status == 0,
                ControlCallView::CloseApi => false,
                _ => self.open,
            },
            ..self
        }
    }

    /// The connection after the control calls that were still pending
    /// have been given up.
    pub open spec fn abandoned(self) -> SevStepView {
        SevStepView { pending_calls: Seq::empty(), ..self }
    }

    /// The connection after the pending event was acknowledged.
    pub open spec fn acknowledged(self) -> SevStepView {
        SevStepView { mailbox: self.mailbox.acked(), ..self }
    }

    /// What a look into the mailbox returns: nothing while no event is
    /// pending, else the decoded event, or an error for a record that does
    /// not decode.
    pub open spec fn poll(self) -> Result<Option<EventView>, SevStepErrorView> {
        if self.mailbox.have_event == 0 {
            Ok(None)
        } else {
            match spec_decode_event(self.mailbox.event_type, self.mailbox.event_buffer) {
                Some(event) => Ok(Some(event)),
                None => Err(
                    SevStepErrorView::Other { message: "malformed event in mailbox"@, call_status: None },
                ),
            }
        }
    }

    /// What one round of a wait decides, given what the round observed.
    /// The checks run in a fixed order: abort, trigger, mailbox, timeout.
    pub open spec fn wait_round(
        self,
        abort: AbortSignal,
        trigger: TriggerStatusView,
        elapsed_nanos: u128,
        timeout_nanos: Option<u128>,
    ) -> Result<Option<EventView>, SevStepErrorView> {
        if abort == AbortSignal::Raised {
            Err(SevStepErrorView::Abort)
        } else if abort == AbortSignal::Disconnected {
            Err(SevStepErrorView::Other { message: "error checking abort channel"@, call_status: None })
        } else if !self.trigger_finished && trigger is Failed {
            Err(SevStepErrorView::TriggerFailed { source: trigger->Failed_0 })
        } else {
            match self.poll() {
                Err(e) => Err(e),
                Ok(Some(event)) => {
                    if self.error_on_multi_step && event is StepEvent
                        && event->StepEvent_0.retired_instructions > 1 {
                        Err(SevStepErrorView::MultiStep { event: event->StepEvent_0 })
                    } else {
                        Ok(Some(event))
                    }
                },
                Ok(None) => {
                    if timeout_nanos is Some && elapsed_nanos > timeout_nanos.unwrap() {
                        Err(SevStepErrorView::Timeout)
                    } else {
                        Ok(None)
                    }
                },
            }
        }
    }
}

impl SevStepView {
    /// The connection after one round of a wait, and what the round
    /// returned. A wait remembers that its trigger has finished, up to the
    /// round that ends the wait.
    pub open spec fn waited(
        self,
        abort: AbortSignal,
        trigger: TriggerStatusView,
        elapsed_nanos: u128,
        timeout_nanos: Option<u128>,
    ) -> (SevStepView, Result<Option<EventView>, SevStepErrorView>) {
        let result = self.wait_round(abort, trigger, elapsed_nanos, timeout_nanos);
        (
            SevStepView {
                trigger_finished: result == Ok::<Option<EventView>, SevStepErrorView>(None) && (
                self.trigger_finished || trigger is Finished),
                ..self
            },
            result,
        )
    }
}

impl View for SevStep {
    type V = SevStepView;

    closed spec fn view(&self) -> SevStepView {
        SevStepView {
            mailbox: self.shared_mem_region@,
            pending_calls: calls_view(self.pending_calls@),
            error_on_multi_step: self.error_on_multi_step,
            trigger_finished: self.trigger_finished,
            open: self.open,
        }
    }
}

impl SevStep {
    /// Prepares a connection: a zeroed mailbox with the lock free, no event
    /// pending and nothing to acknowledge, and the request to open the
    /// connection as the first control call. The connection is open once
    /// the driver has accepted that call.
    ///
    /// With `decrypt_vmsa` the driver is asked for the guest's registers,
    /// which needs a guest in debug mode. A message on `abort` aborts a
    /// wait. With `error_on_multi_step` a wait fails on a step that
    /// retired more than one instruction.
    pub fn new(decrypt_vmsa: bool, abort: Receiver<()>, error_on_multi_step: bool) -> (r: SevStep)
        ensures
            r@ == (SevStepView {
                mailbox: SharedMemRegionView::fresh(),
                pending_calls: seq![ControlCallView::InitApi { decrypt_vmsa }],
                error_on_multi_step,
                trigger_finished: false,
                open: false,
            }),
            r@.wf(),
    {
        let mut pending_calls: Vec<ControlCall> = Vec::new();
        pending_calls.push(ControlCall::InitApi { decrypt_vmsa });
        let r = SevStep {
            shared_mem_region: SharedMemRegion::new(),
            pending_calls,
            abort,
            error_on_multi_step,
            trigger_finished: false,
            open: false,
        };
        assert(r@.pending_calls =~= seq![ControlCallView::InitApi { decrypt_vmsa }]);
        r
    }

    fn request(&mut self, call: ControlCall)
        ensures
            final(self)@ == (SevStepView {
                pending_calls: old(self)@.pending_calls.push(call@),
                ..old(self)@
            }),
    {
        self.pending_calls.push(call);
        assert(calls_view(self.pending_calls@) =~= calls_view(old(self).pending_calls@).push(
            call@,
        ));
    }

    /// Requests that one page of the guest be tracked.
    pub fn track_page(&mut self, gpa: u64, track_mode: PageTrackMode)
        ensures
            final(self)@ == (SevStepView {
                pending_calls: old(self)@.pending_calls.push(
                    ControlCallView::TrackPage { gpa, track_mode },
                ),
                ..old(self)@
            }),
    {
        self.request(ControlCall::TrackPage { gpa, track_mode });
    }

    /// Requests that one page of the guest be tracked no longer.
    pub fn untrack_page(&mut self, gpa: u64, track_mode: PageTrackMode)
        ensures
            final(self)@ == (SevStepView {
                pending_calls: old(self)@.pending_calls.push(
                    ControlCallView::UntrackPage { gpa, track_mode },
                ),
                ..old(self)@
            }),
    {
        self.request(ControlCall::UntrackPage { gpa, track_mode });
    }

    /// Requests that all pages of the guest be tracked.
    pub fn track_all_pages(&mut self, track_mode: PageTrackMode)
        ensures
            final(self)@ == (SevStepView {
                pending_calls: old(self)@.pending_calls.push(
                    ControlCallView::TrackAllPages { track_mode },
                ),
                ..old(self)@
            }),
    {
        self.request(ControlCall::TrackAllPages { track_mode });
    }

    /// Requests that no page of the guest be tracked in this mode.
    pub fn untrack_all_pages(&mut self, track_mode: PageTrackMode)
        ensures
            final(self)@ == (SevStepView {
                pending_calls: old(self)@.pending_calls.push(
                    ControlCallView::UntrackAllPages { track_mode },
                ),
                ..old(self)@
            }),
    {
        self.request(ControlCall::UntrackAllPages { track_mode });
    }

    /// Requests single-stepping with the given timer value. A non-empty
    /// `target_gpa` restricts stepping to those pages.
    pub fn start_stepping(&mut self, timer_value: u32, target_gpa: &[u64], flush_tlb: bool)
        ensures
            final(self)@ == (SevStepView {
                pending_calls: old(self)@.pending_calls.push(
                    ControlCallView::StartStepping {
                        timer_value,
                        target_gpas: target_gpa@,
                        flush_tlb,
                    },
                ),
                ..old(self)@
            }),
    {
        let target_gpas = vstd::slice::slice_to_vec(target_gpa);
        self.request(ControlCall::StartStepping { timer_value, target_gpas, flush_tlb });
    }

    /// Requests the end of single-stepping.
    pub fn stop_stepping(&mut self)
        ensures
            final(self)@ == (SevStepView {
                pending_calls: old(self)@.pending_calls.push(ControlCallView::StopStepping),
                ..old(self)@
            }),
    {
        self.request(ControlCall::StopStepping);
    }

    /// Requests what ends a connection: stepping is stopped, then the
    /// connection is closed. Both are best effort: their failure is worth
    /// a log line and nothing more.
    pub fn close(&mut self)
        ensures
            final(self)@ == (SevStepView {
                pending_calls: old(self)@.pending_calls.push(ControlCallView::StopStepping).push(
                    ControlCallView::CloseApi,
                ),
                ..old(self)@
            }),
    {
        self.request(ControlCall::StopStepping);
        self.request(ControlCall::CloseApi);
    }

    /// The oldest control call that the driver has not answered yet.
    pub fn next_call(&self) -> (r: Option<ControlCall>)
        ensures
            r is Some == (self@.pending_calls.len() > 0),
            r matches Some(call) ==> call@ == self@.pending_calls[0],
    {
        if self.pending_calls.len() == 0 {
            None
        } else {
            Some(self.pending_calls[0].clone())
        }
    }

    /// Takes the driver's status for the oldest pending control call and
    /// says what it means. The call is answered either way; the connection
    /// is open from an accepted `InitApi` until a `CloseApi` is answered.
    ///
    /// With no call pending the status answers nothing, which is an error.
    pub fn complete_call(&mut self, status: i32) -> (r: Result<(), SevStepError>)
        ensures
            old(self)@.pending_calls.len() == 0 ==> final(self)@ == old(self)@ && outcome_view(r)
                == Err::<(), SevStepErrorView>(
                SevStepErrorView::Other { message: "no control call is pending"@, call_status: None },
            ),
            old(self)@.pending_calls.len() > 0 ==> outcome_view(r) == old(
                self,
            )@.pending_calls[0].outcome(status) && final(self)@ == old(self)@.answered(status),
    {
        if self.pending_calls.len() == 0 {
            return Err(
                SevStepError::Other { message: "no control call is pending".to_owned(), call_status: None },
            );
        }
        let call = self.pending_calls.remove(0);
        assert(calls_view(self.pending_calls@) =~= calls_view(old(self).pending_calls@).remove(0));
        match &call {
            ControlCall::InitApi { .. } => {
                self.open = status == 0;
            },
            ControlCall::CloseApi => {
                self.open = false;
            },
            _ => {},
        }
        call.outcome(status)
    }

    /// Gives up the control calls that are still pending: none of them
    /// will be asked of the driver. This is for the caller whom a rejected
    /// call has stopped half way through what it was doing.
    pub fn abandon_calls(&mut self)
        ensures
            final(self)@ == old(self)@.abandoned(),
    {
        self.pending_calls.clear();
        assert(calls_view(self.pending_calls@) =~= Seq::<ControlCallView>::empty());
    }

    /// Whether the mailbox of the connection is at rest, as it is between
    /// any two calls on a connection that [`SevStep::new`] made.
    pub fn is_wf(&self) -> (r: bool)
        ensures
            r == self@.wf(),
    {
        self.shared_mem_region.is_wf()
    }

    /// Whether the driver has accepted the request to open the connection
    /// and no request to close it has been answered since.
    pub fn is_open(&self) -> (r: bool)
        ensures
            r == self@.open,
    {
        self.open
    }

    /// Whether an event is in the mailbox.
    pub fn have_event(&self) -> (r: bool)
        ensures
            r == (self@.mailbox.have_event == 1),
    {
        self.shared_mem_region.have_event == 1
    }

    /// The driver's half of the protocol: puts an event into the mailbox.
    /// An event is refused while another one is pending, and so is a
    /// payload that does not fit the buffer.
    pub fn post_event(&mut self, event_type: u32, payload: &[u8]) -> (posted: bool)
        requires
            old(self)@.wf(),
        ensures
            posted == (old(self)@.mailbox.have_event == 0 && payload@.len()
                <= crate::types::EVENT_BUFFER_BYTES),
            final(self)@ == (SevStepView {
                mailbox: if posted {
                    old(self)@.mailbox.posted(event_type, payload@)
                } else {
                    old(self)@.mailbox
                },
                ..old(self)@
            }),
    {
        self.shared_mem_region.post_event(event_type, payload)
    }

    /// Takes in a copy of the whole shared region, as the driver has left
    /// it: if the copy holds an event, that event is posted into the
    /// mailbox. Nothing is taken from a copy of the wrong size, from one
    /// without an event, or while another event is pending.
    pub fn post_page(&mut self, page: &[u8]) -> (posted: bool)
        requires
            old(self)@.wf(),
        ensures
            posted == (page@.len() == SEV_STEP_SHARED_MEM_BYTES && spec_u32_at(
                page@,
                HAVE_EVENT_OFFSET as int,
            ) == Some(1u32) && old(self)@.mailbox.have_event == 0),
            final(self)@ == (SevStepView {
                mailbox: if posted {
                    old(self)@.mailbox.posted(
                        spec_u32_at(page@, EVENT_TYPE_OFFSET as int).unwrap(),
                        page@.subrange(
                            EVENT_BUFFER_OFFSET as int,
                            SEV_STEP_SHARED_MEM_BYTES as int,
                        ),
                    )
                } else {
                    old(self)@.mailbox
                },
                ..old(self)@
            }),
    {
        if page.len() != SEV_STEP_SHARED_MEM_BYTES {
            return false;
        }
        if read_u32(page, HAVE_EVENT_OFFSET) != Some(1) {
            return false;
        }
        let event_type = read_u32(page, EVENT_TYPE_OFFSET).unwrap();
        let payload = vstd::slice::slice_subrange(page, EVENT_BUFFER_OFFSET, SEV_STEP_SHARED_MEM_BYTES);
        self.shared_mem_region.post_event(event_type, payload)
    }

    /// Looks into the mailbox without waiting: the pending event, or
    /// nothing. The lock is held for the look only; an event stays pending
    /// until it is acknowledged.
    pub fn poll_event(&mut self) -> (r: Result<Option<Event>, SevStepError>)
        requires
            old(self)@.wf(),
        ensures
            final(self)@ == old(self)@,
            poll_view(r) == old(self)@.poll(),
    {
        raw_spinlock::lock(&mut self.shared_mem_region.spinlock);
        if 0 == self.shared_mem_region.have_event {
            raw_spinlock::unlock(&mut self.shared_mem_region.spinlock);
            return Ok(None);
        }
        let decoded = Event::decode(
            self.shared_mem_region.event_type,
            self.shared_mem_region.event_buffer.as_slice(),
        );
        raw_spinlock::unlock(&mut self.shared_mem_region.spinlock);
        match decoded {
            Some(event) => Ok(Some(event)),
            None => Err(
                SevStepError::Other { message: "malformed event in mailbox".to_owned(), call_status: None },
            ),
        }
    }

    /// One round of the wait for the next event.
    ///
    /// The caller starts the trigger, which is to send its result on a
    /// channel when it is done, and then calls this in a tight loop, each
    /// time with the time since the wait began. The round looks, in this
    /// order, at the abort channel, at the channel of the trigger unless
    /// the trigger has finished before, at the mailbox, and at the
    /// timeout. It returns the event, an error, or nothing, which means:
    /// go round again.
    ///
    /// What the two channels hold is not for this library to say; what
    /// the round makes of it is what [`SevStep::wait_round`] says.
    pub fn block_untill_event(
        &mut self,
        trigger_result: &Receiver<Result<(), String>>,
        elapsed_nanos: u128,
        timeout_nanos: Option<u128>,
    ) -> (r: Result<Option<Event>, SevStepError>)
        requires
            old(self)@.wf(),
        ensures
            exists|abort: AbortSignal, trigger: TriggerStatusView|
                (final(self)@, poll_view(r)) == old(self)@.waited(
                    abort,
                    trigger,
                    elapsed_nanos,
                    timeout_nanos,
                ),
    {
        let abort = abort_signal(try_recv(&self.abort));
        let trigger = match abort {
            AbortSignal::Quiet => {
                if self.trigger_finished {
                    TriggerStatus::Finished
                } else {
                    trigger_status(try_recv(trigger_result))
                }
            },
            _ => TriggerStatus::Running,
        };
        self.wait_round(abort, &trigger, elapsed_nanos, timeout_nanos)
    }

    /// What one round of a wait makes of what it was found: `abort` at the
    /// abort channel, `trigger` at the trigger, `elapsed_nanos` on the
    /// clock. The checks run in this order: the abort channel, the trigger
    /// unless it has finished before, the mailbox, the timeout.
    ///
    /// A step event that retired more than one instruction is an error if
    /// the connection was made so. The event stays in the mailbox until it
    /// is acknowledged, whatever this returns.
    pub fn wait_round(
        &mut self,
        abort: AbortSignal,
        trigger: &TriggerStatus,
        elapsed_nanos: u128,
        timeout_nanos: Option<u128>,
    ) -> (r: Result<Option<Event>, SevStepError>)
        requires
            old(self)@.wf(),
        ensures
            (final(self)@, poll_view(r)) == old(self)@.waited(
                abort,
                trigger@,
                elapsed_nanos,
                timeout_nanos,
            ),
    {
        match abort {
            AbortSignal::Raised => {
                self.trigger_finished = false;
                return Err(SevStepError::Abort);
            },
            AbortSignal::Disconnected => {
                self.trigger_finished = false;
                return Err(
                    SevStepError::Other {
                        message: "error checking abort channel".to_owned(),
                        call_status: None,
                    },
                );
            },
            AbortSignal::Quiet => {},
        }
        if !self.trigger_finished {
            match trigger {
                TriggerStatus::Finished => {
                    self.trigger_finished = true;
                },
                TriggerStatus::Running => {},
                TriggerStatus::Failed(message) => {
                    return Err(SevStepError::TriggerFailed { source: message.clone() });
                },
            }
        }
        match self.poll_event() {
            Err(e) => {
                self.trigger_finished = false;
                Err(e)
            },
            Ok(Some(Event::StepEvent(step_event))) => {
                self.trigger_finished = false;
                if self.error_on_multi_step && step_event.retired_instructions > 1 {
                    Err(SevStepError::MultiStep { event: step_event })
                } else {
                    Ok(Some(Event::StepEvent(step_event)))
                }
            },
            Ok(Some(event)) => {
                self.trigger_finished = false;
                Ok(Some(event))
            },
            Ok(None) => {
                let timed_out = match timeout_nanos {
                    Some(limit) => elapsed_nanos > limit,
                    None => false,
                };
                if timed_out {
                    self.trigger_finished = false;
                    Err(SevStepError::Timeout)
                } else {
                    Ok(None)
                }
            },
        }
    }

    /// Gives the pending event back to the driver, which lets the guest
    /// run again. To be called once for each event received, before the
    /// next one is asked for.
    pub fn ack_event(&mut self)
        requires
            old(self)@.wf(),
        ensures
            final(self)@ == old(self)@.acknowledged(),
    {
        raw_spinlock::lock(&mut self.shared_mem_region.spinlock);
        self.shared_mem_region.event_acked = 1;
        self.shared_mem_region.have_event = 0;
        raw_spinlock::unlock(&mut self.shared_mem_region.spinlock);
    }
}

/// An abort request ends a wait with the abort error, whatever else the
/// round observed: also when an event is pending.
pub proof fn lemma_abort_comes_first(
    connection: SevStepView,
    trigger: TriggerStatusView,
    elapsed_nanos: u128,
    timeout_nanos: Option<u128>,
)
    ensures
        connection.wait_round(AbortSignal::Raised, trigger, elapsed_nanos, timeout_nanos) == Err::<
            Option<EventView>,
            SevStepErrorView,
        >(SevStepErrorView::Abort),
{
}

/// With the trigger finished and an event pending, a wait returns that
/// event whatever the time and the timeout are: the timeout is looked at
/// only while the mailbox is empty.
pub proof fn lemma_pending_event_is_returned(
    connection: SevStepView,
    event: EventView,
    elapsed_nanos: u128,
    timeout_nanos: Option<u128>,
)
    requires
        connection.poll() == Ok::<Option<EventView>, SevStepErrorView>(Some(event)),
        !(connection.error_on_multi_step && event is StepEvent
            && event->StepEvent_0.retired_instructions > 1),
    ensures
        connection.wait_round(
            AbortSignal::Quiet,
            TriggerStatusView::Finished,
            elapsed_nanos,
            timeout_nanos,
        ) == Ok::<Option<EventView>, SevStepErrorView>(Some(event)),
{
}

/// While no event is pending, a wait with a timeout goes on as long as
/// the time is within the timeout and fails with `Timeout` as soon as it
/// is beyond.
pub proof fn lemma_timeout_without_event(
    connection: SevStepView,
    trigger: TriggerStatusView,
    elapsed_nanos: u128,
    timeout_nanos: u128,
)
    requires
        connection.mailbox.have_event == 0,
        connection.trigger_finished || !(trigger is Failed),
    ensures
        connection.wait_round(AbortSignal::Quiet, trigger, elapsed_nanos, Some(timeout_nanos)) == (
        if elapsed_nanos > timeout_nanos {
            Err::<Option<EventView>, SevStepErrorView>(SevStepErrorView::Timeout)
        } else {
            Ok::<Option<EventView>, SevStepErrorView>(None)
        }),
{
}

/// Where a multi-step counts as an error, a pending step event that
/// retired more than one instruction makes the wait fail with that event.
/// Neither that nor any other round of a wait acknowledges: the mailbox
/// is the same after [`SevStep::wait_round`] as before.
pub proof fn lemma_multi_step_is_reported(
    connection: SevStepView,
    step: SevStepEventView,
    trigger: TriggerStatusView,
    elapsed_nanos: u128,
    timeout_nanos: Option<u128>,
)
    requires
        connection.error_on_multi_step,
        connection.poll() == Ok::<Option<EventView>, SevStepErrorView>(
            Some(EventView::StepEvent(step)),
        ),
        step.retired_instructions > 1,
        connection.trigger_finished || !(trigger is Failed),
    ensures
        connection.wait_round(AbortSignal::Quiet, trigger, elapsed_nanos, timeout_nanos) == Err::<
            Option<EventView>,
            SevStepErrorView,
        >(SevStepErrorView::MultiStep { event: step }),
{
}

/// The mailbox goes round between empty and pending: an event that the
/// driver posts into an empty mailbox is pending, and once it is
/// acknowledged the mailbox is empty again and ready for the next one.
pub proof fn lemma_mailbox_cycle(mailbox: SharedMemRegionView, event_type: u32, payload: Seq<u8>)
    requires
        mailbox.wf(),
        mailbox.have_event == 0,
    ensures
        mailbox.posted(event_type, payload).wf(),
        mailbox.posted(event_type, payload).have_event == 1,
        mailbox.posted(event_type, payload).event_acked == 0,
        mailbox.posted(event_type, payload).acked().wf(),
        mailbox.posted(event_type, payload).acked().have_event == 0,
        mailbox.posted(event_type, payload).acked().event_acked == 1,
{
}

} // verus!
