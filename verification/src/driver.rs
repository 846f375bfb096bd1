//! The phase machine that drives one full dispatch run.
//!
//! The run is a fixed sequence of device requests. The machine decides,
//! from its current phase and the device's reported outcome, the next
//! phase and the next action; an unverified shell performs each action
//! against the real device and feeds the outcome back as an event.
//! Every device failure moves the machine to a terminal failed phase
//! with the matching error: there is no retry and no partial result.

use vstd::prelude::*;

use crate::binding::BindingLayoutEntry;
use crate::binding::BufferBindingModel;
use crate::binding::PipelineModel;
use crate::binding::bind_buffer;
use crate::binding::link_pipeline;
use crate::binding::program_binding;
use crate::binding::spec_storage_layout_entry;
use crate::binding::storage_layout_entry;
use crate::buffers::BufferDesc;
use crate::buffers::BufferPlan;
use crate::buffers::compute_buffer_desc;
use crate::buffers::plan_buffers;
use crate::buffers::spec_compute_buffer_desc;
use crate::buffers::spec_staging_buffer_desc;
use crate::buffers::staging_buffer_desc;
use crate::errors::GpuError;
use crate::recorder::CommandRecorder;
use crate::recorder::RecorderPhase;
use crate::recorder::record_dispatch_sequence;
use crate::recorder::spec_dispatch_sequence;

verus! {

/// Where the run stands: each active phase waits for the outcome of
/// one device request.
#[derive(Clone, Copy, Debug, PartialEq, Eq, Structural)]
pub enum Phase {
    /// Waiting for a compute-capable adapter.
    AcquiringAdapter,
    /// Waiting for the adapter to open a logical device and queue.
    OpeningDevice,
    /// Waiting for the two buffers to be allocated.
    AllocatingBuffers,
    /// Waiting for the program to compile and link with the layout.
    BuildingPipeline,
    /// Waiting for the finished command sequence to be submitted.
    Submitting,
    /// Waiting for the map request's one-shot completion signal.
    AwaitingSignal,
    /// Waiting for the mapped bytes to be read back.
    ReadingBack,
    /// The run completed and the data was retrieved.
    Done,
    /// The run failed; `failure` holds the error. Terminal.
    Failed,
}

/// The outcome of one device request, reported by the shell.
#[derive(Clone, Copy, Debug, PartialEq, Eq, Structural)]
pub enum Event {
    AdapterReady,
    AdapterUnavailable,
    DeviceReady,
    DeviceRejected,
    BuffersReady,
    AllocationRejected,
    PipelineReady,
    ShaderRejected,
    LayoutRejected,
    Submitted,
    MapSignaled,
    MapErrored,
    SignalLost,
    BytesRead,
}

/// The next device request the shell must perform.
#[derive(Clone, Copy, Debug, PartialEq, Eq, Structural)]
pub enum DeviceAction {
    RequestAdapter,
    OpenDevice,
    CreateBuffers,
    BuildPipeline,
    Submit,
    AwaitSignal,
    ReadBack,
    /// Terminal: nothing further to perform.
    Halt,
}

/// The phase the machine moves to on an event. An event that is not
/// the outcome of the current phase's request changes nothing, and the
/// two terminal phases absorb every event.
pub open spec fn phase_after(p: Phase, e: Event) -> Phase {
    match (p, e) {
        (Phase::AcquiringAdapter, Event::AdapterReady) => Phase::OpeningDevice,
        (Phase::AcquiringAdapter, Event::AdapterUnavailable) => Phase::Failed,
        (Phase::OpeningDevice, Event::DeviceReady) => Phase::AllocatingBuffers,
        (Phase::OpeningDevice, Event::DeviceRejected) => Phase::Failed,
        (Phase::AllocatingBuffers, Event::BuffersReady) => Phase::BuildingPipeline,
        (Phase::AllocatingBuffers, Event::AllocationRejected) => Phase::Failed,
        (Phase::BuildingPipeline, Event::PipelineReady) => Phase::Submitting,
        (Phase::BuildingPipeline, Event::ShaderRejected) => Phase::Failed,
        (Phase::BuildingPipeline, Event::LayoutRejected) => Phase::Failed,
        (Phase::Submitting, Event::Submitted) => Phase::AwaitingSignal,
        (Phase::AwaitingSignal, Event::MapSignaled) => Phase::ReadingBack,
        (Phase::AwaitingSignal, Event::MapErrored) => Phase::Failed,
        (Phase::AwaitingSignal, Event::SignalLost) => Phase::Failed,
        (Phase::ReadingBack, Event::BytesRead) => Phase::Done,
        _ => p,
    }
}

/// The error a failing event carries, by the phase it fails.
pub open spec fn failure_after(p: Phase, e: Event) -> Option<GpuError> {
    match (p, e) {
        (Phase::AcquiringAdapter, Event::AdapterUnavailable) => Some(
            GpuError::NoCompatibleDevice,
        ),
        (Phase::OpeningDevice, Event::DeviceRejected) => Some(GpuError::DeviceCreation),
        (Phase::AllocatingBuffers, Event::AllocationRejected) => Some(GpuError::Allocation),
        (Phase::BuildingPipeline, Event::ShaderRejected) => Some(GpuError::ShaderCompilation),
        (Phase::BuildingPipeline, Event::LayoutRejected) => Some(
            GpuError::PipelineLayoutMismatch,
        ),
        (Phase::AwaitingSignal, Event::MapErrored) => Some(GpuError::MapFailed),
        (Phase::AwaitingSignal, Event::SignalLost) => Some(GpuError::Disconnected),
        _ => None,
    }
}

/// The action each phase asks of the shell.
pub open spec fn action_for(p: Phase) -> DeviceAction {
    match p {
        Phase::AcquiringAdapter => DeviceAction::RequestAdapter,
        Phase::OpeningDevice => DeviceAction::OpenDevice,
        Phase::AllocatingBuffers => DeviceAction::CreateBuffers,
        Phase::BuildingPipeline => DeviceAction::BuildPipeline,
        Phase::Submitting => DeviceAction::Submit,
        Phase::AwaitingSignal => DeviceAction::AwaitSignal,
        Phase::ReadingBack => DeviceAction::ReadBack,
        Phase::Done => DeviceAction::Halt,
        Phase::Failed => DeviceAction::Halt,
    }
}

/// One full run: the plan, the descriptors and layout derived from it,
/// the finished command sequence, and the machine's current phase.
pub struct Driver {
    pub phase: Phase,
    pub plan: BufferPlan,
    pub compute_buffer: BufferDesc,
    pub staging_buffer: BufferDesc,
    pub layout: BindingLayoutEntry,
    pub binding: BufferBindingModel,
    pub pipeline: PipelineModel,
    pub sequence: CommandRecorder,
    pub failure: Option<GpuError>,
}

impl Driver {
    /// Everything the run derives from its plan stays exactly what the
    /// plan dictates, and the machine is failed exactly when it holds
    /// an error.
    pub open spec fn wf(self) -> bool {
        &&& self.plan.wf()
        &&& self.plan.element_count <= u32::MAX
        &&& self.compute_buffer == spec_compute_buffer_desc(self.plan)
        &&& self.staging_buffer == spec_staging_buffer_desc(self.plan)
        &&& self.layout == spec_storage_layout_entry(self.plan.size)
        &&& self.binding == (BufferBindingModel {
            slot: 0,
            buffer: spec_compute_buffer_desc(self.plan),
            offset: 0,
        })
        &&& self.pipeline == (PipelineModel { layout: spec_storage_layout_entry(self.plan.size) })
        &&& self.sequence.phase == RecorderPhase::Finished
        &&& self.sequence@ == spec_dispatch_sequence(
            self.plan.element_count as u32,
            1,
            1,
            self.plan.size,
        )
        &&& (self.phase == Phase::Failed <==> self.failure is Some)
    }

    /// Plans a run of `element_count` elements of `element_size` bytes:
    /// sizes both buffers, declares the layout, binds the compute
    /// buffer, links the program, and records the finished command
    /// sequence with one workgroup per element. Rejected only when the
    /// byte size is zero or unrepresentable.
    pub fn new(element_count: u32, element_size: u64) -> (r: Result<Driver, GpuError>)
        ensures
            r is Ok <==> element_count > 0 && element_size > 0 && (element_count as u64)
                * element_size <= u64::MAX,
            r matches Ok(d) ==> d.wf() && d.phase == Phase::AcquiringAdapter && d.failure is None
                && d.plan.element_count == element_count && d.plan.element_size == element_size,
            r is Err ==> r->Err_0 == GpuError::SizeConversion,
    {
        let plan = match plan_buffers(element_count as u64, element_size) {
            Ok(p) => p,
            Err(e) => {
                return Err(e);
            },
        };
        let compute_buffer = compute_buffer_desc(&plan);
        let staging_buffer = staging_buffer_desc(&plan);
        let layout = storage_layout_entry(plan.size);
        let program = program_binding();
        let pipeline = match link_pipeline(&program, &layout) {
            Ok(p) => p,
            Err(_) => {
                return Err(GpuError::SizeConversion);
            },
        };
        let binding = match bind_buffer(&layout, &compute_buffer) {
            Ok(b) => b,
            Err(_) => {
                return Err(GpuError::SizeConversion);
            },
        };
        let sequence = match record_dispatch_sequence(
            &compute_buffer,
            &staging_buffer,
            element_count,
            1,
            1,
            plan.size,
        ) {
            Ok(s) => s,
            Err(_) => {
                return Err(GpuError::SizeConversion);
            },
        };
        Ok(
            Driver {
                phase: Phase::AcquiringAdapter,
                plan,
                compute_buffer,
                staging_buffer,
                layout,
                binding,
                pipeline,
                sequence,
                failure: None,
            },
        )
    }

    /// The device request the shell must perform next.
    pub fn current_action(&self) -> (a: DeviceAction)
        ensures
            a == action_for(self.phase),
    {
        match self.phase {
            Phase::AcquiringAdapter => DeviceAction::RequestAdapter,
            Phase::OpeningDevice => DeviceAction::OpenDevice,
            Phase::AllocatingBuffers => DeviceAction::CreateBuffers,
            Phase::BuildingPipeline => DeviceAction::BuildPipeline,
            Phase::Submitting => DeviceAction::Submit,
            Phase::AwaitingSignal => DeviceAction::AwaitSignal,
            Phase::ReadingBack => DeviceAction::ReadBack,
            Phase::Done => DeviceAction::Halt,
            Phase::Failed => DeviceAction::Halt,
        }
    }

    /// Consumes one reported outcome and returns the next action.
    ///
    /// The phase moves as `phase_after` dictates, a failing outcome
    /// records its error, and everything derived from the plan is left
    /// untouched.
    pub fn step(&mut self, event: Event) -> (a: DeviceAction)
        ensures
            final(self).phase == phase_after(old(self).phase, event),
            final(self).failure == (match failure_after(old(self).phase, event) {
                Some(err) => Some(err),
                None => old(self).failure,
            }),
            final(self).plan == old(self).plan,
            final(self).compute_buffer == old(self).compute_buffer,
            final(self).staging_buffer == old(self).staging_buffer,
            final(self).layout == old(self).layout,
            final(self).binding == old(self).binding,
            final(self).pipeline == old(self).pipeline,
            final(self).sequence.phase == old(self).sequence.phase,
            final(self).sequence@ == old(self).sequence@,
            a == action_for(final(self).phase),
            old(self).wf() ==> final(self).wf(),
    {
        let next = match (self.phase, event) {
            (Phase::AcquiringAdapter, Event::AdapterReady) => Phase::OpeningDevice,
            (Phase::AcquiringAdapter, Event::AdapterUnavailable) => Phase::Failed,
            (Phase::OpeningDevice, Event::DeviceReady) => Phase::AllocatingBuffers,
            (Phase::OpeningDevice, Event::DeviceRejected) => Phase::Failed,
            (Phase::AllocatingBuffers, Event::BuffersReady) => Phase::BuildingPipeline,
            (Phase::AllocatingBuffers, Event::AllocationRejected) => Phase::Failed,
            (Phase::BuildingPipeline, Event::PipelineReady) => Phase::Submitting,
            (Phase::BuildingPipeline, Event::ShaderRejected) => Phase::Failed,
            (Phase::BuildingPipeline, Event::LayoutRejected) => Phase::Failed,
            (Phase::Submitting, Event::Submitted) => Phase::AwaitingSignal,
            (Phase::AwaitingSignal, Event::MapSignaled) => Phase::ReadingBack,
            (Phase::AwaitingSignal, Event::MapErrored) => Phase::Failed,
            (Phase::AwaitingSignal, Event::SignalLost) => Phase::Failed,
            (Phase::ReadingBack, Event::BytesRead) => Phase::Done,
            _ => self.phase,
        };
        let fail: Option<GpuError> = match (self.phase, event) {
            (Phase::AcquiringAdapter, Event::AdapterUnavailable) => Some(
                GpuError::NoCompatibleDevice,
            ),
            (Phase::OpeningDevice, Event::DeviceRejected) => Some(GpuError::DeviceCreation),
            (Phase::AllocatingBuffers, Event::AllocationRejected) => Some(GpuError::Allocation),
            (Phase::BuildingPipeline, Event::ShaderRejected) => Some(GpuError::ShaderCompilation),
            (Phase::BuildingPipeline, Event::LayoutRejected) => Some(
                GpuError::PipelineLayoutMismatch,
            ),
            (Phase::AwaitingSignal, Event::MapErrored) => Some(GpuError::MapFailed),
            (Phase::AwaitingSignal, Event::SignalLost) => Some(GpuError::Disconnected),
            _ => None,
        };
        self.phase = next;
        match fail {
            Some(err) => {
                self.failure = Some(err);
            },
            None => {},
        }
        self.current_action()
    }
}

/// A machine configuration: the phase and the recorded error, if any.
pub open spec fn machine_after(p: Phase, f: Option<GpuError>, e: Event) -> (Phase, Option<
    GpuError,
>) {
    (
        phase_after(p, e),
        match failure_after(p, e) {
            Some(err) => Some(err),
            None => f,
        },
    )
}

/// The configuration reached from `(p, f)` after a whole trace of
/// reported outcomes, in order.
pub open spec fn machine_after_trace(p: Phase, f: Option<GpuError>, events: Seq<Event>) -> (
    Phase,
    Option<GpuError>,
)
    decreases events.len(),
{
    if events.len() == 0 {
        (p, f)
    } else {
        let next = machine_after(p, f, events.first());
        machine_after_trace(next.0, next.1, events.drop_first())
    }
}

/// The configuration every run starts from.
pub open spec fn initial_machine() -> (Phase, Option<GpuError>) {
    (Phase::AcquiringAdapter, None)
}

/// Two whole runs that observe the same device outcomes, in the same
/// order, end in the same configuration: the machine starts from one
/// fixed configuration and consults nothing but its phase and the
/// reported event, so a repeated run repeats the outcome.
pub proof fn lemma_repeated_run_agrees(first: Seq<Event>, second: Seq<Event>)
    requires
        first == second,
    ensures
        machine_after_trace(initial_machine().0, initial_machine().1, first)
            == machine_after_trace(initial_machine().0, initial_machine().1, second),
{
}

/// A terminal configuration absorbs every further event: once the run
/// is done or has failed, no event moves it or changes its error.
/// Every failure is thus fatal to the run: there is no recovery path.
pub proof fn lemma_terminal_absorbs(p: Phase, f: Option<GpuError>, events: Seq<Event>)
    requires
        p == Phase::Done || p == Phase::Failed,
    ensures
        machine_after_trace(p, f, events) == (p, f),
    decreases events.len(),
{
    if events.len() > 0 {
        assert(phase_after(p, events.first()) == p);
        assert(failure_after(p, events.first()) is None);
        lemma_terminal_absorbs(p, f, events.drop_first());
    }
}

/// The trace of a run on which every device request succeeds.
pub open spec fn success_trace() -> Seq<Event> {
    seq![
        Event::AdapterReady,
        Event::DeviceReady,
        Event::BuffersReady,
        Event::PipelineReady,
        Event::Submitted,
        Event::MapSignaled,
        Event::BytesRead,
    ]
}

/// A run on which every device request succeeds ends done, with no
/// error recorded.
pub proof fn lemma_success_trace_completes()
    ensures
        machine_after_trace(initial_machine().0, initial_machine().1, success_trace()) == (
            Phase::Done,
            None::<GpuError>,
        ),
{
    let t0 = success_trace();
    let t1 = t0.drop_first();
    let t2 = t1.drop_first();
    let t3 = t2.drop_first();
    let t4 = t3.drop_first();
    let t5 = t4.drop_first();
    let t6 = t5.drop_first();
    let t7 = t6.drop_first();
    assert(t7.len() == 0);
    assert(machine_after_trace(Phase::Done, None, t7) == (Phase::Done, None::<GpuError>));
    assert(machine_after_trace(Phase::ReadingBack, None, t6) == (Phase::Done, None::<GpuError>));
    assert(machine_after_trace(Phase::AwaitingSignal, None, t5) == (Phase::Done, None::<GpuError>));
    assert(machine_after_trace(Phase::Submitting, None, t4) == (Phase::Done, None::<GpuError>));
    assert(machine_after_trace(Phase::BuildingPipeline, None, t3) == (
        Phase::Done,
        None::<GpuError>,
    ));
    assert(machine_after_trace(Phase::AllocatingBuffers, None, t2) == (
        Phase::Done,
        None::<GpuError>,
    ));
    assert(machine_after_trace(Phase::OpeningDevice, None, t1) == (Phase::Done, None::<GpuError>));
    assert(machine_after_trace(Phase::AcquiringAdapter, None, t0) == (
        Phase::Done,
        None::<GpuError>,
    ));
}

} // verus!
