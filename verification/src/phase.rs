//! A phase: its iterations, one after the other, until all are done or one fails.

use crate::args::BenchmarkArgs;
use crate::digest::{flash_verdict, md5_of};
use crate::iteration::{
    action_after, can_happen, next_action, region_after, ActionView, EventView, IterationAction,
    IterationEvent, IterationFailure,
};
use crate::pattern::pattern;
use crate::progress::{ProgressState, Rate, Redraw, TestProgress};
use crate::readback::{readback_report, ReadbackError};
use crate::region::{Region, RegionState};
use crate::run::{phase_name, phase_options, PhaseKind, PhaseOptions};
use crate::transfer::{lemma_ceil_div, step_count};
use vstd::prelude::*;

verus! {

/// Where a phase stands.
#[derive(Debug, Clone, Copy, PartialEq, Eq, Structural)]
pub enum PhaseStatus {
    /// Between two iterations, before the first or after the last.
    Idle,
    /// An iteration begins.
    Started,
    /// A write is under way.
    Writing,
    /// The device was asked for a digest.
    Checking,
    /// A read is under way.
    Reading,
    /// The iteration is done and its rate counts.
    Passed,
    /// An iteration has failed.
    Stopped,
}

/// What a phase does next.
#[derive(Debug, Clone, Copy, PartialEq, Eq, Structural)]
pub enum PhaseStep {
    /// The iteration with this number, counted from zero.
    Iterate(usize),
    /// The reset at the end.
    Reset,
    /// Nothing more: an iteration has failed.
    Abandon,
}

/// What a [`PhaseRun`] holds.
#[verifier::ext_equal]
pub struct PhaseState {
    /// What the phase does with the flash region.
    pub kind: PhaseKind,
    /// The name in the progress line.
    pub name: Seq<char>,
    /// Number of steps of one iteration.
    pub steps: usize,
    /// Whether writes may be skipped where the flash already holds the data.
    pub skip_enabled: bool,
    /// Number of iterations.
    pub iterations: usize,
    /// Bytes that one iteration transfers.
    pub op_size: usize,
    /// The rates measured so far.
    pub samples: Seq<Rate>,
    /// Where the phase stands.
    pub status: PhaseStatus,
}

impl PhaseState {
    /// A phase on a region of `size` bytes before its first iteration.
    pub open spec fn initial(args: BenchmarkArgs, kind: PhaseKind, size: u32) -> PhaseState {
        PhaseState {
            kind,
            name: phase_name(kind),
            steps: if kind is Read {
                step_count(size, args.block_size, !args.connect_args.no_stub) as usize
            } else {
                1
            },
            skip_enabled: kind is Skip,
            iterations: args.iterations,
            op_size: size as usize,
            samples: Seq::empty(),
            status: PhaseStatus::Idle,
        }
    }

    /// There are no more rates than iterations, one fewer at least while an
    /// iteration is under way; each is the rate of the whole region; and the
    /// device is asked for what the phase is about.
    pub open spec fn wf(self) -> bool {
        &&& self.samples.len() <= self.iterations
        &&& self.status !is Idle ==> self.samples.len() < self.iterations
        &&& forall|i: int|
            0 <= i < self.samples.len() ==> (#[trigger] self.samples[i]).bytes == self.op_size
        &&& self.status is Writing ==> self.kind !is Read
        &&& self.status is Checking ==> self.kind is Write
        &&& self.status is Reading ==> self.kind is Read
    }

    /// The number of the iteration that is under way or comes next, counted from
    /// zero.
    pub open spec fn iteration(self) -> usize {
        self.samples.len() as usize
    }

    /// What the phase does next.
    pub open spec fn step(self) -> PhaseStep {
        if self.status is Stopped {
            PhaseStep::Abandon
        } else if self.samples.len() < self.iterations {
            PhaseStep::Iterate(self.iteration())
        } else {
            PhaseStep::Reset
        }
    }

    /// Whether the next iteration can begin.
    pub open spec fn can_begin(self) -> bool {
        self.status is Idle && self.step() is Iterate
    }

    /// An iteration begins.
    pub open spec fn begun(self) -> PhaseState {
        PhaseState { status: PhaseStatus::Started, ..self }
    }

    /// Whether the phase waits for such an event.
    pub open spec fn awaits(self, event: EventView) -> bool {
        match event {
            EventView::Begun => self.status is Started,
            EventView::Written => self.status is Writing,
            EventView::Digest(_) => self.status is Checking,
            EventView::ReadBack(_) => self.status is Reading,
            EventView::Failed => self.status is Writing || self.status is Checking
                || self.status is Reading,
        }
    }

    /// The iteration goes on with an action.
    pub open spec fn advanced(self, action: ActionView) -> PhaseState {
        PhaseState {
            status: match action {
                ActionView::Write(..) => PhaseStatus::Writing,
                ActionView::AskDigest(..) => PhaseStatus::Checking,
                ActionView::Read(_) => PhaseStatus::Reading,
                ActionView::Record => PhaseStatus::Passed,
                ActionView::Stop(_) => PhaseStatus::Stopped,
            },
            ..self
        }
    }

    /// The rate of the iteration is recorded.
    pub open spec fn completed(self, sample: Rate) -> PhaseState {
        PhaseState { samples: self.samples.push(sample), status: PhaseStatus::Idle, ..self }
    }

    /// Whether the region knows of the write that is under way.
    pub open spec fn in_step_with(self, region: RegionState) -> bool {
        self.kind is Write && (self.status is Writing || self.status is Checking)
            ==> region.pending is Some && (region.pending->0).0 == self.iteration()
    }
}

/// A phase in progress.
#[derive(Debug)]
pub struct PhaseRun {
    kind: PhaseKind,
    options: PhaseOptions,
    iterations: usize,
    op_size: usize,
    samples: Vec<Rate>,
    status: PhaseStatus,
}

impl View for PhaseRun {
    type V = PhaseState;

    closed spec fn view(&self) -> PhaseState {
        PhaseState {
            kind: self.kind,
            name: self.options.name@,
            steps: self.options.steps,
            skip_enabled: self.options.skip_enabled,
            iterations: self.iterations,
            op_size: self.op_size,
            samples: self.samples@,
            status: self.status,
        }
    }
}

impl PhaseRun {
    /// Starts a phase on a region of `size` bytes.
    pub fn new(args: &BenchmarkArgs, kind: PhaseKind, size: u32) -> (run: PhaseRun)
        requires
            kind is Read && !args.connect_args.no_stub ==> args.block_size > 0,
        ensures
            run@ == PhaseState::initial(*args, kind, size),
            run@.wf(),
            run@.kind == kind,
            run@.skip_enabled <==> kind is Skip,
            kind is Write ==> run@.name == "write"@,
            kind is Read ==> run@.name == "read"@,
            kind is Skip ==> run@.name == "skip"@,
            kind !is Read ==> run@.steps == 1,
            kind is Read && args.connect_args.no_stub ==> (run@.steps - 1) * 64 < size
                <= run@.steps * 64,
            kind is Read && !args.connect_args.no_stub ==> size <= run@.steps * args.block_size && (
            size > 0 ==> (run@.steps - 1) * args.block_size < size),
            kind is Read && size == 0 ==> run@.steps == 0,
            run@.iterations == args.iterations,
            run@.op_size == size,
            run@.samples.len() == 0,
            run@.status is Idle,
    {
        proof {
            if kind is Read {
                lemma_ceil_div(
                    size as nat,
                    if args.connect_args.no_stub {
                        64
                    } else {
                        args.block_size as nat
                    },
                );
            }
        }
        PhaseRun {
            kind,
            options: phase_options(kind, size, args.block_size, !args.connect_args.no_stub),
            iterations: args.iterations,
            op_size: size as usize,
            samples: Vec::new(),
            status: PhaseStatus::Idle,
        }
    }

    /// Whether writes may be skipped where the flash already holds the data.
    pub fn skip_enabled(&self) -> (enabled: bool)
        ensures
            enabled == self@.skip_enabled,
    {
        self.options.skip_enabled
    }

    /// What to do next.
    pub fn next(&self) -> (step: PhaseStep)
        ensures
            step == self@.step(),
            step is Abandon <==> self@.status is Stopped,
            self@.status !is Stopped && self@.samples.len() >= self@.iterations <==> step is Reset,
            step matches PhaseStep::Iterate(iteration) ==> iteration == self@.samples.len(),
    {
        if self.status == PhaseStatus::Stopped {
            PhaseStep::Abandon
        } else if self.samples.len() < self.iterations {
            PhaseStep::Iterate(self.samples.len())
        } else {
            PhaseStep::Reset
        }
    }

    /// Begins the next iteration and shows it, counted from one.
    pub fn begin_iteration(&mut self, progress: &mut TestProgress, now: u128) -> (redraw: Redraw)
        requires
            old(self)@.can_begin(),
        ensures
            final(self)@ == old(self)@.begun(),
            old(self)@.wf() ==> final(self)@.wf(),
            final(self)@ == (PhaseState { status: PhaseStatus::Started, ..old(self)@ }),
            final(progress)@.current_iteration == old(self)@.samples.len() + 1,
            final(progress)@.total_iterations == old(self)@.iterations,
            final(progress)@.phase == old(self)@.name,
            final(progress)@ == old(progress)@.begun(
                old(self)@.name,
                (old(self)@.iteration() + 1) as usize,
                old(self)@.iterations,
                old(self)@.steps,
                old(self)@.op_size,
                now,
            ),
            final(progress)@.wf(),
            redraw == (Redraw {
                line_break: old(progress)@.needs_line_break(old(self)@.name),
                force: true,
            }),
    {
        self.status = PhaseStatus::Started;
        progress.begin_phase(
            self.options.name,
            self.samples.len() + 1,
            self.iterations,
            self.options.steps,
            self.op_size,
            now,
        )
    }

    /// Takes an event of the iteration and says what to do about it.
    pub fn advance(&mut self, args: &BenchmarkArgs, region: &mut Region, event: IterationEvent) -> (
    action: IterationAction)
        requires
            old(self)@.wf(),
            old(region)@.wf(),
            old(self)@.in_step_with(old(region)@),
            old(self)@.awaits(event@),
            can_happen(old(region)@, old(self)@.kind, old(self)@.iteration(), event@),
        ensures
            action@ == action_after(
                *args,
                old(region)@,
                old(self)@.kind,
                old(self)@.iteration(),
                event@,
            ),
            final(region)@ == region_after(
                old(region)@,
                old(self)@.kind,
                old(self)@.iteration(),
                event@,
            ),
            final(self)@ == old(self)@.advanced(action@),
            final(self)@ == (PhaseState {
                status: match action {
                    IterationAction::Write(_) => PhaseStatus::Writing,
                    IterationAction::AskDigest { .. } => PhaseStatus::Checking,
                    IterationAction::Read(_) => PhaseStatus::Reading,
                    IterationAction::Record => PhaseStatus::Passed,
                    IterationAction::Stop(_) => PhaseStatus::Stopped,
                },
                ..old(self)@
            }),
            final(self)@.wf(),
            final(region)@.wf(),
            final(self)@.in_step_with(final(region)@),
            event is Begun ==> match old(self)@.kind {
                PhaseKind::Write => {
                    &&& action matches IterationAction::Write(write)
                    &&& write.address == old(region)@.address
                    &&& write.data@ == pattern(old(region)@.size as nat, ((old(self)@.samples.len() as usize) as u32 + 1) as u32)
                    &&& final(region)@.pending == Some(((old(self)@.samples.len() as usize), write.data@))
                    &&& final(region)@.written == old(region)@.written
                },
                PhaseKind::Read => {
                    &&& action matches IterationAction::Read(request)
                    &&& request.offset == old(region)@.address
                    &&& request.size == old(region)@.size
                    &&& request.block_size == args.block_size
                    &&& request.max_in_flight == args.max_in_flight
                    &&& final(region)@ == old(region)@
                },
                PhaseKind::Skip => {
                    &&& action matches IterationAction::Write(write)
                    &&& write.address == old(region)@.address
                    &&& write.data@ == old(region)@.written
                    &&& final(region)@ == old(region)@
                },
            },
            event is Written ==> {
                &&& final(region)@ == old(region)@
                &&& old(self)@.kind !is Write ==> action is Record
                &&& old(self)@.kind is Write ==> {
                    &&& action matches IterationAction::AskDigest { address, size }
                    &&& address == old(region)@.address
                    &&& size == old(region)@.size
                }
            },
            event matches IterationEvent::Digest(digest) ==> {
                let data = (old(region)@.pending->0).1;
                if flash_verdict(digest, md5_of(data)) is Ok {
                    &&& action is Record
                    &&& final(region)@.written == data
                } else {
                    &&& action matches IterationAction::Stop(IterationFailure::Flash(error))
                    &&& error is VerifyFailed
                    &&& final(region)@.written == old(region)@.written
                }
            },
            event matches IterationEvent::ReadBack(bytes) ==> {
                &&& final(region)@ == old(region)@
                &&& action is Record <==> bytes@ == old(region)@.written
                &&& bytes@ != old(region)@.written ==> {
                    &&& action matches IterationAction::Stop(IterationFailure::Readback(error))
                    &&& readback_report(old(region)@.address, old(region)@.written, bytes@) == Err::<(), ReadbackError>(error)
                }
            },
            event is Failed ==> {
                &&& action matches IterationAction::Stop(IterationFailure::Device)
                &&& final(region)@ == old(region)@
            },
    {
        let action = next_action(args, region, self.kind, self.samples.len(), event);
        self.status = match &action {
            IterationAction::Write(_) => PhaseStatus::Writing,
            IterationAction::AskDigest { .. } => PhaseStatus::Checking,
            IterationAction::Read(_) => PhaseStatus::Reading,
            IterationAction::Record => PhaseStatus::Passed,
            IterationAction::Stop(_) => PhaseStatus::Stopped,
        };
        action
    }

    /// Records the rate of an iteration that has passed, and shows it.
    pub fn complete_iteration(&mut self, progress: &mut TestProgress, sample: Rate) -> (redraw:
        Redraw)
        requires
            old(self)@.status is Passed,
            sample.bytes == old(self)@.op_size,
        ensures
            final(self)@ == old(self)@.completed(sample),
            old(self)@.wf() ==> final(self)@.wf(),
            final(self)@ == (PhaseState {
                samples: old(self)@.samples.push(sample),
                status: PhaseStatus::Idle,
                ..old(self)@
            }),
            final(progress)@.latest_sample == Some(sample),
            final(progress)@.current_step == old(progress)@.total_steps,
            final(progress)@ == old(progress)@.completed(sample),
            old(progress)@.wf() ==> final(progress)@.wf(),
            redraw == (Redraw { line_break: false, force: true }),
    {
        self.samples.push(sample);
        self.status = PhaseStatus::Idle;
        progress.complete_sample(sample)
    }

    /// Ends the phase: the rates of all iterations, in order.
    pub fn finish(self) -> (samples: Vec<Rate>)
        requires
            self@.step() is Reset,
        ensures
            samples@ == self@.samples,
    {
        self.samples
    }
}

/// The iterations of a phase are shown with numbers from one to their total, the
/// last one is the one after which the phase ends, and an iteration that is
/// completed shows all its steps done and its rate.
pub proof fn law_iterations_count_from_one(
    phase: PhaseState,
    progress: ProgressState,
    now: u128,
    sample: Rate,
)
    requires
        phase.can_begin(),
    ensures
        ({
            let begun = progress.begun(
                phase.name,
                (phase.iteration() + 1) as usize,
                phase.iterations,
                phase.steps,
                phase.op_size,
                now,
            );
            let completed = begun.completed(sample);
            &&& phase.step() == PhaseStep::Iterate(phase.iteration())
            &&& begun.current_iteration == phase.samples.len() + 1
            &&& 1 <= begun.current_iteration <= begun.total_iterations
            &&& completed.current_step == completed.total_steps
            &&& completed.latest_sample == Some(sample)
            &&& phase.begun().completed(sample).step() is Reset <==> begun.current_iteration
                == phase.iterations
        }),
{
}

} // verus!
