//! What holds of a whole phase.

use crate::args::BenchmarkArgs;
use crate::digest::{big_endian, md5_of};
use crate::iteration::{
    action_after, can_happen, law_failed_iteration_changes_nothing, law_rate_counts_after_a_check,
    law_write_iteration_checks_what_it_wrote, region_after, whole_region, write_verdict,
    ActionView, EventView,
};
use crate::pattern::pattern;
use crate::phase::{PhaseState, PhaseStatus, PhaseStep};
use crate::progress::Rate;
use crate::region::{after_writes, lemma_writes_keep_the_place, RegionState};
use crate::run::{law_phase_names, law_write_seeds_count_from_one, PhaseKind};
use crate::transfer::lemma_ceil_div;
use crate::transfer_laws::law_steps_cover_the_region;
use vstd::prelude::*;

verus! {

/// A phase and its region after an event.
pub open spec fn after_event(
    args: BenchmarkArgs,
    phase: PhaseState,
    region: RegionState,
    event: EventView,
) -> (PhaseState, RegionState) {
    (
        phase.advanced(action_after(args, region, phase.kind, phase.iteration(), event)),
        region_after(region, phase.kind, phase.iteration(), event),
    )
}

/// A rate can be recorded only after the check of its iteration: after the digest
/// of what was written, after a read of exactly what was written, or after the
/// write in the skip phase, which has no check. Recording it ends the iteration.
pub proof fn law_rate_is_recorded_after_a_check(
    args: BenchmarkArgs,
    phase: PhaseState,
    region: RegionState,
    event: EventView,
    sample: Rate,
)
    requires
        phase.awaits(event),
        can_happen(region, phase.kind, phase.iteration(), event),
    ensures
        ({
            let (after, _) = after_event(args, phase, region, event);
            &&& after.samples == phase.samples
            &&& after.status is Passed <==> match event {
                EventView::Digest(digest) => phase.kind is Write && write_verdict(
                    region,
                    phase.iteration(),
                    digest,
                ) is Ok,
                EventView::ReadBack(bytes) => phase.kind is Read && bytes == region.written,
                EventView::Written => phase.kind is Skip,
                _ => false,
            }
        }),
        phase.begun().status !is Passed,
        phase.completed(sample).status !is Passed,
{
    law_rate_counts_after_a_check(args, region, phase.kind, phase.iteration(), event);
}

/// The first failure ends a phase: there is no rate for the failed iteration, no
/// reset and no other iteration, and what the region should hold is not changed.
pub proof fn law_failure_ends_the_phase(
    args: BenchmarkArgs,
    phase: PhaseState,
    region: RegionState,
    event: EventView,
)
    requires
        phase.awaits(event),
        can_happen(region, phase.kind, phase.iteration(), event),
        match event {
            EventView::Failed => true,
            EventView::Digest(digest) => write_verdict(region, phase.iteration(), digest) is Err,
            EventView::ReadBack(bytes) => bytes != region.written,
            _ => false,
        },
    ensures
        ({
            let (after, held) = after_event(args, phase, region, event);
            &&& after.samples == phase.samples
            &&& after.step() == PhaseStep::Abandon
            &&& !after.can_begin()
            &&& after.status !is Passed
            &&& forall|later: EventView| !#[trigger] after.awaits(later)
            &&& held.written == region.written
        }),
{
    law_failed_iteration_changes_nothing(args, region, phase.kind, phase.iteration(), event);
}

/// A phase comes to its reset only with the rate of every iteration, each of the
/// whole region.
pub proof fn law_reset_comes_after_all_iterations(phase: PhaseState)
    requires
        phase.wf(),
        phase.step() is Reset,
    ensures
        phase.status is Idle,
        phase.samples.len() == phase.iterations,
        forall|i: int|
            0 <= i < phase.samples.len() ==> (#[trigger] phase.samples[i]).bytes == phase.op_size,
{
}

/// The events of an iteration on a device that does what it is asked for, and
/// reports `digest` where it is asked for one.
pub open spec fn good_events(region: RegionState, kind: PhaseKind, digest: u128) -> Seq<EventView> {
    match kind {
        PhaseKind::Write => seq![EventView::Begun, EventView::Written, EventView::Digest(digest)],
        PhaseKind::Read => seq![EventView::Begun, EventView::ReadBack(region.written)],
        PhaseKind::Skip => seq![EventView::Begun, EventView::Written],
    }
}

/// What an iteration does after each of those events.
pub open spec fn good_actions(
    args: BenchmarkArgs,
    region: RegionState,
    kind: PhaseKind,
    iteration: usize,
) -> Seq<ActionView> {
    let write = region.write(kind, iteration)->0;
    match kind {
        PhaseKind::Write => seq![
            ActionView::Write(write.0, write.1),
            ActionView::AskDigest(region.address, region.size),
            ActionView::Record,
        ],
        PhaseKind::Read => seq![ActionView::Read(whole_region(args, region)), ActionView::Record],
        PhaseKind::Skip => seq![ActionView::Write(write.0, write.1), ActionView::Record],
    }
}

/// A phase and its region after some events of an iteration.
pub open spec fn after_events(
    args: BenchmarkArgs,
    phase: PhaseState,
    region: RegionState,
    events: Seq<EventView>,
) -> (PhaseState, RegionState)
    decreases events.len(),
{
    if events.len() == 0 {
        (phase, region)
    } else {
        let (before, held) = after_events(args, phase, region, events.drop_last());
        after_event(args, before, held, events.last())
    }
}

/// On a device that does what it is asked for, each event is the one that the
/// iteration waits for, and the iteration writes, checks and reads in the order
/// of [`good_actions`] and passes. In the write phase the region then holds the
/// new data; in the other phases it is as it was.
pub proof fn law_good_iteration_passes(
    args: BenchmarkArgs,
    phase: PhaseState,
    region: RegionState,
    digest: u128,
    i: int,
)
    requires
        phase.status is Started,
        phase.kind is Write ==> phase.iteration() as u32 + 1 <= u32::MAX,
        phase.kind is Write ==> write_verdict(region, phase.iteration(), digest) is Ok,
        0 <= i < good_events(region, phase.kind, digest).len(),
    ensures
        ({
            let events = good_events(region, phase.kind, digest);
            let (before, held) = after_events(args, phase, region, events.take(i));
            &&& before.awaits(events[i])
            &&& before.in_step_with(held)
            &&& can_happen(held, phase.kind, phase.iteration(), events[i])
            &&& action_after(args, held, phase.kind, phase.iteration(), events[i])
                == good_actions(args, region, phase.kind, phase.iteration())[i]
        }),
        after_events(args, phase, region, good_events(region, phase.kind, digest)) == (
            PhaseState { status: PhaseStatus::Passed, ..phase },
            if phase.kind is Write {
                region.completed(phase.iteration())
            } else {
                region
            },
        ),
{
    let events = good_events(region, phase.kind, digest);
    reveal_with_fuel(after_events, 4);
    assert(events.take(0).len() == 0);
    assert(events.take(1).drop_last() =~= events.take(0));
    assert(events.take(2).drop_last() =~= events.take(1));
    if events.len() == 3 {
        assert(events.take(3) =~= events);
        assert(events.drop_last() =~= events.take(2));
    } else {
        assert(events.take(2) =~= events);
        assert(events.drop_last() =~= events.take(1));
    }
}

/// A phase and its region after `n` iterations on a device that does what it is
/// asked for, with the given digests and rates.
pub open spec fn after_iterations(
    args: BenchmarkArgs,
    kind: PhaseKind,
    region: RegionState,
    digests: Seq<u128>,
    samples: Seq<Rate>,
    n: nat,
) -> (PhaseState, RegionState)
    decreases n,
{
    if n == 0 {
        (PhaseState::initial(args, kind, region.size), region)
    } else {
        let (before, held) = after_iterations(
            args,
            kind,
            region,
            digests,
            samples,
            (n - 1) as nat,
        );
        let (passed, after) = after_events(
            args,
            before.begun(),
            held,
            good_events(held, kind, digests[n - 1]),
        );
        (passed.completed(samples[n - 1]), after)
    }
}

/// On a device that does what it is asked for, a phase takes all its iterations
/// and then resets, with their rates in order. The iteration with the number `n`
/// of the write phase writes and checks the pattern of its number; each one of
/// the read phase reads the whole region; each one of the skip phase writes what
/// the region holds once more, and the region never changes in these two.
pub proof fn law_course_of_a_phase(
    args: BenchmarkArgs,
    kind: PhaseKind,
    region: RegionState,
    digests: Seq<u128>,
    samples: Seq<Rate>,
    n: nat,
)
    requires
        n <= args.iterations,
        digests.len() == args.iterations,
        samples.len() == args.iterations,
        kind is Write ==> args.iterations <= u32::MAX,
        kind is Write ==> forall|i: int|
            0 <= i < args.iterations ==> write_verdict(
                region,
                i as usize,
                #[trigger] digests[i],
            ) is Ok,
    ensures
        ({
            let (phase, held) = after_iterations(args, kind, region, digests, samples, n);
            &&& phase == (PhaseState {
                samples: samples.take(n as int),
                ..PhaseState::initial(args, kind, region.size)
            })
            &&& phase.step() == if n < args.iterations {
                PhaseStep::Iterate(n as usize)
            } else {
                PhaseStep::Reset
            }
            &&& held == if kind is Write {
                after_writes(region, n)
            } else {
                region
            }
            &&& good_actions(args, held, kind, n as usize) == good_actions(
                args,
                region,
                kind,
                n as usize,
            )
        }),
    decreases n,
{
    if n > 0 {
        let m = (n - 1) as nat;
        law_course_of_a_phase(args, kind, region, digests, samples, m);
        let (before, held) = after_iterations(args, kind, region, digests, samples, m);
        lemma_writes_keep_the_place(region, m);
        let digest = digests[m as int];
        law_good_iteration_passes(args, before.begun(), held, digest, 0);
        assert(samples.take(m as int).push(samples[m as int]) =~= samples.take(n as int));
        if kind is Write {
            lemma_writes_keep_the_place(region, n);
        }
    } else {
        assert(samples.take(0) =~= Seq::<Rate>::empty());
    }
}

/// A phase starts with nothing done, and skipping is allowed in the skip phase
/// only: in the write and read phases every write is really made. Write and skip
/// have one step; a read has as many as packets or commands hold the region.
pub proof fn law_started_phase(args: BenchmarkArgs, kind: PhaseKind, size: u32)
    requires
        kind is Read && !args.connect_args.no_stub ==> args.block_size > 0,
    ensures
        ({
            let phase = PhaseState::initial(args, kind, size);
            &&& phase.skip_enabled <==> kind is Skip
            &&& phase.kind == kind
            &&& phase.name == "write"@ <==> kind is Write
            &&& phase.name == "read"@ <==> kind is Read
            &&& phase.name == "skip"@ <==> kind is Skip
            &&& kind !is Read ==> phase.steps == 1
            &&& kind is Read && args.connect_args.no_stub ==> (phase.steps - 1) * 64 < size
                <= phase.steps * 64
            &&& kind is Read && !args.connect_args.no_stub ==> size <= phase.steps
                * args.block_size && (size > 0 ==> (phase.steps - 1) * args.block_size < size)
            &&& kind is Read && size == 0 ==> phase.steps == 0
            &&& phase.iterations == args.iterations
            &&& phase.op_size == size
            &&& phase.samples.len() == 0
            &&& phase.status is Idle
            &&& phase.step() == if args.iterations > 0 {
                PhaseStep::Iterate(0)
            } else {
                PhaseStep::Reset
            }
        }),
{
    law_phase_names(kind);
    if kind is Read {
        law_steps_cover_the_region(size, args.block_size, !args.connect_args.no_stub);
        lemma_ceil_div(
            size as nat,
            if args.connect_args.no_stub {
                64
            } else {
                args.block_size as nat
            },
        );
    }
}

/// In the course of a phase nothing changes but its status and its rates: a rate
/// is added when an iteration is recorded, behind those before it, and never else.
pub proof fn law_phase_keeps_what_it_is(phase: PhaseState, action: ActionView, sample: Rate)
    ensures
        ({
            let begun = phase.begun();
            let advanced = phase.advanced(action);
            let completed = phase.completed(sample);
            &&& begun == (PhaseState { status: PhaseStatus::Started, ..phase })
            &&& advanced == (PhaseState { status: advanced.status, ..phase })
            &&& completed == (PhaseState {
                status: PhaseStatus::Idle,
                samples: completed.samples,
                ..phase
            })
            &&& completed.samples.len() == phase.samples.len() + 1
            &&& completed.samples.last() == sample
            &&& completed.samples.drop_last() == phase.samples
            &&& advanced.status is Writing <==> action is Write
            &&& advanced.status is Checking <==> action is AskDigest
            &&& advanced.status is Reading <==> action is Read
            &&& advanced.status is Passed <==> action is Record
            &&& advanced.status is Stopped <==> action is Stop
        }),
{
    assert(phase.completed(sample).samples.drop_last() =~= phase.samples);
}

/// A device that keeps what is written and reports its digest passes every
/// iteration of the write phase: whatever the iteration hands out to be written
/// is what its digest is compared with.
pub proof fn law_keeping_device_passes_the_write_phase(
    args: BenchmarkArgs,
    phase: PhaseState,
    region: RegionState,
    digest: u128,
)
    requires
        phase.status is Started,
        phase.kind is Write,
        phase.samples.len() < u32::MAX,
        action_after(args, region, PhaseKind::Write, phase.iteration(), EventView::Begun) matches
            ActionView::Write(_, data) && big_endian(digest) == md5_of(data),
    ensures
        ({
            let events = seq![EventView::Begun, EventView::Written, EventView::Digest(digest)];
            let (after, held) = after_events(args, phase, region, events);
            &&& after.status is Passed
            &&& after.samples == phase.samples
            &&& held.written == pattern(region.size as nat, (phase.samples.len() + 1) as u32)
            &&& held.address == region.address && held.size == region.size
        }),
{
    let events = seq![EventView::Begun, EventView::Written, EventView::Digest(digest)];
    law_write_iteration_checks_what_it_wrote(args, region, phase.iteration(), digest);
    law_good_iteration_passes(args, phase, region, digest, 0);
    assert(good_events(region, PhaseKind::Write, digest) =~= events);
    law_write_seeds_count_from_one(phase.iteration());
}

} // verus!
