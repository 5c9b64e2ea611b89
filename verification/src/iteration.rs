//! One iteration of a phase: what is done with the flash, and what has to hold
//! before its rate counts.

use crate::args::BenchmarkArgs;
use crate::digest::{big_endian, flash_verdict, md5_of};
use crate::flash::FlashError;
use crate::pattern::pattern;
use crate::readback::{mismatch_has_address, readback_report, ReadbackError};
use crate::region::{FlashWrite, Region, RegionState};
use crate::run::{law_write_seeds_count_from_one, write_seed, PhaseKind};
use crate::transfer::ReadRequest;
use vstd::prelude::*;
use vstd::slice::slice_to_vec;

verus! {

/// What has happened in an iteration.
#[derive(Debug, PartialEq, Eq)]
pub enum IterationEvent {
    /// It begins.
    Begun,
    /// The data is written.
    Written,
    /// The device reports this digest.
    Digest(u128),
    /// These bytes were read.
    ReadBack(Vec<u8>),
    /// The device could not do what it was asked for.
    Failed,
}

/// The same with the bytes as a sequence.
pub enum EventView {
    /// It begins.
    Begun,
    /// The data is written.
    Written,
    /// The device reports this digest.
    Digest(u128),
    /// These bytes were read.
    ReadBack(Seq<u8>),
    /// The device could not do what it was asked for.
    Failed,
}

impl View for IterationEvent {
    type V = EventView;

    open spec fn view(&self) -> EventView {
        match self {
            IterationEvent::Begun => EventView::Begun,
            IterationEvent::Written => EventView::Written,
            IterationEvent::Digest(digest) => EventView::Digest(*digest),
            IterationEvent::ReadBack(bytes) => EventView::ReadBack(bytes@),
            IterationEvent::Failed => EventView::Failed,
        }
    }
}

/// Why an iteration fails.
#[derive(Debug, PartialEq, Eq)]
pub enum IterationFailure {
    /// The device could not do what it was asked for.
    Device,
    /// The flash does not hold what was written.
    Flash(FlashError),
    /// What was read is not what was written.
    Readback(ReadbackError),
}

/// What an iteration does next.
#[derive(Debug, PartialEq, Eq)]
pub enum IterationAction {
    /// Write to the flash.
    Write(FlashWrite),
    /// Ask the device for the digest of `size` bytes at `address`.
    AskDigest {
        /// Address of the first byte.
        address: u32,
        /// Number of bytes.
        size: u32,
    },
    /// Read from the flash.
    Read(ReadRequest),
    /// The iteration is done: its rate counts.
    Record,
    /// The iteration has failed.
    Stop(IterationFailure),
}

/// The same with the bytes as a sequence.
pub enum ActionView {
    /// Write these bytes to this address.
    Write(u32, Seq<u8>),
    /// Ask for the digest of so many bytes at this address.
    AskDigest(u32, u32),
    /// Read from the flash.
    Read(ReadRequest),
    /// The iteration is done: its rate counts.
    Record,
    /// The iteration has failed.
    Stop(IterationFailure),
}

impl View for IterationAction {
    type V = ActionView;

    open spec fn view(&self) -> ActionView {
        match self {
            IterationAction::Write(write) => ActionView::Write(write.address, write.data@),
            IterationAction::AskDigest { address, size } => ActionView::AskDigest(*address, *size),
            IterationAction::Read(request) => ActionView::Read(*request),
            IterationAction::Record => ActionView::Record,
            IterationAction::Stop(failure) => ActionView::Stop(*failure),
        }
    }
}

/// The request to read a whole region back.
pub open spec fn whole_region(args: BenchmarkArgs, region: RegionState) -> ReadRequest {
    ReadRequest {
        offset: region.address,
        size: region.size,
        block_size: args.block_size,
        max_in_flight: args.max_in_flight,
    }
}

/// The verdict on a write iteration whose region has this digest.
pub open spec fn write_verdict(region: RegionState, iteration: usize, digest: u128) -> Result<
    (),
    FlashError,
> {
    flash_verdict(digest, md5_of(pattern(region.size as nat, write_seed(iteration))))
}

/// What an iteration does after an event.
pub open spec fn action_after(
    args: BenchmarkArgs,
    region: RegionState,
    kind: PhaseKind,
    iteration: usize,
    event: EventView,
) -> ActionView {
    match event {
        EventView::Begun => match region.write(kind, iteration) {
            Some((address, data)) => ActionView::Write(address, data),
            None => ActionView::Read(whole_region(args, region)),
        },
        EventView::Written => if kind is Write {
            ActionView::AskDigest(region.address, region.size)
        } else {
            ActionView::Record
        },
        EventView::Digest(digest) => match write_verdict(region, iteration, digest) {
            Ok(()) => ActionView::Record,
            Err(error) => ActionView::Stop(IterationFailure::Flash(error)),
        },
        EventView::ReadBack(bytes) => match readback_report(
            region.address,
            region.written,
            bytes,
        ) {
            Ok(()) => ActionView::Record,
            Err(error) => ActionView::Stop(IterationFailure::Readback(error)),
        },
        EventView::Failed => ActionView::Stop(IterationFailure::Device),
    }
}

/// The region after an event. What it should hold changes with a good digest
/// only.
pub open spec fn region_after(
    region: RegionState,
    kind: PhaseKind,
    iteration: usize,
    event: EventView,
) -> RegionState {
    match event {
        EventView::Begun => if kind is Write {
            region.started(iteration)
        } else {
            region
        },
        EventView::Digest(digest) => if write_verdict(region, iteration, digest) is Ok {
            region.completed(iteration)
        } else {
            region.settled()
        },
        _ => region,
    }
}

/// Whether an event can happen in an iteration: a device writes and reads what
/// it was asked for.
pub open spec fn can_happen(
    region: RegionState,
    kind: PhaseKind,
    iteration: usize,
    event: EventView,
) -> bool {
    match event {
        EventView::Begun => kind is Write ==> iteration as u32 + 1 <= u32::MAX,
        EventView::Written => kind !is Read,
        EventView::Digest(_) => kind is Write && region.pending is Some && (region.pending->0).0
            == iteration,
        EventView::ReadBack(bytes) => kind is Read && mismatch_has_address(
            region.address,
            region.written,
            bytes,
        ),
        EventView::Failed => true,
    }
}

/// What an iteration of a phase does after an event.
pub fn next_action(
    args: &BenchmarkArgs,
    region: &mut Region,
    kind: PhaseKind,
    iteration: usize,
    event: IterationEvent,
) -> (action: IterationAction)
    requires
        old(region)@.wf(),
        can_happen(old(region)@, kind, iteration, event@),
    ensures
        action@ == action_after(*args, old(region)@, kind, iteration, event@),
        final(region)@ == region_after(old(region)@, kind, iteration, event@),
        final(region)@.wf(),
        event is Begun ==> match kind {
            PhaseKind::Write => {
                &&& action matches IterationAction::Write(write)
                &&& write.address == old(region)@.address
                &&& write.data@ == pattern(old(region)@.size as nat, (iteration as u32 + 1) as u32)
                &&& final(region)@.pending == Some((iteration, write.data@))
                &&& final(region)@.written == old(region)@.written
            },
            PhaseKind::Read => {
                &&& action matches IterationAction::Read(request)
                &&& request.offset == old(region)@.address
                &&& request.size == old(region)@.size
                &&& request.block_size == args.block_size
                &&& request.max_in_flight == args.max_in_flight
                &&& final(region)@ == old(region)@
            },
            PhaseKind::Skip => {
                &&& action matches IterationAction::Write(write)
                &&& write.address == old(region)@.address
                &&& write.data@ == old(region)@.written
                &&& final(region)@ == old(region)@
            },
        },
        event is Written ==> {
            &&& final(region)@ == old(region)@
            &&& kind !is Write ==> action is Record
            &&& kind is Write ==> {
                &&& action matches IterationAction::AskDigest { address, size }
                &&& address == old(region)@.address
                &&& size == old(region)@.size
            }
        },
        event matches IterationEvent::Digest(digest) ==> {
            let data = (old(region)@.pending->0).1;
            if flash_verdict(digest, md5_of(data)) is Ok {
                &&& action is Record
                &&& final(region)@.written == data
            } else {
                &&& action matches IterationAction::Stop(IterationFailure::Flash(error))
                &&& error is VerifyFailed
                &&& final(region)@.written == old(region)@.written
            }
        },
        event matches IterationEvent::ReadBack(bytes) ==> {
            &&& final(region)@ == old(region)@
            &&& action is Record <==> bytes@ == old(region)@.written
            &&& bytes@ != old(region)@.written ==> {
                &&& action matches IterationAction::Stop(IterationFailure::Readback(error))
                &&& readback_report(old(region)@.address, old(region)@.written, bytes@) == Err::<(), ReadbackError>(error)
            }
        },
        event is Failed ==> {
            &&& action matches IterationAction::Stop(IterationFailure::Device)
            &&& final(region)@ == old(region)@
        },
{
    match event {
        IterationEvent::Begun => match region.planned_write(kind, iteration) {
            Some(write) => {
                if kind == PhaseKind::Write {
                    region.start_write(iteration, slice_to_vec(write.data.as_slice()));
                }
                IterationAction::Write(write)
            },
            None => IterationAction::Read(
                region.read_request(args.block_size, args.max_in_flight),
            ),
        },
        IterationEvent::Written => if kind == PhaseKind::Write {
            IterationAction::AskDigest { address: region.address(), size: region.size() }
        } else {
            IterationAction::Record
        },
        IterationEvent::Digest(digest) => match region.settle_write(digest) {
            Ok(()) => IterationAction::Record,
            Err(error) => IterationAction::Stop(IterationFailure::Flash(error)),
        },
        IterationEvent::ReadBack(bytes) => match region.check_readback(bytes.as_slice()) {
            Ok(()) => IterationAction::Record,
            Err(error) => IterationAction::Stop(IterationFailure::Readback(error)),
        },
        IterationEvent::Failed => IterationAction::Stop(IterationFailure::Device),
    }
}

/// The rate of an iteration counts only after a matching digest of what was
/// written, after a read of exactly what was written, or after a write of the
/// skip phase. After a matching digest the region holds what was written.
pub proof fn law_rate_counts_after_a_check(
    args: BenchmarkArgs,
    region: RegionState,
    kind: PhaseKind,
    iteration: usize,
    event: EventView,
)
    requires
        can_happen(region, kind, iteration, event),
    ensures
        action_after(args, region, kind, iteration, event) is Record <==> match event {
            EventView::Digest(digest) => kind is Write && flash_verdict(
                digest,
                md5_of(pattern(region.size as nat, write_seed(iteration))),
            ) is Ok,
            EventView::ReadBack(bytes) => kind is Read && bytes == region.written,
            EventView::Written => kind is Skip,
            _ => false,
        },
        action_after(args, region, kind, iteration, event) is Record && kind is Write
            ==> region_after(region, kind, iteration, event).written == pattern(
            region.size as nat,
            write_seed(iteration),
        ),
{
}

/// An iteration fails exactly if the device fails, if the digest is another one
/// or if something else is read. What the region should hold stays as it was.
pub proof fn law_failed_iteration_changes_nothing(
    args: BenchmarkArgs,
    region: RegionState,
    kind: PhaseKind,
    iteration: usize,
    event: EventView,
)
    requires
        can_happen(region, kind, iteration, event),
    ensures
        action_after(args, region, kind, iteration, event) is Stop <==> match event {
            EventView::Failed => true,
            EventView::Digest(digest) => write_verdict(region, iteration, digest) is Err,
            EventView::ReadBack(bytes) => bytes != region.written,
            _ => false,
        },
        action_after(args, region, kind, iteration, event) is Stop ==> {
            let after = region_after(region, kind, iteration, event);
            &&& after.written == region.written
            &&& after.last_write == region.last_write
        },
        event is Failed ==> action_after(args, region, kind, iteration, event) == ActionView::Stop(
            IterationFailure::Device,
        ),
{
}

/// An iteration asks the device about its own region only: it writes there, asks
/// for the digest of exactly that and reads exactly that.
pub proof fn law_iteration_stays_in_its_region(
    args: BenchmarkArgs,
    region: RegionState,
    kind: PhaseKind,
    iteration: usize,
    event: EventView,
)
    requires
        region.wf(),
        kind is Skip ==> region.last_write is Some,
    ensures
        match action_after(args, region, kind, iteration, event) {
            ActionView::Write(address, data) => address == region.address && data.len()
                == region.size,
            ActionView::AskDigest(address, size) => address == region.address && size
                == region.size,
            ActionView::Read(request) => request.offset == region.address && request.size
                == region.size && request.block_size == args.block_size && request.max_in_flight
                == args.max_in_flight,
            _ => true,
        },
{
}

/// A write iteration checks what it has written: the data that it hands out is the
/// pattern of its number, counted from one; that data is pending; and a device that
/// keeps it and reports its digest passes, with the data as what the region holds.
/// A device that reports another digest fails the verification.
pub proof fn law_write_iteration_checks_what_it_wrote(
    args: BenchmarkArgs,
    region: RegionState,
    iteration: usize,
    digest: u128,
)
    requires
        iteration < u32::MAX,
    ensures
        ({
            let begun = region_after(region, PhaseKind::Write, iteration, EventView::Begun);
            let written = region_after(begun, PhaseKind::Write, iteration, EventView::Written);
            let event = EventView::Digest(digest);
            let done = region_after(written, PhaseKind::Write, iteration, event);
            let verdict = action_after(args, written, PhaseKind::Write, iteration, event);
            &&& action_after(args, region, PhaseKind::Write, iteration, EventView::Begun)
                matches ActionView::Write(address, data)
            &&& address == region.address
            &&& data == pattern(region.size as nat, (iteration + 1) as u32)
            &&& begun.pending == Some((iteration, data)) && written.pending == begun.pending
            &&& big_endian(digest) == md5_of(data) ==> verdict is Record && done.written == data
                && done.last_write == Some(iteration)
            &&& big_endian(digest) != md5_of(data) ==> {
                &&& verdict matches ActionView::Stop(IterationFailure::Flash(error))
                &&& error is VerifyFailed
                &&& done.written == region.written
            }
        }),
{
    law_write_seeds_count_from_one(iteration);
}

/// Between the write and its check a write iteration asks for the digest of the
/// whole region; a skip iteration asks for nothing after its write.
pub proof fn law_write_is_followed_by_a_check(
    args: BenchmarkArgs,
    region: RegionState,
    iteration: usize,
)
    ensures
        action_after(args, region, PhaseKind::Write, iteration, EventView::Written)
            == ActionView::AskDigest(region.address, region.size),
        action_after(args, region, PhaseKind::Skip, iteration, EventView::Written) is Record,
        region_after(region, PhaseKind::Write, iteration, EventView::Written) == region,
        region_after(region, PhaseKind::Skip, iteration, EventView::Written) == region,
{
}

/// A skip iteration writes what the region holds, a read iteration reads the whole
/// region with the given packets, and neither changes what the region should hold.
/// Anything else that is read is reported as the comparison says.
pub proof fn law_read_and_skip_keep_the_region(
    args: BenchmarkArgs,
    region: RegionState,
    iteration: usize,
    bytes: Seq<u8>,
)
    ensures
        action_after(args, region, PhaseKind::Skip, iteration, EventView::Begun)
            == ActionView::Write(region.address, region.written),
        action_after(args, region, PhaseKind::Read, iteration, EventView::Begun)
            == ActionView::Read(
            ReadRequest {
                offset: region.address,
                size: region.size,
                block_size: args.block_size,
                max_in_flight: args.max_in_flight,
            },
        ),
        region_after(region, PhaseKind::Skip, iteration, EventView::Begun) == region,
        region_after(region, PhaseKind::Read, iteration, EventView::Begun) == region,
        region_after(region, PhaseKind::Read, iteration, EventView::ReadBack(bytes)) == region,
        bytes != region.written ==> {
            &&& action_after(
                args,
                region,
                PhaseKind::Read,
                iteration,
                EventView::ReadBack(bytes),
            ) matches ActionView::Stop(IterationFailure::Readback(error))
            &&& readback_report(region.address, region.written, bytes) == Err::<(), ReadbackError>(
                error,
            )
        },
{
}

} // verus!
