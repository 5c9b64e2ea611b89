//! The flash region of one size: what is written to it and where, and what it
//! should hold.

use crate::args::{is_largest, BenchmarkArgs};
use crate::digest::{flash_verdict, md5_of, verify_flash_contents};
use crate::flash::FlashError;
use crate::pattern::pattern;
use crate::readback::{mismatch_has_address, readback_report, verify_readback, ReadbackError};
use crate::run::{
    law_course_of_a_benchmark, law_last_pattern, law_write_seeds_count_from_one, nth_step,
    write_pattern, write_seed, PhaseKind, RunStep,
};
use crate::transfer::ReadRequest;
use vstd::prelude::*;
use vstd::slice::slice_to_vec;

verus! {

/// A write to the flash.
#[derive(Debug, PartialEq, Eq)]
pub struct FlashWrite {
    /// Where the first byte goes.
    pub address: u32,
    /// The bytes.
    pub data: Vec<u8>,
}

/// What a [`Region`] holds.
pub struct RegionState {
    /// Address of the first byte.
    pub address: u32,
    /// Number of bytes.
    pub size: u32,
    /// The last write iteration whose data the device has verified.
    pub last_write: Option<usize>,
    /// The data of that iteration; empty before the first.
    pub written: Seq<u8>,
    /// The write iteration that is under way, with its data.
    pub pending: Option<(usize, Seq<u8>)>,
}

impl RegionState {
    /// The written data is the pattern of the last verified write iteration, and
    /// the pending data that of the iteration under way.
    pub open spec fn wf(self) -> bool {
        &&& self.written == match self.last_write {
            Some(iteration) => pattern(self.size as nat, write_seed(iteration)),
            None => Seq::<u8>::empty(),
        }
        &&& self.pending matches Some((iteration, data)) ==> data == pattern(
            self.size as nat,
            write_seed(iteration),
        )
    }

    /// Nothing is written yet.
    pub open spec fn initial(address: u32, size: u32) -> RegionState {
        RegionState { address, size, last_write: None, written: Seq::empty(), pending: None }
    }

    /// A write iteration is under way.
    pub open spec fn started(self, iteration: usize) -> RegionState {
        RegionState {
            pending: Some((iteration, pattern(self.size as nat, write_seed(iteration)))),
            ..self
        }
    }

    /// No write iteration is under way any more.
    pub open spec fn settled(self) -> RegionState {
        RegionState { pending: None, ..self }
    }

    /// A write iteration is verified.
    pub open spec fn completed(self, iteration: usize) -> RegionState {
        RegionState {
            last_write: Some(iteration),
            written: pattern(self.size as nat, write_seed(iteration)),
            ..self.settled()
        }
    }

    /// The address and the data of the write that an iteration of a phase makes:
    /// a new pattern in the write phase, the last one again in the skip phase,
    /// and none in the read phase.
    pub open spec fn write(self, kind: PhaseKind, iteration: usize) -> Option<(u32, Seq<u8>)> {
        match kind {
            PhaseKind::Write => Some(
                (self.address, pattern(self.size as nat, write_seed(iteration))),
            ),
            PhaseKind::Read => None,
            PhaseKind::Skip => Some((self.address, self.written)),
        }
    }
}

/// The flash region of one size.
#[derive(Debug)]
pub struct Region {
    address: u32,
    size: u32,
    last_write: Option<usize>,
    written: Vec<u8>,
    pending: Option<(usize, Vec<u8>)>,
}

impl View for FlashWrite {
    type V = (u32, Seq<u8>);

    /// The address and the bytes.
    open spec fn view(&self) -> (u32, Seq<u8>) {
        (self.address, self.data@)
    }
}

impl View for Region {
    type V = RegionState;

    closed spec fn view(&self) -> RegionState {
        RegionState {
            address: self.address,
            size: self.size,
            last_write: self.last_write,
            written: self.written@,
            pending: match self.pending {
                Some((iteration, data)) => Some((iteration, data@)),
                None => None,
            },
        }
    }
}

impl Region {
    /// The region of the size with index `index`.
    pub fn new(args: &BenchmarkArgs, index: usize) -> (region: Region)
        requires
            index < args.sizes@.len(),
        ensures
            region@ == RegionState::initial(args.address, args.sizes@[index as int]),
            region@.wf(),
            region@.address == args.address,
            region@.size == args.sizes@[index as int],
            region@.written.len() == 0,
            region@.last_write is None,
            region@.pending is None,
    {
        Region {
            address: args.address,
            size: args.sizes[index],
            last_write: None,
            written: Vec::new(),
            pending: None,
        }
    }

    /// The region on which a phase of the size with index `index` runs: a new one
    /// in the write phase, then the one that was kept.
    pub fn for_phase(args: &BenchmarkArgs, kept: Option<Region>, index: usize, kind: PhaseKind) -> (
    region: Region)
        requires
            index < args.sizes@.len(),
            kind is Write || kept is Some,
        ensures
            kind is Write ==> region@ == RegionState::initial(
                args.address,
                args.sizes@[index as int],
            ) && region@.wf(),
            kind is Write ==> {
                &&& region@.address == args.address
                &&& region@.size == args.sizes@[index as int]
                &&& region@.written.len() == 0
            },
            kind !is Write ==> region == kept->0,
    {
        match kind {
            PhaseKind::Write => Region::new(args, index),
            _ => kept.unwrap(),
        }
    }

    /// What is kept for the next phase: the skip phase is the last one of a size.
    pub fn keep(self, kind: PhaseKind) -> (kept: Option<Region>)
        ensures
            kept == if kind is Skip {
                None
            } else {
                Some(self)
            },
    {
        match kind {
            PhaseKind::Skip => None,
            _ => Some(self),
        }
    }

    /// The write that an iteration of a phase makes.
    pub fn planned_write(&self, kind: PhaseKind, iteration: usize) -> (planned: Option<FlashWrite>)
        requires
            kind is Write ==> iteration as u32 + 1 <= u32::MAX,
        ensures
            planned is Some <==> self@.write(kind, iteration) is Some,
            planned matches Some(write) ==> write@ == self@.write(kind, iteration)->0,
            planned is Some <==> kind !is Read,
            planned matches Some(write) ==> {
                &&& write.address == self@.address
                &&& kind is Write ==> write.data@ == pattern(
                    self@.size as nat,
                    (iteration as u32 + 1) as u32,
                )
                &&& kind is Skip ==> write.data@ == self@.written
            },
    {
        match kind {
            PhaseKind::Write => Some(
                FlashWrite { address: self.address, data: write_pattern(self.size, iteration) },
            ),
            PhaseKind::Read => None,
            PhaseKind::Skip => Some(
                FlashWrite {
                    address: self.address,
                    data: slice_to_vec(self.written.as_slice()),
                },
            ),
        }
    }

    /// Notes that a write iteration is under way and writes `bytes`.
    pub fn start_write(&mut self, iteration: usize, bytes: Vec<u8>)
        requires
            bytes@ == pattern(old(self)@.size as nat, write_seed(iteration)),
        ensures
            final(self)@ == old(self)@.started(iteration),
            old(self)@.wf() ==> final(self)@.wf(),
            final(self)@ == (RegionState { pending: Some((iteration, bytes@)), ..old(self)@ }),
    {
        self.pending = Some((iteration, bytes));
    }

    /// Ends the write iteration under way, given the digest that the device
    /// reports for the region.
    pub fn settle_write(&mut self, flash_md5: u128) -> (result: Result<(), FlashError>)
        requires
            old(self)@.wf(),
            old(self)@.pending is Some,
        ensures
            ({
                let (iteration, data) = old(self)@.pending->0;
                &&& result == flash_verdict(flash_md5, md5_of(data))
                &&& final(self)@ == if result is Ok {
                    old(self)@.completed(iteration)
                } else {
                    old(self)@.settled()
                }
            }),
            final(self)@.wf(),
            final(self)@.pending is None,
            final(self)@.address == old(self)@.address && final(self)@.size == old(self)@.size,
            result is Ok ==> final(self)@.written == (old(self)@.pending->0).1,
            result is Ok ==> final(self)@.last_write == Some((old(self)@.pending->0).0),
            result is Err ==> final(self)@.written == old(self)@.written,
            result is Err ==> final(self)@.last_write == old(self)@.last_write,
    {
        let (iteration, bytes) = self.pending.take().unwrap();
        self.complete_write(iteration, bytes, flash_md5)
    }

    /// Ends a write iteration that wrote `bytes` with the given verdict of the
    /// device. The region holds `bytes` from then on if it is good; else nothing
    /// changes.
    pub fn record_write(
        &mut self,
        iteration: usize,
        bytes: Vec<u8>,
        verdict: Result<(), FlashError>,
    ) -> (result: Result<(), FlashError>)
        requires
            bytes@ == pattern(old(self)@.size as nat, write_seed(iteration)),
        ensures
            result == verdict,
            verdict is Ok ==> final(self)@ == old(self)@.completed(iteration),
            verdict is Ok ==> final(self)@.wf(),
            verdict is Err ==> *final(self) == *old(self),
            verdict is Ok ==> final(self)@ == (RegionState {
                address: old(self)@.address,
                size: old(self)@.size,
                last_write: Some(iteration),
                written: bytes@,
                pending: None,
            }),
    {
        if verdict.is_ok() {
            self.pending = None;
            self.last_write = Some(iteration);
            self.written = bytes;
        }
        verdict
    }

    /// Ends a write iteration that wrote `bytes`, given the digest that the
    /// device reports for the region. The region holds `bytes` from then on if
    /// that is their digest; else nothing changes.
    pub fn complete_write(&mut self, iteration: usize, bytes: Vec<u8>, flash_md5: u128) -> (result:
        Result<(), FlashError>)
        requires
            bytes@ == pattern(old(self)@.size as nat, write_seed(iteration)),
        ensures
            result == flash_verdict(flash_md5, md5_of(bytes@)),
            result is Ok ==> final(self)@ == old(self)@.completed(iteration),
            result is Ok ==> final(self)@.wf(),
            result is Err ==> *final(self) == *old(self),
            result is Ok ==> final(self)@ == (RegionState {
                address: old(self)@.address,
                size: old(self)@.size,
                last_write: Some(iteration),
                written: bytes@,
                pending: None,
            }),
    {
        let verdict = verify_flash_contents(flash_md5, bytes.as_slice());
        self.record_write(iteration, bytes, verdict)
    }

    /// What to read back: the whole region.
    pub fn read_request(&self, block_size: u32, max_in_flight: u32) -> (request: ReadRequest)
        ensures
            request == (ReadRequest {
                offset: self@.address,
                size: self@.size,
                block_size,
                max_in_flight,
            }),
    {
        ReadRequest { offset: self.address, size: self.size, block_size, max_in_flight }
    }

    /// Compares what was read back with what was written.
    pub fn check_readback(&self, readback: &[u8]) -> (result: Result<(), ReadbackError>)
        requires
            mismatch_has_address(self@.address, self@.written, readback@),
        ensures
            result == readback_report(self@.address, self@.written, readback@),
            result is Ok <==> readback@ == self@.written,
    {
        verify_readback(self.address, self.written.as_slice(), readback)
    }

    /// Address of the first byte.
    pub fn address(&self) -> (address: u32)
        ensures
            address == self@.address,
    {
        self.address
    }

    /// Number of bytes.
    pub fn size(&self) -> (size: u32)
        ensures
            size == self@.size,
    {
        self.size
    }

    /// The data of the last verified write iteration.
    pub fn written(&self) -> (bytes: &[u8])
        ensures
            bytes@ == self@.written,
    {
        self.written.as_slice()
    }
}

/// A region after the first `count` write iterations, all verified.
pub open spec fn after_writes(region: RegionState, count: nat) -> RegionState
    decreases count,
{
    if count == 0 {
        region
    } else {
        after_writes(region, (count - 1) as nat).completed((count - 1) as usize)
    }
}

/// At the end of the write phase the region holds the pattern whose seed is the
/// number of iterations, as 32 bits. The read phase passes exactly on that, and
/// the skip phase writes exactly that.
pub proof fn law_region_after_the_write_phase(
    region: RegionState,
    iterations: usize,
    readback: Seq<u8>,
    iteration: usize,
)
    requires
        iterations > 0,
    ensures
        ({
            let held = pattern(region.size as nat, iterations as u32);
            let done = after_writes(region, iterations as nat);
            &&& done.wf()
            &&& done.written == held
            &&& done.address == region.address && done.size == region.size
            &&& readback_report(done.address, done.written, readback) is Ok <==> readback == held
            &&& done.write(PhaseKind::Skip, iteration) == Some((region.address, held))
        }),
{
    lemma_writes_keep_the_place(region, (iterations - 1) as nat);
    law_last_pattern(iterations, region.size as nat);
}

/// Writing changes neither the place nor the size of a region.
pub proof fn lemma_writes_keep_the_place(region: RegionState, count: nat)
    ensures
        after_writes(region, count).address == region.address,
        after_writes(region, count).size == region.size,
    decreases count,
{
    if count > 0 {
        lemma_writes_keep_the_place(region, (count - 1) as nat);
    }
}

/// The region on which the phase `kind` of the size with index `k` runs, given the
/// one that was kept.
pub open spec fn region_for_phase(
    args: BenchmarkArgs,
    kept: Option<RegionState>,
    k: int,
    kind: PhaseKind,
) -> RegionState {
    if kind is Write {
        RegionState::initial(args.address, args.sizes@[k])
    } else {
        kept->0
    }
}

/// The region that is kept after `n` steps of a benchmark in which no iteration
/// fails.
pub open spec fn kept_after(args: BenchmarkArgs, n: nat) -> Option<RegionState>
    decreases n,
{
    if n == 0 {
        None
    } else {
        let kept = kept_after(args, (n - 1) as nat);
        match nth_step(args, (n - 1) as nat) {
            RunStep::RunPhase(k, kind) => {
                let region = region_for_phase(args, kept, k as int, kind);
                match kind {
                    PhaseKind::Write => Some(after_writes(region, args.iterations as nat)),
                    PhaseKind::Read => Some(region),
                    PhaseKind::Skip => None,
                }
            },
            _ => kept,
        }
    }
}

/// The phases of a size share its region: the write phase starts with an empty
/// one, and the read and skip phases get what the write phase of the same size
/// has left, the pattern of its last iteration.
pub proof fn law_phases_share_the_region(args: BenchmarkArgs, n: nat)
    requires
        args.iterations > 0,
        nth_step(args, n) is RunPhase,
    ensures
        ({
            let (k, kind) = (nth_step(args, n)->RunPhase_0, nth_step(args, n)->RunPhase_1);
            let start = RegionState::initial(args.address, args.sizes@[k as int]);
            let region = region_for_phase(args, kept_after(args, n), k as int, kind);
            &&& kind !is Write ==> kept_after(args, n) is Some
            &&& region == if kind is Write {
                start
            } else {
                after_writes(start, args.iterations as nat)
            }
            &&& region.wf()
            &&& region.written == if kind is Write {
                Seq::empty()
            } else {
                pattern(args.sizes@[k as int] as nat, args.iterations as u32)
            }
        }),
    decreases n,
{
    law_course_of_a_benchmark(args, n);
    let k = nth_step(args, n)->RunPhase_0;
    let start = RegionState::initial(args.address, args.sizes@[k as int]);
    law_region_after_the_write_phase(start, args.iterations, Seq::empty(), 0);
    if nth_step(args, n)->RunPhase_1 !is Write {
        law_course_of_a_benchmark(args, (n - 1) as nat);
        law_phases_share_the_region(args, (n - 1) as nat);
    }
}

/// Every write of a benchmark lies in the region that the header announces: it
/// starts at the given address and ends no later than the largest size does.
/// Once a pattern is written, each write covers its size exactly.
pub proof fn law_writes_stay_in_the_region(
    args: BenchmarkArgs,
    largest: u32,
    k: int,
    writes: nat,
    kind: PhaseKind,
    iteration: usize,
)
    requires
        is_largest(args.sizes@, largest),
        0 <= k < args.sizes@.len(),
        writes <= usize::MAX,
    ensures
        ({
            let region = after_writes(
                RegionState::initial(args.address, args.sizes@[k]),
                writes,
            );
            region.write(kind, iteration) matches Some((address, data)) ==> {
                &&& address == args.address
                &&& address + data.len() <= args.address + largest
                &&& kind is Write || writes > 0 ==> data.len() == args.sizes@[k]
            }
        }),
{
    let start = RegionState::initial(args.address, args.sizes@[k]);
    lemma_writes_keep_the_place(start, writes);
    if writes > 0 {
        law_region_after_the_write_phase(start, writes as usize, Seq::empty(), iteration);
    }
}

/// Each write iteration has its own data: the pattern of its number, counted from
/// one. That is what it hands out to be written, what is pending from then on, and
/// what the region holds when it is done. Nothing else of the region changes.
pub proof fn law_write_iteration_has_one_pattern(region: RegionState, iteration: usize)
    requires
        iteration < u32::MAX,
    ensures
        ({
            let data = pattern(region.size as nat, (iteration + 1) as u32);
            let started = region.started(iteration);
            let completed = started.completed(iteration);
            &&& region.write(PhaseKind::Write, iteration) == Some((region.address, data))
            &&& started.pending == Some((iteration, data))
            &&& started.written == region.written && started.last_write == region.last_write
            &&& completed.written == data
            &&& completed.last_write == Some(iteration)
            &&& completed.pending is None
            &&& started.address == region.address && completed.address == region.address
            &&& started.size == region.size && completed.size == region.size
        }),
{
    law_write_seeds_count_from_one(iteration);
}

/// The read phase writes nothing, and the skip phase writes what the region holds,
/// where it holds it, in every iteration.
pub proof fn law_other_phases_write_nothing_new(region: RegionState, iteration: usize)
    ensures
        region.write(PhaseKind::Read, iteration) is None,
        region.write(PhaseKind::Skip, iteration) == Some((region.address, region.written)),
        region.settled().written == region.written,
        region.settled().last_write == region.last_write,
        region.settled().address == region.address && region.settled().size == region.size,
        region.settled().pending is None,
{
}

/// A new region is the one of the arguments and holds nothing.
pub proof fn law_new_region_is_empty(address: u32, size: u32)
    ensures
        RegionState::initial(address, size).address == address,
        RegionState::initial(address, size).size == size,
        RegionState::initial(address, size).written.len() == 0,
        RegionState::initial(address, size).last_write is None,
        RegionState::initial(address, size).pending is None,
{
}

} // verus!
