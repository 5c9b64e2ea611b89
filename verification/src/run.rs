//! The course of a benchmark: its steps and the phases of each size.

use crate::args::{
    args_error, throughput_args_of, throughput_connect_args, valid_args, validate_args, ArgsError,
    BenchmarkArgs, ConnectArgs,
};
use crate::pattern::{generate_pattern, pattern};
use crate::transfer::{read_step_count, step_count};
use vstd::prelude::*;

verus! {

/// What a phase does with the flash region.
#[derive(Debug, Clone, Copy, PartialEq, Eq, Structural)]
pub enum PhaseKind {
    /// Writes a new pattern in each iteration and has the device verify it.
    Write,
    /// Reads the last pattern back and compares it.
    Read,
    /// Writes the last pattern again, which the device may skip.
    Skip,
}

/// How a phase is run and shown.
#[derive(Debug, Clone, Copy)]
pub struct PhaseOptions {
    /// The name in the progress line.
    pub name: &'static str,
    /// Number of steps of one iteration.
    pub steps: usize,
    /// Whether writes may be skipped where the flash already holds the data.
    pub skip_enabled: bool,
}

/// The name of a phase.
pub open spec fn phase_name(kind: PhaseKind) -> Seq<char> {
    match kind {
        PhaseKind::Write => "write"@,
        PhaseKind::Read => "read"@,
        PhaseKind::Skip => "skip"@,
    }
}

/// The options of a phase on a region of `size` bytes.
pub fn phase_options(kind: PhaseKind, size: u32, block_size: u32, use_stub: bool) -> (options:
    PhaseOptions)
    requires
        kind is Read && use_stub ==> block_size > 0,
    ensures
        options.name@ == phase_name(kind),
        options.steps == if kind is Read {
            step_count(size, block_size, use_stub)
        } else {
            1
        },
        options.skip_enabled == (kind is Skip),
        kind is Write ==> options.name@ == "write"@,
        kind is Read ==> options.name@ == "read"@,
        kind is Skip ==> options.name@ == "skip"@,
{
    match kind {
        PhaseKind::Write => PhaseOptions { name: "write", steps: 1, skip_enabled: false },
        PhaseKind::Read => PhaseOptions {
            name: "read",
            steps: read_step_count(size, block_size, use_stub),
            skip_enabled: false,
        },
        PhaseKind::Skip => PhaseOptions { name: "skip", steps: 1, skip_enabled: true },
    }
}

/// How to connect for a phase.
#[derive(Debug, Clone, Copy, PartialEq, Eq, Structural)]
pub struct ConnectPlan {
    /// Connection configuration.
    pub connect_args: ConnectArgs,
    /// Do not verify after writing.
    pub skip_verify: bool,
    /// Write even where the flash already holds the data.
    pub no_skip: bool,
}

/// The connection for a phase: no verification by the flasher, and no skipping
/// unless the phase is about it.
pub fn connect_for_phase(connect_args: &ConnectArgs, skip_enabled: bool) -> (plan: ConnectPlan)
    ensures
        plan == (ConnectPlan {
            connect_args: throughput_args_of(*connect_args),
            skip_verify: true,
            no_skip: !skip_enabled,
        }),
        plan.connect_args.no_stub == connect_args.no_stub,
        plan.connect_args.after is NoReset || plan.connect_args.after is NoResetNoStub,
        plan.connect_args.after is NoReset <==> connect_args.no_stub,
{
    ConnectPlan {
        connect_args: throughput_connect_args(connect_args),
        skip_verify: true,
        no_skip: !skip_enabled,
    }
}

/// The seed of the pattern that an iteration of the write phase writes: the
/// number of the iteration counted from one, as 32 bits.
pub open spec fn write_seed(iteration: usize) -> u32 {
    (iteration as u32 + 1) as u32
}

/// The pattern that an iteration of the write phase writes.
pub fn write_pattern(size: u32, iteration: usize) -> (bytes: Vec<u8>)
    requires
        iteration as u32 + 1 <= u32::MAX,
    ensures
        bytes@ == pattern(size as nat, write_seed(iteration)),
        bytes@ == pattern(size as nat, (iteration as u32 + 1) as u32),
        iteration < u32::MAX ==> bytes@ == pattern(size as nat, (iteration + 1) as u32),
{
    let number: u32 = #[verifier::truncate]
    (iteration as u32);
    generate_pattern(size as usize, number + 1)
}

/// A step of a benchmark.
#[derive(Debug, Clone, Copy, PartialEq, Eq, Structural)]
pub enum RunStep {
    /// Connect once, ask for chip and baud rate, and show them.
    InspectDevice,
    /// Measure the time that a connection takes, for the time with this number.
    TimeConnection(usize),
    /// Run a phase on the size with this index.
    RunPhase(usize, PhaseKind),
    /// Show the results.
    Report,
}

/// Whether a benchmark with these arguments has such a step.
pub open spec fn is_step_of(args: BenchmarkArgs, step: RunStep) -> bool {
    match step {
        RunStep::TimeConnection(i) => i < args.iterations,
        RunStep::RunPhase(k, _) => k < args.sizes@.len(),
        _ => true,
    }
}

/// The first step that deals with the size with index `k` or a later one.
pub open spec fn first_step_from_size(args: BenchmarkArgs, k: nat) -> RunStep {
    if k < args.sizes@.len() {
        RunStep::RunPhase(k as usize, PhaseKind::Write)
    } else {
        RunStep::Report
    }
}

/// The step that follows.
pub open spec fn step_after(args: BenchmarkArgs, step: RunStep) -> RunStep {
    match step {
        RunStep::InspectDevice => if args.iterations > 0 {
            RunStep::TimeConnection(0)
        } else {
            first_step_from_size(args, 0)
        },
        RunStep::TimeConnection(i) => if i + 1 < args.iterations {
            RunStep::TimeConnection((i + 1) as usize)
        } else {
            first_step_from_size(args, 0)
        },
        RunStep::RunPhase(k, PhaseKind::Write) => RunStep::RunPhase(k, PhaseKind::Read),
        RunStep::RunPhase(k, PhaseKind::Read) => RunStep::RunPhase(k, PhaseKind::Skip),
        RunStep::RunPhase(k, PhaseKind::Skip) => first_step_from_size(args, (k + 1) as nat),
        RunStep::Report => RunStep::Report,
    }
}

/// Starts a benchmark: refuses arguments that are not valid before anything is
/// done with the device.
pub fn first_step(args: &BenchmarkArgs) -> (first: Result<RunStep, ArgsError>)
    ensures
        first == match args_error(*args) {
            Some(error) => Err::<RunStep, ArgsError>(error),
            None => Ok(RunStep::InspectDevice),
        },
        first is Ok <==> valid_args(*args),
        first matches Ok(step) ==> is_step_of(*args, step) && step == nth_step(*args, 0),
{
    match validate_args(args) {
        Ok(()) => Ok(RunStep::InspectDevice),
        Err(error) => Err(error),
    }
}

/// The step that follows `step`. The first one is that of [`first_step`].
pub fn next_step(args: &BenchmarkArgs, step: RunStep) -> (next: RunStep)
    requires
        is_step_of(*args, step),
    ensures
        next == step_after(*args, step),
        is_step_of(*args, next),
{
    let size_count: usize = args.sizes.len();
    let size_index: usize = match step {
        RunStep::InspectDevice => {
            if args.iterations > 0 {
                return RunStep::TimeConnection(0);
            }
            0
        },
        RunStep::TimeConnection(i) => {
            if i + 1 < args.iterations {
                return RunStep::TimeConnection(i + 1);
            }
            0
        },
        RunStep::RunPhase(k, PhaseKind::Write) => {
            return RunStep::RunPhase(k, PhaseKind::Read);
        },
        RunStep::RunPhase(k, PhaseKind::Read) => {
            return RunStep::RunPhase(k, PhaseKind::Skip);
        },
        RunStep::RunPhase(k, PhaseKind::Skip) => k + 1,
        RunStep::Report => {
            return RunStep::Report;
        },
    };
    if size_index < size_count {
        RunStep::RunPhase(size_index, PhaseKind::Write)
    } else {
        RunStep::Report
    }
}

/// A part of the output.
#[derive(Debug, Clone, Copy, PartialEq, Eq, Structural)]
pub enum Section {
    /// The device and the arguments.
    Header,
    /// The connection times.
    Connection,
    /// The transfer rates.
    Flash,
}

/// The part of the output that is shown at the end of a step, if any: the
/// connection times follow the last connection that is timed.
pub open spec fn section_of(args: BenchmarkArgs, step: RunStep) -> Option<Section> {
    match step {
        RunStep::InspectDevice => Some(Section::Header),
        RunStep::TimeConnection(i) => if i + 1 == args.iterations {
            Some(Section::Connection)
        } else {
            None
        },
        RunStep::RunPhase(..) => None,
        RunStep::Report => Some(Section::Flash),
    }
}

/// The part of the output to show at the end of a step.
pub fn section_after(args: &BenchmarkArgs, step: RunStep) -> (section: Option<Section>)
    requires
        is_step_of(*args, step),
    ensures
        section == section_of(*args, step),
{
    match step {
        RunStep::InspectDevice => Some(Section::Header),
        RunStep::TimeConnection(i) => if i + 1 == args.iterations {
            Some(Section::Connection)
        } else {
            None
        },
        RunStep::RunPhase(..) => None,
        RunStep::Report => Some(Section::Flash),
    }
}

/// The step number `n` of a benchmark, counted from zero.
pub open spec fn nth_step(args: BenchmarkArgs, n: nat) -> RunStep
    decreases n,
{
    if n == 0 {
        RunStep::InspectDevice
    } else {
        step_after(args, nth_step(args, (n - 1) as nat))
    }
}

/// The phases of a size, in order.
pub open spec fn nth_phase(n: nat) -> PhaseKind {
    if n == 0 {
        PhaseKind::Write
    } else if n == 1 {
        PhaseKind::Read
    } else {
        PhaseKind::Skip
    }
}

/// A benchmark inspects the device once, then times as many connections as there
/// are iterations, then runs write, read and skip on each size in turn, and then
/// reports.
pub proof fn law_course_of_a_benchmark(args: BenchmarkArgs, n: nat)
    ensures
        ({
            let before = 1 + args.iterations;
            let phases = 3 * args.sizes@.len();
            nth_step(args, n) == if n == 0 {
                RunStep::InspectDevice
            } else if n < before {
                RunStep::TimeConnection((n - 1) as usize)
            } else if n < before + phases {
                RunStep::RunPhase(
                    ((n - before) / 3) as usize,
                    nth_phase(((n - before) % 3) as nat),
                )
            } else {
                RunStep::Report
            }
        }),
        n > args.iterations && n <= args.iterations + 3 * args.sizes@.len() ==> {
            &&& nth_step(args, n) matches RunStep::RunPhase(k, kind)
            &&& k == (n - 1 - args.iterations) / 3
            &&& kind is Write <==> (n - 1 - args.iterations) % 3 == 0
            &&& kind is Read <==> (n - 1 - args.iterations) % 3 == 1
            &&& kind is Skip <==> (n - 1 - args.iterations) % 3 == 2
        },
    decreases n,
{
    if n > 0 {
        law_course_of_a_benchmark(args, (n - 1) as nat);
        assert(args.sizes@.len() == args.sizes.len());
    }
}

/// No step is left out or repeated: the step with a number has it alone, up to
/// the report at the end.
pub proof fn law_steps_are_distinct(args: BenchmarkArgs, m: nat, n: nat)
    requires
        m < n,
        nth_step(args, m) !is Report,
    ensures
        nth_step(args, m) != nth_step(args, n),
{
    law_course_of_a_benchmark(args, m);
    law_course_of_a_benchmark(args, n);
    assert(args.sizes@.len() == args.sizes.len());
}

/// The output comes in order and each part once: the header at the first step,
/// the connection times when all connections are timed and no phase has begun,
/// the transfer rates at the end.
pub proof fn law_output_order(args: BenchmarkArgs, n: nat)
    requires
        args.iterations > 0,
    ensures
        section_of(args, nth_step(args, n)) == Some(Section::Header) <==> n == 0,
        section_of(args, nth_step(args, n)) == Some(Section::Connection) <==> n == args.iterations,
        section_of(args, nth_step(args, n)) == Some(Section::Flash) <==> n >= 1 + args.iterations
            + 3 * args.sizes@.len(),
{
    law_course_of_a_benchmark(args, n);
}

/// The pattern that the read and skip phases expect is that of the last write
/// iteration; its seed is the number of iterations, as 32 bits.
pub proof fn law_last_pattern(iterations: usize, size: nat)
    requires
        iterations > 0,
    ensures
        pattern(size, write_seed((iterations - 1) as usize)) == pattern(size, iterations as u32),
{
    let last = (iterations - 1) as usize;
    assert((last as u32 + 1) as u32 == (last + 1) as u32) by (bit_vector);
}

/// Two iterations of one phase write patterns of different seeds, unless they are
/// a multiple of two to the 32 apart.
pub proof fn law_iterations_use_different_seeds(i: usize, j: usize)
    requires
        i as u32 != j as u32,
    ensures
        i != j,
        write_seed(i) != write_seed(j),
{
    let a = i as u32;
    let b = j as u32;
    assert((a + 1) as u32 != (b + 1) as u32) by (bit_vector)
        requires
            a != b,
    ;
}

/// The write iterations count their patterns from one, as 32 bits.
pub proof fn law_write_seeds_count_from_one(iteration: usize)
    ensures
        iteration < u32::MAX ==> write_seed(iteration) == iteration + 1,
        (iteration + 1 - write_seed(iteration)) % 0x1_0000_0000 == 0,
{
    let wide = iteration as u64;
    assert((wide as u32 + 1) as u32 == (wide + 1) % 0x1_0000_0000) by (bit_vector);
    assert(wide as u32 == iteration as u32) by (bit_vector)
        requires
            wide == iteration as u64,
    ;
}

/// The progress line names the three phases differently: `write`, `read` and
/// `skip`.
pub proof fn law_phase_names(kind: PhaseKind)
    ensures
        phase_name(kind) == "write"@ <==> kind is Write,
        phase_name(kind) == "read"@ <==> kind is Read,
        phase_name(kind) == "skip"@ <==> kind is Skip,
        phase_name(kind).len() <= 5,
{
    reveal_strlit("write");
    reveal_strlit("read");
    reveal_strlit("skip");
    assert("write"@.len() == 5 && "read"@.len() == 4 && "skip"@.len() == 4);
    assert("read"@[0] == 'r' && "skip"@[0] == 's');
}

} // verus!
