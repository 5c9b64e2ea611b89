//! The arguments of a benchmark.

use crate::text::{digits, hex, hex_text};
use vstd::prelude::*;

verus! {

/// The size of a flash sector in bytes.
pub const FLASH_SECTOR_SIZE: u32 = 0x1000;

/// What happens to the chip when a connection is given up.
#[derive(Debug, Clone, Copy, PartialEq, Eq, Structural)]
pub enum ResetAfterOperation {
    /// The chip is reset into its normal boot sequence.
    HardReset,
    /// The chip stays in the serial bootloader.
    NoReset,
    /// The chip stays in the flasher stub.
    NoResetNoStub,
    /// The chip is reset by its watchdog.
    WatchdogReset,
}

/// What a benchmark reads of the connection configuration.
#[derive(Debug, Clone, Copy, PartialEq, Eq, Structural)]
pub struct ConnectArgs {
    /// The reset at the end.
    pub after: ResetAfterOperation,
    /// Work with the ROM loader, without the flasher stub.
    pub no_stub: bool,
}

impl ConnectArgs {
    /// Whether the flasher stub is used.
    pub fn use_stub(&self) -> (used: bool)
        ensures
            used == !self.no_stub,
    {
        !self.no_stub
    }
}

/// The arguments of a benchmark.
#[derive(Debug, Clone)]
pub struct BenchmarkArgs {
    /// Connection configuration.
    pub connect_args: ConnectArgs,
    /// Start address of the scratch flash region. The benchmark overwrites it.
    pub address: u32,
    /// The region sizes to benchmark.
    pub sizes: Vec<u32>,
    /// Number of iterations per benchmark.
    pub iterations: usize,
    /// Size of a fast-read packet.
    pub block_size: u32,
    /// Number of fast-read packets in flight.
    pub max_in_flight: u32,
}

/// Why arguments are refused.
#[derive(Debug, Clone, Copy, PartialEq, Eq, Structural)]
pub enum ArgsError {
    /// There are no iterations.
    ZeroIterations,
    /// The packets are empty.
    ZeroBlockSize,
    /// No packet may be in flight.
    ZeroMaxInFlight,
    /// The address is not at the start of a sector.
    MisalignedAddress,
    /// A region is empty.
    ZeroSize,
    /// A region of this size does not end at the end of a sector.
    MisalignedSize(u32),
}

/// What is wrong with one region size, if anything.
pub open spec fn size_error(size: u32) -> Option<ArgsError> {
    if size == 0 {
        Some(ArgsError::ZeroSize)
    } else if size % FLASH_SECTOR_SIZE != 0 {
        Some(ArgsError::MisalignedSize(size))
    } else {
        None
    }
}

/// What is wrong with the first bad one of several region sizes, if any.
pub open spec fn sizes_error(sizes: Seq<u32>) -> Option<ArgsError>
    decreases sizes.len(),
{
    if sizes.len() == 0 {
        None
    } else if size_error(sizes.first()) is Some {
        size_error(sizes.first())
    } else {
        sizes_error(sizes.drop_first())
    }
}

/// What is wrong with the arguments first, if anything.
pub open spec fn args_error(args: BenchmarkArgs) -> Option<ArgsError> {
    if args.iterations == 0 {
        Some(ArgsError::ZeroIterations)
    } else if args.block_size == 0 {
        Some(ArgsError::ZeroBlockSize)
    } else if args.max_in_flight == 0 {
        Some(ArgsError::ZeroMaxInFlight)
    } else if args.address % FLASH_SECTOR_SIZE != 0 {
        Some(ArgsError::MisalignedAddress)
    } else {
        sizes_error(args.sizes@)
    }
}

/// Whether a benchmark can be run with these arguments.
pub open spec fn valid_args(args: BenchmarkArgs) -> bool {
    &&& args.iterations > 0
    &&& args.block_size > 0
    &&& args.max_in_flight > 0
    &&& args.address % FLASH_SECTOR_SIZE == 0
    &&& forall|i: int|
        0 <= i < args.sizes@.len() ==> #[trigger] args.sizes@[i] > 0 && args.sizes@[i]
            % FLASH_SECTOR_SIZE == 0
}

proof fn lemma_sizes_error(sizes: Seq<u32>)
    ensures
        sizes_error(sizes) is None <==> forall|i: int|
            0 <= i < sizes.len() ==> #[trigger] sizes[i] > 0 && sizes[i] % FLASH_SECTOR_SIZE == 0,
    decreases sizes.len(),
{
    if sizes.len() > 0 {
        let rest = sizes.drop_first();
        lemma_sizes_error(rest);
        assert(forall|i: int| 0 <= i < rest.len() ==> rest[i] == sizes[i + 1]);
        assert(forall|i: int| 0 < i < sizes.len() ==> sizes[i] == rest[i - 1]);
        assert(sizes[0] == sizes.first());
    }
}

/// Checks the arguments of a benchmark.
pub fn validate_args(args: &BenchmarkArgs) -> (result: Result<(), ArgsError>)
    ensures
        result == match args_error(*args) {
            Some(error) => Err::<(), ArgsError>(error),
            None => Ok(()),
        },
        result is Ok <==> valid_args(*args),
        result is Ok <==> {
            &&& args.iterations > 0
            &&& args.block_size > 0
            &&& args.max_in_flight > 0
            &&& args.address % 0x1000 == 0
            &&& forall|i: int|
                0 <= i < args.sizes@.len() ==> #[trigger] args.sizes@[i] > 0 && args.sizes@[i]
                    % 0x1000 == 0
        },
{
    proof {
        lemma_sizes_error(args.sizes@);
    }
    if args.iterations == 0 {
        return Err(ArgsError::ZeroIterations);
    }
    if args.block_size == 0 {
        return Err(ArgsError::ZeroBlockSize);
    }
    if args.max_in_flight == 0 {
        return Err(ArgsError::ZeroMaxInFlight);
    }
    if !args.address.is_multiple_of(FLASH_SECTOR_SIZE) {
        return Err(ArgsError::MisalignedAddress);
    }
    let mut i: usize = 0;
    assert(args.sizes@.skip(0) =~= args.sizes@);
    while i < args.sizes.len()
        invariant
            i <= args.sizes@.len(),
            sizes_error(args.sizes@) == sizes_error(args.sizes@.skip(i as int)),
            args_error(*args) == sizes_error(args.sizes@),
            args_error(*args) is None <==> valid_args(*args),
        decreases args.sizes@.len() - i,
    {
        let size: u32 = args.sizes[i];
        assert(args.sizes@.skip(i as int).first() == size);
        assert(args.sizes@.skip(i as int).drop_first() =~= args.sizes@.skip(i + 1));
        if size == 0 {
            return Err(ArgsError::ZeroSize);
        }
        if size % FLASH_SECTOR_SIZE != 0 {
            return Err(ArgsError::MisalignedSize(size));
        }
        i = i + 1;
    }
    Ok(())
}

/// The text of an argument error.
pub open spec fn args_message(error: ArgsError) -> Seq<char> {
    match error {
        ArgsError::ZeroIterations => "`--iterations` must be greater than zero"@,
        ArgsError::ZeroBlockSize => "`--block-size` must be greater than zero"@,
        ArgsError::ZeroMaxInFlight => "`--max-in-flight` must be greater than zero"@,
        ArgsError::MisalignedAddress => {
            "benchmark address must be aligned to 0x"@ + hex(FLASH_SECTOR_SIZE as nat, 0)
                + " bytes"@
        },
        ArgsError::ZeroSize => "benchmark sizes must be greater than zero"@,
        ArgsError::MisalignedSize(size) => {
            "benchmark sizes must be aligned to 0x"@ + hex(FLASH_SECTOR_SIZE as nat, 0)
                + " bytes: 0x"@ + hex(size as nat, 0)
        },
    }
}

impl ArgsError {
    /// The message for the user.
    pub fn message(&self) -> (text: String)
        ensures
            text@ == args_message(*self),
    {
        let mut out = String::new();
        match self {
            ArgsError::ZeroIterations => {
                out.append("`--iterations` must be greater than zero");
            },
            ArgsError::ZeroBlockSize => {
                out.append("`--block-size` must be greater than zero");
            },
            ArgsError::ZeroMaxInFlight => {
                out.append("`--max-in-flight` must be greater than zero");
            },
            ArgsError::MisalignedAddress => {
                out.append("benchmark address must be aligned to 0x");
                out.append(hex_text(FLASH_SECTOR_SIZE as u64, 0).as_str());
                out.append(" bytes");
            },
            ArgsError::ZeroSize => {
                out.append("benchmark sizes must be greater than zero");
            },
            ArgsError::MisalignedSize(size) => {
                out.append("benchmark sizes must be aligned to 0x");
                out.append(hex_text(FLASH_SECTOR_SIZE as u64, 0).as_str());
                out.append(" bytes: 0x");
                out.append(hex_text(*size as u64, 0).as_str());
            },
        }
        assert(out@ =~= args_message(*self));
        out
    }
}

/// Whether `largest` is the largest of `sizes`, or one sector if there are none.
pub open spec fn is_largest(sizes: Seq<u32>, largest: u32) -> bool {
    if sizes.len() == 0 {
        largest == FLASH_SECTOR_SIZE
    } else {
        &&& sizes.contains(largest)
        &&& forall|i: int| 0 <= i < sizes.len() ==> sizes[i] <= largest
    }
}

/// The largest region that the benchmark overwrites.
pub fn max_size(args: &BenchmarkArgs) -> (largest: u32)
    ensures
        is_largest(args.sizes@, largest),
        args.sizes@.len() == 0 ==> largest == 0x1000,
        args.sizes@.len() > 0 ==> args.sizes@.contains(largest),
        forall|i: int| 0 <= i < args.sizes@.len() ==> #[trigger] args.sizes@[i] <= largest,
{
    if args.sizes.len() == 0 {
        return FLASH_SECTOR_SIZE;
    }
    let mut largest: u32 = args.sizes[0];
    let mut i: usize = 1;
    while i < args.sizes.len()
        invariant
            1 <= i <= args.sizes@.len(),
            args.sizes@.contains(largest),
            forall|j: int| 0 <= j < i ==> args.sizes@[j] <= largest,
        decreases args.sizes@.len() - i,
    {
        if largest < args.sizes[i] {
            largest = args.sizes[i];
        }
        i = i + 1;
    }
    largest
}

/// The connection configuration for throughput measurements: the chip stays in
/// the loader at the end, whichever it is.
pub fn throughput_connect_args(connect_args: &ConnectArgs) -> (throughput_args: ConnectArgs)
    ensures
        throughput_args == throughput_args_of(*connect_args),
        throughput_args.no_stub == connect_args.no_stub,
        throughput_args.after == if connect_args.no_stub {
            ResetAfterOperation::NoReset
        } else {
            ResetAfterOperation::NoResetNoStub
        },
{
    let mut throughput_args = *connect_args;
    throughput_args.after = if connect_args.no_stub {
        ResetAfterOperation::NoReset
    } else {
        ResetAfterOperation::NoResetNoStub
    };
    throughput_args
}

/// See [`throughput_connect_args`].
pub open spec fn throughput_args_of(connect_args: ConnectArgs) -> ConnectArgs {
    ConnectArgs {
        after: if connect_args.no_stub {
            ResetAfterOperation::NoReset
        } else {
            ResetAfterOperation::NoResetNoStub
        },
        no_stub: connect_args.no_stub,
    }
}

proof fn lemma_first_bad_size(sizes: Seq<u32>, k: int)
    requires
        0 <= k < sizes.len(),
        forall|i: int| 0 <= i < k ==> #[trigger] sizes[i] > 0 && sizes[i] % 0x1000 == 0,
        sizes[k] == 0 || sizes[k] % 0x1000 != 0,
    ensures
        sizes_error(sizes) == Some(
            if sizes[k] == 0 {
                ArgsError::ZeroSize
            } else {
                ArgsError::MisalignedSize(sizes[k])
            },
        ),
    decreases sizes.len(),
{
    if k > 0 {
        let rest = sizes.drop_first();
        assert(sizes[0] > 0 && sizes[0] % 0x1000 == 0);
        assert(forall|i: int| 0 <= i < rest.len() ==> rest[i] == sizes[i + 1]);
        lemma_first_bad_size(rest, k - 1);
    }
}

/// Arguments are refused for the first of these that holds, and for nothing else:
/// no iterations, empty packets, no packet in flight, an address that is not at
/// the start of a sector, and for the first bad size, that it is zero or not a
/// whole number of sectors.
pub proof fn law_first_bad_argument_is_reported(args: BenchmarkArgs, k: int)
    ensures
        args_error(args) == Some(ArgsError::ZeroIterations) <==> args.iterations == 0,
        args_error(args) == Some(ArgsError::ZeroBlockSize) <==> args.iterations > 0
            && args.block_size == 0,
        args_error(args) == Some(ArgsError::ZeroMaxInFlight) <==> args.iterations > 0
            && args.block_size > 0 && args.max_in_flight == 0,
        args_error(args) == Some(ArgsError::MisalignedAddress) <==> args.iterations > 0
            && args.block_size > 0 && args.max_in_flight > 0 && args.address % 0x1000 != 0,
        ({
            &&& args.iterations > 0
            &&& args.block_size > 0
            &&& args.max_in_flight > 0
            &&& args.address % 0x1000 == 0
            &&& 0 <= k < args.sizes@.len()
            &&& args.sizes@[k] == 0 || args.sizes@[k] % 0x1000 != 0
            &&& forall|i: int|
                0 <= i < k ==> #[trigger] args.sizes@[i] > 0 && args.sizes@[i] % 0x1000 == 0
        }) ==> args_error(args) == Some(
            if args.sizes@[k] == 0 {
                ArgsError::ZeroSize
            } else {
                ArgsError::MisalignedSize(args.sizes@[k])
            },
        ),
        args_error(args) is None <==> {
            &&& args.iterations > 0
            &&& args.block_size > 0
            &&& args.max_in_flight > 0
            &&& args.address % 0x1000 == 0
            &&& forall|i: int|
                0 <= i < args.sizes@.len() ==> #[trigger] args.sizes@[i] > 0 && args.sizes@[i]
                    % 0x1000 == 0
        },
{
    let sizes = args.sizes@;
    lemma_sizes_error(sizes);
    lemma_size_errors_are_about_sizes(sizes);
    if 0 <= k < sizes.len() && (sizes[k] == 0 || sizes[k] % 0x1000 != 0) && (forall|i: int|
        0 <= i < k ==> #[trigger] sizes[i] > 0 && sizes[i] % 0x1000 == 0) {
        lemma_first_bad_size(sizes, k);
    }
}

proof fn lemma_size_errors_are_about_sizes(sizes: Seq<u32>)
    ensures
        sizes_error(sizes) matches Some(error) ==> error is ZeroSize || error is MisalignedSize,
    decreases sizes.len(),
{
    if sizes.len() > 0 {
        lemma_size_errors_are_about_sizes(sizes.drop_first());
    }
}

/// The message names what is wrong; that about a size ends with the size in
/// hexadecimal.
pub proof fn law_argument_messages(size: u32)
    ensures
        args_message(ArgsError::ZeroIterations) == "`--iterations` must be greater than zero"@,
        args_message(ArgsError::ZeroBlockSize) == "`--block-size` must be greater than zero"@,
        args_message(ArgsError::ZeroMaxInFlight) == "`--max-in-flight` must be greater than zero"@,
        args_message(ArgsError::MisalignedAddress)
            == "benchmark address must be aligned to 0x1000 bytes"@,
        args_message(ArgsError::ZeroSize) == "benchmark sizes must be greater than zero"@,
        args_message(ArgsError::MisalignedSize(size))
            == "benchmark sizes must be aligned to 0x1000 bytes: 0x"@ + digits(size as nat, 16),
{
    reveal_with_fuel(digits, 4);
    reveal_strlit("benchmark address must be aligned to 0x");
    reveal_strlit(" bytes");
    reveal_strlit("benchmark address must be aligned to 0x1000 bytes");
    reveal_strlit("benchmark sizes must be aligned to 0x");
    reveal_strlit(" bytes: 0x");
    reveal_strlit("benchmark sizes must be aligned to 0x1000 bytes: 0x");
    assert(hex(0x1000, 0) =~= seq!['1', '0', '0', '0']);
    assert(hex(size as nat, 0) =~= digits(size as nat, 16));
    assert(args_message(ArgsError::MisalignedAddress)
        =~= "benchmark address must be aligned to 0x1000 bytes"@);
    assert(args_message(ArgsError::MisalignedSize(size))
        =~= "benchmark sizes must be aligned to 0x1000 bytes: 0x"@ + digits(size as nat, 16));
}

/// For throughput measurements only the end of the connection changes: the chip
/// is never reset, and stays in the stub exactly if there is one.
pub proof fn law_throughput_keeps_the_loader(connect_args: ConnectArgs)
    ensures
        throughput_args_of(connect_args).no_stub == connect_args.no_stub,
        throughput_args_of(connect_args).after is NoReset <==> connect_args.no_stub,
        throughput_args_of(connect_args).after is NoResetNoStub <==> !connect_args.no_stub,
{
}

} // verus!
