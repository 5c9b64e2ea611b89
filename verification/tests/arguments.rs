use flash_benchmark::args::{
    max_size, throughput_connect_args, validate_args, ArgsError, BenchmarkArgs, ConnectArgs,
    ResetAfterOperation, FLASH_SECTOR_SIZE,
};

fn args() -> BenchmarkArgs {
    BenchmarkArgs {
        connect_args: ConnectArgs {
            after: ResetAfterOperation::HardReset,
            no_stub: false,
        },
        address: 0x1000,
        sizes: vec![0x1000, 0x2000],
        iterations: 5,
        block_size: 0x1000,
        max_in_flight: 64,
    }
}

#[test]
fn benchmark_args_require_sector_alignment() {
    let mut parsed = args();
    parsed.address = 1;
    assert!(validate_args(&parsed).is_err());

    let mut parsed = args();
    parsed.sizes = vec![0x1800];
    assert!(validate_args(&parsed).is_err());
}

#[test]
fn ordinary_arguments_are_accepted() {
    assert_eq!(validate_args(&args()), Ok(()));
    let mut none = args();
    none.sizes = vec![];
    assert_eq!(validate_args(&none), Ok(()));
}

#[test]
fn each_bad_argument_has_its_error_and_message() {
    let mut bad = args();
    bad.iterations = 0;
    let error = validate_args(&bad).unwrap_err();
    assert_eq!(error, ArgsError::ZeroIterations);
    assert_eq!(error.message(), "`--iterations` must be greater than zero");

    let mut bad = args();
    bad.block_size = 0;
    let error = validate_args(&bad).unwrap_err();
    assert_eq!(error, ArgsError::ZeroBlockSize);
    assert_eq!(error.message(), "`--block-size` must be greater than zero");

    let mut bad = args();
    bad.max_in_flight = 0;
    let error = validate_args(&bad).unwrap_err();
    assert_eq!(error, ArgsError::ZeroMaxInFlight);
    assert_eq!(error.message(), "`--max-in-flight` must be greater than zero");

    let mut bad = args();
    bad.address = 0x1001;
    let error = validate_args(&bad).unwrap_err();
    assert_eq!(error, ArgsError::MisalignedAddress);
    assert_eq!(error.message(), "benchmark address must be aligned to 0x1000 bytes");

    let mut bad = args();
    bad.sizes = vec![0x1000, 0, 0x1800];
    let error = validate_args(&bad).unwrap_err();
    assert_eq!(error, ArgsError::ZeroSize);
    assert_eq!(error.message(), "benchmark sizes must be greater than zero");

    let mut bad = args();
    bad.sizes = vec![0x1000, 0x1a2b, 0];
    let error = validate_args(&bad).unwrap_err();
    assert_eq!(error, ArgsError::MisalignedSize(0x1a2b));
    assert_eq!(
        error.message(),
        "benchmark sizes must be aligned to 0x1000 bytes: 0x1a2b"
    );
}

#[test]
fn earlier_checks_win() {
    let bad = BenchmarkArgs {
        address: 1,
        sizes: vec![0],
        iterations: 0,
        block_size: 0,
        max_in_flight: 0,
        ..args()
    };
    assert_eq!(validate_args(&bad), Err(ArgsError::ZeroIterations));
    let bad = BenchmarkArgs { iterations: 1, ..bad };
    assert_eq!(validate_args(&bad), Err(ArgsError::ZeroBlockSize));
    let bad = BenchmarkArgs { block_size: 1, ..bad };
    assert_eq!(validate_args(&bad), Err(ArgsError::ZeroMaxInFlight));
    let bad = BenchmarkArgs { max_in_flight: 1, ..bad };
    assert_eq!(validate_args(&bad), Err(ArgsError::MisalignedAddress));
    let bad = BenchmarkArgs { address: 0, ..bad };
    assert_eq!(validate_args(&bad), Err(ArgsError::ZeroSize));
}

#[test]
fn largest_size_is_found() {
    let mut some = args();
    some.sizes = vec![0x2000, 0x8000, 0x1000];
    assert_eq!(max_size(&some), 0x8000);
    some.sizes = vec![];
    assert_eq!(max_size(&some), FLASH_SECTOR_SIZE);
}

#[test]
fn throughput_connections_leave_the_loader_running() {
    let stub = ConnectArgs {
        after: ResetAfterOperation::HardReset,
        no_stub: false,
    };
    assert_eq!(
        throughput_connect_args(&stub),
        ConnectArgs {
            after: ResetAfterOperation::NoResetNoStub,
            no_stub: false
        }
    );
    let rom = ConnectArgs {
        after: ResetAfterOperation::WatchdogReset,
        no_stub: true,
    };
    assert_eq!(
        throughput_connect_args(&rom),
        ConnectArgs {
            after: ResetAfterOperation::NoReset,
            no_stub: true
        }
    );
}

#[test]
fn the_stub_is_used_unless_refused() {
    for no_stub in [false, true] {
        let connect_args = ConnectArgs {
            after: ResetAfterOperation::HardReset,
            no_stub,
        };
        assert_eq!(connect_args.use_stub(), !no_stub);
    }
}
