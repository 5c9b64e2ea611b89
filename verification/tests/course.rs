use flash_benchmark::args::{ArgsError, BenchmarkArgs, ConnectArgs, ResetAfterOperation};
use flash_benchmark::flash::FlashError;
use flash_benchmark::pattern::generate_pattern;
use flash_benchmark::readback::ReadbackError;
use flash_benchmark::region::{FlashWrite, Region};
use flash_benchmark::report::{SummaryText, TransferText};
use flash_benchmark::results::Results;
use flash_benchmark::run::{
    connect_for_phase, first_step, next_step, phase_options, section_after, ConnectPlan, PhaseKind,
    RunStep, Section,
};
use flash_benchmark::transfer::ReadRequest;
use flash_benchmark::visit::{
    check_download_mode, next_visit_action, DeviceError, VisitAction, VisitEvent, VisitKind,
};
use md5::{Digest, Md5};

fn args(iterations: usize, sizes: Vec<u32>) -> BenchmarkArgs {
    BenchmarkArgs {
        connect_args: ConnectArgs {
            after: ResetAfterOperation::HardReset,
            no_stub: false,
        },
        address: 0,
        sizes,
        iterations,
        block_size: 0x400,
        max_in_flight: 64,
    }
}

fn course(args: &BenchmarkArgs) -> Vec<RunStep> {
    let mut steps = vec![RunStep::InspectDevice];
    while steps[steps.len() - 1] != RunStep::Report {
        steps.push(next_step(args, steps[steps.len() - 1]));
    }
    steps
}

#[test]
fn a_benchmark_takes_its_steps_in_order() {
    assert_eq!(
        course(&args(2, vec![0x1000, 0x2000])),
        vec![
            RunStep::InspectDevice,
            RunStep::TimeConnection(0),
            RunStep::TimeConnection(1),
            RunStep::RunPhase(0, PhaseKind::Write),
            RunStep::RunPhase(0, PhaseKind::Read),
            RunStep::RunPhase(0, PhaseKind::Skip),
            RunStep::RunPhase(1, PhaseKind::Write),
            RunStep::RunPhase(1, PhaseKind::Read),
            RunStep::RunPhase(1, PhaseKind::Skip),
            RunStep::Report,
        ]
    );
    assert_eq!(
        course(&args(1, vec![])),
        vec![
            RunStep::InspectDevice,
            RunStep::TimeConnection(0),
            RunStep::Report
        ]
    );
    assert_eq!(next_step(&args(1, vec![]), RunStep::Report), RunStep::Report);
}

#[test]
fn phases_have_their_options() {
    let write = phase_options(PhaseKind::Write, 0x1000, 0x400, true);
    assert_eq!((write.name, write.steps, write.skip_enabled), ("write", 1, false));
    let read = phase_options(PhaseKind::Read, 0x1000, 0x400, true);
    assert_eq!((read.name, read.steps, read.skip_enabled), ("read", 4, false));
    let rom = phase_options(PhaseKind::Read, 0x1000, 0x400, false);
    assert_eq!((rom.name, rom.steps, rom.skip_enabled), ("read", 64, false));
    let skip = phase_options(PhaseKind::Skip, 0x1000, 0x400, true);
    assert_eq!((skip.name, skip.steps, skip.skip_enabled), ("skip", 1, true));
}

#[test]
fn only_the_skip_phase_may_skip() {
    let connect_args = ConnectArgs {
        after: ResetAfterOperation::HardReset,
        no_stub: false,
    };
    let kept = ConnectArgs {
        after: ResetAfterOperation::NoResetNoStub,
        no_stub: false,
    };
    assert_eq!(
        connect_for_phase(&connect_args, true),
        ConnectPlan {
            connect_args: kept,
            skip_verify: true,
            no_skip: false
        }
    );
    assert_eq!(
        connect_for_phase(&connect_args, false),
        ConnectPlan {
            connect_args: kept,
            skip_verify: true,
            no_skip: true
        }
    );
}

#[test]
fn secure_download_mode_is_refused() {
    assert_eq!(check_download_mode(false), Ok(()));
    let error = check_download_mode(true).unwrap_err();
    assert_eq!(error, DeviceError::SecureDownloadMode);
    assert_eq!(
        error.message(),
        "flash benchmarking is not available in Secure Download Mode because flash reads and skip checks are restricted"
    );
}

#[test]
fn nothing_starts_with_bad_arguments() {
    assert_eq!(
        first_step(&args(1, vec![0x1000])),
        Ok(RunStep::InspectDevice)
    );
    assert_eq!(
        first_step(&args(0, vec![0x1000])),
        Err(ArgsError::ZeroIterations)
    );
    assert_eq!(
        first_step(&args(1, vec![0x1000, 0x1800])),
        Err(ArgsError::MisalignedSize(0x1800))
    );
}

#[test]
fn output_comes_in_order() {
    let args = args(2, vec![0x1000, 0x2000]);
    let sections: Vec<(usize, Section)> = course(&args)
        .into_iter()
        .enumerate()
        .filter_map(|(n, step)| section_after(&args, step).map(|section| (n, section)))
        .collect();
    assert_eq!(
        sections,
        vec![
            (0, Section::Header),
            (2, Section::Connection),
            (9, Section::Flash)
        ]
    );
}

fn md5_number(data: &[u8]) -> u128 {
    let mut number: u128 = 0;
    for byte in Md5::digest(data) {
        number = number << 8 | byte as u128;
    }
    number
}

#[test]
fn a_region_keeps_the_last_verified_pattern() {
    let mut setup = args(3, vec![0x1000, 0x2000]);
    setup.address = 0x5000;
    let mut region = Region::new(&setup, 1);
    assert_eq!((region.address(), region.size()), (0x5000, 0x2000));
    assert!(region.written().is_empty());

    for iteration in 0..3 {
        let write = region.planned_write(PhaseKind::Write, iteration).unwrap();
        assert_eq!(write.address, 0x5000);
        assert_eq!(write.data, generate_pattern(0x2000, iteration as u32 + 1));
        let digest = md5_number(&write.data);
        assert_eq!(region.complete_write(iteration, write.data, digest), Ok(()));
        assert_eq!(
            region.written(),
            generate_pattern(0x2000, iteration as u32 + 1).as_slice()
        );
    }

    let last = generate_pattern(0x2000, 3);
    assert_eq!(
        region.planned_write(PhaseKind::Skip, 0),
        Some(FlashWrite {
            address: 0x5000,
            data: last.clone()
        })
    );
    assert_eq!(region.planned_write(PhaseKind::Read, 0), None);
    assert_eq!(
        region.read_request(0x400, 64),
        ReadRequest {
            offset: 0x5000,
            size: 0x2000,
            block_size: 0x400,
            max_in_flight: 64
        }
    );
    assert_eq!(region.check_readback(&last), Ok(()));
    let mut changed = last.clone();
    changed[0x123] ^= 1;
    assert_eq!(
        region.check_readback(&changed),
        Err(ReadbackError::ByteMismatch {
            address: 0x5123,
            expected: last[0x123],
            actual: last[0x123] ^ 1
        })
    );
}

#[test]
fn a_failed_write_changes_nothing() {
    let mut region = Region::new(&args(2, vec![0x1000]), 0);
    let first = region.planned_write(PhaseKind::Write, 0).unwrap();
    let digest = md5_number(&first.data);
    assert_eq!(region.complete_write(0, first.data, digest), Ok(()));
    let second = region.planned_write(PhaseKind::Write, 1).unwrap();
    assert_eq!(
        region.complete_write(1, second.data, digest),
        Err(FlashError::VerifyFailed)
    );
    assert_eq!(region.written(), generate_pattern(0x1000, 1).as_slice());
    let second = region.planned_write(PhaseKind::Write, 1).unwrap();
    assert_eq!(
        region.record_write(1, second.data, Err(FlashError::VerifyFailed)),
        Err(FlashError::VerifyFailed)
    );
    assert_eq!(region.written(), generate_pattern(0x1000, 1).as_slice());
    let second = region.planned_write(PhaseKind::Write, 1).unwrap();
    assert_eq!(region.record_write(1, second.data, Ok(())), Ok(()));
    assert_eq!(region.written(), generate_pattern(0x1000, 2).as_slice());
}

fn summary(text: String) -> SummaryText {
    SummaryText {
        stddev: format!("+-{text}"),
        mean: text,
    }
}

#[test]
fn results_are_gathered_by_size_and_phase() {
    let args = args(1, vec![0x1000, 0x2000]);
    let size_texts = vec!["one".to_string(), "two".to_string()];
    let mut results = Results::new(&args, &size_texts);
    for step in course(&args) {
        if let RunStep::RunPhase(index, kind) = step {
            assert_eq!(results.transfers(), None);
            results.record(index, kind, summary(format!("{index}{kind:?}")));
        }
    }
    let expected = |index: usize| TransferText {
        size: size_texts[index].clone(),
        write: summary(format!("{index}Write")),
        read: summary(format!("{index}Read")),
        skip: summary(format!("{index}Skip")),
    };
    assert_eq!(results.transfers(), Some(vec![expected(0), expected(1)]));
}

#[test]
fn results_do_not_depend_on_the_order_of_the_phases() {
    let args = args(1, vec![0x1000]);
    let mut results = Results::new(&args, &vec!["one".to_string()]);
    results.record(0, PhaseKind::Skip, summary("s".to_string()));
    results.record(0, PhaseKind::Write, summary("w".to_string()));
    results.record(0, PhaseKind::Read, summary("r".to_string()));
    let transfers = results.transfers().unwrap();
    assert_eq!(transfers.len(), 1);
    assert_eq!(transfers[0].write, summary("w".to_string()));
    assert_eq!(transfers[0].read, summary("r".to_string()));
    assert_eq!(transfers[0].skip, summary("s".to_string()));
}

#[test]
fn only_the_write_phase_starts_a_new_region() {
    let args = args(1, vec![0x1000, 0x2000]);
    let mut region = Region::for_phase(&args, None, 1, PhaseKind::Write);
    assert_eq!((region.size(), region.written().len()), (0x2000, 0));
    let write = region.planned_write(PhaseKind::Write, 0).unwrap();
    let digest = md5_number(&write.data);
    region.complete_write(0, write.data, digest).unwrap();

    let kept = region.keep(PhaseKind::Write);
    let region = Region::for_phase(&args, kept, 1, PhaseKind::Read);
    assert_eq!(region.written(), generate_pattern(0x2000, 1).as_slice());
    let kept = region.keep(PhaseKind::Read);
    let region = Region::for_phase(&args, kept, 1, PhaseKind::Skip);
    assert_eq!(region.written(), generate_pattern(0x2000, 1).as_slice());
    assert!(region.keep(PhaseKind::Skip).is_none());
}

fn visit(kind: VisitKind, secure_download_mode: bool) -> Vec<VisitAction> {
    let args = args(1, vec![0x1000]);
    let mut actions = vec![next_visit_action(&args, kind, VisitEvent::Begun)];
    loop {
        let event = match actions[actions.len() - 1] {
            VisitAction::Connect(_) => VisitEvent::Connected(secure_download_mode),
            VisitAction::Describe => VisitEvent::Described,
            VisitAction::Reset => VisitEvent::WasReset,
            _ => return actions,
        };
        actions.push(next_visit_action(&args, kind, event));
    }
}

#[test]
fn visits_take_their_course() {
    let connect = VisitAction::Connect(ConnectPlan {
        connect_args: ConnectArgs {
            after: ResetAfterOperation::HardReset,
            no_stub: false,
        },
        skip_verify: true,
        no_skip: true,
    });
    assert_eq!(
        visit(VisitKind::Inspect, false),
        vec![
            connect,
            VisitAction::Describe,
            VisitAction::Reset,
            VisitAction::Done
        ]
    );
    assert_eq!(
        visit(VisitKind::Inspect, true),
        vec![
            connect,
            VisitAction::Refuse(DeviceError::SecureDownloadMode)
        ]
    );
    for secure_download_mode in [false, true] {
        assert_eq!(
            visit(VisitKind::Time, secure_download_mode),
            vec![connect, VisitAction::Reset, VisitAction::Done]
        );
    }
    for kind in [VisitKind::Inspect, VisitKind::Time] {
        assert_eq!(
            next_visit_action(&args(1, vec![0x1000]), kind, VisitEvent::Failed),
            VisitAction::Stop
        );
    }
}
