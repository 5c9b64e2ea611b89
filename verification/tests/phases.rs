use flash_benchmark::args::{BenchmarkArgs, ConnectArgs, ResetAfterOperation};
use flash_benchmark::flash::FlashError;
use flash_benchmark::iteration::{next_action, IterationAction, IterationEvent, IterationFailure};
use flash_benchmark::pattern::generate_pattern;
use flash_benchmark::phase::{PhaseRun, PhaseStep};
use flash_benchmark::progress::{Rate, RenderAction, TestProgress};
use flash_benchmark::readback::ReadbackError;
use flash_benchmark::region::{FlashWrite, Region};
use flash_benchmark::run::PhaseKind;
use flash_benchmark::transfer::ReadRequest;
use md5::{Digest, Md5};

fn args(iterations: usize) -> BenchmarkArgs {
    BenchmarkArgs {
        connect_args: ConnectArgs {
            after: ResetAfterOperation::HardReset,
            no_stub: false,
        },
        address: 0x5000,
        sizes: vec![0x1000],
        iterations,
        block_size: 0x400,
        max_in_flight: 64,
    }
}

fn md5_number(data: &[u8]) -> u128 {
    let mut number: u128 = 0;
    for byte in Md5::digest(data) {
        number = number << 8 | byte as u128;
    }
    number
}

/// Runs a phase on a device that keeps what is written to it.
fn run_phase(
    args: &BenchmarkArgs,
    kind: PhaseKind,
    region: &mut Region,
    flash: &mut Vec<u8>,
) -> (Vec<Rate>, Vec<IterationAction>) {
    let mut progress = TestProgress::new("x".to_string(), true, 0);
    let mut run = PhaseRun::new(args, kind, region.size());
    let mut actions = Vec::new();
    while let PhaseStep::Iterate(iteration) = run.next() {
        assert!(run.begin_iteration(&mut progress, 7).force);
        let mut event = IterationEvent::Begun;
        loop {
            let action = run.advance(args, region, event);
            event = match &action {
                IterationAction::Write(write) => {
                    *flash = write.data.clone();
                    IterationEvent::Written
                }
                IterationAction::AskDigest { .. } => IterationEvent::Digest(md5_number(flash)),
                IterationAction::Read(_) => IterationEvent::ReadBack(flash.clone()),
                IterationAction::Record => {
                    actions.push(action);
                    break;
                }
                IterationAction::Stop(failure) => panic!("{failure:?}"),
            };
            actions.push(action);
        }
        let sample = Rate {
            bytes: 0x1000,
            nanos: 100 + iteration as u128,
        };
        assert!(run.complete_iteration(&mut progress, sample).force);
        assert_eq!(progress.latest_sample(), Some(sample));
    }
    assert_eq!(run.next(), PhaseStep::Reset);
    (run.finish(), actions)
}

#[test]
fn phases_run_their_iterations_in_order() {
    let args = args(2);
    let mut flash = Vec::new();
    let mut region = Region::new(&args, 0);
    let rates = vec![
        Rate { bytes: 0x1000, nanos: 100 },
        Rate { bytes: 0x1000, nanos: 101 },
    ];
    let write = |seed: u32| {
        IterationAction::Write(FlashWrite {
            address: 0x5000,
            data: generate_pattern(0x1000, seed),
        })
    };
    let ask = || IterationAction::AskDigest {
        address: 0x5000,
        size: 0x1000,
    };
    let read = || {
        IterationAction::Read(ReadRequest {
            offset: 0x5000,
            size: 0x1000,
            block_size: 0x400,
            max_in_flight: 64,
        })
    };

    let (samples, actions) = run_phase(&args, PhaseKind::Write, &mut region, &mut flash);
    assert_eq!(samples, rates);
    assert_eq!(
        actions,
        vec![
            write(1),
            ask(),
            IterationAction::Record,
            write(2),
            ask(),
            IterationAction::Record
        ]
    );
    assert_eq!(region.written(), generate_pattern(0x1000, 2).as_slice());

    let (samples, actions) = run_phase(&args, PhaseKind::Read, &mut region, &mut flash);
    assert_eq!(samples, rates);
    assert_eq!(
        actions,
        vec![
            read(),
            IterationAction::Record,
            read(),
            IterationAction::Record
        ]
    );

    let (samples, actions) = run_phase(&args, PhaseKind::Skip, &mut region, &mut flash);
    assert_eq!(samples, rates);
    assert_eq!(
        actions,
        vec![
            write(2),
            IterationAction::Record,
            write(2),
            IterationAction::Record
        ]
    );
    assert_eq!(region.written(), generate_pattern(0x1000, 2).as_slice());
}

#[test]
fn iterations_are_shown_from_one() {
    let args = args(2);
    let mut region = Region::new(&args, 0);
    let mut progress = TestProgress::new("x".to_string(), true, 0);
    let mut run = PhaseRun::new(&args, PhaseKind::Skip, 0x1000);
    assert!(run.skip_enabled());
    for shown in ["skip   (1/2,", "skip   (2/2,"] {
        run.begin_iteration(&mut progress, 7);
        match progress.render(true, 7, "") {
            RenderAction::Draw(text) => assert!(text.contains(shown)),
            other => panic!("{other:?}"),
        }
        run.advance(&args, &mut region, IterationEvent::Begun);
        run.advance(&args, &mut region, IterationEvent::Written);
        run.complete_iteration(&mut progress, Rate { bytes: 0x1000, nanos: 1 });
    }
    assert_eq!(run.next(), PhaseStep::Reset);
}

#[test]
fn a_wrong_digest_ends_the_phase() {
    let args = args(3);
    let mut region = Region::new(&args, 0);
    let mut progress = TestProgress::new("x".to_string(), true, 0);
    let mut run = PhaseRun::new(&args, PhaseKind::Write, 0x1000);
    let digest = md5_number(&generate_pattern(0x1000, 1));

    run.begin_iteration(&mut progress, 0);
    run.advance(&args, &mut region, IterationEvent::Begun);
    run.advance(&args, &mut region, IterationEvent::Written);
    assert_eq!(
        run.advance(&args, &mut region, IterationEvent::Digest(digest)),
        IterationAction::Record
    );
    run.complete_iteration(&mut progress, Rate { bytes: 0x1000, nanos: 1 });
    assert_eq!(run.next(), PhaseStep::Iterate(1));

    run.begin_iteration(&mut progress, 0);
    run.advance(&args, &mut region, IterationEvent::Begun);
    run.advance(&args, &mut region, IterationEvent::Written);
    assert_eq!(
        run.advance(&args, &mut region, IterationEvent::Digest(digest)),
        IterationAction::Stop(IterationFailure::Flash(FlashError::VerifyFailed))
    );
    assert_eq!(run.next(), PhaseStep::Abandon);
    assert_eq!(region.written(), generate_pattern(0x1000, 1).as_slice());
}

#[test]
fn a_failing_device_ends_the_phase() {
    let args = args(3);
    for kind in [PhaseKind::Write, PhaseKind::Read, PhaseKind::Skip] {
        let mut region = Region::new(&args, 0);
        let mut progress = TestProgress::new("x".to_string(), true, 0);
        let mut run = PhaseRun::new(&args, kind, 0x1000);
        run.begin_iteration(&mut progress, 0);
        run.advance(&args, &mut region, IterationEvent::Begun);
        assert_eq!(
            run.advance(&args, &mut region, IterationEvent::Failed),
            IterationAction::Stop(IterationFailure::Device)
        );
        assert_eq!(run.next(), PhaseStep::Abandon);
    }
}

#[test]
fn a_readback_passes_only_if_it_is_what_was_written() {
    let args = args(1);
    let mut region = Region::new(&args, 0);
    let begun = next_action(&args, &mut region, PhaseKind::Write, 0, IterationEvent::Begun);
    assert!(matches!(begun, IterationAction::Write(_)));
    let written = generate_pattern(0x1000, 1);
    let digest = IterationEvent::Digest(md5_number(&written));
    assert_eq!(
        next_action(&args, &mut region, PhaseKind::Write, 0, digest),
        IterationAction::Record
    );

    let mut changed = written.clone();
    changed[5] ^= 0x80;
    let mut read = |bytes: Vec<u8>| {
        let event = IterationEvent::ReadBack(bytes);
        next_action(&args, &mut region, PhaseKind::Read, 0, event)
    };
    assert_eq!(
        read(changed),
        IterationAction::Stop(IterationFailure::Readback(ReadbackError::ByteMismatch {
            address: 0x5005,
            expected: written[5],
            actual: written[5] ^ 0x80
        }))
    );
    assert_eq!(
        read(written[1..].to_vec()),
        IterationAction::Stop(IterationFailure::Readback(ReadbackError::LengthMismatch {
            address: 0x5000,
            expected_len: 0x1000,
            actual_len: 0xfff
        }))
    );
    assert_eq!(read(written), IterationAction::Record);
}

#[test]
fn a_pending_write_is_settled_by_its_digest() {
    let mut region = Region::new(&args(1), 0);
    let data = generate_pattern(0x1000, 1);
    let digest = md5_number(&data);
    region.start_write(0, data.clone());
    assert_eq!(region.settle_write(!digest), Err(FlashError::VerifyFailed));
    assert!(region.written().is_empty());
    region.start_write(0, data.clone());
    assert_eq!(region.settle_write(digest), Ok(()));
    assert_eq!(region.written(), data.as_slice());
}
