use flash_benchmark::flash::FlashError;
use flash_benchmark::pattern::generate_pattern;
use flash_benchmark::progress::{RenderAction, TestProgress};
use flash_benchmark::readback::{verify_readback, ReadbackError};
use flash_benchmark::transfer::{
    check_digest, read_flash_region, read_step_count, ReadProgress, ReadRequest, RegionRead,
    RomCommand, RomRead, StubAction, StubRead,
};

fn request(size: u32, block_size: u32) -> ReadRequest {
    ReadRequest {
        offset: 0x2000,
        size,
        block_size,
        max_in_flight: 64,
    }
}

// MD5 of `generate_pattern(8, 7)`.
const PATTERN_MD5: [u8; 16] = [
    0xc6, 0xa3, 0x12, 0x55, 0xee, 0x7e, 0x76, 0x1d, 0x7e, 0x82, 0x4c, 0xab, 0x10, 0x04, 0x6b, 0x6d,
];

#[test]
fn steps_are_packets_or_rom_commands() {
    assert_eq!(read_step_count(0x1000, 0x400, true), 4);
    assert_eq!(read_step_count(0x1001, 0x400, true), 5);
    assert_eq!(read_step_count(0x1000, 0, false), 64);
    assert_eq!(read_step_count(65, 7, false), 2);
    assert_eq!(read_step_count(0, 1, true), 0);
    assert_eq!(read_step_count(u32::MAX, 1, true), u32::MAX as usize);
}

#[test]
fn stub_read_returns_what_the_device_sends() {
    let contents = generate_pattern(8, 7);
    let mut read = StubRead::new(request(8, 3));
    let mut acks = Vec::new();
    let mut steps = Vec::new();
    for chunk in contents.chunks(3) {
        assert_eq!(read.next(), StubAction::AwaitChunk);
        let outcome = read.accept_chunk(Some(chunk.to_vec()));
        acks.push(outcome.reply.unwrap());
        steps.push(outcome.progress.unwrap());
    }
    assert_eq!(acks, vec![3, 6, 8]);
    assert_eq!(
        steps,
        vec![
            ReadProgress { step: 1, bytes: 3 },
            ReadProgress { step: 2, bytes: 6 },
            ReadProgress { step: 3, bytes: 8 },
        ]
    );
    assert_eq!(read.next(), StubAction::AwaitDigest);
    assert_eq!(read.finish(Some(PATTERN_MD5.to_vec())), Ok(contents));
}

#[test]
fn stub_read_refuses_an_empty_frame() {
    let mut read = StubRead::new(request(8, 4));
    let outcome = read.accept_chunk(None);
    assert_eq!(outcome.progress, None);
    assert_eq!(outcome.reply, Err(FlashError::IncorrectResponse));
}

#[test]
fn stub_read_refuses_a_short_packet_before_the_end() {
    let mut read = StubRead::new(request(8, 4));
    let outcome = read.accept_chunk(Some(vec![1, 2, 3]));
    assert_eq!(outcome.progress, Some(ReadProgress { step: 1, bytes: 3 }));
    assert_eq!(outcome.reply, Err(FlashError::CorruptData(4, 3)));
}

#[test]
fn stub_read_refuses_too_many_bytes() {
    let mut read = StubRead::new(request(8, 4));
    let outcome = read.accept_chunk(Some(vec![0; 9]));
    assert_eq!(outcome.progress, Some(ReadProgress { step: 1, bytes: 8 }));
    assert_eq!(outcome.reply, Ok(9));
    assert_eq!(
        read.next(),
        StubAction::Reject(FlashError::ReadMoreThanExpected)
    );
}

#[test]
fn stub_steps_stop_at_their_total() {
    let mut read = StubRead::new(request(8, 4));
    assert_eq!(read.accept_chunk(Some(vec![0; 7])).reply, Ok(7));
    let outcome = read.accept_chunk(Some(vec![0; 1]));
    assert_eq!(outcome.progress, Some(ReadProgress { step: 2, bytes: 8 }));
    assert_eq!(outcome.reply, Ok(8));
}

fn full_read() -> StubRead {
    let mut read = StubRead::new(request(8, 8));
    assert_eq!(read.accept_chunk(Some(generate_pattern(8, 7))).reply, Ok(8));
    read
}

#[test]
fn stub_read_checks_the_digest() {
    assert_eq!(full_read().finish(None), Err(FlashError::IncorrectResponse));
    assert_eq!(
        full_read().finish(Some(vec![0; 15])),
        Err(FlashError::IncorrectDigestLength(15))
    );
    assert_eq!(
        full_read().finish(Some(vec![0; 16])),
        Err(FlashError::DigestMismatch(vec![0; 16], PATTERN_MD5.to_vec()))
    );
    assert_eq!(
        full_read().finish(Some(PATTERN_MD5.to_vec())),
        Ok(generate_pattern(8, 7))
    );
}

#[test]
fn empty_stub_read_waits_for_the_digest_at_once() {
    let read = StubRead::new(request(0, 4));
    assert_eq!(read.next(), StubAction::AwaitDigest);
}

#[test]
fn digest_decides_for_any_checksum() {
    assert_eq!(
        check_digest(vec![1], Some(vec![5; 16]), vec![5; 16]),
        Ok(vec![1])
    );
    assert_eq!(
        check_digest(vec![1], Some(vec![5; 16]), vec![6; 16]),
        Err(FlashError::DigestMismatch(vec![5; 16], vec![6; 16]))
    );
    assert_eq!(
        check_digest(vec![1], Some(vec![]), vec![]),
        Err(FlashError::IncorrectDigestLength(0))
    );
    assert_eq!(
        check_digest(vec![1], None, vec![5; 16]),
        Err(FlashError::IncorrectResponse)
    );
}

#[test]
fn rom_read_walks_through_the_region() {
    let flash = generate_pattern(0x3000, 9);
    let mut read = RomRead::new(request(150, 0x1000));
    let mut commands = Vec::new();
    let mut steps = Vec::new();
    while let Some(command) = read.next() {
        commands.push((command.offset, command.size));
        let start = command.offset as usize;
        steps.push(read.accept(&flash[start..start + 64]).unwrap());
    }
    assert_eq!(commands, vec![(0x2000, 64), (0x2040, 64), (0x2080, 22)]);
    assert_eq!(
        steps,
        vec![
            ReadProgress { step: 1, bytes: 64 },
            ReadProgress { step: 2, bytes: 128 },
            ReadProgress { step: 3, bytes: 150 },
        ]
    );
    assert_eq!(read.finish(), flash[0x2000..0x2000 + 150].to_vec());
}

#[test]
fn rom_commands_pass_the_request_on() {
    let read = RomRead::new(request(10, 0x1000));
    assert_eq!(
        read.next(),
        Some(RomCommand {
            offset: 0x2000,
            size: 10,
            block_size: 0x1000,
            max_in_flight: 64
        })
    );
    assert_eq!(RomRead::new(request(0, 1)).next(), None);
}

#[test]
fn rom_read_refuses_a_short_payload() {
    let mut read = RomRead::new(request(100, 0x1000));
    assert_eq!(read.accept(&[0; 63]), Err(FlashError::CorruptData(64, 63)));
    assert_eq!(
        read.accept(&[0; 64]),
        Ok(ReadProgress { step: 1, bytes: 64 })
    );
    assert_eq!(read.accept(&[0; 35]), Err(FlashError::CorruptData(36, 35)));
}

#[test]
fn loader_decides_how_a_region_is_read() {
    assert!(matches!(
        read_flash_region(request(8, 4), true),
        RegionRead::Stub(_)
    ));
    assert!(matches!(
        read_flash_region(request(8, 4), false),
        RegionRead::Rom(_)
    ));
}

fn rom_readback(flash: &[u8], size: u32) -> Vec<u8> {
    let mut read = RomRead::new(request(size, 1));
    while let Some(command) = read.next() {
        let start = command.offset as usize;
        let end = start + command.size as usize;
        assert!(read.accept(&flash[start..end]).is_ok());
    }
    read.finish()
}

#[test]
fn faithful_device_passes_and_a_changed_one_is_caught() {
    let written = generate_pattern(0x1000, 3);
    let mut flash = vec![0xff; 0x2000];
    flash.extend_from_slice(&written);
    let readback = rom_readback(&flash, 0x1000);
    assert_eq!(verify_readback(0x2000, &written, &readback), Ok(()));

    flash[0x2345] ^= 0x10;
    let readback = rom_readback(&flash, 0x1000);
    assert_eq!(
        verify_readback(0x2000, &written, &readback),
        Err(ReadbackError::ByteMismatch {
            address: 0x2345,
            expected: written[0x345],
            actual: written[0x345] ^ 0x10
        })
    );
}

#[test]
fn read_progress_shows_the_packets() {
    let contents = generate_pattern(10, 1);
    let mut progress = TestProgress::new("x".to_string(), true, 0);
    progress.begin_phase("read", 1, 1, read_step_count(10, 4, true), 10, 0);
    let mut read = StubRead::new(request(10, 4));
    let mut percents = Vec::new();
    for chunk in contents.chunks(4) {
        let reached = read.accept_chunk(Some(chunk.to_vec())).progress.unwrap();
        progress.update_read_step(reached.step, reached.bytes, 1);
        if let RenderAction::Draw(text) = progress.render(true, 1, "") {
            for percent in [33, 66, 100] {
                if text.contains(&format!("{percent:>3}%")) {
                    percents.push(percent);
                }
            }
        }
    }
    assert_eq!(percents, vec![33, 66, 100]);
}

#[test]
fn the_stub_is_asked_for_what_was_requested() {
    assert_eq!(StubRead::new(request(8, 4)).command(), request(8, 4));
}
