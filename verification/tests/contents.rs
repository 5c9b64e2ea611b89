use flash_benchmark::digest::{check_flash_digest, same_bytes, verify_flash_contents};
use flash_benchmark::flash::FlashError;
use flash_benchmark::pattern::generate_pattern;
use flash_benchmark::readback::{has_mismatch_address, verify_readback, ReadbackError};
use flash_benchmark::run::write_pattern;

#[test]
fn generate_pattern_is_stable() {
    let pattern = generate_pattern(8, 7);
    assert_eq!(pattern.len(), 8);
    assert_ne!(pattern, generate_pattern(8, 8));
}

#[test]
fn patterns_have_known_bytes() {
    assert_eq!(generate_pattern(8, 7), vec![145, 92, 113, 87, 179, 235, 186, 76]);
    assert_eq!(generate_pattern(8, 8), vec![246, 236, 240, 151, 18, 182, 148, 253]);
    assert_eq!(generate_pattern(4, u32::MAX), vec![255, 107, 141, 71]);
    assert_eq!(
        generate_pattern(40, 1)[30..].to_vec(),
        vec![150, 1, 223, 118, 75, 145, 231, 106, 16, 40]
    );
    assert!(generate_pattern(0, 3).is_empty());
}

#[test]
fn longer_patterns_start_with_shorter_ones() {
    let long = generate_pattern(100, 5);
    assert_eq!(generate_pattern(33, 5), long[..33].to_vec());
}

#[test]
fn write_iterations_count_their_seeds_from_one() {
    assert_eq!(write_pattern(64, 0), generate_pattern(64, 1));
    assert_eq!(write_pattern(64, 4), generate_pattern(64, 5));
    assert_ne!(write_pattern(64, 0), write_pattern(64, 1));
}

#[test]
fn equal_readback_passes() {
    assert_eq!(verify_readback(0x1000, &[1, 2, 3], &[1, 2, 3]), Ok(()));
    assert_eq!(verify_readback(u32::MAX, &[], &[]), Ok(()));
}

#[test]
fn readback_of_other_length_is_reported() {
    let error = verify_readback(0x1000, &[1, 2, 3], &[1, 2]).unwrap_err();
    assert_eq!(
        error,
        ReadbackError::LengthMismatch {
            address: 0x1000,
            expected_len: 3,
            actual_len: 2
        }
    );
    assert_eq!(
        error.message(),
        "readback length mismatch at 0x00001000: expected 3 bytes, got 2 bytes"
    );
}

#[test]
fn first_changed_byte_is_located() {
    let error = verify_readback(0xabc000, &[1, 2, 3, 4], &[1, 2, 0xfe, 0]).unwrap_err();
    assert_eq!(
        error,
        ReadbackError::ByteMismatch {
            address: 0xabc002,
            expected: 3,
            actual: 0xfe
        }
    );
    assert_eq!(
        error.message(),
        "readback mismatch at 0x00abc002: expected 0x03, got 0xfe"
    );
}

#[test]
fn flash_digest_is_compared_as_big_endian_number() {
    let abc: u128 = 0x900150983cd24fb0d6963f7d28e17f72;
    assert_eq!(verify_flash_contents(abc, b"abc"), Ok(()));
    assert_eq!(verify_flash_contents(abc, b"abd"), Err(FlashError::VerifyFailed));
    assert_eq!(
        verify_flash_contents(abc.swap_bytes(), b"abc"),
        Err(FlashError::VerifyFailed)
    );
    assert_eq!(
        verify_flash_contents(0xd41d8cd98f00b204e9800998ecf8427e, b""),
        Ok(())
    );
}

#[test]
fn digest_check_takes_any_expected_digest() {
    let digest: Vec<u8> = (0u8..16).collect();
    let number: u128 = 0x000102030405060708090a0b0c0d0e0f;
    assert_eq!(check_flash_digest(number, &digest), Ok(()));
    assert_eq!(
        check_flash_digest(number + 1, &digest),
        Err(FlashError::VerifyFailed)
    );
    assert_eq!(
        check_flash_digest(number, &digest[..15]),
        Err(FlashError::VerifyFailed)
    );
}

#[test]
fn bytes_are_compared_whole() {
    assert!(same_bytes(b"abc", b"abc"));
    assert!(!same_bytes(b"abc", b"ab"));
    assert!(!same_bytes(b"abc", b"abd"));
    assert!(same_bytes(b"", b""));
}

#[test]
fn mismatch_addresses_are_32_bit_numbers() {
    assert!(has_mismatch_address(u32::MAX, &[1, 2], &[9, 2]));
    assert!(!has_mismatch_address(u32::MAX, &[1, 2], &[1, 9]));
    assert!(has_mismatch_address(u32::MAX, &[1, 2], &[1, 2]));
    assert!(has_mismatch_address(u32::MAX, &[1, 2], &[1]));
    assert!(has_mismatch_address(0x1000, &[1, 2], &[1, 9]));
}
