//! MD5 digests of flash contents.

use crate::flash::FlashError;
use md5::{Digest, Md5};
use vstd::prelude::*;

verus! {

/// The length of an MD5 digest in bytes.
pub const MD5_LEN: usize = 16;

/// The MD5 digest of `data`.
pub uninterp spec fn md5_of(data: Seq<u8>) -> Seq<u8>;

/// Calls `md5::Md5::digest`. Trusted: the digest depends on the bytes of `data`
/// alone and is sixteen bytes long. Which digest belongs to which data is left
/// unsaid: it has only a name, `md5_of`.
#[verifier::external_body]
pub(crate) fn md5_digest(data: &[u8]) -> (digest: Vec<u8>)
    ensures
        digest@ == md5_of(data@),
        digest@.len() == MD5_LEN,
{
    Md5::digest(data).to_vec()
}

/// The bytes of `value`, most significant byte first.
pub open spec fn big_endian(value: u128) -> Seq<u8> {
    Seq::new(MD5_LEN as nat, |i: int| (value >> ((120 - 8 * i) as u128)) as u8)
}

/// Whether two byte strings are the same.
pub fn same_bytes(a: &[u8], b: &[u8]) -> (same: bool)
    ensures
        same == (a@ == b@),
{
    if a.len() != b.len() {
        return false;
    }
    let mut i: usize = 0;
    while i < a.len()
        invariant
            i <= a@.len(),
            a@.len() == b@.len(),
            forall|j: int| 0 <= j < i ==> a@[j] == b@[j],
        decreases a@.len() - i,
    {
        if a[i] != b[i] {
            return false;
        }
        i = i + 1;
    }
    assert(a@ =~= b@);
    true
}

fn big_endian_bytes(value: u128) -> (bytes: Vec<u8>)
    ensures
        bytes@ == big_endian(value),
{
    let mut bytes: Vec<u8> = Vec::new();
    let mut i: usize = 0;
    while i < MD5_LEN
        invariant
            i <= MD5_LEN,
            bytes@ == big_endian(value).take(i as int),
        decreases MD5_LEN - i,
    {
        let shift: u128 = 120 - 8 * (i as u128);
        let byte: u8 = #[verifier::truncate]
        ((value >> shift) as u8);
        bytes.push(byte);
        i = i + 1;
        assert(bytes@ =~= big_endian(value).take(i as int));
    }
    assert(big_endian(value).take(MD5_LEN as int) =~= big_endian(value));
    bytes
}

/// Compares the digest that the device reports for a flash region, as one
/// number, with the digest of what the region should hold.
pub fn check_flash_digest(flash_md5: u128, expected_md5: &[u8]) -> (result: Result<(), FlashError>)
    ensures
        result == flash_verdict(flash_md5, expected_md5@),
        result is Ok <==> expected_md5@.len() == 16 && forall|i: int|
            0 <= i < 16 ==> #[trigger] expected_md5@[i] == (flash_md5 >> ((120 - 8 * i)
                as u128)) as u8,
        result matches Err(error) ==> error is VerifyFailed,
{
    let flash_bytes = big_endian_bytes(flash_md5);
    assert(expected_md5@.len() == 16 && (forall|i: int|
        0 <= i < 16 ==> #[trigger] expected_md5@[i] == (flash_md5 >> ((120 - 8 * i) as u128)) as u8)
        ==> expected_md5@ =~= big_endian(flash_md5));
    if same_bytes(flash_bytes.as_slice(), expected_md5) {
        Ok(())
    } else {
        Err(FlashError::VerifyFailed)
    }
}

/// Success exactly if the reported digest, read as big-endian bytes, is the
/// expected one.
pub open spec fn flash_verdict(flash_md5: u128, expected_md5: Seq<u8>) -> Result<(), FlashError> {
    if big_endian(flash_md5) == expected_md5 {
        Ok(())
    } else {
        Err(FlashError::VerifyFailed)
    }
}

/// Checks a flash region that should hold `expected`, given the MD5 digest that
/// the device reports for it.
pub fn verify_flash_contents(flash_md5: u128, expected: &[u8]) -> (result: Result<(), FlashError>)
    ensures
        result == flash_verdict(flash_md5, md5_of(expected@)),
{
    let expected_md5 = md5_digest(expected);
    check_flash_digest(flash_md5, expected_md5.as_slice())
}

/// At most one reported number passes for a given digest: two numbers with the
/// same bytes are equal.
pub proof fn law_one_reported_digest_passes(a: u128, b: u128, expected_md5: Seq<u8>)
    requires
        flash_verdict(a, expected_md5) is Ok,
        flash_verdict(b, expected_md5) is Ok,
    ensures
        a == b,
{
    let x = big_endian(a);
    let y = big_endian(b);
    assert(forall|i: int| 0 <= i < 16 ==> x[i] == y[i]);
    assert(x[0] == y[0] && x[1] == y[1] && x[2] == y[2] && x[3] == y[3]);
    assert(x[4] == y[4] && x[5] == y[5] && x[6] == y[6] && x[7] == y[7]);
    assert(x[8] == y[8] && x[9] == y[9] && x[10] == y[10] && x[11] == y[11]);
    assert(x[12] == y[12] && x[13] == y[13] && x[14] == y[14] && x[15] == y[15]);
    assert(a == b) by (bit_vector)
        requires
            (a >> 120) as u8 == (b >> 120) as u8,
            (a >> 112) as u8 == (b >> 112) as u8,
            (a >> 104) as u8 == (b >> 104) as u8,
            (a >> 96) as u8 == (b >> 96) as u8,
            (a >> 88) as u8 == (b >> 88) as u8,
            (a >> 80) as u8 == (b >> 80) as u8,
            (a >> 72) as u8 == (b >> 72) as u8,
            (a >> 64) as u8 == (b >> 64) as u8,
            (a >> 56) as u8 == (b >> 56) as u8,
            (a >> 48) as u8 == (b >> 48) as u8,
            (a >> 40) as u8 == (b >> 40) as u8,
            (a >> 32) as u8 == (b >> 32) as u8,
            (a >> 24) as u8 == (b >> 24) as u8,
            (a >> 16) as u8 == (b >> 16) as u8,
            (a >> 8) as u8 == (b >> 8) as u8,
            (a >> 0) as u8 == (b >> 0) as u8,
    ;
}

/// A device that reports the digest of what its flash holds passes if that is
/// what it should hold, and one that does not pass holds something else.
pub proof fn law_truthful_device_verifies(flash_md5: u128, held: Seq<u8>, expected: Seq<u8>)
    requires
        big_endian(flash_md5) == md5_of(held),
    ensures
        held == expected ==> flash_verdict(flash_md5, md5_of(expected)) is Ok,
        flash_verdict(flash_md5, md5_of(expected)) is Err ==> held != expected,
{
}

/// The reported number is the expected digest read as one number: each byte counts
/// 256 times as much as the one behind it. Nothing else passes, and what does not
/// pass has failed the verification.
pub proof fn law_reported_digest_is_one_number(flash_md5: u128, expected_md5: Seq<u8>)
    ensures
        flash_verdict(flash_md5, expected_md5) is Ok <==> expected_md5.len() == 16
            && expected_md5.fold_left(0int, |value: int, byte: u8| value * 256 + byte)
            == flash_md5,
        flash_verdict(flash_md5, expected_md5) matches Err(error) ==> error is VerifyFailed,
{
    let read = |value: int, byte: u8| value * 256 + byte;
    lemma_reads_back(flash_md5, 16);
    assert(big_endian(flash_md5).take(16) =~= big_endian(flash_md5));
    assert(flash_md5 >> 0u128 == flash_md5) by (bit_vector);
    assert(big_endian(flash_md5).fold_left(0int, read) == flash_md5);
    if expected_md5.len() == 16 && expected_md5.fold_left(0int, read) == flash_md5 {
        lemma_same_number_same_bytes(expected_md5, big_endian(flash_md5));
    }
}

proof fn lemma_reads_back(value: u128, n: nat)
    requires
        1 <= n <= 16,
    ensures
        big_endian(value).take(n as int).fold_left(
            0int,
            |value: int, byte: u8| value * 256 + byte,
        ) == value >> ((128 - 8 * n) as u128),
    decreases n,
{
    reveal_with_fuel(Seq::fold_left, 2);
    let taken = big_endian(value).take(n as int);
    let shift = (128 - 8 * n) as u128;
    if n == 1 {
        assert(taken.drop_last() =~= Seq::<u8>::empty());
        assert((value >> 120u128) as u8 == value >> 120u128) by (bit_vector);
    } else {
        lemma_reads_back(value, (n - 1) as nat);
        assert(taken.drop_last() =~= big_endian(value).take(n - 1));
        let more = (shift + 8) as u128;
        assert(value >> shift == (value >> more) * 256 + ((value >> shift) as u8)) by (bit_vector)
            requires
                shift <= 112,
                more == shift + 8,
        ;
        assert(taken.last() == (value >> shift) as u8);
    }
}

proof fn lemma_same_number_same_bytes(a: Seq<u8>, b: Seq<u8>)
    requires
        a.len() == b.len(),
        a.fold_left(0int, |value: int, byte: u8| value * 256 + byte) == b.fold_left(
            0int,
            |value: int, byte: u8| value * 256 + byte,
        ),
    ensures
        a == b,
    decreases a.len(),
{
    reveal_with_fuel(Seq::fold_left, 2);
    if a.len() > 0 {
        lemma_same_number_same_bytes(a.drop_last(), b.drop_last());
        assert(a =~= a.drop_last().push(a.last()));
        assert(b =~= b.drop_last().push(b.last()));
    } else {
        assert(a =~= b);
    }
}

} // verus!
