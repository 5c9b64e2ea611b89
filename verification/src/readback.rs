//! Comparing what was read back with what was written.

use crate::text::{decimal, decimal_text, digits, hex, hex_text};
use vstd::prelude::*;

verus! {

/// How a readback differs from what was written.
#[derive(Debug, Clone, Copy, PartialEq, Eq, Structural)]
pub enum ReadbackError {
    /// The two have different lengths.
    LengthMismatch {
        /// Start of the region.
        address: u32,
        /// Number of bytes written.
        expected_len: usize,
        /// Number of bytes read.
        actual_len: usize,
    },
    /// The first byte that differs.
    ByteMismatch {
        /// Where it is.
        address: u32,
        /// What was written there.
        expected: u8,
        /// What was read there.
        actual: u8,
    },
}

/// Whether `i` is the first position at which the two sequences differ.
pub open spec fn is_first_mismatch(expected: Seq<u8>, actual: Seq<u8>, i: int) -> bool {
    &&& 0 <= i < expected.len()
    &&& i < actual.len()
    &&& expected[i] != actual[i]
    &&& forall|j: int| 0 <= j < i ==> expected[j] == actual[j]
}

/// The first position at which two sequences that differ do so.
pub open spec fn first_mismatch(expected: Seq<u8>, actual: Seq<u8>) -> int {
    choose|i: int| is_first_mismatch(expected, actual, i)
}

/// What a comparison of a region at `address` reports.
pub open spec fn readback_report(address: u32, expected: Seq<u8>, actual: Seq<u8>) -> Result<
    (),
    ReadbackError,
> {
    if expected == actual {
        Ok(())
    } else if expected.len() != actual.len() {
        Err(
            ReadbackError::LengthMismatch {
                address,
                expected_len: expected.len() as usize,
                actual_len: actual.len() as usize,
            },
        )
    } else {
        let i = first_mismatch(expected, actual);
        Err(
            ReadbackError::ByteMismatch {
                address: (address + i as u32) as u32,
                expected: expected[i],
                actual: actual[i],
            },
        )
    }
}

/// There is only one first mismatch.
pub proof fn lemma_first_mismatch(expected: Seq<u8>, actual: Seq<u8>, i: int)
    requires
        is_first_mismatch(expected, actual, i),
    ensures
        first_mismatch(expected, actual) == i,
{
    let first = first_mismatch(expected, actual);
    assert(is_first_mismatch(expected, actual, first));
    assert(expected[first] != actual[first]);
    assert(expected[i] != actual[i]);
}

fn find_mismatch(expected: &[u8], actual: &[u8]) -> (found: Option<usize>)
    requires
        expected@.len() == actual@.len(),
    ensures
        match found {
            Some(i) => is_first_mismatch(expected@, actual@, i as int) && first_mismatch(
                expected@,
                actual@,
            ) == i,
            None => expected@ == actual@,
        },
{
    let mut i: usize = 0;
    while i < expected.len()
        invariant
            i <= expected@.len(),
            expected@.len() == actual@.len(),
            forall|j: int| 0 <= j < i ==> expected@[j] == actual@[j],
        decreases expected@.len() - i,
    {
        if expected[i] != actual[i] {
            proof {
                lemma_first_mismatch(expected@, actual@, i as int);
            }
            return Some(i);
        }
        i = i + 1;
    }
    assert(expected@ =~= actual@);
    None
}

/// Whether a comparison of a region at `address` can name the first differing
/// byte, if it has to: its address is a 32-bit number.
pub open spec fn mismatch_has_address(address: u32, expected: Seq<u8>, actual: Seq<u8>) -> bool {
    expected.len() == actual.len() ==> forall|i: int|
        is_first_mismatch(expected, actual, i) ==> address + i as u32 <= u32::MAX
}

/// Whether [`verify_readback`] can be asked about these.
pub fn has_mismatch_address(address: u32, expected: &[u8], actual: &[u8]) -> (fits: bool)
    ensures
        fits == mismatch_has_address(address, expected@, actual@),
        fits <==> expected@.len() != actual@.len() || expected@ == actual@ || exists|i: int|
            {
                &&& 0 <= i < expected@.len()
                &&& #[trigger] expected@[i] != actual@[i]
                &&& expected@.take(i) == actual@.take(i)
                &&& address + i as u32 <= u32::MAX
            },
{
    if expected.len() != actual.len() {
        return true;
    }
    match find_mismatch(expected, actual) {
        Some(i) => {
            let distance: u32 = #[verifier::truncate]
            (i as u32);
            proof {
                assert forall|k: int| is_first_mismatch(expected@, actual@, k) implies k == i by {
                    lemma_first_mismatch(expected@, actual@, k);
                }
                assert(expected@.take(i as int) =~= actual@.take(i as int));
                assert forall|k: int|
                    0 <= k < expected@.len() && #[trigger] expected@[k] != actual@[k]
                        && expected@.take(k) == actual@.take(k) implies k == i by {
                    assert forall|j: int| 0 <= j < k implies expected@[j] == actual@[j] by {
                        assert(expected@.take(k)[j] == actual@.take(k)[j]);
                    }
                    assert(is_first_mismatch(expected@, actual@, k));
                }
            }
            distance <= u32::MAX - address
        },
        None => true,
    }
}

/// Compares what was read back from `address` with what was written there.
pub fn verify_readback(address: u32, expected: &[u8], actual: &[u8]) -> (result: Result<
    (),
    ReadbackError,
>)
    requires
        mismatch_has_address(address, expected@, actual@),
    ensures
        result == readback_report(address, expected@, actual@),
        result is Ok <==> expected@ == actual@,
        result is Err && result->Err_0 is LengthMismatch <==> expected@.len() != actual@.len(),
        result matches Err(ReadbackError::LengthMismatch { address: a, expected_len, actual_len })
            ==> a == address && expected_len == expected@.len() && actual_len == actual@.len(),
        result matches Err(ReadbackError::ByteMismatch { address: a, expected: e, actual: r })
            ==> exists|i: int|
            {
                &&& 0 <= i < expected@.len()
                &&& e == #[trigger] expected@[i]
                &&& r == actual@[i]
                &&& e != r
                &&& expected@.take(i) == actual@.take(i)
                &&& a == address + i as u32
            },
{
    if expected.len() != actual.len() {
        return Err(
            ReadbackError::LengthMismatch {
                address,
                expected_len: expected.len(),
                actual_len: actual.len(),
            },
        );
    }
    match find_mismatch(expected, actual) {
        Some(i) => {
            let distance: u32 = #[verifier::truncate]
            (i as u32);
            Err(
                ReadbackError::ByteMismatch {
                    address: address + distance,
                    expected: expected[i],
                    actual: actual[i],
                },
            )
        },
        None => Ok(()),
    }
}

/// The text of a readback error.
pub open spec fn readback_message(error: ReadbackError) -> Seq<char> {
    match error {
        ReadbackError::LengthMismatch { address, expected_len, actual_len } => {
            "readback length mismatch at 0x"@ + hex(address as nat, 8) + ": expected "@ + decimal(
                expected_len as nat,
            ) + " bytes, got "@ + decimal(actual_len as nat) + " bytes"@
        },
        ReadbackError::ByteMismatch { address, expected, actual } => {
            "readback mismatch at 0x"@ + hex(address as nat, 8) + ": expected 0x"@ + hex(
                expected as nat,
                2,
            ) + ", got 0x"@ + hex(actual as nat, 2)
        },
    }
}

impl ReadbackError {
    /// The message for the user.
    pub fn message(&self) -> (text: String)
        ensures
            text@ == readback_message(*self),
    {
        let mut out = String::new();
        match self {
            ReadbackError::LengthMismatch { address, expected_len, actual_len } => {
                out.append("readback length mismatch at 0x");
                out.append(hex_text(*address as u64, 8).as_str());
                out.append(": expected ");
                out.append(decimal_text(*expected_len as u64).as_str());
                out.append(" bytes, got ");
                out.append(decimal_text(*actual_len as u64).as_str());
                out.append(" bytes");
            },
            ReadbackError::ByteMismatch { address, expected, actual } => {
                out.append("readback mismatch at 0x");
                out.append(hex_text(*address as u64, 8).as_str());
                out.append(": expected 0x");
                out.append(hex_text(*expected as u64, 2).as_str());
                out.append(", got 0x");
                out.append(hex_text(*actual as u64, 2).as_str());
            },
        }
        assert(out@ =~= readback_message(*self));
        out
    }
}

/// A readback of exactly what was written passes; a single changed byte is
/// reported at its own address, with both values.
pub proof fn law_changed_byte_is_located(address: u32, written: Seq<u8>, i: int, byte: u8)
    requires
        0 <= i < written.len(),
        address + i <= u32::MAX,
        byte != written[i],
    ensures
        readback_report(address, written, written) is Ok,
        readback_report(address, written, written.update(i, byte)) == Err::<(), ReadbackError>(
            ReadbackError::ByteMismatch {
                address: (address + i) as u32,
                expected: written[i],
                actual: byte,
            },
        ),
{
    let read = written.update(i, byte);
    assert(is_first_mismatch(written, read, i));
    lemma_first_mismatch(written, read, i);
    assert(read[i] == byte);
}

/// A byte mismatch is always a real one: both values stand at the reported place
/// and everything before it is equal.
pub proof fn law_reported_mismatch_is_real(address: u32, expected: Seq<u8>, actual: Seq<u8>)
    requires
        expected.len() == actual.len(),
        expected != actual,
    ensures
        is_first_mismatch(expected, actual, first_mismatch(expected, actual)),
        readback_report(address, expected, actual) matches Err(
            ReadbackError::ByteMismatch { expected: e, actual: a, .. },
        ) && e == expected[first_mismatch(expected, actual)] && a == actual[first_mismatch(
            expected,
            actual,
        )],
{
    lemma_some_mismatch(expected, actual, 0);
}

proof fn lemma_some_mismatch(expected: Seq<u8>, actual: Seq<u8>, from: int)
    requires
        expected.len() == actual.len(),
        expected != actual,
        0 <= from <= expected.len(),
        forall|j: int| 0 <= j < from ==> expected[j] == actual[j],
    ensures
        exists|i: int| is_first_mismatch(expected, actual, i),
    decreases expected.len() - from,
{
    if from == expected.len() {
        assert(expected =~= actual);
    } else if expected[from] != actual[from] {
        assert(is_first_mismatch(expected, actual, from));
    } else {
        lemma_some_mismatch(expected, actual, from + 1);
    }
}

/// A comparison passes exactly if both are the same. Different lengths are reported
/// as such, with both of them and the start of the region. Else the first
/// differing byte is reported: up to it both are the same, and its address is that
/// of the region plus its position.
pub proof fn law_readback_reports(address: u32, expected: Seq<u8>, actual: Seq<u8>, i: int)
    requires
        expected.len() <= usize::MAX,
        actual.len() <= usize::MAX,
    ensures
        readback_report(address, expected, actual) is Ok <==> expected == actual,
        expected.len() != actual.len() ==> readback_report(address, expected, actual) == Err::<
            (),
            ReadbackError,
        >(
            ReadbackError::LengthMismatch {
                address,
                expected_len: expected.len() as usize,
                actual_len: actual.len() as usize,
            },
        ),
        expected.len() == actual.len() && 0 <= i < expected.len() && expected[i] != actual[i]
            && expected.take(i) == actual.take(i) && address + i <= u32::MAX ==> readback_report(
            address,
            expected,
            actual,
        ) == Err::<(), ReadbackError>(
            ReadbackError::ByteMismatch {
                address: (address + i) as u32,
                expected: expected[i],
                actual: actual[i],
            },
        ),
{
    if expected.len() == actual.len() && 0 <= i < expected.len() && expected[i] != actual[i]
        && expected.take(i) == actual.take(i) {
        assert forall|j: int| 0 <= j < i implies expected[j] == actual[j] by {
            assert(expected.take(i)[j] == actual.take(i)[j]);
        }
        assert(is_first_mismatch(expected, actual, i));
        lemma_first_mismatch(expected, actual, i);
    }
}

/// Where a mismatch cannot be given an address, the addresses do not reach that
/// far; everything else can be compared.
pub proof fn law_mismatch_beyond_the_addresses(
    address: u32,
    expected: Seq<u8>,
    actual: Seq<u8>,
    i: int,
)
    ensures
        expected.len() != actual.len() || expected == actual || address + expected.len()
            <= 0x1_0000_0000 ==> mismatch_has_address(address, expected, actual),
        expected.len() == actual.len() && 0 <= i < expected.len() && expected[i] != actual[i]
            && expected.take(i) == actual.take(i) ==> (mismatch_has_address(
            address,
            expected,
            actual,
        ) <==> address + i as u32 <= u32::MAX),
{
    if expected.len() == actual.len() && 0 <= i < expected.len() && expected[i] != actual[i]
        && expected.take(i) == actual.take(i) {
        assert forall|j: int| 0 <= j < i implies expected[j] == actual[j] by {
            assert(expected.take(i)[j] == actual.take(i)[j]);
        }
        assert(is_first_mismatch(expected, actual, i));
        assert forall|k: int| is_first_mismatch(expected, actual, k) implies k == i by {
            lemma_first_mismatch(expected, actual, i);
            lemma_first_mismatch(expected, actual, k);
        }
    }
}

/// A message says where, what was expected and what was found instead, the numbers
/// of bytes in decimal and the rest in hexadecimal of fixed width.
pub proof fn law_readback_messages(address: u32, lens: (usize, usize), bytes: (u8, u8))
    ensures
        readback_message(
            ReadbackError::LengthMismatch { address, expected_len: lens.0, actual_len: lens.1 },
        ) == "readback length mismatch at 0x"@ + hex(address as nat, 8) + ": expected "@ + digits(
            lens.0 as nat,
            10,
        ) + " bytes, got "@ + digits(lens.1 as nat, 10) + " bytes"@,
        readback_message(
            ReadbackError::ByteMismatch { address, expected: bytes.0, actual: bytes.1 },
        ) == "readback mismatch at 0x"@ + hex(address as nat, 8) + ": expected 0x"@ + hex(
            bytes.0 as nat,
            2,
        ) + ", got 0x"@ + hex(bytes.1 as nat, 2),
{
}

} // verus!
