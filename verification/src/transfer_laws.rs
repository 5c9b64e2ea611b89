//! What holds of whole reads, whatever the device sends.

use crate::digest::md5_of;
use crate::flash::FlashError;
use crate::progress::ProgressState;
use crate::readback::readback_report;
use crate::transfer::{
    ceil_div, digest_verdict, lemma_ceil_div, rom_chunk_len, rom_command, rom_progress, smaller,
    step_count, stub_action, stub_progress, stub_reply, ReadProgress, ReadRequest, StubAction,
    ROM_BLOCK_LEN,
};
use vstd::prelude::*;

verus! {

/// The packets one after the other.
pub open spec fn joined(chunks: Seq<Seq<u8>>) -> Seq<u8>
    decreases chunks.len(),
{
    if chunks.len() == 0 {
        Seq::empty()
    } else {
        joined(chunks.drop_last()) + chunks.last()
    }
}

/// Whether a stub read asks for and acknowledges each of these packets in turn.
pub open spec fn stub_accepts(request: ReadRequest, chunks: Seq<Seq<u8>>) -> bool
    decreases chunks.len(),
{
    chunks.len() == 0 || {
        &&& stub_accepts(request, chunks.drop_last())
        &&& stub_action(request, joined(chunks.drop_last()).len()) is AwaitChunk
        &&& stub_reply(request, joined(chunks).len(), chunks.last().len()) is Ok
    }
}

/// `contents` cut into blocks of `block` bytes; the last one may be shorter.
pub open spec fn blocks(contents: Seq<u8>, block: nat) -> Seq<Seq<u8>> {
    Seq::new(
        ceil_div(contents.len(), block),
        |k: int|
            contents.subrange(k * block, smaller(((k + 1) * block) as nat, contents.len()) as int),
    )
}

proof fn lemma_blocks_prefix(request: ReadRequest, contents: Seq<u8>, n: nat)
    requires
        request.block_size > 0,
        contents.len() == request.size,
        n <= ceil_div(contents.len(), request.block_size as nat),
    ensures
        ({
            let taken = blocks(contents, request.block_size as nat).take(n as int);
            let len = smaller(n * request.block_size as nat, contents.len()) as int;
            &&& joined(taken) == contents.take(len)
            &&& stub_accepts(request, taken)
        }),
    decreases n,
{
    let block = request.block_size as nat;
    let all = blocks(contents, block);
    let taken = all.take(n as int);
    lemma_ceil_div(contents.len(), block);
    if n == 0 {
        assert(n * block == 0) by (nonlinear_arith)
            requires
                n == 0,
        ;
        assert(contents.take(0) =~= Seq::<u8>::empty());
    } else {
        let m = (n - 1) as nat;
        lemma_blocks_prefix(request, contents, m);
        assert(taken.drop_last() =~= all.take(m as int));
        let start = (m * block) as int;
        let count = ceil_div(contents.len(), block);
        assert(m * block <= (count - 1) * block) by (nonlinear_arith)
            requires
                m <= count - 1,
                block > 0,
        ;
        assert((m + 1) * block == m * block + block) by (nonlinear_arith);
        let end = smaller(n * block, contents.len()) as int;
        assert(taken.last() =~= contents.subrange(start, end));
        assert(joined(taken) =~= contents.take(end));
        assert(joined(taken.drop_last()).len() == start);
        assert(end < request.size ==> taken.last().len() == block);
    }
}

/// A stub read gives back what the device holds: if the device sends the
/// contents of the region in blocks, every packet is acknowledged, the packets
/// make up the contents, there are as many as `step_count` says, and the digest
/// is awaited after the last one and not before.
pub proof fn law_stub_read_returns_contents(request: ReadRequest, contents: Seq<u8>)
    requires
        request.block_size > 0,
        contents.len() == request.size,
    ensures
        ({
            let sent = blocks(contents, request.block_size as nat);
            &&& stub_accepts(request, sent)
            &&& joined(sent) == contents
            &&& sent.len() == step_count(request.size, request.block_size, true)
            &&& stub_action(request, joined(sent).len()) is AwaitDigest
        }),
{
    let block = request.block_size as nat;
    let sent = blocks(contents, block);
    let count = ceil_div(contents.len(), block);
    lemma_blocks_prefix(request, contents, count);
    lemma_ceil_div(contents.len(), block);
    assert(sent.take(count as int) =~= sent);
    assert(contents.take(contents.len() as int) =~= contents);
}

/// While the device sends the contents of a region in blocks, the progress after
/// the packet number `k` (counted from zero) is step `k + 1` and the bytes up to
/// the end of that packet, which is also what is acknowledged.
pub proof fn law_stub_progress_counts_packets(request: ReadRequest, contents: Seq<u8>, k: nat)
    requires
        request.block_size > 0,
        contents.len() == request.size,
        k < step_count(request.size, request.block_size, true),
    ensures
        ({
            let sent = blocks(contents, request.block_size as nat);
            let before = joined(sent.take(k as int)).len();
            let received = joined(sent.take((k + 1) as int)).len();
            &&& before == k * request.block_size
            &&& received == smaller((k + 1) * request.block_size as nat, request.size as nat)
            &&& stub_progress(request, before, received) == ReadProgress {
                step: (k + 1) as usize,
                bytes: received as usize,
            }
            &&& stub_reply(request, received, sent[k as int].len()) == Ok::<u32, FlashError>(
                received as u32,
            )
        }),
{
    let block = request.block_size as nat;
    let count = ceil_div(contents.len(), block);
    lemma_ceil_div(contents.len(), block);
    lemma_blocks_prefix(request, contents, k);
    lemma_blocks_prefix(request, contents, k + 1);
    let sent = blocks(contents, block);
    assert(sent.take((k + 1) as int).last() == sent[k as int]);
    assert(k * block <= (count - 1) * block) by (nonlinear_arith)
        requires
            k <= count - 1,
            block > 0,
    ;
    lemma_ceil_div(k * block, block);
    assert((k * block) % block == 0 && (k * block) / block == k) by (nonlinear_arith)
        requires
            block > 0,
    ;
}

/// While the device sends the contents of a region in blocks, the progress line
/// of an iteration that was begun for as many steps shows the packets received
/// among all packets.
pub proof fn law_stub_progress_is_shown(
    request: ReadRequest,
    contents: Seq<u8>,
    k: nat,
    state: ProgressState,
    phase: Seq<char>,
    iteration: usize,
    total_iterations: usize,
    now: u128,
)
    requires
        request.block_size > 0,
        contents.len() == request.size,
        k < step_count(request.size, request.block_size, true),
    ensures
        ({
            let sent = blocks(contents, request.block_size as nat);
            let before = joined(sent.take(k as int)).len();
            let received = joined(sent.take((k + 1) as int)).len();
            let steps = step_count(request.size, request.block_size, true);
            let begun = state.begun(
                phase,
                iteration,
                total_iterations,
                steps as usize,
                request.size as usize,
                now,
            );
            let shown = begun.advanced(stub_progress(request, before, received).step);
            &&& shown.current_step == k + 1
            &&& shown.total_steps == sent.len()
        }),
{
    law_stub_progress_counts_packets(request, contents, k);
    lemma_ceil_div(contents.len(), request.block_size as nat);
}

/// A stub read never takes more packets than `step_count` says, since only the
/// last packet may be shorter than a block.
pub proof fn law_stub_packet_count(request: ReadRequest, chunks: Seq<Seq<u8>>)
    requires
        request.block_size > 0,
        stub_accepts(request, chunks),
    ensures
        chunks.len() <= step_count(request.size, request.block_size, true),
{
    let block = request.block_size as nat;
    let count = ceil_div(request.size as nat, block);
    if chunks.len() > 0 {
        lemma_full_packets(request, chunks.drop_last());
        lemma_ceil_div(request.size as nat, block);
        let n = chunks.len() - 1;
        if n >= count {
            assert(n * block >= count * block) by (nonlinear_arith)
                requires
                    n >= count,
            ;
        }
    }
}

proof fn lemma_full_packets(request: ReadRequest, chunks: Seq<Seq<u8>>)
    requires
        stub_accepts(request, chunks),
        joined(chunks).len() < request.size,
    ensures
        joined(chunks).len() >= chunks.len() * request.block_size,
    decreases chunks.len(),
{
    if chunks.len() > 0 {
        let before = chunks.drop_last();
        lemma_full_packets(request, before);
        assert((before.len() + 1) * request.block_size == before.len() * request.block_size
            + request.block_size) by (nonlinear_arith);
    }
}

/// What a ROM read holds after `n` truthful answers of a device with the given
/// flash contents.
pub open spec fn rom_received(request: ReadRequest, flash: Seq<u8>, n: nat) -> Seq<u8>
    decreases n,
{
    if n == 0 {
        Seq::empty()
    } else {
        let before = rom_received(request, flash, (n - 1) as nat);
        match rom_command(request, before.len()) {
            Some(command) => before + flash.subrange(
                command.offset as int,
                command.offset + command.size,
            ),
            None => before,
        }
    }
}

/// A ROM read gives back what the device holds: the commands walk through the
/// region without gap or overlap, the progress counts them, and after
/// `step_count` answers the read ends with the contents of the region.
pub proof fn law_rom_read_returns_contents(request: ReadRequest, flash: Seq<u8>, n: nat)
    requires
        request.offset + request.size <= flash.len(),
        flash.len() <= 0x1_0000_0000,
        n <= step_count(request.size, request.block_size, false),
    ensures
        ({
            let received = rom_received(request, flash, n);
            &&& received == flash.subrange(request.offset as int, request.offset + received.len())
            &&& received.len() == smaller(n * ROM_BLOCK_LEN as nat, request.size as nat)
            &&& n < step_count(request.size, request.block_size, false) ==> {
                &&& rom_command(request, received.len()) matches Some(command)
                &&& command.offset == request.offset + received.len()
                &&& command.offset + command.size <= request.offset + request.size
                &&& rom_progress(request, received.len()).step == n + 1
            }
            &&& n == step_count(request.size, request.block_size, false) ==> {
                &&& rom_command(request, received.len()) is None
                &&& received == flash.subrange(
                    request.offset as int,
                    request.offset + request.size,
                )
            }
        }),
    decreases n,
{
    lemma_ceil_div(request.size as nat, ROM_BLOCK_LEN as nat);
    if n == 0 {
        assert(rom_received(request, flash, n) =~= flash.subrange(
            request.offset as int,
            request.offset as int,
        ));
    } else {
        law_rom_read_returns_contents(request, flash, (n - 1) as nat);
        let before = rom_received(request, flash, (n - 1) as nat);
        let received = rom_received(request, flash, n);
        assert(received =~= flash.subrange(
            request.offset as int,
            request.offset + received.len(),
        ));
    }
}

/// A device that keeps what was written passes the read phase, by either loader:
/// what the read gathers is the written data, and the comparison finds nothing.
pub proof fn law_faithful_device_passes(request: ReadRequest, flash: Seq<u8>, written: Seq<u8>)
    requires
        request.block_size > 0,
        request.offset + request.size <= flash.len(),
        flash.len() <= 0x1_0000_0000,
        written == flash.subrange(request.offset as int, request.offset + request.size),
    ensures
        ({
            let by_stub = joined(blocks(written, request.block_size as nat));
            let by_rom = rom_received(
                request,
                flash,
                step_count(request.size, request.block_size, false),
            );
            &&& stub_accepts(request, blocks(written, request.block_size as nat))
            &&& readback_report(request.offset, written, by_stub) is Ok
            &&& readback_report(request.offset, written, by_rom) is Ok
        }),
{
    law_stub_read_returns_contents(request, written);
    law_rom_read_returns_contents(
        request,
        flash,
        step_count(request.size, request.block_size, false),
    );
}

/// A device that lost something of what was written does not pass the read
/// phase: the comparison fails, by either loader.
pub proof fn law_changed_device_is_caught(request: ReadRequest, flash: Seq<u8>, written: Seq<u8>)
    requires
        request.block_size > 0,
        request.offset + request.size <= flash.len(),
        flash.len() <= 0x1_0000_0000,
        written != flash.subrange(request.offset as int, request.offset + request.size),
    ensures
        ({
            let held = flash.subrange(request.offset as int, request.offset + request.size);
            let by_stub = joined(blocks(held, request.block_size as nat));
            let by_rom = rom_received(
                request,
                flash,
                step_count(request.size, request.block_size, false),
            );
            &&& readback_report(request.offset, written, by_stub) is Err
            &&& readback_report(request.offset, written, by_rom) is Err
        }),
{
    let held = flash.subrange(request.offset as int, request.offset + request.size);
    law_stub_read_returns_contents(request, held);
    law_rom_read_returns_contents(
        request,
        flash,
        step_count(request.size, request.block_size, false),
    );
}

/// The steps of a read are as few packets or commands as hold the region: they
/// reach its end, and one fewer does not.
pub proof fn law_steps_cover_the_region(size: u32, block_size: u32, use_stub: bool)
    requires
        use_stub ==> block_size > 0,
    ensures
        ({
            let steps = step_count(size, block_size, use_stub);
            let block = if use_stub {
                block_size as int
            } else {
                64
            };
            &&& size <= steps * block
            &&& size > 0 ==> (steps - 1) * block < size
            &&& size == 0 ==> steps == 0
        }),
{
    lemma_ceil_div(
        size as nat,
        if use_stub {
            block_size as nat
        } else {
            64
        },
    );
}

/// A stub read asks for packets until it has as many bytes as it wants, then for
/// the digest; more bytes are an error. It acknowledges each packet with the
/// number of bytes received, as 32 bits, unless the packet is shorter than a block
/// and not the last one.
pub proof fn law_stub_answers(request: ReadRequest, received: nat, chunk_len: nat)
    requires
        chunk_len <= usize::MAX,
    ensures
        stub_action(request, received) is AwaitChunk <==> received < request.size,
        stub_action(request, received) is AwaitDigest <==> received == request.size,
        received > request.size ==> (stub_action(request, received) matches StubAction::Reject(
            error,
        ) && error is ReadMoreThanExpected),
        stub_reply(request, received, chunk_len) is Err <==> received < request.size && chunk_len
            < request.block_size,
        stub_reply(request, received, chunk_len) matches Err(error) ==> (error
            matches FlashError::CorruptData(expected, sent) && expected == request.block_size
            && sent == chunk_len),
        stub_reply(request, received, chunk_len) matches Ok(acknowledged) ==> (received
            - acknowledged) % 0x1_0000_0000 == 0,
{
}

/// The progress of a stub read never passes the region: neither the bytes nor the
/// packets. While the blocks are full it counts them one by one.
pub proof fn law_stub_progress_stays_in_the_region(
    request: ReadRequest,
    before: nat,
    received: nat,
)
    requires
        request.block_size > 0,
        before < request.size,
    ensures
        ({
            let progress = stub_progress(request, before, received);
            let packets = (request.size + request.block_size - 1) / request.block_size as int;
            let packet = (before + request.block_size - 1) / request.block_size as int + 1;
            &&& progress.bytes <= request.size
            &&& progress.bytes == received || progress.bytes == request.size < received
            &&& 1 <= progress.step <= packets
            &&& progress.step == packet || progress.step == packets < packet
        }),
{
    let block = request.block_size as nat;
    lemma_ceil_div(before, block);
    lemma_ceil_div(request.size as nat, block);
    assert((request.size + block - 1) / block as int >= 1) by (nonlinear_arith)
        requires
            request.size >= 1,
            block >= 1,
    ;
}

/// What a stub read hands over is what it has received, whatever its length, and
/// it does so exactly if the device confirms the checksum of that. Else the frame
/// was empty, not a digest, or another digest, and the error says which.
pub proof fn law_stub_read_hands_over_what_it_received(
    data: Seq<u8>,
    digest: Option<Seq<u8>>,
    checksum: Seq<u8>,
    result: Result<Vec<u8>, FlashError>,
)
    requires
        digest_verdict(data, digest, checksum, result),
        checksum.len() == 16,
    ensures
        result is Ok <==> digest == Some(checksum),
        result matches Ok(bytes) ==> bytes@ == data,
        result matches Err(error) ==> match error {
            FlashError::IncorrectResponse => digest is None,
            FlashError::IncorrectDigestLength(len) => digest is Some && digest->0.len() == len
                && len != 16,
            FlashError::DigestMismatch(theirs, ours) => digest == Some(theirs@) && ours@
                == checksum && theirs@ != ours@ && theirs@.len() == 16,
            _ => false,
        },
{
}

/// A stub read returns exactly what the region holds: if the device sends the
/// contents in blocks and then their digest, every packet is asked for and
/// acknowledged, and the read ends well, with the contents.
pub proof fn law_good_stub_read_ends_with_the_contents(
    request: ReadRequest,
    contents: Seq<u8>,
    result: Result<Vec<u8>, FlashError>,
)
    requires
        request.block_size > 0,
        contents.len() == request.size,
        md5_of(contents).len() == 16,
        digest_verdict(
            joined(blocks(contents, request.block_size as nat)),
            Some(md5_of(contents)),
            md5_of(joined(blocks(contents, request.block_size as nat))),
            result,
        ),
    ensures
        stub_accepts(request, blocks(contents, request.block_size as nat)),
        result matches Ok(bytes) && bytes@ == contents,
{
    law_stub_read_returns_contents(request, contents);
}

/// The pieces of a region are its bytes in order: the byte `i` of the contents
/// stands in the piece `i / block` at the place `i % block`.
pub proof fn law_blocks_hold_the_contents(contents: Seq<u8>, block: nat, i: int)
    requires
        block > 0,
        0 <= i < contents.len(),
    ensures
        0 <= i / (block as int) < blocks(contents, block).len(),
        blocks(contents, block)[i / block as int][i % block as int] == contents[i],
{
    lemma_ceil_div(contents.len(), block);
    let k = i / block as int;
    let r = i % block as int;
    let count = ceil_div(contents.len(), block);
    assert(k * block + r == i && 0 <= r < block && k >= 0) by (nonlinear_arith)
        requires
            block > 0,
            i >= 0,
            k == i / block as int,
            r == i % block as int,
    ;
    assert((k + 1) * block == k * block + block) by (nonlinear_arith);
    if k >= count {
        assert(k * block >= count * block) by (nonlinear_arith)
            requires
                k >= count,
                block > 0,
        ;
    }
}

/// A ROM read sends a command as long as bytes are missing. Each asks for the next
/// bytes of the region, at most 64 and no more than are missing, and passes the
/// packet parameters on.
pub proof fn law_rom_commands(request: ReadRequest, received: nat)
    requires
        request.offset + received <= u32::MAX,
    ensures
        rom_command(request, received) is Some <==> received < request.size,
        rom_command(request, received) matches Some(command) ==> {
            &&& command.offset == request.offset + received
            &&& 0 < command.size <= 64
            &&& received + command.size <= request.size
            &&& command.size == 64 || received + command.size == request.size
            &&& command.block_size == request.block_size
            &&& command.max_in_flight == request.max_in_flight
            &&& rom_chunk_len(request, received) == command.size
            &&& rom_progress(request, received).step == received / 64 + 1
            &&& rom_progress(request, received).bytes == received + command.size
        },
{
}

} // verus!
