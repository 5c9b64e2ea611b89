//! Reading a flash region: the exchange with the flasher stub and with the ROM
//! loader, as state machines that are fed with the answers of the device.

use crate::digest::{md5_digest, md5_of, same_bytes, MD5_LEN};
use crate::flash::FlashError;
use vstd::prelude::*;
use vstd::slice::slice_subrange;

verus! {

/// How many bytes the ROM loader returns for one read command at most.
pub const ROM_BLOCK_LEN: usize = 64;

/// A flash region to read and how the stub should send it.
#[derive(Debug, Clone, Copy, PartialEq, Eq, Structural)]
pub struct ReadRequest {
    /// Address of the first byte.
    pub offset: u32,
    /// Number of bytes.
    pub size: u32,
    /// Number of bytes in one packet of the stub.
    pub block_size: u32,
    /// Number of packets that the stub sends ahead of their acknowledgement.
    pub max_in_flight: u32,
}

/// How far a read has come.
#[derive(Debug, Clone, Copy, PartialEq, Eq, Structural)]
pub struct ReadProgress {
    /// The step that was just done, counted from one.
    pub step: usize,
    /// The bytes read so far.
    pub bytes: usize,
}

/// `n / d`, rounded up.
pub open spec fn ceil_div(n: nat, d: nat) -> nat {
    ((n + d - 1) / d as int) as nat
}

/// The smaller of two numbers.
pub open spec fn smaller(a: nat, b: nat) -> nat {
    if a < b {
        a
    } else {
        b
    }
}

/// Number of steps of a read: packets of the stub, or commands to the ROM
/// loader.
pub open spec fn step_count(size: u32, block_size: u32, use_stub: bool) -> nat {
    ceil_div(
        size as nat,
        if use_stub {
            block_size as nat
        } else {
            ROM_BLOCK_LEN as nat
        },
    )
}

/// `ceil_div` is the least number of pieces of length `d` that hold `n`.
pub proof fn lemma_ceil_div(n: nat, d: nat)
    requires
        d > 0,
    ensures
        ceil_div(n, d) == n / d + if n % d != 0 {
            1nat
        } else {
            0nat
        },
        ceil_div(n, d) <= n,
        n <= ceil_div(n, d) * d,
        n > 0 ==> (ceil_div(n, d) - 1) * d < n,
{
    let q = n / d;
    let r = n % d;
    assert(n == q * d + r && 0 <= r < d) by (nonlinear_arith)
        requires
            d > 0,
            q == n / d,
            r == n % d,
    ;
    if r == 0 {
        assert((n + d - 1) / d as int == q) by (nonlinear_arith)
            requires
                n == q * d,
                d > 0,
        ;
        assert(q <= n) by (nonlinear_arith)
            requires
                n == q * d,
                d > 0,
                q >= 0,
        ;
        assert((q - 1) * d == q * d - d) by (nonlinear_arith);
    } else {
        assert((n + d - 1) / d as int == q + 1) by (nonlinear_arith)
            requires
                n == q * d + r,
                0 < r < d,
        ;
        assert(q + 1 <= n) by (nonlinear_arith)
            requires
                n == q * d + r,
                0 < r < d,
                q >= 0,
        ;
        assert((q + 1) * d == q * d + d) by (nonlinear_arith);
    }
}

fn div_ceil(n: usize, d: usize) -> (quotient: usize)
    requires
        d > 0,
    ensures
        quotient == ceil_div(n as nat, d as nat),
{
    proof {
        lemma_ceil_div(n as nat, d as nat);
    }
    let whole: usize = n / d;
    if n % d != 0 {
        whole + 1
    } else {
        whole
    }
}

/// Number of steps that reading `size` bytes takes.
pub fn read_step_count(size: u32, block_size: u32, use_stub: bool) -> (steps: usize)
    requires
        use_stub ==> block_size > 0,
    ensures
        steps == step_count(size, block_size, use_stub),
        use_stub ==> size <= steps * block_size && (size > 0 ==> (steps - 1) * block_size < size),
        size == 0 ==> steps == 0,
        !use_stub ==> (steps - 1) * 64 < size <= steps * 64,
{
    proof {
        lemma_ceil_div(
            size as nat,
            if use_stub {
                block_size as nat
            } else {
                64
            },
        );
    }
    let chunk_size: usize = if use_stub {
        block_size as usize
    } else {
        ROM_BLOCK_LEN
    };
    div_ceil(size as usize, chunk_size)
}

/// What a stub read waits for.
#[derive(Debug, PartialEq, Eq)]
pub enum StubAction {
    /// The next packet.
    AwaitChunk,
    /// The digest frame that follows the last packet.
    AwaitDigest,
    /// Nothing: the read has failed.
    Reject(FlashError),
}

/// What a stub read does with an answer of the device.
#[derive(Debug, PartialEq, Eq)]
pub struct ChunkReply {
    /// The progress to show, if the answer was a packet.
    pub progress: Option<ReadProgress>,
    /// The acknowledgement to send, or why the read fails.
    pub reply: Result<u32, FlashError>,
}

/// What a stub read waits for after `received` bytes.
pub open spec fn stub_action(request: ReadRequest, received: nat) -> StubAction {
    if received < request.size {
        StubAction::AwaitChunk
    } else if received == request.size {
        StubAction::AwaitDigest
    } else {
        StubAction::Reject(FlashError::ReadMoreThanExpected)
    }
}

/// The progress after a packet, given the number of bytes received before it
/// and with it. A packet counts as the step after the whole and partial blocks
/// before it.
pub open spec fn stub_progress(request: ReadRequest, before: nat, received: nat) -> ReadProgress {
    ReadProgress {
        step: smaller(
            ceil_div(before, request.block_size as nat) + 1,
            step_count(request.size, request.block_size, true),
        ) as usize,
        bytes: smaller(received, request.size as nat) as usize,
    }
}

/// The reply to a packet of `chunk_len` bytes that brings the number of bytes
/// received to `received`: only the last packet may be shorter than a block.
/// The acknowledgement is the number of bytes received, as 32 bits.
pub open spec fn stub_reply(request: ReadRequest, received: nat, chunk_len: nat) -> Result<
    u32,
    FlashError,
> {
    if received < request.size && chunk_len < request.block_size {
        Err(FlashError::CorruptData(request.block_size as usize, chunk_len as usize))
    } else {
        Ok((received % 0x1_0000_0000) as u32)
    }
}

/// A read by the flasher stub in progress.
#[derive(Debug)]
pub struct StubRead {
    request: ReadRequest,
    data: Vec<u8>,
}

impl View for StubRead {
    type V = Seq<u8>;

    /// The bytes received so far.
    closed spec fn view(&self) -> Seq<u8> {
        self.data@
    }
}

impl StubRead {
    /// What is being read.
    pub closed spec fn request(&self) -> ReadRequest {
        self.request
    }

    /// Starts a read.
    pub fn new(request: ReadRequest) -> (read: StubRead)
        ensures
            read.request() == request,
            read@ == Seq::<u8>::empty(),
    {
        StubRead { request, data: Vec::with_capacity(request.size as usize) }
    }

    /// The read command, to be sent before anything is awaited: it asks for the
    /// whole region, with the given packets.
    pub fn command(&self) -> (command: ReadRequest)
        ensures
            command == self.request(),
    {
        self.request
    }

    /// What to wait for next.
    pub fn next(&self) -> (action: StubAction)
        ensures
            action == stub_action(self.request(), self@.len()),
            action is AwaitChunk <==> self@.len() < self.request().size,
            action is AwaitDigest <==> self@.len() == self.request().size,
            action matches StubAction::Reject(error) ==> error is ReadMoreThanExpected,
    {
        let size: usize = self.request.size as usize;
        if self.data.len() < size {
            StubAction::AwaitChunk
        } else if self.data.len() == size {
            StubAction::AwaitDigest
        } else {
            StubAction::Reject(FlashError::ReadMoreThanExpected)
        }
    }

    /// Takes the answer to the wait for a packet: its bytes, or `None` for an
    /// empty frame. The progress is to be shown before the reply is acted on.
    pub fn accept_chunk(&mut self, response: Option<Vec<u8>>) -> (outcome: ChunkReply)
        requires
            stub_action(old(self).request(), old(self)@.len()) is AwaitChunk,
            old(self).request().block_size > 0,
        ensures
            final(self).request() == old(self).request(),
            response is None ==> {
                &&& final(self)@ == old(self)@
                &&& outcome.progress is None
                &&& outcome.reply == Err::<u32, FlashError>(FlashError::IncorrectResponse)
            },
            response matches Some(chunk) ==> {
                &&& final(self)@ == old(self)@ + chunk@
                &&& outcome.progress == Some(
                    stub_progress(old(self).request(), old(self)@.len(), final(self)@.len()),
                )
                &&& outcome.reply == stub_reply(
                    old(self).request(),
                    final(self)@.len(),
                    chunk@.len(),
                )
            },
            response matches Some(chunk) ==> {
                let size = old(self).request().size as int;
                let block = old(self).request().block_size as int;
                let before = old(self)@.len();
                let received = before + chunk@.len();
                let packet = (before + block - 1) / block + 1;
                let packets = (size + block - 1) / block;
                &&& outcome.reply == if received < size && chunk@.len() < block {
                    Err::<u32, FlashError>(
                        FlashError::CorruptData(block as usize, chunk@.len() as usize),
                    )
                } else {
                    Ok::<u32, FlashError>((received % 0x1_0000_0000) as u32)
                }
                &&& outcome.progress matches Some(progress)
                &&& progress.bytes == if received < size {
                    received as int
                } else {
                    size
                }
                &&& progress.step == if packet < packets {
                    packet
                } else {
                    packets
                }
            },
    {
        let mut chunk = match response {
            Some(chunk) => chunk,
            None => {
                return ChunkReply { progress: None, reply: Err(FlashError::IncorrectResponse) };
            },
        };
        let size: usize = self.request.size as usize;
        let block_size: usize = self.request.block_size as usize;
        let chunk_len: usize = chunk.len();
        let before: usize = self.data.len();
        proof {
            lemma_ceil_div(before as nat, block_size as nat);
        }
        let current_step: usize = div_ceil(before, block_size) + 1;
        let total_steps: usize = read_step_count(self.request.size, self.request.block_size, true);
        self.data.append(&mut chunk);
        let received: usize = self.data.len();
        let progress = ReadProgress {
            step: if current_step < total_steps {
                current_step
            } else {
                total_steps
            },
            bytes: if received < size {
                received
            } else {
                size
            },
        };
        if received < size && chunk_len < block_size {
            return ChunkReply {
                progress: Some(progress),
                reply: Err(FlashError::CorruptData(block_size, chunk_len)),
            };
        }
        let wide: u64 = received as u64;
        let ack: u32 = #[verifier::truncate]
        (wide as u32);
        assert(wide as u32 == wide % 0x1_0000_0000) by (bit_vector);
        ChunkReply { progress: Some(progress), reply: Ok(ack) }
    }

    /// Takes the answer to the wait for the digest and ends the read.
    pub fn finish(self, response: Option<Vec<u8>>) -> (result: Result<Vec<u8>, FlashError>)
        requires
            stub_action(self.request(), self@.len()) is AwaitDigest,
        ensures
            digest_verdict(
                self@,
                match response {
                    Some(digest) => Some(digest@),
                    None => None,
                },
                md5_of(self@),
                result,
            ),
            response matches Some(digest) && digest@ == md5_of(self@) ==> result is Ok,
            result matches Ok(bytes) ==> bytes@.len() == self.request().size,
            response is None ==> result == Err::<Vec<u8>, FlashError>(
                FlashError::IncorrectResponse,
            ),
            response matches Some(digest) ==> {
                &&& digest@.len() != 16 ==> result == Err::<Vec<u8>, FlashError>(
                    FlashError::IncorrectDigestLength(digest@.len() as usize),
                )
                &&& digest@.len() == 16 && digest@ != md5_of(self@) ==> {
                    &&& result matches Err(FlashError::DigestMismatch(theirs, ours))
                    &&& theirs@ == digest@
                    &&& ours@ == md5_of(self@)
                }
                &&& digest@.len() == 16 && digest@ == md5_of(self@) ==> result is Ok
            },
            result matches Ok(bytes) ==> bytes@ == self@,
    {
        let checksum = md5_digest(self.data.as_slice());
        check_digest(self.data, response, checksum)
    }
}

/// The result of a read of `data`, given the digest frame of the device and the
/// MD5 checksum of `data`.
pub open spec fn digest_verdict(
    data: Seq<u8>,
    digest: Option<Seq<u8>>,
    checksum: Seq<u8>,
    result: Result<Vec<u8>, FlashError>,
) -> bool {
    match digest {
        None => result matches Err(FlashError::IncorrectResponse),
        Some(digest) => if digest.len() != MD5_LEN {
            result matches Err(FlashError::IncorrectDigestLength(len)) && len == digest.len()
        } else if digest != checksum {
            result matches Err(FlashError::DigestMismatch(theirs, ours)) && theirs@ == digest
                && ours@ == checksum
        } else {
            result matches Ok(bytes) && bytes@ == data
        },
    }
}

/// Decides a read from the received bytes, the digest frame of the device and
/// the MD5 checksum of the bytes.
pub fn check_digest(data: Vec<u8>, response: Option<Vec<u8>>, checksum: Vec<u8>) -> (result: Result<
    Vec<u8>,
    FlashError,
>)
    ensures
        digest_verdict(
            data@,
            match response {
                Some(digest) => Some(digest@),
                None => None,
            },
            checksum@,
            result,
        ),
        response is None ==> result == Err::<Vec<u8>, FlashError>(
            FlashError::IncorrectResponse,
        ),
        response matches Some(digest) ==> {
            &&& digest@.len() != 16 ==> result == Err::<Vec<u8>, FlashError>(
                FlashError::IncorrectDigestLength(digest@.len() as usize),
            )
            &&& digest@.len() == 16 && digest@ != checksum@ ==> {
                &&& result matches Err(FlashError::DigestMismatch(theirs, ours))
                &&& theirs@ == digest@
                &&& ours@ == checksum@
            }
            &&& digest@.len() == 16 && digest@ == checksum@ ==> result is Ok
        },
        result matches Ok(bytes) ==> bytes@ == data@,
{
    let digest = match response {
        Some(digest) => digest,
        None => {
            return Err(FlashError::IncorrectResponse);
        },
    };
    if digest.len() != MD5_LEN {
        return Err(FlashError::IncorrectDigestLength(digest.len()));
    }
    if !same_bytes(digest.as_slice(), checksum.as_slice()) {
        return Err(FlashError::DigestMismatch(digest, checksum));
    }
    Ok(data)
}

/// A read command to the ROM loader.
#[derive(Debug, Clone, Copy, PartialEq, Eq, Structural)]
pub struct RomCommand {
    /// Address of the first byte.
    pub offset: u32,
    /// Number of bytes.
    pub size: u32,
    /// Passed on from the request.
    pub block_size: u32,
    /// Passed on from the request.
    pub max_in_flight: u32,
}

/// How many bytes the next command asks for after `received` bytes.
pub open spec fn rom_chunk_len(request: ReadRequest, received: nat) -> nat {
    smaller(ROM_BLOCK_LEN as nat, (request.size - received) as nat)
}

/// The next command after `received` bytes, or `None` at the end.
pub open spec fn rom_command(request: ReadRequest, received: nat) -> Option<RomCommand> {
    if received < request.size {
        Some(
            RomCommand {
                offset: (request.offset + received) as u32,
                size: rom_chunk_len(request, received) as u32,
                block_size: request.block_size,
                max_in_flight: request.max_in_flight,
            },
        )
    } else {
        None
    }
}

/// The progress after the command that was sent at `before` bytes.
pub open spec fn rom_progress(request: ReadRequest, before: nat) -> ReadProgress {
    ReadProgress {
        step: smaller(
            before / ROM_BLOCK_LEN as nat + 1,
            step_count(request.size, request.block_size, false),
        ) as usize,
        bytes: (before + rom_chunk_len(request, before)) as usize,
    }
}

/// A read by the ROM loader in progress.
#[derive(Debug)]
pub struct RomRead {
    request: ReadRequest,
    data: Vec<u8>,
}

impl View for RomRead {
    type V = Seq<u8>;

    /// The bytes received so far.
    closed spec fn view(&self) -> Seq<u8> {
        self.data@
    }
}

impl RomRead {
    /// What is being read.
    pub closed spec fn request(&self) -> ReadRequest {
        self.request
    }

    /// Starts a read.
    pub fn new(request: ReadRequest) -> (read: RomRead)
        ensures
            read.request() == request,
            read@ == Seq::<u8>::empty(),
    {
        RomRead { request, data: Vec::with_capacity(request.size as usize) }
    }

    fn chunk_len(&self) -> (len: usize)
        requires
            self@.len() < self.request().size,
        ensures
            len == rom_chunk_len(self.request(), self@.len()),
    {
        let left: usize = self.request.size as usize - self.data.len();
        if ROM_BLOCK_LEN < left {
            ROM_BLOCK_LEN
        } else {
            left
        }
    }

    /// The next command to send, or `None` once everything is read.
    pub fn next(&self) -> (command: Option<RomCommand>)
        requires
            self@.len() < self.request().size ==> self.request().offset + self@.len() <= u32::MAX,
        ensures
            command == rom_command(self.request(), self@.len()),
            command is Some <==> self@.len() < self.request().size,
            command matches Some(sent) ==> {
                &&& sent.offset == self.request().offset + self@.len()
                &&& sent.size == if self.request().size - self@.len() < 64 {
                    self.request().size - self@.len()
                } else {
                    64
                }
                &&& sent.block_size == self.request().block_size
                &&& sent.max_in_flight == self.request().max_in_flight
            },
    {
        if self.data.len() < self.request.size as usize {
            Some(
                RomCommand {
                    offset: self.request.offset + self.data.len() as u32,
                    size: self.chunk_len() as u32,
                    block_size: self.request.block_size,
                    max_in_flight: self.request.max_in_flight,
                },
            )
        } else {
            None
        }
    }

    /// Takes the payload of the answer to the last command. The ROM loader may
    /// send more than was asked for; what is too much is dropped. The result is
    /// the progress to show.
    pub fn accept(&mut self, payload: &[u8]) -> (result: Result<ReadProgress, FlashError>)
        requires
            old(self)@.len() < old(self).request().size,
        ensures
            final(self).request() == old(self).request(),
            ({
                let chunk_len = rom_chunk_len(old(self).request(), old(self)@.len());
                if payload@.len() < chunk_len {
                    &&& final(self)@ == old(self)@
                    &&& result == Err::<ReadProgress, FlashError>(
                        FlashError::CorruptData(chunk_len as usize, payload@.len() as usize),
                    )
                } else {
                    &&& final(self)@ == old(self)@ + payload@.take(chunk_len as int)
                    &&& result == Ok::<ReadProgress, FlashError>(
                        rom_progress(old(self).request(), old(self)@.len()),
                    )
                }
            }),
            ({
                let before = old(self)@.len();
                let left = old(self).request().size - before;
                let asked = if left < 64 {
                    left
                } else {
                    64
                };
                if payload@.len() < asked {
                    &&& final(self)@ == old(self)@
                    &&& result matches Err(FlashError::CorruptData(expected, received))
                    &&& expected == asked
                    &&& received == payload@.len()
                } else {
                    &&& final(self)@ == old(self)@ + payload@.take(asked)
                    &&& result matches Ok(progress)
                    &&& progress.step == before / 64 + 1
                    &&& progress.bytes == before + asked
                }
            }),
    {
        let chunk_len: usize = self.chunk_len();
        let before: usize = self.data.len();
        let current_step: usize = before / ROM_BLOCK_LEN + 1;
        let total_steps: usize = read_step_count(self.request.size, self.request.block_size, false);
        if payload.len() < chunk_len {
            return Err(FlashError::CorruptData(chunk_len, payload.len()));
        }
        let ghost start = self.data@;
        self.data.extend_from_slice(slice_subrange(payload, 0, chunk_len));
        assert(self.data@ =~= start + payload@.take(chunk_len as int));
        Ok(
            ReadProgress {
                step: if current_step < total_steps {
                    current_step
                } else {
                    total_steps
                },
                bytes: self.data.len(),
            },
        )
    }

    /// Ends a read: the bytes received.
    pub fn finish(self) -> (data: Vec<u8>)
        requires
            rom_command(self.request(), self@.len()) is None,
        ensures
            data@ == self@,
    {
        self.data
    }
}

/// A read in progress, by the stub or by the ROM loader.
#[derive(Debug)]
pub enum RegionRead {
    /// The stub reads.
    Stub(StubRead),
    /// The ROM loader reads.
    Rom(RomRead),
}

/// Starts a read of a flash region by the loader in use.
pub fn read_flash_region(request: ReadRequest, use_stub: bool) -> (read: RegionRead)
    ensures
        match read {
            RegionRead::Stub(stub) => use_stub && stub.request() == request && stub@ == Seq::<
                u8,
            >::empty(),
            RegionRead::Rom(rom) => !use_stub && rom.request() == request && rom@ == Seq::<
                u8,
            >::empty(),
        },
{
    if use_stub {
        RegionRead::Stub(StubRead::new(request))
    } else {
        RegionRead::Rom(RomRead::new(request))
    }
}

} // verus!
