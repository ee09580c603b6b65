//! The wire protocol of the log stream.
//!
//! For each log packet the producer writes, in order: four bytes holding the
//! payload length as an unsigned 32-bit little-endian integer, four bytes
//! holding the numeric log level value, and exactly that many payload bytes
//! of UTF-8 text. The reader consumes a byte stream whose transport may hand
//! the bytes over in arbitrarily small pieces, so every read operation loops
//! until it has gathered exactly the bytes it needs or the stream ends.

use vstd::bytes::{
    lemma_auto_spec_u32_to_from_le_bytes, spec_u32_from_le_bytes, spec_u32_to_le_bytes,
    u32_from_le_bytes, u32_to_le_bytes,
};
use vstd::prelude::*;
use vstd::utf8::{decode_utf8, valid_utf8};

use crate::bepinex_log::LogLevel;

verus! {

/// The stream closed, reset, or ended before the requested bytes arrived;
/// the caller must treat the connection as dead.
#[derive(Debug, Clone, Copy, PartialEq, Eq, Structural)]
pub struct IoError;

/// Largest number of bytes one low-level read asks the transport for.
pub const BUFFER_SIZE: usize = 4096;

/// In-memory model of one connection's byte stream as the reader sees it:
/// the bytes the transport will deliver before it closes, a read cursor,
/// and a delivery schedule giving the number of bytes each low-level read
/// hands over. An exhausted or empty schedule delivers whatever is asked;
/// the schedule never makes a read deliver more than asked, and a read
/// always delivers at least one byte while bytes remain.
pub struct ByteStream {
    data: Vec<u8>,
    pos: usize,
    chunk_sizes: Vec<usize>,
}

impl ByteStream {
    /// The cursor never passes the end of the data.
    #[verifier::type_invariant]
    spec fn wf(self) -> bool {
        self.pos <= self.data@.len()
    }

    /// The bytes not yet consumed.
    pub closed spec fn spec_remaining(self) -> Seq<u8> {
        self.data@.subrange(self.pos as int, self.data@.len() as int)
    }

    /// A fresh stream over `data`, delivering bytes as `chunk_sizes`
    /// dictates.
    pub fn new(data: Vec<u8>, chunk_sizes: Vec<usize>) -> (stream: ByteStream)
        ensures
            stream.spec_remaining() == data@,
    {
        let stream = ByteStream { data, pos: 0, chunk_sizes };
        proof {
            assert(stream.spec_remaining() =~= stream.data@);
        }
        stream
    }

    /// A fresh stream over `data` that always delivers whatever is asked.
    pub fn whole(data: Vec<u8>) -> (stream: ByteStream)
        ensures
            stream.spec_remaining() == data@,
    {
        ByteStream::new(data, Vec::new())
    }

    /// One low-level read: delivers between one and `want` bytes from the
    /// cursor onward, as the delivery schedule allows, or fails once the
    /// data is exhausted.
    fn read_some(&mut self, want: usize) -> (r: Result<Vec<u8>, IoError>)
        requires
            want >= 1,
        ensures
            match r {
                Ok(chunk) => {
                    &&& 1 <= chunk@.len() <= want
                    &&& chunk@.len() <= old(self).spec_remaining().len()
                    &&& chunk@ == old(self).spec_remaining().take(chunk@.len() as int)
                    &&& final(self).spec_remaining() == old(self).spec_remaining().skip(
                        chunk@.len() as int,
                    )
                },
                Err(_) => {
                    &&& old(self).spec_remaining().len() == 0
                    &&& final(self).spec_remaining() == old(self).spec_remaining()
                },
            },
    {
        proof {
            use_type_invariant(&*self);
        }
        let data_len: usize = self.data.len();
        if self.pos == data_len {
            return Err(IoError);
        }
        let mut schedule: Vec<usize> = Vec::new();
        core::mem::swap(&mut schedule, &mut self.chunk_sizes);
        let cap: usize = if schedule.len() > 0 {
            let front = schedule.remove(0);
            if front == 0 || front > want {
                want
            } else {
                front
            }
        } else {
            want
        };
        core::mem::swap(&mut schedule, &mut self.chunk_sizes);
        let remaining: usize = data_len - self.pos;
        let count: usize = if cap < remaining {
            cap
        } else {
            remaining
        };
        let start: usize = self.pos;
        let mut chunk: Vec<u8> = Vec::new();
        let mut j: usize = 0;
        while j < count
            invariant
                j <= count,
                start + count <= data_len,
                data_len == self.data@.len(),
                self.pos == start,
                chunk@ == self.data@.subrange(start as int, start + j),
            decreases count - j,
        {
            chunk.push(self.data[start + j]);
            proof {
                assert(chunk@ =~= self.data@.subrange(start as int, start + j + 1));
            }
            j += 1;
        }
        self.pos = start + count;
        proof {
            assert(chunk@ =~= old(self).spec_remaining().take(count as int));
            assert(self.spec_remaining() =~= old(self).spec_remaining().skip(count as int));
        }
        Ok(chunk)
    }

    /// Read exactly `n` bytes, looping over bounded low-level reads until
    /// they are gathered; fails exactly when fewer than `n` bytes remain.
    pub fn read_exact(&mut self, n: usize) -> (r: Result<Vec<u8>, IoError>)
        ensures
            spec_read_exact_result(
                old(self).spec_remaining(),
                n as int,
                match r {
                    Ok(bytes) => Some(bytes@),
                    Err(_) => None,
                },
            ),
            r is Ok ==> final(self).spec_remaining() == old(self).spec_remaining().skip(n as int),
    {
        let ghost pre = self.spec_remaining();
        let mut gathered: Vec<u8> = Vec::new();
        while gathered.len() < n
            invariant
                pre == old(self).spec_remaining(),
                gathered@.len() <= n,
                gathered@.len() <= pre.len(),
                gathered@ == pre.take(gathered@.len() as int),
                self.spec_remaining() == pre.skip(gathered@.len() as int),
            decreases n - gathered@.len(),
        {
            let missing: usize = n - gathered.len();
            let want: usize = if missing > BUFFER_SIZE {
                BUFFER_SIZE
            } else {
                missing
            };
            let ghost mid = self.spec_remaining();
            let ghost done = gathered@.len() as int;
            match self.read_some(want) {
                Ok(mut chunk) => {
                    let ghost got = chunk@.len() as int;
                    gathered.append(&mut chunk);
                    proof {
                        assert(mid.take(got) =~= pre.subrange(done, done + got));
                        assert(gathered@ =~= pre.take(done + got));
                        assert(mid.skip(got) =~= pre.skip(done + got));
                    }
                },
                Err(e) => {
                    proof {
                        assert(pre.len() == done);
                    }
                    return Err(e);
                },
            }
        }
        Ok(gathered)
    }
}

/// What a gathering read of `n` bytes yields over the undelivered bytes
/// `remaining`: exactly the first `n` of them when that many remain, and
/// a failure (`None`) exactly when fewer remain.
pub open spec fn spec_read_exact_result(
    remaining: Seq<u8>,
    n: int,
    outcome: Option<Seq<u8>>,
) -> bool {
    match outcome {
        Some(bytes) => remaining.len() >= n && bytes == remaining.take(n),
        None => remaining.len() < n,
    }
}

/// Partial-read robustness at the byte level: over the same undelivered
/// bytes, a gathering read of `n` bytes succeeds or fails the same way
/// and yields the same bytes, however the transports chop the delivery.
pub proof fn lemma_gathering_ignores_delivery_schedule(
    remaining: Seq<u8>,
    n: int,
    r1: Option<Seq<u8>>,
    r2: Option<Seq<u8>>,
)
    requires
        spec_read_exact_result(remaining, n, r1),
        spec_read_exact_result(remaining, n, r2),
    ensures
        r1 == r2,
{
}

/// The byte length of the payload that follows, read from the four-byte
/// length header at the start of `remaining`.
pub open spec fn spec_packet_length(remaining: Seq<u8>) -> int
    recommends
        remaining.len() >= 4,
{
    spec_u32_from_le_bytes(remaining.subrange(0, 4)) as int
}

/// The level of the packet at the start of `remaining`, read from the
/// four-byte level header that follows the length header.
pub open spec fn spec_packet_level(remaining: Seq<u8>) -> LogLevel
    recommends
        remaining.len() >= 8,
{
    LogLevel::spec_from_bits(spec_u32_from_le_bytes(remaining.subrange(4, 8)))
}

/// What the packet at the start of `remaining` decodes to: its level and
/// payload bytes, or nothing if the stream ends inside the packet.
pub open spec fn spec_decode_packet(remaining: Seq<u8>) -> Option<(LogLevel, Seq<u8>)> {
    if remaining.len() >= 8 && remaining.len() >= 8 + spec_packet_length(remaining) {
        Some(
            (spec_packet_level(remaining), remaining.subrange(8, 8 + spec_packet_length(remaining))),
        )
    } else {
        None
    }
}

/// The wire form of one packet: length header, level header, payload.
pub open spec fn spec_encode_packet(level: LogLevel, payload: Seq<u8>) -> Seq<u8>
    recommends
        payload.len() <= u32::MAX,
{
    spec_u32_to_le_bytes(payload.len() as u32) + spec_u32_to_le_bytes(level.value()) + payload
}

/// Read the four-byte length header: the byte length of the payload that
/// follows.
pub fn read_packet_length(stream: &mut ByteStream) -> (r: Result<usize, IoError>)
    ensures
        match r {
            Ok(length) => {
                &&& old(stream).spec_remaining().len() >= 4
                &&& length == spec_packet_length(old(stream).spec_remaining())
                &&& final(stream).spec_remaining() == old(stream).spec_remaining().skip(4)
            },
            Err(_) => old(stream).spec_remaining().len() < 4,
        },
{
    let bytes = match stream.read_exact(4) {
        Ok(bytes) => bytes,
        Err(e) => {
            return Err(e);
        },
    };
    let value = u32_from_le_bytes(bytes.as_slice());
    proof {
        assert(bytes@ =~= old(stream).spec_remaining().subrange(0, 4));
    }
    Ok(value as usize)
}

/// Read the four-byte level header. Out-of-range bit patterns are not
/// undefined behavior: they fall back to `LogLevel::All`.
pub fn read_packet_log_level(stream: &mut ByteStream) -> (r: Result<LogLevel, IoError>)
    ensures
        match r {
            Ok(level) => {
                &&& old(stream).spec_remaining().len() >= 4
                &&& level == LogLevel::spec_from_bits(
                    spec_u32_from_le_bytes(old(stream).spec_remaining().subrange(0, 4)),
                )
                &&& final(stream).spec_remaining() == old(stream).spec_remaining().skip(4)
            },
            Err(_) => old(stream).spec_remaining().len() < 4,
        },
{
    let bytes = match stream.read_exact(4) {
        Ok(bytes) => bytes,
        Err(e) => {
            return Err(e);
        },
    };
    let value = u32_from_le_bytes(bytes.as_slice());
    proof {
        assert(bytes@ =~= old(stream).spec_remaining().subrange(0, 4));
    }
    Ok(LogLevel::from_bits(value))
}

/// Read exactly `size_to_read` payload bytes.
pub fn read_packet(stream: &mut ByteStream, size_to_read: usize) -> (r: Result<Vec<u8>, IoError>)
    ensures
        match r {
            Ok(bytes) => {
                &&& old(stream).spec_remaining().len() >= size_to_read
                &&& bytes@ == old(stream).spec_remaining().subrange(0, size_to_read as int)
                &&& final(stream).spec_remaining() == old(stream).spec_remaining().skip(
                    size_to_read as int,
                )
            },
            Err(_) => old(stream).spec_remaining().len() < size_to_read,
        },
{
    let bytes = match stream.read_exact(size_to_read) {
        Ok(bytes) => bytes,
        Err(e) => {
            return Err(e);
        },
    };
    proof {
        assert(bytes@ =~= old(stream).spec_remaining().subrange(0, size_to_read as int));
    }
    Ok(bytes)
}

/// Read one whole packet: length header, level header, payload, in that
/// order. Succeeds exactly when the stream still holds a whole packet.
pub fn decode_packet(stream: &mut ByteStream) -> (r: Result<(LogLevel, Vec<u8>), IoError>)
    ensures
        match r {
            Ok((level, payload)) => {
                &&& spec_decode_packet(old(stream).spec_remaining()) == Some((level, payload@))
                &&& final(stream).spec_remaining() == old(stream).spec_remaining().skip(
                    8 + payload@.len() as int,
                )
            },
            Err(_) => spec_decode_packet(old(stream).spec_remaining()) is None,
        },
{
    let ghost pre = stream.spec_remaining();
    let length = match read_packet_length(stream) {
        Ok(length) => length,
        Err(e) => {
            return Err(e);
        },
    };
    let level = match read_packet_log_level(stream) {
        Ok(level) => level,
        Err(e) => {
            return Err(e);
        },
    };
    proof {
        assert(pre.skip(4).subrange(0, 4) =~= pre.subrange(4, 8));
        assert(pre.skip(4).skip(4) =~= pre.skip(8));
    }
    let payload = match read_packet(stream, length) {
        Ok(payload) => payload,
        Err(e) => {
            return Err(e);
        },
    };
    proof {
        assert(pre.skip(8).subrange(0, length as int) =~= pre.subrange(8, 8 + length));
        assert(pre.skip(8).skip(length as int) =~= pre.skip(8 + length));
    }
    Ok((level, payload))
}

/// The wire form of one packet carrying `payload` at `level`.
pub fn encode_packet(level: LogLevel, payload: &Vec<u8>) -> (r: Vec<u8>)
    requires
        payload@.len() <= u32::MAX,
    ensures
        r@ == spec_encode_packet(level, payload@),
{
    let mut out = u32_to_le_bytes(payload.len() as u32);
    let mut level_bytes = u32_to_le_bytes(level.bits());
    out.append(&mut level_bytes);
    let mut payload_copy: Vec<u8> = Vec::new();
    payload_copy.extend_from_slice(payload.as_slice());
    out.append(&mut payload_copy);
    proof {
        assert(out@ =~= spec_encode_packet(level, payload@));
    }
    out
}

/// Framing round-trip: a packet encoded from any level and any payload, set
/// at the front of any longer stream, decodes back to the same level and
/// the same payload bytes.
pub proof fn lemma_packet_round_trip(level: LogLevel, payload: Seq<u8>, rest: Seq<u8>)
    requires
        payload.len() <= u32::MAX,
    ensures
        spec_decode_packet(spec_encode_packet(level, payload) + rest) == Some((level, payload)),
{
    lemma_auto_spec_u32_to_from_le_bytes();
    let encoded = spec_encode_packet(level, payload) + rest;
    assert(encoded.subrange(0, 4) =~= spec_u32_to_le_bytes(payload.len() as u32));
    assert(encoded.subrange(4, 8) =~= spec_u32_to_le_bytes(level.value()));
    assert(spec_packet_length(encoded) == payload.len());
    assert(encoded.subrange(8, 8 + payload.len() as int) =~= payload);
    assert(LogLevel::spec_from_bits(level.value()) == level);
}

/// Partial-read robustness: what a packet decodes to is a function of the
/// undelivered bytes alone; two streams that hold the same undelivered
/// bytes decode identically however their transports chop the delivery.
pub proof fn lemma_decoding_ignores_delivery_schedule(
    s1: ByteStream,
    s2: ByteStream,
    r1: Option<(LogLevel, Seq<u8>)>,
    r2: Option<(LogLevel, Seq<u8>)>,
)
    requires
        s1.spec_remaining() == s2.spec_remaining(),
        r1 == spec_decode_packet(s1.spec_remaining()),
        r2 == spec_decode_packet(s2.spec_remaining()),
    ensures
        r1 == r2,
{
}

/// Relies on `String::from_utf8_lossy`: the decoding is determined by the
/// payload bytes alone, and payloads that are valid UTF-8 decode exactly;
/// invalid sequences are replaced, never a crash.
#[verifier::external_body]
pub fn packet_bytes_to_utf8_string(packet_bytes: &[u8]) -> (r: String)
    ensures
        r@ == utf8_lossy_of(packet_bytes@),
        valid_utf8(packet_bytes@) ==> r@ == decode_utf8(packet_bytes@),
{
    String::from_utf8_lossy(packet_bytes).into_owned()
}

/// What `String::from_utf8_lossy` returns for a given byte sequence.
pub uninterp spec fn utf8_lossy_of(bytes: Seq<u8>) -> Seq<char>;

} // verus!
