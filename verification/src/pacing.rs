//! Real-time pacing of the two streams.
//!
//! A track's file is read in chunks. The target rate is the file's size
//! divided by the track's playing time; after each chunk the stream waits
//! until the time that the chunk stands for has passed since the read began,
//! so that reading keeps step with playing whatever the reads cost. The
//! delta-coded stream is paced in the same way, by the playing time of its
//! chunks.

use crate::transcode::CHUNK_MILLIS;
use vstd::prelude::*;

verus! {

/// Playing time that one chunk is sized for, in milliseconds.
pub const CHUNK_MS: u64 = 100;

/// The rate assumed for a track whose playing time is not known.
pub const FALLBACK_BYTES_PER_SEC: u64 = 16000;

/// The smallest chunk that is read.
pub const MIN_CHUNK_BYTES: u64 = 1024;

/// Time to wait before looking for a track again after none was found, in
/// milliseconds.
pub const RETRY_DELAY_MS: u64 = 2000;

/// Chunks that a subscriber of the passthrough stream can fall behind by
/// before it loses the oldest.
pub const BROADCAST_CAPACITY: usize = 256;

/// Chunks that a subscriber of the transcoded stream can fall behind by
/// before it loses the oldest.
pub const DFPWM_BROADCAST_CAPACITY: usize = 2048;

/// Events that a subscriber of the event bus can fall behind by before it
/// loses the oldest.
pub const WS_EVENT_CAPACITY: usize = 100;

/// The target rate of a track in bytes per second: size by playing time,
/// rounded down; the fallback rate where the playing time is not positive.
pub open spec fn byte_rate(file_size: int, duration_sec: int) -> int {
    if duration_sec > 0 {
        file_size / duration_sec
    } else {
        FALLBACK_BYTES_PER_SEC as int
    }
}

/// The chunk size for a rate: what plays in [`CHUNK_MS`] at that rate, but
/// not less than [`MIN_CHUNK_BYTES`].
pub open spec fn chunk_size_for(bytes_per_sec: int) -> int {
    let timed = bytes_per_sec * CHUNK_MS / 1000;
    if timed < MIN_CHUNK_BYTES {
        MIN_CHUNK_BYTES as int
    } else {
        timed
    }
}

/// The playing time of `n` bytes at the given rate in milliseconds, rounded
/// down; [`CHUNK_MS`] where the rate is zero.
pub open spec fn chunk_duration_ms(n: int, bytes_per_sec: int) -> int {
    if bytes_per_sec > 0 {
        n * 1000 / bytes_per_sec
    } else {
        CHUNK_MS as int
    }
}

/// The time left to wait, in nanoseconds, once `elapsed_nanos` of a chunk's
/// `duration_ms` have passed; zero if more has passed already.
pub open spec fn pacing_delay_nanos(duration_ms: int, elapsed_nanos: int) -> int {
    if duration_ms * 1000000 > elapsed_nanos {
        duration_ms * 1000000 - elapsed_nanos
    } else {
        0
    }
}

/// The target rate of a track in bytes per second.
pub fn bytes_per_sec(file_size: u64, duration_sec: i32) -> (rate: u64)
    ensures
        rate == byte_rate(file_size as int, duration_sec as int),
{
    if duration_sec > 0 {
        file_size / (duration_sec as u64)
    } else {
        FALLBACK_BYTES_PER_SEC
    }
}

/// The chunk size for a rate.
pub fn chunk_size(bytes_per_sec: u64) -> (size: u64)
    ensures
        size == chunk_size_for(bytes_per_sec as int),
        size >= MIN_CHUNK_BYTES,
{
    let timed: u128 = (bytes_per_sec as u128 * CHUNK_MS as u128) / 1000;
    if timed < MIN_CHUNK_BYTES as u128 {
        MIN_CHUNK_BYTES
    } else {
        timed as u64
    }
}

/// The playing time of a chunk of `n` bytes in milliseconds.
pub fn chunk_millis(n: u64, bytes_per_sec: u64) -> (millis: u128)
    ensures
        millis == chunk_duration_ms(n as int, bytes_per_sec as int),
{
    if bytes_per_sec > 0 {
        (n as u128 * 1000) / (bytes_per_sec as u128)
    } else {
        CHUNK_MS as u128
    }
}

/// How long to wait after a chunk of `n` bytes whose read began
/// `elapsed_nanos` ago: the rest of the chunk's playing time in
/// nanoseconds, or nothing if no time is left.
pub fn delay_after_chunk(n: u64, bytes_per_sec: u64, elapsed_nanos: u128) -> (delay: Option<u128>)
    ensures
        pacing_delay_nanos(chunk_duration_ms(n as int, bytes_per_sec as int), elapsed_nanos as int)
            == 0 <==> delay is None,
        delay matches Some(nanos) ==> nanos == pacing_delay_nanos(
            chunk_duration_ms(n as int, bytes_per_sec as int),
            elapsed_nanos as int,
        ),
{
    let millis = chunk_millis(n, bytes_per_sec);
    assert(millis <= 18446744073709551615 * 1000) by (nonlinear_arith)
        requires
            millis == chunk_duration_ms(n as int, bytes_per_sec as int),
            0 <= n <= 18446744073709551615,
            0 <= bytes_per_sec,
    ;
    let target: u128 = millis * 1000000;
    if target > elapsed_nanos {
        Some(target - elapsed_nanos)
    } else {
        None
    }
}

/// How long to wait after a delta-coded chunk whose making began
/// `elapsed_nanos` ago: the rest of the chunk's playing time of
/// [`CHUNK_MILLIS`] in nanoseconds, or nothing if no time is left.
pub fn delay_after_delta_chunk(elapsed_nanos: u128) -> (delay: Option<u128>)
    ensures
        pacing_delay_nanos(CHUNK_MILLIS as int, elapsed_nanos as int) == 0 <==> delay is None,
        delay matches Some(nanos) ==> nanos == pacing_delay_nanos(
            CHUNK_MILLIS as int,
            elapsed_nanos as int,
        ),
{
    let target: u128 = CHUNK_MILLIS as u128 * 1000000;
    if target > elapsed_nanos {
        Some(target - elapsed_nanos)
    } else {
        None
    }
}

/// The bytes of a stream read in the given chunks.
pub open spec fn total_bytes(chunks: Seq<int>) -> int
    decreases chunks.len(),
{
    if chunks.len() == 0 {
        0
    } else {
        total_bytes(chunks.drop_last()) + chunks.last()
    }
}

/// The time that a stream read in the given chunks is paced to take, in
/// milliseconds: the playing times of its chunks, added up.
pub open spec fn paced_ms(chunks: Seq<int>, bytes_per_sec: int) -> int
    decreases chunks.len(),
{
    if chunks.len() == 0 {
        0
    } else {
        paced_ms(chunks.drop_last(), bytes_per_sec) + chunk_duration_ms(
            chunks.last(),
            bytes_per_sec,
        )
    }
}

/// Pacing keeps step with playing. However a file of `S` bytes is cut into
/// chunks, the time that the stream is paced to take at rate `R` never
/// exceeds the playing time `S / R`, and falls short of it by less than one
/// millisecond per chunk.
pub proof fn lemma_pacing_tracks_playing_time(chunks: Seq<int>, bytes_per_sec: int)
    requires
        bytes_per_sec > 0,
        forall|i: int| 0 <= i < chunks.len() ==> chunks[i] >= 0,
    ensures
        paced_ms(chunks, bytes_per_sec) * bytes_per_sec <= total_bytes(chunks) * 1000,
        chunks.len() > 0 ==> total_bytes(chunks) * 1000 < (paced_ms(chunks, bytes_per_sec)
            + chunks.len()) * bytes_per_sec,
        chunks.len() == 0 ==> paced_ms(chunks, bytes_per_sec) == 0 && total_bytes(chunks) == 0,
    decreases chunks.len(),
{
    if chunks.len() > 0 {
        let front = chunks.drop_last();
        let n = chunks.last();
        lemma_pacing_tracks_playing_time(front, bytes_per_sec);
        let p = paced_ms(front, bytes_per_sec);
        let d = chunk_duration_ms(n, bytes_per_sec);
        let t = total_bytes(front);
        assert(d * bytes_per_sec <= n * 1000 < (d + 1) * bytes_per_sec) by (nonlinear_arith)
            requires
                bytes_per_sec > 0,
                n >= 0,
                d == n * 1000 / bytes_per_sec,
        ;
        assert((p + d) * bytes_per_sec == p * bytes_per_sec + d * bytes_per_sec)
            by (nonlinear_arith);
        assert((p + d + chunks.len()) * bytes_per_sec == (p + front.len()) * bytes_per_sec + (d
            + 1) * bytes_per_sec) by (nonlinear_arith)
            requires
                chunks.len() == front.len() + 1,
        ;
        if front.len() == 0 {
            assert((p + front.len()) * bytes_per_sec == 0) by (nonlinear_arith)
                requires
                    p == 0,
                    front.len() == 0,
            ;
        }
    }
}

/// The chunks that a file of `size` bytes is read in when every read fills
/// the buffer of `chunk` bytes: full chunks, and after them what is left.
pub open spec fn chunks_of(size: int, chunk: int) -> Seq<int> {
    let full = Seq::new((size / chunk) as nat, |i: int| chunk);
    if size % chunk == 0 {
        full
    } else {
        full.push(size % chunk)
    }
}

proof fn lemma_total_of_equal_chunks(n: nat, chunk: int)
    ensures
        total_bytes(Seq::new(n, |i: int| chunk)) == n * chunk,
    decreases n,
{
    let chunks = Seq::new(n, |i: int| chunk);
    if n > 0 {
        lemma_total_of_equal_chunks((n - 1) as nat, chunk);
        assert(chunks.drop_last() =~= Seq::new((n - 1) as nat, |i: int| chunk));
        assert(n * chunk == (n - 1) * chunk + chunk) by (nonlinear_arith);
    } else {
        assert(n * chunk == 0) by (nonlinear_arith)
            requires
                n == 0,
        ;
    }
}

/// The chunks of a file add up to the file, there are `ceil(size / chunk)`
/// of them, and none is empty.
pub proof fn lemma_chunks_of(size: int, chunk: int)
    requires
        size >= 0,
        chunk > 0,
    ensures
        total_bytes(chunks_of(size, chunk)) == size,
        chunks_of(size, chunk).len() == (size + chunk - 1) / chunk,
        forall|i: int|
            0 <= i < chunks_of(size, chunk).len() ==> 0 < #[trigger] chunks_of(size, chunk)[i]
                <= chunk,
{
    let n = (size / chunk) as nat;
    let count: int = if size % chunk == 0 {
        n as int
    } else {
        n as int + 1
    };
    let full = Seq::new(n, |i: int| chunk);
    lemma_total_of_equal_chunks(n, chunk);
    assert(size == n * chunk + size % chunk && 0 <= size % chunk < chunk && (size + chunk - 1)
        / chunk == count) by (nonlinear_arith)
        requires
            size >= 0,
            chunk > 0,
            n == size / chunk,
            count == if size % chunk == 0 {
                n as int
            } else {
                n as int + 1
            },
    ;
    if size % chunk != 0 {
        assert(full.push(size % chunk).drop_last() =~= full);
    }
}

/// A stream that is read in full chunks is paced to take more than 95% of
/// its playing time, and never more than all of it. With `S` the size of a
/// file that fills at least one chunk and `R` its rate, the paced time
/// `T`, in milliseconds, satisfies `0.95 * (S / R) < T / 1000 <= S / R`.
pub proof fn lemma_paced_time_within_five_percent(size: int, bytes_per_sec: int)
    requires
        bytes_per_sec > 0,
        size >= chunk_size_for(bytes_per_sec),
    ensures
        ({
            let chunk = chunk_size_for(bytes_per_sec);
            let paced = paced_ms(chunks_of(size, chunk), bytes_per_sec);
            &&& paced * bytes_per_sec <= size * 1000
            &&& 95 * (size * 1000) < 100 * (paced * bytes_per_sec)
        }),
{
    let chunk = chunk_size_for(bytes_per_sec);
    let chunks = chunks_of(size, chunk);
    let paced = paced_ms(chunks, bytes_per_sec);
    let k = chunks.len() as int;
    lemma_chunks_of(size, chunk);
    lemma_pacing_tracks_playing_time(chunks, bytes_per_sec);
    assert(chunk >= 1024 && bytes_per_sec <= 25 * chunk);
    assert(k >= 1 && k * chunk < 2 * size) by (nonlinear_arith)
        requires
            size >= chunk,
            chunk > 0,
            k == (size + chunk - 1) / chunk,
    ;
    assert(k * bytes_per_sec <= 50 * size) by (nonlinear_arith)
        requires
            k >= 1,
            k * chunk < 2 * size,
            0 < bytes_per_sec <= 25 * chunk,
    ;
    assert((paced + k) * bytes_per_sec == paced * bytes_per_sec + k * bytes_per_sec)
        by (nonlinear_arith);
}

} // verus!
