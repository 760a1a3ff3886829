//! The transcoding path of one track: decoded packets go in, fixed-size
//! chunks of delta-coded bytes come out.
//!
//! Samples are collected until a chunk's worth is there; each chunk is
//! encoded as soon as it is complete, and what is left at the end of the
//! track is encoded by [`Transcoder::finish`]. One encoder serves the whole
//! track, so its state runs through all chunks.

use crate::dfpwm::{
    encoded, lemma_encoded_concat, lemma_encoded_len, lemma_run_concat, run, DfpwmEncoder,
    EncoderState,
};
use crate::pcm::{pcm8, pcm8_len, to_pcm8};
use vstd::prelude::*;
use vstd::slice::{slice_subrange, slice_to_vec};

verus! {

/// Samples per chunk: 128 ms of audio at 48 kHz, a multiple of eight.
pub const CHUNK_SAMPLES: usize = 6144;

/// Bytes per full chunk: one bit per sample.
pub const CHUNK_BYTES: usize = 768;

/// Playing time of a full chunk in milliseconds.
pub const CHUNK_MILLIS: u64 = 128;

/// What a transcoder holds, as mathematical values.
pub struct TranscoderState {
    /// The state of the encoder.
    pub encoder: EncoderState,
    /// The samples that wait for a chunk to fill.
    pub pending: Seq<i8>,
}

/// Number of full chunks in `n` samples.
pub open spec fn full_chunks(n: nat) -> nat {
    n / (CHUNK_SAMPLES as nat)
}

/// The samples that feeding `pcm` to a transcoder in state `t` completes
/// chunks of.
pub open spec fn chunked_part(t: TranscoderState, pcm: Seq<i8>) -> Seq<i8> {
    let all = t.pending + pcm;
    all.take(full_chunks(all.len()) * CHUNK_SAMPLES)
}

/// The samples that stay behind for the next chunk.
pub open spec fn remainder(t: TranscoderState, pcm: Seq<i8>) -> Seq<i8> {
    let all = t.pending + pcm;
    all.skip(full_chunks(all.len()) * CHUNK_SAMPLES)
}

/// Chunk `k` of the bytes that feeding `pcm` to a transcoder in state `t`
/// produces: the `k`-th run of [`CHUNK_BYTES`] bytes of the encoding of
/// [`chunked_part`].
pub open spec fn chunk(t: TranscoderState, pcm: Seq<i8>, k: int) -> Seq<u8> {
    encoded(t.encoder, chunked_part(t, pcm)).subrange(k * CHUNK_BYTES, (k + 1) * CHUNK_BYTES)
}

/// The transcoding path of one track.
pub struct Transcoder {
    encoder: DfpwmEncoder,
    pending: Vec<i8>,
}

impl View for Transcoder {
    type V = TranscoderState;

    closed spec fn view(&self) -> TranscoderState {
        TranscoderState { encoder: self.encoder@, pending: self.pending@ }
    }
}

impl Transcoder {
    /// A transcoder for a new track: a fresh encoder and nothing pending.
    pub fn new() -> (transcoder: Self)
        ensures
            transcoder@.encoder == EncoderState::fresh(),
            transcoder@.pending == Seq::<i8>::empty(),
    {
        Transcoder { encoder: DfpwmEncoder::new(), pending: Vec::new() }
    }

    /// Number of samples that wait for a chunk to fill.
    pub fn pending_len(&self) -> (n: usize)
        ensures
            n == self@.pending.len(),
    {
        self.pending.len()
    }

    /// Takes in 8-bit samples and returns the chunks that they complete, in
    /// order. Each chunk holds [`CHUNK_BYTES`] bytes.
    pub fn push_samples(&mut self, pcm: &[i8]) -> (chunks: Vec<Vec<u8>>)
        ensures
            chunks@.len() == full_chunks(old(self)@.pending.len() + pcm@.len()),
            forall|k: int|
                0 <= k < chunks@.len() ==> (#[trigger] chunks@[k])@ == chunk(old(self)@, pcm@, k),
            forall|k: int| 0 <= k < chunks@.len() ==> (#[trigger] chunks@[k])@.len() == CHUNK_BYTES,
            final(self)@.encoder == run(old(self)@.encoder, chunked_part(old(self)@, pcm@)),
            final(self)@.pending == remainder(old(self)@, pcm@),
            final(self)@.pending.len() < CHUNK_SAMPLES,
    {
        let ghost before = self@;
        let ghost start_state = self.encoder@;
        let mut all: Vec<i8> = Vec::new();
        all.append(&mut self.pending);
        let mut incoming = slice_to_vec(pcm);
        all.append(&mut incoming);
        proof {
            assert(all@ =~= before.pending + pcm@);
        }
        let total = all.len();
        let mut chunks: Vec<Vec<u8>> = Vec::new();
        let mut done: usize = 0;
        proof {
            assert(all@.take(0) =~= Seq::<i8>::empty());
            assert(encoded(start_state, Seq::<i8>::empty()) =~= Seq::<u8>::empty());
        }
        while total - done >= CHUNK_SAMPLES
            invariant
                total == all@.len(),
                done <= total,
                done == chunks@.len() * CHUNK_SAMPLES,
                self.pending@.len() == 0,
                self.encoder@ == run(start_state, all@.take(done as int)),
                forall|k: int|
                    0 <= k < chunks@.len() ==> (#[trigger] chunks@[k])@ == encoded(
                        start_state,
                        all@.take(done as int),
                    ).subrange(k * CHUNK_BYTES, (k + 1) * CHUNK_BYTES),
            decreases total - done,
        {
            let ghost so_far = all@.take(done as int);
            let ghost piece_spec = all@.subrange(done as int, done + CHUNK_SAMPLES);
            let piece = slice_subrange(all.as_slice(), done, done + CHUNK_SAMPLES);
            let mut bytes: Vec<u8> = Vec::new();
            self.encoder.encode(piece, &mut bytes);
            proof {
                assert(so_far + piece_spec =~= all@.take(done + CHUNK_SAMPLES));
                lemma_run_concat(start_state, so_far, piece_spec);
                lemma_encoded_concat(start_state, so_far, piece_spec);
                lemma_encoded_len(start_state, so_far);
                lemma_encoded_len(run(start_state, so_far), piece_spec);
                let longer = encoded(start_state, all@.take(done + CHUNK_SAMPLES));
                let shorter = encoded(start_state, so_far);
                assert(bytes@ =~= encoded(run(start_state, so_far), piece_spec));
                assert(shorter.len() == chunks@.len() * CHUNK_BYTES);
                assert(bytes@ =~= longer.subrange(
                    chunks@.len() * CHUNK_BYTES,
                    (chunks@.len() + 1) * CHUNK_BYTES,
                ));
                assert forall|k: int| 0 <= k < chunks@.len() implies (#[trigger] chunks@[k])@
                    == longer.subrange(k * CHUNK_BYTES, (k + 1) * CHUNK_BYTES) by {
                    assert(shorter.subrange(k * CHUNK_BYTES, (k + 1) * CHUNK_BYTES)
                        =~= longer.subrange(k * CHUNK_BYTES, (k + 1) * CHUNK_BYTES));
                }
            }
            chunks.push(bytes);
            done = done + CHUNK_SAMPLES;
        }
        let rest = all.split_off(done);
        proof {
            assert(chunks@.len() == full_chunks(total as nat));
            assert(all@ =~= (before.pending + pcm@).take(done as int));
            assert(rest@ =~= (before.pending + pcm@).skip(done as int));
            lemma_encoded_len(start_state, chunked_part(before, pcm@));
        }
        self.pending = rest;
        chunks
    }

    /// Takes in one decoded packet of interleaved 16-bit samples: converts
    /// it to the encoder's input format and returns the chunks that it
    /// completes.
    pub fn push_packet(&mut self, samples: &[i16], channels: usize, source_rate: u32) -> (chunks:
        Vec<Vec<u8>>)
        requires
            source_rate > 0,
            pcm8_len(samples@.len(), channels as nat, source_rate as int) <= usize::MAX,
        ensures
            chunks@.len() == full_chunks(
                old(self)@.pending.len() + pcm8(
                    samples@,
                    channels as nat,
                    source_rate as int,
                ).len(),
            ),
            forall|k: int|
                0 <= k < chunks@.len() ==> (#[trigger] chunks@[k])@ == chunk(
                    old(self)@,
                    pcm8(samples@, channels as nat, source_rate as int),
                    k,
                ),
            final(self)@.encoder == run(
                old(self)@.encoder,
                chunked_part(old(self)@, pcm8(samples@, channels as nat, source_rate as int)),
            ),
            final(self)@.pending == remainder(
                old(self)@,
                pcm8(samples@, channels as nat, source_rate as int),
            ),
    {
        let pcm = to_pcm8(samples, channels, source_rate);
        self.push_samples(pcm.as_slice())
    }

    /// Ends the track: encodes what is pending into a last, shorter chunk.
    /// Returns nothing if nothing is pending.
    pub fn finish(&mut self) -> (last: Option<Vec<u8>>)
        ensures
            old(self)@.pending.len() == 0 ==> last is None && final(self)@ == old(self)@,
            old(self)@.pending.len() > 0 ==> last is Some && last->0@ == encoded(
                old(self)@.encoder,
                old(self)@.pending,
            ),
            final(self)@.encoder == run(old(self)@.encoder, old(self)@.pending),
            final(self)@.pending == Seq::<i8>::empty(),
    {
        if self.pending.len() == 0 {
            proof {
                assert(self@.pending =~= Seq::<i8>::empty());
            }
            return None;
        }
        let mut rest: Vec<i8> = Vec::new();
        rest.append(&mut self.pending);
        let mut bytes: Vec<u8> = Vec::new();
        self.encoder.encode(rest.as_slice(), &mut bytes);
        proof {
            assert(bytes@ =~= encoded(old(self)@.encoder, old(self)@.pending));
        }
        Some(bytes)
    }
}

/// Chunking does not change the bytes. What feeding `pcm` to a transcoder
/// produces in chunks, followed by what flushing the transcoder then
/// produces, is the encoding of all samples in one go: of those that were
/// pending and of `pcm`. The chunks come to [`CHUNK_BYTES`] bytes each.
pub proof fn lemma_chunking_is_transparent(t: TranscoderState, pcm: Seq<i8>)
    ensures
        encoded(t.encoder, chunked_part(t, pcm)) + encoded(
            run(t.encoder, chunked_part(t, pcm)),
            remainder(t, pcm),
        ) == encoded(t.encoder, t.pending + pcm),
        encoded(t.encoder, chunked_part(t, pcm)).len() == full_chunks((t.pending + pcm).len())
            * CHUNK_BYTES,
        forall|k: int|
            0 <= k < full_chunks((t.pending + pcm).len()) ==> (#[trigger] chunk(t, pcm, k)).len()
                == CHUNK_BYTES,
{
    let all = t.pending + pcm;
    lemma_encoded_len(t.encoder, chunked_part(t, pcm));
    lemma_encoded_concat(t.encoder, chunked_part(t, pcm), remainder(t, pcm));
    assert(chunked_part(t, pcm) + remainder(t, pcm) =~= all);
}

} // verus!
