use radio_server::dfpwm::DfpwmEncoder;
use radio_server::pcm::to_pcm8;
use radio_server::transcode::{Transcoder, CHUNK_BYTES, CHUNK_MILLIS, CHUNK_SAMPLES};

fn pattern(n: usize) -> Vec<i8> {
    (0..n).map(|i| (((i * 37) % 256) as i32 - 128) as i8).collect()
}

#[test]
fn chunk_constants_agree() {
    assert_eq!(CHUNK_SAMPLES, 6144);
    assert_eq!(CHUNK_BYTES, CHUNK_SAMPLES / 8);
    assert_eq!(CHUNK_MILLIS, (CHUNK_SAMPLES as u64 * 1000) / 48000);
}

#[test]
fn nothing_comes_out_before_a_chunk_is_full() {
    let mut t = Transcoder::new();
    assert_eq!(t.pending_len(), 0);
    let chunks = t.push_samples(&pattern(6143));
    assert!(chunks.is_empty());
    assert_eq!(t.pending_len(), 6143);
    let chunks = t.push_samples(&pattern(1));
    assert_eq!(chunks.len(), 1);
    assert_eq!(chunks[0].len(), 768);
    assert_eq!(t.pending_len(), 0);
    assert_eq!(t.finish(), None);
}

#[test]
fn one_chunk_and_a_flush() {
    let mut t = Transcoder::new();
    let chunks = t.push_samples(&pattern(7000));
    assert_eq!(chunks.len(), 1);
    assert_eq!(chunks[0].len(), 768);
    assert_eq!(&chunks[0][..8], &[112u8, 56, 28, 14, 135, 227, 241, 120]);
    assert_eq!(chunks[0].iter().map(|b| *b as u32).sum::<u32>(), 97920);
    assert_eq!(t.pending_len(), 856);
    let last = t.finish().expect("pending samples are flushed");
    assert_eq!(last.len(), 107);
    assert_eq!(&last[..4], &[112u8, 56, 28, 14]);
    assert_eq!(last.iter().map(|b| *b as u32).sum::<u32>(), 13406);
    assert_eq!(t.pending_len(), 0);
    assert_eq!(t.finish(), None);
}

#[test]
fn chunks_tile_the_encoding_of_the_whole_track() {
    let samples = pattern(20000);
    let mut whole = Vec::new();
    DfpwmEncoder::new().encode(&samples, &mut whole);

    let mut t = Transcoder::new();
    let mut joined: Vec<u8> = Vec::new();
    for piece in samples.chunks(1234) {
        for chunk in t.push_samples(piece) {
            assert_eq!(chunk.len(), CHUNK_BYTES);
            joined.extend_from_slice(&chunk);
        }
    }
    assert_eq!(joined.len(), 3 * CHUNK_BYTES);
    if let Some(last) = t.finish() {
        joined.extend_from_slice(&last);
    }
    assert_eq!(joined, whole);
}

#[test]
fn several_chunks_from_one_push() {
    let mut t = Transcoder::new();
    let chunks = t.push_samples(&pattern(3 * 6144 + 5));
    assert_eq!(chunks.len(), 3);
    assert_eq!(t.pending_len(), 5);
    let last = t.finish().expect("five samples pending");
    assert_eq!(last.len(), 1);
}

#[test]
fn packets_are_converted_before_they_are_chunked() {
    let samples: Vec<i16> = (0..8000).map(|i| ((i * 91) % 40000 - 20000) as i16).collect();
    let pcm = to_pcm8(&samples, 2, 24000);
    assert_eq!(pcm.len(), 8000);

    let mut by_packet = Transcoder::new();
    let chunks = by_packet.push_packet(&samples, 2, 24000);
    let mut by_samples = Transcoder::new();
    let expected = by_samples.push_samples(&pcm);
    assert_eq!(chunks.len(), 1);
    assert_eq!(chunks, expected);
    assert_eq!(by_packet.pending_len(), 8000 - 6144);
    assert_eq!(by_packet.finish(), by_samples.finish());
}
