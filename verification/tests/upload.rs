use raflow::transcriber::client::SAMPLES_PER_CHUNK;
use raflow::transcriber::upload::{encode_pcm, ChunkBuffer};

#[test]
fn pcm_bytes_are_little_endian_twos_complement() {
    assert_eq!(encode_pcm(&[1]), vec![1, 0]);
    assert_eq!(encode_pcm(&[-1]), vec![255, 255]);
    assert_eq!(encode_pcm(&[256]), vec![0, 1]);
    assert_eq!(encode_pcm(&[-32768]), vec![0, 128]);
    assert_eq!(encode_pcm(&[32767]), vec![255, 127]);
    assert_eq!(encode_pcm(&[-2, 0, 258]), vec![254, 255, 0, 0, 2, 1]);
    assert_eq!(encode_pcm(&[]), Vec::<u8>::new());
}

#[test]
fn pcm_bytes_agree_with_to_le_bytes() {
    let samples: Vec<i16> = (-40..40).map(|k| (k * 819) as i16).collect();
    let expected: Vec<u8> = samples.iter().flat_map(|s| s.to_le_bytes()).collect();
    assert_eq!(encode_pcm(&samples), expected);
}

#[test]
fn a_chunk_goes_out_when_it_is_full() {
    let mut b = ChunkBuffer::with_chunk_size(2);
    assert_eq!(b.samples_per_chunk(), 2);
    let out = b.push(&[1]);
    assert!(out.is_empty());
    assert_eq!(b.buffered(), 1);
    let out = b.push(&[2, 3]);
    assert_eq!(out.len(), 1);
    assert_eq!(out[0].audio_base_64, "AQACAA==");
    assert!(!out[0].commit);
    assert_eq!(out[0].message_type, "input_audio_chunk");
    assert_eq!(out[0].sample_rate, 16000);
    assert_eq!(b.buffered(), 1);
    let last = b.finish();
    assert_eq!(last.audio_base_64, "AwA=");
    assert!(last.commit);
    assert_eq!(b.buffered(), 0);
}

#[test]
fn whole_chunks_leave_an_empty_commit() {
    for n in 0usize..5 {
        let mut b = ChunkBuffer::with_chunk_size(3);
        let samples: Vec<i16> = (0..(3 * n) as i16).collect();
        let out = b.push(&samples);
        assert_eq!(out.len(), n);
        for (i, m) in out.iter().enumerate() {
            assert!(!m.commit);
            let chunk = &samples[3 * i..3 * i + 3];
            let expected = raflow::transcriber::message::AudioChunkMessage::new(
                &encode_pcm(chunk),
                false,
            );
            assert_eq!(m.audio_base_64, expected.audio_base_64);
            assert_eq!(m.audio_base_64.len(), 8);
        }
        assert_eq!(b.buffered(), 0);
        let last = b.finish();
        assert!(last.commit);
        assert_eq!(last.audio_base_64, "");
    }
}

#[test]
fn protocol_chunks_hold_250_ms_at_16_khz() {
    assert_eq!(SAMPLES_PER_CHUNK, 4000);
    let mut b = ChunkBuffer::new();
    assert_eq!(b.samples_per_chunk(), 16000 * 250 / 1000);
    let out = b.push(&vec![0i16; 4000 * 2 + 123]);
    assert_eq!(out.len(), 2);
    assert_eq!(out[0].audio_base_64.len(), 10668);
    assert_eq!(b.buffered(), 123);
    let last = b.finish();
    assert!(last.commit);
    assert_eq!(last.audio_base_64.len(), 4 * ((246 + 2) / 3));
}

#[test]
fn how_frames_are_cut_does_not_change_the_chunks() {
    let samples: Vec<i16> = (0..50).map(|k| (k * 37 - 900) as i16).collect();
    let mut at_once = ChunkBuffer::with_chunk_size(7);
    let expected: Vec<String> =
        at_once.push(&samples).into_iter().map(|m| m.audio_base_64).collect();
    let expected_last = at_once.finish().audio_base_64;
    for piece in [1usize, 2, 3, 5, 7, 8, 13, 50] {
        let mut b = ChunkBuffer::with_chunk_size(7);
        let mut got: Vec<String> = Vec::new();
        for frame in samples.chunks(piece) {
            got.extend(b.push(frame).into_iter().map(|m| m.audio_base_64));
        }
        assert_eq!(got, expected);
        assert_eq!(b.finish().audio_base_64, expected_last);
    }
}
