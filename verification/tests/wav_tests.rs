use std::io::Cursor;

use transcribe::errors::PipelineError;
use transcribe::wav::decode_wav;

/// Synthesizes a WAV container in memory with hound, as an independent
/// cross-check of the decoder.
fn hound_wav(spec: hound::WavSpec, write: impl FnOnce(&mut hound::WavWriter<&mut Cursor<Vec<u8>>>)) -> Vec<u8> {
    let mut cursor = Cursor::new(Vec::new());
    {
        let mut writer = hound::WavWriter::new(&mut cursor, spec).unwrap();
        write(&mut writer);
        writer.finalize().unwrap();
    }
    cursor.into_inner()
}

fn pcm16_spec() -> hound::WavSpec {
    hound::WavSpec {
        channels: 1,
        sample_rate: 16000,
        bits_per_sample: 16,
        sample_format: hound::SampleFormat::Int,
    }
}

#[test]
fn round_trip_silence() {
    let n = 1600;
    let bytes = hound_wav(pcm16_spec(), |w| {
        for _ in 0..n {
            w.write_sample(0i16).unwrap();
        }
    });
    let samples = decode_wav(&bytes).unwrap();
    assert_eq!(samples.len(), n);
    for s in &samples {
        assert_eq!(*s, 0);
        let normalized = *s as f32 / i16::MAX as f32;
        assert_eq!(normalized, 0.0);
    }
}

#[test]
fn round_trip_values() {
    let written: Vec<i16> = vec![1, -1, 12345, -12345, 32767, -32768, 0];
    let bytes = hound_wav(pcm16_spec(), |w| {
        for s in &written {
            w.write_sample(*s).unwrap();
        }
    });
    let samples = decode_wav(&bytes).unwrap();
    assert_eq!(samples, written);
}

#[test]
fn normalization_extremes() {
    let bytes = hound_wav(pcm16_spec(), |w| {
        w.write_sample(32767i16).unwrap();
        w.write_sample(-32768i16).unwrap();
    });
    let samples = decode_wav(&bytes).unwrap();
    assert_eq!(samples, vec![32767, -32768]);
    let max = samples[0] as f32 / i16::MAX as f32;
    let min = samples[1] as f32 / i16::MAX as f32;
    assert!((max - 1.0).abs() < 1e-4);
    assert!((min + 1.0).abs() < 1e-4);
}

#[test]
fn rejects_eight_bit() {
    let spec = hound::WavSpec { bits_per_sample: 8, ..pcm16_spec() };
    let bytes = hound_wav(spec, |w| {
        for _ in 0..4 {
            w.write_sample(0i8).unwrap();
        }
    });
    assert_eq!(decode_wav(&bytes), Err(PipelineError::UnsupportedFormat));
}

#[test]
fn rejects_twenty_four_bit() {
    let spec = hound::WavSpec { bits_per_sample: 24, ..pcm16_spec() };
    let bytes = hound_wav(spec, |w| {
        for _ in 0..4 {
            w.write_sample(0i32).unwrap();
        }
    });
    assert_eq!(decode_wav(&bytes), Err(PipelineError::UnsupportedFormat));
}

/// Hand-built container: header plus a chunk list given as (id, body) pairs.
fn riff_wave(chunks: &[(&[u8; 4], Vec<u8>)]) -> Vec<u8> {
    let mut body = Vec::new();
    for (id, chunk) in chunks {
        body.extend_from_slice(*id);
        body.extend_from_slice(&(chunk.len() as u32).to_le_bytes());
        body.extend_from_slice(chunk);
        if chunk.len() % 2 == 1 {
            body.push(0);
        }
    }
    let mut bytes = Vec::new();
    bytes.extend_from_slice(b"RIFF");
    bytes.extend_from_slice(&(4 + body.len() as u32).to_le_bytes());
    bytes.extend_from_slice(b"WAVE");
    bytes.extend_from_slice(&body);
    bytes
}

/// A 16-byte PCM fmt body for mono 16 kHz audio with the given tag and depth.
fn fmt_body(tag: u16, bits: u16) -> Vec<u8> {
    let mut body = Vec::new();
    body.extend_from_slice(&tag.to_le_bytes());
    body.extend_from_slice(&1u16.to_le_bytes());
    body.extend_from_slice(&16000u32.to_le_bytes());
    body.extend_from_slice(&32000u32.to_le_bytes());
    body.extend_from_slice(&2u16.to_le_bytes());
    body.extend_from_slice(&bits.to_le_bytes());
    body
}

#[test]
fn rejects_float_encoding() {
    // Format tag 3 is IEEE float: not integer PCM, whatever the depth says.
    let bytes = riff_wave(&[(b"fmt ", fmt_body(3, 32)), (b"data", vec![0, 0, 0, 0])]);
    assert_eq!(decode_wav(&bytes), Err(PipelineError::UnsupportedFormat));
}

#[test]
fn skips_unknown_chunks() {
    let bytes = riff_wave(&[
        (b"LIST", vec![7, 7, 7]),
        (b"fmt ", fmt_body(1, 16)),
        (b"junk", vec![1, 2, 3, 4, 5]),
        (b"data", vec![0x39, 0x30, 0xCF, 0xC7]),
    ]);
    assert_eq!(decode_wav(&bytes).unwrap(), vec![12345, -14385]);
}

#[test]
fn rejects_garbage() {
    assert_eq!(decode_wav(&Vec::new()), Err(PipelineError::IoError));
    assert_eq!(decode_wav(&vec![0x52, 0x49, 0x46, 0x46]), Err(PipelineError::IoError));
    let not_wave: Vec<u8> = b"RIFF\x04\x00\x00\x00JUNK".to_vec();
    assert_eq!(decode_wav(&not_wave), Err(PipelineError::IoError));
}

#[test]
fn rejects_truncated_chunk() {
    let mut bytes = riff_wave(&[(b"fmt ", fmt_body(1, 16)), (b"data", vec![0; 8])]);
    bytes.truncate(bytes.len() - 3);
    assert_eq!(decode_wav(&bytes), Err(PipelineError::IoError));
}

#[test]
fn rejects_data_before_fmt() {
    let bytes = riff_wave(&[(b"data", vec![0, 0]), (b"fmt ", fmt_body(1, 16))]);
    assert_eq!(decode_wav(&bytes), Err(PipelineError::IoError));
}

#[test]
fn rejects_missing_data() {
    let bytes = riff_wave(&[(b"fmt ", fmt_body(1, 16))]);
    assert_eq!(decode_wav(&bytes), Err(PipelineError::IoError));
}

#[test]
fn odd_data_length_keeps_whole_frames() {
    // Five data bytes hold two complete little-endian frames.
    let bytes = riff_wave(&[(b"fmt ", fmt_body(1, 16)), (b"data", vec![1, 0, 2, 0, 9])]);
    assert_eq!(decode_wav(&bytes).unwrap(), vec![1, 2]);
}
