use vstd::prelude::*;

use crate::errors::PipelineError;

verus! {

/// Little-endian unsigned 16-bit value stored at byte offset `i`.
pub open spec fn le16(b: Seq<u8>, i: int) -> int {
    b[i] + 0x100 * b[i + 1]
}

/// Little-endian unsigned 32-bit value stored at byte offset `i`.
pub open spec fn le32(b: Seq<u8>, i: int) -> int {
    b[i] + 0x100 * b[i + 1] + 0x10000 * b[i + 2] + 0x1000000 * b[i + 3]
}

/// The 16-bit PCM sample stored at byte offset `i`: the little-endian byte
/// pair read as a two's-complement integer.
pub open spec fn sample_at(b: Seq<u8>, i: int) -> i16 {
    (if le16(b, i) < 0x8000 {
        le16(b, i)
    } else {
        le16(b, i) - 0x10000
    }) as i16
}

/// The `n` 16-bit PCM samples stored consecutively from byte offset `start`.
pub open spec fn samples_at(b: Seq<u8>, start: int, n: int) -> Seq<i16> {
    Seq::new(n as nat, |i: int| sample_at(b, start + 2 * i))
}

/// Whether the four bytes at `p` spell the chunk identifier "fmt ".
pub open spec fn is_fmt_id(b: Seq<u8>, p: int) -> bool {
    b[p] == 102 && b[p + 1] == 109 && b[p + 2] == 116 && b[p + 3] == 32
}

/// Whether the four bytes at `p` spell the chunk identifier "data".
pub open spec fn is_data_id(b: Seq<u8>, p: int) -> bool {
    b[p] == 100 && b[p + 1] == 97 && b[p + 2] == 116 && b[p + 3] == 97
}

/// Whether `b` opens with a RIFF header whose form type is WAVE: the tag
/// "RIFF", a four-byte length, then "WAVE".
pub open spec fn has_riff_wave_header(b: Seq<u8>) -> bool {
    &&& b.len() >= 12
    &&& b[0] == 82 && b[1] == 73 && b[2] == 70 && b[3] == 70
    &&& b[8] == 87 && b[9] == 65 && b[10] == 86 && b[11] == 69
}

/// Offset of the chunk after the one at `p`: past the eight-byte header and
/// the body, plus the RIFF pad byte after an odd-sized body when one is
/// present.
pub open spec fn next_chunk(b: Seq<u8>, p: int) -> int {
    let q = p + 8 + le32(b, p + 4);
    if le32(b, p + 4) % 2 == 1 && q < b.len() {
        q + 1
    } else {
        q
    }
}

/// Scans the RIFF chunk list of `b` from offset `p`; `fmt_seen` records
/// whether a "fmt " chunk declaring 16-bit integer PCM was already passed.
/// Yields the samples of the first "data" chunk, `UnsupportedFormat` as soon
/// as a fmt chunk declares any other encoding, and `IoError` for a malformed
/// list: a truncated chunk, an undersized fmt chunk, a data chunk before any
/// fmt chunk, or no data chunk at all.
pub open spec fn scan_chunks(b: Seq<u8>, p: int, fmt_seen: bool) -> Result<Seq<i16>, PipelineError>
    decreases b.len() - p,
{
    if p == b.len() {
        Err(PipelineError::IoError)
    } else if p + 8 > b.len() {
        Err(PipelineError::IoError)
    } else if p + 8 + le32(b, p + 4) > b.len() {
        Err(PipelineError::IoError)
    } else if is_fmt_id(b, p) {
        if le32(b, p + 4) < 16 {
            Err(PipelineError::IoError)
        } else if le16(b, p + 8) != 1 || le16(b, p + 22) != 16 {
            Err(PipelineError::UnsupportedFormat)
        } else {
            scan_chunks(b, next_chunk(b, p), true)
        }
    } else if is_data_id(b, p) {
        if fmt_seen {
            Ok(samples_at(b, p + 8, le32(b, p + 4) / 2))
        } else {
            Err(PipelineError::IoError)
        }
    } else {
        scan_chunks(b, next_chunk(b, p), fmt_seen)
    }
}

/// What the audio loader owes for container bytes `b`: the sample sequence
/// of a well-formed RIFF WAVE container declaring 16-bit integer PCM,
/// `UnsupportedFormat` when it declares any other encoding or bit depth,
/// and `IoError` when the container is malformed.
pub open spec fn decode_spec(b: Seq<u8>) -> Result<Seq<i16>, PipelineError> {
    if !has_riff_wave_header(b) {
        Err(PipelineError::IoError)
    } else {
        scan_chunks(b, 12, false)
    }
}

/// Reads the little-endian unsigned 16-bit value at offset `i`.
fn read_le16(bytes: &Vec<u8>, i: usize) -> (v: u16)
    requires
        i + 2 <= bytes.len(),
    ensures
        v == le16(bytes@, i as int),
{
    let lo = bytes[i] as u16;
    let hi = bytes[i + 1] as u16;
    lo + hi * 0x100
}

/// Reads the little-endian unsigned 32-bit value at offset `i`.
fn read_le32(bytes: &Vec<u8>, i: usize) -> (v: u32)
    requires
        i + 4 <= bytes.len(),
    ensures
        v == le32(bytes@, i as int),
{
    let b0 = bytes[i] as u32;
    let b1 = bytes[i + 1] as u32;
    let b2 = bytes[i + 2] as u32;
    let b3 = bytes[i + 3] as u32;
    b0 + b1 * 0x100 + b2 * 0x10000 + b3 * 0x1000000
}

/// The audio loader's parsing step: decodes a RIFF WAVE container holding
/// 16-bit integer PCM into its sample sequence, in file order. Returns
/// exactly what `decode_spec` assigns to the bytes: the samples on success,
/// `UnsupportedFormat` when the container declares an encoding other than
/// 16-bit integer PCM, `IoError` when the container is malformed.
pub fn decode_wav(bytes: &Vec<u8>) -> (r: Result<Vec<i16>, PipelineError>)
    ensures
        match r {
            Ok(samples) => decode_spec(bytes@) == Ok::<Seq<i16>, PipelineError>(samples@),
            Err(e) => decode_spec(bytes@) == Err::<Seq<i16>, PipelineError>(e),
        },
{
    if bytes.len() < 12 {
        return Err(PipelineError::IoError);
    }
    if !(bytes[0] == 82 && bytes[1] == 73 && bytes[2] == 70 && bytes[3] == 70 && bytes[8] == 87
        && bytes[9] == 65 && bytes[10] == 86 && bytes[11] == 69) {
        return Err(PipelineError::IoError);
    }
    let mut p: usize = 12;
    let mut fmt_seen: bool = false;
    loop
        invariant
            12 <= p <= bytes.len(),
            has_riff_wave_header(bytes@),
            scan_chunks(bytes@, p as int, fmt_seen) == decode_spec(bytes@),
        decreases bytes.len() - p,
    {
        if p == bytes.len() {
            return Err(PipelineError::IoError);
        }
        if bytes.len() - p < 8 {
            return Err(PipelineError::IoError);
        }
        let size32 = read_le32(bytes, p + 4);
        let avail = bytes.len() - p - 8;
        if size32 as usize > avail {
            return Err(PipelineError::IoError);
        }
        let size = size32 as usize;
        if bytes[p] == 102 && bytes[p + 1] == 109 && bytes[p + 2] == 116 && bytes[p + 3] == 32 {
            // A "fmt " chunk: check the declared encoding and bit depth.
            if size < 16 {
                return Err(PipelineError::IoError);
            }
            let tag = read_le16(bytes, p + 8);
            let bits = read_le16(bytes, p + 22);
            if tag != 1 || bits != 16 {
                return Err(PipelineError::UnsupportedFormat);
            }
            fmt_seen = true;
            let body_end = p + 8 + size;
            p = if size % 2 == 1 && body_end < bytes.len() {
                body_end + 1
            } else {
                body_end
            };
        } else if bytes[p] == 100 && bytes[p + 1] == 97 && bytes[p + 2] == 116
            && bytes[p + 3] == 97 {
            // The "data" chunk: decode the samples it holds.
            if !fmt_seen {
                return Err(PipelineError::IoError);
            }
            let n = size / 2;
            let start = p + 8;
            let mut out: Vec<i16> = Vec::new();
            let mut i: usize = 0;
            while i < n
                invariant
                    start + 2 * n <= bytes.len(),
                    i <= n,
                    out@.len() == i,
                    forall|j: int| 0 <= j < i ==> out@[j] == sample_at(bytes@, start + 2 * j),
                decreases n - i,
            {
                let lo = bytes[start + 2 * i] as u16;
                let hi = bytes[start + 2 * i + 1] as u16;
                let v = lo + hi * 0x100;
                let s: i16 = if v < 0x8000 {
                    v as i16
                } else {
                    ((v as i32) - 0x10000) as i16
                };
                out.push(s);
                i = i + 1;
            }
            proof {
                assert(out@ =~= samples_at(bytes@, start as int, n as int));
            }
            return Ok(out);
        } else {
            let body_end = p + 8 + size;
            p = if size % 2 == 1 && body_end < bytes.len() {
                body_end + 1
            } else {
                body_end
            };
        }
    }
}

/// The unsigned 16-bit value that stores sample `x` in two's complement.
pub open spec fn sample_repr(x: i16) -> int {
    if x >= 0 {
        x as int
    } else {
        x + 0x10000
    }
}

/// The little-endian byte pairs of the samples `s`, sample after sample:
/// the body of a data chunk holding them.
pub open spec fn data_bytes(s: Seq<i16>) -> Seq<u8> {
    Seq::new(
        (2 * s.len()) as nat,
        |i: int|
            if i % 2 == 0 {
                (sample_repr(s[i / 2]) % 0x100) as u8
            } else {
                ((sample_repr(s[i / 2]) / 0x100) % 0x100) as u8
            },
    )
}

/// Byte `k` (0 = lowest) of the four-byte little-endian encoding of `v`.
pub open spec fn le32_byte(v: int, k: int) -> u8 {
    if k == 0 {
        (v % 0x100) as u8
    } else if k == 1 {
        ((v / 0x100) % 0x100) as u8
    } else if k == 2 {
        ((v / 0x10000) % 0x100) as u8
    } else {
        ((v / 0x1000000) % 0x100) as u8
    }
}

/// Byte `i` of the 44-byte canonical header of a mono 16-bit PCM container
/// at `rate` Hz whose data chunk body holds `dlen` bytes: the RIFF/WAVE
/// header, one 16-byte fmt chunk, and the data chunk header.
pub open spec fn header_byte(rate: int, dlen: int, i: int) -> u8 {
    if i == 0 {
        82  // 'R'
    } else if i == 1 {
        73  // 'I'
    } else if i == 2 {
        70  // 'F'
    } else if i == 3 {
        70  // 'F'
    } else if i < 8 {
        le32_byte(36 + dlen, i - 4)  // RIFF length
    } else if i == 8 {
        87  // 'W'
    } else if i == 9 {
        65  // 'A'
    } else if i == 10 {
        86  // 'V'
    } else if i == 11 {
        69  // 'E'
    } else if i == 12 {
        102  // 'f'
    } else if i == 13 {
        109  // 'm'
    } else if i == 14 {
        116  // 't'
    } else if i == 15 {
        32  // ' '
    } else if i < 20 {
        le32_byte(16, i - 16)  // fmt chunk size
    } else if i < 22 {
        le32_byte(1, i - 20)  // format tag: integer PCM
    } else if i < 24 {
        le32_byte(1, i - 22)  // channels: mono
    } else if i < 28 {
        le32_byte(rate, i - 24)  // sample rate
    } else if i < 32 {
        le32_byte(2 * rate, i - 28)  // byte rate
    } else if i < 34 {
        le32_byte(2, i - 32)  // block align
    } else if i < 36 {
        le32_byte(16, i - 34)  // bits per sample
    } else if i == 36 {
        100  // 'd'
    } else if i == 37 {
        97  // 'a'
    } else if i == 38 {
        116  // 't'
    } else if i == 39 {
        97  // 'a'
    } else {
        le32_byte(dlen, i - 40)  // data chunk size
    }
}

/// The canonical RIFF WAVE container for mono 16-bit PCM `samples` at
/// `rate` Hz: the 44-byte header followed by the sample bytes.
pub open spec fn wav_bytes(rate: int, samples: Seq<i16>) -> Seq<u8> {
    Seq::new(44, |i: int| header_byte(rate, 2 * samples.len() as int, i)) + data_bytes(samples)
}

/// Reconstructing a 16-bit value from its two little-endian bytes.
proof fn lemma_le16_reconstruct(v: u16)
    ensures
        v % 0x100 + 0x100 * ((v / 0x100) % 0x100) == v,
{
    assert(v % 0x100 + 0x100 * ((v / 0x100) % 0x100) == v) by (bit_vector);
}

/// Reconstructing a 32-bit value from its four little-endian bytes.
proof fn lemma_le32_reconstruct(v: u32)
    ensures
        v % 0x100 + 0x100 * ((v / 0x100) % 0x100) + 0x10000 * ((v / 0x10000) % 0x100)
            + 0x1000000 * ((v / 0x1000000) % 0x100) == v,
{
    assert(v % 0x100 + 0x100 * ((v / 0x100) % 0x100) + 0x10000 * ((v / 0x10000) % 0x100)
        + 0x1000000 * ((v / 0x1000000) % 0x100) == v) by (bit_vector);
}

/// Round-trip law of the audio loader: a container synthesized for any
/// sample sequence — in particular a silent one — decodes back to exactly
/// that sequence, one value per sample frame, in the original order.
pub proof fn lemma_wav_round_trip(rate: int, samples: Seq<i16>)
    requires
        2 * samples.len() < 0x100000000,
    ensures
        decode_spec(wav_bytes(rate, samples)) == Ok::<Seq<i16>, PipelineError>(samples),
{
    let dlen = 2 * samples.len() as int;
    let data = data_bytes(samples);
    let b = wav_bytes(rate, samples);
    assert(b.len() == 44 + dlen);
    assert forall|i: int| 0 <= i < 44 implies b[i] == header_byte(rate, dlen, i) by {}
    assert forall|j: int| 0 <= j < dlen implies b[44 + j] == data[j] by {}
    assert(has_riff_wave_header(b));
    // The fmt chunk at offset 12 declares 16-bit integer PCM.
    assert(le32(b, 16) == 16);
    assert(le16(b, 20) == 1);
    assert(le16(b, 34) == 16);
    assert(is_fmt_id(b, 12));
    assert(next_chunk(b, 12) == 36);
    // The data chunk at offset 36 declares exactly the sample bytes.
    assert(is_data_id(b, 36));
    assert(!is_fmt_id(b, 36));
    let d32 = dlen as u32;
    lemma_le32_reconstruct(d32);
    assert(le32(b, 40) == dlen);
    assert(36 + 8 + le32(b, 40) == b.len());
    assert forall|i: int| 0 <= i < samples.len() implies sample_at(b, 44 + 2 * i) == samples[i] by {
        let r = sample_repr(samples[i]);
        let r16 = r as u16;
        lemma_le16_reconstruct(r16);
        assert(b[44 + 2 * i] == data[2 * i]);
        assert(b[44 + 2 * i + 1] == data[2 * i + 1]);
        assert((2 * i) / 2 == i);
        assert((2 * i + 1) / 2 == i);
        assert(le16(b, 44 + 2 * i) == r);
    }
    assert(samples_at(b, 44, samples.len() as int) =~= samples);
    assert(scan_chunks(b, 36, true) == Ok::<Seq<i16>, PipelineError>(
        samples_at(b, 44, le32(b, 40) / 2),
    ));
    assert(scan_chunks(b, 12, false) == scan_chunks(b, 36, true));
}

} // verus!
