//! The waveform container codec: framing and checking of the PCM byte format
//! the backend produces and the coordinator returns.
//!
//! A container is a 44-byte header followed by 16-bit little-endian samples.
//! The coordinator decodes each per-sentence container, concatenates the
//! samples, and encodes the combined sequence as one mono 16-bit 24 kHz
//! container.

use vstd::prelude::*;

use crate::error::GenericError;
use crate::EngineError;
use crate::EngineErrorDescription;

verus! {

/// Sample rate of every container the coordinator emits.
pub const OUTPUT_SAMPLE_RATE: u32 = 24000;

/// Largest sample count a container can carry: the data size field is 32 bits.
pub const MAX_WAV_SAMPLES: usize = 2_147_483_629;

/// The little-endian bytes of a 32-bit value.
pub open spec fn le32(v: int) -> Seq<u8> {
    seq![
        (v % 0x100) as u8,
        (v / 0x100 % 0x100) as u8,
        (v / 0x10000 % 0x100) as u8,
        (v / 0x1000000 % 0x100) as u8,
    ]
}

/// The little-endian bytes of a 16-bit value.
pub open spec fn le16(v: int) -> Seq<u8> {
    seq![(v % 0x100) as u8, (v / 0x100) as u8]
}

/// The 32-bit value stored little-endian at offset `i`.
pub open spec fn le32_at(b: Seq<u8>, i: int) -> int {
    b[i] + 0x100 * b[i + 1] + 0x10000 * b[i + 2] + 0x1000000 * b[i + 3]
}

/// The 16-bit value stored little-endian at offset `i`.
pub open spec fn le16_at(b: Seq<u8>, i: int) -> int {
    b[i] + 0x100 * b[i + 1]
}

/// The two's-complement 16-bit image of a sample value.
pub open spec fn u16_of_i16(v: int) -> int {
    if v >= 0 {
        v
    } else {
        v + 0x10000
    }
}

/// The sample value of a two's-complement 16-bit image.
pub open spec fn i16_of_u16(u: int) -> int {
    if u < 0x8000 {
        u
    } else {
        u - 0x10000
    }
}

/// One sample as its two little-endian bytes.
pub open spec fn sample_le(v: i16) -> Seq<u8> {
    le16(u16_of_i16(v as int))
}

/// A sample sequence as its little-endian byte sequence.
pub open spec fn samples_bytes(s: Seq<i16>) -> Seq<u8>
    decreases s.len(),
{
    if s.len() == 0 {
        Seq::empty()
    } else {
        samples_bytes(s.drop_last()) + sample_le(s.last())
    }
}

/// The fixed middle of the header, offsets 8 to 40: the `WAVE` form tag, a
/// 16-byte PCM `fmt ` chunk (one channel, 24000 Hz, 48000 bytes/s, block
/// align 2, 16 bits per sample), and the `data` chunk tag.
pub open spec fn header_mid() -> Seq<u8> {
    seq![
        0x57u8,
        0x41u8,
        0x56u8,
        0x45u8,
        0x66u8,
        0x6Du8,
        0x74u8,
        0x20u8,
        0x10u8,
        0x00u8,
        0x00u8,
        0x00u8,
        0x01u8,
        0x00u8,
        0x01u8,
        0x00u8,
        0xC0u8,
        0x5Du8,
        0x00u8,
        0x00u8,
        0x80u8,
        0xBBu8,
        0x01u8,
        0x00u8,
        0x02u8,
        0x00u8,
        0x10u8,
        0x00u8,
        0x64u8,
        0x61u8,
        0x74u8,
        0x61u8,
    ]
}

/// The 44-byte header of a container with `n` samples: the `RIFF` tag, the
/// chunk size, the fixed middle, and the data size.
pub open spec fn wav_header(n: int) -> Seq<u8> {
    seq![0x52u8, 0x49u8, 0x46u8, 0x46u8] + le32(36 + 2 * n) + header_mid() + le32(2 * n)
}

/// The whole container of a sample sequence.
pub open spec fn wav_bytes(s: Seq<i16>) -> Seq<u8> {
    wav_header(s.len() as int) + samples_bytes(s)
}

/// A well-formed container: correct tags, a 16-byte PCM `fmt ` chunk with 16
/// bits per sample, and size fields that match the byte length.
pub open spec fn wav_parse_ok(b: Seq<u8>) -> bool {
    &&& b.len() >= 44
    &&& (b.len() - 44) % 2 == 0
    &&& b[0] == 0x52u8
    &&& b[1] == 0x49u8
    &&& b[2] == 0x46u8
    &&& b[3] == 0x46u8
    &&& le32_at(b, 4) == b.len() - 8
    &&& b[8] == 0x57u8
    &&& b[9] == 0x41u8
    &&& b[10] == 0x56u8
    &&& b[11] == 0x45u8
    &&& b[12] == 0x66u8
    &&& b[13] == 0x6Du8
    &&& b[14] == 0x74u8
    &&& b[15] == 0x20u8
    &&& b[16] == 0x10u8
    &&& b[17] == 0x00u8
    &&& b[18] == 0x00u8
    &&& b[19] == 0x00u8
    &&& b[20] == 0x01u8
    &&& b[21] == 0x00u8
    &&& b[34] == 0x10u8
    &&& b[35] == 0x00u8
    &&& b[36] == 0x64u8
    &&& b[37] == 0x61u8
    &&& b[38] == 0x74u8
    &&& b[39] == 0x61u8
    &&& le32_at(b, 40) == b.len() - 44
}

/// The samples a well-formed container carries.
pub open spec fn wav_samples(b: Seq<u8>) -> Seq<i16> {
    Seq::new(((b.len() - 44) / 2) as nat, |k: int| i16_of_u16(le16_at(b, 44 + 2 * k)) as i16)
}

/// A sample sequence's byte form is twice as long as the sequence.
pub proof fn lemma_samples_bytes_len(s: Seq<i16>)
    ensures
        samples_bytes(s).len() == 2 * s.len(),
    decreases s.len(),
{
    if s.len() > 0 {
        lemma_samples_bytes_len(s.drop_last());
    }
}

/// Extending a sample prefix by one element appends that sample's two bytes.
proof fn lemma_samples_prefix(s: Seq<i16>, k: int)
    requires
        0 <= k < s.len(),
    ensures
        samples_bytes(s.subrange(0, k + 1)) == samples_bytes(s.subrange(0, k)) + sample_le(s[k]),
{
    let t = s.subrange(0, k + 1);
    assert(t.drop_last() =~= s.subrange(0, k));
    assert(t.last() == s[k]);
}

/// The two bytes of sample `k` sit at offsets `2k` and `2k + 1` of the byte
/// form.
proof fn lemma_samples_bytes_index(s: Seq<i16>, k: int)
    requires
        0 <= k < s.len(),
    ensures
        samples_bytes(s)[2 * k] == sample_le(s[k])[0],
        samples_bytes(s)[2 * k + 1] == sample_le(s[k])[1],
    decreases s.len(),
{
    lemma_samples_bytes_len(s);
    lemma_samples_bytes_len(s.drop_last());
    if k == s.len() - 1 {
    } else {
        lemma_samples_bytes_index(s.drop_last(), k);
        assert(s.drop_last()[k] == s[k]);
    }
}

/// Little-endian digits recompose to the encoded 32-bit value.
proof fn lemma_le32_decode(v: int)
    requires
        0 <= v < 0x1_0000_0000,
    ensures
        (le32(v)[0] as int) + 0x100 * (le32(v)[1] as int) + 0x10000 * (le32(v)[2] as int)
            + 0x1000000 * (le32(v)[3] as int) == v,
{
    vstd::arithmetic::div_mod::lemma_fundamental_div_mod(v, 0x100);
    vstd::arithmetic::div_mod::lemma_fundamental_div_mod(v / 0x100, 0x100);
    vstd::arithmetic::div_mod::lemma_fundamental_div_mod(v / 0x10000, 0x100);
    assert(v / 0x100 / 0x100 == v / 0x10000) by (nonlinear_arith);
    assert(v / 0x10000 / 0x100 == v / 0x1000000) by (nonlinear_arith);
    assert(v / 0x1000000 < 0x100);
    assert(v / 0x1000000 % 0x100 == v / 0x1000000);
}

/// Little-endian digits recompose to the encoded 16-bit value.
proof fn lemma_le16_decode(v: int)
    requires
        0 <= v < 0x1_0000,
    ensures
        (le16(v)[0] as int) + 0x100 * (le16(v)[1] as int) == v,
{
    vstd::arithmetic::div_mod::lemma_fundamental_div_mod(v, 0x100);
    assert(v / 0x100 < 0x100);
}

/// Encoding then decoding is the identity: the container of a sample sequence
/// is well formed and carries exactly that sequence.
pub proof fn lemma_wav_round_trip(s: Seq<i16>)
    requires
        s.len() <= MAX_WAV_SAMPLES,
    ensures
        wav_parse_ok(wav_bytes(s)),
        wav_samples(wav_bytes(s)) =~= s,
{
    let b = wav_bytes(s);
    let n = s.len() as int;
    lemma_samples_bytes_len(s);
    assert(b.len() == 44 + 2 * n);
    assert(b[4] == le32(36 + 2 * n)[0]);
    assert(b[5] == le32(36 + 2 * n)[1]);
    assert(b[6] == le32(36 + 2 * n)[2]);
    assert(b[7] == le32(36 + 2 * n)[3]);
    lemma_le32_decode(36 + 2 * n);
    assert(b[40] == le32(2 * n)[0]);
    assert(b[41] == le32(2 * n)[1]);
    assert(b[42] == le32(2 * n)[2]);
    assert(b[43] == le32(2 * n)[3]);
    lemma_le32_decode(2 * n);
    assert(le32_at(b, 4) == b.len() - 8);
    assert(le32_at(b, 40) == b.len() - 44);
    assert forall|k: int| 0 <= k < n implies wav_samples(b)[k] == s[k] by {
        lemma_samples_bytes_index(s, k);
        assert(b[44 + 2 * k] == samples_bytes(s)[2 * k]);
        assert(b[44 + 2 * k + 1] == samples_bytes(s)[2 * k + 1]);
        let u = u16_of_i16(s[k] as int);
        lemma_le16_decode(u);
        assert(le16_at(b, 44 + 2 * k) == u);
        assert(i16_of_u16(u) == s[k] as int);
    }
}

fn sample_to_u16(v: i16) -> (r: u16)
    ensures
        r as int == u16_of_i16(v as int),
{
    if v >= 0 {
        v as u16
    } else {
        ((v as i32) + 0x10000) as u16
    }
}

fn u16_to_sample(u: u16) -> (r: i16)
    ensures
        r as int == i16_of_u16(u as int),
{
    if u < 0x8000 {
        u as i16
    } else {
        ((u as i32) - 0x10000) as i16
    }
}

fn push_le32(out: &mut Vec<u8>, v: u32)
    ensures
        final (out)@ =~= old(out)@ + le32(v as int),
{
    out.push((v % 0x100) as u8);
    out.push((v / 0x100 % 0x100) as u8);
    out.push((v / 0x10000 % 0x100) as u8);
    out.push((v / 0x1000000 % 0x100) as u8);
}

/// Encodes samples as one mono 16-bit 24 kHz container.
pub fn encode_wav(samples: &Vec<i16>) -> (r: Vec<u8>)
    requires
        samples@.len() <= MAX_WAV_SAMPLES,
    ensures
        r@ == wav_bytes(samples@),
        r@.len() == 44 + 2 * samples@.len(),
{
    let n = samples.len();
    let data_size: u64 = 2 * (n as u64);
    let chunk_size: u64 = 36 + data_size;
    let mut out: Vec<u8> = Vec::new();
    out.push(0x52);
    out.push(0x49);
    out.push(0x46);
    out.push(0x46);
    push_le32(&mut out, chunk_size as u32);
    out.push(0x57);
    out.push(0x41);
    out.push(0x56);
    out.push(0x45);
    out.push(0x66);
    out.push(0x6D);
    out.push(0x74);
    out.push(0x20);
    out.push(0x10);
    out.push(0x00);
    out.push(0x00);
    out.push(0x00);
    out.push(0x01);
    out.push(0x00);
    out.push(0x01);
    out.push(0x00);
    out.push(0xC0);
    out.push(0x5D);
    out.push(0x00);
    out.push(0x00);
    out.push(0x80);
    out.push(0xBB);
    out.push(0x01);
    out.push(0x00);
    out.push(0x02);
    out.push(0x00);
    out.push(0x10);
    out.push(0x00);
    out.push(0x64);
    out.push(0x61);
    out.push(0x74);
    out.push(0x61);
    push_le32(&mut out, data_size as u32);
    proof {
        assert(out@ =~= wav_header(n as int));
        assert(samples@.subrange(0, 0) =~= Seq::<i16>::empty());
    }
    let mut k: usize = 0;
    while k < n
        invariant
            n == samples@.len(),
            n <= MAX_WAV_SAMPLES,
            k <= n,
            out@ =~= wav_header(n as int) + samples_bytes(samples@.subrange(0, k as int)),
        decreases n - k,
    {
        let u = sample_to_u16(samples[k]);
        out.push((u % 0x100) as u8);
        out.push((u / 0x100) as u8);
        proof {
            lemma_samples_prefix(samples@, k as int);
        }
        k = k + 1;
    }
    proof {
        assert(samples@.subrange(0, n as int) =~= samples@);
        lemma_samples_bytes_len(samples@);
        assert(out@ =~= wav_bytes(samples@));
    }
    out
}

fn read_le32(bytes: &Vec<u8>, i: usize) -> (r: u64)
    requires
        i + 4 <= bytes.len(),
    ensures
        r as int == le32_at(bytes@, i as int),
{
    (bytes[i] as u64) + 0x100 * (bytes[i + 1] as u64) + 0x10000 * (bytes[i + 2] as u64)
        + 0x1000000 * (bytes[i + 3] as u64)
}

/// Decodes one container, checking its framing; fails with
/// `MalformedBackendOutput` exactly when the container is not well formed.
pub fn decode_wav(bytes: &Vec<u8>) -> (r: Result<Vec<i16>, EngineError>)
    ensures
        wav_parse_ok(bytes@) ==> (r matches Ok(s) && s@ == wav_samples(bytes@)),
        !wav_parse_ok(bytes@) ==> (r matches Err(e) && e.0
            == EngineErrorDescription::MalformedBackendOutput),
{
    let len = bytes.len();
    if len < 44 {
        return Err(GenericError::new(EngineErrorDescription::MalformedBackendOutput));
    }
    if (len - 44) % 2 != 0 {
        return Err(GenericError::new(EngineErrorDescription::MalformedBackendOutput));
    }
    let tags_ok = bytes[0] == 0x52 && bytes[1] == 0x49 && bytes[2] == 0x46 && bytes[3] == 0x46
        && bytes[8] == 0x57 && bytes[9] == 0x41 && bytes[10] == 0x56 && bytes[11] == 0x45
        && bytes[12] == 0x66 && bytes[13] == 0x6D && bytes[14] == 0x74 && bytes[15] == 0x20
        && bytes[16] == 0x10 && bytes[17] == 0x00 && bytes[18] == 0x00 && bytes[19] == 0x00
        && bytes[20] == 0x01 && bytes[21] == 0x00 && bytes[34] == 0x10 && bytes[35] == 0x00
        && bytes[36] == 0x64 && bytes[37] == 0x61 && bytes[38] == 0x74 && bytes[39] == 0x61;
    if !tags_ok {
        return Err(GenericError::new(EngineErrorDescription::MalformedBackendOutput));
    }
    let chunk_size = read_le32(bytes, 4);
    if chunk_size != (len as u64) - 8 {
        return Err(GenericError::new(EngineErrorDescription::MalformedBackendOutput));
    }
    let data_size = read_le32(bytes, 40);
    if data_size != (len as u64) - 44 {
        return Err(GenericError::new(EngineErrorDescription::MalformedBackendOutput));
    }
    let m = (len - 44) / 2;
    let mut out: Vec<i16> = Vec::new();
    let mut k: usize = 0;
    proof {
        assert(wav_samples(bytes@).len() == m);
    }
    while k < m
        invariant
            wav_parse_ok(bytes@),
            bytes@.len() == len,
            m == (len - 44) / 2,
            m == wav_samples(bytes@).len(),
            k <= m,
            out@.len() == k,
            forall|t: int| 0 <= t < k ==> out@[t] == wav_samples(bytes@)[t],
        decreases m - k,
    {
        let lo = bytes[44 + 2 * k] as u16;
        let hi = bytes[45 + 2 * k] as u16;
        let u = lo + 0x100 * hi;
        out.push(u16_to_sample(u));
        k = k + 1;
    }
    proof {
        assert(out@ =~= wav_samples(bytes@));
    }
    Ok(out)
}

} // verus!
