//! WAV (RIFF, PCM) encoding of 16-bit mono audio, as sent to transcription
//! servers.
use vstd::prelude::*;

verus! {

/// The sample rate of the audio that is sent for transcription.
pub const TRANSCRIPTION_SAMPLE_RATE: u32 = 16000;

/// The size in bytes of the RIFF/WAVE header that precedes the samples.
pub const WAV_HEADER_LEN: usize = 44;

/// Little-endian bytes of a 16-bit value.
pub open spec fn u16_le(x: u16) -> Seq<u8> {
    seq![(x & 0xff) as u8, ((x >> 8u16) & 0xff) as u8]
}

/// Little-endian bytes of a 32-bit value.
pub open spec fn u32_le(x: u32) -> Seq<u8> {
    seq![
        (x & 0xff) as u8,
        ((x >> 8u32) & 0xff) as u8,
        ((x >> 16u32) & 0xff) as u8,
        ((x >> 24u32) & 0xff) as u8,
    ]
}

/// Little-endian bytes of a signed 16-bit sample (its two's complement bits).
pub open spec fn i16_le(x: i16) -> Seq<u8> {
    u16_le(x as u16)
}

/// The sample that two little-endian bytes hold.
pub open spec fn i16_from_le(lo: u8, hi: u8) -> i16 {
    ((lo as u16) | ((hi as u16) << 8u16)) as i16
}

/// The PCM data block: each sample as two little-endian bytes, in order.
pub open spec fn pcm_bytes(samples: Seq<i16>) -> Seq<u8>
    decreases samples.len(),
{
    if samples.len() == 0 {
        Seq::empty()
    } else {
        pcm_bytes(samples.drop_last()) + i16_le(samples.last())
    }
}

/// The four ASCII bytes of a chunk tag.
pub open spec fn tag(a: char, b: char, c: char, d: char) -> Seq<u8> {
    seq![a as u8, b as u8, c as u8, d as u8]
}

/// The 44-byte header of a mono, 16-bit PCM WAV file with `n` samples.
/// The two size fields hold their values modulo 2^32, as a `u32` cast gives them.
pub open spec fn wav_header(n: nat, sample_rate: u32) -> Seq<u8> {
    tag('R', 'I', 'F', 'F') + u32_le(((36 + 2 * n) % 0x1_0000_0000) as u32) + tag('W', 'A', 'V', 'E') + tag(
        'f',
        'm',
        't',
        ' ',
    ) + u32_le(16) + u16_le(1) + u16_le(1) + u32_le(sample_rate) + u32_le(
        (sample_rate * 2) as u32,
    ) + u16_le(2) + u16_le(16) + tag('d', 'a', 't', 'a') + u32_le(((2 * n) % 0x1_0000_0000) as u32)
}

/// A complete WAV file holding `samples`.
pub open spec fn wav_file(samples: Seq<i16>, sample_rate: u32) -> Seq<u8> {
    wav_header(samples.len(), sample_rate) + pcm_bytes(samples)
}

fn push_u16_le(out: &mut Vec<u8>, x: u16)
    ensures
        final(out)@ == old(out)@ + u16_le(x),
{
    out.push((x & 0xff) as u8);
    out.push(((x >> 8u16) & 0xff) as u8);
}

fn push_u32_le(out: &mut Vec<u8>, x: u32)
    ensures
        final(out)@ == old(out)@ + u32_le(x),
{
    out.push((x & 0xff) as u8);
    out.push(((x >> 8u32) & 0xff) as u8);
    out.push(((x >> 16u32) & 0xff) as u8);
    out.push(((x >> 24u32) & 0xff) as u8);
}

fn push_tag(out: &mut Vec<u8>, a: char, b: char, c: char, d: char)
    requires
        (a as u32) < 128,
        (b as u32) < 128,
        (c as u32) < 128,
        (d as u32) < 128,
    ensures
        final(out)@ == old(out)@ + tag(a, b, c, d),
{
    out.push(a as u8);
    out.push(b as u8);
    out.push(c as u8);
    out.push(d as u8);
}

/// Encodes 16-bit mono PCM samples as a WAV file: the RIFF header, the `fmt `
/// chunk (PCM, one channel, `sample_rate`, 16 bits per sample) and the `data`
/// chunk with every sample in little-endian order.
pub fn encode_wav_pcm16(samples: &[i16], sample_rate: u32) -> (wav: Vec<u8>)
    requires
        sample_rate <= u32::MAX / 2,
        WAV_HEADER_LEN + 2 * samples@.len() <= usize::MAX,
    ensures
        wav@ == wav_file(samples@, sample_rate),
        wav@.len() == WAV_HEADER_LEN + 2 * samples@.len(),
{
    let n: usize = samples.len();
    let data_size: usize = n * 2;
    let file_size: usize = 36 + data_size;
    let mut wav: Vec<u8> = Vec::with_capacity(WAV_HEADER_LEN + data_size);
    push_tag(&mut wav, 'R', 'I', 'F', 'F');
    push_u32_le(&mut wav, file_size as u32);
    push_tag(&mut wav, 'W', 'A', 'V', 'E');
    push_tag(&mut wav, 'f', 'm', 't', ' ');
    push_u32_le(&mut wav, 16);
    push_u16_le(&mut wav, 1);
    push_u16_le(&mut wav, 1);
    push_u32_le(&mut wav, sample_rate);
    let byte_rate: u32 = sample_rate * 2;
    push_u32_le(&mut wav, byte_rate);
    push_u16_le(&mut wav, 2);
    push_u16_le(&mut wav, 16);
    push_tag(&mut wav, 'd', 'a', 't', 'a');
    push_u32_le(&mut wav, data_size as u32);
    assert(file_size as u32 == (file_size as u64 % 0x1_0000_0000u64) as u32) by (bit_vector);
    assert(data_size as u32 == (data_size as u64 % 0x1_0000_0000u64) as u32) by (bit_vector);
    let ghost header = wav@;
    assert(header == wav_header(n as nat, sample_rate));
    let mut i: usize = 0;
    while i < n
        invariant
            n == samples@.len(),
            i <= n,
            header == wav_header(n as nat, sample_rate),
            header.len() == WAV_HEADER_LEN,
            wav@ == header + pcm_bytes(samples@.take(i as int)),
        decreases n - i,
    {
        let s: i16 = samples[i];
        push_u16_le(&mut wav, s as u16);
        assert(samples@.take(i + 1).drop_last() == samples@.take(i as int));
        i = i + 1;
    }
    assert(samples@.take(n as int) == samples@);
    proof {
        lemma_pcm_bytes_len(samples@);
    }
    wav
}

/// The number that two bytes at `at` denote, least significant first.
pub open spec fn le16_at(b: Seq<u8>, at: int) -> int {
    b[at] + 256 * b[at + 1]
}

/// The number that four bytes at `at` denote, least significant first.
pub open spec fn le32_at(b: Seq<u8>, at: int) -> int {
    b[at] + 256 * b[at + 1] + 65536 * b[at + 2] + 16777216 * b[at + 3]
}

/// The two bytes of a 16-bit value read back, least significant first, as the value.
pub proof fn lemma_u16_le_denotes(x: u16)
    ensures
        u16_le(x).len() == 2,
        le16_at(u16_le(x), 0) == x,
{
    let b0: u16 = x & 0xff;
    let b1: u16 = (x >> 8u16) & 0xff;
    assert(b0 < 256 && b1 < 256 && b0 + 256 * b1 == x) by (bit_vector)
        requires
            b0 == x & 0xff,
            b1 == (x >> 8u16) & 0xff,
    ;
    assert(u16_le(x)[0] == b0);
    assert(u16_le(x)[1] == b1);
}

/// The four bytes of a 32-bit value read back, least significant first, as the value.
pub proof fn lemma_u32_le_denotes(x: u32)
    ensures
        u32_le(x).len() == 4,
        le32_at(u32_le(x), 0) == x,
{
    let b0: u32 = x & 0xff;
    let b1: u32 = (x >> 8u32) & 0xff;
    let b2: u32 = (x >> 16u32) & 0xff;
    let b3: u32 = (x >> 24u32) & 0xff;
    assert(b0 < 256 && b1 < 256 && b2 < 256 && b3 < 256 && b0 + 256 * b1 + 65536 * b2 + 16777216
        * b3 == x) by (bit_vector)
        requires
            b0 == x & 0xff,
            b1 == (x >> 8u32) & 0xff,
            b2 == (x >> 16u32) & 0xff,
            b3 == (x >> 24u32) & 0xff,
    ;
    assert(u32_le(x)[0] == b0);
    assert(u32_le(x)[1] == b1);
    assert(u32_le(x)[2] == b2);
    assert(u32_le(x)[3] == b3);
}

/// Read as little-endian numbers, the header fields of the WAV file hold:
/// the RIFF size 36 + 2n and the data size 2n (both modulo 2^32, n being the
/// sample count), the `fmt ` chunk size 16, PCM format 1, one channel, the
/// sample rate, the byte rate 2 * rate (modulo 2^32), block alignment 2 and 16
/// bits per sample; the chunk tags are `RIFF`, `WAVE`, `fmt ` and `data`.
pub proof fn lemma_wav_header_fields(samples: Seq<i16>, sample_rate: u32)
    ensures
        ({
            let f = wav_file(samples, sample_rate);
            let n = samples.len();
            &&& f[0] == 0x52 && f[1] == 0x49 && f[2] == 0x46 && f[3] == 0x46
            &&& le32_at(f, 4) == (36 + 2 * n) % 0x1_0000_0000
            &&& f[8] == 0x57 && f[9] == 0x41 && f[10] == 0x56 && f[11] == 0x45
            &&& f[12] == 0x66 && f[13] == 0x6d && f[14] == 0x74 && f[15] == 0x20
            &&& le32_at(f, 16) == 16
            &&& le16_at(f, 20) == 1
            &&& le16_at(f, 22) == 1
            &&& le32_at(f, 24) == sample_rate
            &&& le32_at(f, 28) == (2 * sample_rate) % 0x1_0000_0000
            &&& le16_at(f, 32) == 2
            &&& le16_at(f, 34) == 16
            &&& f[36] == 0x64 && f[37] == 0x61 && f[38] == 0x74 && f[39] == 0x61
            &&& le32_at(f, 40) == (2 * n) % 0x1_0000_0000
        }),
{
    let n = samples.len();
    let riff: u32 = ((36 + 2 * n) % 0x1_0000_0000) as u32;
    let data: u32 = ((2 * n) % 0x1_0000_0000) as u32;
    let rate2: u32 = (sample_rate * 2) as u32;
    lemma_u32_le_denotes(riff);
    lemma_u32_le_denotes(16);
    lemma_u16_le_denotes(1);
    lemma_u16_le_denotes(2);
    lemma_u16_le_denotes(16);
    lemma_u32_le_denotes(sample_rate);
    lemma_u32_le_denotes(rate2);
    lemma_u32_le_denotes(data);
    assert(rate2 == (2 * sample_rate) % 0x1_0000_0000) by (bit_vector)
        requires
            rate2 == (sample_rate * 2) as u32,
    ;
    let f = wav_file(samples, sample_rate);
    let h = wav_header(n, sample_rate);
    assert(h.len() == 44);
    assert forall|i: int| 0 <= i < 44 implies f[i] == h[i] by {}
    assert(h.subrange(4, 8) == u32_le(riff));
    assert(h.subrange(16, 20) == u32_le(16));
    assert(h.subrange(20, 22) == u16_le(1));
    assert(h.subrange(22, 24) == u16_le(1));
    assert(h.subrange(24, 28) == u32_le(sample_rate));
    assert(h.subrange(28, 32) == u32_le(rate2));
    assert(h.subrange(32, 34) == u16_le(2));
    assert(h.subrange(34, 36) == u16_le(16));
    assert(h.subrange(40, 44) == u32_le(data));
    assert(h[4] == u32_le(riff)[0] && h[5] == u32_le(riff)[1] && h[6] == u32_le(riff)[2] && h[7]
        == u32_le(riff)[3]);
    assert(h[40] == u32_le(data)[0] && h[41] == u32_le(data)[1] && h[42] == u32_le(data)[2]
        && h[43] == u32_le(data)[3]);
    assert(h[24] == u32_le(sample_rate)[0] && h[25] == u32_le(sample_rate)[1] && h[26]
        == u32_le(sample_rate)[2] && h[27] == u32_le(sample_rate)[3]);
    assert(h[28] == u32_le(rate2)[0] && h[29] == u32_le(rate2)[1] && h[30] == u32_le(rate2)[2]
        && h[31] == u32_le(rate2)[3]);
    assert(h[16] == u32_le(16)[0] && h[17] == u32_le(16)[1] && h[18] == u32_le(16)[2] && h[19]
        == u32_le(16)[3]);
    assert(h[20] == u16_le(1)[0] && h[21] == u16_le(1)[1]);
    assert(h[22] == u16_le(1)[0] && h[23] == u16_le(1)[1]);
    assert(h[32] == u16_le(2)[0] && h[33] == u16_le(2)[1]);
    assert(h[34] == u16_le(16)[0] && h[35] == u16_le(16)[1]);
}

/// The PCM block is two bytes per sample.
pub proof fn lemma_pcm_bytes_len(samples: Seq<i16>)
    ensures
        pcm_bytes(samples).len() == 2 * samples.len(),
    decreases samples.len(),
{
    if samples.len() > 0 {
        lemma_pcm_bytes_len(samples.drop_last());
    }
}

proof fn lemma_pcm_bytes_index(samples: Seq<i16>, i: int)
    requires
        0 <= i < samples.len(),
    ensures
        pcm_bytes(samples)[2 * i] == i16_le(samples[i])[0],
        pcm_bytes(samples)[2 * i + 1] == i16_le(samples[i])[1],
    decreases samples.len(),
{
    lemma_pcm_bytes_len(samples.drop_last());
    if i < samples.len() - 1 {
        lemma_pcm_bytes_index(samples.drop_last(), i);
    }
}

proof fn lemma_i16_le_roundtrip(x: i16)
    ensures
        i16_from_le(i16_le(x)[0], i16_le(x)[1]) == x,
{
    let u: u16 = x as u16;
    assert((((u & 0xff) as u8) as u16 | ((((u >> 8u16) & 0xff) as u8) as u16) << 8u16) == u)
        by (bit_vector);
    assert(((x as u16) as i16) == x) by (bit_vector);
}

/// Every sample can be read back from the encoded file: the two bytes at
/// offset `44 + 2 * i` hold sample `i`.
pub proof fn lemma_wav_samples_recoverable(samples: Seq<i16>, sample_rate: u32)
    ensures
        forall|i: int|
            0 <= i < samples.len() ==> i16_from_le(
                #[trigger] wav_file(samples, sample_rate)[WAV_HEADER_LEN + 2 * i],
                wav_file(samples, sample_rate)[WAV_HEADER_LEN + 2 * i + 1],
            ) == samples[i],
{
    let f = wav_file(samples, sample_rate);
    let h = wav_header(samples.len(), sample_rate);
    assert(h.len() == WAV_HEADER_LEN);
    lemma_pcm_bytes_len(samples);
    assert forall|i: int| 0 <= i < samples.len() implies i16_from_le(
        #[trigger] f[WAV_HEADER_LEN + 2 * i],
        f[WAV_HEADER_LEN + 2 * i + 1],
    ) == samples[i] by {
        lemma_pcm_bytes_index(samples, i);
        lemma_i16_le_roundtrip(samples[i]);
        assert(f[WAV_HEADER_LEN + 2 * i] == pcm_bytes(samples)[2 * i]);
        assert(f[WAV_HEADER_LEN + 2 * i + 1] == pcm_bytes(samples)[2 * i + 1]);
    }
}

} // verus!
