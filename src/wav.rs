//! The 16-bit PCM mono WAVE container that HTTP backends receive.
use vstd::prelude::*;

verus! {

/// Two bytes of `x`, least significant first.
pub open spec fn le16(x: int) -> Seq<u8> {
    seq![(x % 256) as u8, (x / 256 % 256) as u8]
}

/// Four bytes of `x`, least significant first.
pub open spec fn le32(x: int) -> Seq<u8> {
    seq![
        (x % 256) as u8,
        (x / 0x100 % 256) as u8,
        (x / 0x1_0000 % 256) as u8,
        (x / 0x100_0000 % 256) as u8,
    ]
}

/// Four ASCII characters as bytes.
pub open spec fn tag(a: char, b: char, c: char, d: char) -> Seq<u8> {
    seq![a as u8, b as u8, c as u8, d as u8]
}

/// The 44-byte header of a 16-bit PCM mono WAVE file at `rate` holding
/// `count` samples: the RIFF chunk, a plain PCM format chunk, and the data
/// chunk header.
#[verifier::opaque]
pub open spec fn wav_header(rate: int, count: int) -> Seq<u8> {
    tag('R', 'I', 'F', 'F') + le32(36 + 2 * count) + tag('W', 'A', 'V', 'E') + tag(
        'f',
        'm',
        't',
        ' ',
    ) + le32(16) + le16(1) + le16(1) + le32(rate) + le32(2 * rate) + le16(2) + le16(16) + tag(
        'd',
        'a',
        't',
        'a',
    ) + le32(2 * count)
}

/// The samples as little-endian two's-complement pairs of bytes.
pub open spec fn pcm_bytes(samples: Seq<i16>) -> Seq<u8>
    decreases samples.len(),
{
    if samples.len() == 0 {
        Seq::empty()
    } else {
        pcm_bytes(samples.drop_last()) + le16(samples.last() as u16 as int)
    }
}

/// A complete WAVE file of 16-bit mono `samples` at `rate`.
pub open spec fn wav_pcm16_mono(rate: int, samples: Seq<i16>) -> Seq<u8> {
    wav_header(rate, samples.len() as int) + pcm_bytes(samples)
}

proof fn lemma_pcm_bytes_len(samples: Seq<i16>)
    ensures
        pcm_bytes(samples).len() == 2 * samples.len(),
    decreases samples.len(),
{
    if samples.len() > 0 {
        lemma_pcm_bytes_len(samples.drop_last());
    }
}

proof fn lemma_header_len(rate: int, count: int)
    ensures
        wav_header(rate, count).len() == 44,
{
    reveal(wav_header);
}

/// A WAVE file of `n` samples is 44 header bytes and two bytes per sample.
pub proof fn lemma_wav_len(rate: int, samples: Seq<i16>)
    ensures
        wav_pcm16_mono(rate, samples).len() == 44 + 2 * samples.len(),
{
    lemma_pcm_bytes_len(samples);
    lemma_header_len(rate, samples.len() as int);
}

/// Largest sample count the container's 32-bit sizes can describe.
pub const MAX_WAV_SAMPLES: usize = 0x7fff_ffe0;

/// Relies on `hound::WavWriter` over an in-memory cursor: for one channel
/// of 16-bit integer samples `new` writes the plain PCM header, each
/// `write_sample` appends two little-endian bytes, and `finalize` fills in
/// the RIFF and data sizes. Writing to memory cannot fail. hound keeps the
/// cursor borrowed until it is finalized, so the samples are handed to it here.
#[verifier::external_body]
fn hound_pcm16_mono(samples: &Vec<i16>, rate: u32) -> (r: Vec<u8>)
    requires
        0 < rate <= 0x7fff_ffff,
        samples@.len() <= MAX_WAV_SAMPLES,
    ensures
        r@ == wav_pcm16_mono(rate as int, samples@),
{
    let spec = hound::WavSpec {
        channels: 1,
        sample_rate: rate,
        bits_per_sample: 16,
        sample_format: hound::SampleFormat::Int,
    };
    let mut cursor = std::io::Cursor::new(Vec::new());
    let mut writer = hound::WavWriter::new(&mut cursor, spec).unwrap();
    for &s in samples.iter() {
        writer.write_sample(s).unwrap();
    }
    writer.finalize().unwrap();
    cursor.into_inner()
}

/// Encodes 16-bit mono samples at `rate` as a WAVE file.
pub fn encode_pcm16_wav(samples: &Vec<i16>, rate: u32) -> (r: Vec<u8>)
    requires
        0 < rate <= 0x7fff_ffff,
        samples@.len() <= MAX_WAV_SAMPLES,
    ensures
        r@ == wav_pcm16_mono(rate as int, samples@),
        r@.len() == 44 + 2 * samples@.len(),
{
    proof {
        lemma_wav_len(rate as int, samples@);
    }
    hound_pcm16_mono(samples, rate)
}

/// The 16-bit sample stored in two little-endian bytes.
pub open spec fn sample_from(lo: u8, hi: u8) -> i16 {
    (lo as int + 256 * hi as int) as u16 as i16
}

/// The samples held in little-endian byte pairs.
pub open spec fn pcm_samples(b: Seq<u8>) -> Seq<i16> {
    Seq::new((b.len() / 2) as nat, |i: int| sample_from(b[2 * i], b[2 * i + 1]))
}

/// The integer held in four little-endian bytes starting at `k`.
pub open spec fn le32_at(b: Seq<u8>, k: int) -> int {
    b[k] as int + 0x100 * b[k + 1] as int + 0x1_0000 * b[k + 2] as int + 0x100_0000 * b[k + 3] as int
}

/// The rate and samples of a 16-bit PCM mono WAVE file laid out exactly as
/// this library writes it, or `None` for any other byte sequence.
pub open spec fn decoded(b: Seq<u8>) -> Option<(int, Seq<i16>)> {
    if b.len() >= 44 && (b.len() - 44) % 2 == 0 && (b.len() - 44) / 2 <= MAX_WAV_SAMPLES
        && b.subrange(0, 44) == wav_header(
        le32_at(b, 24),
        (b.len() - 44) / 2,
    ) {
        Some((le32_at(b, 24), pcm_samples(b.subrange(44, b.len() as int))))
    } else {
        None
    }
}

fn push_le16(out: &mut Vec<u8>, x: u64)
    ensures
        final(out)@ == old(out)@ + le16(x as int),
{
    out.push((x % 256) as u8);
    out.push((x / 256 % 256) as u8);
    assert(final(out)@ =~= old(out)@ + le16(x as int));
}

fn push_le32(out: &mut Vec<u8>, x: u64)
    ensures
        final(out)@ == old(out)@ + le32(x as int),
{
    out.push((x % 256) as u8);
    out.push((x / 0x100 % 256) as u8);
    out.push((x / 0x1_0000 % 256) as u8);
    out.push((x / 0x100_0000 % 256) as u8);
    assert(final(out)@ =~= old(out)@ + le32(x as int));
}

fn push_tag(out: &mut Vec<u8>, a: char, b: char, c: char, d: char)
    requires
        (a as u32) < 128 && (b as u32) < 128 && (c as u32) < 128 && (d as u32) < 128,
    ensures
        final(out)@ == old(out)@ + tag(a, b, c, d),
{
    out.push(a as u8);
    out.push(b as u8);
    out.push(c as u8);
    out.push(d as u8);
    assert(final(out)@ =~= old(out)@ + tag(a, b, c, d));
}

/// The header bytes for `count` samples at `rate`.
fn wav_header_bytes(rate: u64, count: u64) -> (r: Vec<u8>)
    requires
        rate <= u32::MAX,
        count <= u32::MAX,
    ensures
        r@ == wav_header(rate as int, count as int),
{
    reveal(wav_header);
    let mut h: Vec<u8> = Vec::new();
    push_tag(&mut h, 'R', 'I', 'F', 'F');
    push_le32(&mut h, 36 + 2 * count);
    push_tag(&mut h, 'W', 'A', 'V', 'E');
    push_tag(&mut h, 'f', 'm', 't', ' ');
    push_le32(&mut h, 16);
    push_le16(&mut h, 1);
    push_le16(&mut h, 1);
    push_le32(&mut h, rate);
    push_le32(&mut h, 2 * rate);
    push_le16(&mut h, 2);
    push_le16(&mut h, 16);
    push_tag(&mut h, 'd', 'a', 't', 'a');
    push_le32(&mut h, 2 * count);
    h
}

fn header_matches(bytes: &Vec<u8>, rate: u64, count: u64) -> (r: bool)
    requires
        bytes@.len() >= 44,
        rate <= u32::MAX,
        count <= u32::MAX,
    ensures
        r == (bytes@.subrange(0, 44) == wav_header(rate as int, count as int)),
{
    let header = wav_header_bytes(rate, count);
    proof {
        reveal(wav_header);
    }
    assert(header@.len() == 44);
    let mut i: usize = 0;
    while i < 44
        invariant
            header@ == wav_header(rate as int, count as int),
            header@.len() == 44,
            44 <= bytes@.len(),
            i <= 44,
            forall|k: int| 0 <= k < i ==> bytes@[k] == header@[k],
        decreases 44 - i,
    {
        if bytes[i] != header[i] {
            assert(bytes@.subrange(0, 44)[i as int] != header@[i as int]);
            return false;
        }
        i = i + 1;
    }
    assert(bytes@.subrange(0, 44) =~= header@);
    true
}

/// Reads back a WAVE file laid out as this library writes it.
pub fn decode_pcm16_wav(bytes: &Vec<u8>) -> (r: Option<(u32, Vec<i16>)>)
    ensures
        match decoded(bytes@) {
            None => r is None,
            Some((rate, samples)) => r is Some && r->Some_0.0 as int == rate && r->Some_0.1@
                == samples,
        },
{
    let n = bytes.len();
    if n < 44 || (n - 44) % 2 != 0 {
        return None;
    }
    let rate: u64 = bytes[24] as u64 + 0x100 * (bytes[25] as u64) + 0x1_0000 * (bytes[26] as u64)
        + 0x100_0000 * (bytes[27] as u64);
    if (n - 44) / 2 > MAX_WAV_SAMPLES {
        return None;
    }
    let count: u64 = ((n - 44) / 2) as u64;
    if !header_matches(bytes, rate, count) {
        return None;
    }
    let mut samples: Vec<i16> = Vec::new();
    let mut j: usize = 0;
    let ghost data = bytes@.subrange(44, n as int);
    while j < count as usize
        invariant
            n == bytes@.len(),
            count as int == (n - 44) / 2,
            (n - 44) % 2 == 0,
            n >= 44,
            data == bytes@.subrange(44, n as int),
            j <= count,
            samples@ == pcm_samples(data).subrange(0, j as int),
        decreases count - j,
    {
        let lo = bytes[44 + 2 * j];
        let hi = bytes[45 + 2 * j];
        let v: i16 = #[verifier::truncate] ((lo as u16 + 256 * (hi as u16)) as i16);
        assert(v == sample_from(lo, hi));
        samples.push(v);
        assert(samples@ =~= pcm_samples(data).subrange(0, j + 1));
        j = j + 1;
    }
    assert(samples@ =~= pcm_samples(data));
    Some((rate as u32, samples))
}

proof fn lemma_sample_bytes(x: i16)
    ensures
        sample_from(le16(x as u16 as int)[0], le16(x as u16 as int)[1]) == x,
{
    let u = x as u16 as int;
    assert(0 <= u < 0x1_0000);
    assert((u % 256) + 256 * (u / 256 % 256) == u) by (nonlinear_arith)
        requires
            0 <= u < 0x1_0000,
    ;
    assert((x as u16) as i16 == x) by (bit_vector);
}

proof fn lemma_pcm_bytes_index(s: Seq<i16>, i: int)
    requires
        0 <= i < s.len(),
    ensures
        pcm_bytes(s).len() == 2 * s.len(),
        pcm_bytes(s)[2 * i] == le16(s[i] as u16 as int)[0],
        pcm_bytes(s)[2 * i + 1] == le16(s[i] as u16 as int)[1],
    decreases s.len(),
{
    lemma_pcm_bytes_len(s);
    lemma_pcm_bytes_len(s.drop_last());
    if i < s.len() - 1 {
        lemma_pcm_bytes_index(s.drop_last(), i);
    }
}

proof fn lemma_le32_round_trip(x: int)
    requires
        0 <= x <= 0xffff_ffff,
    ensures
        le32(x)[0] as int + 0x100 * le32(x)[1] as int + 0x1_0000 * le32(x)[2] as int + 0x100_0000
            * le32(x)[3] as int == x,
{
    assert((x % 256) + 0x100 * (x / 0x100 % 256) + 0x1_0000 * (x / 0x1_0000 % 256) + 0x100_0000 * (
    x / 0x100_0000 % 256) == x) by (nonlinear_arith)
        requires
            0 <= x <= 0xffff_ffff,
    ;
}

/// Writing samples into the container and reading them back gives the same
/// rate and the same samples.
pub proof fn lemma_wav_round_trip(rate: int, samples: Seq<i16>)
    requires
        0 <= rate <= u32::MAX,
        samples.len() <= MAX_WAV_SAMPLES,
    ensures
        decoded(wav_pcm16_mono(rate, samples)) == Some((rate, samples)),
{
    let n = samples.len() as int;
    let b = wav_pcm16_mono(rate, samples);
    lemma_wav_len(rate, samples);
    lemma_header_len(rate, n);
    assert(b.subrange(0, 44) =~= wav_header(rate, n));
    assert(b.subrange(44, b.len() as int) =~= pcm_bytes(samples));
    assert((b.len() - 44) / 2 == n);
    reveal(wav_header);
    assert(b[24] == le32(rate)[0]);
    assert(b[25] == le32(rate)[1]);
    assert(b[26] == le32(rate)[2]);
    assert(b[27] == le32(rate)[3]);
    lemma_le32_round_trip(rate);
    assert(le32_at(b, 24) == rate);
    let data = pcm_bytes(samples);
    assert forall|i: int| 0 <= i < n implies #[trigger] pcm_samples(data)[i] == samples[i] by {
        lemma_pcm_bytes_index(samples, i);
        lemma_sample_bytes(samples[i]);
    }
    assert(pcm_samples(data) =~= samples);
}

} // verus!
