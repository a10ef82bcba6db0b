//! WAV files: the RIFF header, the format fields and the PCM samples of the
//! data chunk, as the desktop playback backend reads them.

use vstd::prelude::*;
use vstd::string::*;
use crate::wire::{
    le16, le32, read_u16, read_u32, u16_bytes, u32_bytes, lemma_le16_of_written,
    lemma_le32_of_written,
};
use super::AudioError;

verus! {

/// `RIFF`.
pub open spec fn riff_tag() -> Seq<u8> {
    seq![82u8, 73, 70, 70]
}

/// `WAVE`.
pub open spec fn wave_tag() -> Seq<u8> {
    seq![87u8, 65, 86, 69]
}

/// `data`.
pub open spec fn data_tag() -> Seq<u8> {
    seq![100u8, 97, 116, 97]
}

/// The data chunk, searched chunk by chunk from `off` while a chunk header
/// starts more than 8 bytes before the end: where its bytes start, and its
/// size (0 when there is none).
pub open spec fn find_data_chunk(d: Seq<u8>, off: int) -> (int, nat)
    decreases d.len() - off,
{
    if 0 <= off && off + 8 < d.len() {
        if d.subrange(off, off + 4) == data_tag() {
            (off + 8, le32(d, off + 4) as nat)
        } else {
            let next = off + 8 + le32(d, off + 4);
            if next <= d.len() {
                proof {
                    assert(le32(d, off + 4) >= 0);
                }
                find_data_chunk(d, next)
            } else {
                (next, 0)
            }
        }
    } else {
        (off, 0)
    }
}

/// The 16-bit samples of `size` bytes from `off`, two bytes each, little
/// endian; an odd last byte is the low byte of a last sample.
pub open spec fn pcm16_samples(d: Seq<u8>, off: int, size: int) -> Seq<i16> {
    Seq::new(
        ((size + 1) / 2) as nat,
        |i: int|
            (d[off + 2 * i] + 256 * (if 2 * i + 1 < size {
                d[off + 2 * i + 1]
            } else {
                0u8
            })) as i16,
    )
}

/// Decoded PCM samples.
pub enum WavSamples {
    Pcm16(Vec<i16>),
    /// Unsigned 8-bit samples (128 is silence).
    Pcm8(Vec<u8>),
}

pub enum WavSamplesView {
    Pcm16(Seq<i16>),
    Pcm8(Seq<u8>),
}

impl View for WavSamples {
    type V = WavSamplesView;

    open spec fn view(&self) -> WavSamplesView {
        match self {
            WavSamples::Pcm16(s) => WavSamplesView::Pcm16(s@),
            WavSamples::Pcm8(s) => WavSamplesView::Pcm8(s@),
        }
    }
}

/// A decoded WAV file.
pub struct WavAudio {
    pub channels: u32,
    pub sample_rate: u32,
    pub samples: WavSamples,
    /// Samples / (sample rate × channels), in milliseconds.
    pub duration_ms: u64,
}

pub struct WavView {
    pub channels: u32,
    pub sample_rate: u32,
    pub samples: WavSamplesView,
    pub duration_ms: u64,
}

impl View for WavAudio {
    type V = WavView;

    open spec fn view(&self) -> WavView {
        WavView {
            channels: self.channels,
            sample_rate: self.sample_rate,
            samples: self.samples@,
            duration_ms: self.duration_ms,
        }
    }
}

/// The decimal digits of `n`.
pub open spec fn decimal(n: nat) -> Seq<char>
    decreases n,
{
    if n < 10 {
        seq![(48 + n) as char]
    } else {
        decimal(n / 10).push((48 + n % 10) as char)
    }
}

/// The channel count field.
pub open spec fn wav_channels(d: Seq<u8>) -> u32 {
    le16(d, 22) as u32
}

/// The sample rate field.
pub open spec fn wav_sample_rate(d: Seq<u8>) -> u32 {
    le32(d, 24) as u32
}

/// The bits-per-sample field.
pub open spec fn wav_bits(d: Seq<u8>) -> u16 {
    le16(d, 34) as u16
}

/// A file whose header is well formed and whose data chunk is found and
/// has a supported sample size.
pub open spec fn wav_has_samples(d: Seq<u8>) -> bool {
    &&& d.len() >= 44
    &&& d.subrange(0, 4) == riff_tag()
    &&& d.subrange(8, 12) == wave_tag()
    &&& find_data_chunk(d, 36).1 != 0
    &&& (wav_bits(d) == 16 || wav_bits(d) == 8)
}

/// The files the reader cannot take: a data chunk that runs past the end
/// of the file, or a sample rate or channel count of zero.
pub open spec fn wav_unreadable(d: Seq<u8>) -> bool {
    &&& wav_has_samples(d)
    &&& (find_data_chunk(d, 36).0 + find_data_chunk(d, 36).1 > d.len() || wav_sample_rate(d) as int
        * wav_channels(d) as int == 0)
}

/// What reading a WAV file gives: the refusal's text, or the decoded
/// audio.
pub open spec fn wav_result(d: Seq<u8>) -> Result<WavView, Seq<char>> {
    if d.len() < 44 {
        Err("File too small for WAV"@)
    } else if d.subrange(0, 4) != riff_tag() || d.subrange(8, 12) != wave_tag() {
        Err("Not a valid WAV file"@)
    } else {
        let (off, size) = find_data_chunk(d, 36);
        if size == 0 {
            Err("No data chunk found"@)
        } else {
            let rate = wav_sample_rate(d);
            let channels = wav_channels(d);
            let samples = if wav_bits(d) == 16 {
                Some(WavSamplesView::Pcm16(pcm16_samples(d, off, size as int)))
            } else if wav_bits(d) == 8 {
                Some(WavSamplesView::Pcm8(d.subrange(off, off + size)))
            } else {
                None
            };
            let count: int = if wav_bits(d) == 16 {
                (size as int + 1) / 2
            } else {
                size as int
            };
            match samples {
                None => Err("Unsupported bit depth: "@ + decimal(wav_bits(d) as nat)),
                Some(s) => Ok(
                    WavView {
                        channels,
                        sample_rate: rate,
                        samples: s,
                        duration_ms: (count * 1000 / (rate as int * channels as int)) as u64,
                    },
                ),
            }
        }
    }
}

fn digit_text(d: u16) -> (r: &'static str)
    requires
        d < 10,
    ensures
        r@ == seq![(48 + d) as char],
{
    proof {
        reveal_strlit("0");
        reveal_strlit("1");
        reveal_strlit("2");
        reveal_strlit("3");
        reveal_strlit("4");
        reveal_strlit("5");
        reveal_strlit("6");
        reveal_strlit("7");
        reveal_strlit("8");
        reveal_strlit("9");
    }
    match d {
        0 => "0",
        1 => "1",
        2 => "2",
        3 => "3",
        4 => "4",
        5 => "5",
        6 => "6",
        7 => "7",
        8 => "8",
        _ => "9",
    }
}

fn append_decimal(s: &mut String, n: u16)
    ensures
        final(s)@ == old(s)@ + decimal(n as nat),
    decreases n,
{
    if n >= 10 {
        append_decimal(s, n / 10);
    }
    s.append(digit_text(n % 10));
    assert(final(s)@ =~= old(s)@ + decimal(n as nat));
}

fn per_second(rate: u32, channels: u32) -> (r: u64)
    ensures
        r == rate as int * channels as int,
{
    assert(rate as int * channels as int <= u32::MAX as int * u32::MAX as int) by (nonlinear_arith);
    assert(u32::MAX as int * u32::MAX as int <= u64::MAX);
    (rate as u64) * (channels as u64)
}

fn format_error(text: &str) -> (e: AudioError)
    ensures
        e matches AudioError::FormatError(m) && m@ == text@,
{
    AudioError::FormatError(String::from_str(text))
}

fn has_tag(d: &[u8], off: usize, tag: [u8; 4]) -> (b: bool)
    requires
        off + 4 <= d@.len(),
    ensures
        b == (d@.subrange(off as int, off + 4) == tag@),
{
    let r = d[off] == tag[0] && d[off + 1] == tag[1] && d[off + 2] == tag[2] && d[off + 3] == tag[3];
    assert(r ==> d@.subrange(off as int, off + 4) =~= tag@);
    assert(d@.subrange(off as int, off + 4) == tag@ ==> d@.subrange(off as int, off + 4)[0] == tag@[0]
        && d@.subrange(off as int, off + 4)[1] == tag@[1] && d@.subrange(off as int, off + 4)[2]
        == tag@[2] && d@.subrange(off as int, off + 4)[3] == tag@[3]);
    r
}

/// Searches the data chunk from offset 36 (see [`find_data_chunk`]).
fn data_chunk(d: &[u8]) -> (r: (usize, u32))
    requires
        d@.len() >= 44,
    ensures
        r.1 == find_data_chunk(d@, 36).1,
        r.1 != 0 ==> r.0 == find_data_chunk(d@, 36).0,
        r.1 != 0 ==> r.0 <= d@.len(),
{
    let n = d.len();
    let mut off: usize = 36;
    while n - off > 8
        invariant
            n == d@.len(),
            off <= n,
            find_data_chunk(d@, off as int) == find_data_chunk(d@, 36),
        decreases n - off,
    {
        let size = read_u32(d, off + 4);
        if has_tag(d, off, [100u8, 97, 116, 97]) {
            assert([100u8, 97, 116, 97]@ == data_tag());
            return (off + 8, size);
        }
        assert([100u8, 97, 116, 97]@ == data_tag());
        if size as usize > n - off - 8 {
            // The next chunk would start past the end: the search ends.
            return (0, 0);
        }
        off = off + 8 + size as usize;
    }
    (0, 0)
}

/// Whether [`parse_wav`] can take these bytes: false exactly for the
/// files it cannot read (see [`wav_unreadable`]).
pub fn wav_readable(data: &[u8]) -> (r: bool)
    ensures
        r == !wav_unreadable(data@),
{
    let n = data.len();
    if n < 44 {
        return true;
    }
    if !has_tag(data, 0, [82u8, 73, 70, 70]) || !has_tag(data, 8, [87u8, 65, 86, 69]) {
        assert([82u8, 73, 70, 70]@ == riff_tag());
        assert([87u8, 65, 86, 69]@ == wave_tag());
        return true;
    }
    assert([82u8, 73, 70, 70]@ == riff_tag());
    assert([87u8, 65, 86, 69]@ == wave_tag());
    let (off, size) = data_chunk(data);
    let bits = read_u16(data, 34);
    if size == 0 || !(bits == 16 || bits == 8) {
        return true;
    }
    let channels = read_u16(data, 22) as u32;
    let sample_rate = read_u32(data, 24);
    !(size as usize > n - off || per_second(sample_rate, channels) == 0)
}

/// Reads a WAV file's bytes: the format fields and the samples of its
/// data chunk, or the reason it was refused (see [`wav_result`]).
pub fn parse_wav(data: &[u8]) -> (r: Result<WavAudio, AudioError>)
    requires
        !wav_unreadable(data@),
    ensures
        match wav_result(data@) {
            Err(m) => r matches Err(AudioError::FormatError(e)) && e@ == m,
            Ok(v) => r matches Ok(w) && w@ == v,
        },
{
    let n = data.len();
    if n < 44 {
        return Err(format_error("File too small for WAV"));
    }
    if !has_tag(data, 0, [82u8, 73, 70, 70]) || !has_tag(data, 8, [87u8, 65, 86, 69]) {
        assert([82u8, 73, 70, 70]@ == riff_tag());
        assert([87u8, 65, 86, 69]@ == wave_tag());
        return Err(format_error("Not a valid WAV file"));
    }
    assert([82u8, 73, 70, 70]@ == riff_tag());
    assert([87u8, 65, 86, 69]@ == wave_tag());
    let channels = read_u16(data, 22) as u32;
    let sample_rate = read_u32(data, 24);
    let bits = read_u16(data, 34);
    let (off, size) = data_chunk(data);
    if size == 0 {
        return Err(format_error("No data chunk found"));
    }
    let ghost (goff, gsize) = find_data_chunk(data@, 36);
    let size_n = size as usize;
    if bits == 16 {
        assert(off + size_n <= n);
        let count = size_n / 2 + size_n % 2;
        assert(count == (size_n + 1) / 2);
        let mut samples: Vec<i16> = Vec::new();
        let mut i: usize = 0;
        while i < count
            invariant
                n == data@.len(),
                off == goff,
                size_n == gsize,
                off + size_n <= n,
                count == (size_n + 1) / 2,
                i <= count,
                samples@ == pcm16_samples(data@, off as int, size_n as int).subrange(0, i as int),
            decreases count - i,
        {
            let lo = data[off + 2 * i];
            let hi = if 2 * i + 1 < size_n {
                data[off + 2 * i + 1]
            } else {
                0u8
            };
            let v: u16 = (lo as u16) + (hi as u16) * 256;
            samples.push(#[verifier::truncate] (v as i16));
            assert(samples@ =~= pcm16_samples(data@, off as int, size_n as int).subrange(0, i + 1));
            i = i + 1;
        }
        assert(samples@ =~= pcm16_samples(data@, off as int, size_n as int));
        let per_second = per_second(sample_rate, channels);
        assert(count <= size);
        let duration_ms = (count as u64) * 1000 / per_second;
        Ok(WavAudio { channels, sample_rate, samples: WavSamples::Pcm16(samples), duration_ms })
    } else if bits == 8 {
        assert(off + size_n <= n);
        let samples = vstd::slice::slice_to_vec(&data[off..off + size_n]);
        let per_second = per_second(sample_rate, channels);
        let duration_ms = (size as u64) * 1000 / per_second;
        Ok(WavAudio { channels, sample_rate, samples: WavSamples::Pcm8(samples), duration_ms })
    } else {
        let mut m = String::from_str("Unsupported bit depth: ");
        append_decimal(&mut m, bits);
        Err(AudioError::FormatError(m))
    }
}

/// The number of samples decoded, over all channels.
pub open spec fn sample_count(s: WavSamplesView) -> nat {
    match s {
        WavSamplesView::Pcm16(v) => v.len(),
        WavSamplesView::Pcm8(v) => v.len(),
    }
}

/// The duration of a decoded file is its number of samples × 1000 over
/// the sample rate × the channel count, whatever the sample size; a
/// 16-bit file holds one sample per two bytes of its data chunk (an odd
/// last byte making one more), an 8-bit file one per byte.
pub proof fn lemma_duration_counts_every_channel(d: Seq<u8>)
    requires
        !wav_unreadable(d),
    ensures
        wav_result(d) matches Ok(v) ==> v.duration_ms == (sample_count(v.samples) as int * 1000 / (
        v.sample_rate as int * v.channels as int)) as u64,
        wav_result(d) matches Ok(v) ==> sample_count(v.samples) == if wav_bits(d) == 16 {
            ((find_data_chunk(d, 36).1 + 1) / 2) as nat
        } else {
            find_data_chunk(d, 36).1
        },
{
    if d.len() >= 44 && d.subrange(0, 4) == riff_tag() && d.subrange(8, 12) == wave_tag() {
        let (off, size) = find_data_chunk(d, 36);
        if size != 0 && (wav_bits(d) == 16 || wav_bits(d) == 8) {
            lemma_data_chunk_after(d, 36);
            assert(off + size <= d.len());
            if wav_bits(d) == 16 {
                assert(pcm16_samples(d, off, size as int).len() == (size + 1) / 2);
            } else {
                assert(d.subrange(off, off + size).len() == size);
            }
        }
    }
}

/// A data chunk that is found starts after its 8-byte header, past the
/// offset where the search began.
proof fn lemma_data_chunk_after(d: Seq<u8>, off: int)
    requires
        off >= 0,
    ensures
        find_data_chunk(d, off).1 != 0 ==> find_data_chunk(d, off).0 >= off + 8,
    decreases d.len() - off,
{
    if 0 <= off && off + 8 < d.len() && d.subrange(off, off + 4) != data_tag() {
        let next = off + 8 + le32(d, off + 4);
        if next <= d.len() {
            lemma_data_chunk_after(d, next);
        }
    }
}

/// `fmt `.
pub open spec fn fmt_tag() -> Seq<u8> {
    seq![102u8, 109, 116, 32]
}

/// The bytes of a canonical WAV file: the `RIFF` header, a 16-byte `fmt `
/// chunk (PCM, then channel count, sample rate, byte rate, block size and
/// bits per sample), then the data chunk holding `data`.
pub open spec fn wav_file(
    channels: u16,
    rate: u32,
    byte_rate: u32,
    block_align: u16,
    bits: u16,
    data: Seq<u8>,
) -> Seq<u8> {
    riff_tag() + u32_bytes((36 + data.len()) as u32) + wave_tag() + fmt_tag() + u32_bytes(16)
        + u16_bytes(1) + u16_bytes(channels) + u32_bytes(rate) + u32_bytes(byte_rate) + u16_bytes(
        block_align,
    ) + u16_bytes(bits) + data_tag() + u32_bytes(data.len() as u32) + data
}

/// The header fields of a canonical WAV file read back as written.
proof fn lemma_wav_file_fields(
    channels: u16,
    rate: u32,
    byte_rate: u32,
    block_align: u16,
    bits: u16,
    data: Seq<u8>,
)
    requires
        0 < data.len() <= u32::MAX,
    ensures
        ({
            let d = wav_file(channels, rate, byte_rate, block_align, bits, data);
            &&& d.len() == 44 + data.len()
            &&& d.subrange(0, 4) == riff_tag()
            &&& d.subrange(8, 12) == wave_tag()
            &&& d.subrange(36, 40) == data_tag()
            &&& wav_channels(d) == channels
            &&& wav_sample_rate(d) == rate
            &&& wav_bits(d) == bits
            &&& le32(d, 40) == data.len()
            &&& d.subrange(44, 44 + data.len() as int) == data
        }),
{
    let head = riff_tag() + u32_bytes((36 + data.len()) as u32) + wave_tag() + fmt_tag() + u32_bytes(
        16,
    ) + u16_bytes(1);
    let r1 = u16_bytes(channels);
    let r2 = u32_bytes(rate);
    let r3 = u32_bytes(byte_rate) + u16_bytes(block_align);
    let r4 = u16_bytes(bits);
    let r5 = data_tag();
    let r6 = u32_bytes(data.len() as u32);
    let d = wav_file(channels, rate, byte_rate, block_align, bits, data);
    assert(head.len() == 22);
    assert(d =~= head + r1 + (r2 + r3 + r4 + r5 + r6 + data));
    lemma_le16_of_written(head, channels, r2 + r3 + r4 + r5 + r6 + data);
    assert(d =~= (head + r1) + r2 + (r3 + r4 + r5 + r6 + data));
    lemma_le32_of_written(head + r1, rate, r3 + r4 + r5 + r6 + data);
    assert(d =~= (head + r1 + r2 + r3) + r4 + (r5 + r6 + data));
    lemma_le16_of_written(head + r1 + r2 + r3, bits, r5 + r6 + data);
    assert(d =~= (head + r1 + r2 + r3 + r4 + r5) + r6 + data);
    lemma_le32_of_written(head + r1 + r2 + r3 + r4 + r5, data.len() as u32, data);
    assert(d.subrange(0, 4) =~= riff_tag());
    assert(d.subrange(8, 12) =~= wave_tag());
    assert(d.subrange(36, 40) =~= data_tag());
    assert(d.subrange(44, 44 + data.len() as int) =~= data);
}

/// Reading a canonical 16-bit WAV file gives back its channel count and
/// sample rate, the samples of its data (two bytes each, little endian),
/// and a duration of samples × 1000 / (sample rate × channels).
pub proof fn lemma_wav16_read_back(
    channels: u16,
    rate: u32,
    byte_rate: u32,
    block_align: u16,
    data: Seq<u8>,
)
    requires
        0 < data.len() <= u32::MAX,
    ensures
        wav_result(wav_file(channels, rate, byte_rate, block_align, 16, data)) == Ok::<
            WavView,
            Seq<char>,
        >(
            WavView {
                channels: channels as u32,
                sample_rate: rate,
                samples: WavSamplesView::Pcm16(pcm16_samples(data, 0, data.len() as int)),
                duration_ms: ((data.len() as int + 1) / 2 * 1000 / (rate as int * channels as int)) as u64,
            },
        ),
{
    let d = wav_file(channels, rate, byte_rate, block_align, 16, data);
    lemma_wav_file_fields(channels, rate, byte_rate, block_align, 16, data);
    assert(find_data_chunk(d, 36) == (44int, data.len()));
    assert(pcm16_samples(d, 44, data.len() as int) =~= pcm16_samples(data, 0, data.len() as int)) by {
        assert forall|j: int| 0 <= j < data.len() implies d[44 + j] == data[j] by {
            assert(d.subrange(44, 44 + data.len() as int)[j] == data[j]);
        }
    }
}

/// Reading a canonical 8-bit WAV file gives back its channel count and
/// sample rate, its data bytes as the samples, and a duration of
/// samples × 1000 / (sample rate × channels).
pub proof fn lemma_wav8_read_back(
    channels: u16,
    rate: u32,
    byte_rate: u32,
    block_align: u16,
    data: Seq<u8>,
)
    requires
        0 < data.len() <= u32::MAX,
    ensures
        wav_result(wav_file(channels, rate, byte_rate, block_align, 8, data)) == Ok::<
            WavView,
            Seq<char>,
        >(
            WavView {
                channels: channels as u32,
                sample_rate: rate,
                samples: WavSamplesView::Pcm8(data),
                duration_ms: (data.len() as int * 1000 / (rate as int * channels as int)) as u64,
            },
        ),
{
    let d = wav_file(channels, rate, byte_rate, block_align, 8, data);
    lemma_wav_file_fields(channels, rate, byte_rate, block_align, 8, data);
    assert(find_data_chunk(d, 36) == (44int, data.len()));
}

} // verus!
