use vstd::prelude::*;

use crate::pcm::{le16, le32, pcm16_bytes, pcm16_to_word};

verus! {

/// Stream parameters of an uncompressed PCM stream.
#[derive(Clone, Copy)]
pub struct WavMetadata {
    sample_rate: u32,
    number_of_channels: u16,
    number_of_samples: u32,
}

/// A 16-bit PCM stream: its parameters and one sample sequence per channel.
#[derive(Clone)]
pub struct Wav {
    metadata: WavMetadata,
    channel_data: Vec<Vec<i16>>,
}

/// The fixed-size header that precedes the PCM data.
#[derive(Clone, Copy)]
pub struct WavHeader {
    metadata: WavMetadata,
}

/// Bits in one PCM sample; the only depth this encoder writes.
pub const BITS_PER_SAMPLE: u16 = 16;

/// Bytes in one PCM sample of one channel.
pub const BYTES_PER_SAMPLE: u16 = BITS_PER_SAMPLE / 8;

/// Bytes of the header before the data section.
pub const HEADER_LEN: usize = 44;

/// Whether a stream with these parameters can be described by the header:
/// the block alignment fits its 16-bit field, and the byte rate and the
/// chunk size fit their 32-bit fields.
pub open spec fn encodable(sample_rate: int, channels: int, samples: int) -> bool {
    &&& block_align_of(channels) <= u16::MAX
    &&& block_align_of(channels) * sample_rate <= u32::MAX
    &&& 36 + data_size_of(channels, samples) <= u32::MAX
}

impl WavMetadata {
    /// Frames per second.
    pub closed spec fn spec_sample_rate(&self) -> u32 {
        self.sample_rate
    }

    /// Samples in one frame.
    pub closed spec fn spec_channels(&self) -> u16 {
        self.number_of_channels
    }

    /// Frames in the stream.
    pub closed spec fn spec_samples(&self) -> u32 {
        self.number_of_samples
    }

    /// The header fields of a stream with these parameters fit their widths.
    pub open spec fn wf(&self) -> bool {
        encodable(
            self.spec_sample_rate() as int,
            self.spec_channels() as int,
            self.spec_samples() as int,
        )
    }

    /// Parameters of a stream of `number_of_samples` frames of
    /// `number_of_channels` samples each, at `sample_rate` frames per second.
    pub fn new(sample_rate: u32, number_of_channels: u16, number_of_samples: u32) -> (r: Self)
        ensures
            r.spec_sample_rate() == sample_rate,
            r.spec_channels() == number_of_channels,
            r.spec_samples() == number_of_samples,
    {
        WavMetadata { sample_rate, number_of_channels, number_of_samples }
    }

    /// Stereo at 44100 Hz, with no samples.
    pub fn default_blank() -> (r: Self)
        ensures
            r.spec_sample_rate() == 44100,
            r.spec_channels() == 2,
            r.spec_samples() == 0,
    {
        WavMetadata { sample_rate: 44100, number_of_channels: 2, number_of_samples: 0 }
    }

    /// Whether a header can describe a stream with these parameters.
    pub fn is_encodable(&self) -> (r: bool)
        ensures
            r == self.wf(),
    {
        let block_align: u64 = 2 * self.number_of_channels as u64;
        let sample_rate: u64 = self.sample_rate as u64;
        let samples: u64 = self.number_of_samples as u64;
        let limit: u64 = u32::MAX as u64;
        assert(block_align * sample_rate <= 0x2_0000 * 0x1_0000_0000) by (nonlinear_arith)
            requires
                block_align <= 0x2_0000,
                sample_rate <= 0x1_0000_0000,
        ;
        assert(block_align * samples <= 0x2_0000 * 0x1_0000_0000) by (nonlinear_arith)
            requires
                block_align <= 0x2_0000,
                samples <= 0x1_0000_0000,
        ;
        block_align <= u16::MAX as u64 && block_align * sample_rate <= limit && 36 + block_align
            * samples <= limit
    }

    pub fn sample_rate(&self) -> (r: u32)
        ensures
            r == self.spec_sample_rate(),
    {
        self.sample_rate
    }

    pub fn number_of_channels(&self) -> (r: u16)
        ensures
            r == self.spec_channels(),
    {
        self.number_of_channels
    }

    pub fn number_of_samples(&self) -> (r: u32)
        ensures
            r == self.spec_samples(),
    {
        self.number_of_samples
    }
}

/// ASCII `RIFF`.
pub open spec fn riff_tag() -> Seq<u8> {
    seq![0x52u8, 0x49, 0x46, 0x46]
}

/// ASCII `WAVE`.
pub open spec fn wave_tag() -> Seq<u8> {
    seq![0x57u8, 0x41, 0x56, 0x45]
}

/// ASCII `fmt ` (with a trailing space).
pub open spec fn fmt_tag() -> Seq<u8> {
    seq![0x66u8, 0x6d, 0x74, 0x20]
}

/// ASCII `data`.
pub open spec fn data_tag() -> Seq<u8> {
    seq![0x64u8, 0x61, 0x74, 0x61]
}

/// `n`, or `n + 1` when `n` is odd.
pub open spec fn round_up_even(n: int) -> int {
    if n % 2 == 0 {
        n
    } else {
        n + 1
    }
}

/// Bytes of one sample frame: one sample for each channel.
pub open spec fn block_align_of(channels: int) -> int {
    BYTES_PER_SAMPLE * channels
}

/// Bytes of the data section of `samples` frames.
pub open spec fn data_size_of(channels: int, samples: int) -> int {
    block_align_of(channels) * samples
}

/// The canonical 44-byte header of a 16-bit PCM stream.
pub open spec fn header_bytes(sample_rate: int, channels: int, samples: int) -> Seq<u8> {
    let data_size = data_size_of(channels, samples);
    riff_tag() + le32(36 + data_size) + wave_tag() + fmt_tag() + le32(16) + le16(1) + le16(
        channels,
    ) + le32(sample_rate) + le32(round_up_even(block_align_of(channels) * sample_rate)) + le16(
        block_align_of(channels),
    ) + le16(BITS_PER_SAMPLE as int) + data_tag() + le32(data_size)
}

/// Appends `bytes` to `buf`.
fn extend_bytes(buf: &mut Vec<u8>, bytes: &[u8])
    ensures
        final(buf)@ == old(buf)@ + bytes@,
{
    let ghost start = buf@;
    let mut i: usize = 0;
    while i < bytes.len()
        invariant
            i <= bytes@.len(),
            buf@ == start + bytes@.subrange(0, i as int),
        decreases bytes@.len() - i,
    {
        buf.push(bytes[i]);
        assert(bytes@.subrange(0, i + 1) =~= bytes@.subrange(0, i as int).push(bytes@[i as int]));
        i = i + 1;
    }
    assert(bytes@.subrange(0, bytes@.len() as int) =~= bytes@);
}

impl WavHeader {
    /// The header of a stream with the given parameters.
    pub fn new(metadata: WavMetadata) -> (r: Self)
        ensures
            r.spec_metadata() == metadata,
    {
        WavHeader { metadata }
    }

    pub closed spec fn spec_metadata(&self) -> WavMetadata {
        self.metadata
    }

    /// What `to_bytes` produces for this header.
    pub open spec fn spec_bytes(&self) -> Seq<u8> {
        header_bytes(
            self.spec_metadata().spec_sample_rate() as int,
            self.spec_metadata().spec_channels() as int,
            self.spec_metadata().spec_samples() as int,
        )
    }

    /// The 44 header bytes, multi-byte fields little-endian.
    pub fn to_bytes(&self) -> (r: Vec<u8>)
        requires
            self.spec_metadata().wf(),
        ensures
            r@ == self.spec_bytes(),
            r@.len() == HEADER_LEN,
    {
        let channels = self.metadata.number_of_channels;
        let sample_rate = self.metadata.sample_rate;
        let samples = self.metadata.number_of_samples;
        let block_align: u16 = BYTES_PER_SAMPLE * channels;
        let data_size: u32 = block_align as u32 * samples;
        let bytes_per_second: u32 = block_align as u32 * sample_rate;
        let bytes_per_second_even: u32 = if bytes_per_second % 2 == 0 {
            bytes_per_second
        } else {
            assert(bytes_per_second == 2 * (channels * sample_rate)) by (nonlinear_arith)
                requires
                    bytes_per_second == (2 * channels) * sample_rate,
            ;
            bytes_per_second + 1
        };
        let file_size: u32 = 36 + data_size;

        let mut buffer: Vec<u8> = Vec::new();
        extend_bytes(&mut buffer, &[0x52u8, 0x49, 0x46, 0x46]);
        extend_bytes(&mut buffer, &Self::u32_bytes(file_size));
        extend_bytes(&mut buffer, &[0x57u8, 0x41, 0x56, 0x45]);
        extend_bytes(&mut buffer, &[0x66u8, 0x6d, 0x74, 0x20]);
        extend_bytes(&mut buffer, &Self::u32_bytes(16));
        extend_bytes(&mut buffer, &Self::u16_bytes(1));
        extend_bytes(&mut buffer, &Self::u16_bytes(channels));
        extend_bytes(&mut buffer, &Self::u32_bytes(sample_rate));
        extend_bytes(&mut buffer, &Self::u32_bytes(bytes_per_second_even));
        extend_bytes(&mut buffer, &Self::u16_bytes(block_align));
        extend_bytes(&mut buffer, &Self::u16_bytes(BITS_PER_SAMPLE));
        extend_bytes(&mut buffer, &[0x64u8, 0x61, 0x74, 0x61]);
        extend_bytes(&mut buffer, &Self::u32_bytes(data_size));
        assert(buffer@ =~= self.spec_bytes());
        buffer
    }
    /// Little-endian bytes of a 32-bit field.
    pub fn u32_bytes(n: u32) -> (r: [u8; 4])
        ensures
            r@ == le32(n as int),
    {
        let r = [
            (n % 256) as u8,
            ((n / 0x100) % 256) as u8,
            ((n / 0x1_0000) % 256) as u8,
            ((n / 0x100_0000) % 256) as u8,
        ];
        assert(r@ =~= le32(n as int));
        r
    }

    /// Little-endian bytes of a 16-bit field.
    pub fn u16_bytes(n: u16) -> (r: [u8; 2])
        ensures
            r@ == le16(n as int),
    {
        let r = [(n % 256) as u8, ((n / 256) % 256) as u8];
        assert(r@ =~= le16(n as int));
        r
    }
}

} // verus!

verus! {

/// The sample of `channel` at frame `i`, or silence past its end.
pub open spec fn sample_or_silence(channel: Seq<i16>, i: int) -> i16 {
    if 0 <= i < channel.len() {
        channel[i]
    } else {
        0
    }
}

/// Bytes of frame `i` over the first `c` channels, in channel order.
pub open spec fn frame_prefix(channels: Seq<Seq<i16>>, i: int, c: nat) -> Seq<u8>
    decreases c,
{
    if c == 0 {
        Seq::empty()
    } else {
        frame_prefix(channels, i, (c - 1) as nat) + pcm16_bytes(
            sample_or_silence(channels[c - 1], i),
        )
    }
}

/// Bytes of frame `i`: one sample of every channel, in channel order.
pub open spec fn frame_bytes(channels: Seq<Seq<i16>>, i: int) -> Seq<u8> {
    frame_prefix(channels, i, channels.len())
}

/// The first `n` frames, interleaved.
pub open spec fn frames_bytes(channels: Seq<Seq<i16>>, n: nat) -> Seq<u8>
    decreases n,
{
    if n == 0 {
        Seq::empty()
    } else {
        frames_bytes(channels, (n - 1) as nat) + frame_bytes(channels, n - 1)
    }
}

/// The data section: `n` interleaved frames, with one zero byte of padding
/// when their length is odd.
pub open spec fn data_bytes(channels: Seq<Seq<i16>>, n: nat) -> Seq<u8> {
    let d = frames_bytes(channels, n);
    if d.len() % 2 == 1 {
        d.push(0)
    } else {
        d
    }
}

/// The contents of each channel.
pub open spec fn channels_view(v: Seq<Vec<i16>>) -> Seq<Seq<i16>> {
    v.map_values(|c: Vec<i16>| c@)
}

proof fn lemma_frame_prefix_len(channels: Seq<Seq<i16>>, i: int, c: nat)
    ensures
        frame_prefix(channels, i, c).len() == 2 * c,
    decreases c,
{
    if c > 0 {
        lemma_frame_prefix_len(channels, i, (c - 1) as nat);
    }
}

proof fn lemma_frames_len(channels: Seq<Seq<i16>>, n: nat)
    ensures
        frames_bytes(channels, n).len() == 2 * channels.len() * n,
    decreases n,
{
    if n > 0 {
        lemma_frames_len(channels, (n - 1) as nat);
        lemma_frame_prefix_len(channels, n - 1, channels.len());
        let k = channels.len() as int;
        assert(2 * k * (n - 1) + 2 * k == 2 * k * n) by (nonlinear_arith);
    } else {
        assert(2 * channels.len() * n == 0) by (nonlinear_arith)
            requires
                n == 0,
        ;
    }
}

impl Wav {
    pub closed spec fn spec_metadata(&self) -> WavMetadata {
        self.metadata
    }

    pub closed spec fn spec_channel_data(&self) -> Seq<Seq<i16>> {
        channels_view(self.channel_data@)
    }

    /// The parameters can be written in a header and name as many channels
    /// as the stream holds.
    pub open spec fn wf(&self) -> bool {
        &&& self.spec_metadata().wf()
        &&& self.spec_channel_data().len() == self.spec_metadata().spec_channels()
    }

    /// What the header of this stream holds.
    pub open spec fn spec_header(&self) -> Seq<u8> {
        header_bytes(
            self.spec_metadata().spec_sample_rate() as int,
            self.spec_metadata().spec_channels() as int,
            self.spec_metadata().spec_samples() as int,
        )
    }

    /// What `data_to_bytes` produces.
    pub open spec fn spec_data(&self) -> Seq<u8> {
        data_bytes(self.spec_channel_data(), self.spec_metadata().spec_samples() as nat)
    }

    /// A stream of the given channels; `channel_data` holds one sequence per
    /// channel that `metadata` declares.
    pub fn new(metadata: WavMetadata, channel_data: Vec<Vec<i16>>) -> (r: Self)
        ensures
            r.spec_metadata() == metadata,
            r.spec_channel_data() == channels_view(channel_data@),
    {
        Wav { metadata, channel_data }
    }

    /// The data section: for each frame, each channel's sample as two
    /// little-endian bytes (silence where a channel has run out), padded to
    /// an even length.
    pub fn data_to_bytes(&self) -> (r: Vec<u8>)
        requires
            self.wf(),
        ensures
            r@ == self.spec_data(),
            r@.len() == data_size_of(
                self.spec_metadata().spec_channels() as int,
                self.spec_metadata().spec_samples() as int,
            ),
            r@.len() % 2 == 0,
    {
        let ghost chans = self.spec_channel_data();
        let n = self.metadata.number_of_samples;
        let k = self.channel_data.len();
        let mut buffer: Vec<u8> = Vec::new();
        let mut sample: u32 = 0;
        while sample < n
            invariant
                sample <= n,
                n == self.metadata.number_of_samples,
                k == self.channel_data@.len(),
                chans == self.spec_channel_data(),
                buffer@ == frames_bytes(chans, sample as nat),
            decreases n - sample,
        {
            let mut c: usize = 0;
            while c < k
                invariant
                    sample < n,
                    c <= k,
                    k == self.channel_data@.len(),
                    chans == self.spec_channel_data(),
                    buffer@ == frames_bytes(chans, sample as nat) + frame_prefix(
                        chans,
                        sample as int,
                        c as nat,
                    ),
                decreases k - c,
            {
                let channel = &self.channel_data[c];
                assert(chans[c as int] == channel@);
                let v: i16 = if (sample as usize) < channel.len() {
                    channel[sample as usize]
                } else {
                    0
                };
                let w = pcm16_to_word(v);
                let ghost before = buffer@;
                buffer.push((w % 256) as u8);
                buffer.push((w / 256) as u8);
                assert(buffer@ =~= before + pcm16_bytes(v));
                c = c + 1;
            }
            assert(buffer@ =~= frames_bytes(chans, (sample + 1) as nat));
            sample = sample + 1;
        }
        proof {
            lemma_frames_len(chans, n as nat);
            assert(2 * k * n == data_size_of(self.metadata.number_of_channels as int, n as int))
                by (nonlinear_arith)
                requires
                    k == self.metadata.number_of_channels,
            ;
            assert(2 * k * n == 2 * (k * n)) by (nonlinear_arith);
        }
        if buffer.len() % 2 == 1 {
            buffer.push(0u8);
        }
        buffer
    }

    /// The whole stream: the header, then the data section. No I/O is done.
    pub fn to_bytes(&self) -> (r: Vec<u8>)
        requires
            self.wf(),
        ensures
            r@ == self.spec_header() + self.spec_data(),
            r@.len() == HEADER_LEN + data_size_of(
                self.spec_metadata().spec_channels() as int,
                self.spec_metadata().spec_samples() as int,
            ),
    {
        let mut buffer = WavHeader::new(self.metadata).to_bytes();
        let mut data_bytes = self.data_to_bytes();
        buffer.append(&mut data_bytes);
        buffer
    }
}

/// The header is 44 bytes long whatever the stream's parameters.
pub proof fn lemma_header_len(sample_rate: int, channels: int, samples: int)
    ensures
        header_bytes(sample_rate, channels, samples).len() == HEADER_LEN,
{
}

/// The size field that closes the header (its last four bytes) holds the
/// length of the data section that follows it.
pub proof fn lemma_data_size_field(w: Wav)
    requires
        w.wf(),
    ensures
        w.spec_header().subrange(40, 44) == le32(w.spec_data().len() as int),
{
    let chans = w.spec_channel_data();
    let n = w.metadata.number_of_samples as nat;
    let k = w.metadata.number_of_channels as int;
    lemma_frames_len(chans, n);
    assert(2 * k * n == 2 * (k * n)) by (nonlinear_arith);
    assert(w.spec_data().len() == data_size_of(k, n as int)) by (nonlinear_arith)
        requires
            w.spec_data().len() == 2 * chans.len() * n,
            chans.len() == k,
    {
    }
    assert(w.spec_header().subrange(40, 44) =~= le32(data_size_of(k, n as int)));
}

} // verus!