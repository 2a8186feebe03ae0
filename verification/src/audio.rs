//! The canonical audio container: mono, 16-bit signed little-endian PCM in a
//! single data chunk behind a 44-byte header. The bytes are written by
//! `hound`; this module states which bytes those are and puts one capture
//! into the container.

use vstd::prelude::*;

verus! {

/// Channels of the canonical container.
pub const CHANNELS: u16 = 1;

/// Bits per sample of the canonical container.
pub const BITS_PER_SAMPLE: u16 = 16;

/// The largest sample rate that the container's header can describe: twice
/// the rate, the bytes per second, has to fit in 32 bits.
pub const MAX_SAMPLE_RATE: u32 = 0x7fff_ffff;

/// The largest number of samples in one container: the file size in the
/// header, 36 bytes more than the samples take, has to fit in 32 bits.
pub const MAX_SAMPLES: usize = 0x7fff_ffed;

/// Length of the container's header in bytes.
pub const HEADER_LEN: usize = 44;

/// A number below 2^16 as two bytes, low byte first.
pub open spec fn le16(x: int) -> Seq<u8> {
    seq![(x % 256) as u8, (x / 256 % 256) as u8]
}

/// A number below 2^32 as four bytes, low byte first.
pub open spec fn le32(x: int) -> Seq<u8> {
    seq![
        (x % 256) as u8,
        (x / 256 % 256) as u8,
        (x / 65536 % 256) as u8,
        (x / 16777216 % 256) as u8,
    ]
}

/// A sample as the unsigned number with the same 16 bits.
pub open spec fn sample_bits(sample: i16) -> int {
    if sample < 0 {
        sample + 65536
    } else {
        sample as int
    }
}

/// The samples as bytes: two per sample, low byte first.
pub open spec fn pcm_bytes(samples: Seq<i16>) -> Seq<u8> {
    Seq::new(2 * samples.len(), |i: int| le16(sample_bits(samples[i / 2]))[i % 2])
}

/// The header of a container that holds `data_len` bytes of samples taken at
/// `sample_rate`: the RIFF tag and the size of what follows it, the WAVE tag,
/// a 16-byte format chunk (integer PCM, one channel, the rate, two bytes per
/// second for each unit of rate, two bytes per frame, 16 bits per sample),
/// and the data chunk's tag and length.
pub open spec fn wav_header(sample_rate: u32, data_len: int) -> Seq<u8> {
    seq![0x52u8, 0x49u8, 0x46u8, 0x46u8] + le32(36 + data_len) + seq![
        0x57u8,
        0x41u8,
        0x56u8,
        0x45u8,
        0x66u8,
        0x6du8,
        0x74u8,
        0x20u8,
    ] + le32(16) + le16(1) + le16(1) + le32(sample_rate as int) + le32(2 * sample_rate) + le16(2)
        + le16(16) + seq![0x64u8, 0x61u8, 0x74u8, 0x61u8] + le32(data_len)
}

/// The canonical container of `samples` taken at `sample_rate`.
pub open spec fn wav_container(sample_rate: u32, samples: Seq<i16>) -> Seq<u8> {
    wav_header(sample_rate, 2 * (samples.len() as int)) + pcm_bytes(samples)
}

/// The sample rate that a container's header states.
pub open spec fn stated_rate(container: Seq<u8>) -> int {
    container[24] + 256 * container[25] + 65536 * container[26] + 16777216 * container[27]
}

/// The sample at place `i` of a container's data chunk.
pub open spec fn stated_sample(container: Seq<u8>, i: int) -> int {
    let bits = container[44 + 2 * i] + 256 * container[44 + 2 * i + 1];
    if bits >= 32768 {
        bits - 65536
    } else {
        bits
    }
}

/// Four bytes, low byte first, read back as a number.
proof fn lemma_le32_reads_back(x: int)
    requires
        0 <= x < 0x1_0000_0000,
    ensures
        le32(x).len() == 4,
        le32(x)[0] + 256 * le32(x)[1] + 65536 * le32(x)[2] + 16777216 * le32(x)[3] == x,
{
}

/// Two bytes, low byte first, read back as a sample.
proof fn lemma_le16_reads_back(sample: i16)
    ensures
        le16(sample_bits(sample)).len() == 2,
        ({
            let bits = le16(sample_bits(sample))[0] + 256 * le16(sample_bits(sample))[1];
            (if bits >= 32768 {
                bits - 65536
            } else {
                bits
            }) == sample
        }),
{
}

/// The header is 44 bytes long and states the rate at bytes 24 to 27.
proof fn lemma_header_layout(sample_rate: u32, data_len: int)
    ensures
        wav_header(sample_rate, data_len).len() == 44,
        wav_header(sample_rate, data_len).subrange(24, 28) == le32(sample_rate as int),
{
    let h = wav_header(sample_rate, data_len);
    assert(h.len() == 44);
    assert(h.subrange(24, 28) =~= le32(sample_rate as int));
}

/// Reading a container back gives what was put in: the header states the
/// rate, the data chunk's length is that of the samples, and each sample
/// stands at its place unchanged.
pub proof fn lemma_container_round_trip(sample_rate: u32, samples: Seq<i16>)
    ensures
        wav_container(sample_rate, samples).len() == 44 + 2 * samples.len(),
        stated_rate(wav_container(sample_rate, samples)) == sample_rate,
        forall|i: int|
            0 <= i < samples.len() ==> #[trigger] stated_sample(
                wav_container(sample_rate, samples),
                i,
            ) == samples[i],
{
    let c = wav_container(sample_rate, samples);
    let h = wav_header(sample_rate, 2 * (samples.len() as int));
    let d = pcm_bytes(samples);
    lemma_header_layout(sample_rate, 2 * (samples.len() as int));
    lemma_le32_reads_back(sample_rate as int);
    assert(c.len() == 44 + 2 * samples.len());
    let stated = h.subrange(24, 28);
    assert(c[24] == stated[0] && c[25] == stated[1] && c[26] == stated[2] && c[27] == stated[3]);
    assert forall|i: int| 0 <= i < samples.len() implies #[trigger] stated_sample(c, i)
        == samples[i] by {
        lemma_le16_reads_back(samples[i]);
        assert(c[44 + 2 * i] == d[2 * i]);
        assert(c[44 + 2 * i + 1] == d[2 * i + 1]);
        assert((2 * i) / 2 == i && (2 * i) % 2 == 0);
        assert((2 * i + 1) / 2 == i && (2 * i + 1) % 2 == 1);
    }
}

/// A `hound::WavWriter` that writes into a byte vector which it has borrowed.
/// The writer's type cannot be declared to the verifier because of the bounds
/// it puts on its sink, so it is held here, out of the verifier's sight.
#[verifier::external_body]
pub struct PcmWriter<'a> {
    inner: hound::WavWriter<std::io::Cursor<&'a mut Vec<u8>>>,
}

/// The error type of `hound`.
#[verifier::external_type_specification]
#[verifier::external_body]
pub struct ExHoundError(hound::Error);

/// The samples that were handed to the writer so far, oldest first.
pub uninterp spec fn wav_samples(w: PcmWriter) -> Seq<i16>;

/// The sample rate that the writer was opened with.
pub uninterp spec fn wav_rate(w: PcmWriter) -> u32;

/// The bytes that the borrowed vector holds once the writer has let go of it.
pub uninterp spec fn wav_sink(w: PcmWriter) -> Seq<u8>;

/// Trusted: `hound::WavWriter::new` over a `std::io::Cursor` on the borrowed
/// vector, with a `hound::WavSpec` of integer samples made of the three
/// numbers given. The contract claims, for an empty vector and the
/// container's one channel and 16 bits, that a writer comes back, that it
/// has taken no sample yet, keeps the rate, and that what the vector holds in
/// the end is what the writer leaves in its sink. `hound` refuses only a bit
/// depth it does not know and otherwise fails only where writing the header
/// to its sink fails, and the sink is a vector in memory that grows as it is
/// written to. The rate is kept within the bounds outside of which the
/// header arithmetic of `hound` divides by zero or overflows.
#[verifier::external_body]
fn wav_open<'a>(out: &'a mut Vec<u8>, channels: u16, sample_rate: u32, bits: u16) -> (opened:
    Result<PcmWriter<'a>, hound::Error>)
    requires
        old(out)@.len() == 0,
        channels == 1,
        bits == 16,
        0 < sample_rate <= MAX_SAMPLE_RATE,
    ensures
        opened is Ok,
        opened matches Ok(w) ==> wav_samples(w) == Seq::<i16>::empty() && wav_rate(w)
            == sample_rate && wav_sink(w) == final(out)@,
{
    let spec = hound::WavSpec {
        channels,
        sample_rate,
        bits_per_sample: bits,
        sample_format: hound::SampleFormat::Int,
    };
    Ok(PcmWriter { inner: hound::WavWriter::new(std::io::Cursor::new(out), spec)? })
}

/// Trusted: `hound::WavWriter::write_sample` with an `i16`. The contract
/// claims that the write succeeds, that the rate and the sink stay the
/// writer's, and that the sample is the newest of those taken. For 16 bits
/// in two bytes `hound` fails only where its sink does, and the sink is a
/// vector in memory. The number of samples is kept below the bound beyond
/// which the writer's 32-bit byte count overflows.
#[verifier::external_body]
fn wav_write(w: &mut PcmWriter, sample: i16) -> (written: Result<(), hound::Error>)
    requires
        wav_samples(*old(w)).len() < MAX_SAMPLES,
    ensures
        wav_rate(*final(w)) == wav_rate(*old(w)),
        wav_sink(*final(w)) == wav_sink(*old(w)),
        written is Ok,
        wav_samples(*final(w)) == wav_samples(*old(w)).push(sample),
{
    w.inner.write_sample(sample)
}

/// Trusted: `hound::WavWriter::finalize`, which fills in the two lengths of
/// the header. The contract claims that it succeeds and that the sink then
/// holds the canonical container of the samples taken, at the writer's rate.
/// `hound` fails here only where seeking, writing or flushing its sink
/// fails, or where a frame is unfinished, which cannot be with one channel;
/// the sink is a vector in memory and the two seeks go to places inside the
/// header.
#[verifier::external_body]
fn wav_finalize(w: PcmWriter) -> (finalized: Result<(), hound::Error>)
    requires
        wav_samples(w).len() <= MAX_SAMPLES,
    ensures
        finalized is Ok,
        finalized is Ok ==> wav_sink(w) == wav_container(wav_rate(w), wav_samples(w)),
{
    w.inner.finalize()
}

/// Why a capture could not be put into the container.
#[derive(Clone, Copy, Debug, PartialEq, Eq, Structural)]
pub enum EncodeError {
    /// The sample rate is zero or above `MAX_SAMPLE_RATE`.
    UnsupportedRate,
    /// There are more than `MAX_SAMPLES` samples.
    TooLong,
    /// The container's writer reported a failure. A writer into memory,
    /// given a rate and a length that it can describe, reports none.
    Container,
}

/// Why a recording yielded nothing to transcribe.
#[derive(Clone, Copy, Debug, PartialEq, Eq, Structural)]
pub enum CaptureError {
    /// There is no input device.
    NoDevice,
    /// The input device could not be opened or started.
    StreamInitError,
    /// Nothing was captured between start and stop.
    EmptyCapture,
}

/// Why stopping a recording did not yield encoded audio.
#[derive(Clone, Copy, Debug, PartialEq, Eq, Structural)]
pub enum RecordingError {
    Capture(CaptureError),
    Encode(EncodeError),
}

/// One capture in the canonical container. Only `encode` makes one.
pub struct EncodedAudio {
    bytes: Vec<u8>,
    sample_rate: u32,
    samples: Ghost<Seq<i16>>,
}

impl EncodedAudio {
    #[verifier::type_invariant]
    spec fn is_canonical(self) -> bool {
        self.bytes@ == wav_container(self.sample_rate, self.samples@)
    }

    /// The bytes of the container.
    pub closed spec fn bytes_of(self) -> Seq<u8> {
        self.bytes@
    }

    /// The rate at which the samples were taken.
    pub closed spec fn rate_of(self) -> u32 {
        self.sample_rate
    }

    /// The samples that the container holds.
    pub closed spec fn samples_of(self) -> Seq<i16> {
        self.samples@
    }

    /// The bytes of the container: always the canonical container of the
    /// capture's samples at its rate.
    pub fn bytes(&self) -> (bytes: &Vec<u8>)
        ensures
            bytes@ == self.bytes_of(),
            bytes@ == wav_container(self.rate_of(), self.samples_of()),
    {
        proof {
            use_type_invariant(self);
        }
        &self.bytes
    }

    /// The rate at which the samples were taken.
    pub fn sample_rate(&self) -> (rate: u32)
        ensures
            rate == self.rate_of(),
    {
        self.sample_rate
    }

    /// Gives the bytes of the container away.
    pub fn into_bytes(self) -> (bytes: Vec<u8>)
        ensures
            bytes@ == self.bytes_of(),
            bytes@ == wav_container(self.rate_of(), self.samples_of()),
    {
        proof {
            use_type_invariant(&self);
        }
        self.bytes
    }

    /// A copy of the encoded capture.
    pub fn duplicate(&self) -> (copy: EncodedAudio)
        ensures
            copy.bytes_of() == self.bytes_of(),
            copy.rate_of() == self.rate_of(),
            copy.samples_of() == self.samples_of(),
    {
        proof {
            use_type_invariant(self);
        }
        let mut bytes: Vec<u8> = Vec::new();
        let mut i: usize = 0;
        while i < self.bytes.len()
            invariant
                i <= self.bytes.len(),
                bytes@ == self.bytes@.take(i as int),
            decreases self.bytes.len() - i,
        {
            bytes.push(self.bytes[i]);
            assert(self.bytes@.take(i + 1) =~= self.bytes@.take(i as int).push(self.bytes@[i as int]));
            i += 1;
        }
        assert(self.bytes@.take(i as int) =~= self.bytes@);
        EncodedAudio { bytes, sample_rate: self.sample_rate, samples: self.samples }
    }
}

/// What `encode` refuses before it writes anything.
pub open spec fn encode_refusal(samples_len: int, sample_rate: u32) -> Option<EncodeError> {
    if sample_rate == 0 || sample_rate > MAX_SAMPLE_RATE {
        Some(EncodeError::UnsupportedRate)
    } else if samples_len > MAX_SAMPLES {
        Some(EncodeError::TooLong)
    } else {
        None
    }
}

/// Puts mono samples taken at `sample_rate` into the canonical container.
///
/// A rate or a length that the container cannot describe is refused with its
/// own error. Every other capture is encoded: the result is the canonical
/// container of exactly these samples at this rate, so that equal captures
/// give equal bytes.
pub fn encode(samples: &Vec<i16>, sample_rate: u32) -> (out: Result<EncodedAudio, EncodeError>)
    ensures
        match encode_refusal(samples@.len() as int, sample_rate) {
            Some(refusal) => out is Err && out->Err_0 == refusal,
            None => out is Ok && out->Ok_0.bytes_of() == wav_container(sample_rate, samples@)
                && out->Ok_0.rate_of() == sample_rate && out->Ok_0.samples_of() == samples@,
        },
{
    if sample_rate == 0 || sample_rate > MAX_SAMPLE_RATE {
        return Err(EncodeError::UnsupportedRate);
    }
    if samples.len() > MAX_SAMPLES {
        return Err(EncodeError::TooLong);
    }
    let mut bytes: Vec<u8> = Vec::new();
    let mut writer = match wav_open(&mut bytes, CHANNELS, sample_rate, BITS_PER_SAMPLE) {
        Ok(w) => w,
        Err(_) => {
            return Err(EncodeError::Container);
        },
    };
    let ghost sink = wav_sink(writer);
    let mut i: usize = 0;
    while i < samples.len()
        invariant
            i <= samples.len(),
            samples.len() <= MAX_SAMPLES,
            0 < sample_rate <= MAX_SAMPLE_RATE,
            wav_samples(writer) == samples@.take(i as int),
            wav_rate(writer) == sample_rate,
            wav_sink(writer) == sink,
        decreases samples.len() - i,
    {
        match wav_write(&mut writer, samples[i]) {
            Ok(()) => {},
            Err(_) => {
                return Err(EncodeError::Container);
            },
        }
        assert(samples@.take(i as int).push(samples@[i as int]) =~= samples@.take(i + 1));
        i += 1;
    }
    assert(samples@.take(i as int) =~= samples@);
    match wav_finalize(writer) {
        Ok(()) => Ok(EncodedAudio { bytes, sample_rate, samples: Ghost(samples@) }),
        Err(_) => Err(EncodeError::Container),
    }
}

/// What stopping a recording yields, as plain values: the error where
/// there is one, else the container's bytes, the rate and the samples.
pub open spec fn capture_outcome(samples: Seq<i16>, sample_rate: u32) -> Result<
    (Seq<u8>, u32, Seq<i16>),
    RecordingError,
> {
    if samples.len() == 0 {
        Err(RecordingError::Capture(CaptureError::EmptyCapture))
    } else {
        match encode_refusal(samples.len() as int, sample_rate) {
            Some(refusal) => Err(RecordingError::Encode(refusal)),
            None => Ok((wav_container(sample_rate, samples), sample_rate, samples)),
        }
    }
}

/// What stopping a recording yields: nothing captured is `EmptyCapture`; a
/// rate or a length that the container cannot describe is the encoder's
/// refusal; every other capture comes back in the canonical container, one
/// channel of 16-bit samples at the given rate.
pub fn finish_capture(samples: &Vec<i16>, sample_rate: u32) -> (out: Result<
    EncodedAudio,
    RecordingError,
>)
    ensures
        match capture_outcome(samples@, sample_rate) {
            Err(e) => out is Err && out->Err_0 == e,
            Ok((bytes, rate, taken)) => out is Ok && out->Ok_0.bytes_of() == bytes
                && out->Ok_0.rate_of() == rate && out->Ok_0.samples_of() == taken,
        },
{
    if samples.len() == 0 {
        return Err(RecordingError::Capture(CaptureError::EmptyCapture));
    }
    match encode(samples, sample_rate) {
        Ok(audio) => Ok(audio),
        Err(e) => Err(RecordingError::Encode(e)),
    }
}

} // verus!
