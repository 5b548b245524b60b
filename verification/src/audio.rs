//! Audio capture bookkeeping: the level meter, the mixing of device frames
//! into mono samples, the recorder's lifecycle, and the encoding of a
//! finished recording.

use vstd::prelude::*;

verus! {

// ---------------------------------------------------------------------------
// The level meter
// ---------------------------------------------------------------------------
/// The bit pattern of the silence floor, −60 dB, as a 32-bit float.
pub const SILENT_DB_BITS: u32 = 0xC270_0000;

/// The bit pattern of 0 dB, full scale, as a 32-bit float.
pub const FULL_SCALE_DB_BITS: u32 = 0;

/// The bit pattern of negative zero as a 32-bit float.
pub const NEGATIVE_ZERO_BITS: u32 = 0x8000_0000;

/// The bit pattern of positive infinity as a 32-bit float.
pub const POSITIVE_INFINITY_BITS: u32 = 0x7F80_0000;

/// Whether `bits` is the pattern of a 32-bit float between −60 and 0,
/// both included. Among negative floats a larger pattern is a lower value.
pub open spec fn level_in_range(bits: u32) -> bool {
    bits == FULL_SCALE_DB_BITS || NEGATIVE_ZERO_BITS <= bits <= SILENT_DB_BITS
}

/// The level stored for a measured one: a level in range is kept, one above
/// full scale becomes 0 dB, and everything else (below the floor, or not a
/// number) becomes the floor.
pub open spec fn clamped_level(bits: u32) -> u32 {
    if level_in_range(bits) {
        bits
    } else if bits <= POSITIVE_INFINITY_BITS {
        FULL_SCALE_DB_BITS
    } else {
        SILENT_DB_BITS
    }
}

/// Brings the bit pattern of a measured level into the reportable range.
pub fn clamp_level(bits: u32) -> (stored: u32)
    ensures
        stored == clamped_level(bits),
        level_in_range(stored),
{
    if bits == FULL_SCALE_DB_BITS || (NEGATIVE_ZERO_BITS <= bits && bits <= SILENT_DB_BITS) {
        bits
    } else if bits <= POSITIVE_INFINITY_BITS {
        FULL_SCALE_DB_BITS
    } else {
        SILENT_DB_BITS
    }
}

/// The two most recent loudness readings and whether a recording is active.
/// Levels are kept as the bit patterns of 32-bit floats in dB.
pub struct LevelMeter {
    rms_bits: u32,
    peak_bits: u32,
    recording: bool,
}

impl LevelMeter {
    #[verifier::type_invariant]
    spec fn in_range(self) -> bool {
        level_in_range(self.rms_bits) && level_in_range(self.peak_bits)
    }

    /// The current reading: RMS level, then peak level.
    pub closed spec fn reading(&self) -> (u32, u32) {
        (self.rms_bits, self.peak_bits)
    }

    /// Whether a recording is marked as active.
    pub closed spec fn active(&self) -> bool {
        self.recording
    }

    /// A meter that has measured nothing: both levels at the floor, no recording.
    pub fn new() -> (meter: LevelMeter)
        ensures
            meter.reading() == (SILENT_DB_BITS, SILENT_DB_BITS),
            !meter.active(),
    {
        LevelMeter { rms_bits: SILENT_DB_BITS, peak_bits: SILENT_DB_BITS, recording: false }
    }

    /// Records a measurement, each level brought into range first.
    pub fn store(&mut self, rms_bits: u32, peak_bits: u32)
        ensures
            final(self).reading() == (clamped_level(rms_bits), clamped_level(peak_bits)),
            final(self).active() == old(self).active(),
    {
        proof {
            use_type_invariant(&*self);
        }
        self.rms_bits = clamp_level(rms_bits);
        self.peak_bits = clamp_level(peak_bits);
    }

    /// Marks a recording as active or not.
    pub fn set_recording(&mut self, recording: bool)
        ensures
            final(self).active() == recording,
            final(self).reading() == old(self).reading(),
    {
        proof {
            use_type_invariant(&*self);
        }
        self.recording = recording;
    }
}

/// The latest reading, RMS then peak; each level lies between the floor and
/// full scale.
pub fn current_level(meter: &LevelMeter) -> (reading: (u32, u32))
    ensures
        reading == meter.reading(),
        level_in_range(reading.0),
        level_in_range(reading.1),
{
    proof {
        use_type_invariant(meter);
    }
    (meter.rms_bits, meter.peak_bits)
}

/// Whether a recording is marked as active.
pub fn is_recording(meter: &LevelMeter) -> (active: bool)
    ensures
        active == meter.active(),
{
    meter.recording
}

/// Puts both levels back to the silence floor.
pub fn reset_levels(meter: &mut LevelMeter)
    ensures
        final(meter).reading() == (SILENT_DB_BITS, SILENT_DB_BITS),
        final(meter).active() == old(meter).active(),
{
    proof {
        use_type_invariant(&*meter);
    }
    meter.rms_bits = SILENT_DB_BITS;
    meter.peak_bits = SILENT_DB_BITS;
}

// ---------------------------------------------------------------------------
// Sample conversion and mixing
// ---------------------------------------------------------------------------
/// The sample formats a device may deliver: the three the capture pipeline
/// understands, and everything else.
#[derive(Clone, Copy, Debug, PartialEq, Eq, Structural)]
pub enum SampleKind {
    Signed16,
    Unsigned16,
    Float32,
    Other,
}

/// What a device with a format the pipeline does not understand answers.
pub open spec fn unsupported_format_message() -> Seq<char> {
    "Unsupported sample format"@
}

/// Accepts the three formats the pipeline understands and refuses any other.
pub fn check_sample_kind(kind: SampleKind) -> (checked: Result<(), String>)
    ensures
        kind != SampleKind::Other ==> checked is Ok,
        kind == SampleKind::Other ==> (checked matches Err(reason) && reason@
            == unsupported_format_message()),
{
    match kind {
        SampleKind::Other => Err(String::from_str("Unsupported sample format")),
        _ => Ok(()),
    }
}

/// Recentres an unsigned 16-bit sample around zero.
pub fn recenter_u16(sample: u16) -> (centered: i16)
    ensures
        centered == sample - 32768,
{
    (sample as i32 - 32768) as i16
}

/// The sum of the samples of a frame.
pub open spec fn frame_sum(frame: Seq<i16>) -> int
    decreases frame.len(),
{
    if frame.len() == 0 {
        0
    } else {
        frame_sum(frame.drop_last()) + frame.last()
    }
}

/// `total / count`, rounded towards zero.
pub open spec fn toward_zero(total: int, count: int) -> int {
    if total >= 0 {
        total / count
    } else {
        -((-total) / count)
    }
}

/// The mono sample of a frame: the average of its channels, rounded towards zero.
pub open spec fn mono_of(frame: Seq<i16>) -> i16 {
    toward_zero(frame_sum(frame), frame.len() as int) as i16
}

/// The mono samples of interleaved `data`: one per frame of `channels`
/// samples, the last frame being shorter if the data ends in its middle.
/// Without channels there are no samples.
pub open spec fn mixed(data: Seq<i16>, channels: int) -> Seq<i16>
    decreases data.len(),
{
    if channels <= 0 || data.len() == 0 {
        Seq::empty()
    } else {
        let width = if channels < data.len() {
            channels
        } else {
            data.len() as int
        };
        seq![mono_of(data.take(width))] + mixed(data.skip(width), channels)
    }
}

/// The distance of a sample from zero.
pub open spec fn magnitude(sample: i16) -> int {
    if sample < 0 {
        -(sample as int)
    } else {
        sample as int
    }
}

/// The sum of the squares of the samples.
pub open spec fn sum_of_squares(samples: Seq<i16>) -> int
    decreases samples.len(),
{
    if samples.len() == 0 {
        0
    } else {
        sum_of_squares(samples.drop_last()) + magnitude(samples.last()) * magnitude(samples.last())
    }
}

/// The largest magnitude among the samples, 0 if there are none.
pub open spec fn loudest(samples: Seq<i16>) -> int
    decreases samples.len(),
{
    if samples.len() == 0 {
        0
    } else if magnitude(samples.last()) > loudest(samples.drop_last()) {
        magnitude(samples.last())
    } else {
        loudest(samples.drop_last())
    }
}

/// What one batch of frames measured: how many mono samples it gave, the sum
/// of their squares, and their largest magnitude. The loudness in dB follows
/// from these three.
#[derive(Clone, Copy, Debug, PartialEq, Eq, Structural)]
pub struct FrameStats {
    pub frames: usize,
    pub sum_squares: u128,
    pub peak: u16,
}

proof fn lemma_frame_sum_bounds(frame: Seq<i16>)
    ensures
        -32768 * frame.len() <= frame_sum(frame) <= 32767 * frame.len(),
    decreases frame.len(),
{
    if frame.len() > 0 {
        lemma_frame_sum_bounds(frame.drop_last());
    }
}

proof fn lemma_average_fits(total: int, count: int)
    requires
        count > 0,
        -32768 * count <= total <= 32767 * count,
    ensures
        -32768 <= toward_zero(total, count) <= 32767,
{
    if total >= 0 {
        assert(total / count <= 32767) by (nonlinear_arith)
            requires
                count > 0,
                0 <= total <= 32767 * count,
        ;
        assert(total / count >= 0) by (nonlinear_arith)
            requires
                count > 0,
                0 <= total,
        ;
    } else {
        let flipped = -total;
        assert(flipped / count <= 32768) by (nonlinear_arith)
            requires
                count > 0,
                0 <= flipped <= 32768 * count,
        ;
        assert(flipped / count >= 0) by (nonlinear_arith)
            requires
                count > 0,
                0 <= flipped,
        ;
    }
}

/// The average of a frame always fits a 16-bit sample: a mono sample is the
/// rounded average itself, never a wrapped value.
pub proof fn lemma_mono_in_range(frame: Seq<i16>)
    requires
        frame.len() > 0,
    ensures
        mono_of(frame) == toward_zero(frame_sum(frame), frame.len() as int),
{
    lemma_frame_sum_bounds(frame);
    lemma_average_fits(frame_sum(frame), frame.len() as int);
}

/// Mixing gives one sample per frame: as many as the data has full frames,
/// and one more if samples are left over.
pub proof fn lemma_mixed_len(data: Seq<i16>, channels: int)
    requires
        channels > 0,
    ensures
        mixed(data, channels).len() == (data.len() + channels - 1) / channels,
    decreases data.len(),
{
    if data.len() == 0 {
        assert((channels - 1) / channels == 0) by (nonlinear_arith)
            requires
                channels > 0,
        ;
    } else if channels < data.len() {
        lemma_mixed_len(data.skip(channels), channels);
        let rest = data.len() - channels;
        assert((rest + channels + channels - 1) / channels == (rest + channels - 1) / channels + 1)
            by (nonlinear_arith)
            requires
                channels > 0,
                rest >= 0,
        ;
    } else {
        let all = data.len() as int;
        assert(mixed(data.skip(all), channels) =~= Seq::<i16>::empty());
        assert((all + channels - 1) / channels == 1) by (nonlinear_arith)
            requires
                channels > 0,
                0 < all <= channels,
        ;
    }
}

/// Mixing single-channel data changes nothing.
pub proof fn lemma_mixed_mono_identity(data: Seq<i16>)
    ensures
        mixed(data, 1) == data,
    decreases data.len(),
{
    if data.len() > 0 {
        lemma_mixed_mono_identity(data.skip(1));
        let first = data.take(1);
        assert(frame_sum(first) == data[0]) by {
            reveal_with_fuel(frame_sum, 2);
        }
    }
}

/// The mono sample of the frame `data[from..to]`.
fn average_frame(data: &[i16], from: usize, to: usize) -> (mono: i16)
    requires
        from < to <= data.len(),
        to - from <= 65535,
    ensures
        mono == mono_of(data@.subrange(from as int, to as int)),
{
    let mut total: i32 = 0;
    let mut at: usize = from;
    while at < to
        invariant
            from <= at <= to <= data.len(),
            to - from <= 65535,
            total == frame_sum(data@.subrange(from as int, at as int)),
            -32768 * (at - from) <= total <= 32767 * (at - from),
        decreases to - at,
    {
        proof {
            assert(data@.subrange(from as int, at + 1).drop_last() =~= data@.subrange(
                from as int,
                at as int,
            ));
        }
        total = total + data[at] as i32;
        at += 1;
    }
    let count: i32 = (to - from) as i32;
    proof {
        lemma_average_fits(total as int, count as int);
    }
    (total / count) as i16
}

/// Mixes interleaved device samples down to mono and appends them to
/// `buffer`. Every frame of `channels` samples gives one mono sample, the
/// average of its channels rounded towards zero; a shorter last frame is
/// averaged over the samples it has. Without channels nothing is appended.
/// The measurements of the appended samples are returned.
pub fn push_mono_i16(buffer: &mut Vec<i16>, data: &[i16], channels: u16) -> (stats: FrameStats)
    ensures
        final(buffer)@ == old(buffer)@ + mixed(data@, channels as int),
        stats.frames == mixed(data@, channels as int).len(),
        stats.sum_squares == sum_of_squares(mixed(data@, channels as int)),
        stats.peak == loudest(mixed(data@, channels as int)),
{
    let mut stats = FrameStats { frames: 0, sum_squares: 0, peak: 0 };
    if channels == 0 {
        return stats;
    }
    let width = channels as usize;
    let mut from: usize = 0;
    let ghost mut done: Seq<i16> = Seq::empty();
    proof {
        assert(data@.skip(0) =~= data@);
    }
    while from < data.len()
        invariant
            0 <= from <= data.len(),
            width == channels,
            channels > 0,
            mixed(data@, channels as int) == done + mixed(data@.skip(from as int), channels as int),
            buffer@ == old(buffer)@ + done,
            done.len() <= from,
            stats.frames == done.len(),
            stats.sum_squares == sum_of_squares(done),
            stats.sum_squares <= done.len() * 0x4000_0000,
            stats.peak == loudest(done),
        decreases data.len() - from,
    {
        let to = if data.len() - from < width {
            data.len()
        } else {
            from + width
        };
        let mono = average_frame(data, from, to);
        let loud: u16 = if mono < 0 {
            (-(mono as i32)) as u16
        } else {
            mono as u16
        };
        proof {
            let rest = data@.skip(from as int);
            let taken = to - from;
            assert(rest.take(taken) =~= data@.subrange(from as int, to as int));
            assert(rest.skip(taken) =~= data@.skip(to as int));
            assert(done.push(mono).drop_last() =~= done);
            assert(loud * loud <= 0x4000_0000) by (nonlinear_arith)
                requires
                    0 <= loud <= 32768,
            ;
            done = done.push(mono);
        }
        buffer.push(mono);
        stats.sum_squares = stats.sum_squares + (loud as u128) * (loud as u128);
        if loud > stats.peak {
            stats.peak = loud;
        }
        stats.frames = stats.frames + 1;
        from = to;
    }
    stats
}

// ---------------------------------------------------------------------------
// Encoding
// ---------------------------------------------------------------------------
/// The sample rate assumed until the device has told its own.
pub const DEFAULT_SAMPLE_RATE: u32 = 16000;

/// The highest sample rate whose byte rate for 16-bit mono fits the
/// container's 32-bit fields.
pub const MAX_SAMPLE_RATE: u32 = 0x7FFF_FFFF;

/// The most 16-bit samples a container can hold next to its header.
pub const MAX_WAV_SAMPLES: usize = 0x7FFF_FFED;

/// The length of the header in front of the samples.
pub const WAV_HEADER_LEN: usize = 44;

/// What a recording without samples answers.
pub open spec fn no_audio_message() -> Seq<char> {
    "No audio captured"@
}

/// What a recording too long for a container answers.
pub open spec fn too_long_message() -> Seq<char> {
    "Recording too long to encode"@
}

/// What a sample rate too high for a container answers.
pub open spec fn rate_too_high_message() -> Seq<char> {
    "Sample rate too high to encode"@
}

/// The bytes of the WAVE container that holds `samples` as interleaved
/// integer PCM with the given layout, as the encoder writes it.
pub uninterp spec fn wav_container(
    channels: u16,
    sample_rate: u32,
    bits_per_sample: u16,
    samples: Seq<i16>,
) -> Seq<u8>;

#[verifier::external_type_specification]
#[verifier::external_body]
pub struct ExHoundError(hound::Error);

/// `hound::WavWriter` over an in-memory buffer: `new`, `write_sample` for each
/// sample in order, `finalize`. Writing to memory does not fail, and the
/// layout asked for is one the encoder supports, so the only failure left
/// is a last frame that lacks a sample: whole frames are always encoded.
/// The bytes depend on the layout and the samples alone: a 44-byte header
/// followed by two bytes per sample.
#[verifier::external_body]
fn write_wav(
    samples: &[i16],
    channels: u16,
    sample_rate: u32,
    bits_per_sample: u16,
) -> (written: Result<Vec<u8>, hound::Error>)
    requires
        1 <= channels <= 2,
        bits_per_sample == 16,
        1 <= sample_rate,
        sample_rate * channels * 2 <= u32::MAX,
        samples@.len() <= MAX_WAV_SAMPLES,
    ensures
        (samples@.len() as int) % (channels as int) == 0 ==> written is Ok,
        written matches Ok(bytes) ==> {
            &&& bytes@ == wav_container(channels, sample_rate, bits_per_sample, samples@)
            &&& bytes@.len() == WAV_HEADER_LEN + 2 * samples@.len()
        },
{
    let sample_format = hound::SampleFormat::Int;
    let spec = hound::WavSpec { channels, sample_rate, bits_per_sample, sample_format };
    let mut bytes = Vec::new();
    let mut writer = hound::WavWriter::new(std::io::Cursor::new(&mut bytes), spec)?;
    for sample in samples {
        writer.write_sample(*sample)?;
    }
    writer.finalize()?;
    Ok(bytes)
}

/// `hound::Error`'s `Display`: the encoder's own description of a failure.
#[verifier::external_body]
fn encoder_error_text(error: &hound::Error) -> String {
    error.to_string()
}

/// The rate a recording is encoded at: the discovered one, or 1 where none
/// was discovered.
pub open spec fn effective_rate(sample_rate: u32) -> u32 {
    if sample_rate == 0 {
        1
    } else {
        sample_rate
    }
}

/// Whether a recording can be held by a container: it has a sample, not more
/// samples than a container has room for, and a rate whose byte rate fits the
/// header.
pub open spec fn encodable(samples: Seq<i16>, sample_rate: u32) -> bool {
    0 < samples.len() <= MAX_WAV_SAMPLES && sample_rate <= MAX_SAMPLE_RATE
}

/// Encodes a finished recording as a single-channel 16-bit PCM container at
/// `sample_rate`. A recording without samples is a capture failure and
/// answers `No audio captured`; one that cannot be represented (too many
/// samples, or a rate whose byte rate overflows the header) is refused before
/// the encoder is asked. Every other recording is encoded: the container
/// holds its samples in order at its rate, and is never empty.
pub fn encode_recording(samples: &[i16], sample_rate: u32) -> (encoded: Result<Vec<u8>, String>)
    ensures
        samples@.len() == 0 ==> (encoded matches Err(reason) && reason@ == no_audio_message()),
        samples@.len() > MAX_WAV_SAMPLES ==> (encoded matches Err(reason) && reason@
            == too_long_message()),
        0 < samples@.len() <= MAX_WAV_SAMPLES && sample_rate > MAX_SAMPLE_RATE ==> (
        encoded matches Err(reason) && reason@ == rate_too_high_message()),
        encodable(samples@, sample_rate) <==> encoded is Ok,
        encoded matches Ok(bytes) ==> {
            &&& bytes@ == wav_container(1, effective_rate(sample_rate), 16, samples@)
            &&& bytes@.len() == WAV_HEADER_LEN + 2 * samples@.len()
            &&& bytes@.len() > 0
        },
{
    if samples.len() == 0 {
        return Err(String::from_str("No audio captured"));
    }
    if samples.len() > MAX_WAV_SAMPLES {
        return Err(String::from_str("Recording too long to encode"));
    }
    if sample_rate > MAX_SAMPLE_RATE {
        return Err(String::from_str("Sample rate too high to encode"));
    }
    let rate = if sample_rate == 0 {
        1
    } else {
        sample_rate
    };
    match write_wav(samples, 1, rate, 16) {
        Ok(bytes) => Ok(bytes),
        Err(error) => Err(encoder_error_text(&error)),
    }
}

// ---------------------------------------------------------------------------
// The recorder
// ---------------------------------------------------------------------------
/// The recorder's side of one recording: the samples captured so far, whether
/// capture is on, and the rate the device delivers at.
pub struct AudioRecorder {
    samples: Vec<i16>,
    recording: bool,
    sample_rate: u32,
}

impl AudioRecorder {
    /// The samples captured so far.
    pub closed spec fn samples(&self) -> Seq<i16> {
        self.samples@
    }

    /// Whether capture is on.
    pub closed spec fn recording(&self) -> bool {
        self.recording
    }

    /// The rate the recording will be encoded at.
    pub closed spec fn sample_rate(&self) -> u32 {
        self.sample_rate
    }

    /// Tells whether capture is on.
    pub fn is_capturing(&self) -> (on: bool)
        ensures
            on == self.recording(),
    {
        self.recording
    }

    /// Turns capture on. A recorder that is already capturing stays as it
    /// is, and `false` says that no new capture is to be launched. Otherwise
    /// the buffer is emptied, the rate is back at its default, the meter is
    /// at the floor and marked active, and `true` asks for a capture to be
    /// launched.
    pub fn start(&mut self, meter: &mut LevelMeter) -> (launch: bool)
        ensures
            launch == !old(self).recording(),
            final(self).recording(),
            !launch ==> {
                &&& final(self).samples() == old(self).samples()
                &&& final(self).sample_rate() == old(self).sample_rate()
                &&& final(meter).reading() == old(meter).reading()
                &&& final(meter).active() == old(meter).active()
            },
            launch ==> {
                &&& final(self).samples() == Seq::<i16>::empty()
                &&& final(self).sample_rate() == DEFAULT_SAMPLE_RATE
                &&& final(meter).reading() == (SILENT_DB_BITS, SILENT_DB_BITS)
                &&& final(meter).active()
            },
    {
        if self.recording {
            return false;
        }
        self.samples.clear();
        reset_levels(meter);
        meter.set_recording(true);
        self.recording = true;
        self.sample_rate = DEFAULT_SAMPLE_RATE;
        true
    }

    /// Notes the rate the device delivers at.
    pub fn set_sample_rate(&mut self, sample_rate: u32)
        ensures
            final(self).sample_rate() == sample_rate,
            final(self).samples() == old(self).samples(),
            final(self).recording() == old(self).recording(),
    {
        self.sample_rate = sample_rate;
    }

    /// Takes in one batch of interleaved device samples. While capture is on
    /// they are mixed down to mono and appended; otherwise they are dropped.
    pub fn capture(&mut self, data: &[i16], channels: u16) -> (stats: FrameStats)
        ensures
            final(self).recording() == old(self).recording(),
            final(self).sample_rate() == old(self).sample_rate(),
            old(self).recording() ==> {
                &&& final(self).samples() == old(self).samples() + mixed(data@, channels as int)
                &&& stats.frames == mixed(data@, channels as int).len()
                &&& stats.sum_squares == sum_of_squares(mixed(data@, channels as int))
                &&& stats.peak == loudest(mixed(data@, channels as int))
            },
            !old(self).recording() ==> {
                &&& final(self).samples() == old(self).samples()
                &&& stats == (FrameStats { frames: 0, sum_squares: 0, peak: 0 })
            },
    {
        if !self.recording {
            return FrameStats { frames: 0, sum_squares: 0, peak: 0 };
        }
        push_mono_i16(&mut self.samples, data, channels)
    }

    /// Turns capture off: the meter is at the floor and no longer active.
    /// The samples stay where they are.
    pub fn halt(&mut self, meter: &mut LevelMeter)
        ensures
            !final(self).recording(),
            final(self).samples() == old(self).samples(),
            final(self).sample_rate() == old(self).sample_rate(),
            final(meter).reading() == (SILENT_DB_BITS, SILENT_DB_BITS),
            !final(meter).active(),
    {
        self.recording = false;
        meter.set_recording(false);
        reset_levels(meter);
    }

    /// Ends the recording: capture is off, the meter is at the floor, and the
    /// samples are encoded as [`encode_recording`] does: a recording that
    /// can be held by a container is handed over as one, and any other is
    /// refused with the reason [`encode_recording`] gives.
    pub fn stop(&mut self, meter: &mut LevelMeter) -> (encoded: Result<Vec<u8>, String>)
        ensures
            !final(self).recording(),
            final(self).samples() == old(self).samples(),
            final(self).sample_rate() == old(self).sample_rate(),
            final(meter).reading() == (SILENT_DB_BITS, SILENT_DB_BITS),
            !final(meter).active(),
            old(self).samples().len() == 0 ==> (encoded matches Err(reason) && reason@
                == no_audio_message()),
            old(self).samples().len() > MAX_WAV_SAMPLES ==> (encoded matches Err(reason)
                && reason@ == too_long_message()),
            0 < old(self).samples().len() <= MAX_WAV_SAMPLES && old(self).sample_rate()
                > MAX_SAMPLE_RATE ==> (encoded matches Err(reason) && reason@
                == rate_too_high_message()),
            encodable(old(self).samples(), old(self).sample_rate()) <==> encoded is Ok,
            encoded matches Ok(bytes) ==> {
                &&& bytes@ == wav_container(
                    1,
                    effective_rate(old(self).sample_rate()),
                    16,
                    old(self).samples(),
                )
                &&& bytes@.len() == WAV_HEADER_LEN + 2 * old(self).samples().len()
            },
    {
        self.halt(meter);
        encode_recording(self.samples.as_slice(), self.sample_rate)
    }
}

impl Default for AudioRecorder {
    fn default() -> (recorder: AudioRecorder)
        ensures
            recorder.samples() == Seq::<i16>::empty(),
            !recorder.recording(),
            recorder.sample_rate() == DEFAULT_SAMPLE_RATE,
    {
        AudioRecorder { samples: Vec::new(), recording: false, sample_rate: DEFAULT_SAMPLE_RATE }
    }
}

} // verus!
