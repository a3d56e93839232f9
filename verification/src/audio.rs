//! Recorded audio: whether a recording holds speech, the recorder's states,
//! sample conversion, and how long signals are cut into fixed-size chunks.

use vstd::prelude::*;

verus! {

/// Recorded audio data: interleaved 16-bit samples.
#[derive(Debug, Clone)]
pub struct RecordedAudio {
    pub samples: Vec<i16>,
    pub sample_rate: u32,
    pub channels: u16,
}

/// Sum of the squares of the samples.
pub open spec fn sum_squares(s: Seq<i16>) -> int
    decreases s.len(),
{
    if s.len() == 0 {
        0
    } else {
        sum_squares(s.drop_last()) + s.last() * s.last()
    }
}

/// A recording holds audio when it has at least 1000 samples and their
/// root mean square exceeds 100, that is, the mean square exceeds 10000.
pub open spec fn has_audio_spec(s: Seq<i16>) -> bool {
    s.len() >= 1000 && sum_squares(s) > 10000 * s.len()
}

/// A square of a sample is at most 2^30.
proof fn lemma_square_bound(x: i16)
    ensures
        0 <= x * x <= 0x4000_0000,
{
    assert(0 <= x * x <= 0x4000_0000) by (nonlinear_arith)
        requires
            -32768 <= x <= 32767,
    ;
}

/// The sum of squares of two recordings played one after the other is the
/// sum of theirs.
proof fn lemma_sum_squares_append(s: Seq<i16>, t: Seq<i16>)
    ensures
        sum_squares(s + t) == sum_squares(s) + sum_squares(t),
    decreases t.len(),
{
    if t.len() == 0 {
        assert(s + t =~= s);
    } else {
        assert((s + t).drop_last() =~= s + t.drop_last());
        lemma_sum_squares_append(s, t.drop_last());
    }
}

/// `n` samples, all equal to `c`.
pub open spec fn steady_signal(n: nat, c: i16) -> Seq<i16> {
    Seq::new(n, |i: int| c)
}

/// The sum of squares of `n` copies of `c` is `n * c * c`.
proof fn lemma_sum_squares_constant(n: nat, c: i16)
    ensures
        sum_squares(steady_signal(n, c)) == n * (c * c),
    decreases n,
{
    if n > 0 {
        let s = steady_signal(n, c);
        assert(s.drop_last() =~= steady_signal((n - 1) as nat, c));
        lemma_sum_squares_constant((n - 1) as nat, c);
        assert(s.last() == c);
        assert(sum_squares(s) == sum_squares(s.drop_last()) + c * c);
        let m = (n - 1) as nat;
        let q = c * c;
        assert(n * q == m * q + q) by (nonlinear_arith)
            requires
                n == m + 1,
        ;
    } else {
        assert(steady_signal(n, c).len() == 0);
    }
}

/// Whether a recording has audio depends on all of its samples and not on
/// their order: two parts played in either order give the same answer.
pub proof fn lemma_has_audio_order_free(s: Seq<i16>, t: Seq<i16>)
    ensures
        has_audio_spec(s + t) == has_audio_spec(t + s),
{
    lemma_sum_squares_append(s, t);
    lemma_sum_squares_append(t, s);
}

/// The level is measured over the whole recording: joining two recordings
/// that both have audio gives one with audio, and joining two long enough
/// recordings that both lack it gives one without.
pub proof fn lemma_has_audio_joins(s: Seq<i16>, t: Seq<i16>)
    ensures
        has_audio_spec(s) && has_audio_spec(t) ==> has_audio_spec(s + t),
        s.len() >= 1000 && t.len() >= 1000 && !has_audio_spec(s) && !has_audio_spec(t)
            ==> !has_audio_spec(s + t),
{
    lemma_sum_squares_append(s, t);
}

/// The thresholds: a recording under 1000 samples never has audio, and a
/// steady signal of at least 1000 samples has audio exactly when its level
/// is above 100.
pub proof fn lemma_has_audio_thresholds(s: Seq<i16>, n: nat, c: i16)
    ensures
        s.len() < 1000 ==> !has_audio_spec(s),
        n >= 1000 ==> (has_audio_spec(steady_signal(n, c)) <==> c * c > 10000),
{
    lemma_sum_squares_constant(n, c);
    if n >= 1000 {
        assert(n * (c * c) > 10000 * n <==> c * c > 10000) by (nonlinear_arith)
            requires
                n >= 1000,
        ;
    }
}

impl RecordedAudio {
    /// Whether the recording is long and loud enough to be worth
    /// transcribing: at least 1000 samples with an RMS level above 100.
    pub fn has_audio(&self) -> (r: bool)
        ensures
            r == has_audio_spec(self.samples@),
    {
        let n = self.samples.len();
        if n < 1000 {
            return false;
        }
        let mut sum: u128 = 0;
        let mut i: usize = 0;
        while i < n
            invariant
                n == self.samples@.len(),
                i <= n,
                sum == sum_squares(self.samples@.take(i as int)),
                sum <= i * 0x4000_0000,
            decreases n - i,
        {
            let x = self.samples[i];
            proof {
                lemma_square_bound(x);
                assert(self.samples@.take(i + 1).drop_last() =~= self.samples@.take(i as int));
            }
            let sq = (x as i32 * x as i32) as u128;
            sum = sum + sq;
            i = i + 1;
        }
        assert(self.samples@.take(n as int) =~= self.samples@);
        sum > 10000 * (n as u128)
    }

    /// Encodes the recording as a 16-bit integer PCM WAV file in memory.
    /// It fails, with "Failed to finalize WAV", exactly when the samples do
    /// not fill a whole number of frames.
    pub fn to_wav(&self) -> (r: Result<Vec<u8>, String>)
        requires
            wav_encodable(self.samples@.len(), self.sample_rate, self.channels),
        ensures
            r is Ok <==> self.samples@.len() % (self.channels as nat) == 0,
            r matches Ok(b) ==> b@ == wav_pcm16(self.samples@, self.sample_rate, self.channels),
            r matches Err(e) ==> e@ == wav_unfinished_error(),
    {
        encode_wav(self.samples.as_slice(), self.sample_rate, self.channels)
    }
}

/// The bytes of the WAV file, 16-bit integer PCM, that hound's `WavWriter`
/// writes for these interleaved samples, sample rate and channel count.
pub uninterp spec fn wav_pcm16(samples: Seq<i16>, sample_rate: u32, channels: u16) -> Seq<u8>;

/// The header bytes that the RIFF size counts besides the data: 36 for
/// the plain PCM format (one or two channels), 60 for the extensible
/// format that more channels need.
pub open spec fn wav_header_extra(channels: u16) -> nat {
    if channels > 2 { 60 } else { 36 }
}

/// The inputs on which the WAV writer runs without arithmetic overflow or
/// division by zero: a positive sample rate and channel count, a byte rate
/// (`sample_rate * 2 * channels`) that fits in 32 bits, and a data chunk
/// whose length, with the header, fits in 32 bits.
pub open spec fn wav_encodable(len: nat, sample_rate: u32, channels: u16) -> bool {
    &&& sample_rate > 0
    &&& channels > 0
    &&& sample_rate * 2 * channels <= u32::MAX
    &&& len * 2 + wav_header_extra(channels) <= u32::MAX
}

/// Error when the samples do not fill the last frame.
pub open spec fn wav_unfinished_error() -> Seq<char> {
    "Failed to finalize WAV"@
}

/// Writes the samples with hound: `WavWriter::new` on an in-memory cursor with
/// a 16-bit integer spec, `write_sample` for each sample in order, then
/// `finalize`. Claimed: the bytes are `wav_pcm16` of the arguments; writes to
/// memory do not fail, so the one error is the one that `finalize` reports
/// when the number of samples is not a multiple of the channel count.
/// `requires` leaves out the inputs on which hound's header arithmetic
/// overflows or divides by zero.
#[verifier::external_body]
fn encode_wav(samples: &[i16], sample_rate: u32, channels: u16) -> (r: Result<Vec<u8>, String>)
    requires
        wav_encodable(samples@.len(), sample_rate, channels),
    ensures
        r is Ok <==> samples@.len() % (channels as nat) == 0,
        r matches Ok(b) ==> b@ == wav_pcm16(samples@, sample_rate, channels),
        r matches Err(e) ==> e@ == wav_unfinished_error(),
{
    let spec = hound::WavSpec { channels, sample_rate, bits_per_sample: 16, sample_format: hound::SampleFormat::Int };
    let mut cursor = std::io::Cursor::new(Vec::new());
    {
        let mut writer = hound::WavWriter::new(&mut cursor, spec).map_err(|_| "Failed to create WAV writer".to_string())?;
        for &sample in samples {
            writer.write_sample(sample).map_err(|_| "Failed to write sample".to_string())?;
        }
        writer.finalize().map_err(|_| "Failed to finalize WAV".to_string())?;
    }
    Ok(cursor.into_inner())
}

/// Whether the recorder is capturing.
#[derive(Debug, Clone, Copy, PartialEq, Eq)]
pub struct AudioRecorder {
    recording: bool,
}

/// Error when stopping a recorder that is not recording.
pub open spec fn no_active_recording() -> Seq<char> {
    "No active recording"@
}

impl AudioRecorder {
    /// Whether a recording is under way.
    pub closed spec fn spec_recording(self) -> bool {
        self.recording
    }

    /// A recorder that is not recording.
    pub fn new() -> (r: AudioRecorder)
        ensures
            !r.spec_recording(),
    {
        AudioRecorder { recording: false }
    }

    /// Whether a recording is under way.
    pub fn is_recording(&self) -> (r: bool)
        ensures
            r == self.spec_recording(),
    {
        self.recording
    }

    /// Starts a recording; one under way is replaced by the new one.
    pub fn start_recording(&mut self) -> (r: Result<(), String>)
        ensures
            r is Ok,
            final(self).spec_recording(),
    {
        self.recording = true;
        Ok(())
    }

    /// Stops the recording under way, after which its samples are collected;
    /// with no recording under way, the error "No active recording".
    pub fn stop(&mut self) -> (r: Result<(), String>)
        ensures
            !final(self).spec_recording(),
            r is Ok <==> old(self).spec_recording(),
            r matches Err(e) ==> e@ == no_active_recording(),
    {
        if self.recording {
            self.recording = false;
            Ok(())
        } else {
            Err("No active recording".to_owned())
        }
    }
}

/// What the capture thread handed back, if anything: `None` when it ended
/// without an answer, which is reported as "Recording thread crashed".
pub fn recording_result(received: Option<Result<RecordedAudio, String>>) -> (r: Result<RecordedAudio, String>)
    ensures
        received is None ==> (r matches Err(e) && e@ == "Recording thread crashed"@),
        received matches Some(x) ==> r == x,
{
    match received {
        Some(x) => x,
        None => Err("Recording thread crashed".to_owned()),
    }
}

/// An unsigned 16-bit sample as a signed one (offset by 32768).
pub fn u16_sample_to_i16(sample: u16) -> (r: i16)
    ensures
        r == sample - 32768,
{
    (sample as i32 - 32768) as i16
}

/// Converts a block of unsigned 16-bit samples.
pub fn u16_samples_to_i16(data: &[u16]) -> (r: Vec<i16>)
    ensures
        r@.len() == data@.len(),
        forall|k: int| 0 <= k < data@.len() ==> r@[k] == data@[k] - 32768,
{
    let mut r: Vec<i16> = Vec::new();
    let mut i: usize = 0;
    while i < data.len()
        invariant
            i <= data@.len(),
            r@.len() == i,
            forall|k: int| 0 <= k < i ==> r@[k] == data@[k] - 32768,
        decreases data@.len() - i,
    {
        r.push(u16_sample_to_i16(data[i]));
        i = i + 1;
    }
    r
}

/// Number of chunks of `size` that cover `total` items.
pub open spec fn chunk_count(total: nat, size: nat) -> nat {
    if size == 0 {
        0
    } else {
        ((total + size - 1) / size as int) as nat
    }
}

/// Chunk `k` of `total` items cut into chunks of `size`: the last one may be shorter.
pub open spec fn chunk_span(total: nat, size: nat, k: nat) -> (int, int) {
    let start = k * size;
    (start as int, if start + size <= total {
        (start + size) as int
    } else {
        total as int
    })
}

/// Cuts `total` items into consecutive chunks of `size`, the last one
/// holding what is left; each pair is (start, end).
pub fn chunk_spans(total: usize, size: usize) -> (r: Vec<(usize, usize)>)
    requires
        size > 0,
    ensures
        r@.len() == chunk_count(total as nat, size as nat),
        forall|k: int|
            0 <= k < r@.len() ==> (r@[k].0 as int, r@[k].1 as int) == chunk_span(
                total as nat,
                size as nat,
                k as nat,
            ),
{
    let mut r: Vec<(usize, usize)> = Vec::new();
    let mut pos: usize = 0;
    assert(r@.len() == 0);
    while pos < total
        invariant
            size > 0,
            pos <= total,
            pos < total ==> pos == r@.len() * size,
            pos == total ==> r@.len() * size >= total,
            r@.len() > 0 ==> (r@.len() - 1) * size < total,
            forall|k: int|
                0 <= k < r@.len() ==> (r@[k].0 as int, r@[k].1 as int) == chunk_span(
                    total as nat,
                    size as nat,
                    k as nat,
                ),
        decreases total - pos,
    {
        let ghost k = r@.len();
        let end = if size <= total - pos {
            pos + size
        } else {
            total
        };
        proof {
            assert((k + 1) * size == k * size + size) by (nonlinear_arith);
        }
        r.push((pos, end));
        pos = end;
    }
    proof {
        let n = r@.len();
        if n == 0 {
            assert(total == 0);
            assert(0 == (total + size - 1) / size as int) by (nonlinear_arith)
                requires
                    total == 0,
                    size > 0,
            ;
        } else {
            assert(n == (total + size - 1) / size as int) by (nonlinear_arith)
                requires
                    (n - 1) * size < total,
                    total <= n * size,
                    size > 0,
            ;
        }
    }
    r
}

/// The chunks cover all `total` items, in order, without gaps or overlap:
/// the first starts at 0, each starts where the one before ends, none is
/// empty or longer than `size`, and the last ends at `total`.
pub proof fn lemma_chunks_partition(total: nat, size: nat)
    requires
        size > 0,
    ensures
        total == 0 <==> chunk_count(total, size) == 0,
        total > 0 ==> chunk_span(total, size, 0).0 == 0,
        total > 0 ==> chunk_span(total, size, (chunk_count(total, size) - 1) as nat).1 == total,
        forall|k: nat|
            k < chunk_count(total, size) ==> {
                let (a, b) = #[trigger] chunk_span(total, size, k);
                0 <= a < b <= total && b - a <= size
            },
        forall|k: nat|
            k + 1 < chunk_count(total, size) ==> #[trigger] chunk_span(total, size, k + 1).0
                == chunk_span(total, size, k).1,
{
    let n = chunk_count(total, size);
    assert(n == (total + size - 1) / size as int);
    if total == 0 {
        assert((size - 1) / size as int == 0) by (nonlinear_arith)
            requires
                size > 0,
        ;
    } else {
        assert(n >= 1 && (n - 1) * size < total && total <= n * size) by (nonlinear_arith)
            requires
                n == (total + size - 1) / size as int,
                size > 0,
                total > 0,
        ;
        assert(((n - 1) as nat) * size + size == n * size) by (nonlinear_arith)
            requires
                n >= 1,
        ;
    }
    assert forall|k: nat| k < chunk_count(total, size) implies {
        let (a, b) = #[trigger] chunk_span(total, size, k);
        0 <= a < b <= total && b - a <= size
    } by {
        assert(k * size < total) by (nonlinear_arith)
            requires
                k < n,
                n == (total + size - 1) / size as int,
                size > 0,
        ;
    }
    assert forall|k: nat| k + 1 < chunk_count(total, size) implies #[trigger] chunk_span(
        total,
        size,
        k + 1,
    ).0 == chunk_span(total, size, k).1 by {
        assert((k + 1) * size == k * size + size) by (nonlinear_arith);
        assert((k + 1) * size < total) by (nonlinear_arith)
            requires
                k + 1 < n,
                n == (total + size - 1) / size as int,
                size > 0,
        ;
    }
}

} // verus!
