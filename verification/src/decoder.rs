//! The pull-based sample source: a decoder state machine with bounded error
//! recovery, end-of-stream detection and coarse seek semantics.
//!
//! Demuxing and decompression are outside collaborators: a real stream is
//! driven through a handful of trusted wrappers around the decoding crate,
//! while a synthetic (scripted) source runs the very same verified state
//! machine on a prepared sequence of outcomes.

use vstd::prelude::*;

verus! {

/// Decode failures are retried at most this many times in a row.
pub const RETRY_LIMIT: u8 = 3;

/// An end-of-input signal within this distance of the expected duration is
/// taken as the true end of the stream; farther away it is treated as a
/// transient fault and retried.
pub const TOLERANCE_MS: u64 = 1000;

/// Fetch rounds one pull may spend before the source gives up and finishes.
/// This keeps the retry loop bounded even when short failure bursts keep
/// resetting the error counter.
pub const PACKET_ROUNDS: u8 = 8;

/// Error returned when a stream cannot be opened for playback.
#[derive(Clone, Copy, Debug, PartialEq, Eq, Structural)]
pub enum OpenError {
    /// The container or codec is unsupported or the stream is malformed.
    Unsupported,
    /// The stream declares no usable time base, so positions cannot be kept.
    MissingTimeBase,
    /// The stream declares no sample rate.
    MissingSampleRate,
}

#[verifier::external_type_specification]
#[verifier::external_body]
pub struct ExPacket(symphonia::core::formats::Packet);

/// The demuxer and codec of an open stream, as one opaque handle.
///
/// The outside crate hands these out as boxed trait objects, which cannot be
/// declared to the verifier one by one, so the pair is hidden behind a
/// single trusted struct and reached only through the wrappers below.
#[verifier::external_body]
pub(crate) struct MediaBackend {
    reader: Box<dyn symphonia::core::formats::FormatReader>,
    decoder: Box<dyn symphonia::core::codecs::Decoder>,
}

/// The parameters of the default track of a probed stream.
#[derive(Clone, Copy, Debug)]
pub struct StreamInfo {
    /// Identifier of the track within its container.
    pub track_id: u32,
    /// Timestamp of the first frame, in time-base units.
    pub start_ts: u64,
    /// Length of the stream in frames, where the container declares it.
    pub n_frames: Option<u64>,
    /// Seconds per timestamp unit, as a `(numerator, denominator)` pair.
    pub time_base: Option<(u32, u32)>,
    /// Sample rate in Hz, where the container declares it.
    pub sample_rate: Option<u32>,
}

/// What probing a byte stream yields: probing is a pure function of the
/// bytes, so its result carries a name that contracts can share.
pub uninterp spec fn probe_of(data: Seq<u8>) -> Option<StreamInfo>;

/// Which result opening a probed stream owes: the probe must succeed and
/// the track must declare a non-degenerate time base and a sample rate.
pub open spec fn open_check(probed: Option<StreamInfo>) -> Result<StreamInfo, OpenError> {
    match probed {
        None => Err(OpenError::Unsupported),
        Some(info) => {
            if !(info.time_base matches Some(tb) && tb.0 > 0 && tb.1 > 0) {
                Err(OpenError::MissingTimeBase)
            } else if info.sample_rate is None {
                Err(OpenError::MissingSampleRate)
            } else {
                Ok(info)
            }
        }
    }
}

/// Relies on symphonia's probe and codec registry: probing a byte stream
/// either resolves the default track's parameters and a working demuxer and
/// decoder pair, or fails; the outcome depends on the bytes alone.
#[verifier::external_body]
fn backend_open(data: Vec<u8>) -> (r: Option<(MediaBackend, StreamInfo)>)
    ensures
        r is Some <==> probe_of(data@) is Some,
        r matches Some(p) ==> Some(p.1) == probe_of(data@),
{
    let mss = symphonia::core::io::MediaSourceStream::new(
        Box::new(std::io::Cursor::new(data)), Default::default());
    let probed = symphonia::default::get_probe()
        .format(&Default::default(), mss, &Default::default(), &Default::default())
        .ok()?;
    let track = probed.format.default_track()?;
    let decoder = symphonia::default::get_codecs()
        .make(&track.codec_params, &Default::default())
        .ok()?;
    let p = &track.codec_params;
    let info = StreamInfo { track_id: track.id, start_ts: p.start_ts, n_frames: p.n_frames,
        time_base: p.time_base.map(|t| (t.numer, t.denom)), sample_rate: p.sample_rate };
    Some((MediaBackend { reader: probed.format, decoder }, info))
}

/// How one read of the container ended, short of decoding.
enum ReadError {
    /// The input signalled end of stream.
    EndOfInput,
    /// Any other read failure.
    Other,
}

/// Relies on `FormatReader::next_packet`: reads the next packet of the
/// container, telling an end-of-input signal apart from other failures.
#[verifier::external_body]
fn backend_next_packet(b: &mut MediaBackend) -> (r: Result<symphonia::core::formats::Packet, ReadError>)
{
    match b.reader.next_packet() {
        Ok(p) => Ok(p),
        Err(symphonia::core::errors::Error::IoError(e))
            if e.kind() == std::io::ErrorKind::UnexpectedEof => {
            Err(ReadError::EndOfInput)
        }
        Err(_) => Err(ReadError::Other),
    }
}

pub assume_specification[ symphonia::core::formats::Packet::ts ](p: &symphonia::core::formats::Packet) -> u64;

/// Relies on `Decoder::decode` and `SampleBuffer::copy_interleaved_ref`:
/// decodes one packet and converts the audio to interleaved 32-bit samples;
/// a codec failure yields `None`.
#[verifier::external_body]
fn backend_decode(b: &mut MediaBackend, p: &symphonia::core::formats::Packet) -> (r: Option<Vec<i32>>)
{
    match b.decoder.decode(p) {
        Ok(decoded) => {
            let mut buf = symphonia::core::audio::SampleBuffer::<i32>::new(
                decoded.capacity() as u64, *decoded.spec());
            buf.copy_interleaved_ref(decoded);
            Some(buf.samples().to_vec())
        }
        Err(_) => None,
    }
}

/// Relies on `FormatReader::seek` in coarse mode: failures are deliberately
/// swallowed, so nothing is stated of the reader afterwards.
#[verifier::external_body]
fn backend_seek(b: &mut MediaBackend, track_id: u32, ts: u64)
{
    let _ = b.reader.seek(
        symphonia::core::formats::SeekMode::Coarse,
        symphonia::core::formats::SeekTo::TimeStamp { ts, track_id });
}

/// One outcome of asking the backend for the next decoded packet.
#[derive(Debug)]
pub enum FetchOutcome {
    /// A packet arrived with this timestamp, in time-base units; `decoded`
    /// is `None` when the codec failed on it.
    Packet { ts: u64, decoded: Option<Vec<i32>> },
    /// The input signalled end of stream.
    EndOfInput,
    /// Reading from the container failed for another reason.
    ReadFailure,
}

/// Where packets come from: a real stream, or a prepared script of
/// outcomes, consumed front to back, for synthetic sources.
enum PacketBackend {
    Media(MediaBackend),
    Script(Vec<FetchOutcome>),
}

/// Converts a timestamp in time-base units to milliseconds, saturating.
pub open spec fn ticks_to_ms_spec(ts: int, numer: int, denom: int) -> int
    recommends
        denom > 0,
{
    let exact = (ts * numer * 1000) / denom;
    if exact > u64::MAX as int {
        u64::MAX as int
    } else {
        exact
    }
}

/// Converts milliseconds to timestamp units, rounding down and saturating.
pub open spec fn ms_to_ticks_spec(ms: int, numer: int, denom: int) -> int
    recommends
        numer > 0,
        denom > 0,
{
    let exact = (ms * denom) / (numer * 1000);
    if exact > u64::MAX as int {
        u64::MAX as int
    } else {
        exact
    }
}

fn ticks_to_ms(ts: u64, numer: u32, denom: u32) -> (r: u64)
    requires
        denom > 0,
    ensures
        r == ticks_to_ms_spec(ts as int, numer as int, denom as int),
{
    proof {
        assert((ts as int) * (numer as int) * 1000 <= (u64::MAX as int) * (u32::MAX as int) * 1000)
            by (nonlinear_arith)
            requires
                ts <= u64::MAX,
                numer <= u32::MAX,
        ;
    }
    let q: u128 = (ts as u128) * (numer as u128) * 1000 / (denom as u128);
    if q > u64::MAX as u128 {
        u64::MAX
    } else {
        q as u64
    }
}

fn ms_to_ticks(ms: u64, numer: u32, denom: u32) -> (r: u64)
    requires
        numer > 0,
        denom > 0,
    ensures
        r == ms_to_ticks_spec(ms as int, numer as int, denom as int),
{
    proof {
        assert((ms as int) * (denom as int) <= (u64::MAX as int) * (u32::MAX as int))
            by (nonlinear_arith)
            requires
                ms <= u64::MAX,
                denom <= u32::MAX,
        ;
    }
    let q: u128 = (ms as u128) * (denom as u128) / ((numer as u128) * 1000);
    if q > u64::MAX as u128 {
        u64::MAX
    } else {
        q as u64
    }
}

/// The sample source: pulls decoded samples one at a time, recovering from
/// a bounded number of decode errors, and detecting the end of the stream.
pub struct Symphonia {
    backend: PacketBackend,
    track_id: u32,
    tb_numer: u32,
    tb_denom: u32,
    rate: u32,
    duration_known: bool,
    duration_ms: u64,
    elapsed_ms: u64,
    error_count: u8,
    finished: bool,
    buffer: Vec<i32>,
    pos: usize,
}

impl Symphonia {
    /// Whether the source has reached its final state.
    pub closed spec fn finished(self) -> bool {
        self.finished
    }

    /// Decode errors seen in a row without a successful packet.
    pub closed spec fn error_count(self) -> u8 {
        self.error_count
    }

    /// The position reported by the newest decoded packet, in milliseconds.
    pub closed spec fn elapsed_ms(self) -> u64 {
        self.elapsed_ms
    }

    /// Whether the container declared the stream's length.
    pub closed spec fn duration_known(self) -> bool {
        self.duration_known
    }

    /// The expected duration in milliseconds; meaningful only when known.
    pub closed spec fn duration_ms(self) -> u64 {
        self.duration_ms
    }

    /// Samples decoded but not yet handed out.
    pub closed spec fn buffered(self) -> Seq<i32> {
        self.buffer@.skip(self.pos as int)
    }

    /// The numerator of the stream's time base.
    pub closed spec fn tb_numer(self) -> u32 {
        self.tb_numer
    }

    /// The denominator of the stream's time base.
    pub closed spec fn tb_denom(self) -> u32 {
        self.tb_denom
    }

    /// The declared sample rate in Hz.
    pub closed spec fn rate(self) -> u32 {
        self.rate
    }

    /// Whether this source runs on a script instead of a real stream.
    pub closed spec fn is_script(self) -> bool {
        self.backend is Script
    }

    /// The outcomes a scripted source has not consumed yet.
    pub closed spec fn script_rem(self) -> Seq<FetchOutcome> {
        self.backend->Script_0@
    }

    /// How a freshly opened stream relates to its probed parameters.
    pub open spec fn matches_info(self, info: StreamInfo) -> bool {
        &&& info.time_base matches Some(tb)
            && self.tb_numer() == tb.0 && self.tb_denom() == tb.1
        &&& info.sample_rate matches Some(sr) && self.rate() == sr
        &&& self.wf()
        &&& !self.finished()
        &&& self.error_count() == 0
        &&& self.elapsed_ms() == 0
        &&& self.buffered().len() == 0
        &&& !self.is_script()
        &&& self.duration_known() == (info.n_frames is Some)
        &&& (info.n_frames matches Some(nf) ==> self.duration_ms() == ticks_to_ms_spec(
                if info.start_ts + nf <= u64::MAX as int { info.start_ts + nf }
                else { u64::MAX as int },
                self.tb_numer() as int, self.tb_denom() as int))
    }

    /// Internal consistency of the source.
    pub closed spec fn wf(self) -> bool {
        &&& self.tb_numer > 0
        &&& self.tb_denom > 0
        &&& self.pos <= self.buffer.len()
        &&& self.error_count <= RETRY_LIMIT
        &&& (self.duration_known ==> self.elapsed_ms as int
            <= self.duration_ms as int + TOLERANCE_MS as int)
    }

    /// Opens a stream from its raw bytes.
    ///
    /// Succeeds exactly when probing resolves a default track that declares
    /// a non-degenerate time base and a sample rate.
    pub fn new(data: Vec<u8>) -> (r: Result<Symphonia, OpenError>)
        ensures
            r is Ok <==> open_check(probe_of(data@)) is Ok,
            r matches Err(e) ==> open_check(probe_of(data@)) == Err::<StreamInfo, OpenError>(e),
            r matches Ok(s) ==> probe_of(data@) matches Some(info)
                && s.matches_info(info),
    {
        let (backend, info) = match backend_open(data) {
            Some(p) => p,
            None => { return Err(OpenError::Unsupported); }
        };
        let (numer, denom) = match info.time_base {
            Some(tb) => tb,
            None => { return Err(OpenError::MissingTimeBase); }
        };
        if numer == 0 || denom == 0 {
            return Err(OpenError::MissingTimeBase);
        }
        let rate = match info.sample_rate {
            Some(sr) => sr,
            None => { return Err(OpenError::MissingSampleRate); }
        };
        let (duration_known, duration_ms) = match info.n_frames {
            Some(nf) => {
                let end_ts = if info.start_ts <= u64::MAX - nf {
                    info.start_ts + nf
                } else {
                    u64::MAX
                };
                (true, ticks_to_ms(end_ts, numer, denom))
            }
            None => (false, 0u64),
        };
        Ok(Symphonia {
            backend: PacketBackend::Media(backend),
            track_id: info.track_id,
            tb_numer: numer,
            tb_denom: denom,
            rate,
            duration_known,
            duration_ms,
            elapsed_ms: 0,
            error_count: 0,
            finished: false,
            buffer: Vec::new(),
            pos: 0,
        })
    }

    /// Builds a synthetic source that replays `steps` in order, reporting
    /// timestamps in milliseconds (its time base is one millisecond).
    pub fn scripted(steps: Vec<FetchOutcome>, duration_ms: Option<u64>, rate: u32) -> (s: Symphonia)
        ensures
            s.wf(),
            s.is_script(),
            s.script_rem() == steps@,
            !s.finished(),
            s.error_count() == 0,
            s.elapsed_ms() == 0,
            s.buffered().len() == 0,
            s.duration_known() == (duration_ms is Some),
            duration_ms matches Some(d) ==> s.duration_ms() == d,
            s.rate() == rate,
            s.tb_numer() == 1 && s.tb_denom() == 1000,
    {
        let (duration_known, dur) = match duration_ms {
            Some(d) => (true, d),
            None => (false, 0u64),
        };
        Symphonia {
            backend: PacketBackend::Script(steps),
            track_id: 0,
            tb_numer: 1,
            tb_denom: 1000,
            rate,
            duration_known,
            duration_ms: dur,
            elapsed_ms: 0,
            error_count: 0,
            finished: false,
            buffer: Vec::new(),
            pos: 0,
        }
    }

    /// Whether the source has reached its final state.
    pub fn is_finished(&self) -> (r: bool)
        ensures
            r == self.finished(),
    {
        self.finished
    }

    /// The declared sample rate of the stream, in Hz.
    pub fn sample_rate(&self) -> (r: u32)
        ensures
            r == self.rate(),
    {
        self.rate
    }

    /// The newest decoded position in milliseconds.
    pub fn elapsed_millis(&self) -> (r: u64)
        ensures
            r == self.elapsed_ms(),
    {
        self.elapsed_ms
    }

    /// The expected duration in milliseconds, where the container declared
    /// one; `None` flags an unknown-duration stream.
    pub fn duration_millis(&self) -> (r: Option<u64>)
        ensures
            self.duration_known() ==> r == Some(self.duration_ms()),
            !self.duration_known() ==> r is None,
    {
        if self.duration_known {
            Some(self.duration_ms)
        } else {
            None
        }
    }
}

impl Symphonia {
    /// Asks the backend for one fetch outcome.  Only the backend advances:
    /// every logical field of the state machine is left as it was.
    fn fetch(&mut self) -> (r: FetchOutcome)
        requires
            old(self).wf(),
        ensures
            final(self).wf(),
            same_stream(*old(self), *final(self)),
            final(self).error_count() == old(self).error_count(),
            final(self).finished() == old(self).finished(),
            final(self).elapsed_ms() == old(self).elapsed_ms(),
            final(self).buffered() == old(self).buffered(),
            old(self).is_script() && old(self).script_rem().len() == 0 ==> r is EndOfInput
                && final(self).script_rem() == old(self).script_rem(),
            old(self).is_script() && old(self).script_rem().len() > 0 ==> r
                == old(self).script_rem()[0]
                && final(self).script_rem() =~= old(self).script_rem().skip(1),
    {
        match &mut self.backend {
            PacketBackend::Script(steps) => {
                if steps.len() > 0 {
                    let r = steps.remove(0);
                    proof {
                        assert(steps@ =~= old(self).script_rem().skip(1));
                    }
                    r
                } else {
                    FetchOutcome::EndOfInput
                }
            }
            PacketBackend::Media(b) => {
                match backend_next_packet(b) {
                    Ok(p) => {
                        let ts = p.ts();
                        let decoded = backend_decode(b, &p);
                        FetchOutcome::Packet { ts, decoded }
                    }
                    Err(ReadError::EndOfInput) => FetchOutcome::EndOfInput,
                    Err(ReadError::Other) => FetchOutcome::ReadFailure,
                }
            }
        }
    }

    /// Records one recoverable failure.  Returns whether the pull may keep
    /// retrying; exceeding the retry bound finishes the source instead.
    fn note_failure(&mut self) -> (keep_going: bool)
        requires
            old(self).wf(),
            !old(self).finished(),
        ensures
            final(self).wf(),
            same_stream(*old(self), *final(self)),
            final(self).elapsed_ms() == old(self).elapsed_ms(),
            final(self).buffered() == old(self).buffered(),
            final(self).is_script() ==> final(self).script_rem() == old(self).script_rem(),
            old(self).error_count() < RETRY_LIMIT ==> keep_going
                && final(self).error_count() == old(self).error_count() + 1
                && !final(self).finished(),
            old(self).error_count() >= RETRY_LIMIT ==> !keep_going
                && final(self).error_count() == old(self).error_count()
                && final(self).finished(),
    {
        if self.error_count >= RETRY_LIMIT {
            self.finished = true;
            false
        } else {
            self.error_count = self.error_count + 1;
            true
        }
    }
}

/// The state one pull of `next_packet` leaves a scripted source in.
pub ghost struct PacketRound {
    /// The script entries not consumed yet.
    pub rem: Seq<FetchOutcome>,
    /// Failures recorded in a row.
    pub error_count: int,
    /// The decoded position in milliseconds.
    pub elapsed_ms: int,
    /// Whether the source reached its final state.
    pub finished: bool,
    /// The samples the pull delivered, if any.
    pub delivered: Option<Seq<i32>>,
}

/// What one pull of `next_packet` does to a scripted source: one recursion
/// step per fetch round, mirroring the bounded retry loop.
pub open spec fn packet_model(
    rem: Seq<FetchOutcome>,
    err: int,
    elapsed: int,
    budget: int,
    dur_known: bool,
    dur: int,
    numer: int,
    denom: int,
) -> PacketRound
    decreases budget,
    when budget >= 0
{
    if budget == 0 {
        PacketRound { rem, error_count: err, elapsed_ms: elapsed, finished: true, delivered: None }
    } else {
        let step = if rem.len() == 0 { FetchOutcome::EndOfInput } else { rem[0] };
        let rem2 = if rem.len() == 0 { rem } else { rem.skip(1) };
        match step {
            FetchOutcome::Packet { ts, decoded } => {
                let ms = ticks_to_ms_spec(ts as int, numer, denom);
                if dur_known && ms > dur + TOLERANCE_MS {
                    PacketRound {
                        rem: rem2, error_count: 0, elapsed_ms: elapsed,
                        finished: true, delivered: None,
                    }
                } else {
                    match decoded {
                        Some(s) => if s@.len() > 0 {
                            PacketRound {
                                rem: rem2, error_count: 0, elapsed_ms: ms,
                                finished: false, delivered: Some(s@),
                            }
                        } else {
                            packet_model(rem2, 1, ms, budget - 1, dur_known, dur, numer, denom)
                        },
                        None => packet_model(rem2, 1, ms, budget - 1, dur_known, dur, numer, denom),
                    }
                }
            }
            FetchOutcome::EndOfInput => {
                if !dur_known || elapsed + TOLERANCE_MS > dur {
                    PacketRound {
                        rem: rem2, error_count: err, elapsed_ms: elapsed,
                        finished: true, delivered: None,
                    }
                } else if err >= RETRY_LIMIT {
                    PacketRound {
                        rem: rem2, error_count: err, elapsed_ms: elapsed,
                        finished: true, delivered: None,
                    }
                } else {
                    packet_model(rem2, err + 1, elapsed, budget - 1, dur_known, dur, numer, denom)
                }
            }
            FetchOutcome::ReadFailure => {
                if err >= RETRY_LIMIT {
                    PacketRound {
                        rem: rem2, error_count: err, elapsed_ms: elapsed,
                        finished: true, delivered: None,
                    }
                } else {
                    packet_model(rem2, err + 1, elapsed, budget - 1, dur_known, dur, numer, denom)
                }
            }
        }
    }
}

/// The model of a whole pull on a scripted source, started with a full
/// round budget.
pub open spec fn pull_model(s: Symphonia) -> PacketRound {
    packet_model(
        s.script_rem(), s.error_count() as int, s.elapsed_ms() as int,
        PACKET_ROUNDS as int, s.duration_known(), s.duration_ms() as int,
        s.tb_numer() as int, s.tb_denom() as int,
    )
}

impl Symphonia {
    /// Pulls the next decoded packet of samples.
    ///
    /// Fails soft on decode errors up to the retry bound; exceeding it, or
    /// an end-of-input signal close to the expected duration (or on a
    /// stream of unknown duration), finishes the source.  An end-of-input
    /// signal far from the expected duration is treated as transient and
    /// retried.  On a scripted source the call follows `pull_model` exactly.
    pub fn next_packet(&mut self) -> (r: Option<Vec<i32>>)
        requires
            old(self).wf(),
        ensures
            final(self).wf(),
            same_stream(*old(self), *final(self)),
            final(self).buffered() == old(self).buffered(),
            r is None ==> final(self).finished(),
            r matches Some(v) ==> !final(self).finished()
                && final(self).error_count() == 0 && v@.len() > 0,
            old(self).finished() ==> r is None && *final(self) == *old(self),
            old(self).is_script() && !old(self).finished() ==> ({
                let m = pull_model(*old(self));
                &&& final(self).script_rem() == m.rem
                &&& final(self).error_count() as int == m.error_count
                &&& final(self).elapsed_ms() as int == m.elapsed_ms
                &&& final(self).finished() == m.finished
                &&& r.deep_view() == m.delivered
            }),
    {
        if self.finished {
            return None;
        }
        let mut budget: u8 = PACKET_ROUNDS;
        loop
            invariant
                self.wf(),
                !self.finished,
                !old(self).finished(),
                budget <= PACKET_ROUNDS,
                same_stream(*old(self), *self),
                self.buffered() == old(self).buffered(),
                self.is_script() ==> packet_model(
                    self.script_rem(), self.error_count() as int, self.elapsed_ms() as int,
                    budget as int, self.duration_known(), self.duration_ms() as int,
                    self.tb_numer() as int, self.tb_denom() as int,
                ) == pull_model(*old(self)),
            decreases budget,
        {
            if budget == 0 {
                self.finished = true;
                return None;
            }
            budget = budget - 1;
            match self.fetch() {
                FetchOutcome::Packet { ts, decoded } => {
                    self.error_count = 0;
                    let ms = ticks_to_ms(ts, self.tb_numer, self.tb_denom);
                    if self.duration_known && ms > self.duration_ms
                        && ms - self.duration_ms > TOLERANCE_MS {
                        self.finished = true;
                        return None;
                    }
                    self.elapsed_ms = ms;
                    match decoded {
                        Some(samples) => {
                            if samples.len() > 0 {
                                return Some(samples);
                            } else if !self.note_failure() {
                                return None;
                            }
                        }
                        None => {
                            if !self.note_failure() {
                                return None;
                            }
                        }
                    }
                }
                FetchOutcome::EndOfInput => {
                    if !self.duration_known || self.elapsed_ms >= self.duration_ms
                        || self.duration_ms - self.elapsed_ms < TOLERANCE_MS {
                        self.finished = true;
                        return None;
                    } else if !self.note_failure() {
                        return None;
                    }
                }
                FetchOutcome::ReadFailure => {
                    if !self.note_failure() {
                        return None;
                    }
                }
            }
        }
    }

    /// Pulls one sample.  Serves the buffered packet first, fetching the
    /// next packet when it is exhausted; answers `None` only when the
    /// source is finished.
    pub fn next_sample(&mut self) -> (r: Option<i32>)
        requires
            old(self).wf(),
        ensures
            final(self).wf(),
            same_stream(*old(self), *final(self)),
            old(self).buffered().len() > 0 ==> ({
                &&& r == Some(old(self).buffered()[0])
                &&& final(self).buffered() == old(self).buffered().skip(1)
                &&& final(self).finished() == old(self).finished()
                &&& final(self).error_count() == old(self).error_count()
                &&& final(self).elapsed_ms() == old(self).elapsed_ms()
                &&& (final(self).is_script() ==> final(self).script_rem()
                    == old(self).script_rem())
            }),
            r is None ==> final(self).finished() && final(self).buffered().len() == 0,
            old(self).finished() && old(self).buffered().len() == 0 ==> r is None,
            old(self).is_script() && !old(self).finished()
                && old(self).buffered().len() == 0 ==> ({
                let m = pull_model(*old(self));
                &&& final(self).script_rem() == m.rem
                &&& final(self).error_count() as int == m.error_count
                &&& final(self).elapsed_ms() as int == m.elapsed_ms
                &&& final(self).finished() == m.finished
                &&& (m.delivered matches Some(s) ==> r == Some(s[0])
                    && final(self).buffered() == s.skip(1))
                &&& (m.delivered is None ==> r is None)
            }),
    {
        if self.pos < self.buffer.len() {
            let s = self.buffer[self.pos];
            self.pos = self.pos + 1;
            proof {
                assert(self.buffered() =~= old(self).buffered().skip(1));
            }
            return Some(s);
        }
        self.pos = 0;
        self.buffer = Vec::new();
        match self.next_packet() {
            Some(samples) => {
                let s = samples[0];
                self.buffer = samples;
                self.pos = 1;
                proof {
                    assert(self.buffered() =~= self.buffer@.skip(1));
                }
                Some(s)
            }
            None => None,
        }
    }

    /// Seeks to a position in milliseconds.
    ///
    /// A target past the known duration short-circuits straight to the
    /// finished state, and no seek reaches the container.  Otherwise a
    /// coarse seek is requested, its failures are swallowed, and the
    /// position is force-set to the target either way.
    pub fn seek(&mut self, pos_ms: u64)
        requires
            old(self).wf(),
        ensures
            final(self).wf(),
            seek_post(*old(self), *final(self), pos_ms),
    {
        if self.duration_known && pos_ms > self.duration_ms {
            self.finished = true;
            return;
        }
        let ts = ms_to_ticks(pos_ms, self.tb_numer, self.tb_denom);
        let track_id = self.track_id;
        match &mut self.backend {
            PacketBackend::Media(b) => backend_seek(b, track_id, ts),
            PacketBackend::Script(_) => {}
        }
        self.elapsed_ms = pos_ms;
    }
}

proof fn lemma_retry_rec(
    steps: Seq<FetchOutcome>,
    n: int,
    ts: u64,
    samples: Vec<i32>,
    err: int,
    elapsed: int,
    budget: int,
    numer: int,
    denom: int,
)
    requires
        0 <= n < steps.len(),
        forall|i: int| 0 <= i < n ==> steps[i] is ReadFailure,
        steps[n] == (FetchOutcome::Packet { ts, decoded: Some(samples) }),
        samples@.len() > 0,
        0 <= err <= RETRY_LIMIT,
        numer > 0,
        denom > 0,
        budget > n,
        budget > RETRY_LIMIT as int - err,
    ensures
        ({
            let m = packet_model(steps, err, elapsed, budget, false, 0, numer, denom);
            &&& (err + n <= RETRY_LIMIT ==> m.delivered == Some(samples@)
                && !m.finished && m.error_count == 0
                && m.elapsed_ms == ticks_to_ms_spec(ts as int, numer, denom)
                && m.rem =~= steps.skip(n + 1))
            &&& (err + n > RETRY_LIMIT ==> m.delivered is None && m.finished
                && m.error_count == RETRY_LIMIT && m.elapsed_ms == elapsed)
        }),
    decreases n,
{
    if n == 0 {
    } else if err < RETRY_LIMIT {
        lemma_retry_rec(steps.skip(1), n - 1, ts, samples, err + 1, elapsed,
            budget - 1, numer, denom);
        assert(steps.skip(1).skip(n) =~= steps.skip(n + 1));
    }
}

/// Bounded-retry law: on a scripted source whose script fails `n` times in
/// a row and then delivers a decodable packet, a pull that starts with a
/// clean error counter succeeds exactly when `n` is within the retry
/// bound, and finishes the source instead when `n` exceeds it.
pub proof fn lemma_retry_bound(steps: Seq<FetchOutcome>, n: int, ts: u64, samples: Vec<i32>)
    requires
        0 <= n < steps.len(),
        n < PACKET_ROUNDS as int,
        forall|i: int| 0 <= i < n ==> steps[i] is ReadFailure,
        steps[n] == (FetchOutcome::Packet { ts, decoded: Some(samples) }),
        samples@.len() > 0,
    ensures
        ({
            let m = packet_model(steps, 0, 0, PACKET_ROUNDS as int, false, 0, 1, 1000);
            &&& (n <= RETRY_LIMIT as int ==> m.delivered == Some(samples@) && !m.finished)
            &&& (n > RETRY_LIMIT as int ==> m.delivered is None && m.finished)
        }),
{
    lemma_retry_rec(steps, n, ts, samples, 0, 0, PACKET_ROUNDS as int, 1, 1000);
}

/// Whether a seek to `pos_ms` asks for a position past the known duration;
/// such a seek short-circuits to the finished state and no seek reaches
/// the container.
pub open spec fn seek_past_end(pre: Symphonia, pos_ms: u64) -> bool {
    pre.duration_known() && pos_ms > pre.duration_ms()
}

/// What a seek does: past the known duration it only finishes the source;
/// otherwise the position is force-set to the target, whether or not the
/// container seeked exactly.  The buffered samples and the error counter
/// are left alone either way.
pub open spec fn seek_post(pre: Symphonia, post: Symphonia, pos_ms: u64) -> bool {
    &&& same_stream(pre, post)
    &&& post.error_count() == pre.error_count()
    &&& post.buffered() == pre.buffered()
    &&& (post.is_script() ==> post.script_rem() == pre.script_rem())
    &&& (seek_past_end(pre, pos_ms) ==> post.finished()
        && post.elapsed_ms() == pre.elapsed_ms())
    &&& (!seek_past_end(pre, pos_ms) ==> post.elapsed_ms() == pos_ms
        && post.finished() == pre.finished())
}

/// The stream-wide parameters two source states share: nothing but the
/// cursor-like fields may differ.
pub open spec fn same_stream(a: Symphonia, b: Symphonia) -> bool {
    &&& a.tb_numer() == b.tb_numer()
    &&& a.tb_denom() == b.tb_denom()
    &&& a.rate() == b.rate()
    &&& a.duration_known() == b.duration_known()
    &&& a.duration_ms() == b.duration_ms()
    &&& a.is_script() == b.is_script()
}

} // verus!
