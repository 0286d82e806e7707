//! A verified core for a desktop audio-playback engine.
//!
//! The crate models the real-time playback pipeline: a pull-based sample
//! source with error recovery and seek semantics, a cross-thread transport
//! state store with a single-writer-per-field discipline, and the timed
//! render loop that fills the hardware buffer.

use vstd::prelude::*;

mod decoder;
mod output;
mod rb;
mod thread_cell;

pub use decoder::lemma_retry_bound;
pub use decoder::open_check;
pub use decoder::packet_model;
pub use decoder::probe_of;
pub use decoder::pull_model;
pub use decoder::same_stream;
pub use decoder::seek_past_end;
pub use decoder::seek_post;
pub use decoder::ticks_to_ms_spec;
pub use decoder::FetchOutcome;
pub use decoder::OpenError;
pub use decoder::PacketRound;
pub use decoder::StreamInfo;
pub use decoder::Symphonia;
pub use decoder::PACKET_ROUNDS;
pub use decoder::RETRY_LIMIT;
pub use decoder::TOLERANCE_MS;
pub use output::frame_budget;
pub use output::scale_sample;
pub use output::scale_sample_spec;
pub use output::timing_drift_warning;
pub use output::underrun_risk_warning;
pub use output::FillResult;
pub use rb::RingBuffer;
pub use thread_cell::ThreadCell;
pub use thread_cell::WriteError;

verus! {

/// The tag of the control thread: the caller-driven, non-real-time writer.
pub const CONTROL_TAG: u64 = 1;

/// The tag of the render thread: the hardware-clocked writer.
pub const RENDER_TAG: u64 = 2;

/// Highest user-facing volume level.
pub const VOLUME_MAX: u8 = 100;

/// The gain scale: a gain of `GAIN_UNIT` multiplies by one.
pub const GAIN_UNIT: u16 = 1000;

/// Volume level a fresh player starts with.
pub const DEFAULT_VOLUME: u8 = 15;

/// Gain a fresh player starts with: half amplitude.
pub const DEFAULT_GAIN: u16 = 500;

/// Step of the relative seeks, in milliseconds.
pub const SEEK_STEP_MS: u64 = 10000;

/// Transport state of the playback engine.
///
/// Only the render loop may transition a player into `Finished`; only the
/// control thread may transition it into the other three states.
#[derive(Clone, Copy, Debug, PartialEq, Eq, Structural)]
pub enum State {
    Playing,
    Paused,
    Stopped,
    Finished,
}

/// The two playback scalars, kept in one cell so that a reader always
/// observes a pair that was written together.
#[derive(Clone, Copy, Debug, PartialEq, Eq, Structural)]
pub struct VolumeGain {
    /// User volume, `0..=100`.
    pub volume: u8,
    /// Loudness-normalisation gain in `GAIN_UNIT`ths.
    pub gain: u16,
}

/// Error returned by operations this engine deliberately does not offer.
#[derive(Clone, Copy, Debug, PartialEq, Eq, Structural)]
pub struct DeviceError;

/// The playback engine: the transport state store bridging the control
/// thread and the render thread, and the slot holding the sample source.
///
/// The control-surface methods write the store with `CONTROL_TAG`; the
/// render-side methods write with `RENDER_TAG`.  Well-formedness pins each
/// cell to its designated writer, so every write in the engine provably
/// respects the single-writer discipline.
pub struct Player {
    pub(crate) state: ThreadCell<State>,
    pub(crate) params: ThreadCell<VolumeGain>,
    pub(crate) finished: ThreadCell<bool>,
    pub(crate) source: Option<Symphonia>,
}

impl Player {
    /// The state the control thread last set (never `Finished`).
    pub closed spec fn control_state(self) -> State {
        self.state.value()
    }

    /// Whether the render loop has flagged the source as exhausted.
    pub closed spec fn finished_flag(self) -> bool {
        self.finished.value()
    }

    /// The volume/gain pair.
    pub closed spec fn params_pair(self) -> VolumeGain {
        self.params.value()
    }

    /// The user volume level.
    pub open spec fn volume_level(self) -> u8 {
        self.params_pair().volume
    }

    /// The loudness-normalisation gain.
    pub open spec fn gain_level(self) -> u16 {
        self.params_pair().gain
    }

    /// The loaded sample source, if a track is loaded.
    pub closed spec fn session(self) -> Option<Symphonia> {
        self.source
    }

    /// The transport state: `Finished` once the render loop has flagged
    /// exhaustion, otherwise whatever the control thread last set.
    pub open spec fn transport(self) -> State {
        if self.finished_flag() {
            State::Finished
        } else {
            self.control_state()
        }
    }

    /// Well-formedness: each cell admits only its designated writer, the
    /// scalars are in range, and the source is internally consistent.
    pub closed spec fn wf(self) -> bool {
        &&& self.state.may_write(CONTROL_TAG)
        &&& self.params.may_write(CONTROL_TAG)
        &&& self.finished.may_write(RENDER_TAG)
        &&& self.control_state() != State::Finished
        &&& self.volume_level() <= VOLUME_MAX
        &&& self.gain_level() <= GAIN_UNIT
        &&& (self.session() matches Some(s) ==> s.wf())
    }

    /// Creates a stopped player with the default volume and gain and no
    /// track loaded.
    pub fn new() -> (p: Player)
        ensures
            p.wf(),
            p.transport() == State::Stopped,
            p.control_state() == State::Stopped,
            !p.finished_flag(),
            p.volume_level() == DEFAULT_VOLUME,
            p.gain_level() == DEFAULT_GAIN,
            p.session() is None,
    {
        Player {
            state: ThreadCell::new(State::Stopped),
            params: ThreadCell::new(VolumeGain { volume: DEFAULT_VOLUME, gain: DEFAULT_GAIN }),
            finished: ThreadCell::new(false),
            source: None,
        }
    }

    /// Clears the finished flag around a control-thread reconfiguration:
    /// write ownership of the render-owned cell is taken over explicitly
    /// and handed back at once, so the render thread can claim it again.
    fn reset_finished(&mut self)
        ensures
            final(self).finished.value() == false,
            final(self).finished.writer() is None,
            final(self).state == old(self).state,
            final(self).params == old(self).params,
            final(self).source == old(self).source,
    {
        self.finished.reset_thread();
        let _ = self.finished.write(CONTROL_TAG, false);
        self.finished.reset_thread();
    }

    /// The transport state, as any thread may read it.
    pub fn state(&self) -> (r: State)
        ensures
            r == self.transport(),
    {
        if *self.finished.read() {
            State::Finished
        } else {
            *self.state.read()
        }
    }

    /// Starts or resumes playback; a fresh source will be pulled again
    /// even after the previous one finished.
    pub fn play(&mut self)
        requires
            old(self).wf(),
        ensures
            final(self).wf(),
            final(self).transport() == State::Playing,
            final(self).control_state() == State::Playing,
            !final(self).finished_flag(),
            final(self).params_pair() == old(self).params_pair(),
            final(self).session() == old(self).session(),
    {
        let _ = self.state.write(CONTROL_TAG, State::Playing);
        self.reset_finished();
    }

    /// Pauses playback; a transition into `Paused` is made only from
    /// `Playing`, so pausing a stopped or finished player changes nothing
    /// the transport view shows.
    pub fn pause(&mut self)
        requires
            old(self).wf(),
        ensures
            final(self).wf(),
            old(self).control_state() == State::Playing ==> final(self).control_state()
                == State::Paused,
            old(self).control_state() != State::Playing ==> final(self).control_state()
                == old(self).control_state(),
            final(self).finished_flag() == old(self).finished_flag(),
            final(self).params_pair() == old(self).params_pair(),
            final(self).session() == old(self).session(),
    {
        if *self.state.read() == State::Playing {
            let _ = self.state.write(CONTROL_TAG, State::Paused);
        }
    }

    /// Stops playback and clears the session.
    pub fn stop(&mut self)
        requires
            old(self).wf(),
        ensures
            final(self).wf(),
            final(self).transport() == State::Stopped,
            !final(self).finished_flag(),
            final(self).session() is None,
            final(self).params_pair() == old(self).params_pair(),
    {
        let _ = self.state.write(CONTROL_TAG, State::Stopped);
        self.reset_finished();
        self.source = None;
    }

    /// Toggles between `Playing` and `Paused`; other states are left as
    /// they are.
    pub fn toggle_playback(&mut self)
        requires
            old(self).wf(),
        ensures
            final(self).wf(),
            old(self).transport() == State::Playing ==> final(self).transport() == State::Paused,
            old(self).transport() == State::Paused ==> final(self).transport() == State::Playing,
            old(self).transport() != State::Playing && old(self).transport() != State::Paused
                ==> final(self).transport() == old(self).transport(),
            final(self).params_pair() == old(self).params_pair(),
            final(self).session() == old(self).session(),
    {
        match self.state() {
            State::Playing => self.pause(),
            State::Paused => self.play(),
            _ => {}
        }
    }

    /// Loads a new track from its raw bytes, replacing any current
    /// session, and starts it playing or paused as `start` says.  On
    /// failure the playback state is left unchanged.
    pub fn play_song(&mut self, data: Vec<u8>, start: bool) -> (r: Result<(), OpenError>)
        requires
            old(self).wf(),
        ensures
            final(self).wf(),
            r is Ok <==> open_check(probe_of(data@)) is Ok,
            r matches Err(e) ==> open_check(probe_of(data@)) == Err::<StreamInfo, OpenError>(e)
                && *final(self) == *old(self),
            r is Ok ==> ({
                &&& final(self).session() matches Some(s)
                    && (probe_of(data@) matches Some(info) && s.matches_info(info))
                &&& final(self).transport() == if start { State::Playing } else { State::Paused }
                &&& !final(self).finished_flag()
                &&& final(self).params_pair() == old(self).params_pair()
            }),
    {
        match Symphonia::new(data) {
            Ok(src) => {
                self.play_source(src, start);
                Ok(())
            }
            Err(e) => Err(e),
        }
    }

    /// Installs an already-built sample source — decoded media or a
    /// synthetic one — replacing any current session, and starts it
    /// playing or paused as `start` says.
    pub fn play_source(&mut self, source: Symphonia, start: bool)
        requires
            old(self).wf(),
            source.wf(),
        ensures
            final(self).wf(),
            final(self).session() == Some(source),
            final(self).transport() == if start { State::Playing } else { State::Paused },
            !final(self).finished_flag(),
            final(self).params_pair() == old(self).params_pair(),
    {
        let next = if start { State::Playing } else { State::Paused };
        let _ = self.state.write(CONTROL_TAG, next);
        self.reset_finished();
        self.source = Some(source);
    }

    /// Sets the user volume; the gain half of the pair is kept.
    pub fn set_volume(&mut self, volume: u8)
        requires
            old(self).wf(),
            volume <= VOLUME_MAX,
        ensures
            final(self).wf(),
            final(self).volume_level() == volume,
            final(self).gain_level() == old(self).gain_level(),
            final(self).control_state() == old(self).control_state(),
            final(self).finished_flag() == old(self).finished_flag(),
            final(self).session() == old(self).session(),
    {
        let gain = self.params.read().gain;
        let _ = self.params.write(CONTROL_TAG, VolumeGain { volume, gain });
    }

    /// The user volume, read back exactly as it was set.
    pub fn volume(&self) -> (r: u8)
        ensures
            r == self.volume_level(),
    {
        self.params.read().volume
    }

    /// Raises the volume one step, capped at the maximum.
    pub fn volume_up(&mut self)
        requires
            old(self).wf(),
        ensures
            final(self).wf(),
            final(self).volume_level() == if old(self).volume_level() + 5 <= VOLUME_MAX
                { old(self).volume_level() + 5 } else { VOLUME_MAX as int },
            final(self).gain_level() == old(self).gain_level(),
            final(self).control_state() == old(self).control_state(),
            final(self).finished_flag() == old(self).finished_flag(),
            final(self).session() == old(self).session(),
    {
        let v = self.volume();
        let next = if v <= VOLUME_MAX - 5 { v + 5 } else { VOLUME_MAX };
        self.set_volume(next);
    }

    /// Lowers the volume one step, clamped at zero.
    pub fn volume_down(&mut self)
        requires
            old(self).wf(),
        ensures
            final(self).wf(),
            final(self).volume_level() == if old(self).volume_level() >= 5
                { old(self).volume_level() - 5 } else { 0int },
            final(self).gain_level() == old(self).gain_level(),
            final(self).control_state() == old(self).control_state(),
            final(self).finished_flag() == old(self).finished_flag(),
            final(self).session() == old(self).session(),
    {
        let v = self.volume();
        let next = if v >= 5 { v - 5 } else { 0 };
        self.set_volume(next);
    }

    /// The position of the newest decoded packet, in milliseconds; zero
    /// when no track is loaded.
    pub fn elapsed(&self) -> (r: u64)
        ensures
            self.session() matches Some(s) ==> r == s.elapsed_ms(),
            self.session() is None ==> r == 0,
    {
        match &self.source {
            Some(s) => s.elapsed_millis(),
            None => 0,
        }
    }

    /// The expected duration in milliseconds; `None` when no track is
    /// loaded or the stream does not declare its length.
    pub fn duration(&self) -> (r: Option<u64>)
        ensures
            self.session() matches Some(s) ==> r == (if s.duration_known() {
                Some(s.duration_ms())
            } else {
                None::<u64>
            }),
            self.session() is None ==> r is None,
    {
        match &self.source {
            Some(s) => s.duration_millis(),
            None => None,
        }
    }

    /// Whether the render loop has flagged the source as exhausted.
    pub fn is_finished(&self) -> (r: bool)
        ensures
            r == self.finished_flag(),
    {
        *self.finished.read()
    }

    /// Seeks the loaded source to a position in milliseconds; with no
    /// session this is a no-op.
    pub fn seek(&mut self, pos_ms: u64)
        requires
            old(self).wf(),
        ensures
            final(self).wf(),
            old(self).session() is None ==> *final(self) == *old(self),
            old(self).session() matches Some(s) ==> final(self).session() matches Some(s2)
                && seek_post(s, s2, pos_ms),
            final(self).control_state() == old(self).control_state(),
            final(self).finished_flag() == old(self).finished_flag(),
            final(self).params_pair() == old(self).params_pair(),
    {
        match &mut self.source {
            Some(src) => src.seek(pos_ms),
            None => {}
        }
    }

    /// Seeks one step forward from the newest decoded position.
    pub fn seek_forward(&mut self)
        requires
            old(self).wf(),
        ensures
            final(self).wf(),
            old(self).session() is None ==> *final(self) == *old(self),
            old(self).session() matches Some(s) ==> final(self).session() matches Some(s2)
                && seek_post(s, s2, s.elapsed_ms().saturating_add(SEEK_STEP_MS)),
            final(self).control_state() == old(self).control_state(),
            final(self).finished_flag() == old(self).finished_flag(),
            final(self).params_pair() == old(self).params_pair(),
    {
        let target = self.elapsed().saturating_add(SEEK_STEP_MS);
        self.seek(target);
    }

    /// Seeks one step backward from the newest decoded position, clamped
    /// at the start.
    pub fn seek_backward(&mut self)
        requires
            old(self).wf(),
        ensures
            final(self).wf(),
            old(self).session() is None ==> *final(self) == *old(self),
            old(self).session() matches Some(s) ==> final(self).session() matches Some(s2)
                && seek_post(s, s2, s.elapsed_ms().saturating_sub(SEEK_STEP_MS)),
            final(self).control_state() == old(self).control_state(),
            final(self).finished_flag() == old(self).finished_flag(),
            final(self).params_pair() == old(self).params_pair(),
    {
        let target = self.elapsed().saturating_sub(SEEK_STEP_MS);
        self.seek(target);
    }

    /// Switching output devices mid-session is not a goal of this core: a
    /// device change requires a full pipeline reinitialisation.  The call
    /// fails fast instead of pretending.
    pub fn set_output_device(&self, device: &str) -> (r: Result<(), DeviceError>)
        ensures
            r is Err,
    {
        let _ = device;
        Err(DeviceError)
    }
}

/// Volume round-trip law: a player in the state that `set_volume(v)`
/// leaves behind — the pair cell holding `v` beside the old gain — reads
/// its volume back as exactly `v`, for every level in range.
pub proof fn lemma_volume_round_trip(before: Player, after: Player, v: u8)
    requires
        v <= VOLUME_MAX,
        after.params_pair() == (VolumeGain { volume: v, gain: before.gain_level() }),
    ensures
        after.volume_level() == v,
        after.gain_level() == before.gain_level(),
{
}

/// The finished flag flips at most once per session: a fill that flipped
/// it leaves the flag set, the transport then reads `Finished`, and
/// `render_fill`'s contract makes a fill in any non-`Playing` state write
/// nothing and flip nothing.
pub proof fn lemma_finished_flag_pins_transport(p: Player)
    requires
        p.finished_flag(),
    ensures
        p.transport() == State::Finished,
        p.transport() != State::Playing,
{
}

/// No torn pair: a permitted write of a volume/gain pair leaves the cell
/// holding exactly that pair, so any read observes both halves from the
/// same write — never a mixture of an old and a new one.
pub proof fn lemma_params_read_whole(
    cell: ThreadCell<VolumeGain>,
    tag: u64,
    pair: VolumeGain,
    after: ThreadCell<VolumeGain>,
)
    requires
        cell.may_write(tag),
        after.value() == pair,
    ensures
        after.value().volume == pair.volume,
        after.value().gain == pair.gain,
{
}

} // verus!
