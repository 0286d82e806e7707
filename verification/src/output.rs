//! The render side of the engine: the per-tick timing rules and the fill
//! step that turns pulled samples into scaled, interleaved output.
//!
//! The hardware itself (period signal, buffer acquire and commit) is an
//! outside collaborator; an unverified shell waits on the device, queries
//! the fresh frame budget, and hands each fill to [`Player::render_fill`].

use vstd::prelude::*;

use crate::decoder::same_stream;
use crate::Player;
use crate::State;
use crate::VolumeGain;
use crate::GAIN_UNIT;
use crate::RENDER_TAG;
use crate::VOLUME_MAX;

verus! {

/// A tick that waits longer than the period plus this slack draws a
/// timing-drift warning: the scheduler starved the render thread.
pub const TIMING_SLACK_NS: u64 = 2000000;

/// Whether a period wait of `elapsed_ns` against a period of `period_ns`
/// must draw the non-fatal timing-drift warning.
pub fn timing_drift_warning(period_ns: u64, elapsed_ns: u64) -> (r: bool)
    ensures
        r == (elapsed_ns as int > period_ns as int + TIMING_SLACK_NS as int),
{
    if period_ns <= u64::MAX - TIMING_SLACK_NS {
        elapsed_ns > period_ns + TIMING_SLACK_NS
    } else {
        false
    }
}

/// The frame budget of one fill attempt: the buffer capacity less the
/// frames the hardware has not consumed yet.  It is recomputed fresh for
/// every attempt and never cached across a write.
pub fn frame_budget(buffer_capacity: u32, padding: u32) -> (r: u32)
    requires
        padding <= buffer_capacity,
    ensures
        r == buffer_capacity - padding,
{
    buffer_capacity - padding
}

/// Whether fill attempt number `iteration` (counted from zero within one
/// tick) must draw the underrun-risk warning: needing more than one
/// productive fill in a tick means the render thread fell behind.
pub fn underrun_risk_warning(iteration: u32) -> (r: bool)
    ensures
        r == (iteration > 1),
{
    iteration > 1
}

/// One sample scaled by `volume * gain`, truncating towards zero.
pub open spec fn scale_sample_spec(s: int, volume: int, gain: int) -> int {
    if s >= 0 {
        (s * volume * gain) / (VOLUME_MAX as int * GAIN_UNIT as int)
    } else {
        -((-s * volume * gain) / (VOLUME_MAX as int * GAIN_UNIT as int))
    }
}

/// The scaled magnitude of one sample: `m * volume * gain` in the
/// amplitude unit, truncating.  The result never exceeds `m`.
fn scale_magnitude(m: u64, volume: u8, gain: u16) -> (r: u64)
    requires
        m <= 0x80000000,
        volume <= VOLUME_MAX,
        gain <= GAIN_UNIT,
    ensures
        r == (m as int * volume as int * gain as int) / (VOLUME_MAX as int * GAIN_UNIT as int),
        r <= m,
{
    proof {
        assert((VOLUME_MAX as int) * (GAIN_UNIT as int) == 100000) by (nonlinear_arith);
        assert(m as int * volume as int <= 0x80000000int * 100) by (nonlinear_arith)
            requires
                m <= 0x80000000,
                volume <= 100,
        ;
        assert(m as int * volume as int * gain as int <= m as int * 100000) by (nonlinear_arith)
            requires
                m >= 0,
                volume <= 100,
                gain <= 1000,
        ;
        assert(m as int * volume as int * gain as int >= 0) by (nonlinear_arith)
            requires
                m >= 0,
                volume >= 0,
                gain >= 0,
        ;
        vstd::arithmetic::div_mod::lemma_div_is_ordered(
            m as int * volume as int * gain as int,
            m as int * 100000,
            100000,
        );
        vstd::arithmetic::div_mod::lemma_div_by_multiple(m as int, 100000);
    }
    m * (volume as u64) * (gain as u64) / 100000
}

/// Scales one sample by the effective amplitude `volume * gain`, both
/// given in their own units, truncating towards zero.
pub fn scale_sample(s: i32, volume: u8, gain: u16) -> (r: i32)
    requires
        volume <= VOLUME_MAX,
        gain <= GAIN_UNIT,
    ensures
        r == scale_sample_spec(s as int, volume as int, gain as int),
{
    if s >= 0 {
        let scaled = scale_magnitude(s as u64, volume, gain);
        scaled as i32
    } else {
        let m: u64 = (-(s as i64)) as u64;
        let scaled = scale_magnitude(m, volume, gain);
        let neg: i64 = -(scaled as i64);
        neg as i32
    }
}

/// What one fill step hands back to the unverified hardware shell.
pub struct FillResult {
    /// The interleaved, scaled samples to write to the device; empty when
    /// the transport is not playing.
    pub samples: Vec<i32>,
    /// The volume/gain pair, read whole at the start of the fill and used
    /// for every sample of it.
    pub snapshot: VolumeGain,
    /// Whether this fill saw the source run out and flipped the finished
    /// flag; it flips at most once per session.
    pub flipped: bool,
}

impl Player {
    /// Fills one frame budget with samples.
    ///
    /// While the transport is `Playing` the fill pulls `frames * channels`
    /// samples, scales each by the volume/gain snapshot, and pads with
    /// silence once the source runs out, flipping the finished flag
    /// exactly once (with `RENDER_TAG`, the render thread's own tag).
    /// In every other transport state nothing is written and nothing
    /// changes.
    pub fn render_fill(&mut self, frames: u32, channels: u32) -> (out: FillResult)
        requires
            old(self).wf(),
            channels >= 2,
            frames as int * channels as int <= usize::MAX as int,
        ensures
            final(self).wf(),
            out.snapshot == old(self).params_pair(),
            final(self).params_pair() == old(self).params_pair(),
            final(self).control_state() == old(self).control_state(),
            old(self).transport() != State::Playing ==> out.samples@.len() == 0 && !out.flipped
                && *final(self) == *old(self),
            old(self).transport() == State::Playing ==> out.samples@.len()
                == frames as int * channels as int,
            out.flipped ==> !old(self).finished_flag() && final(self).finished_flag()
                && final(self).transport() == State::Finished,
            !out.flipped ==> final(self).finished_flag() == old(self).finished_flag(),
            old(self).transport() == State::Playing && old(self).session() is None ==> ({
                &&& forall|i: int| 0 <= i < out.samples@.len() ==> out.samples@[i] == 0
                &&& !out.flipped
                &&& final(self).session() is None
            }),
            old(self).transport() == State::Playing && (old(self).session() matches Some(s)
                && s.finished() && s.buffered().len() == 0) ==> ({
                &&& forall|i: int| 0 <= i < out.samples@.len() ==> out.samples@[i] == 0
                &&& (frames > 0 ==> out.flipped)
            }),
            old(self).transport() == State::Playing ==> (old(self).session() matches Some(s)
                ==> (forall|i: int| 0 <= i < out.samples@.len() && i < s.buffered().len()
                    ==> out.samples@[i] == scale_sample_spec(s.buffered()[i] as int,
                        old(self).volume_level() as int, old(self).gain_level() as int))),
    {
        let snapshot = *self.params.read();
        if self.state() != State::Playing {
            return FillResult { samples: Vec::new(), snapshot, flipped: false };
        }
        let n: usize = (frames as usize) * (channels as usize);
        let mut samples: Vec<i32> = Vec::new();
        let mut exhausted: bool = false;
        let mut k: usize = 0;
        proof {
            if self.session() is Some {
                let s0 = self.session()->Some_0;
                assert(s0.buffered().skip(0) =~= s0.buffered());
            }
        }
        while k < n
            invariant
                k <= n,
                samples@.len() == k as int,
                n as int == frames as int * channels as int,
                self.wf(),
                snapshot == old(self).params_pair(),
                snapshot.volume <= VOLUME_MAX,
                snapshot.gain <= GAIN_UNIT,
                self.params_pair() == old(self).params_pair(),
                self.control_state() == old(self).control_state(),
                self.finished_flag() == old(self).finished_flag(),
                old(self).session() is None ==> self.session() is None && !exhausted
                    && (forall|j: int| 0 <= j < k as int ==> samples@[j] == 0),
                old(self).session() matches Some(s0) ==> ({
                    let sc = self.session()->Some_0;
                    &&& self.session() is Some
                    &&& sc.wf()
                    &&& (k as int <= s0.buffered().len() ==> same_stream(s0, sc)
                        && sc.buffered() == s0.buffered().skip(k as int)
                        && sc.finished() == s0.finished()
                        && sc.error_count() == s0.error_count()
                        && sc.elapsed_ms() == s0.elapsed_ms()
                        && (sc.is_script() ==> sc.script_rem() == s0.script_rem()))
                    &&& (forall|j: int| 0 <= j < k as int && j < s0.buffered().len()
                        ==> samples@[j] == scale_sample_spec(s0.buffered()[j] as int,
                            snapshot.volume as int, snapshot.gain as int))
                    &&& (s0.finished() && s0.buffered().len() == 0 ==> (forall|j: int|
                        0 <= j < k as int ==> samples@[j] == 0) && (k > 0 ==> exhausted))
                    &&& (exhausted ==> sc.finished() && sc.buffered().len() == 0)
                }),
            decreases n - k,
        {
            let ghost k0: int = k as int;
            let pulled: Option<i32> = match &mut self.source {
                Some(src) => src.next_sample(),
                None => None,
            };
            match pulled {
                Some(raw) => {
                    samples.push(scale_sample(raw, snapshot.volume, snapshot.gain));
                }
                None => {
                    if self.source.is_some() {
                        exhausted = true;
                    }
                    samples.push(0);
                }
            }
            k = k + 1;
            proof {
                if old(self).session() is Some {
                    let s0 = old(self).session()->Some_0;
                    if k0 + 1 <= s0.buffered().len() {
                        assert(s0.buffered().skip(k0).skip(1) =~= s0.buffered().skip(k0 + 1));
                    }
                }
            }
        }
        proof {
            assert(frames > 0 ==> n > 0) by (nonlinear_arith)
                requires
                    n as int == frames as int * channels as int,
                    channels >= 2,
            ;
        }
        let mut flipped = false;
        if exhausted {
            if !*self.finished.read() {
                let _ = self.finished.write(RENDER_TAG, true);
                flipped = true;
            }
        }
        FillResult { samples, snapshot, flipped }
    }
}

} // verus!
