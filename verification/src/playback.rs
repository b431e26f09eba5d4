//! Frame-budget arithmetic and the per-frame playback state machine that a
//! real-time audio callback drives.
//!
//! One playback episode emits exactly `frames_budget` tone frames, advancing
//! a phase accumulator that wraps modulo the sample rate, and then emits
//! silence for every further frame the audio subsystem requests before the
//! stream is torn down.

use crate::stream::AudioError;
use crate::stream::StreamConfig;
use vstd::prelude::*;

verus! {

/// One tone to synthesize: a positive frequency, kept in millihertz so the
/// request stays exact, and a nominal duration in milliseconds. Immutable
/// once constructed; one per playback episode.
#[derive(Clone, Copy, PartialEq, Eq, Structural, Debug)]
pub struct ToneRequest {
    pub frequency_millihertz: u64,
    pub duration_ms: u64,
}

impl ToneRequest {
    /// The frequency must be positive.
    pub open spec fn wf(self) -> bool {
        self.frequency_millihertz >= 1
    }
}

/// Milliseconds the controller keeps blocking after the nominal duration,
/// so the audio subsystem has wall-clock time to drain its buffered frames
/// before the stream is dropped. A tuned constant, not a derived value.
pub const DRAIN_SLACK_MS: u64 = 50;

/// Number of audio frames needed to cover `duration_ms` milliseconds at
/// `sample_rate` frames per second, rounded to the nearest whole frame.
pub open spec fn spec_frames_budget(sample_rate: int, duration_ms: int) -> int {
    (sample_rate * duration_ms + 500) / 1000
}

/// Computes the total frame budget of one playback episode:
/// `round(sample_rate * duration_ms / 1000)`.
pub fn frames_budget(sample_rate: u32, duration_ms: u64) -> (r: u64)
    requires
        sample_rate as int * duration_ms as int + 500 <= u64::MAX as int,
    ensures
        r as int == spec_frames_budget(sample_rate as int, duration_ms as int),
{
    ((sample_rate as u64) * duration_ms + 500) / 1000
}

/// Real-time state of one playback episode. It is owned exclusively by the
/// stream's callback: no other thread reads or writes it, and it is built
/// fresh for every episode.
#[derive(Clone, Copy, PartialEq, Eq, Structural, Debug)]
pub struct PlaybackState {
    /// Waveform position within one second of frames; always below the
    /// sample rate, so it never grows unbounded.
    pub phase: u32,
    /// Tone frames emitted so far; never exceeds `frames_budget`.
    pub frames_emitted: u64,
    /// Total tone frames this episode emits before switching to silence.
    pub frames_budget: u64,
}

/// The playback state a fresh episode starts from: phase and emission count
/// zero, and the budget derived from the negotiated rate and the requested
/// duration.
pub open spec fn initial_state(sample_rate: int, duration_ms: int) -> PlaybackState {
    PlaybackState {
        phase: 0,
        frames_emitted: 0,
        frames_budget: spec_frames_budget(sample_rate, duration_ms) as u64,
    }
}

/// What one frame request does to the playback state: while the budget is
/// not exhausted, the phase advances (wrapping modulo the sample rate) and
/// the emission count rises by one; afterwards the state is unchanged.
pub open spec fn spec_next_state(s: PlaybackState, sample_rate: int) -> PlaybackState {
    if s.frames_emitted < s.frames_budget {
        PlaybackState {
            phase: ((s.phase as int + 1) % sample_rate) as u32,
            frames_emitted: (s.frames_emitted + 1) as u64,
            frames_budget: s.frames_budget,
        }
    } else {
        s
    }
}

/// The state after `n` frame requests, starting from `s`.
pub open spec fn state_after(s: PlaybackState, sample_rate: int, n: nat) -> PlaybackState
    decreases n,
{
    if n == 0 {
        s
    } else {
        spec_next_state(state_after(s, sample_rate, (n - 1) as nat), sample_rate)
    }
}

impl PlaybackState {
    /// Invariant tied to the episode's negotiated sample rate.
    pub open spec fn wf(self, sample_rate: int) -> bool {
        &&& self.phase < sample_rate
        &&& self.frames_emitted <= self.frames_budget
    }

    /// Builds the state for a fresh episode from the negotiated sample rate
    /// and the requested duration.
    pub fn new(sample_rate: u32, duration_ms: u64) -> (s: PlaybackState)
        requires
            sample_rate >= 1,
            sample_rate as int * duration_ms as int + 500 <= u64::MAX as int,
        ensures
            s == initial_state(sample_rate as int, duration_ms as int),
            s.wf(sample_rate as int),
    {
        PlaybackState {
            phase: 0,
            frames_emitted: 0,
            frames_budget: frames_budget(sample_rate, duration_ms),
        }
    }

    /// Serves one frame request from the audio callback. Returns the phase at
    /// which the waveform should be evaluated for a tone frame, or `None`
    /// when the budget is exhausted and the frame must be silence.
    pub fn next_frame(&mut self, sample_rate: u32) -> (tone_phase: Option<u32>)
        requires
            sample_rate >= 1,
            old(self).wf(sample_rate as int),
        ensures
            *final(self) == spec_next_state(*old(self), sample_rate as int),
            final(self).wf(sample_rate as int),
            tone_phase == (if old(self).frames_emitted < old(self).frames_budget {
                Some(old(self).phase)
            } else {
                None::<u32>
            }),
    {
        if self.frames_emitted < self.frames_budget {
            let p = self.phase;
            self.phase = (self.phase + 1) % sample_rate;
            self.frames_emitted = self.frames_emitted + 1;
            Some(p)
        } else {
            None
        }
    }
}

/// Builds the playback state for one fresh episode of `request` under the
/// negotiated `config`: the compute step of the playback controller. The
/// result is a pure function of the two arguments, so identical requests
/// yield identical episodes with no residual state between them.
pub fn begin_episode(config: &StreamConfig, request: &ToneRequest) -> (s: PlaybackState)
    requires
        config.wf(),
        request.wf(),
        config.sample_rate as int * request.duration_ms as int + 500 <= u64::MAX as int,
    ensures
        s == initial_state(config.sample_rate as int, request.duration_ms as int),
        s.wf(config.sample_rate as int),
{
    PlaybackState::new(config.sample_rate, request.duration_ms)
}

/// Milliseconds the calling thread blocks after starting playback: the
/// nominal duration plus the fixed drain slack.
pub fn drain_wait_ms(duration_ms: u64) -> (r: u64)
    requires
        duration_ms + DRAIN_SLACK_MS <= u64::MAX,
    ensures
        r == duration_ms + DRAIN_SLACK_MS,
{
    duration_ms + DRAIN_SLACK_MS
}

/// After `n` frame requests from a fresh episode, exactly `min(n, budget)`
/// tone frames have been emitted, and the phase accumulator equals that
/// count reduced modulo the sample rate. The budget never changes.
pub proof fn lemma_state_after_run(sample_rate: int, duration_ms: int, n: nat)
    requires
        1 <= sample_rate <= u32::MAX,
        0 <= spec_frames_budget(sample_rate, duration_ms) <= u64::MAX,
    ensures
        ({
            let s0 = initial_state(sample_rate, duration_ms);
            let sn = state_after(s0, sample_rate, n);
            let served = if n <= s0.frames_budget { n as int } else { s0.frames_budget as int };
            &&& sn.frames_emitted == served
            &&& sn.phase == served % sample_rate
            &&& sn.frames_budget == s0.frames_budget
        }),
    decreases n,
{
    let s0 = initial_state(sample_rate, duration_ms);
    if n == 0 {
        assert(0int % sample_rate == 0) by {
            vstd::arithmetic::div_mod::lemma_small_mod(0, sample_rate as nat);
        }
    } else {
        lemma_state_after_run(sample_rate, duration_ms, (n - 1) as nat);
        let prev = state_after(s0, sample_rate, (n - 1) as nat);
        let served_prev =
            if n - 1 <= s0.frames_budget { n - 1 } else { s0.frames_budget as int };
        if prev.frames_emitted < prev.frames_budget {
            assert((served_prev % sample_rate + 1) % sample_rate
                == (served_prev + 1) % sample_rate) by {
                vstd::arithmetic::div_mod::lemma_add_mod_noop_right(1, served_prev, sample_rate);
            }
        }
    }
}

/// The phase accumulator never grows unbounded: after any number `n` of
/// frame advances within the budget, it equals `n` reduced modulo the
/// sample rate.
pub proof fn lemma_phase_wraps(sample_rate: int, duration_ms: int, n: nat)
    requires
        1 <= sample_rate <= u32::MAX,
        0 <= spec_frames_budget(sample_rate, duration_ms) <= u64::MAX,
        n <= spec_frames_budget(sample_rate, duration_ms),
    ensures
        state_after(initial_state(sample_rate, duration_ms), sample_rate, n).phase
            == n as int % sample_rate,
        state_after(initial_state(sample_rate, duration_ms), sample_rate, n).phase
            < sample_rate,
{
    lemma_state_after_run(sample_rate, duration_ms, n);
    vstd::arithmetic::div_mod::lemma_mod_bound(n as int, sample_rate);
}

/// The generator emits exactly the budgeted number of tone frames and then
/// switches permanently to silence: a state whose budget is exhausted is a
/// fixed point of the frame step, so once draining begins the episode never
/// re-enters streaming.
pub proof fn lemma_budget_then_silence(s: PlaybackState, sample_rate: int)
    requires
        s.frames_emitted >= s.frames_budget,
    ensures
        spec_next_state(s, sample_rate) == s,
{
}

/// Two playback episodes built from the same duration and the same
/// negotiated sample rate start from identical states: equal frame budgets,
/// and no phase or emission count carried over from any earlier episode.
pub proof fn lemma_episodes_independent(
    sample_rate: int,
    duration_ms: int,
    s1: PlaybackState,
    s2: PlaybackState,
)
    requires
        s1 == initial_state(sample_rate, duration_ms),
        s2 == initial_state(sample_rate, duration_ms),
    ensures
        s1 == s2,
        s1.frames_budget == s2.frames_budget,
        s1.frames_emitted == 0 && s1.phase == 0,
{
}

/// A zero-millisecond request has a zero frame budget, and the resulting
/// episode emits only silence: its initial state is already a fixed point of
/// the frame step.
pub proof fn lemma_zero_duration(sample_rate: int)
    requires
        sample_rate >= 1,
    ensures
        spec_frames_budget(sample_rate, 0) == 0,
        spec_next_state(initial_state(sample_rate, 0), sample_rate)
            == initial_state(sample_rate, 0),
{
    assert(sample_rate * 0 == 0) by {
        vstd::arithmetic::mul::lemma_mul_basics(sample_rate);
    }
}

/// Lifecycle phase of one playback episode. `Closed` is terminal and is
/// where the output device is released.
#[derive(Clone, Copy, PartialEq, Eq, Structural, Debug)]
pub enum EpisodePhase {
    Idle,
    Negotiating,
    Streaming,
    Draining,
    Closed,
}

/// What happens to an episode as it runs.
#[derive(Clone, Copy, PartialEq, Eq, Structural, Debug)]
pub enum EpisodeEvent {
    /// Device negotiation begins.
    NegotiationStarted,
    /// Negotiation or stream creation failed; the episode ends.
    NegotiationFailed(AudioError),
    /// The output stream is playing and tone frames are flowing.
    StreamStarted,
    /// The emission count reached the frame budget; only silence follows.
    BudgetExhausted,
    /// The blocking drain wait elapsed; the stream is dropped.
    DrainElapsed,
}

/// The episode lifecycle: `Idle` to `Negotiating` to `Streaming` to
/// `Draining` to `Closed`, with negotiation failures closing the episode
/// and the drain wait able to end it even before the budget is exhausted
/// (timing drift). An event that does not apply leaves the phase unchanged.
pub open spec fn spec_episode_step(phase: EpisodePhase, event: EpisodeEvent) -> EpisodePhase {
    match (phase, event) {
        (EpisodePhase::Idle, EpisodeEvent::NegotiationStarted) => EpisodePhase::Negotiating,
        (EpisodePhase::Negotiating, EpisodeEvent::StreamStarted) => EpisodePhase::Streaming,
        (EpisodePhase::Negotiating, EpisodeEvent::NegotiationFailed(_)) => EpisodePhase::Closed,
        (EpisodePhase::Streaming, EpisodeEvent::BudgetExhausted) => EpisodePhase::Draining,
        (EpisodePhase::Streaming, EpisodeEvent::DrainElapsed) => EpisodePhase::Closed,
        (EpisodePhase::Draining, EpisodeEvent::DrainElapsed) => EpisodePhase::Closed,
        (p, _) => p,
    }
}

/// Advances the episode lifecycle by one event.
pub fn episode_step(phase: EpisodePhase, event: EpisodeEvent) -> (next: EpisodePhase)
    ensures
        next == spec_episode_step(phase, event),
{
    match (phase, event) {
        (EpisodePhase::Idle, EpisodeEvent::NegotiationStarted) => EpisodePhase::Negotiating,
        (EpisodePhase::Negotiating, EpisodeEvent::StreamStarted) => EpisodePhase::Streaming,
        (EpisodePhase::Negotiating, EpisodeEvent::NegotiationFailed(_)) => EpisodePhase::Closed,
        (EpisodePhase::Streaming, EpisodeEvent::BudgetExhausted) => EpisodePhase::Draining,
        (EpisodePhase::Streaming, EpisodeEvent::DrainElapsed) => EpisodePhase::Closed,
        (EpisodePhase::Draining, EpisodeEvent::DrainElapsed) => EpisodePhase::Closed,
        (p, _) => p,
    }
}

/// The lifecycle phase the real-time state corresponds to while the stream
/// is open: streaming while tone frames remain in the budget, draining
/// afterwards.
pub open spec fn spec_stream_phase(s: PlaybackState) -> EpisodePhase {
    if s.frames_emitted < s.frames_budget {
        EpisodePhase::Streaming
    } else {
        EpisodePhase::Draining
    }
}

/// No transition re-enters `Streaming` once `Draining` begins within the
/// same episode: no lifecycle event leads there, and the frame step keeps a
/// draining state draining.
pub proof fn lemma_no_reentry_into_streaming(event: EpisodeEvent, s: PlaybackState, rate: int)
    requires
        spec_stream_phase(s) == EpisodePhase::Draining,
    ensures
        spec_episode_step(EpisodePhase::Draining, event) != EpisodePhase::Streaming,
        spec_stream_phase(spec_next_state(s, rate)) == EpisodePhase::Draining,
{
}

/// `Closed` is terminal: every event leaves a closed episode closed, so a
/// released device is never reacquired within the episode.
pub proof fn lemma_closed_is_terminal(event: EpisodeEvent)
    ensures
        spec_episode_step(EpisodePhase::Closed, event) == EpisodePhase::Closed,
{
}

} // verus!
