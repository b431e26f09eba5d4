use beep::playback::{
    begin_episode, drain_wait_ms, episode_step, frames_budget, EpisodeEvent, EpisodePhase,
    PlaybackState, ToneRequest,
};
use beep::stream::{AudioError, SampleFormat, StreamConfig};

#[test]
fn budget_standard_tone() {
    // 200 ms at 44100 Hz is exactly 8820 frames.
    assert_eq!(frames_budget(44100, 200), 8820);
}

#[test]
fn budget_zero_duration() {
    assert_eq!(frames_budget(44100, 0), 0);
    assert_eq!(frames_budget(1, 0), 0);
}

#[test]
fn budget_rounds_to_nearest() {
    // 44100 * 17 / 1000 = 749.7 rounds up.
    assert_eq!(frames_budget(44100, 17), 750);
    // 44100 * 1 / 1000 = 44.1 rounds down.
    assert_eq!(frames_budget(44100, 1), 44);
}

#[test]
fn fresh_state_is_zeroed() {
    let s = PlaybackState::new(48000, 200);
    assert_eq!(s.phase, 0);
    assert_eq!(s.frames_emitted, 0);
    assert_eq!(s.frames_budget, 9600);
}

#[test]
fn tone_frames_then_permanent_silence() {
    // Budget of 7 frames at a sample rate of 5: the phase accumulator
    // wraps after five advances, and the eighth request onward is silence.
    let mut s = PlaybackState::new(5, 1400);
    assert_eq!(s.frames_budget, 7);
    let expected_phases = [0u32, 1, 2, 3, 4, 0, 1];
    for &p in expected_phases.iter() {
        assert_eq!(s.next_frame(5), Some(p));
    }
    for _ in 0..3 {
        assert_eq!(s.next_frame(5), None);
    }
    assert_eq!(s.frames_emitted, 7);
    assert_eq!(s.phase, 2);
}

#[test]
fn zero_budget_emits_only_silence() {
    let mut s = PlaybackState::new(44100, 0);
    for _ in 0..4 {
        assert_eq!(s.next_frame(44100), None);
    }
    assert_eq!(s.frames_emitted, 0);
    assert_eq!(s.phase, 0);
}

#[test]
fn identical_requests_make_identical_episodes() {
    let cfg = StreamConfig {
        sample_rate: 44100,
        channel_count: 2,
        sample_format: SampleFormat::Float32,
    };
    let req = ToneRequest { frequency_millihertz: 1_000_000, duration_ms: 200 };
    let mut first = begin_episode(&cfg, &req);
    while first.next_frame(44100).is_some() {}
    let second = begin_episode(&cfg, &req);
    assert_eq!(second, begin_episode(&cfg, &req));
    assert_eq!(second.frames_budget, 8820);
    assert_eq!(second.frames_emitted, 0);
    assert_eq!(second.phase, 0);
}

#[test]
fn episode_lifecycle_runs_to_closed() {
    let mut phase = EpisodePhase::Idle;
    phase = episode_step(phase, EpisodeEvent::NegotiationStarted);
    assert_eq!(phase, EpisodePhase::Negotiating);
    phase = episode_step(phase, EpisodeEvent::StreamStarted);
    assert_eq!(phase, EpisodePhase::Streaming);
    phase = episode_step(phase, EpisodeEvent::BudgetExhausted);
    assert_eq!(phase, EpisodePhase::Draining);
    phase = episode_step(phase, EpisodeEvent::DrainElapsed);
    assert_eq!(phase, EpisodePhase::Closed);
}

#[test]
fn failed_negotiation_closes_episode() {
    let phase = episode_step(EpisodePhase::Idle, EpisodeEvent::NegotiationStarted);
    let phase = episode_step(
        phase,
        EpisodeEvent::NegotiationFailed(AudioError::NoDeviceAvailable),
    );
    assert_eq!(phase, EpisodePhase::Closed);
}

#[test]
fn draining_never_resumes_streaming() {
    let events = [
        EpisodeEvent::NegotiationStarted,
        EpisodeEvent::NegotiationFailed(AudioError::StreamOpenFailed),
        EpisodeEvent::StreamStarted,
        EpisodeEvent::BudgetExhausted,
    ];
    for &e in events.iter() {
        assert_ne!(episode_step(EpisodePhase::Draining, e), EpisodePhase::Streaming);
        assert_eq!(episode_step(EpisodePhase::Closed, e), EpisodePhase::Closed);
    }
}

#[test]
fn drain_wait_adds_slack() {
    assert_eq!(drain_wait_ms(200), 250);
    assert_eq!(drain_wait_ms(0), 50);
}
