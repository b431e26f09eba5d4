//! Repeat orchestration: sequencing playback episodes with an inter-episode
//! delay. Each episode is independent — an episode's failure never cancels
//! the remaining repetitions — so the next action depends only on the plan
//! and the episode index, never on an earlier episode's outcome.

use crate::playback::ToneRequest;
use vstd::prelude::*;

verus! {

/// The whole repetition job: one tone, how many times to play it, and how
/// long to suspend between episodes. Constructed once from user input and
/// never mutated.
#[derive(Clone, Copy, PartialEq, Eq, Structural, Debug)]
pub struct RepeatPlan {
    pub tone: ToneRequest,
    pub repeat_count: u32,
    pub inter_repeat_delay_ms: u64,
}

/// What the orchestrator does at a given episode index.
#[derive(Clone, Copy, PartialEq, Eq, Structural, Debug)]
pub enum RepeatAction {
    /// Play an episode immediately (only ever the first episode).
    Play,
    /// Suspend for the plan's inter-repeat delay, then play an episode.
    DelayThenPlay,
    /// All episodes are done; return without error.
    Done,
}

/// The orchestrator's decision at `episode_index`: play at index zero,
/// delay then play while indices remain, stop once the count is reached.
pub open spec fn spec_next_step(plan: RepeatPlan, episode_index: u32) -> RepeatAction {
    if episode_index >= plan.repeat_count {
        RepeatAction::Done
    } else if episode_index == 0 {
        RepeatAction::Play
    } else {
        RepeatAction::DelayThenPlay
    }
}

/// Decides the orchestrator's next action. A zero repeat count yields
/// `Done` at once — no playback, and no error. The decision takes no
/// episode result: a failed episode never aborts the remaining ones.
pub fn next_step(plan: &RepeatPlan, episode_index: u32) -> (action: RepeatAction)
    ensures
        action == spec_next_step(*plan, episode_index),
        action == RepeatAction::Done <==> episode_index >= plan.repeat_count,
        plan.repeat_count == 0 ==> action == RepeatAction::Done,
{
    if episode_index >= plan.repeat_count {
        RepeatAction::Done
    } else if episode_index == 0 {
        RepeatAction::Play
    } else {
        RepeatAction::DelayThenPlay
    }
}

/// Nominal milliseconds spent before episode `episode_index` starts playing:
/// the inter-repeat delay for every episode after the first.
pub open spec fn spec_delay_before(plan: RepeatPlan, episode_index: u32) -> int {
    if spec_next_step(plan, episode_index) == RepeatAction::DelayThenPlay {
        plan.inter_repeat_delay_ms as int
    } else {
        0
    }
}

/// Nominal wall-clock milliseconds the first `n` episodes of the plan take:
/// each episode's tone duration plus the delay that precedes it.
pub open spec fn spec_elapsed(plan: RepeatPlan, n: nat) -> int
    decreases n,
{
    if n == 0 || n > plan.repeat_count {
        0
    } else {
        spec_elapsed(plan, (n - 1) as nat)
            + spec_delay_before(plan, (n - 1) as u32)
            + plan.tone.duration_ms as int
    }
}

/// A full run of the plan takes at least `repeat_count` tone durations plus
/// `repeat_count - 1` inter-repeat delays of nominal wall-clock time; a
/// zero-count plan takes none.
pub proof fn lemma_total_wall_clock(plan: RepeatPlan, n: nat)
    requires
        n <= plan.repeat_count,
    ensures
        n == 0 ==> spec_elapsed(plan, n) == 0,
        n >= 1 ==> spec_elapsed(plan, n)
            == n * plan.tone.duration_ms + (n - 1) * plan.inter_repeat_delay_ms,
    decreases n,
{
    if n >= 1 {
        lemma_total_wall_clock(plan, (n - 1) as nat);
        let d = plan.tone.duration_ms as int;
        let w = plan.inter_repeat_delay_ms as int;
        if n == 1 {
            assert(spec_elapsed(plan, 1) == d);
            assert(1 * d + 0 * w == d);
        } else {
            assert((n - 1) * d + (n - 2) * w + w + d == n * d + (n - 1) * w)
                by (nonlinear_arith);
        }
    }
}

/// Computes the nominal wall-clock lower bound of the whole plan:
/// `repeat_count * duration + (repeat_count - 1) * delay`, or zero for an
/// empty plan.
pub fn minimum_wall_clock_ms(plan: &RepeatPlan) -> (r: u64)
    requires
        plan.repeat_count as int * plan.tone.duration_ms as int
            + (plan.repeat_count as int - 1) * plan.inter_repeat_delay_ms as int
            <= u64::MAX as int,
    ensures
        r == spec_elapsed(*plan, plan.repeat_count as nat),
{
    if plan.repeat_count == 0 {
        0
    } else {
        let n = plan.repeat_count as u64;
        let d = plan.tone.duration_ms;
        let w = plan.inter_repeat_delay_ms;
        proof {
            lemma_total_wall_clock(*plan, plan.repeat_count as nat);
            assert((n - 1) * w <= n * w && 0 <= (n - 1) * w && 0 <= n * d)
                by (nonlinear_arith)
                requires n >= 1, 0 <= w, 0 <= d;
        }
        n * d + (n - 1) * w
    }
}

} // verus!
