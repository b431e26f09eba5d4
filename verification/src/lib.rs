//! Tone synthesis and audio-stream playback: the frame-budget arithmetic,
//! the per-frame playback state machine, output-stream negotiation, the
//! repeat orchestration that sequences playback episodes, and the compute
//! half of notification dispatch.

pub mod notify;
pub mod playback;
pub mod repeat;
pub mod stream;
