//! What the bot reads of a member's voice state.

use vstd::prelude::*;

verus! {

/// A member's voice state as the guild cache holds it.
#[derive(Clone, Copy, Debug, PartialEq, Eq, Structural)]
pub struct VoiceState {
    /// The voice channel the member is connected to, if any.
    pub channel_id: Option<u64>,
    /// Whether the member is streaming (screensharing), if known.
    pub self_stream: Option<bool>,
}

} // verus!
