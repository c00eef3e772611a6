//! The stream bridge: the shared slot that hands a live oscillator from the
//! thread that negotiated the stream to the audio callback.
//!
//! The bridge is the one piece of state both sides touch, so its users keep
//! it behind a mutual-exclusion lock and never move it once the callback has
//! captured a reference to it.  Inside the lock it is a small state machine:
//! the slot starts empty, is populated once with a fresh oscillator, starts
//! streaming when the backend is asked to play, and each fill performed while
//! streaming mutates the held oscillator exactly as one `write_data` call
//! does.

use crate::oscillator::{fill_post, DoNotMoveThis};
use vstd::prelude::*;

verus! {

/// Lifecycle of the shared slot over one stream run.
#[derive(Clone, Copy, Debug, PartialEq, Eq, Structural)]
pub enum BridgeState {
    /// The slot is empty; nothing has been negotiated yet.
    Uninitialized,
    /// The slot holds a fresh oscillator for a negotiated configuration.
    Armed,
    /// The backend has accepted the stream and may invoke fills.
    Streaming,
    /// The stream has been torn down; terminal.
    Stopped,
}

/// The shared slot with its lifecycle state.
pub struct Bridge {
    /// Where the run stands.
    pub state: BridgeState,
    /// The held oscillator; populated from arming until teardown.
    pub slot: Option<DoNotMoveThis>,
}

impl Bridge {
    /// Bridge validity: once armed and until torn down the slot is populated,
    /// and the oscillator it holds is itself valid.
    pub open spec fn wf(self) -> bool {
        (self.state is Armed || self.state is Streaming) ==> match self.slot {
            Some(osc) => osc.wf(),
            None => false,
        }
    }

    /// An empty bridge, before any negotiation.
    pub fn new() -> (bridge: Self)
        ensures
            bridge.wf(),
            bridge.state is Uninitialized,
            bridge.slot is None,
    {
        Bridge { state: BridgeState::Uninitialized, slot: None }
    }

    /// Populate the slot with a freshly constructed oscillator after a
    /// successful negotiation.
    pub fn arm(&mut self, osc: DoNotMoveThis)
        requires
            old(self).state is Uninitialized,
            osc.wf(),
        ensures
            final(self).wf(),
            final(self).state is Armed,
            final(self).slot == Some(osc),
    {
        self.slot = Some(osc);
        self.state = BridgeState::Armed;
    }

    /// Record that the backend has been asked to start the stream; fills may
    /// come from now on.
    pub fn start(&mut self)
        requires
            old(self).wf(),
            old(self).state is Armed,
        ensures
            final(self).wf(),
            final(self).state is Streaming,
            final(self).slot == old(self).slot,
    {
        self.state = BridgeState::Streaming;
    }

    /// Whether fills are currently expected.  A caller about to fill checks
    /// this under the lock; a fill outside the streaming state is an
    /// internal-consistency failure, not a recoverable condition.
    pub fn is_streaming(&self) -> (r: bool)
        ensures
            r == (self.state is Streaming),
    {
        matches!(self.state, BridgeState::Streaming)
    }

    /// One fill while streaming: exactly one `write_data` call on the held
    /// oscillator, with the buffer the backend handed over.
    pub fn fill<S: Copy>(&mut self, output: &mut Vec<S>, wave: &Vec<S>)
        requires
            old(self).wf(),
            old(self).state is Streaming,
            wave@.len() == old(self).slot->Some_0.sample_rate,
        ensures
            final(self).wf(),
            final(self).state == old(self).state,
            final(self).slot is Some,
            fill_post(
                old(self).slot->Some_0,
                final(self).slot->Some_0,
                old(output)@,
                final(output)@,
                wave@,
            ),
    {
        match &mut self.slot {
            Some(osc) => osc.write_data(output, wave),
            None => {},
        }
    }

    /// Tear the stream down; terminal.
    pub fn stop(&mut self)
        ensures
            final(self).wf(),
            final(self).state is Stopped,
            final(self).slot == old(self).slot,
    {
        self.state = BridgeState::Stopped;
    }
}

} // verus!
