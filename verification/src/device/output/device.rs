//! The claim on the two capabilities of an output: at most one holder of video
//! and one of audio at any time.

use crate::util::OutputError;
use vstd::prelude::*;

verus! {

/// What an output can be claimed for.
#[derive(Debug, Clone, Copy, PartialEq, Eq, Structural)]
pub enum Capability {
    Video,
    Audio,
}

/// Which capabilities are claimed.
pub struct GateState {
    pub video: bool,
    pub audio: bool,
}

/// A call that claims a capability or gives it up.
pub enum GateOp {
    Acquire(Capability),
    Release(Capability),
}

impl GateState {
    /// Nothing is claimed.
    pub open spec fn idle() -> GateState {
        GateState { video: false, audio: false }
    }

    pub open spec fn active(self, capability: Capability) -> bool {
        match capability {
            Capability::Video => self.video,
            Capability::Audio => self.audio,
        }
    }

    /// The claim on `capability` set to `held`, and the other claim as it was.
    pub open spec fn with(self, capability: Capability, held: bool) -> GateState {
        match capability {
            Capability::Video => GateState { video: held, audio: self.audio },
            Capability::Audio => GateState { video: self.video, audio: held },
        }
    }

    /// The claims after one call.
    pub open spec fn apply(self, op: GateOp) -> GateState {
        match op {
            GateOp::Acquire(capability) => self.with(capability, true),
            GateOp::Release(capability) => self.with(capability, false),
        }
    }

    /// The claims after the calls of `ops`, made in order with nothing claimed
    /// at the start.
    pub open spec fn after(ops: Seq<GateOp>) -> GateState
        decreases ops.len(),
    {
        if ops.len() == 0 {
            GateState::idle()
        } else {
            GateState::after(ops.drop_last()).apply(ops.last())
        }
    }

    /// Whether call `i` of `ops` is an acquire that succeeds.
    pub open spec fn granted(ops: Seq<GateOp>, i: int) -> bool {
        0 <= i < ops.len() && (ops[i] matches GateOp::Acquire(capability) && !GateState::after(
            ops.take(i),
        ).active(capability))
    }
}

/// The record that the handles of one output share.
pub struct DecklinkOutputDevicePtr {
    video_active: bool,
    audio_active: bool,
}

impl View for DecklinkOutputDevicePtr {
    type V = GateState;

    closed spec fn view(&self) -> GateState {
        GateState { video: self.video_active, audio: self.audio_active }
    }
}

impl DecklinkOutputDevicePtr {
    /// The record of an output that nobody has claimed.
    pub fn new() -> (gate: Self)
        ensures
            gate@ == GateState::idle(),
    {
        DecklinkOutputDevicePtr { video_active: false, audio_active: false }
    }

    pub fn is_active(&self, capability: Capability) -> (held: bool)
        ensures
            held == self@.active(capability),
    {
        match capability {
            Capability::Video => self.video_active,
            Capability::Audio => self.audio_active,
        }
    }

    /// Sets the claim on `capability` and tells whether it was free before:
    /// `true` makes the caller its one holder.
    pub fn acquire(&mut self, capability: Capability) -> (won: bool)
        ensures
            won == !old(self)@.active(capability),
            final(self)@ == old(self)@.apply(GateOp::Acquire(capability)),
    {
        match capability {
            Capability::Video => {
                let was = self.video_active;
                self.video_active = true;
                !was
            },
            Capability::Audio => {
                let was = self.audio_active;
                self.audio_active = true;
                !was
            },
        }
    }

    /// Clears the claim on `capability`, whether or not it was set.
    pub fn release(&mut self, capability: Capability)
        ensures
            final(self)@ == old(self)@.apply(GateOp::Release(capability)),
    {
        match capability {
            Capability::Video => {
                self.video_active = false;
            },
            Capability::Audio => {
                self.audio_active = false;
            },
        }
    }

    /// Claims `capability` for the caller, or refuses where it is held.
    pub fn claim(&mut self, capability: Capability) -> (r: Result<(), OutputError>)
        ensures
            old(self)@.active(capability) ==> r == Err::<(), OutputError>(
                OutputError::AccessDenied,
            ) && final(self)@ == old(self)@,
            !old(self)@.active(capability) ==> r == Ok::<(), OutputError>(()) && final(self)@
                == old(self)@.with(capability, true),
    {
        if self.acquire(capability) {
            Ok(())
        } else {
            Err(OutputError::AccessDenied)
        }
    }
}

/// Once a capability is acquired it stays claimed until it is released.
pub proof fn lemma_claim_lasts(ops: Seq<GateOp>, capability: Capability, i: int, j: int)
    requires
        0 <= i < j <= ops.len(),
        ops[i] == GateOp::Acquire(capability),
        forall|k: int| i < k < j ==> ops[k] != GateOp::Release(capability),
    ensures
        GateState::after(ops.take(j)).active(capability),
    decreases j - i,
{
    let prefix = ops.take(j);
    assert(prefix.drop_last() == ops.take(j - 1));
    assert(prefix.last() == ops[j - 1]);
    if j - 1 > i {
        lemma_claim_lasts(ops, capability, i, j - 1);
    }
}

/// Mutual exclusion: of the acquires of one capability in any run of calls
/// on one output, two succeed only if a release of that capability lies between them.
pub proof fn lemma_mutual_exclusion(ops: Seq<GateOp>, capability: Capability, i: int, j: int)
    requires
        0 <= i < j < ops.len(),
        ops[i] == GateOp::Acquire(capability),
        ops[j] == GateOp::Acquire(capability),
        GateState::granted(ops, i),
        GateState::granted(ops, j),
    ensures
        exists|k: int| i < k < j && ops[k] == GateOp::Release(capability),
{
    if forall|k: int| i < k < j ==> ops[k] != GateOp::Release(capability) {
        lemma_claim_lasts(ops, capability, i, j);
    }
}

/// Releasing is idempotent and touches one capability only: a second release
/// changes nothing, the capability is free after it, it can be acquired
/// again, and the claim on the other capability is as it was.
pub proof fn lemma_release_is_idempotent(state: GateState, capability: Capability, other: Capability)
    requires
        other != capability,
    ensures
        state.apply(GateOp::Release(capability)).apply(GateOp::Release(capability)) == state.apply(
            GateOp::Release(capability),
        ),
        !state.apply(GateOp::Release(capability)).active(capability),
        state.apply(GateOp::Release(capability)).apply(GateOp::Acquire(capability)).active(
            capability,
        ),
        state.apply(GateOp::Release(capability)).active(other) == state.active(other),
        state.apply(GateOp::Acquire(capability)).active(other) == state.active(other),
{
}

} // verus!
