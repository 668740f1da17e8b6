//! Resource usage states and barrier transitions for swapchain color buffers.
//!
//! A buffer is presentable (`Present`) outside of a frame's recorded span and
//! a render target (`RenderTarget`) only between the two barriers a recorded
//! frame emits.

use vstd::prelude::*;

verus! {

/// The usage state a swapchain color buffer is in at a point of a command
/// stream.
#[derive(Clone, Copy, PartialEq, Eq, Structural, Debug)]
pub enum ResourceState {
    /// The buffer may be handed to the presentation engine.
    Present,
    /// The buffer is bound as the render target of in-flight commands.
    RenderTarget,
}

/// A declared change of a buffer's usage state, emitted into a command list
/// as a barrier.
#[derive(Clone, Copy, PartialEq, Eq, Structural, Debug)]
pub struct BarrierTransition {
    /// The state the buffer must be in when the barrier executes.
    pub before: ResourceState,
    /// The state the buffer is in after the barrier executes.
    pub after: ResourceState,
}

/// The buffer state after running the transitions of `ts` in order, starting
/// from `init`, ignoring whether each step's `before` matches.
pub open spec fn state_after(init: ResourceState, ts: Seq<BarrierTransition>) -> ResourceState
    decreases ts.len(),
{
    if ts.len() == 0 {
        init
    } else {
        state_after(ts[0].after, ts.skip(1))
    }
}

/// Every transition in `ts` starts from the state the previous ones left the
/// buffer in: no barrier lies about the buffer's current state.
pub open spec fn transitions_consistent(init: ResourceState, ts: Seq<BarrierTransition>) -> bool
    decreases ts.len(),
{
    if ts.len() == 0 {
        true
    } else {
        ts[0].before == init && transitions_consistent(ts[0].after, ts.skip(1))
    }
}

/// The exact barrier sequence a recorded frame issues for its buffer:
/// presentable to render target, then back.
pub open spec fn frame_transition_seq() -> Seq<BarrierTransition> {
    seq![
        BarrierTransition { before: ResourceState::Present, after: ResourceState::RenderTarget },
        BarrierTransition { before: ResourceState::RenderTarget, after: ResourceState::Present },
    ]
}

/// The frame's barrier sequence is consistent starting from a presentable
/// buffer and returns the buffer to the presentable state: the round trip
/// leaves no buffer stuck as a render target.
pub proof fn lemma_frame_round_trip()
    ensures
        transitions_consistent(ResourceState::Present, frame_transition_seq()),
        state_after(ResourceState::Present, frame_transition_seq()) == ResourceState::Present,
{
    let ts = frame_transition_seq();
    let tail = ts.skip(1);
    assert(tail =~= seq![
        BarrierTransition { before: ResourceState::RenderTarget, after: ResourceState::Present },
    ]);
    assert(tail.skip(1) =~= Seq::<BarrierTransition>::empty());
    assert(state_after(ResourceState::Present, tail.skip(1)) == ResourceState::Present);
    assert(state_after(ResourceState::RenderTarget, tail) == ResourceState::Present);
    assert(transitions_consistent(ResourceState::Present, tail.skip(1)));
    assert(transitions_consistent(ResourceState::RenderTarget, tail));
}

} // verus!
