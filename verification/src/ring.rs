//! The frame ring: per-slot fence bookkeeping and the frame driver's state
//! machine.
//!
//! The ring owns the CPU-side model of the fence timeline: the highest value
//! whose signal has been enqueued (`signaled`), the highest GPU progress the
//! host has observed (`completed`), and, per slot, the fence value the GPU
//! must reach before that slot's allocator may be reset again. The platform
//! layer performs the actual queue, present and wait calls and feeds their
//! outcomes in as events; every decision — which value to signal, whether a
//! wait is needed, what each slot's next target is — is made and proved here.
//!
//! One frame iteration steps through the phases `Idle` (slot reusable),
//! `Recording`, `Submitted`, `Presented` (fence value signaled), `Settling`
//! (deciding whether the adopted slot needs a wait) and possibly `Waiting`,
//! then back to `Idle`. The shutdown drain reuses the same settle/wait path.

use vstd::prelude::*;

use crate::commands::CommandList;
use crate::errors::PresentError;

verus! {

/// Where the frame driver stands inside one iteration.
#[derive(Clone, Copy, PartialEq, Eq, Structural, Debug)]
pub enum Phase {
    /// Between iterations: the active slot's previous work is known complete
    /// and its allocator may be reset.
    Idle,
    /// The active slot's allocator was reset and the frame's commands are
    /// being recorded.
    Recording,
    /// The closed command list was handed to the queue.
    Submitted,
    /// The frame was presented and its fence value signaled.
    Presented,
    /// A slot was adopted as current; the ring still has to decide whether
    /// its previous work requires a blocking wait.
    Settling,
    /// A blocking wait on the current slot's fence target is outstanding.
    Waiting,
    /// Registering a fence wait failed; only the shutdown drain may follow.
    Aborted,
}

/// The frame ring and its fence timeline model.
pub struct FrameRing {
    frame_count: usize,
    frame_index: usize,
    fence_targets: Vec<u64>,
    last_signaled: u64,
    observed_completed: u64,
    phase: Phase,
    covers: Ghost<Seq<u64>>,
}

impl FrameRing {
    /// Number of slots in the ring.
    pub closed spec fn frame_count(self) -> usize {
        self.frame_count
    }

    /// The active slot.
    pub closed spec fn frame_index(self) -> usize {
        self.frame_index
    }

    /// The driver's position inside the current iteration.
    pub closed spec fn phase(self) -> Phase {
        self.phase
    }

    /// Slot `i`'s stored fence target value.
    pub closed spec fn fence_target(self, i: int) -> u64 {
        self.fence_targets@[i]
    }

    /// The highest GPU fence progress the host has observed.
    pub closed spec fn completed(self) -> u64 {
        self.observed_completed
    }

    /// The highest fence value whose signal has been enqueued on the queue.
    pub closed spec fn signaled(self) -> u64 {
        self.last_signaled
    }

    /// The fence value covering slot `i`'s last submitted GPU work: once the
    /// fence reaches it, no in-flight commands reference the slot's
    /// allocator.
    pub closed spec fn slot_cover(self, i: int) -> u64 {
        self.covers@[i]
    }

    /// The active slot's target is the value its upcoming work will signal:
    /// one past everything signaled so far, or zero on a fresh ring.
    spec fn active_target_fresh(self) -> bool {
        ||| self.fence_targets@[self.frame_index as int] == self.last_signaled + 1
        ||| (self.last_signaled == 0 && self.fence_targets@[self.frame_index as int] == 0)
    }

    /// The phase-dependent part of well-formedness.
    spec fn phase_inv(self) -> bool {
        match self.phase {
            Phase::Idle | Phase::Recording | Phase::Submitted => {
                &&& self.observed_completed >= self.covers@[self.frame_index as int]
                &&& self.active_target_fresh()
            },
            Phase::Presented => {
                &&& self.last_signaled == self.fence_targets@[self.frame_index as int]
                &&& self.fence_targets@[self.frame_index as int]
                    == self.covers@[self.frame_index as int]
            },
            Phase::Settling | Phase::Waiting => {
                self.fence_targets@[self.frame_index as int]
                    == self.covers@[self.frame_index as int]
            },
            Phase::Aborted => true,
        }
    }

    /// Well-formedness of the ring: every constructor establishes it and
    /// every method preserves it. The observed completed value never runs
    /// ahead of what was signaled, every slot's cover was produced by a
    /// prior signal, and every inactive slot's stored target is exactly the
    /// cover of its last submitted work.
    pub closed spec fn wf(self) -> bool {
        &&& 1 <= self.frame_count
        &&& self.frame_index < self.frame_count
        &&& self.fence_targets@.len() == self.frame_count
        &&& self.covers@.len() == self.frame_count
        &&& self.observed_completed <= self.last_signaled
        &&& forall|i: int|
            0 <= i < self.frame_count ==> #[trigger] self.covers@[i] <= self.last_signaled
        &&& forall|i: int|
            0 <= i < self.frame_count && i != self.frame_index
                ==> #[trigger] self.fence_targets@[i] == self.covers@[i]
        &&& self.phase_inv()
    }

    /// `completed` as the ring will take it in: GPU progress beyond the last
    /// signaled value is never believed.
    pub open spec fn clamped(self, completed: u64) -> u64 {
        if completed > self.signaled() {
            self.signaled()
        } else {
            completed
        }
    }

    /// The observed progress after folding in a reading of `completed`:
    /// monotone by construction.
    pub open spec fn joined(self, completed: u64) -> u64 {
        if self.clamped(completed) > self.completed() {
            self.clamped(completed)
        } else {
            self.completed()
        }
    }

    /// Whether adopting the current slot requires a blocking wait, given a
    /// reading `completed` of the fence's completed value.
    pub open spec fn wait_needed(self, completed: u64) -> bool {
        self.joined(completed) < self.fence_target(self.frame_index() as int)
    }

    /// A fresh ring: every slot's fence target is zero, nothing signaled,
    /// nothing observed, ready to record into `initial_index`.
    pub fn new(frame_count: usize, initial_index: usize) -> (r: FrameRing)
        requires
            1 <= frame_count,
            initial_index < frame_count,
        ensures
            r.wf(),
            r.phase() == Phase::Idle,
            r.frame_count() == frame_count,
            r.frame_index() == initial_index,
            r.completed() == 0,
            r.signaled() == 0,
            forall|i: int| 0 <= i < frame_count ==> r.fence_target(i) == 0,
            forall|i: int| 0 <= i < frame_count ==> r.slot_cover(i) == 0,
    {
        let mut fence_targets: Vec<u64> = Vec::new();
        let mut i: usize = 0;
        while i < frame_count
            invariant
                i <= frame_count,
                fence_targets@.len() == i,
                forall|j: int| 0 <= j < i ==> fence_targets@[j] == 0u64,
            decreases frame_count - i,
        {
            fence_targets.push(0);
            i += 1;
        }
        FrameRing {
            frame_count,
            frame_index: initial_index,
            fence_targets,
            last_signaled: 0,
            observed_completed: 0,
            phase: Phase::Idle,
            covers: Ghost(Seq::new(frame_count as nat, |j: int| 0u64)),
        }
    }

    /// Start an iteration: the active slot's allocator may be reset because
    /// its last submitted work is already complete, and recording begins.
    /// Returns the slot whose allocator the platform layer resets.
    pub fn begin_frame(&mut self) -> (slot: usize)
        requires
            old(self).wf(),
            old(self).phase() == Phase::Idle,
        ensures
            final(self).wf(),
            slot == old(self).frame_index(),
            slot < old(self).frame_count(),
            old(self).completed() >= old(self).slot_cover(slot as int),
            final(self).phase() == Phase::Recording,
            same_ring_sync(*old(self), *final(self)),
    {
        self.phase = Phase::Recording;
        self.frame_index
    }

    /// Hand the closed command list to the queue. The list must be closed:
    /// submitting an open list is a usage fault the driver never commits.
    pub fn submit(&mut self, list: &CommandList)
        requires
            old(self).wf(),
            old(self).phase() == Phase::Recording,
            list.is_closed(),
        ensures
            final(self).wf(),
            final(self).phase() == Phase::Submitted,
            same_ring_sync(*old(self), *final(self)),
    {
        self.phase = Phase::Submitted;
    }

    /// Fold in the outcome of the present call. On success the frame's fence
    /// value — the active slot's stored target — is returned for the
    /// platform layer to signal, and the ring records it as both the highest
    /// signaled value and the cover of the active slot's work. On failure
    /// the error is surfaced before any signal and nothing changes: the
    /// active frame index does not advance.
    pub fn present_outcome(&mut self, outcome: Result<(), PresentError>) -> (r: Result<
        u64,
        PresentError,
    >)
        requires
            old(self).wf(),
            old(self).phase() == Phase::Submitted,
        ensures
            final(self).wf(),
            (match outcome {
                Err(e) => r == Err::<u64, PresentError>(e) && *final(self) == *old(self),
                Ok(()) => {
                    &&& r == Ok::<u64, PresentError>(
                        old(self).fence_target(old(self).frame_index() as int),
                    )
                    &&& final(self).phase() == Phase::Presented
                    &&& final(self).frame_index() == old(self).frame_index()
                    &&& final(self).frame_count() == old(self).frame_count()
                    &&& final(self).completed() == old(self).completed()
                    &&& final(self).signaled() == old(self).fence_target(
                        old(self).frame_index() as int,
                    )
                    &&& final(self).signaled() >= old(self).signaled()
                    &&& forall|i: int|
                        0 <= i < old(self).frame_count() ==> final(self).fence_target(i) == old(
                            self,
                        ).fence_target(i)
                    &&& final(self).slot_cover(old(self).frame_index() as int) == old(
                        self,
                    ).fence_target(old(self).frame_index() as int)
                    &&& forall|i: int|
                        0 <= i < old(self).frame_count() && i != old(self).frame_index()
                            ==> final(self).slot_cover(i) == old(self).slot_cover(i)
                },
            }),
    {
        match outcome {
            Err(e) => Err(e),
            Ok(()) => {
                let v = self.fence_targets[self.frame_index];
                if v > self.last_signaled {
                    self.last_signaled = v;
                }
                proof {
                    self.covers@ = self.covers@.update(self.frame_index as int, v);
                }
                self.phase = Phase::Presented;
                Ok(v)
            },
        }
    }

    /// Adopt the back-buffer index the swapchain reported after the present
    /// as the new active slot. Whether its previous work requires a wait is
    /// decided next, by [`Self::settle`].
    pub fn adopt(&mut self, new_index: usize)
        requires
            old(self).wf(),
            old(self).phase() == Phase::Presented,
            new_index < old(self).frame_count(),
        ensures
            final(self).wf(),
            final(self).phase() == Phase::Settling,
            final(self).frame_index() == new_index,
            final(self).frame_count() == old(self).frame_count(),
            final(self).completed() == old(self).completed(),
            final(self).signaled() == old(self).signaled(),
            forall|i: int|
                0 <= i < old(self).frame_count() ==> final(self).fence_target(i) == old(
                    self,
                ).fence_target(i),
            forall|i: int|
                0 <= i < old(self).frame_count() ==> final(self).slot_cover(i) == old(
                    self,
                ).slot_cover(i),
    {
        self.frame_index = new_index;
        self.phase = Phase::Settling;
    }

    /// Decide, from a reading of the fence's completed value, whether the
    /// adopted slot's previous work is still in flight. If it is, the wait
    /// target is returned and the ring blocks in `Waiting`; a value the GPU
    /// has already reached never asks for a wait. Otherwise the slot is
    /// reusable at once: its target becomes the next frame's fence value,
    /// strictly greater than every value stored before, and the ring is back
    /// to `Idle`.
    pub fn settle(&mut self, completed: u64) -> (w: Option<u64>)
        requires
            old(self).wf(),
            old(self).phase() == Phase::Settling,
            old(self).signaled() < u64::MAX,
        ensures
            final(self).wf(),
            final(self).completed() == old(self).joined(completed),
            final(self).completed() >= old(self).completed(),
            final(self).frame_index() == old(self).frame_index(),
            final(self).frame_count() == old(self).frame_count(),
            final(self).signaled() == old(self).signaled(),
            forall|i: int|
                0 <= i < old(self).frame_count() ==> final(self).slot_cover(i) == old(
                    self,
                ).slot_cover(i),
            completed >= old(self).fence_target(old(self).frame_index() as int) ==> w
                == None::<u64>,
            (if old(self).wait_needed(completed) {
                &&& w == Some(old(self).fence_target(old(self).frame_index() as int))
                &&& final(self).phase() == Phase::Waiting
                &&& forall|i: int|
                    0 <= i < old(self).frame_count() ==> final(self).fence_target(i) == old(
                        self,
                    ).fence_target(i)
            } else {
                &&& w == None::<u64>
                &&& final(self).phase() == Phase::Idle
                &&& final(self).fence_target(old(self).frame_index() as int) == old(self).signaled()
                    + 1
                &&& final(self).fence_target(old(self).frame_index() as int) > old(
                    self,
                ).fence_target(old(self).frame_index() as int)
                &&& forall|i: int|
                    0 <= i < old(self).frame_count() && i != old(self).frame_index()
                        ==> final(self).fence_target(i) == old(self).fence_target(i)
            }),
    {
        let reading = if completed > self.last_signaled {
            self.last_signaled
        } else {
            completed
        };
        if reading > self.observed_completed {
            self.observed_completed = reading;
        }
        let target = self.fence_targets[self.frame_index];
        if self.observed_completed < target {
            self.phase = Phase::Waiting;
            Some(target)
        } else {
            self.fence_targets.set(self.frame_index, self.last_signaled + 1);
            self.phase = Phase::Idle;
            None
        }
    }

    /// The blocking wait returned: the fence has reached the current slot's
    /// target, so the slot is reusable. Its target becomes the next frame's
    /// fence value, strictly greater than every value stored before.
    pub fn wait_done(&mut self)
        requires
            old(self).wf(),
            old(self).phase() == Phase::Waiting,
            old(self).signaled() < u64::MAX,
        ensures
            final(self).wf(),
            final(self).phase() == Phase::Idle,
            final(self).completed() == (if old(self).completed() > old(self).fence_target(
                old(self).frame_index() as int,
            ) {
                old(self).completed()
            } else {
                old(self).fence_target(old(self).frame_index() as int)
            }),
            final(self).completed() >= old(self).completed(),
            final(self).completed() >= old(self).fence_target(old(self).frame_index() as int),
            final(self).frame_index() == old(self).frame_index(),
            final(self).frame_count() == old(self).frame_count(),
            final(self).signaled() == old(self).signaled(),
            final(self).fence_target(old(self).frame_index() as int) == old(self).signaled() + 1,
            final(self).fence_target(old(self).frame_index() as int) > old(self).fence_target(
                old(self).frame_index() as int,
            ),
            forall|i: int|
                0 <= i < old(self).frame_count() && i != old(self).frame_index()
                    ==> final(self).fence_target(i) == old(self).fence_target(i),
            forall|i: int|
                0 <= i < old(self).frame_count() ==> final(self).slot_cover(i) == old(
                    self,
                ).slot_cover(i),
    {
        let target = self.fence_targets[self.frame_index];
        if target > self.observed_completed {
            self.observed_completed = target;
        }
        self.fence_targets.set(self.frame_index, self.last_signaled + 1);
        self.phase = Phase::Idle;
    }

    /// Registering the wait failed: the fence's progress is unknown, so the
    /// ring refuses further frames. Only the shutdown drain may follow.
    pub fn wait_aborted(&mut self)
        requires
            old(self).wf(),
            old(self).phase() == Phase::Waiting,
        ensures
            final(self).wf(),
            final(self).phase() == Phase::Aborted,
            same_ring_sync(*old(self), *final(self)),
    {
        self.phase = Phase::Aborted;
    }

    /// Start the shutdown drain (also the only move allowed after an aborted
    /// wait): the active slot's target is returned for the platform layer to
    /// signal; because the queue is FIFO, the fence reaching it means every
    /// submitted command has finished. The ring then settles on it through
    /// the ordinary [`Self::settle`] path, so a drain whose value the GPU
    /// has already reached never blocks.
    pub fn begin_drain(&mut self) -> (v: u64)
        requires
            old(self).wf(),
            old(self).phase() != Phase::Settling,
            old(self).phase() != Phase::Waiting,
        ensures
            final(self).wf(),
            final(self).phase() == Phase::Settling,
            v == old(self).fence_target(old(self).frame_index() as int),
            final(self).signaled() == (if v > old(self).signaled() {
                v
            } else {
                old(self).signaled()
            }),
            final(self).signaled() >= old(self).signaled(),
            final(self).fence_target(final(self).frame_index() as int) <= final(self).signaled(),
            final(self).completed() == old(self).completed(),
            final(self).frame_index() == old(self).frame_index(),
            final(self).frame_count() == old(self).frame_count(),
            forall|i: int|
                0 <= i < old(self).frame_count() ==> final(self).fence_target(i) == old(
                    self,
                ).fence_target(i),
            final(self).slot_cover(old(self).frame_index() as int) == v,
            forall|i: int|
                0 <= i < old(self).frame_count() && i != old(self).frame_index()
                    ==> final(self).slot_cover(i) == old(self).slot_cover(i),
    {
        let v = self.fence_targets[self.frame_index];
        if v > self.last_signaled {
            self.last_signaled = v;
        }
        proof {
            self.covers@ = self.covers@.update(self.frame_index as int, v);
        }
        self.phase = Phase::Settling;
        v
    }

    /// Number of slots in the ring.
    pub fn slot_count(&self) -> (n: usize)
        ensures
            n == self.frame_count(),
    {
        self.frame_count
    }

    /// The active slot.
    pub fn current_index(&self) -> (i: usize)
        ensures
            i == self.frame_index(),
    {
        self.frame_index
    }

    /// The driver's position inside the current iteration.
    pub fn current_phase(&self) -> (p: Phase)
        ensures
            p == self.phase(),
    {
        self.phase
    }

    /// Slot `i`'s stored fence target value.
    pub fn target_value(&self, i: usize) -> (t: u64)
        requires
            i < self.frame_count(),
            self.wf(),
        ensures
            t == self.fence_target(i as int),
    {
        self.fence_targets[i]
    }

    /// The highest GPU fence progress the host has observed.
    pub fn completed_value(&self) -> (c: u64)
        ensures
            c == self.completed(),
    {
        self.observed_completed
    }

    /// The highest fence value whose signal has been enqueued.
    pub fn signaled_value(&self) -> (s: u64)
        ensures
            s == self.signaled(),
    {
        self.last_signaled
    }
}

/// The fence timeline and slot bookkeeping of `post` are those of `pre`:
/// only the driver's phase may differ.
pub open spec fn same_ring_sync(pre: FrameRing, post: FrameRing) -> bool {
    &&& post.frame_count() == pre.frame_count()
    &&& post.frame_index() == pre.frame_index()
    &&& post.completed() == pre.completed()
    &&& post.signaled() == pre.signaled()
    &&& forall|i: int|
        0 <= i < pre.frame_count() ==> #[trigger] post.fence_target(i) == pre.fence_target(i)
    &&& forall|i: int|
        0 <= i < pre.frame_count() ==> #[trigger] post.slot_cover(i) == pre.slot_cover(i)
}

/// No allocator reset races a pending read: whenever the ring is idle — the
/// moment the active slot is about to be reused — the fence value covering
/// that slot's last submitted work is already at or below the observed
/// completed value.
pub proof fn lemma_reuse_is_covered(s: FrameRing)
    requires
        s.wf(),
        s.phase() == Phase::Idle,
    ensures
        s.slot_cover(s.frame_index() as int) <= s.completed(),
{
}

/// A wait whose target the fence has already reached returns immediately:
/// the ring never asks the platform layer to block on a value at or below
/// the completed reading, so repeating an already-satisfied drain cannot
/// block.
pub proof fn lemma_met_wait_returns_immediately(s: FrameRing, completed: u64)
    requires
        s.wf(),
        s.phase() == Phase::Settling,
        completed >= s.fence_target(s.frame_index() as int),
    ensures
        !s.wait_needed(completed),
{
}

/// The ring never deadlocks: any value it asks the platform layer to wait
/// on was already produced by a prior signal on the same fence.
pub proof fn lemma_wait_target_signaled(s: FrameRing)
    requires
        s.wf(),
        s.phase() == Phase::Settling || s.phase() == Phase::Waiting,
    ensures
        s.fence_target(s.frame_index() as int) <= s.signaled(),
{
}

} // verus!
