//! A model of the shared command list and of the fixed per-frame recording.
//!
//! The list mirrors the lifecycle the GPU API enforces: it is either open for
//! recording or closed, commands may only be emitted while open, it must be
//! closed before submission, and closing a closed list or resetting an open
//! one is a usage fault. Recording a frame emits the one fixed command
//! sequence of this engine: transition the buffer to a render target, bind
//! it, clear it, transition it back, close.

use vstd::prelude::*;

use crate::errors::SubmissionError;
use crate::state::BarrierTransition;
use crate::state::ResourceState;
use crate::state::frame_transition_seq;
use crate::state::state_after;
use crate::state::transitions_consistent;

verus! {

/// One recorded GPU command, reduced to what the engine's invariants read.
#[derive(Clone, Copy, PartialEq, Eq, Structural, Debug)]
pub enum RenderCommand {
    /// A resource barrier declaring a buffer's state transition.
    Barrier(BarrierTransition),
    /// Bind the render-target view of buffer `slot` as the sole target.
    BindTarget { slot: usize },
    /// Clear the bound view of buffer `slot` to the fixed clear color.
    Clear { slot: usize },
}

/// The barrier transitions of `cmds`, in emission order.
pub open spec fn barriers_of(cmds: Seq<RenderCommand>) -> Seq<BarrierTransition>
    decreases cmds.len(),
{
    if cmds.len() == 0 {
        Seq::empty()
    } else {
        let rest = barriers_of(cmds.skip(1));
        match cmds[0] {
            RenderCommand::Barrier(t) => seq![t] + rest,
            _ => rest,
        }
    }
}

/// The exact command sequence one frame records for buffer `slot`.
pub open spec fn frame_commands(slot: usize) -> Seq<RenderCommand> {
    seq![
        RenderCommand::Barrier(
            BarrierTransition {
                before: ResourceState::Present,
                after: ResourceState::RenderTarget,
            },
        ),
        RenderCommand::BindTarget { slot },
        RenderCommand::Clear { slot },
        RenderCommand::Barrier(
            BarrierTransition {
                before: ResourceState::RenderTarget,
                after: ResourceState::Present,
            },
        ),
    ]
}

/// The single reusable command list, either open for recording or closed.
pub struct CommandList {
    open_list: bool,
    commands: Vec<RenderCommand>,
}

impl CommandList {
    /// Whether the list is closed and may be submitted.
    pub closed spec fn is_closed(self) -> bool {
        !self.open_list
    }

    /// The commands recorded since the last reset, in order.
    pub closed spec fn commands(self) -> Seq<RenderCommand> {
        self.commands@
    }

    /// A freshly created list: open for recording and empty, as the GPU API
    /// hands it out.
    pub fn create() -> (r: CommandList)
        ensures
            !r.is_closed(),
            r.commands() == Seq::<RenderCommand>::empty(),
    {
        CommandList { open_list: true, commands: Vec::new() }
    }

    /// Close the list so it can be submitted. Closing an already-closed list
    /// is a usage fault and changes nothing.
    pub fn close(&mut self) -> (r: Result<(), SubmissionError>)
        ensures
            old(self).is_closed() ==> r == Err::<(), _>(SubmissionError::AlreadyClosed)
                && *final(self) == *old(self),
            !old(self).is_closed() ==> r == Ok::<_, SubmissionError>(()) && final(self).is_closed()
                && final(self).commands() == old(self).commands(),
    {
        if self.open_list {
            self.open_list = false;
            Ok(())
        } else {
            Err(SubmissionError::AlreadyClosed)
        }
    }

    /// Reopen a closed list for a new frame, dropping the previous frame's
    /// commands. Resetting a list that is still recording is a usage fault
    /// and changes nothing.
    pub fn reset(&mut self) -> (r: Result<(), SubmissionError>)
        ensures
            !old(self).is_closed() ==> r == Err::<(), _>(SubmissionError::ResetWhileRecording)
                && *final(self) == *old(self),
            old(self).is_closed() ==> r == Ok::<_, SubmissionError>(()) && !final(self).is_closed()
                && final(self).commands() == Seq::<RenderCommand>::empty(),
    {
        if self.open_list {
            Err(SubmissionError::ResetWhileRecording)
        } else {
            self.open_list = true;
            self.commands = Vec::new();
            Ok(())
        }
    }

    /// Emit one command into an open list. Emitting into a closed list is a
    /// usage fault and changes nothing.
    pub fn emit(&mut self, cmd: RenderCommand) -> (r: Result<(), SubmissionError>)
        ensures
            old(self).is_closed() ==> r == Err::<(), _>(SubmissionError::CommandAfterClose)
                && *final(self) == *old(self),
            !old(self).is_closed() ==> r == Ok::<_, SubmissionError>(()) && !final(self).is_closed()
                && final(self).commands() == old(self).commands().push(cmd),
    {
        if self.open_list {
            self.commands.push(cmd);
            Ok(())
        } else {
            Err(SubmissionError::CommandAfterClose)
        }
    }

    /// Whether the list is closed and may be submitted.
    pub fn closed_now(&self) -> (b: bool)
        ensures
            b == self.is_closed(),
    {
        !self.open_list
    }

    /// Number of commands recorded since the last reset.
    pub fn command_count(&self) -> (n: usize)
        ensures
            n == self.commands().len(),
    {
        self.commands.len()
    }

    /// The `i`-th recorded command.
    pub fn command_at(&self, i: usize) -> (c: RenderCommand)
        requires
            i < self.commands().len(),
        ensures
            c == self.commands()[i as int],
    {
        self.commands[i]
    }
}

/// Record one frame's commands for buffer `slot` into `list`, which must be
/// closed from the previous frame. The recorded stream is exactly
/// [`frame_commands`], and the list comes back closed, ready to submit. Given
/// a closed list the steps cannot fault, so the result is always `Ok`.
pub fn record_frame(list: &mut CommandList, slot: usize) -> (r: Result<(), SubmissionError>)
    requires
        old(list).is_closed(),
    ensures
        r == Ok::<_, SubmissionError>(()),
        final(list).is_closed(),
        final(list).commands() =~= frame_commands(slot),
{
    if let Err(e) = list.reset() {
        return Err(e);
    }
    let to_target = RenderCommand::Barrier(
        BarrierTransition { before: ResourceState::Present, after: ResourceState::RenderTarget },
    );
    if let Err(e) = list.emit(to_target) {
        return Err(e);
    }
    if let Err(e) = list.emit(RenderCommand::BindTarget { slot }) {
        return Err(e);
    }
    if let Err(e) = list.emit(RenderCommand::Clear { slot }) {
        return Err(e);
    }
    let to_present = RenderCommand::Barrier(
        BarrierTransition { before: ResourceState::RenderTarget, after: ResourceState::Present },
    );
    if let Err(e) = list.emit(to_present) {
        return Err(e);
    }
    if let Err(e) = list.close() {
        return Err(e);
    }
    Ok(())
}

/// Every recorded frame takes its buffer through exactly the transitions
/// presentable, render target, presentable again: the barrier stream is
/// consistent and never leaves the buffer as a render target once the list
/// is closed.
pub proof fn lemma_recorded_frame_round_trip(slot: usize)
    ensures
        barriers_of(frame_commands(slot)) =~= frame_transition_seq(),
        transitions_consistent(ResourceState::Present, barriers_of(frame_commands(slot))),
        state_after(ResourceState::Present, barriers_of(frame_commands(slot)))
            == ResourceState::Present,
{
    let cmds = frame_commands(slot);
    let c1 = cmds.skip(1);
    let c2 = c1.skip(1);
    let c3 = c2.skip(1);
    let c4 = c3.skip(1);
    assert(c1 =~= seq![
        RenderCommand::BindTarget { slot },
        RenderCommand::Clear { slot },
        RenderCommand::Barrier(
            BarrierTransition {
                before: ResourceState::RenderTarget,
                after: ResourceState::Present,
            },
        ),
    ]);
    assert(c2 =~= seq![
        RenderCommand::Clear { slot },
        RenderCommand::Barrier(
            BarrierTransition {
                before: ResourceState::RenderTarget,
                after: ResourceState::Present,
            },
        ),
    ]);
    assert(c3 =~= seq![
        RenderCommand::Barrier(
            BarrierTransition {
                before: ResourceState::RenderTarget,
                after: ResourceState::Present,
            },
        ),
    ]);
    assert(c4 =~= Seq::<RenderCommand>::empty());
    assert(barriers_of(c4) =~= Seq::<BarrierTransition>::empty());
    assert(barriers_of(c3) =~= seq![
        BarrierTransition { before: ResourceState::RenderTarget, after: ResourceState::Present },
    ]);
    assert(barriers_of(c2) =~= barriers_of(c3));
    assert(barriers_of(c1) =~= barriers_of(c2));
    assert(barriers_of(cmds) =~= frame_transition_seq());
    crate::state::lemma_frame_round_trip();
}

} // verus!
