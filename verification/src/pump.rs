//! Decisions of the cooperative message pump and of window-class lifetime.
//!
//! The platform layer pumps messages and reports what it saw; the engine
//! decides what follows: dispatch a pending message, render exactly one
//! frame on idle, or leave the loop once quit was observed. The window-class
//! model keeps process-wide registration honest: registered at most once,
//! unregistered exactly once.

use vstd::prelude::*;

verus! {

/// What one pump step observed from the platform message queue.
#[derive(Clone, Copy, PartialEq, Eq, Structural, Debug)]
pub enum PumpEvent {
    /// The quit request was observed.
    Quit,
    /// A pending message other than quit was removed from the queue.
    Message,
    /// No message was pending: the thread has idle time.
    Idle,
}

/// What the host thread does next after one pump step.
#[derive(Clone, Copy, PartialEq, Eq, Structural, Debug)]
pub enum LoopAction {
    /// Leave the loop and run the shutdown drain.
    Stop,
    /// Dispatch the pending message to the window procedure.
    Dispatch,
    /// Perform exactly one frame iteration.
    RenderFrame,
}

/// The loop's one decision per pump cycle: stop on quit, dispatch a pending
/// message, and render only on the idle branch — never more than one frame
/// per cycle.
pub fn loop_action(event: PumpEvent) -> (a: LoopAction)
    ensures
        a == LoopAction::Stop <==> event == PumpEvent::Quit,
        a == LoopAction::Dispatch <==> event == PumpEvent::Message,
        a == LoopAction::RenderFrame <==> event == PumpEvent::Idle,
{
    match event {
        PumpEvent::Quit => LoopAction::Stop,
        PumpEvent::Message => LoopAction::Dispatch,
        PumpEvent::Idle => LoopAction::RenderFrame,
    }
}

/// What the window procedure was invoked for, reduced to what the engine's
/// decision reads.
#[derive(Clone, Copy, PartialEq, Eq, Structural, Debug)]
pub enum WindowEvent {
    /// The window is being destroyed.
    Destroyed,
    /// Any other message; the platform's default handling applies.
    Other,
}

/// Whether the window procedure posts the quit request: exactly on window
/// destruction, never otherwise.
pub fn posts_quit(event: WindowEvent) -> (q: bool)
    ensures
        q <==> event == WindowEvent::Destroyed,
{
    match event {
        WindowEvent::Destroyed => true,
        WindowEvent::Other => false,
    }
}

/// Lifetime of the process-wide window-class registration.
#[derive(Clone, Copy, PartialEq, Eq, Structural, Debug)]
pub enum RegistrationState {
    /// Never registered in this process.
    Fresh,
    /// Registered; the class may back windows.
    Registered,
    /// Unregistered at shutdown; registration is never attempted again.
    Retired,
}

/// The process-wide window-class state: explicit init before the first
/// window, explicit teardown exactly once at shutdown.
pub struct WindowClass {
    state: RegistrationState,
}

impl WindowClass {
    /// Where the class stands in its lifetime.
    pub closed spec fn state(self) -> RegistrationState {
        self.state
    }

    /// A class that was never registered.
    pub fn new() -> (r: WindowClass)
        ensures
            r.state() == RegistrationState::Fresh,
    {
        WindowClass { state: RegistrationState::Fresh }
    }

    /// Register the class. A registration must not be attempted twice in
    /// one process lifetime, so only a fresh class may register.
    pub fn register(&mut self)
        requires
            old(self).state() == RegistrationState::Fresh,
        ensures
            final(self).state() == RegistrationState::Registered,
    {
        self.state = RegistrationState::Registered;
    }

    /// Unregister the class at shutdown, exactly once, and only if it was
    /// registered.
    pub fn unregister(&mut self)
        requires
            old(self).state() == RegistrationState::Registered,
        ensures
            final(self).state() == RegistrationState::Retired,
    {
        self.state = RegistrationState::Retired;
    }

    /// Where the class stands in its lifetime.
    pub fn current_state(&self) -> (s: RegistrationState)
        ensures
            s == self.state(),
    {
        self.state
    }
}

} // verus!
