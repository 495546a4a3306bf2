//! The shutdown coordinator: wait for the interrupt, close the session, and
//! leave the process with exit code 0.

use vstd::prelude::*;

verus! {

/// The exit code of a clean shutdown.
pub const CLEAN_EXIT: i32 = 0;

/// Where the coordinator stands.
#[derive(Clone, Copy, Debug, PartialEq, Eq)]
pub enum ShutdownPhase {
    /// Waiting for the interrupt signal.
    Watching,
    /// The interrupt came and the session is being closed.
    Closing,
    /// The session is closed and the process was told to exit.
    Exited,
}

/// What is reported to the coordinator.
#[derive(Clone, Copy, Debug, PartialEq, Eq)]
pub enum ShutdownInput {
    /// The interrupt signal arrived.
    Interrupt,
    /// The session has been closed.
    Closed,
}

/// What the coordinator asks for next.
#[derive(Clone, Copy, Debug, PartialEq, Eq)]
pub enum ShutdownAction {
    /// Keep waiting for the interrupt.
    AwaitInterrupt,
    /// Close the session, which ends it for every holder.
    CloseSession,
    /// Terminate the process with this exit code.
    Exit(i32),
}

/// The phase after `input` arrives in `phase`. A report that the phase does
/// not wait for changes nothing: a second interrupt starts no second
/// shutdown, and only the close that was asked for leads to the exit.
pub open spec fn shutdown_next(phase: ShutdownPhase, input: ShutdownInput) -> ShutdownPhase {
    match (phase, input) {
        (ShutdownPhase::Watching, ShutdownInput::Interrupt) => ShutdownPhase::Closing,
        (ShutdownPhase::Closing, ShutdownInput::Closed) => ShutdownPhase::Exited,
        _ => phase,
    }
}

/// What a phase is waiting for.
pub open spec fn shutdown_pending(phase: ShutdownPhase) -> ShutdownAction {
    match phase {
        ShutdownPhase::Watching => ShutdownAction::AwaitInterrupt,
        ShutdownPhase::Closing => ShutdownAction::CloseSession,
        ShutdownPhase::Exited => ShutdownAction::Exit(CLEAN_EXIT),
    }
}

/// The phase in which the coordinator starts, once the session exists.
pub fn watch() -> (out: (ShutdownPhase, ShutdownAction))
    ensures
        out.0 == ShutdownPhase::Watching,
        out.1 == shutdown_pending(out.0),
{
    (ShutdownPhase::Watching, ShutdownAction::AwaitInterrupt)
}

/// One decision of the coordinator: the next phase, and the action that
/// phase waits for.
pub fn shutdown_step(phase: ShutdownPhase, input: ShutdownInput) -> (out: (ShutdownPhase, ShutdownAction))
    ensures
        out.0 == shutdown_next(phase, input),
        out.1 == shutdown_pending(out.0),
{
    let next = match phase {
        ShutdownPhase::Watching => match input {
            ShutdownInput::Interrupt => ShutdownPhase::Closing,
            ShutdownInput::Closed => phase,
        },
        ShutdownPhase::Closing => match input {
            ShutdownInput::Closed => ShutdownPhase::Exited,
            ShutdownInput::Interrupt => phase,
        },
        ShutdownPhase::Exited => phase,
    };
    let action = match next {
        ShutdownPhase::Watching => ShutdownAction::AwaitInterrupt,
        ShutdownPhase::Closing => ShutdownAction::CloseSession,
        ShutdownPhase::Exited => ShutdownAction::Exit(CLEAN_EXIT),
    };
    (next, action)
}

/// An interrupt is answered by closing the session, and the close by an exit
/// with code 0: there is no exit before the close, no way back from either,
/// and nothing after the exit.
pub proof fn lemma_close_before_exit(phase: ShutdownPhase, input: ShutdownInput)
    ensures
        shutdown_next(ShutdownPhase::Watching, ShutdownInput::Interrupt) == ShutdownPhase::Closing,
        shutdown_next(ShutdownPhase::Closing, ShutdownInput::Closed) == ShutdownPhase::Exited,
        shutdown_pending(ShutdownPhase::Exited) == ShutdownAction::Exit(0),
        shutdown_next(phase, input) is Exited ==> phase is Exited || (phase is Closing && input is Closed),
        shutdown_next(phase, input) is Closing ==> phase is Closing || (phase is Watching && input
            is Interrupt),
        shutdown_next(ShutdownPhase::Exited, input) is Exited,
{
}

} // verus!
