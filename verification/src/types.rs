//! Plain data carried between the client, its caller, and the ingress side.

use vstd::prelude::*;

verus! {

/// Dispatch discipline of a client, fixed at construction.
#[derive(Clone, Copy, PartialEq, Eq, Structural, Debug)]
pub enum Mode {
    /// `send` polls for a response until a terminal outcome is produced.
    Blocking,
    /// `send` polls for a response once and otherwise reports "would block".
    NonBlocking,
    /// `send` polls for a response until one arrives or the per-command
    /// timeout elapses.
    Timeout,
}

/// Error kinds surfaced to the host.
#[derive(Clone, Copy, PartialEq, Eq, Structural, Debug)]
pub enum Error {
    /// Ingress-side read failure.
    Read,
    /// Terminal transport write or flush failure; the command was not fully
    /// sent.
    Write,
    /// The bounded-timeout mode gave up waiting for a response.
    Timeout,
    /// A response line did not have the shape the command expects.
    InvalidResponse,
    /// A quoted string was expected but something else was found.
    ParseString,
    /// The turn was aborted by the ingress side.
    Aborted,
    /// A numeric argument did not fit its target type.
    Overflow,
}

/// Outcome of a non-blocking operation: either a terminal error or a
/// non-terminal "call again" signal.
#[derive(Clone, Copy, PartialEq, Eq, Structural, Debug)]
pub enum NbError {
    /// No terminal outcome yet; poll again.
    WouldBlock,
    /// Terminal error for this turn.
    Other(Error),
}

/// Protocol-turn state of the client.
#[derive(Clone, Copy, PartialEq, Eq, Structural, Debug)]
pub enum ClientState {
    /// No command is in flight.
    Idle,
    /// Exactly one command has been emitted and awaits its response.
    AwaitingResponse,
}

/// State that the client may ask the ingress parser to assume.
#[derive(Clone, Copy, PartialEq, Eq, Structural, Debug)]
pub enum IngressState {
    /// Treat subsequent bytes as a response even without a command echo.
    ReceivingResponse,
}

/// Best-effort control signals sent from the client to the ingress parser.
#[derive(Clone, Copy, PartialEq, Eq, Structural, Debug)]
pub enum Command {
    /// Ask the parser to move to the given state.
    ForceState(IngressState),
    /// Ask the parser to discard any partial line accumulated so far.
    ClearBuffer,
}

/// Client configuration, immutable after construction.
#[derive(Clone, Copy, PartialEq, Eq, Structural, Debug)]
pub struct Config {
    /// Dispatch discipline.
    pub mode: Mode,
    /// Minimum quiet period in milliseconds after any consumed response or
    /// URC before the next command may be written.
    pub cmd_cooldown: u32,
}

impl Config {
    /// A configuration with the given mode and the default cooldown.
    pub fn new(mode: Mode) -> (r: Config)
        ensures
            r.mode == mode,
            r.cmd_cooldown == 20u32,
    {
        Config { mode, cmd_cooldown: 20 }
    }

    /// The same configuration with another inter-command cooldown.
    pub fn cmd_cooldown(self, ms: u32) -> (r: Config)
        ensures
            r.mode == self.mode,
            r.cmd_cooldown == ms,
    {
        Config { cmd_cooldown: ms, ..self }
    }
}

} // verus!
