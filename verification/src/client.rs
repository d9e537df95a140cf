//! The client-side request/response engine.
//!
//! One command is in flight at a time. `send` serializes a command, gates it
//! on the inter-command cooldown, writes it to the transport and then
//! dispatches on the configured mode; `check_response` consumes one response
//! slot; `check_urc` drains one unsolicited result code. The contracts below
//! pin down the protocol-turn invariants: a terminal outcome always leaves
//! the client `Idle`, bytes are emitted exactly once per turn, a retry while
//! awaiting re-emits nothing, a stale response consumed while `Idle` is
//! discarded without rearming the cooldown, and the cooldown timer is polled
//! to completion exactly once per emission.

use vstd::prelude::*;

use crate::traits::{
    AtatCmd, AtatUrc, CommandSink, Countdown, ResponseSource, SerialTx, TxOutcome, UrcSource,
};
use crate::types::{ClientState, Command, Config, Error, IngressState, Mode, NbError};

verus! {

/// The model outcome of consuming response slot `slot` while a response to
/// `cmd` is awaited: a parsed value, the command's parse error, or the
/// ingress error the slot carried.
pub open spec fn slot_outcome<A: AtatCmd>(cmd: &A, slot: Result<Vec<u8>, Error>) -> Result<
    <A::Response as View>::V,
    NbError,
> {
    match slot {
        Ok(payload) => match cmd.parse_res(payload@) {
            Ok(v) => Ok(v),
            Err(e) => Err(NbError::Other(e)),
        },
        Err(e) => Err(NbError::Other(e)),
    }
}

/// Whether the executable result `r` carries the model outcome `o`.
pub open spec fn matches_outcome<A: AtatCmd>(
    r: Result<A::Response, NbError>,
    o: Result<<A::Response as View>::V, NbError>,
) -> bool {
    match r {
        Ok(v) => o == Ok::<<A::Response as View>::V, NbError>(v@),
        Err(e) => o == Err::<<A::Response as View>::V, NbError>(e),
    }
}

/// Whether `after` extends `before` by at most the best-effort force-state
/// hint of a command with `force` set.
pub open spec fn hint_extended(before: Seq<Command>, after: Seq<Command>, force: bool) -> bool {
    ||| after == before
    ||| (force && after == before.push(Command::ForceState(IngressState::ReceivingResponse)))
}

/// Whether `after` extends `before` by at most one best-effort clear-buffer
/// signal.
pub open spec fn clear_extended(before: Seq<Command>, after: Seq<Command>) -> bool {
    ||| after == before
    ||| after == before.push(Command::ClearBuffer)
}

/// Whether `after` extends `before` by at most the force-state hint followed
/// by one clear-buffer signal.
pub open spec fn hint_clear_extended(before: Seq<Command>, after: Seq<Command>, force: bool) -> bool {
    exists|mid: Seq<Command>|
        hint_extended(before, mid, force) && clear_extended(mid, after)
}

/// Client responsible for send, receive and timeout handling on the
/// user-facing side of the driver. It is decoupled from the ingress side
/// through its queue endpoints and exclusively owns the transport writer and
/// the countdown timer.
pub struct Client<Tx, T, R, U, C> where
    Tx: SerialTx,
    T: Countdown,
    R: ResponseSource,
    U: UrcSource,
    C: CommandSink,
 {
    /// Serial writer.
    pub tx: Tx,
    /// Receives responses from the ingress side.
    pub res_c: R,
    /// Receives URCs from the ingress side.
    pub urc_c: U,
    /// Carries control signals to the ingress side.
    pub com_p: C,
    /// Protocol-turn state.
    pub state: ClientState,
    /// Cooldown and timeout timer.
    pub timer: T,
    /// Immutable configuration.
    pub config: Config,
}

impl<Tx, T, R, U, C> Client<Tx, T, R, U, C> where
    Tx: SerialTx,
    T: Countdown,
    R: ResponseSource,
    U: UrcSource,
    C: CommandSink,
 {
    /// A new client, initially `Idle`, owning all its collaborators.
    pub fn new(tx: Tx, res_c: R, urc_c: U, com_p: C, timer: T, config: Config) -> (r: Self)
        ensures
            r.tx == tx,
            r.res_c == res_c,
            r.urc_c == urc_c,
            r.com_p == com_p,
            r.timer == timer,
            r.config == config,
            r.state == ClientState::Idle,
    {
        Client { tx, res_c, urc_c, com_p, state: ClientState::Idle, timer, config }
    }

    /// The configured dispatch mode.
    pub fn get_mode(&self) -> (r: Mode)
        ensures
            r == self.config.mode,
    {
        self.config.mode
    }

    /// Consume at most one response slot.
    ///
    /// A slot consumed while a response is awaited terminates the turn: the
    /// cooldown is rearmed (on a payload) and the client returns to `Idle`.
    /// A payload consumed while `Idle` is a stale frame: it is discarded
    /// without a state change and without rearming the cooldown. With an
    /// empty queue, bounded-timeout mode polls the timer once and, if it has
    /// elapsed, gives up the turn with `Timeout` and best-effort signals
    /// `ClearBuffer`; otherwise the call would block.
    pub fn check_response<A: AtatCmd>(&mut self, cmd: &A) -> (r: Result<A::Response, NbError>)
        ensures
            final(self).config == old(self).config,
            final(self).tx == old(self).tx,
            final(self).urc_c == old(self).urc_c,
            (r matches Err(NbError::WouldBlock)) ==> final(self).state == old(self).state,
            !(r matches Err(NbError::WouldBlock)) ==> final(self).state == ClientState::Idle,
            old(self).res_c.pending().len() > 0 ==> ({
                let slot = old(self).res_c.pending()[0];
                &&& final(self).res_c.pending() == old(self).res_c.pending().skip(1)
                &&& final(self).com_p == old(self).com_p
                &&& final(self).timer.elapsed_count() == old(self).timer.elapsed_count()
                &&& if old(self).state == ClientState::AwaitingResponse {
                    &&& matches_outcome::<A>(r, slot_outcome(cmd, slot))
                    &&& (slot matches Ok(_) ==> final(self).timer.armed() == Some(
                        old(self).config.cmd_cooldown,
                    ))
                    &&& (slot matches Err(_) ==> final(self).timer == old(self).timer)
                } else {
                    &&& (slot matches Ok(_) ==> r == Err::<A::Response, NbError>(
                        NbError::WouldBlock,
                    ))
                    &&& (slot matches Err(e) ==> r == Err::<A::Response, NbError>(
                        NbError::Other(e),
                    ))
                    &&& final(self).timer == old(self).timer
                }
            }),
            old(self).res_c.pending().len() == 0 ==> ({
                &&& final(self).res_c.pending() == old(self).res_c.pending()
                &&& final(self).res_c.quiet() < old(self).res_c.quiet()
                &&& final(self).timer.armed() == old(self).timer.armed()
                &&& if old(self).config.mode == Mode::Timeout {
                    ||| (r == Err::<A::Response, NbError>(NbError::WouldBlock) && final(self).timer.elapsed_count() == old(self).timer.elapsed_count() && final(self).com_p == old(self).com_p)
                    ||| (r == Err::<A::Response, NbError>(NbError::Other(Error::Timeout)) && final(self).timer.elapsed_count() == old(self).timer.elapsed_count() + 1
                        && clear_extended(old(self).com_p.sent(), final(self).com_p.sent()))
                } else {
                    &&& r == Err::<A::Response, NbError>(NbError::WouldBlock)
                    &&& final(self).timer == old(self).timer
                    &&& final(self).com_p == old(self).com_p
                }
            }),
    {
        match self.res_c.dequeue() {
            Some(slot) => match slot {
                Ok(payload) => {
                    if self.state == ClientState::AwaitingResponse {
                        let cooldown = self.config.cmd_cooldown;
                        self.timer.start(cooldown);
                        self.state = ClientState::Idle;
                        match cmd.parse(&payload) {
                            Ok(v) => Ok(v),
                            Err(e) => Err(NbError::Other(e)),
                        }
                    } else {
                        Err(NbError::WouldBlock)
                    }
                },
                Err(e) => {
                    self.state = ClientState::Idle;
                    Err(NbError::Other(e))
                },
            },
            None => {
                if self.config.mode == Mode::Timeout {
                    if self.timer.wait() {
                        self.state = ClientState::Idle;
                        let _accepted = self.com_p.enqueue(Command::ClearBuffer);
                        return Err(NbError::Other(Error::Timeout));
                    }
                }
                Err(NbError::WouldBlock)
            },
        }
    }

    /// Drain at most one unsolicited result code.
    ///
    /// The client's turn state is never modified. Consuming a payload rearms
    /// the cooldown whether or not it parses; a payload that does not parse
    /// yields `None`.
    pub fn check_urc<Uv: AtatUrc>(&mut self) -> (r: Option<Uv::Response>)
        ensures
            final(self).state == old(self).state,
            final(self).config == old(self).config,
            final(self).tx == old(self).tx,
            final(self).res_c == old(self).res_c,
            final(self).com_p == old(self).com_p,
            old(self).urc_c.pending().len() == 0 ==> (r matches None) && final(self).urc_c == old(self).urc_c && final(self).timer == old(self).timer,
            old(self).urc_c.pending().len() > 0 ==> ({
                let payload = old(self).urc_c.pending()[0];
                &&& final(self).urc_c.pending() == old(self).urc_c.pending().skip(1)
                &&& final(self).timer.armed() == Some(old(self).config.cmd_cooldown)
                &&& final(self).timer.elapsed_count() == old(self).timer.elapsed_count()
                &&& match r {
                    Some(v) => Uv::parse_res(payload@) == Ok::<<Uv::Response as View>::V, Error>(
                        v@,
                    ),
                    None => !(Uv::parse_res(payload@) matches Ok(_)),
                }
            }),
    {
        if !self.urc_c.ready() {
            return None;
        }
        let cooldown = self.config.cmd_cooldown;
        self.timer.start(cooldown);
        let payload = self.urc_c.dequeue();
        match Uv::parse(&payload) {
            Ok(v) => Some(v),
            Err(_) => None,
        }
    }

    /// Send a command, or continue polling for the response of the command
    /// already in flight.
    ///
    /// From `Idle`, emission first best-effort signals the force-state hint,
    /// then polls the cooldown timer to completion, writes the serialized
    /// command byte for byte and flushes; the client then awaits the
    /// response. While `AwaitingResponse`, emission is skipped entirely and
    /// the call only polls, so a retry with the same command re-emits
    /// nothing. Dispatch then follows the configured mode: blocking polls
    /// until a terminal outcome, non-blocking polls once, and bounded
    /// timeout arms the timer with the command's own bound and polls until a
    /// response or the deadline, whichever comes first.
    #[verifier::loop_isolation(false)]
    #[verifier::rlimit(60)]
    pub fn send<A: AtatCmd>(&mut self, cmd: &A) -> (r: Result<A::Response, NbError>)
        ensures
            final(self).config == old(self).config,
            final(self).urc_c == old(self).urc_c,
            !(r matches Err(NbError::WouldBlock)) ==> final(self).state == ClientState::Idle,
            (r matches Err(NbError::WouldBlock)) ==> final(self).state
                == ClientState::AwaitingResponse,
            old(self).state == ClientState::AwaitingResponse ==> final(self).tx == old(self).tx,
            old(self).state == ClientState::Idle ==> ({
                ||| final(self).tx.written() == old(self).tx.written() + cmd.wire()
                ||| (r == Err::<A::Response, NbError>(NbError::Other(Error::Write)) && exists|
                    n: int,
                |
                    0 <= n <= cmd.wire().len() && final(self).tx.written() == old(self).tx.written()
                        + cmd.wire().take(n))
            }),
            old(self).state == ClientState::Idle && !(r == Err::<A::Response, NbError>(
                NbError::Other(Error::Timeout),
            ) && old(self).res_c.pending().len() == 0) ==> final(self).timer.elapsed_count() == old(self).timer.elapsed_count() + 1,
            old(self).state == ClientState::Idle && r == Err::<A::Response, NbError>(
                NbError::Other(Error::Timeout),
            ) && old(self).res_c.pending().len() == 0 ==> final(self).timer.elapsed_count() == old(self).timer.elapsed_count() + 2,
            old(self).state == ClientState::AwaitingResponse ==> final(self).timer.elapsed_count()
                == old(self).timer.elapsed_count() + (
            if (r == Err::<A::Response, NbError>(NbError::Other(Error::Timeout)) && old(self).res_c.pending().len() == 0) {
                1nat
            } else {
                0nat
            }),
            old(self).state == ClientState::Idle ==> ({
                let p = old(self).res_c.pending();
                ||| ({
                    &&& r == Err::<A::Response, NbError>(NbError::Other(Error::Write))
                    &&& final(self).res_c == old(self).res_c
                    &&& final(self).timer.armed() == old(self).timer.armed()
                    &&& hint_extended(
                        old(self).com_p.sent(),
                        final(self).com_p.sent(),
                        cmd.force_spec(),
                    )
                })
                ||| ({
                    &&& final(self).tx.written() == old(self).tx.written() + cmd.wire()
                    &&& match old(self).config.mode {
                        Mode::Blocking => {
                            &&& p.len() > 0
                            &&& final(self).res_c.pending() == p.skip(1)
                            &&& matches_outcome::<A>(r, slot_outcome(cmd, p[0]))
                            &&& (p[0] matches Ok(_) ==> final(self).timer.armed() == Some(
                                old(self).config.cmd_cooldown,
                            ))
                            &&& (p[0] matches Err(_) ==> final(self).timer.armed() == old(self).timer.armed())
                            &&& hint_extended(
                                old(self).com_p.sent(),
                                final(self).com_p.sent(),
                                cmd.force_spec(),
                            )
                        },
                        Mode::NonBlocking => {
                            if p.len() == 0 {
                                &&& r == Err::<A::Response, NbError>(NbError::WouldBlock)
                                &&& final(self).res_c.pending() == p
                                &&& final(self).timer.armed() == old(self).timer.armed()
                                &&& hint_extended(
                                    old(self).com_p.sent(),
                                    final(self).com_p.sent(),
                                    cmd.force_spec(),
                                )
                            } else {
                                &&& final(self).res_c.pending() == p.skip(1)
                                &&& matches_outcome::<A>(r, slot_outcome(cmd, p[0]))
                                &&& (p[0] matches Ok(_) ==> final(self).timer.armed() == Some(
                                    old(self).config.cmd_cooldown,
                                ))
                                &&& (p[0] matches Err(_) ==> final(self).timer.armed() == old(self).timer.armed())
                                &&& hint_extended(
                                    old(self).com_p.sent(),
                                    final(self).com_p.sent(),
                                    cmd.force_spec(),
                                )
                            }
                        },
                        Mode::Timeout => {
                            if p.len() == 0 {
                                &&& r == Err::<A::Response, NbError>(NbError::Other(Error::Timeout))
                                &&& final(self).res_c.pending() == p
                                &&& final(self).timer.armed() == Some(cmd.timeout_spec())
                                &&& hint_clear_extended(
                                    old(self).com_p.sent(),
                                    final(self).com_p.sent(),
                                    cmd.force_spec(),
                                )
                            } else {
                                &&& final(self).res_c.pending() == p.skip(1)
                                &&& matches_outcome::<A>(r, slot_outcome(cmd, p[0]))
                                &&& (p[0] matches Ok(_) ==> final(self).timer.armed() == Some(
                                    old(self).config.cmd_cooldown,
                                ))
                                &&& (p[0] matches Err(_) ==> final(self).timer.armed() == Some(
                                    cmd.timeout_spec(),
                                ))
                                &&& hint_extended(
                                    old(self).com_p.sent(),
                                    final(self).com_p.sent(),
                                    cmd.force_spec(),
                                )
                            }
                        },
                    }
                })
            }),
            old(self).state == ClientState::AwaitingResponse ==> ({
                let p = old(self).res_c.pending();
                match old(self).config.mode {
                    Mode::Blocking => {
                        &&& p.len() > 0
                        &&& final(self).res_c.pending() == p.skip(1)
                        &&& matches_outcome::<A>(r, slot_outcome(cmd, p[0]))
                        &&& (p[0] matches Ok(_) ==> final(self).timer.armed() == Some(
                            old(self).config.cmd_cooldown,
                        ))
                        &&& (p[0] matches Err(_) ==> final(self).timer == old(self).timer)
                        &&& final(self).com_p == old(self).com_p
                    },
                    Mode::NonBlocking => {
                        if p.len() == 0 {
                            &&& r == Err::<A::Response, NbError>(NbError::WouldBlock)
                            &&& final(self).res_c.pending() == p
                            &&& final(self).timer == old(self).timer
                            &&& final(self).com_p == old(self).com_p
                        } else {
                            &&& final(self).res_c.pending() == p.skip(1)
                            &&& matches_outcome::<A>(r, slot_outcome(cmd, p[0]))
                            &&& (p[0] matches Ok(_) ==> final(self).timer.armed() == Some(
                                old(self).config.cmd_cooldown,
                            ))
                            &&& (p[0] matches Err(_) ==> final(self).timer == old(self).timer)
                            &&& final(self).com_p == old(self).com_p
                        }
                    },
                    Mode::Timeout => {
                        if p.len() == 0 {
                            &&& r == Err::<A::Response, NbError>(NbError::Other(Error::Timeout))
                            &&& final(self).res_c.pending() == p
                            &&& final(self).timer.armed() == Some(cmd.timeout_spec())
                            &&& clear_extended(old(self).com_p.sent(), final(self).com_p.sent())
                        } else {
                            &&& final(self).res_c.pending() == p.skip(1)
                            &&& matches_outcome::<A>(r, slot_outcome(cmd, p[0]))
                            &&& (p[0] matches Ok(_) ==> final(self).timer.armed() == Some(
                                old(self).config.cmd_cooldown,
                            ))
                            &&& (p[0] matches Err(_) ==> final(self).timer.armed() == Some(
                                cmd.timeout_spec(),
                            ))
                            &&& final(self).com_p == old(self).com_p
                        }
                    },
                }
            }),
    {
        let ghost pre = *self;
        if self.state == ClientState::Idle {
            if cmd.force_receive_state() {
                let _accepted = self.com_p.enqueue(
                    Command::ForceState(IngressState::ReceivingResponse),
                );
            }
            assert(hint_extended(pre.com_p.sent(), self.com_p.sent(), cmd.force_spec()));
            let ghost s1 = *self;
            // Gate on the cooldown armed by the previous consumed frame.
            let mut elapsed = false;
            while !elapsed
                invariant
                    self.tx == s1.tx,
                    self.state == s1.state,
                    self.res_c == s1.res_c,
                    self.urc_c == s1.urc_c,
                    self.com_p == s1.com_p,
                    self.config == s1.config,
                    self.timer.armed() == s1.timer.armed(),
                    self.timer.elapsed_count() == s1.timer.elapsed_count() + (
                    if elapsed {
                        1nat
                    } else {
                        0nat
                    }),
                decreases (if elapsed {
                    0int
                } else {
                    1int
                }), self.timer.remaining(),
            {
                elapsed = self.timer.wait();
            }
            let bytes = cmd.as_bytes();
            let ghost s2 = *self;
            let mut i: usize = 0;
            while i < bytes.len()
                invariant
                    i <= bytes.len(),
                    self.tx.written() == s2.tx.written() + bytes@.take(i as int),
                    self.state == s2.state,
                    self.res_c == s2.res_c,
                    self.urc_c == s2.urc_c,
                    self.com_p == s2.com_p,
                    self.config == s2.config,
                    self.timer == s2.timer,
                decreases bytes.len() - i,
            {
                let mut accepted = false;
                while !accepted
                    invariant
                        i < bytes.len(),
                        self.tx.written() == s2.tx.written() + bytes@.take(i as int) + (
                        if accepted {
                            seq![bytes@[i as int]]
                        } else {
                            Seq::<u8>::empty()
                        }),
                        self.state == s2.state,
                        self.res_c == s2.res_c,
                        self.urc_c == s2.urc_c,
                        self.com_p == s2.com_p,
                        self.config == s2.config,
                        self.timer == s2.timer,
                    decreases (if accepted {
                        0int
                    } else {
                        1int
                    }), self.tx.budget(),
                {
                    match self.tx.write(bytes[i]) {
                        TxOutcome::Done => {
                            accepted = true;
                        },
                        TxOutcome::Busy => {},
                        TxOutcome::Failed => {
                            proof {
                                assert(self.tx.written() =~= pre.tx.written() + cmd.wire().take(
                                    i as int,
                                ));
                            }
                            return Err(NbError::Other(Error::Write));
                        },
                    }
                }
                proof {
                    assert(s2.tx.written() + bytes@.take(i as int) + seq![bytes@[i as int]]
                        =~= s2.tx.written() + bytes@.take(i + 1 as int));
                }
                i += 1;
            }
            proof {
                assert(bytes@.take(bytes@.len() as int) =~= bytes@);
            }
            let mut flushed = false;
            while !flushed
                invariant
                    self.tx.written() == s2.tx.written() + bytes@,
                    self.state == s2.state,
                    self.res_c == s2.res_c,
                    self.urc_c == s2.urc_c,
                    self.com_p == s2.com_p,
                    self.config == s2.config,
                    self.timer == s2.timer,
                decreases (if flushed {
                    0int
                } else {
                    1int
                }), self.tx.budget(),
            {
                match self.tx.flush() {
                    TxOutcome::Done => {
                        flushed = true;
                    },
                    TxOutcome::Busy => {},
                    TxOutcome::Failed => {
                        proof {
                            assert(self.tx.written() == pre.tx.written() + cmd.wire().take(
                                cmd.wire().len() as int,
                            ));
                        }
                        return Err(NbError::Other(Error::Write));
                    },
                }
            }
            self.state = ClientState::AwaitingResponse;
        }
        let ghost s3 = *self;
        match self.config.mode {
            Mode::NonBlocking => self.check_response(cmd),
            Mode::Blocking => {
                loop
                    invariant
                        self.state == ClientState::AwaitingResponse,
                        self.tx == s3.tx,
                        self.res_c.pending() == s3.res_c.pending(),
                        self.urc_c == s3.urc_c,
                        self.com_p == s3.com_p,
                        self.config == s3.config,
                        self.timer == s3.timer,
                    decreases self.res_c.quiet(),
                {
                    match self.check_response(cmd) {
                        Err(NbError::WouldBlock) => {},
                        r => {
                            return r;
                        },
                    }
                }
            },
            Mode::Timeout => {
                let bound = cmd.max_timeout_ms();
                self.timer.start(bound);
                let ghost s4 = *self;
                loop
                    invariant
                        self.state == ClientState::AwaitingResponse,
                        self.tx == s4.tx,
                        self.res_c.pending() == s4.res_c.pending(),
                        self.urc_c == s4.urc_c,
                        self.com_p == s4.com_p,
                        self.config == s4.config,
                        self.timer.armed() == Some(cmd.timeout_spec()),
                        self.timer.elapsed_count() == s4.timer.elapsed_count(),
                    decreases self.res_c.quiet(),
                {
                    match self.check_response(cmd) {
                        Err(NbError::WouldBlock) => {},
                        r => {
                            return r;
                        },
                    }
                }
            },
        }
    }
}

} // verus!
