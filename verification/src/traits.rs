//! Interfaces of the client's collaborators.
//!
//! The client is polymorphic over five capabilities that its users supply:
//! a typed command schema, a URC schema, a serial byte sink, a countdown
//! timer, and the client-side endpoints of the three ingress queues. Each
//! trait carries a model (its spec functions) and contracts that the
//! client's own guarantees are proved from; an implementation outside this
//! crate is trusted to meet them.

use vstd::prelude::*;

use crate::types::{Command, Error};

verus! {

/// Outcome of one transport operation.
#[derive(Clone, Copy, PartialEq, Eq, Structural, Debug)]
pub enum TxOutcome {
    /// The byte was accepted (or the flush completed).
    Done,
    /// Transient "not ready"; the operation should be retried.
    Busy,
    /// Terminal failure; the transport accepted nothing.
    Failed,
}

/// A typed AT command: wire serializer, response parser, and per-command
/// dispatch attributes.
pub trait AtatCmd {
    /// The typed response this command is answered with.
    type Response: View;

    /// The wire form of the command, including the trailing terminator.
    spec fn wire(&self) -> Seq<u8>;

    /// What parsing a response payload yields, at the model level.
    spec fn parse_res(&self, payload: Seq<u8>) -> Result<
        <Self::Response as View>::V,
        Error,
    >;

    /// How long bounded-timeout dispatch waits for this command's response.
    spec fn timeout_spec(&self) -> u32;

    /// Whether the ingress parser should be hinted to expect a response.
    spec fn force_spec(&self) -> bool;

    /// Serialize the command into its wire form.
    fn as_bytes(&self) -> (r: Vec<u8>)
        ensures
            r@ == self.wire(),
    ;

    /// Parse a response payload.
    fn parse(&self, payload: &Vec<u8>) -> (r: Result<Self::Response, Error>)
        ensures
            match r {
                Ok(v) => self.parse_res(payload@) == Ok::<<Self::Response as View>::V, Error>(
                    v@,
                ),
                Err(e) => self.parse_res(payload@) == Err::<<Self::Response as View>::V, Error>(
                    e,
                ),
            },
    ;

    /// Upper bound in milliseconds for bounded-timeout dispatch.
    fn max_timeout_ms(&self) -> (r: u32)
        ensures
            r == self.timeout_spec(),
    ;

    /// Whether to signal `ForceState(ReceivingResponse)` before emission.
    fn force_receive_state(&self) -> (r: bool)
        ensures
            r == self.force_spec(),
    ;
}

/// A URC enumeration: parses a payload into a tagged variant by dispatching
/// on its `+TAG` discriminator.
pub trait AtatUrc {
    /// The tagged variant type.
    type Response: View;

    /// What parsing a URC payload yields, at the model level.
    spec fn parse_res(payload: Seq<u8>) -> Result<<Self::Response as View>::V, Error>;

    /// Parse a URC payload.
    fn parse(payload: &Vec<u8>) -> (r: Result<Self::Response, Error>)
        ensures
            match r {
                Ok(v) => Self::parse_res(payload@) == Ok::<<Self::Response as View>::V, Error>(
                    v@,
                ),
                Err(e) => Self::parse_res(payload@) == Err::<<Self::Response as View>::V, Error>(
                    e,
                ),
            },
    ;
}

/// A serial byte sink with transient back-pressure. Back-pressure is
/// transient by contract: the budget bounds how often in a row the sink may
/// answer `Busy`, so a retry loop terminates.
pub trait SerialTx {
    /// Model: every byte the transport has accepted so far, in order.
    spec fn written(&self) -> Seq<u8>;

    /// Model: a bound on the consecutive `Busy` answers still to come.
    spec fn budget(&self) -> nat;

    /// Offer one byte to the transport.
    fn write(&mut self, byte: u8) -> (r: TxOutcome)
        ensures
            match r {
                TxOutcome::Done => final(self).written() == old(self).written().push(byte),
                _ => final(self).written() == old(self).written(),
            },
            r == TxOutcome::Busy ==> final(self).budget() < old(self).budget(),
    ;

    /// Flush the transport.
    fn flush(&mut self) -> (r: TxOutcome)
        ensures
            final(self).written() == old(self).written(),
            r == TxOutcome::Busy ==> final(self).budget() < old(self).budget(),
    ;
}

/// A countdown timer. A freshly constructed timer behaves as already
/// elapsed, so the first command is not delayed. A countdown always runs
/// out by contract: the remaining budget bounds how often in a row a poll
/// may report "not yet", so polling to completion terminates.
pub trait Countdown {
    /// Model: the duration most recently armed, if any.
    spec fn armed(&self) -> Option<u32>;

    /// Model: how many polls have reported the countdown elapsed.
    spec fn elapsed_count(&self) -> nat;

    /// Model: a bound on the "not yet elapsed" answers still to come.
    spec fn remaining(&self) -> nat;

    /// Arm the timer with a duration in milliseconds.
    fn start(&mut self, duration_ms: u32)
        ensures
            final(self).armed() == Some(duration_ms),
            final(self).elapsed_count() == old(self).elapsed_count(),
    ;

    /// Poll the timer once; `true` means the countdown has elapsed.
    fn wait(&mut self) -> (r: bool)
        ensures
            final(self).armed() == old(self).armed(),
            final(self).elapsed_count() == old(self).elapsed_count() + (
            if r {
                1nat
            } else {
                0nat
            }),
            !r ==> final(self).remaining() < old(self).remaining(),
    ;
}

/// Consumer endpoint of the response queue (ingress to client). A slot is a
/// response payload or an ingress-side error. The quiet budget bounds how
/// often in a row the queue may be found empty, standing for the ingress
/// side's promise to deliver eventually; a source whose budget runs out
/// before a slot arrives would leave a blocking poll unanswered.
pub trait ResponseSource {
    /// Model: the queued slots, front first.
    spec fn pending(&self) -> Seq<Result<Vec<u8>, Error>>;

    /// Model: a bound on the empty answers still to come.
    spec fn quiet(&self) -> nat;

    /// Dequeue the front slot, if any.
    fn dequeue(&mut self) -> (r: Option<Result<Vec<u8>, Error>>)
        ensures
            match r {
                Some(slot) => old(self).pending().len() > 0 && slot == old(self).pending()[0]
                    && final(self).pending() == old(self).pending().skip(1),
                None => old(self).pending().len() == 0 && final(self).pending() == old(
                    self,
                ).pending() && final(self).quiet() < old(self).quiet(),
            },
    ;
}

/// Consumer endpoint of the URC queue (ingress to client).
pub trait UrcSource {
    /// Model: the queued payloads, front first.
    spec fn pending(&self) -> Seq<Vec<u8>>;

    /// Whether a payload is ready to be dequeued.
    fn ready(&self) -> (r: bool)
        ensures
            r == (self.pending().len() > 0),
    ;

    /// Dequeue the front payload.
    fn dequeue(&mut self) -> (r: Vec<u8>)
        requires
            old(self).pending().len() > 0,
        ensures
            r == old(self).pending()[0],
            final(self).pending() == old(self).pending().skip(1),
    ;
}

/// Producer endpoint of the command queue (client to ingress), carrying
/// best-effort control signals.
pub trait CommandSink {
    /// Model: every signal the sink has accepted so far, in order.
    spec fn sent(&self) -> Seq<Command>;

    /// Offer one signal; `false` means the queue was full and nothing was
    /// accepted.
    fn enqueue(&mut self, com: Command) -> (r: bool)
        ensures
            r ==> final(self).sent() == old(self).sent().push(com),
            !r ==> final(self).sent() == old(self).sent(),
    ;
}

} // verus!
