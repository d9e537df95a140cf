//! Driver core for AT-style (modem) command/response protocols.
//!
//! A host builds a typed command value and hands it to [`client::Client`],
//! which serializes it, writes it to a serial transport, and coordinates with
//! an ingress-side line parser through three single-producer/single-consumer
//! queues: one delivering responses, one delivering unsolicited result codes
//! (URCs), and one carrying best-effort control signals back to the parser.
//! The client enforces a configurable cooldown between protocol turns and
//! offers blocking, non-blocking and bounded-timeout dispatch.

pub mod client;
pub mod codec;
pub mod commands;
pub mod traits;
pub mod types;
