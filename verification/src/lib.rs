//! Contracts for resumable, non-blocking encoding and decoding.
//!
//! A value is serialized into a sink, or deserialized out of a source, one
//! bounded step at a time: each poll call performs at most one underlying
//! write or read attempt and either finishes, reports progress, suspends
//! because the transport would block, or fails.  An unfinished operation is
//! handed back to the caller as a continuation that resumes at the exact
//! point where the previous call stopped, so arbitrarily fragmented
//! transports produce byte-for-byte the same result as an unfragmented one.
//!
//! The operation contracts live in `encode` and `decode`, over the
//! transport boundary of `transport` and the outcomes of `outcome` and
//! `error`; `chain` composes operations field by field, `codecs` holds
//! small concrete codecs, and `scripted` holds the instrumented transports
//! the protocol's properties are exercised against.

pub mod chain;
pub mod codecs;
pub mod decode;
pub mod encode;
pub mod error;
pub mod outcome;
pub mod scripted;
pub mod transport;

pub use chain::ChainDecoder;
pub use chain::ChainEncoder;
pub use codecs::BoolDecoder;
pub use codecs::PrefixedDecoder;
pub use codecs::U16LeEncoder;
pub use decode::AsyncDecode;
pub use encode::AsyncEncode;
pub use encode::AsyncEncodeLen;
pub use encode::drive_encode;
pub use encode::DriveOutcome;
pub use error::DecodeError;
pub use error::EncodeError;
pub use error::TransportError;
pub use outcome::PollDec;
pub use outcome::PollEnc;
pub use scripted::ScriptedSink;
pub use scripted::ScriptedSource;
pub use transport::ReadOutcome;
pub use transport::Sink;
pub use transport::SinkStep;
pub use transport::Source;
pub use transport::SourceStep;
pub use transport::WakeContext;
pub use transport::WriteOutcome;
