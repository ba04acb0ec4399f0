//! The error taxonomy: transport-origin faults are kept apart from
//! data-origin faults, and protocol violations by the transport get a
//! dedicated kind, so a driver can choose its recovery policy.

use vstd::prelude::*;

verus! {

/// An opaque fault reported by a sink or a source.  The protocol never
/// interprets it; it is carried to the driver exactly as the transport
/// reported it, identified by its code.
#[derive(Clone, Copy, Debug, PartialEq, Eq, Structural)]
pub struct TransportError {
    /// Identifies the underlying fault to the driver.
    pub code: u64,
}

/// Why an encode operation failed.  Both kinds are terminal: the operation
/// is not resumable after either.
#[derive(Clone, Copy, Debug, PartialEq, Eq, Structural)]
pub enum EncodeError {
    /// The sink itself reported a fault, carried over unchanged.
    WriterError(TransportError),
    /// The sink accepted zero bytes while encoded data was still pending:
    /// a protocol violation by the sink, never silently retried.
    WriteZero,
}

/// Why a decode operation failed.  All kinds are terminal: the operation
/// is not resumable after any of them.
#[derive(Clone, Copy, Debug, PartialEq, Eq)]
pub enum DecodeError<E> {
    /// The source itself reported a fault, carried over unchanged.
    ReaderError(TransportError),
    /// The source reported zero bytes while the value was still incomplete:
    /// the input ended before the value did.
    UnexpectedEndOfInput,
    /// The bytes were read successfully but do not form a valid value.
    DataError(E),
}

impl EncodeError {
    /// A short description of the failure kind.
    pub fn describe(&self) -> (r: &'static str)
        ensures
            (self matches EncodeError::WriterError(_)) ==> r@ == "encode writer error"@,
            (self matches EncodeError::WriteZero) ==> r@ == "sink accepted zero bytes"@,
    {
        match self {
            EncodeError::WriterError(_) => "encode writer error",
            EncodeError::WriteZero => "sink accepted zero bytes",
        }
    }
}

impl<E> DecodeError<E> {
    /// A short description of the failure kind.
    pub fn describe(&self) -> (r: &'static str)
        ensures
            (self matches DecodeError::ReaderError(_)) ==> r@ == "decode reader error"@,
            (self matches DecodeError::UnexpectedEndOfInput) ==> r@ == "unexpected end of input"@,
            (self matches DecodeError::DataError(_)) ==> r@ == "decode data error"@,
    {
        match self {
            DecodeError::ReaderError(_) => "decode reader error",
            DecodeError::UnexpectedEndOfInput => "unexpected end of input",
            DecodeError::DataError(_) => "decode data error",
        }
    }

    /// True exactly when the failure originated in the transport rather
    /// than in the decoded content.
    pub fn is_transport_origin(&self) -> (r: bool)
        ensures
            r == (self matches DecodeError::ReaderError(_)),
    {
        match self {
            DecodeError::ReaderError(_) => true,
            _ => false,
        }
    }
}

impl<E> From<TransportError> for DecodeError<E> {
    /// A fault of the source becomes a reader error, never a data error.
    fn from(err: TransportError) -> (r: DecodeError<E>) {
        DecodeError::ReaderError(err)
    }
}

impl<E> vstd::std_specs::convert::FromSpecImpl<TransportError> for DecodeError<E> {
    open spec fn obeys_from_spec() -> bool {
        true
    }

    open spec fn from_spec(err: TransportError) -> DecodeError<E> {
        DecodeError::ReaderError(err)
    }
}

} // verus!
