//! The closed set of failure kinds the tool distinguishes.

use vstd::prelude::*;

verus! {

/// One failure kind per fallible stage of the run. The first failure ends the
/// run; nothing is retried or recovered.
#[derive(Clone, Copy, Debug, PartialEq, Eq, Structural)]
pub enum Error {
    /// A command-line input was missing or could not be parsed.
    InvalidArgument,
    /// A schema snapshot could not be read or did not decode.
    MetadataLoadFailure,
    /// The network endpoint could not be reached or did not speak the
    /// expected protocol.
    ConnectionFailure,
    /// A chain-state read was rejected, or the connection dropped mid-read.
    RemoteQueryFailure,
    /// The remote runtime computation rejected its argument.
    RemoteCallFailure,
    /// Serializing a call against a schema snapshot failed.
    EncodingFailure,
}

} // verus!
