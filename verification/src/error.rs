use vstd::prelude::*;

verus! {

/// Why a transfer failed.
///
/// `ConnectError` covers socket connect and bind failures, `FileError`
/// covers open/create/read/write failures on a local file, and
/// `ProtocolError` covers a short or malformed size header. The I/O
/// shell maps operating-system errors to the first two; the library
/// itself only ever produces `ProtocolError`.
#[derive(Clone, Copy, Debug, PartialEq, Eq, Structural)]
pub enum TransferError {
    ConnectError,
    FileError,
    ProtocolError,
}

} // verus!
