use vstd::prelude::*;

verus! {

/// The single error type of the driver core.
///
/// The kinds mirror the failure classes of the pipeline: operating-system or
/// device failures, configuration decoding, lifecycle misuse, wire-protocol
/// violations, internal producer failures, and unsupported conversions.
#[derive(Copy, Clone, Debug, PartialEq, Eq, Structural)]
pub enum Error {
    /// Filesystem, socket or device access failed.
    Io,
    /// A configuration document or a wire record could not be decoded.
    Decode,
    /// A `get` observed that the producer has stopped.
    NotRunning,
    /// `start` was called on a reader that is already running.
    AlreadyRunning,
    /// An unexpected remote response, or no such reader on the remote side.
    Protocol,
    /// A producer-side failure surfaced through `stop`, or an unreachable branch.
    Internal,
    /// An unsupported operation, e.g. color conversion on an odd channel count.
    Unimplemented,
}

impl Error {
    /// A short description, usable where the host expects a message.
    pub fn describe(&self) -> (msg: &'static str)
        ensures
            self is Io ==> msg@ == "io error"@,
            self is Decode ==> msg@ == "decode error"@,
            self is NotRunning ==> msg@ == "not running"@,
            self is AlreadyRunning ==> msg@ == "already running"@,
            self is Protocol ==> msg@ == "protocol error"@,
            self is Internal ==> msg@ == "internal error"@,
            self is Unimplemented ==> msg@ == "unimplemented"@,
    {
        match self {
            Error::Io => "io error",
            Error::Decode => "decode error",
            Error::NotRunning => "not running",
            Error::AlreadyRunning => "already running",
            Error::Protocol => "protocol error",
            Error::Internal => "internal error",
            Error::Unimplemented => "unimplemented",
        }
    }
}

} // verus!
