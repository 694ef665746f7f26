use vstd::prelude::*;

use crate::error::Error;
use crate::export::EyeResponse;
use crate::frame::Frame;

verus! {

/// How a client reader judges the server's answer to its `Start` request:
/// only `NoSuchReader` refuses the start — the configured name is not
/// exported over there — and that is a protocol failure.
pub fn client_start_response(resp: &EyeResponse) -> (r: Result<(), Error>)
    ensures
        r is Err <==> resp is NoSuchReader,
        r is Err ==> r == Err::<(), Error>(Error::Protocol),
{
    match resp {
        EyeResponse::NoSuchReader(_) => Err(Error::Protocol),
        _ => Ok(()),
    }
}

/// How a client reader judges the server's answer to a `Get` request: a
/// delivered frame is taken, a reader failure reported by the server ends
/// the fetch loop as an internal failure, and anything else breaks the
/// protocol.
pub fn client_get_response(resp: EyeResponse) -> (r: Result<Frame, Error>)
    ensures
        resp matches EyeResponse::Frame(fr) ==> (match fr {
            Ok(f) => r == Ok::<Frame, Error>(f),
            Err(_) => r == Err::<Frame, Error>(Error::Internal),
        }),
        !(resp matches EyeResponse::Frame(_)) ==> r == Err::<Frame, Error>(Error::Protocol),
{
    match resp {
        EyeResponse::Frame(Ok(f)) => Ok(f),
        EyeResponse::Frame(Err(_)) => Err(Error::Internal),
        _ => Err(Error::Protocol),
    }
}

} // verus!
