use vstd::prelude::*;

use crate::config::VideoMeta;
use crate::error::Error;
use crate::frame::Frame;
use crate::queue::Queue;

verus! {

/// A consumer's first `get` hands in an empty slot: fill it with a fresh
/// frame for the reader's source, so its count of zero requests the oldest
/// available push. A slot that already holds a frame is left alone.
pub fn prepare_frame(frame: &mut Option<Frame>, meta: &VideoMeta) -> (r: Result<(), Error>)
    ensures
        r is Ok,
        (*final(frame)) is Some,
        (*old(frame)) matches Some(f) ==> *final(frame) == Some(f),
        (*old(frame)) is None ==> ((*final(frame)) matches Some(f) && f.count == 0 && f.meta == *meta
            && f.image@.data.len() == 0),
{
    match frame {
        Some(_) => Ok(()),
        None => {
            let fresh = match Frame::new(*meta) {
                Ok(f) => f,
                Err(e) => { return Err(e) },
            };
            *frame = Some(fresh);
            Ok(())
        },
    }
}

/// One step of a consumer's `get` on a running reader: make sure the slot
/// holds a frame for `meta`, then ask the ring for the next push. `Ok(true)`
/// delivered a frame into the slot, `Ok(false)` asks the caller to yield and
/// retry, `Err(NotRunning)` reports that the producer has stopped (the
/// caller then surfaces the producer's own failure, if any).
pub fn reader_get_step(queue: &mut Queue, frame: &mut Option<Frame>, meta: &VideoMeta) -> (r:
    Result<bool, Error>)
    requires
        old(queue).wf(),
    ensures
        final(queue).wf(),
        final(queue).head() == old(queue).head(),
        final(queue).size() == old(queue).size(),
        final(queue).running() == old(queue).running(),
        final(queue).slots() == old(queue).slots(),
        r is Err <==> !old(queue).running(),
        r matches Err(e) ==> e == Error::NotRunning,
        (*final(frame)) is Some,
        // The count a fresh slot starts from, and what a held slot carries.
        (*old(frame)) is None ==> (r == Ok::<bool, Error>(false) ==> ((*final(frame))
            matches Some(f) && f.count == 0 && f.meta == *meta)),
        (*old(frame)) matches Some(f0) ==> (r == Ok::<bool, Error>(false) ==> *final(frame) == Some(
            f0,
        )),
        // A delivery is owed exactly when the ring runs and holds a push
        // the slot has not seen; it obeys the ring's pick rule from the
        // slot's count.
        r == Ok::<bool, Error>(true) <==> old(queue).running() && (match *old(frame) {
            Some(f0) => f0.count,
            None => 0,
        }) < old(queue).head(),
        r == Ok::<bool, Error>(true) ==> {
            let c0: u64 = match *old(frame) {
                Some(f0) => f0.count,
                None => 0,
            };
            let i = old(queue).spec_pick(c0);
            &&& (*final(frame)) matches Some(f)
            &&& f.count == i + 1
            &&& c0 < f.count <= old(queue).head()
            &&& f.count >= old(queue).head() - (old(queue).size() - 1)
            &&& f.image@ == old(queue).slots()[i % old(queue).size()].image@
            &&& f.timestamp == old(queue).slots()[i % old(queue).size()].timestamp
            &&& final(queue).low_watermark() == i + 1
        },
        // Nothing is delivered exactly when every push has been seen.
        r == Ok::<bool, Error>(false) <==> old(queue).running() && (match *old(frame) {
            Some(f0) => f0.count,
            None => 0,
        }) >= old(queue).head(),
{
    let prepared = prepare_frame(frame, meta);
    match prepared {
        Ok(()) => {},
        Err(e) => { return Err(e) },
    }
    match frame {
        Some(f) => queue.pop_inner(f),
        None => Err(Error::Internal),
    }
}

} // verus!
