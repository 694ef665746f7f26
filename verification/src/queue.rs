use vstd::prelude::*;

use crate::error::Error;
use crate::frame::{Frame, Image, ImageView};

verus! {

/// One ring cell: the pixel matrix of a push and its capture timestamp.
pub struct Slot {
    pub image: Image,
    pub timestamp: i64,
}

/// The shape of an image that has never been written: empty geometry, no bytes.
pub open spec fn spec_empty_image() -> ImageView {
    ImageView { rows: 0, cols: 0, typ: 0, data: Seq::<u8>::empty() }
}

/// The wait-free single-slot-overwriting ring between one producer and any
/// number of consumers.
///
/// `head` counts the pushes ever completed; push `i` lives in slot
/// `i mod size` until `head` passes `i + size - 1`. `low_watermark` is one
/// past the index of the push most recently handed to a consumer; a producer
/// in backpressure mode refuses to advance past
/// `low_watermark + (size - 1)`, so no slot is overwritten before it has
/// been consumed at least once. The waiting itself — a producer spinning for
/// room, a consumer spinning for a fresh push — belongs to the caller: the
/// push and pop operations here take one bounded step and report whether
/// they made progress.
pub struct Queue {
    alive: bool,
    buffer: Vec<Slot>,
    head: u64,
    low_watermark: u64,
}

impl Queue {
    /// Liveness flag: producers and consumers give up once it drops.
    pub closed spec fn running(self) -> bool {
        self.alive
    }

    /// Total number of pushes ever completed.
    pub closed spec fn head(self) -> u64 {
        self.head
    }

    /// One past the index of the push most recently returned to a consumer.
    pub closed spec fn low_watermark(self) -> u64 {
        self.low_watermark
    }

    /// Fixed slot capacity.
    pub closed spec fn size(self) -> int {
        self.buffer@.len() as int
    }

    /// The slot cells.
    pub closed spec fn slots(self) -> Seq<Slot> {
        self.buffer@
    }

    /// Basic shape: at least two slots, one cell per slot, and the low
    /// watermark never ahead of the head.
    pub open spec fn wf(self) -> bool {
        &&& self.size() >= 2
        &&& self.slots().len() == self.size()
        &&& self.low_watermark() <= self.head()
    }

    /// The slot index the next push writes.
    pub open spec fn spec_push_index(self) -> int {
        (self.head() as int) % self.size()
    }

    /// Whether a push may proceed: always when overwriting is permitted, and
    /// otherwise only while the head stays below
    /// `low_watermark + (size - 1)`.
    pub open spec fn spec_push_ready(self, backpressure: bool) -> bool {
        !backpressure || (self.head() as int) < self.low_watermark() + self.size() - 1
    }

    /// A fresh ring of `size` slots, not yet running, with no pushes.
    pub fn new(size: usize) -> (q: Queue)
        requires
            2 <= size,
        ensures
            q.wf(),
            q.size() == size,
            q.head() == 0,
            q.low_watermark() == 0,
            !q.running(),
            forall|i: int| 0 <= i < size ==> #[trigger] q.slots()[i].image@ == spec_empty_image(),
    {
        let mut buffer: Vec<Slot> = Vec::new();
        let mut i: usize = 0;
        while i < size
            invariant
                i <= size,
                buffer@.len() == i,
                forall|j: int|
                    0 <= j < i ==> #[trigger] buffer@[j].image@ == spec_empty_image(),
            decreases size - i,
        {
            buffer.push(Slot { image: Image::try_default(), timestamp: 0 });
            i += 1;
        }
        Queue { alive: false, buffer, head: 0, low_watermark: 0 }
    }

    /// Observes the liveness flag.
    pub fn is_running(&self) -> (b: bool)
        ensures
            b == self.running(),
    {
        self.alive
    }

    /// Starts the ring. Fails with `AlreadyRunning` exactly when it is
    /// already running; the flag is set either way.
    pub fn start(&mut self) -> (r: Result<(), Error>)
        ensures
            final(self).running(),
            r is Ok <==> !old(self).running(),
            r is Err ==> r == Err::<(), Error>(Error::AlreadyRunning),
            final(self).head() == old(self).head(),
            final(self).low_watermark() == old(self).low_watermark(),
            final(self).size() == old(self).size(),
            final(self).slots() == old(self).slots(),
            old(self).wf() ==> final(self).wf(),
    {
        let was = self.alive;
        self.alive = true;
        if was {
            Err(Error::AlreadyRunning)
        } else {
            Ok(())
        }
    }

    /// Stops the ring and reports whether it had been running. Consumers
    /// spinning on `pop_inner` observe the drop and fail with `NotRunning`.
    pub fn stop(&mut self) -> (was: bool)
        ensures
            !final(self).running(),
            was == old(self).running(),
            final(self).head() == old(self).head(),
            final(self).low_watermark() == old(self).low_watermark(),
            final(self).size() == old(self).size(),
            final(self).slots() == old(self).slots(),
            old(self).wf() ==> final(self).wf(),
    {
        let was = self.alive;
        self.alive = false;
        was
    }

    /// Whether a push may proceed now; the executable twin of
    /// [`Queue::spec_push_ready`].
    pub fn push_ready(&self, backpressure: bool) -> (b: bool)
        requires
            self.wf(),
        ensures
            b == self.spec_push_ready(backpressure),
    {
        if !backpressure {
            true
        } else {
            let size64 = self.buffer.len() as u64;
            self.head - self.low_watermark < size64 - 1
        }
    }

    /// Producer side, moving an already-decoded image in. Takes one step:
    /// when the ring is not ready for a push (only possible with
    /// backpressure on), the image comes back unchanged and nothing else
    /// happens; the caller may yield and retry. Otherwise the slot at
    /// `head mod size` is overwritten and the head advances.
    pub fn push_inner_inplace(&mut self, image: Image, timestamp: i64, backpressure: bool) -> (r:
        Option<Image>)
        requires
            old(self).wf(),
            old(self).head() < u64::MAX,
        ensures
            final(self).wf(),
            final(self).size() == old(self).size(),
            final(self).running() == old(self).running(),
            final(self).low_watermark() == old(self).low_watermark(),
            // Progress is refused exactly when backpressure forbids it.
            r is Some <==> !old(self).spec_push_ready(backpressure),
            // A refused push hands the image back and changes nothing.
            r matches Some(img) ==> img == image && *final(self) == *old(self),
            // A completed push advances the head by one and overwrites
            // exactly the push slot.
            r is None ==> final(self).head() == old(self).head() + 1,
            r is None ==> final(self).slots() =~= old(self).slots().update(
                old(self).spec_push_index(),
                Slot { image, timestamp },
            ),
            // Without backpressure the producer always makes progress.
            !backpressure ==> r is None,
            // With backpressure, a completed push never takes the head past
            // `low_watermark + (size - 1)`: no slot is overwritten before it
            // has been consumed.
            backpressure && r is None ==> final(self).head() <= final(self).low_watermark()
                + final(self).size() - 1,
    {
        if !self.push_ready(backpressure) {
            return Some(image);
        }
        let size64 = self.buffer.len() as u64;
        let idx = (self.head % size64) as usize;
        self.buffer.set(idx, Slot { image, timestamp });
        self.head = self.head + 1;
        None
    }

    /// Producer side, filling the slot in place through `writer`. The writer
    /// receives the slot's previous image (so a capture backend may reuse
    /// its buffer) and returns the filled image or fails. Takes one step:
    /// `Ok(false)` means backpressure refused the push and nothing happened;
    /// `Ok(true)` means the slot was written and the head advanced; `Err`
    /// surfaces the writer's failure without advancing the head, leaving an
    /// empty image and the new timestamp in the slot.
    pub fn push_inner<F: FnOnce(Image) -> Result<Image, Error>>(
        &mut self,
        writer: F,
        timestamp: i64,
        backpressure: bool,
    ) -> (r: Result<bool, Error>)
        requires
            old(self).wf(),
            old(self).head() < u64::MAX,
            forall|img: Image| call_requires(writer, (img,)),
        ensures
            final(self).wf(),
            final(self).size() == old(self).size(),
            final(self).running() == old(self).running(),
            final(self).low_watermark() == old(self).low_watermark(),
            // Progress is refused exactly when backpressure forbids it.
            r == Ok::<bool, Error>(false) <==> !old(self).spec_push_ready(backpressure),
            r == Ok::<bool, Error>(false) ==> *final(self) == *old(self),
            // A completed push stores what the writer produced from the
            // slot's previous image, with the capture timestamp.
            r == Ok::<bool, Error>(true) ==> final(self).head() == old(self).head() + 1,
            r == Ok::<bool, Error>(true) ==> exists|arg: Image, img: Image|
                arg@ == old(self).slots()[old(self).spec_push_index()].image@ && call_ensures(
                    writer,
                    (arg,),
                    Ok(img),
                ) && final(self).slots() =~= old(self).slots().update(
                    old(self).spec_push_index(),
                    Slot { image: img, timestamp },
                ),
            // A failed write surfaces the writer's error without advancing
            // the head; the slot is left empty with the new timestamp.
            r matches Err(e) ==> final(self).head() == old(self).head() && exists|arg: Image|
                arg@ == old(self).slots()[old(self).spec_push_index()].image@ && call_ensures(
                    writer,
                    (arg,),
                    Err::<Image, Error>(e),
                ),
            r is Err ==> final(self).slots().len() == old(self).slots().len()
                && final(self).slots()[old(self).spec_push_index()].image@ == spec_empty_image()
                && final(self).slots()[old(self).spec_push_index()].timestamp == timestamp
                && (forall|j: int|
                0 <= j < old(self).slots().len() && j != old(self).spec_push_index()
                    ==> final(self).slots()[j] == old(self).slots()[j]),
            // Without backpressure the producer always makes progress or
            // surfaces the writer's error.
            !backpressure ==> r != Ok::<bool, Error>(false),
            // With backpressure, a completed push never takes the head past
            // `low_watermark + (size - 1)`.
            backpressure && r == Ok::<bool, Error>(true) ==> final(self).head() <= final(self).low_watermark() + final(self).size() - 1,
    {
        if !self.push_ready(backpressure) {
            return Ok(false);
        }
        let size64 = self.buffer.len() as u64;
        let idx = (self.head % size64) as usize;
        let mut taken = Image::try_default();
        let prev = &mut self.buffer[idx];
        std::mem::swap(&mut prev.image, &mut taken);
        prev.timestamp = timestamp;
        match writer(taken) {
            Ok(img) => {
                let slot = &mut self.buffer[idx];
                slot.image = img;
                self.head = self.head + 1;
                Ok(true)
            },
            Err(e) => Err(e),
        }
    }

    /// The push index a consumer holding `count` picks: the next unseen push
    /// when it still lives in the ring, else the oldest surviving one.
    pub open spec fn spec_pick(self, count: u64) -> int {
        if (self.head() as int) > count + self.size() - 1 {
            self.head() - (self.size() - 1)
        } else {
            count as int
        }
    }

    /// Consumer side. `frame.count` names the last push the caller has
    /// seen; the call delivers the following one, or the oldest surviving
    /// one when the caller has lagged off the ring. Takes one step:
    /// `Ok(false)` means no fresh push yet — the caller may yield and retry;
    /// `Err(NotRunning)` means the ring has stopped. On success the frame
    /// carries the picked slot's image and timestamp and `count` becomes one
    /// past the picked push; the low watermark follows it.
    pub fn pop_inner(&mut self, frame: &mut Frame) -> (r: Result<bool, Error>)
        requires
            old(self).wf(),
        ensures
            final(self).wf(),
            final(self).size() == old(self).size(),
            final(self).running() == old(self).running(),
            final(self).head() == old(self).head(),
            final(self).slots() == old(self).slots(),
            // The ring refuses exactly when it is not running.
            r is Err <==> !old(self).running(),
            r matches Err(e) ==> e == Error::NotRunning && *final(self) == *old(self) && *final(frame) == *old(frame),
            // Nothing to deliver exactly when the caller has seen every
            // push; a count from the future waits too, until fresh pushes
            // pass it.
            r == Ok::<bool, Error>(false) <==> old(self).running() && old(frame).count >= old(self).head(),
            r == Ok::<bool, Error>(false) ==> *final(self) == *old(self) && *final(frame) == *old(frame),
            // A delivery is owed exactly when the ring runs and holds an
            // unseen push.
            r == Ok::<bool, Error>(true) <==> old(self).running() && old(frame).count < old(self).head(),
            r == Ok::<bool, Error>(true) ==> {
                let i = old(self).spec_pick(old(frame).count);
                &&& final(frame).count == i + 1
                &&& final(self).low_watermark() == i + 1
                &&& final(frame).image@ == old(self).slots()[i % old(self).size()].image@
                &&& final(frame).timestamp == old(self).slots()[i % old(self).size()].timestamp
                &&& final(frame).meta == old(frame).meta
            },
            // Monotone counts: a successful delivery strictly advances the
            // consumer's count.
            r == Ok::<bool, Error>(true) ==> old(frame).count < final(frame).count,
            // No stale frame: the delivered count never exceeds the head.
            r == Ok::<bool, Error>(true) ==> final(frame).count <= old(self).head(),
            // Bounded lag: the delivered count is never more than
            // `size - 1` behind the head observed at the pick instant.
            r == Ok::<bool, Error>(true) ==> final(frame).count >= old(self).head() - (old(self).size() - 1),
    {
        if !self.alive {
            return Err(Error::NotRunning);
        }
        let h = self.head;
        let count = frame.count;
        if h > count {
            let size64 = self.buffer.len() as u64;
            let i: u64 = if h - count > size64 - 1 {
                h - (size64 - 1)
            } else {
                count
            };
            let idx = (i % size64) as usize;
            let slot = &self.buffer[idx];
            frame.image = slot.image.duplicate();
            frame.timestamp = slot.timestamp;
            frame.count = i + 1;
            self.low_watermark = i + 1;
            Ok(true)
        } else {
            Ok(false)
        }
    }
}

} // verus!
