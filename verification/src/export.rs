use vstd::prelude::*;

use crate::frame::Frame;

verus! {

/// The TCP port the export server listens on.
pub const PORT: u16 = 9804;

/// A remote client's request: the name of a reader, and the operation.
#[derive(Debug)]
pub struct EyeRequest {
    pub reader: String,
    pub typ: EyeRequestType,
}

/// The three operations a remote client may ask of an exported reader.
#[derive(Copy, Clone, Debug, PartialEq, Eq, Structural)]
pub enum EyeRequestType {
    Start,
    Stop,
    Get,
}

/// The server's answer: a frame (or the reader's failure as text), the
/// complaint that no reader of the requested name is exported, or a bare
/// acknowledgement.
#[derive(Debug)]
pub enum EyeResponse {
    Frame(Result<Frame, String>),
    NoSuchReader(String),
    Awk,
}

/// One reference-counted entry of the export registry: a reader's name, the
/// number of remote clients currently in the started state, and whether the
/// reader is running on their behalf.
#[derive(Debug)]
pub struct ExportEntry {
    pub name: String,
    pub count: u64,
    pub running: bool,
}

/// The reference count after one operation: `Start` raises it (saturating
/// at the machine limit), `Stop` lowers it but clamps at zero — an
/// unbalanced `Stop` from a confused client must not wrap around — and
/// `Get` leaves it alone.
pub open spec fn spec_count_step(count: int, typ: EyeRequestType) -> int {
    match typ {
        EyeRequestType::Start => if count < u64::MAX { count + 1 } else { count },
        EyeRequestType::Stop => if count > 0 { count - 1 } else { 0 },
        EyeRequestType::Get => count,
    }
}

/// Whether the reader runs after one operation: `Start` always starts it,
/// `Stop` stops it exactly when the last client left, `Get` changes nothing.
pub open spec fn spec_running_step(running: bool, count_after: int, typ: EyeRequestType) -> bool {
    match typ {
        EyeRequestType::Start => true,
        EyeRequestType::Stop => if count_after == 0 { false } else { running },
        EyeRequestType::Get => running,
    }
}

/// The registry state of one reader after a sequence of operations, starting
/// from no clients and a stopped reader.
pub open spec fn spec_apply_ops(ops: Seq<EyeRequestType>) -> (int, bool)
    decreases ops.len(),
{
    if ops.len() == 0 {
        (0, false)
    } else {
        let prev = spec_apply_ops(ops.drop_last());
        let count = spec_count_step(prev.0, ops.last());
        (count, spec_running_step(prev.1, count, ops.last()))
    }
}

/// Number of `Start` operations in a sequence.
pub open spec fn spec_starts(ops: Seq<EyeRequestType>) -> int
    decreases ops.len(),
{
    if ops.len() == 0 {
        0
    } else {
        spec_starts(ops.drop_last()) + if ops.last() is Start { 1int } else { 0int }
    }
}

/// Number of `Stop` operations in a sequence.
pub open spec fn spec_stops(ops: Seq<EyeRequestType>) -> int
    decreases ops.len(),
{
    if ops.len() == 0 {
        0
    } else {
        spec_stops(ops.drop_last()) + if ops.last() is Stop { 1int } else { 0int }
    }
}

/// A client interleaving is balanced when no prefix stops more often than
/// it has started: the protocol's contract, which the clamp above enforces
/// against violators.
pub open spec fn spec_balanced(ops: Seq<EyeRequestType>) -> bool {
    forall|k: int| 0 <= k <= ops.len() ==> spec_stops(#[trigger] ops.take(k)) <= spec_starts(ops.take(k))
}

/// Export reference counting: after any balanced interleaving of `Start`,
/// `Stop` and `Get` operations for one reader, the reference count equals
/// the net starts minus stops, and the reader is running if and only if
/// that net count is at least one.
pub proof fn lemma_export_refcount(ops: Seq<EyeRequestType>)
    requires
        spec_balanced(ops),
        ops.len() < u64::MAX,
    ensures
        spec_apply_ops(ops).0 == spec_starts(ops) - spec_stops(ops),
        spec_apply_ops(ops).1 <==> spec_apply_ops(ops).0 >= 1,
    decreases ops.len(),
{
    lemma_starts_stops_bounds(ops);
    if ops.len() > 0 {
        let prefix = ops.drop_last();
        assert forall|k: int| 0 <= k <= prefix.len() implies spec_stops(#[trigger] prefix.take(k))
            <= spec_starts(prefix.take(k)) by {
            assert(prefix.take(k) =~= ops.take(k));
            assert(spec_stops(ops.take(k)) <= spec_starts(ops.take(k)));
        }
        lemma_export_refcount(prefix);
        assert(ops.take(ops.len() as int) =~= ops);
        assert(ops.take(ops.len() - 1) =~= prefix);
        assert(spec_stops(ops) <= spec_starts(ops));
    }
}

/// Starts and stops are non-negative and bounded by the length.
proof fn lemma_starts_stops_bounds(ops: Seq<EyeRequestType>)
    ensures
        0 <= spec_starts(ops) <= ops.len(),
        0 <= spec_stops(ops) <= ops.len(),
    decreases ops.len(),
{
    if ops.len() > 0 {
        lemma_starts_stops_bounds(ops.drop_last());
    }
}

/// The names of the readers that opted into the export server, in order:
/// only those are served remotely.
pub open spec fn spec_export_names(s: Seq<(String, bool)>) -> Seq<String>
    decreases s.len(),
{
    if s.len() == 0 {
        Seq::empty()
    } else {
        spec_export_names(s.drop_last()) + if s.last().1 {
            seq![s.last().0]
        } else {
            Seq::empty()
        }
    }
}

/// Selects, in order, the names of the readers marked exportable: the
/// registry of [`ExportRegistry::new`] is built over exactly these.
pub fn export_names(readers: &Vec<(String, bool)>) -> (names: Vec<String>)
    ensures
        names@ == spec_export_names(readers@),
{
    let mut names: Vec<String> = Vec::new();
    let n = readers.len();
    let mut k: usize = 0;
    while k < n
        invariant
            k <= n,
            n == readers@.len(),
            names@ == spec_export_names(readers@.take(k as int)),
        decreases n - k,
    {
        let pair = &readers[k];
        if pair.1 {
            names.push(pair.0.clone());
        }
        proof {
            assert(readers@.take(k + 1).drop_last() =~= readers@.take(k as int));
            assert(readers@.take(k + 1).last() == readers@[k as int]);
        }
        k += 1;
    }
    proof {
        assert(readers@.take(n as int) =~= readers@);
    }
    names
}

/// What the server does with one request, beyond its own bookkeeping: the
/// caller performs the named action on the reader and sends the matching
/// response.
#[derive(Copy, Clone, Debug, PartialEq, Eq, Structural)]
pub enum DispatchAction {
    /// No exported reader of that name: answer `NoSuchReader`.
    RespondNoSuchReader,
    /// Start the reader at `idx` (ignoring `AlreadyRunning`) and answer
    /// `Awk`.
    StartReader { idx: usize },
    /// Answer `Awk`; stop the reader at `idx` first when `stop` is set,
    /// because the last client left.
    StopReader { idx: usize, stop: bool },
    /// Ask the reader at `idx` for a frame and answer `Frame`.
    GetFrame { idx: usize },
}

/// The export server's registry: one reference-counted entry per exported
/// reader. The server loop dispatches every request to it serially.
pub struct ExportRegistry {
    entries: Vec<ExportEntry>,
}

impl ExportRegistry {
    /// The entries.
    pub closed spec fn entries(self) -> Seq<ExportEntry> {
        self.entries@
    }

    /// Names are distinct, so a request names at most one entry.
    pub open spec fn wf(self) -> bool {
        forall|i: int, j: int|
            0 <= i < j < self.entries().len() ==> self.entries()[i].name@ != self.entries()[j].name@
    }

    /// Whether some entry carries `name`.
    pub open spec fn spec_has(self, name: Seq<char>) -> bool {
        exists|i: int|
            0 <= i < self.entries().len() && (#[trigger] self.entries()[i]).name@ == name
    }

    /// A fresh registry over the exported readers' names: no clients, no
    /// reader running on a remote's behalf.
    pub fn new(names: Vec<String>) -> (r: ExportRegistry)
        requires
            forall|i: int, j: int| 0 <= i < j < names@.len() ==> names@[i]@ != names@[j]@,
        ensures
            r.wf(),
            r.entries().len() == names@.len(),
            forall|i: int|
                0 <= i < names@.len() ==> (#[trigger] r.entries()[i]).name@ == names@[i]@
                    && r.entries()[i].count == 0 && !r.entries()[i].running,
    {
        let mut entries: Vec<ExportEntry> = Vec::new();
        let n = names.len();
        let mut k: usize = 0;
        while k < n
            invariant
                k <= n,
                n == names@.len(),
                entries@.len() == k,
                forall|i: int, j: int| 0 <= i < j < names@.len() ==> names@[i]@ != names@[j]@,
                forall|i: int|
                    0 <= i < k ==> (#[trigger] entries@[i]).name@ == names@[i]@
                        && entries@[i].count == 0 && !entries@[i].running,
            decreases n - k,
        {
            let name = names[k].clone();
            entries.push(ExportEntry { name, count: 0, running: false });
            k += 1;
        }
        ExportRegistry { entries }
    }

    /// How many entries the registry has.
    pub fn len(&self) -> (n: usize)
        ensures
            n == self.entries().len(),
    {
        self.entries.len()
    }

    /// Reads the entry at `idx`.
    pub fn entry(&self, idx: usize) -> (e: &ExportEntry)
        requires
            idx < self.entries().len(),
        ensures
            e == self.entries()[idx as int],
    {
        &self.entries[idx]
    }

    /// Finds the entry named `name`.
    pub fn find(&self, name: &String) -> (r: Option<usize>)
        ensures
            r matches Some(i) ==> i < self.entries().len() && self.entries()[i as int].name@
                == name@,
            r is None ==> !self.spec_has(name@),
    {
        let n = self.entries.len();
        let mut k: usize = 0;
        while k < n
            invariant
                k <= n,
                n == self.entries().len(),
                forall|i: int| 0 <= i < k ==> (#[trigger] self.entries()[i]).name@ != name@,
            decreases n - k,
        {
            if self.entries[k].name.eq(name) {
                return Some(k);
            }
            k += 1;
        }
        None
    }

    /// Serves one request against the registry: looks the reader up, keeps
    /// the reference count per [`spec_count_step`] and the running flag per
    /// [`spec_running_step`], and tells the caller what to do with the
    /// reader itself. `Start` counts the client in and always starts the
    /// reader; `Stop` counts it out and stops the reader exactly when the
    /// count reaches zero; `Get` touches nothing.
    pub fn dispatch(&mut self, req: &EyeRequest) -> (a: DispatchAction)
        requires
            old(self).wf(),
        ensures
            final(self).wf(),
            final(self).entries().len() == old(self).entries().len(),
            // Names never change; counts and flags only at the matched entry.
            forall|i: int|
                0 <= i < old(self).entries().len() ==> (#[trigger] final(self).entries()[i]).name@
                    == old(self).entries()[i].name@,
            // An unknown name changes nothing and is answered as such.
            a == DispatchAction::RespondNoSuchReader <==> !old(self).spec_has(req.reader@),
            a == DispatchAction::RespondNoSuchReader ==> *final(self) == *old(self),
            // A known name is served at its entry.
            a matches DispatchAction::StartReader { idx } ==> req.typ is Start && idx < old(self).entries().len() && old(self).entries()[idx as int].name@ == req.reader@,
            a matches DispatchAction::StopReader { idx, stop } ==> req.typ is Stop && idx < old(self).entries().len() && old(self).entries()[idx as int].name@ == req.reader@,
            a matches DispatchAction::GetFrame { idx } ==> req.typ is Get && idx < old(self).entries().len() && old(self).entries()[idx as int].name@ == req.reader@,
            old(self).spec_has(req.reader@) && req.typ is Start ==> a matches
                DispatchAction::StartReader { .. },
            old(self).spec_has(req.reader@) && req.typ is Stop ==> a matches
                DispatchAction::StopReader { .. },
            old(self).spec_has(req.reader@) && req.typ is Get ==> a matches DispatchAction::GetFrame { .. },
            // The matched entry steps by the counting rules; the rest stay.
            forall|i: int|
                0 <= i < old(self).entries().len() && old(self).entries()[i].name@ != req.reader@
                    ==> (#[trigger] final(self).entries()[i]) == old(self).entries()[i],
            forall|i: int|
                0 <= i < old(self).entries().len() && old(self).entries()[i].name@ == req.reader@
                    ==> {
                    let e0 = old(self).entries()[i];
                    let e1 = (#[trigger] final(self).entries()[i]);
                    &&& e1.count == spec_count_step(e0.count as int, req.typ)
                    &&& e1.running == spec_running_step(e0.running, e1.count as int, req.typ)
                },
            // `Stop` asks for the reader to be stopped exactly when the last
            // client left.
            a matches DispatchAction::StopReader { idx, stop } ==> stop == (final(self).entries()[idx as int].count == 0),
    {
        let found = self.find(&req.reader);
        let idx = match found {
            Some(i) => i,
            None => { return DispatchAction::RespondNoSuchReader },
        };
        match req.typ {
            EyeRequestType::Start => {
                let e = &self.entries[idx];
                let count = if e.count < u64::MAX {
                    e.count + 1
                } else {
                    e.count
                };
                let name = e.name.clone();
                self.entries.set(idx, ExportEntry { name, count, running: true });
                DispatchAction::StartReader { idx }
            },
            EyeRequestType::Stop => {
                let e = &self.entries[idx];
                let count = if e.count > 0 {
                    e.count - 1
                } else {
                    0
                };
                let stop = count == 0;
                let running = if stop {
                    false
                } else {
                    e.running
                };
                let name = e.name.clone();
                self.entries.set(idx, ExportEntry { name, count, running });
                DispatchAction::StopReader { idx, stop }
            },
            EyeRequestType::Get => DispatchAction::GetFrame { idx },
        }
    }
}

} // verus!
