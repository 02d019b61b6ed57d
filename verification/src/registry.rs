//! The shared process registry: an ordered, append-only sequence of tracked
//! child processes. The composition root shares one registry among all
//! launchers (writers) and the liveness poller (reader); mutual exclusion is
//! the runtime's concern, so every operation here is a short critical
//! section over plain data.

use vstd::prelude::*;

verus! {

/// One spawned child under supervision: the OS-assigned process identifier
/// and the launch command used for display. The id is unique only at a point
/// in time; the OS may reuse it after the process exits.
pub struct TrackedProcess {
    pub id: u32,
    pub name: String,
}

/// Mathematical image of a tracked process: the id and the characters of the
/// display name.
pub struct TrackedProcessView {
    pub id: u32,
    pub name: Seq<char>,
}

impl View for TrackedProcess {
    type V = TrackedProcessView;

    open spec fn view(&self) -> TrackedProcessView {
        TrackedProcessView { id: self.id, name: self.name@ }
    }
}

impl TrackedProcess {
    /// Builds the record for a child that was just spawned.
    pub fn new(id: u32, name: String) -> (r: TrackedProcess)
        ensures
            r@.id == id,
            r@.name == name@,
    {
        TrackedProcess { id, name }
    }
}

impl Clone for TrackedProcess {
    fn clone(&self) -> (r: Self)
        ensures
            r@ == self@,
    {
        TrackedProcess { id: self.id, name: self.name.clone() }
    }
}

/// An ordered collection of tracked processes. It only grows for the
/// supervisor run's duration: records are appended right after a successful
/// spawn and never removed; staleness is detected by liveness polling, not
/// by removal.
pub struct ProcessRegistry {
    records: Vec<TrackedProcess>,
}

impl View for ProcessRegistry {
    type V = Seq<TrackedProcessView>;

    closed spec fn view(&self) -> Seq<TrackedProcessView> {
        self.records@.map_values(|p: TrackedProcess| p@)
    }
}

impl ProcessRegistry {
    /// An empty registry, constructed once at the composition root.
    pub fn new() -> (r: ProcessRegistry)
        ensures
            r@ == Seq::<TrackedProcessView>::empty(),
    {
        let r = ProcessRegistry { records: Vec::new() };
        proof {
            assert(r@ =~= Seq::<TrackedProcessView>::empty());
        }
        r
    }

    /// Adds one record at the end; everything already registered stays,
    /// in order.
    pub fn append(&mut self, record: TrackedProcess)
        ensures
            final(self)@ == old(self)@.push(record@),
    {
        let ghost before = self@;
        let ghost recorded = record@;
        self.records.push(record);
        proof {
            assert(self@ =~= before.push(recorded));
        }
    }

    /// Number of records registered so far.
    pub fn len(&self) -> (n: usize)
        ensures
            n == self@.len(),
    {
        self.records.len()
    }

    /// Whether nothing has been registered yet.
    pub fn is_empty(&self) -> (r: bool)
        ensures
            r == (self@.len() == 0),
    {
        self.records.len() == 0
    }

    /// A point-in-time copy of all current records, so that a slow OS query
    /// can iterate it without holding the shared lock.
    pub fn snapshot(&self) -> (r: Vec<TrackedProcess>)
        ensures
            r@.len() == self@.len(),
            forall|i: int| 0 <= i < r@.len() ==> r@[i]@ == self@[i],
    {
        let mut out: Vec<TrackedProcess> = Vec::new();
        let mut i: usize = 0;
        while i < self.records.len()
            invariant
                i <= self.records.len(),
                out@.len() == i,
                forall|j: int| 0 <= j < i ==> out@[j]@ == self@[j],
            decreases self.records.len() - i,
        {
            out.push(self.records[i].clone());
            i = i + 1;
        }
        out
    }
}

/// The registry contents after a run of launches starting from `start`,
/// where each successful spawn appends its record in turn.
pub open spec fn after_appends(
    start: Seq<TrackedProcessView>,
    spawned: Seq<TrackedProcessView>,
) -> Seq<TrackedProcessView>
    decreases spawned.len(),
{
    if spawned.len() == 0 {
        start
    } else {
        after_appends(start, spawned.drop_last()).push(spawned.last())
    }
}

/// Appends accumulate: after any run of launches the registry holds what it
/// held before, followed by exactly the spawned records in spawn order. In
/// particular no append drops or reorders an earlier record, so a run of K
/// appends grows the registry by exactly K.
pub proof fn lemma_appends_accumulate(
    start: Seq<TrackedProcessView>,
    spawned: Seq<TrackedProcessView>,
)
    ensures
        after_appends(start, spawned) == start + spawned,
    decreases spawned.len(),
{
    if spawned.len() == 0 {
        assert(after_appends(start, spawned) =~= start + spawned);
    } else {
        lemma_appends_accumulate(start, spawned.drop_last());
        assert(after_appends(start, spawned) =~= start + spawned);
    }
}

/// Starting from an empty registry, N successful spawns leave exactly the N
/// spawned records, in spawn order.
pub proof fn lemma_registry_after_launches(spawned: Seq<TrackedProcessView>)
    ensures
        after_appends(Seq::<TrackedProcessView>::empty(), spawned) == spawned,
        after_appends(Seq::<TrackedProcessView>::empty(), spawned).len() == spawned.len(),
{
    lemma_appends_accumulate(Seq::<TrackedProcessView>::empty(), spawned);
    assert(Seq::<TrackedProcessView>::empty() + spawned =~= spawned);
}

} // verus!
