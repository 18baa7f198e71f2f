//! A registry of context handles. Where a host cannot put a typed reference behind the
//! opaque context pointer, it hands the machine an identifier in its place, and finds the
//! handle again by it when a callback comes in.
//!
//! The registry is a plain value. A host that is called from several threads keeps it
//! behind one lock and holds the lock for each operation: the operations then come one
//! after another, and what is stated here of every sequence of operations holds of every
//! interleaving.

use std::collections::HashMap;
use vstd::prelude::*;

verus! {

broadcast use vstd::std_specs::hash::group_hash_axioms;

/// An operation on a registry.
pub enum Operation<H> {
    /// Registers the handle under a new identifier.
    Register(H),
    /// Removes what is registered under the identifier, if anything is.
    Remove(u64),
}

/// What a registry holds, for contracts: how many identifiers it has issued, and the
/// handles by their identifiers.
pub struct RegistryView<H> {
    pub issued: nat,
    pub entries: Map<u64, H>,
}

impl<H> RegistryView<H> {
    /// The registry that has issued nothing.
    pub open spec fn empty() -> Self {
        RegistryView { issued: 0, entries: Map::empty() }
    }

    /// Whether the count of issued identifiers fits the identifiers' type, and every
    /// handle is registered under an identifier that has been issued.
    pub open spec fn well_formed(self) -> bool {
        &&& self.issued <= u64::MAX
        &&& forall|id: u64| self.entries.contains_key(id) ==> id < self.issued
    }

    /// The identifier that the operation is answered with: for a registration the count
    /// of the identifiers issued before it, as long as identifiers are left.
    pub open spec fn issues(self, operation: Operation<H>) -> Option<u64> {
        match operation {
            Operation::Register(_) => if self.issued < u64::MAX {
                Some(self.issued as u64)
            } else {
                None
            },
            Operation::Remove(_) => None,
        }
    }

    /// The registry after the operation. A registration for which no identifier is left
    /// changes nothing.
    pub open spec fn step(self, operation: Operation<H>) -> Self {
        match operation {
            Operation::Register(handle) => if self.issued < u64::MAX {
                RegistryView {
                    issued: self.issued + 1,
                    entries: self.entries.insert(self.issued as u64, handle),
                }
            } else {
                self
            },
            Operation::Remove(id) => RegistryView {
                issued: self.issued,
                entries: self.entries.remove(id),
            },
        }
    }

    /// The registry after the operations, one after another.
    pub open spec fn run(self, operations: Seq<Operation<H>>) -> Self
        decreases operations.len(),
    {
        if operations.len() == 0 {
            self
        } else {
            self.run(operations.drop_last()).step(operations.last())
        }
    }
}

/// A registry of handles by identifiers that are issued in rising order and never again.
/// Every registry that `new` made and the methods changed is well formed.
pub struct HandleRegistry<H> {
    next: u64,
    handles: HashMap<u64, H>,
}

impl<H> View for HandleRegistry<H> {
    type V = RegistryView<H>;

    closed spec fn view(&self) -> RegistryView<H> {
        RegistryView { issued: self.next as nat, entries: self.handles@ }
    }
}

impl<H> HandleRegistry<H> {
    /// A registry that has issued nothing.
    pub fn new() -> (registry: Self)
        ensures
            registry@ == RegistryView::<H>::empty(),
            registry@.well_formed(),
    {
        HandleRegistry { next: 0, handles: HashMap::new() }
    }

    /// Registers the handle and answers with its identifier, which is none that this
    /// registry has issued before. `None` means that no identifier is left; the registry
    /// is then as it was, and the handle is dropped.
    pub fn register(&mut self, handle: H) -> (id: Option<u64>)
        requires
            old(self)@.well_formed(),
        ensures
            id == old(self)@.issues(Operation::Register(handle)),
            final(self)@ == old(self)@.step(Operation::Register(handle)),
            id matches Some(new) ==> !old(self)@.entries.contains_key(new),
            final(self)@.well_formed(),
    {
        if self.next == u64::MAX {
            return None;
        }
        let id: u64 = self.next;
        self.handles.insert(id, handle);
        self.next = id + 1;
        Some(id)
    }

    /// The handle that is registered under the identifier, if one is.
    pub fn get(&self, id: u64) -> (handle: Option<&H>)
        ensures
            match handle {
                Some(found) => self@.entries.contains_key(id) && self@.entries[id] == *found,
                None => !self@.entries.contains_key(id),
            },
    {
        self.handles.get(&id)
    }

    /// Removes what is registered under the identifier, and answers with it. Nothing else
    /// that is registered is touched, and the identifier is not issued again.
    pub fn remove(&mut self, id: u64) -> (handle: Option<H>)
        requires
            old(self)@.well_formed(),
        ensures
            final(self)@ == old(self)@.step(Operation::Remove(id)),
            final(self)@.well_formed(),
            match handle {
                Some(removed) => old(self)@.entries.contains_key(id) && old(self)@.entries[id]
                    == removed,
                None => !old(self)@.entries.contains_key(id),
            },
    {
        self.handles.remove(&id)
    }

    /// How many handles are registered.
    pub fn len(&self) -> (len: usize)
        ensures
            len == self@.entries.len(),
    {
        self.handles.len()
    }
}

/// Operations keep a registry well formed, and never take back an identifier that was
/// issued.
pub proof fn lemma_run_well_formed<H>(start: RegistryView<H>, operations: Seq<Operation<H>>)
    requires
        start.well_formed(),
    ensures
        start.run(operations).well_formed(),
        start.issued <= start.run(operations).issued,
    decreases operations.len(),
{
    if operations.len() > 0 {
        lemma_run_well_formed(start, operations.drop_last());
    }
}

/// The count of issued identifiers never falls: after more operations it is no less than
/// after fewer.
pub proof fn lemma_issued_rises<H>(
    start: RegistryView<H>,
    operations: Seq<Operation<H>>,
    earlier: int,
    later: int,
)
    requires
        start.well_formed(),
        0 <= earlier <= later <= operations.len(),
    ensures
        start.run(operations.take(earlier)).issued <= start.run(operations.take(later)).issued,
    decreases later - earlier,
{
    if earlier < later {
        lemma_issued_rises(start, operations, earlier, later - 1);
        assert(operations.take(later).drop_last() =~= operations.take(later - 1));
        lemma_run_well_formed(start, operations.take(later - 1));
    }
}

/// No identifier is issued twice: in whatever order registrations and removals come, two
/// registrations are answered with two identifiers, the later one with the greater.
pub proof fn lemma_no_duplicate_identifier<H>(
    start: RegistryView<H>,
    operations: Seq<Operation<H>>,
    first: int,
    second: int,
)
    requires
        start.well_formed(),
        0 <= first < second < operations.len(),
        start.run(operations.take(first)).issues(operations[first]) is Some,
        start.run(operations.take(second)).issues(operations[second]) is Some,
    ensures
        start.run(operations.take(first)).issues(operations[first])->0 < start.run(
            operations.take(second),
        ).issues(operations[second])->0,
{
    assert(operations.take(first + 1).drop_last() =~= operations.take(first));
    lemma_issued_rises(start, operations, first + 1, second);
}

/// No registration is lost: a handle that was registered is found under its identifier
/// after any further operations, unless one of them removed that identifier.
pub proof fn lemma_no_lost_entry<H>(
    start: RegistryView<H>,
    operations: Seq<Operation<H>>,
    at: int,
    handle: H,
)
    requires
        start.well_formed(),
        0 <= at < operations.len(),
        operations[at] == Operation::Register(handle),
        start.run(operations.take(at)).issues(operations[at]) is Some,
        forall|later: int|
            at < later < operations.len() ==> operations[later] != Operation::<H>::Remove(
                start.run(operations.take(at)).issues(operations[at])->0,
            ),
    ensures
        start.run(operations).entries.contains_key(
            start.run(operations.take(at)).issues(operations[at])->0,
        ),
        start.run(operations).entries[start.run(operations.take(at)).issues(operations[at])->0]
            == handle,
    decreases operations.len() - at,
{
    let id = start.run(operations.take(at)).issues(operations[at])->0;
    if operations.len() == at + 1 {
        assert(operations.drop_last() =~= operations.take(at));
    } else {
        let before = operations.drop_last();
        assert(before.take(at) =~= operations.take(at));
        assert forall|later: int| at < later < before.len() implies before[later]
            != Operation::<H>::Remove(id) by {
            assert(before[later] == operations[later]);
        }
        lemma_no_lost_entry(start, before, at, handle);
        assert(before.take(at + 1) =~= operations.take(at + 1));
        assert(operations.take(at + 1).drop_last() =~= operations.take(at));
        assert(before.take(before.len() as int) =~= before);
        lemma_issued_rises(start, before, at + 1, before.len() as int);
    }
}

} // verus!
