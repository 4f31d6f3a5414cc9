//! The registry of running workers: the one record of which worker is up.

use crate::error::SupervisionError;
use crate::text::str_equal;
use crate::worker::WorkerHandle;
use vstd::prelude::*;
use vstd::string::*;

verus! {

/// One worker that is up: its name and the handle to its process.
struct Entry {
    name: String,
    handle: WorkerHandle,
}

/// A mapping from worker names to the handles of the running workers.
///
/// The registry owns the handles it holds. Its view is the mapping from each
/// registered name to the identity of the process behind its handle. The
/// registry does not lock anything by itself: a caller that changes several
/// entries as one unit holds the registry exclusively for that time.
pub struct ProcessRegistry {
    entries: Vec<Entry>,
}

/// Whether `name` is the name of one of the first `upto` entries.
spec fn named_before(entries: Seq<Entry>, upto: int, name: Seq<char>) -> bool {
    exists|i: int| 0 <= i < upto && i < entries.len() && #[trigger] entries[i].name@ == name
}

/// The position of the entry that is registered under `name`.
spec fn position_of(entries: Seq<Entry>, name: Seq<char>) -> int {
    choose|i: int| 0 <= i < entries.len() && #[trigger] entries[i].name@ == name
}

/// The mapping that a sequence of entries stands for.
spec fn mapping_of(entries: Seq<Entry>) -> Map<Seq<char>, u64> {
    Map::new(
        |name: Seq<char>| named_before(entries, entries.len() as int, name),
        |name: Seq<char>| entries[position_of(entries, name)].handle@,
    )
}

/// No two entries are registered under the same name.
spec fn distinct_names(entries: Seq<Entry>) -> bool {
    forall|i: int, j: int|
        0 <= i < j < entries.len() ==> #[trigger] entries[i].name@ != #[trigger] entries[j].name@
}

/// With distinct names, the entry at position `i` is the one that the mapping
/// gives for its name.
proof fn lemma_entry_in_mapping(entries: Seq<Entry>, i: int)
    requires
        distinct_names(entries),
        0 <= i < entries.len(),
    ensures
        mapping_of(entries).contains_key(entries[i].name@),
        mapping_of(entries)[entries[i].name@] == entries[i].handle@,
{
    let name = entries[i].name@;
    assert(named_before(entries, entries.len() as int, name));
    let k = position_of(entries, name);
    assert(0 <= k < entries.len() && entries[k].name@ == name);
    if k < i {
        assert(entries[k].name@ != entries[i].name@);
    } else if i < k {
        assert(entries[i].name@ != entries[k].name@);
    }
}

impl View for ProcessRegistry {
    type V = Map<Seq<char>, u64>;

    closed spec fn view(&self) -> Map<Seq<char>, u64> {
        mapping_of(self.entries@)
    }
}

impl ProcessRegistry {
    #[verifier::type_invariant]
    spec fn well_formed(&self) -> bool {
        distinct_names(self.entries@)
    }

    /// A registry in which no worker is registered.
    pub fn new() -> (registry: ProcessRegistry)
        ensures
            registry@ == Map::<Seq<char>, u64>::empty(),
    {
        let registry = ProcessRegistry { entries: Vec::new() };
        assert(registry@ =~= Map::<Seq<char>, u64>::empty());
        registry
    }

    /// The position of the entry registered under `name`, or the number of
    /// entries if there is none.
    fn find(&self, name: &str) -> (at: usize)
        ensures
            at <= self.entries@.len(),
            at < self.entries@.len() ==> self.entries@[at as int].name@ == name@,
            at == self.entries@.len() ==> !self@.contains_key(name@),
    {
        let mut i: usize = 0;
        while i < self.entries.len()
            invariant
                i <= self.entries@.len(),
                !named_before(self.entries@, i as int, name@),
            decreases self.entries@.len() - i,
        {
            if str_equal(self.entries[i].name.as_str(), name) {
                return i;
            }
            i += 1;
        }
        i
    }

    /// The number of registered workers.
    pub fn len(&self) -> (count: usize)
        ensures
            self@.dom().finite(),
            count == self@.dom().len(),
    {
        proof {
            use_type_invariant(self);
            lemma_mapping_size(self.entries@);
        }
        self.entries.len()
    }

    /// Whether a worker is registered under `name`.
    pub fn contains(&self, name: &str) -> (found: bool)
        ensures
            found == self@.contains_key(name@),
    {
        let at = self.find(name);
        proof {
            use_type_invariant(self);
            if at < self.entries@.len() {
                lemma_entry_in_mapping(self.entries@, at as int);
            }
        }
        at < self.entries.len()
    }

    /// The handle of the worker registered under `name`.
    pub fn get(&self, name: &str) -> (handle: Option<&WorkerHandle>)
        ensures
            match handle {
                Some(h) => self@.contains_key(name@) && h@ == self@[name@],
                None => !self@.contains_key(name@),
            },
    {
        let at = self.find(name);
        if at < self.entries.len() {
            proof {
                use_type_invariant(self);
                lemma_entry_in_mapping(self.entries@, at as int);
            }
            Some(&self.entries[at].handle)
        } else {
            None
        }
    }

    /// Takes the worker registered under `name` out of the registry and hands
    /// its handle to the caller.
    ///
    /// Fails with `UnknownWorker`, and changes nothing, if no worker is
    /// registered under `name`.
    pub fn remove(&mut self, name: &str) -> (removed: Result<WorkerHandle, SupervisionError>)
        ensures
            match removed {
                Ok(h) => old(self)@.contains_key(name@) && h@ == old(self)@[name@] && final(self)@
                    == old(self)@.remove(name@),
                Err(e) => !old(self)@.contains_key(name@) && final(self)@ == old(self)@ && e@
                    == crate::error::SupervisionErrorView::UnknownWorker(name@),
            },
    {
        let at = self.find(name);
        if at < self.entries.len() {
            proof {
                use_type_invariant(&*self);
                lemma_entry_in_mapping(self.entries@, at as int);
                lemma_mapping_without(self.entries@, at as int);
            }
            let mut entries: Vec<Entry> = Vec::new();
            core::mem::swap(&mut self.entries, &mut entries);
            let entry = entries.remove(at);
            self.entries = entries;
            Ok(entry.handle)
        } else {
            Err(SupervisionError::UnknownWorker(String::from_str(name)))
        }
    }

    /// Registers `handle` under `name`.
    ///
    /// A handle that was registered under `name` before is replaced and
    /// handed back. A caller that replaces a running worker takes the old
    /// handle out with [`ProcessRegistry::remove`] first, so that nothing is
    /// handed back here.
    pub fn insert(&mut self, name: String, handle: WorkerHandle) -> (replaced: Option<WorkerHandle>)
        ensures
            final(self)@ == old(self)@.insert(name@, handle@),
            match replaced {
                Some(h) => old(self)@.contains_key(name@) && h@ == old(self)@[name@],
                None => !old(self)@.contains_key(name@),
            },
    {
        let at = self.find(name.as_str());
        if at < self.entries.len() {
            proof {
                use_type_invariant(&*self);
                lemma_entry_in_mapping(self.entries@, at as int);
                lemma_mapping_without(self.entries@, at as int);
            }
            let mut entries: Vec<Entry> = Vec::new();
            core::mem::swap(&mut self.entries, &mut entries);
            let entry = entries.remove(at);
            proof {
                lemma_mapping_with(entries@, Entry { name, handle });
            }
            entries.push(Entry { name, handle });
            self.entries = entries;
            assert(self@ =~= old(self)@.insert(name@, handle@));
            Some(entry.handle)
        } else {
            proof {
                use_type_invariant(&*self);
                lemma_mapping_with(self.entries@, Entry { name, handle });
            }
            let mut entries: Vec<Entry> = Vec::new();
            core::mem::swap(&mut self.entries, &mut entries);
            entries.push(Entry { name, handle });
            self.entries = entries;
            None
        }
    }

    /// Takes every worker out of the registry and hands the handles to the
    /// caller, each with the name it was registered under. This is how the
    /// registry is torn down when the application shuts down.
    pub fn drain(&mut self) -> (taken: Vec<(String, WorkerHandle)>)
        ensures
            final(self)@ == Map::<Seq<char>, u64>::empty(),
            old(self)@.dom().finite(),
            taken@.len() == old(self)@.dom().len(),
            forall|i: int|
                0 <= i < taken@.len() ==> old(self)@.contains_key((#[trigger] taken@[i]).0@)
                    && old(self)@[taken@[i].0@] == taken@[i].1@,
            forall|i: int, j: int|
                0 <= i < j < taken@.len() ==> (#[trigger] taken@[i]).0@ != (#[trigger] taken@[j]).0@,
            forall|name: Seq<char>|
                old(self)@.contains_key(name) ==> exists|i: int|
                    0 <= i < taken@.len() && (#[trigger] taken@[i]).0@ == name,
    {
        proof {
            use_type_invariant(&*self);
            lemma_mapping_size(self.entries@);
        }
        let mut entries: Vec<Entry> = Vec::new();
        core::mem::swap(&mut self.entries, &mut entries);
        assert(self@ =~= Map::<Seq<char>, u64>::empty());
        let ghost all = entries@;
        let mut taken: Vec<(String, WorkerHandle)> = Vec::new();
        for entry in it: entries
            invariant
                it.seq() == all,
                taken@.len() == it.index(),
                forall|i: int|
                    0 <= i < taken@.len() ==> (#[trigger] taken@[i]).0@ == all[i].name@
                        && taken@[i].1@ == all[i].handle@,
        {
            let Entry { name, handle } = entry;
            taken.push((name, handle));
        }
        proof {
            assert forall|i: int| 0 <= i < taken@.len() implies old(self)@.contains_key(
                (#[trigger] taken@[i]).0@,
            ) && old(self)@[taken@[i].0@] == taken@[i].1@ by {
                lemma_entry_in_mapping(all, i);
            }
            assert forall|name: Seq<char>| old(self)@.contains_key(name) implies exists|i: int|
                0 <= i < taken@.len() && (#[trigger] taken@[i]).0@ == name by {
                let at = position_of(all, name);
                assert(taken@[at].0@ == name);
            }
        }
        taken
    }
}

/// What the mapping is once the entry at position `at` has been taken out.
proof fn lemma_mapping_without(entries: Seq<Entry>, at: int)
    requires
        distinct_names(entries),
        0 <= at < entries.len(),
    ensures
        distinct_names(entries.remove(at)),
        mapping_of(entries.remove(at)) == mapping_of(entries).remove(entries[at].name@),
{
    let rest = entries.remove(at);
    let gone = entries[at].name@;
    assert forall|i: int, j: int| 0 <= i < j < rest.len() implies #[trigger] rest[i].name@
        != #[trigger] rest[j].name@ by {
        let oi = if i < at { i } else { i + 1 };
        let oj = if j < at { j } else { j + 1 };
        assert(rest[i] == entries[oi] && rest[j] == entries[oj]);
        assert(entries[oi].name@ != entries[oj].name@);
    }
    assert forall|name: Seq<char>| mapping_of(rest).contains_key(name) <==> (mapping_of(
        entries,
    ).contains_key(name) && name != gone) by {
        if mapping_of(rest).contains_key(name) {
            let i = position_of(rest, name);
            let oi = if i < at { i } else { i + 1 };
            assert(rest[i] == entries[oi]);
            assert(entries[oi].name@ == name);
            if oi < at {
                assert(entries[oi].name@ != entries[at].name@);
            } else {
                assert(entries[at].name@ != entries[oi].name@);
            }
        }
        if mapping_of(entries).contains_key(name) && name != gone {
            let oi = position_of(entries, name);
            let i = if oi < at { oi } else { oi - 1 };
            assert(rest[i] == entries[oi]);
            assert(rest[i].name@ == name);
        }
    }
    assert forall|name: Seq<char>| mapping_of(rest).contains_key(name) implies mapping_of(
        rest,
    )[name] == mapping_of(entries)[name] by {
        let i = position_of(rest, name);
        let oi = if i < at { i } else { i + 1 };
        assert(rest[i] == entries[oi]);
        lemma_entry_in_mapping(rest, i);
        lemma_entry_in_mapping(entries, oi);
    }
    assert(mapping_of(rest) =~= mapping_of(entries).remove(gone));
}

/// What the mapping is once an entry with a name that is not yet registered
/// has been added at the end.
proof fn lemma_mapping_with(entries: Seq<Entry>, entry: Entry)
    requires
        distinct_names(entries),
        !mapping_of(entries).contains_key(entry.name@),
    ensures
        distinct_names(entries.push(entry)),
        mapping_of(entries.push(entry)) == mapping_of(entries).insert(entry.name@, entry.handle@),
{
    let more = entries.push(entry);
    assert forall|i: int, j: int| 0 <= i < j < more.len() implies #[trigger] more[i].name@
        != #[trigger] more[j].name@ by {
        if j == entries.len() {
            assert(more[i] == entries[i]);
            if more[i].name@ == entry.name@ {
                assert(named_before(entries, entries.len() as int, entry.name@));
            }
        } else {
            assert(more[i] == entries[i] && more[j] == entries[j]);
        }
    }
    assert forall|name: Seq<char>| mapping_of(more).contains_key(name) <==> (mapping_of(
        entries,
    ).contains_key(name) || name == entry.name@) by {
        if mapping_of(more).contains_key(name) {
            let i = position_of(more, name);
            if i < entries.len() {
                assert(more[i] == entries[i]);
                assert(named_before(entries, entries.len() as int, name));
            }
        }
        if mapping_of(entries).contains_key(name) {
            let i = position_of(entries, name);
            assert(more[i] == entries[i]);
            assert(named_before(more, more.len() as int, name));
        }
        if name == entry.name@ {
            assert(more[entries.len() as int] == entry);
            assert(named_before(more, more.len() as int, name));
        }
    }
    assert forall|name: Seq<char>| mapping_of(more).contains_key(name) implies mapping_of(
        more,
    )[name] == mapping_of(entries).insert(entry.name@, entry.handle@)[name] by {
        let i = position_of(more, name);
        lemma_entry_in_mapping(more, i);
        if i < entries.len() {
            assert(more[i] == entries[i]);
            lemma_entry_in_mapping(entries, i);
        } else {
            assert(more[i] == entry);
        }
    }
    assert(mapping_of(more) =~= mapping_of(entries).insert(entry.name@, entry.handle@));
}

/// With distinct names, the mapping has as many keys as there are entries.
proof fn lemma_mapping_size(entries: Seq<Entry>)
    requires
        distinct_names(entries),
    ensures
        mapping_of(entries).dom().finite(),
        mapping_of(entries).dom().len() == entries.len(),
    decreases entries.len(),
{
    if entries.len() == 0 {
        assert(mapping_of(entries).dom() =~= Set::<Seq<char>>::empty());
    } else {
        let at = entries.len() - 1;
        lemma_entry_in_mapping(entries, at);
        lemma_mapping_without(entries, at);
        lemma_mapping_size(entries.remove(at));
        let smaller = mapping_of(entries.remove(at)).dom();
        assert(mapping_of(entries).dom() =~= smaller.insert(entries[at].name@));
    }
}

} // verus!
