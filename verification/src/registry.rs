//! Runtime registry: the single owner of registered detector and
//! event-source instances, each stored under its process-unique id in an
//! ordered mapping, one per capability kind.

use vstd::prelude::*;

use crate::detect::Detector;
use crate::sources::EventSource;
use crate::text::{
    lemma_seq_lt_connected, lemma_seq_lt_irreflexive, lemma_seq_lt_transitive, seq_lt, str_eq,
    str_lt,
};

verus! {

/// The ids of a run of entries, in storage order.
pub open spec fn entry_ids<T>(s: Seq<(String, T)>) -> Seq<Seq<char>> {
    s.map_values(|e: (String, T)| e.0@)
}

/// Ids strictly ascending in the lexicographic order; in particular, all
/// distinct.
pub open spec fn strictly_sorted(ids: Seq<Seq<char>>) -> bool {
    forall|i: int, j: int| 0 <= i < j < ids.len() ==> seq_lt(ids[i], ids[j])
}

/// Law: strictly sorted ids never repeat.
pub proof fn lemma_sorted_ids_unique(ids: Seq<Seq<char>>)
    requires
        strictly_sorted(ids),
    ensures
        forall|i: int, j: int| 0 <= i < j < ids.len() ==> ids[i] != ids[j],
{
    assert forall|i: int, j: int| 0 <= i < j < ids.len() implies ids[i] != ids[j] by {
        if ids[i] == ids[j] {
            lemma_seq_lt_irreflexive(ids[i]);
        }
    }
}

/// Insert `item` under `id`, keeping the ids sorted; hands back `false`,
/// and changes nothing, when the id is already taken.
fn insert_sorted<T>(entries: &mut Vec<(String, T)>, id: String, item: T) -> (r: bool)
    requires
        strictly_sorted(entry_ids(old(entries)@)),
    ensures
        strictly_sorted(entry_ids(final(entries)@)),
        !r ==> *final(entries) == *old(entries) && entry_ids(old(entries)@).contains(id@),
        r ==> !entry_ids(old(entries)@).contains(id@) && exists|p: int|
            0 <= p <= old(entries)@.len() && entry_ids(final(entries)@) =~= entry_ids(
                old(entries)@,
            ).insert(p, id@),
{
    let ghost old_ids = entry_ids(entries@);
    let mut pos: usize = 0;
    while pos < entries.len() && str_lt(entries[pos].0.as_str(), id.as_str())
        invariant
            pos <= entries@.len(),
            entries@ == old(entries)@,
            forall|k: int| 0 <= k < pos ==> seq_lt(entries@[k].0@, id@),
        decreases entries@.len() - pos,
    {
        pos += 1;
    }
    if pos < entries.len() && str_eq(entries[pos].0.as_str(), id.as_str()) {
        proof {
            assert(old_ids[pos as int] == id@);
            assert(old_ids.contains(id@));
        }
        return false;
    }
    proof {
        if old_ids.contains(id@) {
            let k = choose|k: int| 0 <= k < old_ids.len() && old_ids[k] == id@;
            assert(old_ids[k] == entries@[k].0@);
            if k < pos {
                assert(seq_lt(entries@[k].0@, id@));
                lemma_seq_lt_irreflexive(id@);
            } else if k > pos {
                assert(seq_lt(old_ids[pos as int], old_ids[k]));
                assert(old_ids[pos as int] == entries@[pos as int].0@);
                assert(!seq_lt(entries@[pos as int].0@, id@));
            }
        }
    }
    let ghost p = pos as int;
    entries.insert(pos, (id, item));
    proof {
        let new_ids = entry_ids(entries@);
        old(entries)@.insert_ensures(p, entries@[p]);
        assert forall|i: int| 0 <= i < new_ids.len() implies new_ids[i] == old_ids.insert(
            p,
            entries@[p].0@,
        )[i] by {
            old_ids.insert_ensures(p, entries@[p].0@);
            if i < p {
                assert(entries@[i] == old(entries)@[i]);
            } else if i > p {
                assert(entries@[i] == old(entries)@[i - 1]);
            }
        }
        assert(new_ids =~= old_ids.insert(p, entries@[p].0@));
        assert(entries@[p].0@ == new_ids[p]);
        let id_view = new_ids[p];
        // The new run of ids stays strictly sorted: everything before the
        // insertion point was below the id, everything at or after it above.
        old_ids.insert_ensures(p, id_view);
        assert forall|i: int, j: int|
            0 <= i < j < new_ids.len() implies seq_lt(new_ids[i], new_ids[j]) by {
            if p < old_ids.len() {
                lemma_seq_lt_connected(id_view, old_ids[p]);
            }
            if i == p {
                // new_ids[j] == old_ids[j - 1] with j - 1 >= p
                if j - 1 > p {
                    lemma_seq_lt_transitive(id_view, old_ids[p], old_ids[j - 1]);
                }
            } else if j == p {
                // new_ids[i] == old_ids[i] with i < p
            } else if i < p && j > p {
                if p < old_ids.len() && j - 1 > p {
                    lemma_seq_lt_transitive(old_ids[i], old_ids[p], old_ids[j - 1]);
                }
            }
        }
    }
    true
}

/// Registry for dynamic detector/source composition: an ordered mapping
/// per capability kind, keyed by unique id; a duplicate id is rejected as
/// a caller bug, never silently overwritten.
pub struct RuntimeRegistry<D, S> {
    detectors: Vec<(String, D)>,
    sources: Vec<(String, S)>,
}

impl<D: Detector, S: EventSource> RuntimeRegistry<D, S> {
    /// The registered detector ids, in their stored (ascending) order.
    pub closed spec fn spec_detector_ids(&self) -> Seq<Seq<char>> {
        entry_ids(self.detectors@)
    }

    /// The registered source ids, in their stored (ascending) order.
    pub closed spec fn spec_source_ids(&self) -> Seq<Seq<char>> {
        entry_ids(self.sources@)
    }

    /// Both id runs are strictly sorted, so no id repeats.
    pub open spec fn well_formed(&self) -> bool {
        strictly_sorted(self.spec_detector_ids()) && strictly_sorted(self.spec_source_ids())
    }

    /// An empty registry.
    pub fn new() -> (r: Self)
        ensures
            r.well_formed(),
            r.spec_detector_ids() == Seq::<Seq<char>>::empty(),
            r.spec_source_ids() == Seq::<Seq<char>>::empty(),
    {
        let r = RuntimeRegistry { detectors: Vec::new(), sources: Vec::new() };
        proof {
            assert(r.spec_detector_ids() =~= Seq::<Seq<char>>::empty());
            assert(r.spec_source_ids() =~= Seq::<Seq<char>>::empty());
        }
        r
    }

    /// Register a detector under its id; fails, and leaves the registry
    /// unchanged, exactly when the id is already taken.
    pub fn register_detector(&mut self, detector: D) -> (r: Result<(), String>)
        requires
            old(self).well_formed(),
        ensures
            final(self).well_formed(),
            r is Ok <==> !old(self).spec_detector_ids().contains(detector.spec_id()),
            r is Err ==> *final(self) == *old(self),
            r matches Err(msg) ==> msg@ == "detector already registered: "@ + detector.spec_id(),
            r is Ok ==> {
                &&& final(self).spec_detector_ids().len() == old(self).spec_detector_ids().len()
                    + 1
                &&& exists|p: int|
                    0 <= p <= old(self).spec_detector_ids().len()
                        && final(self).spec_detector_ids() =~= old(
                        self,
                    ).spec_detector_ids().insert(p, detector.spec_id())
                &&& final(self).spec_source_ids() == old(self).spec_source_ids()
            },
    {
        let id = detector.id();
        if insert_sorted(&mut self.detectors, id.to_owned(), detector) {
            proof {
                assert(self.spec_source_ids() =~= old(self).spec_source_ids());
                assert(self.spec_source_ids() == old(self).spec_source_ids());
            }
            Ok(())
        } else {
            Err(String::from_str("detector already registered: ").concat(id))
        }
    }

    /// Register an event source under its id; fails, and leaves the
    /// registry unchanged, exactly when the id is already taken.
    pub fn register_source(&mut self, source: S) -> (r: Result<(), String>)
        requires
            old(self).well_formed(),
        ensures
            final(self).well_formed(),
            r is Ok <==> !old(self).spec_source_ids().contains(source.spec_id()),
            r is Err ==> *final(self) == *old(self),
            r matches Err(msg) ==> msg@ == "source already registered: "@ + source.spec_id(),
            r is Ok ==> {
                &&& final(self).spec_source_ids().len() == old(self).spec_source_ids().len() + 1
                &&& exists|p: int|
                    0 <= p <= old(self).spec_source_ids().len() && final(self).spec_source_ids()
                        =~= old(self).spec_source_ids().insert(p, source.spec_id())
                &&& final(self).spec_detector_ids() == old(self).spec_detector_ids()
            },
    {
        let id = source.id();
        if insert_sorted(&mut self.sources, id.to_owned(), source) {
            proof {
                assert(self.spec_detector_ids() =~= old(self).spec_detector_ids());
                assert(self.spec_detector_ids() == old(self).spec_detector_ids());
            }
            Ok(())
        } else {
            Err(String::from_str("source already registered: ").concat(id))
        }
    }

    /// Read-only snapshot of the registered detector ids, ascending.
    pub fn detector_ids(&self) -> (r: Vec<String>)
        ensures
            r@.map_values(|s: String| s@) == self.spec_detector_ids(),
    {
        ids_of(&self.detectors)
    }

    /// Read-only snapshot of the registered source ids, ascending.
    pub fn source_ids(&self) -> (r: Vec<String>)
        ensures
            r@.map_values(|s: String| s@) == self.spec_source_ids(),
    {
        ids_of(&self.sources)
    }

    /// Number of registered detectors.
    pub fn detector_count(&self) -> (r: usize)
        ensures
            r == self.spec_detector_ids().len(),
    {
        self.detectors.len()
    }

    /// Number of registered sources.
    pub fn source_count(&self) -> (r: usize)
        ensures
            r == self.spec_source_ids().len(),
    {
        self.sources.len()
    }
}

/// The ids of `entries`, in storage order.
fn ids_of<T>(entries: &Vec<(String, T)>) -> (r: Vec<String>)
    ensures
        r@.map_values(|s: String| s@) == entry_ids(entries@),
{
    let mut ids: Vec<String> = Vec::new();
    let mut i: usize = 0;
    while i < entries.len()
        invariant
            i <= entries@.len(),
            ids@.len() == i,
            forall|k: int| 0 <= k < i ==> ids@[k]@ == entries@[k].0@,
        decreases entries@.len() - i,
    {
        ids.push(entries[i].0.clone());
        i += 1;
    }
    proof {
        assert(ids@.map_values(|s: String| s@) =~= entry_ids(entries@));
    }
    ids
}

} // verus!
