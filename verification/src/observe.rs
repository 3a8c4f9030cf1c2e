//! The observation table: a mapping from a caller-chosen numeric id to a
//! registered property name and desired format. The event loop looks an
//! id up when a change notification arrives to recover the name the
//! caller observed under. Ids are unique among active observations; the
//! same (name, format) pair may be registered any number of times under
//! different ids.

use vstd::prelude::*;
use crate::format::Format;

verus! {

/// One active observation: the caller-chosen id, the property name, and
/// the format the caller asked change notifications to arrive in.
#[derive(Debug)]
pub struct ObservationEntry {
    pub id: u64,
    pub name: String,
    pub format: Format,
}

/// The ghost model of an entry: its id, name text, and format.
pub open spec fn entry_model(e: ObservationEntry) -> (u64, Seq<char>, Format) {
    (e.id, e.name@, e.format)
}

/// What looking an id up in a sequence of entry models yields: the name
/// and format of the first entry with that id, or nothing.
pub open spec fn lookup_spec(s: Seq<(u64, Seq<char>, Format)>, id: u64) -> Option<
    (Seq<char>, Format),
>
    decreases s.len(),
{
    if s.len() == 0 {
        None
    } else if s[0].0 == id {
        Some((s[0].1, s[0].2))
    } else {
        lookup_spec(s.drop_first(), id)
    }
}

/// No two entries carry the same id.
pub open spec fn unique_ids(s: Seq<(u64, Seq<char>, Format)>) -> bool {
    forall|i: int, j: int| 0 <= i < j < s.len() ==> s[i].0 != s[j].0
}

/// A lookup misses exactly when no entry carries the id.
pub proof fn lemma_lookup_none_iff(s: Seq<(u64, Seq<char>, Format)>, id: u64)
    ensures
        (lookup_spec(s, id) is None) <==> (forall|j: int| 0 <= j < s.len() ==> s[j].0 != id),
    decreases s.len(),
{
    if s.len() > 0 {
        lemma_lookup_none_iff(s.drop_first(), id);
        if lookup_spec(s, id) is None {
            assert forall|j: int| 0 <= j < s.len() implies s[j].0 != id by {
                if j > 0 {
                    assert(s.drop_first()[j - 1] == s[j]);
                    assert(s.drop_first()[j - 1].0 != id);
                }
            }
        }
        if forall|j: int| 0 <= j < s.len() ==> s[j].0 != id {
            assert forall|j: int| 0 <= j < s.drop_first().len() implies s.drop_first()[j].0
                != id by {
                assert(s.drop_first()[j] == s[j + 1]);
                assert(s[j + 1].0 != id);
            }
        }
    }
}

/// A lookup returns the entry at the first index carrying the id.
pub proof fn lemma_lookup_at(s: Seq<(u64, Seq<char>, Format)>, id: u64, i: int)
    requires
        0 <= i < s.len(),
        s[i].0 == id,
        forall|j: int| 0 <= j < i ==> s[j].0 != id,
    ensures
        lookup_spec(s, id) == Some((s[i].1, s[i].2)),
    decreases i,
{
    if i > 0 {
        lemma_lookup_at(s.drop_first(), id, i - 1);
    }
}

/// Appending an entry changes only lookups of its id, and only when that
/// id was absent.
pub proof fn lemma_lookup_push(
    s: Seq<(u64, Seq<char>, Format)>,
    e: (u64, Seq<char>, Format),
    id: u64,
)
    ensures
        lookup_spec(s.push(e), id) == (if lookup_spec(s, id) is Some {
            lookup_spec(s, id)
        } else if e.0 == id {
            Some((e.1, e.2))
        } else {
            None
        }),
    decreases s.len(),
{
    let sp = s.push(e);
    assert(sp.len() == s.len() + 1);
    if s.len() == 0 {
        assert(sp[0] == e);
        if e.0 != id {
            assert(sp.drop_first() =~= Seq::<(u64, Seq<char>, Format)>::empty());
            assert(lookup_spec(sp, id) == lookup_spec(sp.drop_first(), id));
        }
    } else {
        lemma_lookup_push(s.drop_first(), e, id);
        assert(sp[0] == s[0]);
        assert(sp.drop_first() =~= s.drop_first().push(e));
        if s[0].0 == id {
            assert(lookup_spec(sp, id) == Some((sp[0].1, sp[0].2)));
            assert(lookup_spec(s, id) == Some((s[0].1, s[0].2)));
        } else {
            assert(lookup_spec(sp, id) == lookup_spec(sp.drop_first(), id));
            assert(lookup_spec(s, id) == lookup_spec(s.drop_first(), id));
        }
    }
}

/// Removing an entry leaves lookups of every other id unchanged.
pub proof fn lemma_lookup_remove_other(s: Seq<(u64, Seq<char>, Format)>, i: int, id: u64)
    requires
        0 <= i < s.len(),
        s[i].0 != id,
    ensures
        lookup_spec(s.remove(i), id) == lookup_spec(s, id),
    decreases s.len(),
{
    s.remove_ensures(i);
    if i == 0 {
        assert(s.remove(0) =~= s.drop_first());
    } else {
        lemma_lookup_remove_other(s.drop_first(), i - 1, id);
        assert(s.remove(i).drop_first() =~= s.drop_first().remove(i - 1));
    }
}

/// The table of active observations, looked up by id.
#[derive(Debug)]
pub struct ObservationTable {
    entries: Vec<ObservationEntry>,
}

impl View for ObservationTable {
    type V = Seq<(u64, Seq<char>, Format)>;

    closed spec fn view(&self) -> Seq<(u64, Seq<char>, Format)> {
        self.entries@.map(|i: int, e: ObservationEntry| entry_model(e))
    }
}

impl ObservationTable {
    /// Ids are unique among active observations: the native library
    /// routes notifications by id, not by name.
    pub closed spec fn wf(self) -> bool {
        unique_ids(self@)
    }

    /// An empty table.
    pub fn new() -> (r: ObservationTable)
        ensures
            r@ == Seq::<(u64, Seq<char>, Format)>::empty(),
            r.wf(),
    {
        let r = ObservationTable { entries: Vec::new() };
        proof {
            assert(r@ =~= Seq::<(u64, Seq<char>, Format)>::empty());
        }
        r
    }

    /// The entry registered under `id`, if any.
    #[verifier::loop_isolation(false)]
    pub fn lookup(&self, id: u64) -> (r: Option<&ObservationEntry>)
        ensures
            match r {
                Some(e) => lookup_spec(self@, id) == Some((e.name@, e.format)) && e.id == id,
                None => lookup_spec(self@, id) is None,
            },
    {
        let mut i: usize = 0;
        while i < self.entries.len()
            invariant
                i <= self@.len(),
                forall|j: int| 0 <= j < i ==> self@[j].0 != id,
            decreases self@.len() - i,
        {
            if self.entries[i].id == id {
                proof {
                    lemma_lookup_at(self@, id, i as int);
                }
                return Some(&self.entries[i]);
            }
            i += 1;
        }
        proof {
            lemma_lookup_none_iff(self@, id);
        }
        None
    }

    /// Removes the observation registered under `id`, if any. Idempotent:
    /// unregistering an id that was never registered is a no-op, not an
    /// error. Every other observation is untouched.
    #[verifier::loop_isolation(false)]
    pub fn unregister(&mut self, id: u64)
        requires
            old(self).wf(),
        ensures
            final(self).wf(),
            lookup_spec(final(self)@, id) is None,
            forall|id2: u64| id2 != id ==> #[trigger] lookup_spec(final(self)@, id2)
                == lookup_spec(old(self)@, id2),
    {
        let ghost v = self@;
        let mut i: usize = 0;
        while i < self.entries.len()
            invariant
                *self == *old(self),
                i <= v.len(),
                forall|j: int| 0 <= j < i ==> v[j].0 != id,
            decreases v.len() - i,
        {
            if self.entries[i].id == id {
                self.entries.remove(i);
                proof {
                    assert(v[i as int].0 == id);
                    assert(self@ =~= v.remove(i as int));
                    v.remove_ensures(i as int);
                    assert forall|j: int| 0 <= j < self@.len() implies self@[j].0 != id by {
                        if j >= i {
                            assert(self@[j] == v[j + 1]);
                            assert(v[i as int].0 != v[j + 1].0);
                        } else {
                            assert(self@[j] == v[j]);
                            assert(v[j].0 != id);
                        }
                    }
                    lemma_lookup_none_iff(self@, id);
                    assert forall|id2: u64| id2 != id implies #[trigger] lookup_spec(self@, id2)
                        == lookup_spec(v, id2) by {
                        lemma_lookup_remove_other(v, i as int, id2);
                    }
                    assert forall|a: int, b: int| 0 <= a < b < self@.len() implies self@[a].0
                        != self@[b].0 by {
                        if b < i {
                        } else if a < i {
                            assert(self@[b] == v[b + 1]);
                        } else {
                            assert(self@[a] == v[a + 1]);
                            assert(self@[b] == v[b + 1]);
                        }
                    }
                }
                return ;
            }
            i += 1;
        }
        proof {
            lemma_lookup_none_iff(self@, id);
        }
    }

    /// Registers `name` under `id` with the desired `format`. An id that
    /// is already registered is overwritten with the new entry; every
    /// other observation is untouched.
    pub fn register(&mut self, name: String, format: Format, id: u64)
        requires
            old(self).wf(),
        ensures
            final(self).wf(),
            lookup_spec(final(self)@, id) == Some((name@, format)),
            forall|id2: u64| id2 != id ==> #[trigger] lookup_spec(final(self)@, id2)
                == lookup_spec(old(self)@, id2),
    {
        self.unregister(id);
        let ghost mid = self@;
        let entry = ObservationEntry { id, name, format };
        let ghost em = entry_model(entry);
        self.entries.push(entry);
        proof {
            assert(self@ =~= mid.push(em));
            lemma_lookup_none_iff(mid, id);
            lemma_lookup_push(mid, em, id);
            assert(lookup_spec(self@, id) == Some((em.1, em.2)));
            assert forall|id2: u64| id2 != id implies #[trigger] lookup_spec(self@, id2)
                == lookup_spec(mid, id2) by {
                lemma_lookup_push(mid, em, id2);
            }
            assert forall|a: int, b: int| 0 <= a < b < self@.len() implies self@[a].0
                != self@[b].0 by {
                if b == self@.len() - 1 {
                    assert(self@[a] == mid[a]);
                }
            }
        }
    }
}

} // verus!
