//! The in-memory mapping store.
//!
//! A `Database` owns a table of identifier-to-target mappings (keys unique)
//! and, optionally, a pending buffer of append-only persistence text. The
//! table is held as a vector of entries and abstracted as a
//! `Map<Seq<char>, Seq<char>>`; a successful first insertion of an
//! identifier appends one serialised line to the pending buffer, which the
//! caller drains to durable storage.

use crate::persistence::{entry_line, serialise_entry};
use vstd::prelude::*;
use vstd::string::*;

verus! {

/// One mapping from a short identifier to a target URL.
pub struct Entry {
    pub id: String,
    pub target: String,
}

/// No two entries share an identifier.
pub open spec fn distinct_ids(entries: Seq<Entry>) -> bool {
    forall|i: int, j: int|
        0 <= i < j < entries.len() ==> entries[i].id@ != entries[j].id@
}

/// The abstract contents of a sequence of entries, later entries winning.
pub open spec fn map_of(entries: Seq<Entry>) -> Map<Seq<char>, Seq<char>>
    decreases entries.len(),
{
    if entries.len() == 0 {
        Map::empty()
    } else {
        map_of(entries.drop_last()).insert(entries.last().id@, entries.last().target@)
    }
}

/// The abstract contents of a sequence of key/value pairs, later pairs winning.
pub open spec fn pairs_map(pairs: Seq<(String, String)>) -> Map<Seq<char>, Seq<char>>
    decreases pairs.len(),
{
    if pairs.len() == 0 {
        Map::empty()
    } else {
        pairs_map(pairs.drop_last()).insert(pairs.last().0@, pairs.last().1@)
    }
}

/// A key is in the abstract map exactly when some entry carries it.
pub proof fn lemma_map_of_contains(entries: Seq<Entry>, k: Seq<char>)
    ensures
        map_of(entries).contains_key(k) <==> (exists|i: int|
            0 <= i < entries.len() && entries[i].id@ == k),
    decreases entries.len(),
{
    if entries.len() == 0 {
    } else {
        lemma_map_of_contains(entries.drop_last(), k);
        if entries.last().id@ == k {
            assert(entries[entries.len() - 1].id@ == k);
        } else {
            if map_of(entries).contains_key(k) {
                let i = choose|i: int|
                    0 <= i < entries.drop_last().len() && entries.drop_last()[i].id@ == k;
                assert(entries[i].id@ == k);
            }
            if exists|i: int| 0 <= i < entries.len() && entries[i].id@ == k {
                let i = choose|i: int| 0 <= i < entries.len() && entries[i].id@ == k;
                assert(entries.drop_last()[i].id@ == k);
            }
        }
    }
}

/// With distinct identifiers, each entry's target is what the abstract map
/// associates with its identifier.
pub proof fn lemma_map_of_index(entries: Seq<Entry>, i: int)
    requires
        distinct_ids(entries),
        0 <= i < entries.len(),
    ensures
        map_of(entries).contains_key(entries[i].id@),
        map_of(entries)[entries[i].id@] == entries[i].target@,
    decreases entries.len(),
{
    if i == entries.len() - 1 {
    } else {
        assert(distinct_ids(entries.drop_last()));
        assert(entries.drop_last()[i] == entries[i]);
        lemma_map_of_index(entries.drop_last(), i);
        assert(entries.last().id@ != entries[i].id@);
    }
}

/// Replacing the target of the entry that carries an identifier updates the
/// abstract map at that identifier alone.
pub proof fn lemma_map_of_update(entries: Seq<Entry>, i: int, e: Entry)
    requires
        distinct_ids(entries),
        0 <= i < entries.len(),
        e.id@ == entries[i].id@,
    ensures
        map_of(entries.update(i, e)) == map_of(entries).insert(e.id@, e.target@),
        distinct_ids(entries.update(i, e)),
    decreases entries.len(),
{
    let upd = entries.update(i, e);
    assert forall|p: int, q: int| 0 <= p < q < upd.len() implies upd[p].id@ != upd[q].id@ by {
        assert(upd[p].id@ == entries[p].id@);
        assert(upd[q].id@ == entries[q].id@);
    }
    if i == entries.len() - 1 {
        assert(upd.drop_last() =~= entries.drop_last());
        assert(upd.last() == e);
        assert(map_of(entries).insert(e.id@, e.target@) =~= map_of(entries.drop_last()).insert(
            e.id@,
            e.target@,
        ));
    } else {
        assert(upd.drop_last() =~= entries.drop_last().update(i, e));
        assert(distinct_ids(entries.drop_last()));
        assert(entries.drop_last()[i] == entries[i]);
        lemma_map_of_update(entries.drop_last(), i, e);
        assert(upd.last() == entries.last());
        assert(entries.last().id@ != e.id@);
        assert(map_of(upd) == map_of(entries.drop_last()).insert(e.id@, e.target@).insert(
            entries.last().id@,
            entries.last().target@,
        ));
        assert(map_of(entries).insert(e.id@, e.target@) =~= map_of(entries.drop_last()).insert(
            e.id@,
            e.target@,
        ).insert(entries.last().id@, entries.last().target@));
    }
}

/// Appending an entry inserts its mapping into the abstract map.
pub proof fn lemma_map_of_push(entries: Seq<Entry>, e: Entry)
    ensures
        map_of(entries.push(e)) == map_of(entries).insert(e.id@, e.target@),
{
    assert(entries.push(e).drop_last() =~= entries);
    assert(entries.push(e).last() == e);
}

/// The mapping store: the table of entries and, when persistence is
/// attached, the log text appended since the buffer was last drained.
pub struct Database {
    data: Vec<Entry>,
    persistence: Option<String>,
}

impl Database {
    /// The mapping held in memory.
    pub closed spec fn map(self) -> Map<Seq<char>, Seq<char>> {
        map_of(self.data@)
    }

    /// Whether a persistence log is attached.
    pub closed spec fn persistent(self) -> bool {
        self.persistence is Some
    }

    /// Log text accepted since the pending buffer was last drained.
    pub closed spec fn pending(self) -> Seq<char> {
        match self.persistence {
            Some(buf) => buf@,
            None => Seq::empty(),
        }
    }

    /// At most one target per identifier at any time.
    pub closed spec fn wf(self) -> bool {
        distinct_ids(self.data@)
    }

    /// An empty store without persistence.
    pub fn new() -> (r: Database)
        ensures
            r.wf(),
            r.map() == Map::<Seq<char>, Seq<char>>::empty(),
            !r.persistent(),
            r.pending() == Seq::<char>::empty(),
    {
        Database { data: Vec::new(), persistence: None }
    }

    /// A store seeded from key/value pairs, later pairs winning, without
    /// persistence.
    pub fn from_entries(entries: &Vec<(String, String)>) -> (r: Database)
        ensures
            r.wf(),
            r.map() == pairs_map(entries@),
            !r.persistent(),
            r.pending() == Seq::<char>::empty(),
    {
        let mut db = Database::new();
        let mut i: usize = 0;
        while i < entries.len()
            invariant
                i <= entries@.len(),
                db.wf(),
                !db.persistent(),
                db.pending() == Seq::<char>::empty(),
                db.map() == pairs_map(entries@.take(i as int)),
            decreases entries@.len() - i,
        {
            let ghost prefix = entries@.take(i as int);
            db.insert(entries[i].0.as_str(), entries[i].1.as_str());
            proof {
                assert(entries@.take(i + 1 as int).drop_last() =~= prefix);
                assert(entries@.take(i + 1 as int).last() == entries@[i as int]);
            }
            i = i + 1;
        }
        proof {
            assert(entries@.take(entries@.len() as int) =~= entries@);
        }
        db
    }

    /// The same store with an (empty) persistence buffer attached.
    pub fn with_persistence(self) -> (r: Database)
        ensures
            r.wf() == self.wf(),
            r.map() == self.map(),
            r.persistent(),
            r.pending() == Seq::<char>::empty(),
    {
        Database { data: self.data, persistence: Some(String::new()) }
    }

    /// The index of the entry carrying `key`, if any.
    fn index_of(&self, key: &String) -> (r: Option<usize>)
        requires
            self.wf(),
        ensures
            match r {
                Some(i) => i < self.data@.len() && self.data@[i as int].id@ == key@
                    && self.map().contains_key(key@) && self.map()[key@]
                    == self.data@[i as int].target@,
                None => !self.map().contains_key(key@),
            },
    {
        let mut i: usize = 0;
        while i < self.data.len()
            invariant
                self.wf(),
                i <= self.data@.len(),
                forall|j: int| 0 <= j < i ==> self.data@[j].id@ != key@,
            decreases self.data@.len() - i,
        {
            if self.data[i].id == *key {
                proof {
                    lemma_map_of_index(self.data@, i as int);
                }
                return Some(i);
            }
            i = i + 1;
        }
        proof {
            lemma_map_of_contains(self.data@, key@);
        }
        None
    }

    /// The current target for an identifier, or nothing. No mutation.
    pub fn get(&self, key: &str) -> (r: Option<&String>)
        requires
            self.wf(),
        ensures
            match r {
                Some(t) => self.map().contains_key(key@) && t@ == self.map()[key@],
                None => !self.map().contains_key(key@),
            },
    {
        let owned = key.to_owned();
        match self.index_of(&owned) {
            Some(i) => Some(&self.data[i].target),
            None => None,
        }
    }

    /// Associates `value` with `key`, returning the previous target if one
    /// existed. Only the first insertion of an identifier appends its
    /// serialised line to the pending persistence buffer; overwrites do not,
    /// so that the log stays parseable as one key/value document.
    pub fn insert(&mut self, key: &str, value: &str) -> (r: Option<String>)
        requires
            old(self).wf(),
        ensures
            final(self).wf(),
            final(self).map() == old(self).map().insert(key@, value@),
            final(self).persistent() == old(self).persistent(),
            match r {
                Some(prev) => old(self).map().contains_key(key@) && prev@ == old(self).map()[key@]
                    && final(self).pending() == old(self).pending(),
                None => !old(self).map().contains_key(key@) && final(self).pending() == old(
                    self,
                ).pending() + (if old(self).persistent() {
                    entry_line(key@, value@)
                } else {
                    Seq::<char>::empty()
                }),
            },
    {
        let owned = key.to_owned();
        match self.index_of(&owned) {
            Some(i) => {
                let previous = self.data[i].target.clone();
                let ghost entries = self.data@;
                let e = Entry { id: owned, target: value.to_owned() };
                proof {
                    lemma_map_of_update(entries, i as int, e);
                }
                self.data[i] = e;
                Some(previous)
            },
            None => {
                let ghost entries = self.data@;
                let e = Entry { id: owned, target: value.to_owned() };
                proof {
                    lemma_map_of_push(entries, e);
                    lemma_map_of_contains(entries, key@);
                    assert forall|p: int, q: int|
                        0 <= p < q < entries.push(e).len() implies entries.push(e)[p].id@
                        != entries.push(e)[q].id@ by {
                        if q < entries.len() {
                            assert(entries.push(e)[p] == entries[p]);
                            assert(entries.push(e)[q] == entries[q]);
                        } else {
                            assert(entries.push(e)[p] == entries[p]);
                            assert(entries[p].id@ != key@);
                        }
                    }
                }
                self.data.push(e);
                if let Some(buf) = &mut self.persistence {
                    let line = serialise_entry(key.to_owned(), value.to_owned());
                    buf.append(line.as_str());
                }
                None
            },
        }
    }

    /// Hands out the pending persistence text and resets the buffer, so the
    /// caller can append it to durable storage. Nothing when persistence is
    /// not attached.
    pub fn take_pending_log(&mut self) -> (r: Option<String>)
        ensures
            final(self).map() == old(self).map(),
            final(self).wf() == old(self).wf(),
            final(self).persistent() == old(self).persistent(),
            final(self).pending() == Seq::<char>::empty(),
            match r {
                Some(text) => old(self).persistent() && text@ == old(self).pending(),
                None => !old(self).persistent(),
            },
    {
        match self.persistence.take() {
            Some(buf) => {
                self.persistence = Some(String::new());
                Some(buf)
            },
            None => None,
        }
    }
}

} // verus!
