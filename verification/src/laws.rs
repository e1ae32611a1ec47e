//! Laws of the store protocol, stated over the abstract mapping that the
//! store's contracts speak of, and proved. Writes are totally ordered by
//! the store's exclusive lock, so a batch of concurrent upserts behaves as
//! some sequential order of them; the batch laws here hold of every order.

use crate::upsert::apply_create;
use vstd::prelude::*;

verus! {

/// The previous target an update-only upsert reports: the stored one, if
/// any.
pub open spec fn update_previous(m: Map<Seq<char>, Seq<char>>, id: Seq<char>) -> Option<
    Seq<char>,
> {
    if m.contains_key(id) {
        Some(m[id])
    } else {
        None
    }
}

/// Round trip: a create of an unregistered identifier succeeds, and a
/// lookup of that identifier afterwards yields exactly the created target.
pub proof fn lemma_create_then_lookup(m: Map<Seq<char>, Seq<char>>, id: Seq<char>, t: Seq<char>)
    requires
        !m.contains_key(id),
    ensures
        apply_create(m, id, t).1,
        apply_create(m, id, t).0.contains_key(id),
        apply_create(m, id, t).0[id] == t,
{
}

/// Idempotence of rejection: after a successful create, a second create of
/// the same identifier fails and leaves the stored target untouched.
pub proof fn lemma_repeated_create_rejected(
    m: Map<Seq<char>, Seq<char>>,
    id: Seq<char>,
    t1: Seq<char>,
    t2: Seq<char>,
)
    requires
        !m.contains_key(id),
    ensures
        ({
            let first = apply_create(m, id, t1);
            let second = apply_create(first.0, id, t2);
            first.1 && !second.1 && second.0 == first.0 && second.0[id] == t1
        }),
{
}

/// An update of a missing identifier acts as a create: afterwards the
/// identifier maps to the new target, and no previous value is reported.
pub proof fn lemma_update_missing(m: Map<Seq<char>, Seq<char>>, id: Seq<char>, t: Seq<char>)
    requires
        !m.contains_key(id),
    ensures
        update_previous(m, id) is None,
        m.insert(id, t).contains_key(id),
        m.insert(id, t)[id] == t,
{
}

/// An update of a registered identifier replaces its target, reports
/// exactly the previous one, and touches no other identifier.
pub proof fn lemma_update_existing(m: Map<Seq<char>, Seq<char>>, id: Seq<char>, t: Seq<char>)
    requires
        m.contains_key(id),
    ensures
        update_previous(m, id) == Some(m[id]),
        m.insert(id, t)[id] == t,
        forall|k: Seq<char>|
            k != id && m.contains_key(k) ==> m.insert(id, t).contains_key(k) && m.insert(id, t)[k]
                == m[k],
{
}

/// The mapping after a batch of create-only upserts of valid targets,
/// applied one after another.
pub open spec fn apply_creates(
    m: Map<Seq<char>, Seq<char>>,
    batch: Seq<(Seq<char>, Seq<char>)>,
) -> Map<Seq<char>, Seq<char>>
    decreases batch.len(),
{
    if batch.len() == 0 {
        m
    } else {
        apply_creates(apply_create(m, batch[0].0, batch[0].1).0, batch.drop_first())
    }
}

/// How many creates of a batch succeed.
pub open spec fn successful_creates(
    m: Map<Seq<char>, Seq<char>>,
    batch: Seq<(Seq<char>, Seq<char>)>,
) -> nat
    decreases batch.len(),
{
    if batch.len() == 0 {
        0
    } else {
        (if apply_create(m, batch[0].0, batch[0].1).1 {
            1nat
        } else {
            0nat
        }) + successful_creates(apply_create(m, batch[0].0, batch[0].1).0, batch.drop_first())
    }
}

/// A batch that never names an identifier leaves that identifier's entry
/// exactly as it was.
pub proof fn lemma_creates_frame(
    m: Map<Seq<char>, Seq<char>>,
    batch: Seq<(Seq<char>, Seq<char>)>,
    k: Seq<char>,
)
    requires
        forall|i: int| 0 <= i < batch.len() ==> batch[i].0 != k,
    ensures
        apply_creates(m, batch).contains_key(k) == m.contains_key(k),
        m.contains_key(k) ==> apply_creates(m, batch)[k] == m[k],
    decreases batch.len(),
{
    if batch.len() == 0 {
    } else {
        let m1 = apply_create(m, batch[0].0, batch[0].1).0;
        assert(forall|i: int|
            0 <= i < batch.drop_first().len() ==> batch.drop_first()[i] == batch[i + 1]);
        lemma_creates_frame(m1, batch.drop_first(), k);
    }
}

/// A batch of creates whose identifier is already registered fails wholly:
/// no create succeeds and the mapping is unchanged.
pub proof fn lemma_creates_registered(
    m: Map<Seq<char>, Seq<char>>,
    id: Seq<char>,
    batch: Seq<(Seq<char>, Seq<char>)>,
)
    requires
        m.contains_key(id),
        forall|i: int| 0 <= i < batch.len() ==> batch[i].0 == id,
    ensures
        successful_creates(m, batch) == 0,
        apply_creates(m, batch) == m,
    decreases batch.len(),
{
    if batch.len() == 0 {
    } else {
        assert(forall|i: int|
            0 <= i < batch.drop_first().len() ==> batch.drop_first()[i] == batch[i + 1]);
        lemma_creates_registered(m, id, batch.drop_first());
    }
}

/// Concurrent creates of distinct unregistered identifiers, in whatever
/// order the lock serialises them: every one succeeds, and every mapping
/// is visible afterwards.
pub proof fn lemma_concurrent_distinct_creates(
    m: Map<Seq<char>, Seq<char>>,
    batch: Seq<(Seq<char>, Seq<char>)>,
)
    requires
        forall|i: int, j: int| 0 <= i < j < batch.len() ==> batch[i].0 != batch[j].0,
        forall|i: int| 0 <= i < batch.len() ==> !m.contains_key(batch[i].0),
    ensures
        successful_creates(m, batch) == batch.len(),
        forall|i: int|
            0 <= i < batch.len() ==> apply_creates(m, batch).contains_key(batch[i].0)
                && apply_creates(m, batch)[batch[i].0] == batch[i].1,
    decreases batch.len(),
{
    if batch.len() == 0 {
    } else {
        let first = batch[0];
        let rest = batch.drop_first();
        let m1 = apply_create(m, first.0, first.1).0;
        assert(forall|i: int| 0 <= i < rest.len() ==> rest[i] == batch[i + 1]);
        assert forall|i: int| 0 <= i < rest.len() implies !m1.contains_key(rest[i].0) by {
            assert(batch[i + 1].0 != batch[0].0);
        }
        lemma_concurrent_distinct_creates(m1, rest);
        assert(forall|i: int| 0 <= i < rest.len() ==> rest[i].0 != first.0);
        lemma_creates_frame(m1, rest, first.0);
        assert forall|i: int|
            0 <= i < batch.len() implies apply_creates(m, batch).contains_key(batch[i].0)
            && apply_creates(m, batch)[batch[i].0] == batch[i].1 by {
            if i > 0 {
                assert(rest[i - 1] == batch[i]);
            }
        }
    }
}

/// Concurrent creates of one and the same unregistered identifier, in
/// whatever order the lock serialises them: exactly the first to run
/// succeeds, the others are rejected, and the identifier maps to the
/// winner's target.
pub proof fn lemma_concurrent_same_id_creates(
    m: Map<Seq<char>, Seq<char>>,
    id: Seq<char>,
    batch: Seq<(Seq<char>, Seq<char>)>,
)
    requires
        batch.len() >= 1,
        forall|i: int| 0 <= i < batch.len() ==> batch[i].0 == id,
        !m.contains_key(id),
    ensures
        successful_creates(m, batch) == 1,
        apply_creates(m, batch).contains_key(id),
        apply_creates(m, batch)[id] == batch[0].1,
{
    let m1 = apply_create(m, batch[0].0, batch[0].1).0;
    assert(forall|i: int|
        0 <= i < batch.drop_first().len() ==> batch.drop_first()[i] == batch[i + 1]);
    lemma_creates_registered(m1, id, batch.drop_first());
}

} // verus!
