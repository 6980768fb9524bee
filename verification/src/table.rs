//! Records kept in a sequence, read as a map from key to record.

use vstd::prelude::*;

verus! {

/// A record that is found by a key.
pub trait Record {
    type Key;

    type Model;

    /// The key under which the record is kept.
    spec fn key(&self) -> Self::Key;

    /// What the record holds.
    spec fn model(&self) -> Self::Model;
}

/// No two records of `records` share a key.
pub open spec fn distinct_keys<T: Record>(records: Seq<T>) -> bool {
    forall|i: int, j: int|
        0 <= i < j < records.len() ==> (#[trigger] records[i]).key() != (
        #[trigger] records[j]).key()
}

/// Some record of `records` is kept under `key`.
pub open spec fn holds<T: Record>(records: Seq<T>, key: T::Key) -> bool {
    exists|i: int| 0 <= i < records.len() && (#[trigger] records[i]).key() == key
}

/// Where the record under `key` stands.
pub open spec fn position<T: Record>(records: Seq<T>, key: T::Key) -> int {
    choose|i: int| 0 <= i < records.len() && (#[trigger] records[i]).key() == key
}

/// The map that `records` stands for.
pub open spec fn table<T: Record>(records: Seq<T>) -> Map<T::Key, T::Model> {
    Map::new(
        |key: T::Key| holds(records, key),
        |key: T::Key| records[position(records, key)].model(),
    )
}

/// With distinct keys, the record at `i` is the one that the map has under its
/// key.
pub proof fn lemma_table_at<T: Record>(records: Seq<T>, i: int)
    requires
        distinct_keys(records),
        0 <= i < records.len(),
    ensures
        table(records).dom().contains(records[i].key()),
        table(records)[records[i].key()] == records[i].model(),
{
    let key = records[i].key();
    assert(holds(records, key));
    let at = position(records, key);
    assert(at == i) by {
        if at < i {
            assert(records[at].key() != records[i].key());
        } else if i < at {
            assert(records[i].key() != records[at].key());
        }
    }
}

/// A record under a new key extends the map by one entry.
pub proof fn lemma_table_push<T: Record>(records: Seq<T>, record: T)
    requires
        distinct_keys(records),
        !holds(records, record.key()),
    ensures
        distinct_keys(records.push(record)),
        table(records.push(record)) =~= table(records).insert(record.key(), record.model()),
{
    let longer = records.push(record);
    assert forall|i: int, j: int| 0 <= i < j < longer.len() implies (#[trigger] longer[i]).key() != (
    #[trigger] longer[j]).key() by {
        if j < records.len() {
            assert(records[i].key() != records[j].key());
        } else {
            assert(longer[i] == records[i]);
        }
    }
    assert forall|key: T::Key| holds(longer, key) <==> (holds(records, key) || key
        == record.key()) by {
        if holds(records, key) {
            let i = position(records, key);
            assert(longer[i].key() == key);
        }
        if key == record.key() {
            assert(longer[records.len() as int].key() == key);
        }
        if holds(longer, key) {
            let i = position(longer, key);
            if i < records.len() {
                assert(records[i].key() == key);
            }
        }
    }
    assert forall|key: T::Key| holds(longer, key) implies #[trigger] table(longer)[key] == table(
        records,
    ).insert(record.key(), record.model())[key] by {
        let i = position(longer, key);
        lemma_table_at(longer, i);
        if i < records.len() {
            assert(longer[i] == records[i]);
            lemma_table_at(records, i);
        }
    }
}

/// A record that takes the place of one with the same key replaces one entry
/// of the map.
pub proof fn lemma_table_update<T: Record>(records: Seq<T>, i: int, record: T)
    requires
        distinct_keys(records),
        0 <= i < records.len(),
        record.key() == records[i].key(),
    ensures
        distinct_keys(records.update(i, record)),
        table(records.update(i, record)) =~= table(records).insert(record.key(), record.model()),
{
    let changed = records.update(i, record);
    assert forall|a: int, b: int| 0 <= a < b < changed.len() implies (#[trigger] changed[a]).key()
        != (#[trigger] changed[b]).key() by {
        assert(changed[a].key() == records[a].key());
        assert(changed[b].key() == records[b].key());
        assert(records[a].key() != records[b].key());
    }
    assert forall|key: T::Key| holds(changed, key) <==> holds(records, key) by {
        if holds(records, key) {
            let a = position(records, key);
            assert(changed[a].key() == key);
        }
        if holds(changed, key) {
            let a = position(changed, key);
            assert(records[a].key() == key);
        }
    }
    assert(holds(records, record.key()));
    assert forall|key: T::Key| holds(changed, key) implies #[trigger] table(changed)[key] == table(
        records,
    ).insert(record.key(), record.model())[key] by {
        let a = position(changed, key);
        lemma_table_at(changed, a);
        if a != i {
            assert(changed[a] == records[a]);
            lemma_table_at(records, a);
        }
    }
}

/// With distinct keys, the map has as many entries as there are records.
pub proof fn lemma_table_len<T: Record>(records: Seq<T>)
    requires
        distinct_keys(records),
    ensures
        table(records).dom().finite(),
        table(records).dom().len() == records.len(),
    decreases records.len(),
{
    if records.len() == 0 {
        assert(table(records).dom() =~= Set::<T::Key>::empty());
    } else {
        let shorter = records.drop_last();
        let last = records.last();
        assert(distinct_keys(shorter)) by {
            assert forall|i: int, j: int| 0 <= i < j < shorter.len() implies (
            #[trigger] shorter[i]).key() != (#[trigger] shorter[j]).key() by {
                assert(records[i].key() != records[j].key());
            }
        }
        assert(!holds(shorter, last.key())) by {
            if holds(shorter, last.key()) {
                let i = position(shorter, last.key());
                assert(records[i].key() != records[records.len() - 1].key());
            }
        }
        lemma_table_len(shorter);
        lemma_table_push(shorter, last);
        assert(shorter.push(last) =~= records);
        assert(table(records).dom() =~= table(shorter).dom().insert(last.key()));
    }
}

} // verus!
