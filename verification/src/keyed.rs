use vstd::prelude::*;

verus! {

/// No two of `records` have the same key.
pub open spec fn distinct_keys<R, K>(records: Seq<R>, key: spec_fn(R) -> K) -> bool {
    forall|i: int, j: int|
        0 <= i < j < records.len() ==> #[trigger] key(records[i]) != #[trigger] key(records[j])
}

/// Whether one of `records` has the key `k`.
pub open spec fn has_key<R, K>(records: Seq<R>, key: spec_fn(R) -> K, k: K) -> bool {
    exists|i: int| 0 <= i < records.len() && #[trigger] key(records[i]) == k
}

/// `records` as a map from each record's key to the record.
pub open spec fn by_key<R, K>(records: Seq<R>, key: spec_fn(R) -> K) -> Map<K, R> {
    Map::new(
        |k: K| has_key(records, key, k),
        |k: K| records[choose|i: int| 0 <= i < records.len() && #[trigger] key(records[i]) == k],
    )
}

/// Where keys are distinct, the map holds each record under its key.
pub proof fn lemma_by_key_at<R, K>(records: Seq<R>, key: spec_fn(R) -> K, i: int)
    requires
        distinct_keys(records, key),
        0 <= i < records.len(),
    ensures
        by_key(records, key).contains_key(key(records[i])),
        by_key(records, key)[key(records[i])] == records[i],
{
    let k = key(records[i]);
    let j = choose|j: int| 0 <= j < records.len() && #[trigger] key(records[j]) == k;
    assert(key(records[i]) == k);
    assert(has_key(records, key, k));
    assert(i == j) by {
        if i < j {
            assert(key(records[i]) != key(records[j]));
        } else if j < i {
            assert(key(records[j]) != key(records[i]));
        }
    }
}

/// A record under a key that is not there yet is one more entry of the map.
pub proof fn lemma_by_key_push<R, K>(records: Seq<R>, key: spec_fn(R) -> K, record: R)
    requires
        distinct_keys(records, key),
        !has_key(records, key, key(record)),
    ensures
        distinct_keys(records.push(record), key),
        by_key(records.push(record), key) == by_key(records, key).insert(key(record), record),
{
    let more = records.push(record);
    assert(distinct_keys(more, key)) by {
        assert forall|i: int, j: int| 0 <= i < j < more.len() implies #[trigger] key(more[i])
            != #[trigger] key(more[j]) by {
            if j == records.len() {
                assert(more[i] == records[i]);
                if key(records[i]) == key(record) {
                    assert(has_key(records, key, key(record)));
                }
            } else {
                assert(more[i] == records[i] && more[j] == records[j]);
                assert(key(records[i]) != key(records[j]));
            }
        }
    }
    let last = records.len() as int;
    assert(more[last] == record);
    assert forall|k: K|
        by_key(more, key).contains_key(k) <==> #[trigger] by_key(records, key).insert(
            key(record),
            record,
        ).contains_key(k) by {
        if has_key(more, key, k) {
            let i = choose|i: int| 0 <= i < more.len() && #[trigger] key(more[i]) == k;
            if i < last {
                assert(more[i] == records[i]);
                assert(key(records[i]) == k);
                assert(has_key(records, key, k));
            }
        }
        if has_key(records, key, k) {
            let i = choose|i: int| 0 <= i < records.len() && #[trigger] key(records[i]) == k;
            assert(more[i] == records[i]);
            assert(key(more[i]) == k);
            assert(has_key(more, key, k));
        }
        if k == key(record) {
            assert(key(more[last]) == k);
            assert(has_key(more, key, k));
        }
    }
    assert forall|k: K| by_key(more, key).contains_key(k) implies #[trigger] by_key(more, key)[k]
        == by_key(records, key).insert(key(record), record)[k] by {
        let i = choose|i: int| 0 <= i < more.len() && #[trigger] key(more[i]) == k;
        lemma_by_key_at(more, key, i);
        if i < last {
            assert(more[i] == records[i]);
            lemma_by_key_at(records, key, i);
        }
    }
    assert(by_key(more, key) =~= by_key(records, key).insert(key(record), record));
}

/// A record put in the place of one with the same key replaces that entry
/// of the map.
pub proof fn lemma_by_key_update<R, K>(records: Seq<R>, key: spec_fn(R) -> K, i: int, record: R)
    requires
        distinct_keys(records, key),
        0 <= i < records.len(),
        key(record) == key(records[i]),
    ensures
        distinct_keys(records.update(i, record), key),
        by_key(records.update(i, record), key) == by_key(records, key).insert(key(record), record),
{
    let changed = records.update(i, record);
    assert forall|a: int| 0 <= a < records.len() implies #[trigger] key(changed[a]) == key(
        records[a],
    ) by {}
    assert(distinct_keys(changed, key)) by {
        assert forall|a: int, b: int| 0 <= a < b < changed.len() implies #[trigger] key(changed[a])
            != #[trigger] key(changed[b]) by {
            assert(key(records[a]) != key(records[b]));
        }
    }
    assert forall|k: K|
        by_key(changed, key).contains_key(k) <==> #[trigger] by_key(records, key).insert(
            key(record),
            record,
        ).contains_key(k) by {
        if has_key(changed, key, k) {
            let a = choose|a: int| 0 <= a < changed.len() && #[trigger] key(changed[a]) == k;
            assert(key(records[a]) == k);
            assert(has_key(records, key, k));
        }
        if has_key(records, key, k) {
            let a = choose|a: int| 0 <= a < records.len() && #[trigger] key(records[a]) == k;
            assert(key(changed[a]) == k);
            assert(has_key(changed, key, k));
        }
        if k == key(record) {
            assert(key(changed[i]) == k);
            assert(has_key(changed, key, k));
        }
    }
    assert forall|k: K| by_key(changed, key).contains_key(k) implies #[trigger] by_key(
        changed,
        key,
    )[k] == by_key(records, key).insert(key(record), record)[k] by {
        let a = choose|a: int| 0 <= a < changed.len() && #[trigger] key(changed[a]) == k;
        lemma_by_key_at(changed, key, a);
        if a != i {
            assert(changed[a] == records[a]);
            lemma_by_key_at(records, key, a);
        }
    }
    assert(by_key(changed, key) =~= by_key(records, key).insert(key(record), record));
}

} // verus!
