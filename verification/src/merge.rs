//! What merging guarantees: the aggregate behaves as a map from sensor
//! identifiers to their latest readings.

use vstd::prelude::*;
use crate::domain::{distinct_ids, has_id, is_first, lemma_first_is_unique, lemma_position, merged, position, upsert, ReadingView};

verus! {

/// The entry that `s` holds for the identifier `id`, if any.
pub open spec fn entry(s: Seq<ReadingView>, id: Seq<char>) -> Option<ReadingView> {
    match position(s, id) {
        Some(i) => Some(s[i]),
        None => None,
    }
}

/// How many entries of `s` carry the identifier `id`.
pub open spec fn occurrences(s: Seq<ReadingView>, id: Seq<char>) -> nat
    decreases s.len(),
{
    if s.len() == 0 {
        0
    } else {
        occurrences(s.drop_last(), id) + if s.last().sensor_id == id {
            1nat
        } else {
            0nat
        }
    }
}

/// The last reading of `batch` that carries `id`, if any.
pub open spec fn last_of(batch: Seq<ReadingView>, id: Seq<char>) -> Option<ReadingView>
    decreases batch.len(),
{
    if batch.len() == 0 {
        None
    } else if batch.last().sensor_id == id {
        Some(batch.last())
    } else {
        last_of(batch.drop_last(), id)
    }
}

/// A first place is the position.
pub proof fn lemma_position_at(s: Seq<ReadingView>, id: Seq<char>, i: int)
    requires
        is_first(s, id, i),
    ensures
        position(s, id) == Some(i),
        entry(s, id) == Some(s[i]),
{
    lemma_position(s, id);
    lemma_first_is_unique(s, id, i, position(s, id).unwrap());
}

/// Where no place carries the identifier there is no position.
pub proof fn lemma_position_absent(s: Seq<ReadingView>, id: Seq<char>)
    requires
        forall|j: int| 0 <= j < s.len() ==> #[trigger] s[j].sensor_id != id,
    ensures
        position(s, id) is None,
        entry(s, id) is None,
{
    lemma_position(s, id);
}

/// Two sequences that carry the same identifiers at the same places have
/// the same positions.
proof fn lemma_position_by_ids(s: Seq<ReadingView>, t: Seq<ReadingView>, id: Seq<char>)
    requires
        s.len() == t.len(),
        forall|j: int| 0 <= j < s.len() ==> #[trigger] s[j].sensor_id == t[j].sensor_id,
    ensures
        position(s, id) == position(t, id),
{
    lemma_position(s, id);
    lemma_position(t, id);
    match position(s, id) {
        Some(i) => {
            assert(t[i].sensor_id == s[i].sensor_id);
            assert forall|j: int| 0 <= j < i implies #[trigger] t[j].sensor_id != id by {
                assert(s[j].sensor_id == t[j].sensor_id);
            }
            lemma_position_at(t, id, i);
        },
        None => {
            if position(t, id) is Some {
                let i = position(t, id).unwrap();
                assert(s[i].sensor_id == t[i].sensor_id);
                assert(has_id(s, id));
            }
        },
    }
}

/// After a reading was merged the aggregate holds it under its identifier,
/// and holds under every other identifier what it held before.
pub proof fn lemma_upsert_entry(s: Seq<ReadingView>, r: ReadingView, id: Seq<char>)
    ensures
        entry(upsert(s, r), id) == if id == r.sensor_id {
            Some(r)
        } else {
            entry(s, id)
        },
{
    let t = upsert(s, r);
    lemma_position(s, r.sensor_id);
    lemma_position(s, id);
    match position(s, r.sensor_id) {
        Some(i) => {
            assert(t == s.update(i, r));
            assert forall|j: int| 0 <= j < s.len() implies #[trigger] s[j].sensor_id
                == t[j].sensor_id by {}
            lemma_position_by_ids(s, t, id);
            if id != r.sensor_id {
                if position(s, id) is Some {
                    let k = position(s, id).unwrap();
                    assert(k != i);
                }
            }
        },
        None => {
            assert(t == s.push(r));
            if id == r.sensor_id {
                assert forall|j: int| 0 <= j < s.len() implies #[trigger] t[j].sensor_id != id by {
                    assert(t[j] == s[j]);
                    if s[j].sensor_id == id {
                        assert(has_id(s, id));
                    }
                }
                assert(is_first(t, id, s.len() as int));
                lemma_position_at(t, id, s.len() as int);
            } else {
                match position(s, id) {
                    Some(k) => {
                        assert(t[k] == s[k]);
                        assert forall|j: int| 0 <= j < k implies #[trigger] t[j].sensor_id
                            != id by {
                            assert(t[j] == s[j]);
                        }
                        lemma_position_at(t, id, k);
                    },
                    None => {
                        assert forall|j: int| 0 <= j < t.len() implies #[trigger] t[j].sensor_id
                            != id by {
                            if j < s.len() {
                                assert(t[j] == s[j]);
                                if s[j].sensor_id == id {
                                    assert(has_id(s, id));
                                }
                            }
                        }
                        lemma_position_absent(t, id);
                    },
                }
            }
        },
    }
}

/// Merging a reading keeps every sensor at one entry at most.
pub proof fn lemma_upsert_keeps_distinct(s: Seq<ReadingView>, r: ReadingView)
    requires
        distinct_ids(s),
    ensures
        distinct_ids(upsert(s, r)),
{
    let t = upsert(s, r);
    lemma_position(s, r.sensor_id);
    match position(s, r.sensor_id) {
        Some(i) => {
            assert forall|a: int, b: int| 0 <= a < b < t.len() implies #[trigger] t[a].sensor_id
                != #[trigger] t[b].sensor_id by {
                assert(t[a].sensor_id == s[a].sensor_id);
                assert(t[b].sensor_id == s[b].sensor_id);
            }
        },
        None => {
            assert forall|a: int, b: int| 0 <= a < b < t.len() implies #[trigger] t[a].sensor_id
                != #[trigger] t[b].sensor_id by {
                assert(t[a] == s[a]);
                if b < s.len() {
                    assert(t[b] == s[b]);
                } else {
                    if s[a].sensor_id == r.sensor_id {
                        assert(has_id(s, r.sensor_id));
                    }
                }
            }
        },
    }
}

/// Merging a batch keeps every sensor at one entry at most.
pub proof fn lemma_merged_keeps_distinct(s: Seq<ReadingView>, batch: Seq<ReadingView>)
    requires
        distinct_ids(s),
    ensures
        distinct_ids(merged(s, batch)),
    decreases batch.len(),
{
    if batch.len() > 0 {
        lemma_upsert_keeps_distinct(s, batch.first());
        lemma_merged_keeps_distinct(upsert(s, batch.first()), batch.drop_first());
    }
}

/// Merging a batch is merging all but its last reading, and then the last.
pub proof fn lemma_merged_last(s: Seq<ReadingView>, batch: Seq<ReadingView>)
    requires
        batch.len() > 0,
    ensures
        merged(s, batch) == upsert(merged(s, batch.drop_last()), batch.last()),
    decreases batch.len(),
{
    let first = batch.first();
    let rest = batch.drop_first();
    let front = batch.drop_last();
    assert(merged(s, batch) == merged(upsert(s, first), rest));
    if batch.len() == 1 {
        assert(rest.len() == 0);
        assert(front.len() == 0);
        assert(first == batch.last());
        assert(merged(upsert(s, first), rest) == upsert(s, first));
        assert(merged(s, front) == s);
    } else {
        lemma_merged_last(upsert(s, first), rest);
        assert(rest.last() == batch.last());
        assert(front.first() == first);
        assert(front.drop_first() =~= rest.drop_last());
        assert(merged(s, front) == merged(upsert(s, front.first()), front.drop_first()));
    }
}

/// After a batch was merged the aggregate holds, under each identifier, the
/// last reading of the batch that carries it, and what it held before where
/// the batch has none.
pub proof fn lemma_merged_entry(s: Seq<ReadingView>, batch: Seq<ReadingView>, id: Seq<char>)
    ensures
        entry(merged(s, batch), id) == match last_of(batch, id) {
            Some(r) => Some(r),
            None => entry(s, id),
        },
    decreases batch.len(),
{
    if batch.len() > 0 {
        lemma_merged_last(s, batch);
        lemma_merged_entry(s, batch.drop_last(), id);
        lemma_upsert_entry(merged(s, batch.drop_last()), batch.last(), id);
    }
}

/// Where no identifier occurs twice, an identifier occurs once if it has an
/// entry and not at all if it has none.
pub proof fn lemma_occurrences(s: Seq<ReadingView>, id: Seq<char>)
    requires
        distinct_ids(s),
    ensures
        occurrences(s, id) == if entry(s, id) is Some {
            1nat
        } else {
            0nat
        },
    decreases s.len(),
{
    lemma_position(s, id);
    if s.len() > 0 {
        let front = s.drop_last();
        assert forall|i: int, j: int| 0 <= i < j < front.len() implies #[trigger] front[i].sensor_id
            != #[trigger] front[j].sensor_id by {
            assert(front[i] == s[i]);
            assert(front[j] == s[j]);
        }
        lemma_occurrences(front, id);
        lemma_position(front, id);
        if s.last().sensor_id == id {
            if has_id(front, id) {
                let k = choose|k: int| 0 <= k < front.len() && #[trigger] front[k].sensor_id == id;
                assert(front[k] == s[k]);
                assert(s[k].sensor_id != s[s.len() - 1].sensor_id);
            }
            assert(has_id(s, id)) by {
                assert(s[s.len() - 1].sensor_id == id);
            }
        } else {
            if has_id(front, id) {
                let k = choose|k: int| 0 <= k < front.len() && #[trigger] front[k].sensor_id == id;
                assert(front[k] == s[k]);
                assert(s[k].sensor_id == id);
            }
            if has_id(s, id) {
                let k = choose|k: int| 0 <= k < s.len() && #[trigger] s[k].sensor_id == id;
                assert(k < front.len());
                assert(front[k] == s[k]);
                assert(front[k].sensor_id == id);
            }
        }
    }
}

/// Last write wins: when two readings of one sensor are merged one after the
/// other, the aggregate holds exactly one entry for that sensor, and it is
/// the second reading.
pub proof fn lemma_last_write_wins(s: Seq<ReadingView>, a: ReadingView, b: ReadingView)
    requires
        distinct_ids(s),
        a.sensor_id == b.sensor_id,
    ensures
        occurrences(upsert(upsert(s, a), b), b.sensor_id) == 1,
        entry(upsert(upsert(s, a), b), b.sensor_id) == Some(b),
        distinct_ids(upsert(upsert(s, a), b)),
{
    let t = upsert(s, a);
    lemma_upsert_keeps_distinct(s, a);
    lemma_upsert_keeps_distinct(t, b);
    lemma_upsert_entry(t, b, b.sensor_id);
    lemma_occurrences(upsert(t, b), b.sensor_id);
}

/// Merging the same reading twice is merging it once.
pub proof fn lemma_upsert_idempotent(s: Seq<ReadingView>, r: ReadingView)
    ensures
        upsert(upsert(s, r), r) == upsert(s, r),
{
    let t = upsert(s, r);
    lemma_position(s, r.sensor_id);
    lemma_upsert_entry(s, r, r.sensor_id);
    lemma_position(t, r.sensor_id);
    let i = position(t, r.sensor_id).unwrap();
    assert(t[i] == r);
    assert(t.update(i, r) =~= t);
}

/// Readings of different sensors may be merged in either order: the
/// aggregate holds the same entry under every identifier.
pub proof fn lemma_upsert_commutes(
    s: Seq<ReadingView>,
    a: ReadingView,
    b: ReadingView,
    id: Seq<char>,
)
    requires
        a.sensor_id != b.sensor_id,
    ensures
        entry(upsert(upsert(s, a), b), id) == entry(upsert(upsert(s, b), a), id),
{
    lemma_upsert_entry(s, a, id);
    lemma_upsert_entry(upsert(s, a), b, id);
    lemma_upsert_entry(s, b, id);
    lemma_upsert_entry(upsert(s, b), a, id);
}

/// After any batch was merged into an aggregate that holds no sensor twice,
/// every sensor of the batch has exactly one entry: its last reading in the
/// batch.
pub proof fn lemma_merge_holds_latest(s: Seq<ReadingView>, batch: Seq<ReadingView>, k: int)
    requires
        distinct_ids(s),
        0 <= k < batch.len(),
    ensures
        distinct_ids(merged(s, batch)),
        occurrences(merged(s, batch), batch[k].sensor_id) == 1,
        entry(merged(s, batch), batch[k].sensor_id) == last_of(batch, batch[k].sensor_id),
        last_of(batch, batch[k].sensor_id) is Some,
{
    let id = batch[k].sensor_id;
    lemma_merged_keeps_distinct(s, batch);
    lemma_merged_entry(s, batch, id);
    lemma_last_of_present(batch, k);
    lemma_occurrences(merged(s, batch), id);
}

/// A batch has a last reading for every identifier that occurs in it.
pub proof fn lemma_last_of_present(batch: Seq<ReadingView>, k: int)
    requires
        0 <= k < batch.len(),
    ensures
        last_of(batch, batch[k].sensor_id) is Some,
    decreases batch.len(),
{
    if batch.last().sensor_id != batch[k].sensor_id {
        assert(k < batch.len() - 1);
        assert(batch.drop_last()[k] == batch[k]);
        lemma_last_of_present(batch.drop_last(), k);
    }
}

} // verus!
