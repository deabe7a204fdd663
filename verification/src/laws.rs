use vstd::prelude::*;
use crate::record::{GarageInfoV, Snapshot};
use crate::store::{info_upserted, stats_upserted, InfoRowV, StatsRow};
use crate::timestamp::Timestamp;

verus! {

/// The garage ids a reference batch writes.
pub open spec fn info_ids(recs: Seq<GarageInfoV>) -> Set<int>
    decreases recs.len(),
{
    if recs.len() == 0 {
        Set::empty()
    } else {
        info_ids(recs.drop_last()).insert(recs.last().id)
    }
}

/// Applying a merge-on-conflict upsert to a map that differs from `m`
/// only by one extra binding gives the upserted map with the same
/// extra binding — or exactly the upserted map, if the batch itself
/// overwrites that key.
proof fn lemma_info_upserted_insert(
    m: Map<int, InfoRowV>,
    key: int,
    val: InfoRowV,
    recs: Seq<GarageInfoV>,
    now: int,
)
    ensures
        info_ids(recs).contains(key) ==> info_upserted(m.insert(key, val), recs, now)
            == info_upserted(m, recs, now),
        !info_ids(recs).contains(key) ==> info_upserted(m.insert(key, val), recs, now)
            == info_upserted(m, recs, now).insert(key, val),
    decreases recs.len(),
{
    if recs.len() == 0 {
        assert(!info_ids(recs).contains(key));
    } else {
        lemma_info_upserted_insert(m, key, val, recs.drop_last(), now);
        let x = recs.last();
        let row = InfoRowV { record: x, updated_time: now };
        let base = info_upserted(m, recs.drop_last(), now);
        if info_ids(recs).contains(key) {
            if !info_ids(recs.drop_last()).contains(key) {
                assert(key == x.id);
                assert(base.insert(key, val).insert(x.id, row) =~= base.insert(x.id, row));
            }
        } else {
            assert(!info_ids(recs.drop_last()).contains(key));
            assert(key != x.id);
            assert(base.insert(key, val).insert(x.id, row) =~= base.insert(x.id, row).insert(
                key,
                val,
            ));
        }
    }
}

/// Idempotence of the reference upsert: writing the same batch twice,
/// at times `t1` and then `t2`, leaves exactly the table that a single
/// write at `t2` leaves — the same rows with the same fields, every
/// written row carrying the most recent updated time.
pub proof fn lemma_upsert_info_idempotent(
    m: Map<int, InfoRowV>,
    recs: Seq<GarageInfoV>,
    t1: int,
    t2: int,
)
    ensures
        info_upserted(info_upserted(m, recs, t1), recs, t2) == info_upserted(m, recs, t2),
    decreases recs.len(),
{
    if recs.len() > 0 {
        let x = recs.last();
        let init = recs.drop_last();
        let row1 = InfoRowV { record: x, updated_time: t1 };
        let row2 = InfoRowV { record: x, updated_time: t2 };
        lemma_upsert_info_idempotent(m, init, t1, t2);
        lemma_info_upserted_insert(info_upserted(m, init, t1), x.id, row1, init, t2);
        if info_ids(init).contains(x.id) {
            assert(info_upserted(info_upserted(m, recs, t1), init, t2) == info_upserted(
                info_upserted(m, init, t1),
                init,
                t2,
            ));
        } else {
            assert(info_upserted(info_upserted(m, recs, t1), init, t2) == info_upserted(
                m,
                init,
                t2,
            ).insert(x.id, row1));
            assert(info_upserted(m, init, t2).insert(x.id, row1).insert(x.id, row2)
                =~= info_upserted(m, init, t2).insert(x.id, row2));
        }
    }
}

/// An insert-or-ignore upsert never alters an existing row: whatever
/// the batch holds, every key already present keeps exactly the row it
/// had — the first write wins for all time.
pub proof fn lemma_upsert_stats_preserves_existing(
    m: Map<(int, Timestamp), StatsRow>,
    recs: Seq<Snapshot>,
    now: i64,
)
    ensures
        forall|k: (int, Timestamp)| #[trigger]
            m.dom().contains(k) ==> stats_upserted(m, recs, now).dom().contains(k)
                && stats_upserted(m, recs, now)[k] == m[k],
    decreases recs.len(),
{
    if recs.len() > 0 {
        lemma_upsert_stats_preserves_existing(m, recs.drop_last(), now);
    }
}

/// Conflict preservation across two bulk writes: every row present
/// after the first write — in particular one whose key the second
/// batch repeats with different occupancy values — is still intact,
/// unchanged, after the second write.
pub proof fn lemma_upsert_stats_conflict_preserved(
    m: Map<(int, Timestamp), StatsRow>,
    recs1: Seq<Snapshot>,
    recs2: Seq<Snapshot>,
    t1: i64,
    t2: i64,
)
    ensures
        forall|k: (int, Timestamp)| #[trigger]
            stats_upserted(m, recs1, t1).dom().contains(k) ==> stats_upserted(
                stats_upserted(m, recs1, t1),
                recs2,
                t2,
            ).dom().contains(k) && stats_upserted(stats_upserted(m, recs1, t1), recs2, t2)[k]
                == stats_upserted(m, recs1, t1)[k],
{
    lemma_upsert_stats_preserves_existing(stats_upserted(m, recs1, t1), recs2, t2);
}

/// An empty reference batch is a no-op.
pub proof fn lemma_upsert_info_empty(m: Map<int, InfoRowV>, now: int)
    ensures
        info_upserted(m, Seq::<GarageInfoV>::empty(), now) == m,
{
}

/// An empty snapshot batch is a no-op.
pub proof fn lemma_upsert_stats_empty(m: Map<(int, Timestamp), StatsRow>, now: i64)
    ensures
        stats_upserted(m, Seq::<Snapshot>::empty(), now) == m,
{
}

} // verus!
