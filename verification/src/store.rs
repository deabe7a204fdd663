use vstd::prelude::*;
use crate::record::{GarageInfo, GarageInfoV, Snapshot};
use crate::timestamp::Timestamp;

verus! {

/// A reference-table row: a normalized record plus the ingestion time
/// of the write that produced it.
pub struct InfoRow {
    pub record: GarageInfo,
    pub updated_time: i64,
}

/// Mathematical image of a reference-table row.
pub struct InfoRowV {
    pub record: GarageInfoV,
    pub updated_time: int,
}

impl View for InfoRow {
    type V = InfoRowV;

    open spec fn view(&self) -> InfoRowV {
        InfoRowV { record: self.record@, updated_time: self.updated_time as int }
    }
}

/// A snapshot-table row: a snapshot plus the ingestion time. All
/// fields are plain values, so the row is its own mathematical image.
#[derive(Clone, Copy, PartialEq, Eq, Structural, Debug)]
pub struct StatsRow {
    pub snapshot: Snapshot,
    pub updated_time: i64,
}

/// The composite key of a snapshot: garage id and source time.
pub open spec fn snap_key(s: Snapshot) -> (int, Timestamp) {
    (s.garage_id as int, s.source_time)
}

/// No two reference rows share a garage id.
pub open spec fn distinct_info_keys(rows: Seq<InfoRow>) -> bool {
    forall|a: int, b: int|
        0 <= a < b < rows.len() ==> (#[trigger] rows[a]).record.id != (#[trigger] rows[b]).record.id
}

/// No two snapshot rows share a composite key.
pub open spec fn distinct_stats_keys(rows: Seq<StatsRow>) -> bool {
    forall|a: int, b: int|
        0 <= a < b < rows.len() ==> snap_key((#[trigger] rows[a]).snapshot) != snap_key(
            (#[trigger] rows[b]).snapshot,
        )
}

/// The reference table a row sequence denotes: a map from garage id to
/// row.
pub open spec fn info_row_map(rows: Seq<InfoRow>) -> Map<int, InfoRowV>
    decreases rows.len(),
{
    if rows.len() == 0 {
        Map::empty()
    } else {
        info_row_map(rows.drop_last()).insert(rows.last().record.id as int, rows.last()@)
    }
}

/// The snapshot table a row sequence denotes: a map from composite key
/// to row.
pub open spec fn stats_row_map(rows: Seq<StatsRow>) -> Map<(int, Timestamp), StatsRow>
    decreases rows.len(),
{
    if rows.len() == 0 {
        Map::empty()
    } else {
        stats_row_map(rows.drop_last()).insert(snap_key(rows.last().snapshot), rows.last())
    }
}

/// The reference-table contents after a merge-on-conflict bulk write
/// of `recs` at ingestion time `now`: every record lands under its id,
/// replacing any existing row in full ("latest wins").
pub open spec fn info_upserted(m: Map<int, InfoRowV>, recs: Seq<GarageInfoV>, now: int) -> Map<
    int,
    InfoRowV,
>
    decreases recs.len(),
{
    if recs.len() == 0 {
        m
    } else {
        info_upserted(m, recs.drop_last(), now).insert(
            recs.last().id,
            InfoRowV { record: recs.last(), updated_time: now },
        )
    }
}

/// The snapshot-table contents after an insert-or-ignore bulk write:
/// a record lands only if its composite key is absent; existing rows
/// are never altered ("first write wins").
pub open spec fn stats_upserted(
    m: Map<(int, Timestamp), StatsRow>,
    recs: Seq<Snapshot>,
    now: i64,
) -> Map<(int, Timestamp), StatsRow>
    decreases recs.len(),
{
    if recs.len() == 0 {
        m
    } else {
        let prev = stats_upserted(m, recs.drop_last(), now);
        if prev.dom().contains(snap_key(recs.last())) {
            prev
        } else {
            prev.insert(snap_key(recs.last()), StatsRow { snapshot: recs.last(), updated_time: now })
        }
    }
}

proof fn lemma_info_row_map_contains(rows: Seq<InfoRow>, id: int)
    ensures
        info_row_map(rows).dom().contains(id) <==> exists|k: int|
            0 <= k < rows.len() && (#[trigger] rows[k]).record.id as int == id,
    decreases rows.len(),
{
    if rows.len() > 0 {
        lemma_info_row_map_contains(rows.drop_last(), id);
        if rows.last().record.id as int == id {
            assert(rows[rows.len() - 1].record.id as int == id);
        } else {
            if info_row_map(rows).dom().contains(id) {
                let k = choose|k: int|
                    0 <= k < rows.drop_last().len() && (#[trigger] rows.drop_last()[k]).record.id
                        as int == id;
                assert(rows[k].record.id as int == id);
            }
            if exists|k: int| 0 <= k < rows.len() && (#[trigger] rows[k]).record.id as int == id {
                let k = choose|k: int|
                    0 <= k < rows.len() && (#[trigger] rows[k]).record.id as int == id;
                assert(k < rows.len() - 1);
                assert(rows.drop_last()[k].record.id as int == id);
            }
        }
    }
}

proof fn lemma_info_row_map_index(rows: Seq<InfoRow>, j: int)
    requires
        distinct_info_keys(rows),
        0 <= j < rows.len(),
    ensures
        info_row_map(rows).dom().contains(rows[j].record.id as int),
        info_row_map(rows)[rows[j].record.id as int] == rows[j]@,
    decreases rows.len(),
{
    if j < rows.len() - 1 {
        assert forall|a: int, b: int| 0 <= a < b < rows.drop_last().len() implies (#[trigger] rows
            .drop_last()[a]).record.id != (#[trigger] rows.drop_last()[b]).record.id by {
            assert(rows.drop_last()[a] == rows[a]);
            assert(rows.drop_last()[b] == rows[b]);
        }
        assert(rows.drop_last()[j] == rows[j]);
        lemma_info_row_map_index(rows.drop_last(), j);
        assert(rows[j].record.id != rows[rows.len() - 1].record.id);
    }
}

proof fn lemma_info_row_map_update(rows: Seq<InfoRow>, j: int, r: InfoRow)
    requires
        distinct_info_keys(rows),
        0 <= j < rows.len(),
        r.record.id == rows[j].record.id,
    ensures
        info_row_map(rows.update(j, r)) == info_row_map(rows).insert(r.record.id as int, r@),
    decreases rows.len(),
{
    let upd = rows.update(j, r);
    let m = info_row_map(rows.drop_last());
    let last = rows.last();
    if j == rows.len() - 1 {
        assert(upd.drop_last() =~= rows.drop_last());
        assert(upd.last() == r);
        assert(m.insert(last.record.id as int, last@).insert(r.record.id as int, r@) =~= m.insert(
            r.record.id as int,
            r@,
        ));
    } else {
        assert forall|a: int, b: int| 0 <= a < b < rows.drop_last().len() implies (#[trigger] rows
            .drop_last()[a]).record.id != (#[trigger] rows.drop_last()[b]).record.id by {
            assert(rows.drop_last()[a] == rows[a]);
            assert(rows.drop_last()[b] == rows[b]);
        }
        assert(rows.drop_last()[j] == rows[j]);
        lemma_info_row_map_update(rows.drop_last(), j, r);
        assert(upd.drop_last() =~= rows.drop_last().update(j, r));
        assert(upd.last() == last);
        let k1 = r.record.id as int;
        let k2 = last.record.id as int;
        assert(rows[j].record.id != rows[rows.len() - 1].record.id);
        assert(m.insert(k1, r@).insert(k2, last@) =~= m.insert(k2, last@).insert(k1, r@));
    }
}

proof fn lemma_info_row_map_len(rows: Seq<InfoRow>)
    requires
        distinct_info_keys(rows),
    ensures
        info_row_map(rows).dom().finite(),
        info_row_map(rows).dom().len() == rows.len(),
    decreases rows.len(),
{
    if rows.len() > 0 {
        assert forall|a: int, b: int| 0 <= a < b < rows.drop_last().len() implies (#[trigger] rows
            .drop_last()[a]).record.id != (#[trigger] rows.drop_last()[b]).record.id by {
            assert(rows.drop_last()[a] == rows[a]);
            assert(rows.drop_last()[b] == rows[b]);
        }
        lemma_info_row_map_len(rows.drop_last());
        lemma_info_row_map_contains(rows.drop_last(), rows.last().record.id as int);
        if info_row_map(rows.drop_last()).dom().contains(rows.last().record.id as int) {
            let k = choose|k: int|
                0 <= k < rows.drop_last().len() && (#[trigger] rows.drop_last()[k]).record.id
                    as int == rows.last().record.id as int;
            assert(rows[k].record.id == rows[rows.len() - 1].record.id);
            assert(false);
        }
    }
}

proof fn lemma_stats_row_map_contains(rows: Seq<StatsRow>, key: (int, Timestamp))
    ensures
        stats_row_map(rows).dom().contains(key) <==> exists|k: int|
            0 <= k < rows.len() && snap_key((#[trigger] rows[k]).snapshot) == key,
    decreases rows.len(),
{
    if rows.len() > 0 {
        lemma_stats_row_map_contains(rows.drop_last(), key);
        if snap_key(rows.last().snapshot) == key {
            assert(snap_key(rows[rows.len() - 1].snapshot) == key);
        } else {
            if stats_row_map(rows).dom().contains(key) {
                let k = choose|k: int|
                    0 <= k < rows.drop_last().len() && snap_key(
                        (#[trigger] rows.drop_last()[k]).snapshot,
                    ) == key;
                assert(snap_key(rows[k].snapshot) == key);
            }
            if exists|k: int| 0 <= k < rows.len() && snap_key((#[trigger] rows[k]).snapshot)
                == key {
                let k = choose|k: int|
                    0 <= k < rows.len() && snap_key((#[trigger] rows[k]).snapshot) == key;
                assert(k < rows.len() - 1);
                assert(snap_key(rows.drop_last()[k].snapshot) == key);
            }
        }
    }
}

proof fn lemma_stats_row_map_index(rows: Seq<StatsRow>, j: int)
    requires
        distinct_stats_keys(rows),
        0 <= j < rows.len(),
    ensures
        stats_row_map(rows).dom().contains(snap_key(rows[j].snapshot)),
        stats_row_map(rows)[snap_key(rows[j].snapshot)] == rows[j],
    decreases rows.len(),
{
    if j < rows.len() - 1 {
        assert forall|a: int, b: int| 0 <= a < b < rows.drop_last().len() implies snap_key(
            (#[trigger] rows.drop_last()[a]).snapshot,
        ) != snap_key((#[trigger] rows.drop_last()[b]).snapshot) by {
            assert(rows.drop_last()[a] == rows[a]);
            assert(rows.drop_last()[b] == rows[b]);
        }
        assert(rows.drop_last()[j] == rows[j]);
        lemma_stats_row_map_index(rows.drop_last(), j);
        assert(snap_key(rows[j].snapshot) != snap_key(rows[rows.len() - 1].snapshot));
    }
}

proof fn lemma_stats_row_map_len(rows: Seq<StatsRow>)
    requires
        distinct_stats_keys(rows),
    ensures
        stats_row_map(rows).dom().finite(),
        stats_row_map(rows).dom().len() == rows.len(),
    decreases rows.len(),
{
    if rows.len() > 0 {
        assert forall|a: int, b: int| 0 <= a < b < rows.drop_last().len() implies snap_key(
            (#[trigger] rows.drop_last()[a]).snapshot,
        ) != snap_key((#[trigger] rows.drop_last()[b]).snapshot) by {
            assert(rows.drop_last()[a] == rows[a]);
            assert(rows.drop_last()[b] == rows[b]);
        }
        lemma_stats_row_map_len(rows.drop_last());
        lemma_stats_row_map_contains(rows.drop_last(), snap_key(rows.last().snapshot));
        if stats_row_map(rows.drop_last()).dom().contains(snap_key(rows.last().snapshot)) {
            let k = choose|k: int|
                0 <= k < rows.drop_last().len() && snap_key(
                    (#[trigger] rows.drop_last()[k]).snapshot,
                ) == snap_key(rows.last().snapshot);
            assert(snap_key(rows[k].snapshot) == snap_key(rows[rows.len() - 1].snapshot));
            assert(false);
        }
    }
}

/// The in-memory model of the garage reference table, keyed by garage
/// id, with the merge-on-conflict write policy of reference data.
pub struct InfoTable {
    rows: Vec<InfoRow>,
}

impl View for InfoTable {
    type V = Map<int, InfoRowV>;

    closed spec fn view(&self) -> Map<int, InfoRowV> {
        info_row_map(self.rows@)
    }
}

impl InfoTable {
    /// Keys are unique: no two rows share a garage id.
    pub closed spec fn wf(self) -> bool {
        distinct_info_keys(self.rows@)
    }

    /// An empty reference table.
    pub fn new() -> (t: Self)
        ensures
            t.wf(),
            t@ == Map::<int, InfoRowV>::empty(),
    {
        InfoTable { rows: Vec::new() }
    }

    fn find_index(&self, id: i32) -> (r: Option<usize>)
        ensures
            r matches Some(j) ==> j < self.rows@.len() && self.rows@[j as int].record.id == id,
            r is None ==> forall|k: int|
                0 <= k < self.rows@.len() ==> (#[trigger] self.rows@[k]).record.id != id,
    {
        let mut i: usize = 0;
        while i < self.rows.len()
            invariant
                i <= self.rows@.len(),
                forall|k: int| 0 <= k < i ==> (#[trigger] self.rows@[k]).record.id != id,
            decreases self.rows@.len() - i,
        {
            if self.rows[i].record.id == id {
                return Some(i);
            }
            i = i + 1;
        }
        None
    }

    /// The row stored for a garage id, if any.
    pub fn get(&self, id: i32) -> (r: Option<&InfoRow>)
        requires
            self.wf(),
        ensures
            r matches Some(row) ==> self@.dom().contains(id as int) && row@ == self@[id as int],
            r is None ==> !self@.dom().contains(id as int),
    {
        proof {
            lemma_info_row_map_contains(self.rows@, id as int);
        }
        match self.find_index(id) {
            Some(j) => {
                proof {
                    lemma_info_row_map_index(self.rows@, j as int);
                }
                Some(&self.rows[j])
            },
            None => None,
        }
    }

    /// How many garages the table holds.
    pub fn row_count(&self) -> (n: usize)
        requires
            self.wf(),
        ensures
            n == self@.dom().len(),
    {
        proof {
            lemma_info_row_map_len(self.rows@);
        }
        self.rows.len()
    }

    /// Bulk merge-on-conflict write: every record of the batch lands
    /// under its id, replacing the previous row for that garage in
    /// full; every written row carries ingestion time `now`. An empty
    /// batch is a no-op. A batch that names one garage twice is left
    /// out: a single merge-on-conflict statement may touch each key
    /// only once, and the storage layer rejects such a batch.
    pub fn upsert_info(&mut self, records: &Vec<GarageInfo>, now: i64)
        requires
            old(self).wf(),
            forall|a: int, b: int|
                0 <= a < b < records@.len() ==> (#[trigger] records@[a]).id != (
                #[trigger] records@[b]).id,
        ensures
            final(self).wf(),
            final(self)@ == info_upserted(
                old(self)@,
                records@.map_values(|g: GarageInfo| g@),
                now as int,
            ),
    {
        let ghost m0 = self@;
        let ghost rv = records@.map_values(|g: GarageInfo| g@);
        let mut i: usize = 0;
        proof {
            assert(rv.take(0) =~= Seq::<GarageInfoV>::empty());
        }
        while i < records.len()
            invariant
                self.wf(),
                i <= records@.len(),
                rv == records@.map_values(|g: GarageInfo| g@),
                self@ == info_upserted(m0, rv.take(i as int), now as int),
            decreases records@.len() - i,
        {
            let rec_id = records[i].id;
            let row = InfoRow { record: records[i].duplicate(), updated_time: now };
            let ghost rs = self.rows@;
            proof {
                assert(rv.take(i + 1).drop_last() =~= rv.take(i as int));
                assert(rv.take(i + 1).last() == rv[i as int]);
                assert(row@ == (InfoRowV { record: rv[i as int], updated_time: now as int }));
            }
            match self.find_index(rec_id) {
                Some(j) => {
                    proof {
                        lemma_info_row_map_update(rs, j as int, row);
                    }
                    self.rows[j] = row;
                    proof {
                        assert forall|a: int, b: int| 0 <= a < b < self.rows@.len() implies (
                        #[trigger] self.rows@[a]).record.id != (
                        #[trigger] self.rows@[b]).record.id by {
                            assert(self.rows@[a] == rs.update(j as int, row)[a]);
                            assert(self.rows@[b] == rs.update(j as int, row)[b]);
                            assert(rs[a].record.id != rs[b].record.id);
                        }
                    }
                },
                None => {
                    self.rows.push(row);
                    proof {
                        assert(rs.push(row).drop_last() =~= rs);
                        assert(self@ == info_row_map(rs).insert(row.record.id as int, row@));
                        assert forall|a: int, b: int| 0 <= a < b < self.rows@.len() implies (
                        #[trigger] self.rows@[a]).record.id != (
                        #[trigger] self.rows@[b]).record.id by {
                            if b < rs.len() {
                                assert(rs[a].record.id != rs[b].record.id);
                            } else {
                                assert(self.rows@[b] == row);
                                assert(rs[a].record.id != rec_id);
                            }
                        }
                    }
                },
            }
            i = i + 1;
        }
        proof {
            assert(rv.take(records@.len() as int) =~= rv);
        }
    }
}

/// The in-memory model of the occupancy snapshot table, keyed by
/// `(garageId, sourceTime)`, with the append-only insert-or-ignore
/// write policy of time-series data.
pub struct StatsTable {
    rows: Vec<StatsRow>,
}

impl View for StatsTable {
    type V = Map<(int, Timestamp), StatsRow>;

    closed spec fn view(&self) -> Map<(int, Timestamp), StatsRow> {
        stats_row_map(self.rows@)
    }
}

impl StatsTable {
    /// Keys are unique: no two rows share a composite key.
    pub closed spec fn wf(self) -> bool {
        distinct_stats_keys(self.rows@)
    }

    /// An empty snapshot table.
    pub fn new() -> (t: Self)
        ensures
            t.wf(),
            t@ == Map::<(int, Timestamp), StatsRow>::empty(),
    {
        StatsTable { rows: Vec::new() }
    }

    fn find_index(&self, garage_id: i32, t: Timestamp) -> (r: Option<usize>)
        ensures
            r matches Some(j) ==> j < self.rows@.len() && snap_key(
                self.rows@[j as int].snapshot,
            ) == (garage_id as int, t),
            r is None ==> forall|k: int|
                0 <= k < self.rows@.len() ==> snap_key((#[trigger] self.rows@[k]).snapshot) != (
                    garage_id as int,
                    t,
                ),
    {
        let mut i: usize = 0;
        while i < self.rows.len()
            invariant
                i <= self.rows@.len(),
                forall|k: int|
                    0 <= k < i ==> snap_key((#[trigger] self.rows@[k]).snapshot) != (
                        garage_id as int,
                        t,
                    ),
            decreases self.rows@.len() - i,
        {
            if self.rows[i].snapshot.garage_id == garage_id && self.rows[i].snapshot.source_time
                == t {
                return Some(i);
            }
            i = i + 1;
        }
        None
    }

    /// The row stored for a composite key, if any.
    pub fn get(&self, garage_id: i32, t: Timestamp) -> (r: Option<StatsRow>)
        requires
            self.wf(),
        ensures
            r matches Some(row) ==> self@.dom().contains((garage_id as int, t)) && row == self@[(
                garage_id as int,
                t,
            )],
            r is None ==> !self@.dom().contains((garage_id as int, t)),
    {
        proof {
            lemma_stats_row_map_contains(self.rows@, (garage_id as int, t));
        }
        match self.find_index(garage_id, t) {
            Some(j) => {
                proof {
                    lemma_stats_row_map_index(self.rows@, j as int);
                }
                Some(self.rows[j])
            },
            None => None,
        }
    }

    /// How many snapshots the table holds.
    pub fn row_count(&self) -> (n: usize)
        requires
            self.wf(),
        ensures
            n == self@.dom().len(),
    {
        proof {
            lemma_stats_row_map_len(self.rows@);
        }
        self.rows.len()
    }

    /// Bulk insert-or-ignore write: a record of the batch lands only
    /// if its composite key is absent from the table (and from the
    /// batch so far); existing rows are never altered. A batch that
    /// conflicts entirely, or an empty batch, is a no-op, not an
    /// error.
    pub fn upsert_stats(&mut self, records: &Vec<Snapshot>, now: i64)
        requires
            old(self).wf(),
        ensures
            final(self).wf(),
            final(self)@ == stats_upserted(old(self)@, records@, now),
    {
        let ghost m0 = self@;
        let mut i: usize = 0;
        proof {
            assert(records@.take(0) =~= Seq::<Snapshot>::empty());
        }
        while i < records.len()
            invariant
                self.wf(),
                i <= records@.len(),
                self@ == stats_upserted(m0, records@.take(i as int), now),
            decreases records@.len() - i,
        {
            let snap = records[i];
            let ghost rs = self.rows@;
            proof {
                assert(records@.take(i + 1).drop_last() =~= records@.take(i as int));
                assert(records@.take(i + 1).last() == records@[i as int]);
                lemma_stats_row_map_contains(rs, snap_key(snap));
            }
            match self.find_index(snap.garage_id, snap.source_time) {
                Some(_) => {
                    proof {
                        assert(self@.dom().contains(snap_key(snap)));
                    }
                },
                None => {
                    let row = StatsRow { snapshot: snap, updated_time: now };
                    self.rows.push(row);
                    proof {
                        assert(rs.push(row).drop_last() =~= rs);
                        assert(self@ == stats_row_map(rs).insert(snap_key(snap), row));
                        assert forall|a: int, b: int| 0 <= a < b < self.rows@.len() implies
                        snap_key((#[trigger] self.rows@[a]).snapshot) != snap_key(
                            (#[trigger] self.rows@[b]).snapshot,
                        ) by {
                            if b < rs.len() {
                                assert(snap_key(rs[a].snapshot) != snap_key(rs[b].snapshot));
                            } else {
                                assert(self.rows@[b] == row);
                                assert(snap_key(rs[a].snapshot) != snap_key(snap));
                            }
                        }
                    }
                },
            }
            i = i + 1;
        }
        proof {
            assert(records@.take(records@.len() as int) =~= records@);
        }
    }
}

} // verus!
