use vstd::prelude::*;
use crate::garage_id::{parse_garage_id, parsed_id};
use crate::record::{GarageInfo, GarageInfoV, RawInfo, RawInfoV, RawStats, RawStatsV, Snapshot};
use crate::timestamp::{parse_timestamp, parsed_timestamp, Timestamp};

verus! {

/// Why a record makes its whole batch fail: a garage identifier that
/// is not a valid integer signals corrupt upstream data and is fatal,
/// unlike a malformed source time, which only drops the one record.
#[derive(Clone, Copy, PartialEq, Eq, Structural, Debug)]
pub enum TransformError {
    InvalidGarageId,
}

/// The open/closed meaning of a status token: only "geoeffnet" means
/// open; "geschlossen" and every unrecognized token mean closed.
pub open spec fn status_open(s: Seq<char>) -> bool {
    s == "geoeffnet"@
}

/// Whether a status token is one of the two the feed documents.
pub open spec fn status_recognized(s: Seq<char>) -> bool {
    s == "geoeffnet"@ || s == "geschlossen"@
}

/// Decoded status token: the flag persisted with the snapshot, and
/// whether the token was recognized (an unrecognized token still maps
/// to closed, but the caller should emit a diagnostic).
pub struct OpenStatus {
    pub is_open: bool,
    pub recognized: bool,
}

/// Map a status token to the open flag and the recognition flag.
pub fn parse_open_status(s: &String) -> (r: OpenStatus)
    ensures
        r.is_open == status_open(s@),
        r.recognized == status_recognized(s@),
{
    let open_token = "geoeffnet".to_owned();
    let closed_token = "geschlossen".to_owned();
    let is_open = *s == open_token;
    let recognized = is_open || *s == closed_token;
    OpenStatus { is_open, recognized }
}

/// The normalized reference record a raw record denotes, if its
/// identifier parses.
pub open spec fn transformed_info(raw: RawInfoV) -> Option<GarageInfoV> {
    match parsed_id(raw.id) {
        Some(v) => Some(
            GarageInfoV {
                id: v,
                name: raw.name,
                parking_type: raw.parking_type,
                total_capacity: raw.capacity,
                short_capacity: raw.short,
                other_capacity: raw.other,
            },
        ),
        None => None,
    }
}

/// Normalize one reference record: parse the string identifier and
/// carry the remaining fields over unchanged.
pub fn transform_info(raw: &RawInfo) -> (r: Result<GarageInfo, TransformError>)
    ensures
        r matches Ok(g) ==> transformed_info(raw@) == Some(g@),
        r is Err ==> transformed_info(raw@) is None,
        r matches Err(e) ==> e == TransformError::InvalidGarageId,
{
    match parse_garage_id(raw.id.as_str()) {
        Some(id) => Ok(
            GarageInfo {
                id,
                name: raw.name.clone(),
                parking_type: raw.parking_type.clone(),
                total_capacity: raw.capacity,
                short_capacity: raw.short,
                other_capacity: raw.other,
            },
        ),
        None => Err(TransformError::InvalidGarageId),
    }
}

/// The snapshot a raw occupancy record denotes once its source time
/// and identifier have parsed to `t` and `id`.
pub open spec fn transformed_snapshot(raw: RawStatsV, t: Timestamp, id: int) -> Snapshot {
    Snapshot {
        garage_id: id as i32,
        source_time: t,
        opened: status_open(raw.parkeinrichtung),
        current_total_capacity: raw.dyntotal as i16,
        current_short_capacity: raw.dynshort as i16,
        current_other_capacity: raw.dynother as i16,
        current_total_occupied: raw.dtotalo as i16,
        current_short_occupied: raw.dshorto as i16,
        current_other_occupied: raw.dothero as i16,
    }
}

/// Per-record outcome of the occupancy transform: the snapshot if the
/// record was kept (`None` when its source time does not parse and the
/// record is silently dropped), and whether the status token was
/// recognized.
pub struct StatsOutcome {
    pub snapshot: Option<Snapshot>,
    pub recognized: bool,
}

/// Normalize one occupancy record. A source time that does not parse
/// drops the record (the feed sometimes reports an error text there);
/// an identifier that does not parse is fatal — but only when the
/// record was not already dropped for its source time.
pub fn transform_stats(raw: &RawStats) -> (r: Result<StatsOutcome, TransformError>)
    ensures
        r is Err <==> (parsed_timestamp(raw.stand@) is Some && parsed_id(raw.id@) is None),
        r matches Err(e) ==> e == TransformError::InvalidGarageId,
        r matches Ok(o) ==> o.recognized == status_recognized(raw.parkeinrichtung@),
        r matches Ok(o) ==> (o.snapshot is Some <==> parsed_timestamp(raw.stand@) is Some),
        r matches Ok(o) ==> (o.snapshot matches Some(s) ==> parsed_timestamp(raw.stand@)
            matches Some(t) && parsed_id(raw.id@) matches Some(v) && s == transformed_snapshot(
            raw@,
            t,
            v,
        )),
{
    let source_time = parse_timestamp(raw.stand.as_str());
    let status = parse_open_status(&raw.parkeinrichtung);
    match source_time {
        None => Ok(StatsOutcome { snapshot: None, recognized: status.recognized }),
        Some(t) => match parse_garage_id(raw.id.as_str()) {
            None => Err(TransformError::InvalidGarageId),
            Some(id) => Ok(
                StatsOutcome {
                    snapshot: Some(
                        Snapshot {
                            garage_id: id,
                            source_time: t,
                            opened: status.is_open,
                            current_total_capacity: raw.dyntotal,
                            current_short_capacity: raw.dynshort,
                            current_other_capacity: raw.dynother,
                            current_total_occupied: raw.dtotalo,
                            current_short_occupied: raw.dshorto,
                            current_other_occupied: raw.dothero,
                        },
                    ),
                    recognized: status.recognized,
                },
            ),
        },
    }
}

/// Normalize a whole reference batch: all records, or the error of the
/// first record whose identifier does not parse (batch-fatal).
pub fn transform_info_batch(raws: &Vec<RawInfo>) -> (r: Result<Vec<GarageInfo>, TransformError>)
    ensures
        r is Ok <==> (forall|k: int|
            0 <= k < raws@.len() ==> transformed_info(#[trigger] raws@[k]@) is Some),
        r matches Ok(v) ==> v@.len() == raws@.len() && (forall|k: int|
            0 <= k < raws@.len() ==> transformed_info(raws@[k]@) == Some(#[trigger] v@[k]@)),
        r matches Err(e) ==> e == TransformError::InvalidGarageId,
{
    let mut out: Vec<GarageInfo> = Vec::new();
    let mut i: usize = 0;
    while i < raws.len()
        invariant
            i <= raws@.len(),
            out@.len() == i,
            forall|k: int| 0 <= k < i ==> transformed_info(raws@[k]@) == Some(#[trigger] out@[k]@),
            forall|k: int| 0 <= k < i ==> transformed_info(#[trigger] raws@[k]@) is Some,
        decreases raws@.len() - i,
    {
        match transform_info(&raws[i]) {
            Ok(g) => {
                out.push(g);
            },
            Err(e) => {
                proof {
                    assert(transformed_info(raws@[i as int]@) is None);
                }
                return Err(e);
            },
        }
        i = i + 1;
    }
    Ok(out)
}

/// The snapshots kept from an occupancy batch, in feed order: records
/// whose source time does not parse are dropped.
pub open spec fn kept_snapshots(raws: Seq<RawStatsV>) -> Seq<Snapshot>
    decreases raws.len(),
{
    if raws.len() == 0 {
        Seq::empty()
    } else {
        let rest = kept_snapshots(raws.drop_last());
        let raw = raws.last();
        match parsed_timestamp(raw.stand) {
            Some(t) => match parsed_id(raw.id) {
                Some(v) => rest.push(transformed_snapshot(raw, t, v)),
                None => rest,
            },
            None => rest,
        }
    }
}

/// Whether some record of an occupancy batch is fatal: its source time
/// parses but its identifier does not.
pub open spec fn batch_fatal(raws: Seq<RawStatsV>) -> bool {
    exists|k: int|
        0 <= k < raws.len() && parsed_timestamp(#[trigger] raws[k].stand) is Some && parsed_id(
            raws[k].id,
        ) is None
}

/// Normalize a whole occupancy batch: the kept snapshots in feed
/// order, or an error as soon as some record is fatal.
pub fn transform_stats_batch(raws: &Vec<RawStats>) -> (r: Result<Vec<Snapshot>, TransformError>)
    ensures
        r is Err <==> batch_fatal(raws@.map_values(|x: RawStats| x@)),
        r matches Err(e) ==> e == TransformError::InvalidGarageId,
        r matches Ok(v) ==> v@ == kept_snapshots(raws@.map_values(|x: RawStats| x@)),
{
    let ghost rv = raws@.map_values(|x: RawStats| x@);
    let mut out: Vec<Snapshot> = Vec::new();
    let mut i: usize = 0;
    proof {
        assert(rv.take(0) =~= Seq::<RawStatsV>::empty());
    }
    while i < raws.len()
        invariant
            i <= raws@.len(),
            rv == raws@.map_values(|x: RawStats| x@),
            !batch_fatal(rv.take(i as int)),
            out@ == kept_snapshots(rv.take(i as int)),
        decreases raws@.len() - i,
    {
        proof {
            assert(rv.take(i + 1).drop_last() =~= rv.take(i as int));
            assert(rv.take(i + 1).last() == rv[i as int]);
        }
        match transform_stats(&raws[i]) {
            Ok(o) => {
                match o.snapshot {
                    Some(snap) => {
                        out.push(snap);
                    },
                    None => {
                    },
                }
            },
            Err(e) => {
                proof {
                    assert(parsed_timestamp(rv[i as int].stand) is Some && parsed_id(
                        rv[i as int].id,
                    ) is None);
                    assert(batch_fatal(rv));
                }
                return Err(e);
            },
        }
        proof {
            assert forall|k: int| 0 <= k < i + 1 implies !(parsed_timestamp(
                #[trigger] rv.take(i + 1)[k].stand,
            ) is Some && parsed_id(rv.take(i + 1)[k].id) is None) by {
                assert(rv.take(i + 1)[k] == rv.take(i as int + 1)[k]);
                if k < i {
                    assert(rv.take(i + 1)[k] == rv.take(i as int)[k]);
                    assert(!batch_fatal(rv.take(i as int)));
                }
            }
        }
        i = i + 1;
    }
    proof {
        assert(rv.take(i as int) =~= rv);
    }
    Ok(out)
}

} // verus!
