use parking_ingest::record::{GarageInfo, Snapshot};
use parking_ingest::store::{InfoTable, StatsTable};
use parking_ingest::timestamp::Timestamp;

fn garage(id: i32, name: &str, parking_type: &str, total: i16, short: i16, other: i16) -> GarageInfo {
    GarageInfo {
        id,
        name: name.to_string(),
        parking_type: parking_type.to_string(),
        total_capacity: total,
        short_capacity: short,
        other_capacity: other,
    }
}

fn ts(year: i32, month: u32, day: u32, hour: u32, minute: u32, second: u32) -> Timestamp {
    Timestamp { year, month, day, hour, minute, second }
}

fn snapshot(garage_id: i32, source_time: Timestamp, opened: bool, occupied: i16) -> Snapshot {
    Snapshot {
        garage_id,
        source_time,
        opened,
        current_total_capacity: 480,
        current_short_capacity: 48,
        current_other_capacity: 19,
        current_total_occupied: occupied,
        current_short_occupied: 10,
        current_other_occupied: 5,
    }
}

#[test]
fn empty_info_batch_is_a_no_op() {
    let mut table = InfoTable::new();
    table.upsert_info(&Vec::new(), 1);
    assert_eq!(table.row_count(), 0);
}

#[test]
fn empty_stats_batch_is_a_no_op() {
    let mut table = StatsTable::new();
    table.upsert_stats(&Vec::new(), 1);
    assert_eq!(table.row_count(), 0);
}

#[test]
fn info_upsert_inserts_new_rows() {
    let mut table = InfoTable::new();
    let batch = vec![garage(1, "A", "Parkhaus", 100, 10, 5), garage(2, "B", "Tiefgarage", 200, 20, 8)];
    table.upsert_info(&batch, 7);
    assert_eq!(table.row_count(), 2);
    let row = table.get(2).expect("row 2 present");
    assert_eq!(row.record.name, "B");
    assert_eq!(row.updated_time, 7);
}

#[test]
fn info_upsert_twice_is_idempotent_except_updated_time() {
    let mut table = InfoTable::new();
    let batch = vec![garage(1, "A", "Parkhaus", 100, 10, 5), garage(2, "B", "Tiefgarage", 200, 20, 8)];
    table.upsert_info(&batch, 7);
    table.upsert_info(&batch, 9);
    assert_eq!(table.row_count(), 2);
    let row1 = table.get(1).expect("row 1 present");
    assert_eq!(row1.record.name, "A");
    assert_eq!(row1.record.parking_type, "Parkhaus");
    assert_eq!(row1.record.total_capacity, 100);
    assert_eq!(row1.record.short_capacity, 10);
    assert_eq!(row1.record.other_capacity, 5);
    assert_eq!(row1.updated_time, 9);
    let row2 = table.get(2).expect("row 2 present");
    assert_eq!(row2.record.name, "B");
    assert_eq!(row2.updated_time, 9);
}

#[test]
fn info_conflict_merges_all_fields() {
    let mut table = InfoTable::new();
    table.upsert_info(&vec![garage(1, "Old", "Parkhaus", 100, 10, 5)], 1);
    table.upsert_info(&vec![garage(1, "New", "Tiefgarage", 150, 15, 6)], 2);
    assert_eq!(table.row_count(), 1);
    let row = table.get(1).expect("row present");
    assert_eq!(row.record.name, "New");
    assert_eq!(row.record.parking_type, "Tiefgarage");
    assert_eq!(row.record.total_capacity, 150);
    assert_eq!(row.updated_time, 2);
}

#[test]
fn stats_conflict_keeps_first_write() {
    let key_time = ts(2021, 9, 1, 10, 0, 0);
    let mut table = StatsTable::new();
    table.upsert_stats(&vec![snapshot(1, key_time, true, 300)], 1);
    table.upsert_stats(&vec![snapshot(1, key_time, false, 999)], 2);
    assert_eq!(table.row_count(), 1);
    let row = table.get(1, key_time).expect("row present");
    assert!(row.snapshot.opened);
    assert_eq!(row.snapshot.current_total_occupied, 300);
    assert_eq!(row.updated_time, 1);
}

#[test]
fn stats_fully_conflicting_batch_inserts_nothing_without_error() {
    let key_time = ts(2021, 9, 1, 10, 0, 0);
    let mut table = StatsTable::new();
    let batch = vec![snapshot(1, key_time, true, 300), snapshot(2, key_time, true, 100)];
    table.upsert_stats(&batch, 1);
    table.upsert_stats(&batch, 2);
    assert_eq!(table.row_count(), 2);
}

#[test]
fn stats_same_garage_different_source_times_are_distinct_rows() {
    let mut table = StatsTable::new();
    let t1 = ts(2021, 9, 1, 10, 0, 0);
    let t2 = ts(2021, 9, 1, 10, 5, 0);
    table.upsert_stats(&vec![snapshot(1, t1, true, 300), snapshot(1, t2, true, 310)], 1);
    assert_eq!(table.row_count(), 2);
    assert_eq!(table.get(1, t1).expect("first reading").snapshot.current_total_occupied, 300);
    assert_eq!(table.get(1, t2).expect("second reading").snapshot.current_total_occupied, 310);
}

#[test]
fn stats_absent_key_is_reported_absent() {
    let table = StatsTable::new();
    assert!(table.get(1, ts(2021, 9, 1, 10, 0, 0)).is_none());
}
