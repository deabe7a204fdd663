use parking_ingest::record::{RawInfo, RawStats};
use parking_ingest::store::{InfoTable, StatsTable};
use parking_ingest::timestamp::Timestamp;
use parking_ingest::transform::{transform_info_batch, transform_stats_batch};

#[test]
fn one_garage_then_one_snapshot() {
    let raw_info = RawInfo {
        id: "42".to_string(),
        name: "Hauptbahnhof".to_string(),
        parking_type: "Parkhaus".to_string(),
        capacity: 500,
        short: 50,
        other: 20,
    };
    let mut info_table = InfoTable::new();
    let info_batch = transform_info_batch(&vec![raw_info]).expect("valid reference record");
    info_table.upsert_info(&info_batch, 100);
    assert_eq!(info_table.row_count(), 1);
    let garage = info_table.get(42).expect("garage 42 seeded");
    assert_eq!(garage.record.name, "Hauptbahnhof");
    assert_eq!(garage.record.parking_type, "Parkhaus");
    assert_eq!(garage.record.total_capacity, 500);
    assert_eq!(garage.record.short_capacity, 50);
    assert_eq!(garage.record.other_capacity, 20);

    let raw_stats = RawStats {
        id: "42".to_string(),
        stand: "2021-09-01 10:00:00".to_string(),
        parkeinrichtung: "geoeffnet".to_string(),
        dyntotal: 480,
        dynshort: 48,
        dynother: 19,
        dtotalo: 300,
        dshorto: 10,
        dothero: 5,
        frei: 180,
    };
    let mut stats_table = StatsTable::new();
    let stats_batch = transform_stats_batch(&vec![raw_stats]).expect("valid snapshot record");
    stats_table.upsert_stats(&stats_batch, 101);
    assert_eq!(stats_table.row_count(), 1);

    let key_time = Timestamp { year: 2021, month: 9, day: 1, hour: 10, minute: 0, second: 0 };
    let row = stats_table.get(42, key_time).expect("snapshot present");
    assert_eq!(row.snapshot.garage_id, 42);
    assert!(row.snapshot.opened);
    assert_eq!(row.snapshot.current_total_capacity, 480);
    assert_eq!(row.snapshot.current_short_capacity, 48);
    assert_eq!(row.snapshot.current_other_capacity, 19);
    assert_eq!(row.snapshot.current_total_occupied, 300);
    assert_eq!(row.snapshot.current_short_occupied, 10);
    assert_eq!(row.snapshot.current_other_occupied, 5);
}
