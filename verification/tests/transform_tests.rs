use parking_ingest::garage_id::parse_garage_id;
use parking_ingest::record::{RawInfo, RawStats};
use parking_ingest::timestamp::Timestamp;
use parking_ingest::transform::{
    transform_info, transform_info_batch, transform_stats, transform_stats_batch, parse_open_status,
    TransformError,
};

fn raw_info(id: &str, name: &str, parking_type: &str, capacity: i16, short: i16, other: i16) -> RawInfo {
    RawInfo {
        id: id.to_string(),
        name: name.to_string(),
        parking_type: parking_type.to_string(),
        capacity,
        short,
        other,
    }
}

fn raw_stats(id: &str, stand: &str, status: &str) -> RawStats {
    RawStats {
        id: id.to_string(),
        stand: stand.to_string(),
        parkeinrichtung: status.to_string(),
        dyntotal: 480,
        dynshort: 48,
        dynother: 19,
        dtotalo: 300,
        dshorto: 10,
        dothero: 5,
        frei: 180,
    }
}

#[test]
fn garage_id_parses_plain_digits() {
    assert_eq!(parse_garage_id("42"), Some(42));
    assert_eq!(parse_garage_id("0"), Some(0));
    assert_eq!(parse_garage_id("007"), Some(7));
}

#[test]
fn garage_id_parses_signs() {
    assert_eq!(parse_garage_id("-17"), Some(-17));
    assert_eq!(parse_garage_id("+5"), Some(5));
}

#[test]
fn garage_id_rejects_non_numbers() {
    assert_eq!(parse_garage_id(""), None);
    assert_eq!(parse_garage_id("-"), None);
    assert_eq!(parse_garage_id("+"), None);
    assert_eq!(parse_garage_id("abc"), None);
    assert_eq!(parse_garage_id("12a"), None);
    assert_eq!(parse_garage_id(" 42"), None);
}

#[test]
fn garage_id_respects_i32_range() {
    assert_eq!(parse_garage_id("2147483647"), Some(i32::MAX));
    assert_eq!(parse_garage_id("2147483648"), None);
    assert_eq!(parse_garage_id("-2147483648"), Some(i32::MIN));
    assert_eq!(parse_garage_id("-2147483649"), None);
    assert_eq!(parse_garage_id("99999999999999999999"), None);
}

#[test]
fn timestamp_parses_to_calendar_fields() {
    let raw = raw_stats("42", "2021-09-01 10:00:00", "geoeffnet");
    let outcome = transform_stats(&raw).expect("batch must not fail");
    let snap = outcome.snapshot.expect("record must be kept");
    assert_eq!(
        snap.source_time,
        Timestamp { year: 2021, month: 9, day: 1, hour: 10, minute: 0, second: 0 }
    );
}

#[test]
fn malformed_timestamp_drops_record_without_failing() {
    let raw = raw_stats("42", "störung", "geoeffnet");
    let outcome = transform_stats(&raw).expect("a malformed source time is not fatal");
    assert!(outcome.snapshot.is_none());
}

#[test]
fn status_geoeffnet_means_open() {
    let r = parse_open_status(&"geoeffnet".to_string());
    assert!(r.is_open);
    assert!(r.recognized);
}

#[test]
fn status_geschlossen_means_closed() {
    let r = parse_open_status(&"geschlossen".to_string());
    assert!(!r.is_open);
    assert!(r.recognized);
}

#[test]
fn status_unknown_means_closed_with_diagnostic() {
    let r = parse_open_status(&"unknown".to_string());
    assert!(!r.is_open);
    assert!(!r.recognized);
}

#[test]
fn transform_info_passes_fields_through() {
    let raw = raw_info("42", "Hauptbahnhof", "Parkhaus", 500, 50, 20);
    let g = transform_info(&raw).expect("valid id must transform");
    assert_eq!(g.id, 42);
    assert_eq!(g.name, "Hauptbahnhof");
    assert_eq!(g.parking_type, "Parkhaus");
    assert_eq!(g.total_capacity, 500);
    assert_eq!(g.short_capacity, 50);
    assert_eq!(g.other_capacity, 20);
}

#[test]
fn transform_info_rejects_bad_id() {
    let raw = raw_info("P42", "Hauptbahnhof", "Parkhaus", 500, 50, 20);
    assert!(matches!(transform_info(&raw), Err(TransformError::InvalidGarageId)));
}

#[test]
fn info_batch_is_fatal_on_one_bad_id() {
    let raws = vec![
        raw_info("1", "A", "Parkhaus", 10, 1, 1),
        raw_info("x", "B", "Parkhaus", 10, 1, 1),
    ];
    assert!(matches!(transform_info_batch(&raws), Err(TransformError::InvalidGarageId)));
}

#[test]
fn info_batch_keeps_order() {
    let raws = vec![
        raw_info("2", "B", "Parkhaus", 10, 1, 1),
        raw_info("1", "A", "Tiefgarage", 20, 2, 2),
    ];
    let out = transform_info_batch(&raws).expect("all ids valid");
    assert_eq!(out.len(), 2);
    assert_eq!(out[0].id, 2);
    assert_eq!(out[1].id, 1);
    assert_eq!(out[1].parking_type, "Tiefgarage");
}

#[test]
fn stats_batch_drops_malformed_timestamps_and_keeps_the_rest() {
    let raws = vec![
        raw_stats("1", "störung", "geoeffnet"),
        raw_stats("2", "2021-09-01 10:00:00", "geschlossen"),
    ];
    let out = transform_stats_batch(&raws).expect("a malformed source time is not fatal");
    assert_eq!(out.len(), 1);
    assert_eq!(out[0].garage_id, 2);
    assert!(!out[0].opened);
}

#[test]
fn stats_batch_is_fatal_on_bad_id_with_valid_timestamp() {
    let raws = vec![raw_stats("x", "2021-09-01 10:00:00", "geoeffnet")];
    assert_eq!(transform_stats_batch(&raws), Err(TransformError::InvalidGarageId));
}

#[test]
fn stats_batch_drops_record_with_bad_id_and_bad_timestamp() {
    // The source time is checked first: a record already dropped for
    // its source time never has its identifier parsed.
    let raws = vec![raw_stats("x", "störung", "geoeffnet")];
    let out = transform_stats_batch(&raws).expect("the dropped record hides its bad id");
    assert!(out.is_empty());
}

#[test]
fn transform_stats_carries_occupancy_fields_exactly() {
    let raw = raw_stats("7", "2022-01-31 23:59:58", "geoeffnet");
    let outcome = transform_stats(&raw).expect("valid record");
    let snap = outcome.snapshot.expect("kept");
    assert_eq!(snap.garage_id, 7);
    assert!(snap.opened);
    assert!(outcome.recognized);
    assert_eq!(snap.current_total_capacity, 480);
    assert_eq!(snap.current_short_capacity, 48);
    assert_eq!(snap.current_other_capacity, 19);
    assert_eq!(snap.current_total_occupied, 300);
    assert_eq!(snap.current_short_occupied, 10);
    assert_eq!(snap.current_other_occupied, 5);
    assert_eq!(
        snap.source_time,
        Timestamp { year: 2022, month: 1, day: 31, hour: 23, minute: 59, second: 58 }
    );
}
