use parking_ingest::pipeline::{
    default_database_name, info_conflict_policy, select_mode, stats_conflict_policy,
    ConflictPolicy, RunMode,
};
use parking_ingest::schema::{
    create_database_sql, database_exists_sql, garage_info_table, needs_create_database,
    provisioning_plan, snapshot_table, ColumnId, FkAction, SqlType, TableName,
};

#[test]
fn plan_creates_reference_table_before_snapshot_table() {
    let plan = provisioning_plan();
    assert_eq!(plan.len(), 2);
    assert_eq!(plan[0].name, TableName::ParkingInfo);
    assert_eq!(plan[1].name, TableName::ParkingStats);
    assert!(plan[0].if_not_exists);
    assert!(plan[1].if_not_exists);
}

#[test]
fn reference_table_shape() {
    let t = garage_info_table();
    assert_eq!(t.columns.len(), 7);
    assert_eq!(t.primary_key, vec![ColumnId::Id]);
    assert!(t.foreign_key.is_none());
    assert_eq!(t.columns[1].column, ColumnId::Name);
    assert_eq!(t.columns[1].sql_type, SqlType::FixedChar(100));
    assert_eq!(t.columns[2].column, ColumnId::ParkingType);
    assert_eq!(t.columns[2].sql_type, SqlType::FixedChar(50));
    assert!(t.columns.iter().all(|c| c.not_null));
    let updated = t.columns[6];
    assert_eq!(updated.column, ColumnId::UpdatedTime);
    assert_eq!(updated.sql_type, SqlType::DateTime);
    assert!(updated.default_current_time);
}

#[test]
fn snapshot_table_shape() {
    let t = snapshot_table();
    assert_eq!(t.columns.len(), 10);
    assert_eq!(t.primary_key, vec![ColumnId::Id, ColumnId::SourceTime]);
    let fk = t.foreign_key.expect("snapshot table has a foreign key");
    assert_eq!(fk.from_table, TableName::ParkingStats);
    assert_eq!(fk.from_column, ColumnId::Id);
    assert_eq!(fk.to_table, TableName::ParkingInfo);
    assert_eq!(fk.to_column, ColumnId::Id);
    assert_eq!(fk.on_update, FkAction::Cascade);
    assert_eq!(fk.on_delete, FkAction::NoAction);
    assert_eq!(t.columns[1].column, ColumnId::SourceTime);
    assert_eq!(t.columns[2].column, ColumnId::Opened);
    assert_eq!(t.columns[2].sql_type, SqlType::Boolean);
}

#[test]
fn database_provisioning_decisions() {
    assert!(needs_create_database(0));
    assert!(!needs_create_database(1));
    assert!(!needs_create_database(3));
    assert_eq!(database_exists_sql(), "SELECT FROM pg_database WHERE datname = $1;");
    assert_eq!(create_database_sql("do_parking"), "CREATE DATABASE do_parking;");
}

#[test]
fn mode_and_policy_selection() {
    assert_eq!(select_mode(true), RunMode::Setup);
    assert_eq!(select_mode(false), RunMode::Collect);
    assert_eq!(default_database_name(), "do_parking");
    assert_eq!(info_conflict_policy(), ConflictPolicy::MergeAllColumns);
    assert_eq!(stats_conflict_policy(), ConflictPolicy::DoNothing);
}
