use vstd::prelude::*;
use vstd::string::StringExecFns;

verus! {

/// The two tables the pipeline persists into.
#[derive(Clone, Copy, PartialEq, Eq, Structural, Debug)]
pub enum TableName {
    ParkingInfo,
    ParkingStats,
}

/// Column identifiers across both tables.
#[derive(Clone, Copy, PartialEq, Eq, Structural, Debug)]
pub enum ColumnId {
    Id,
    Name,
    ParkingType,
    TotalCapacity,
    ShortCapacity,
    OtherCapacity,
    UpdatedTime,
    SourceTime,
    Opened,
    CurrentTotalCapacity,
    CurrentShortCapacity,
    CurrentOtherCapacity,
    CurrentTotalOccupied,
    CurrentShortOccupied,
    CurrentOtherOccupied,
}

/// SQL column types used by the two tables.
#[derive(Clone, Copy, PartialEq, Eq, Structural, Debug)]
pub enum SqlType {
    Integer,
    SmallInteger,
    Boolean,
    DateTime,
    FixedChar(u32),
}

/// Referential action of a foreign key.
#[derive(Clone, Copy, PartialEq, Eq, Structural, Debug)]
pub enum FkAction {
    NoAction,
    Cascade,
}

/// One column: identifier, SQL type, nullability, and whether the
/// storage layer fills it with the current time when no value is
/// given (the ingestion-time columns).
#[derive(Clone, Copy, PartialEq, Eq, Structural, Debug)]
pub struct ColumnSpec {
    pub column: ColumnId,
    pub sql_type: SqlType,
    pub not_null: bool,
    pub default_current_time: bool,
}

/// A foreign key from one column of a table to one column of another,
/// with its referential actions.
#[derive(Clone, Copy, PartialEq, Eq, Structural, Debug)]
pub struct ForeignKeySpec {
    pub from_table: TableName,
    pub from_column: ColumnId,
    pub to_table: TableName,
    pub to_column: ColumnId,
    pub on_update: FkAction,
    pub on_delete: FkAction,
}

/// A create-if-absent table description: columns in declaration
/// order, the primary key (composite when it lists several columns),
/// and at most one foreign key.
pub struct TableSpec {
    pub name: TableName,
    pub if_not_exists: bool,
    pub columns: Vec<ColumnSpec>,
    pub primary_key: Vec<ColumnId>,
    pub foreign_key: Option<ForeignKeySpec>,
}

/// The columns of the garage reference table.
pub open spec fn info_columns() -> Seq<ColumnSpec> {
    seq![
        (ColumnSpec {
            column: ColumnId::Id,
            sql_type: SqlType::Integer,
            not_null: true,
            default_current_time: false,
        }),
        (ColumnSpec {
            column: ColumnId::Name,
            sql_type: SqlType::FixedChar(100),
            not_null: true,
            default_current_time: false,
        }),
        (ColumnSpec {
            column: ColumnId::ParkingType,
            sql_type: SqlType::FixedChar(50),
            not_null: true,
            default_current_time: false,
        }),
        (ColumnSpec {
            column: ColumnId::TotalCapacity,
            sql_type: SqlType::SmallInteger,
            not_null: true,
            default_current_time: false,
        }),
        (ColumnSpec {
            column: ColumnId::ShortCapacity,
            sql_type: SqlType::SmallInteger,
            not_null: true,
            default_current_time: false,
        }),
        (ColumnSpec {
            column: ColumnId::OtherCapacity,
            sql_type: SqlType::SmallInteger,
            not_null: true,
            default_current_time: false,
        }),
        (ColumnSpec {
            column: ColumnId::UpdatedTime,
            sql_type: SqlType::DateTime,
            not_null: true,
            default_current_time: true,
        }),
    ]
}

/// The columns of the occupancy snapshot table.
pub open spec fn stats_columns() -> Seq<ColumnSpec> {
    seq![
        (ColumnSpec {
            column: ColumnId::Id,
            sql_type: SqlType::Integer,
            not_null: true,
            default_current_time: false,
        }),
        (ColumnSpec {
            column: ColumnId::SourceTime,
            sql_type: SqlType::DateTime,
            not_null: true,
            default_current_time: false,
        }),
        (ColumnSpec {
            column: ColumnId::Opened,
            sql_type: SqlType::Boolean,
            not_null: true,
            default_current_time: false,
        }),
        (ColumnSpec {
            column: ColumnId::UpdatedTime,
            sql_type: SqlType::DateTime,
            not_null: true,
            default_current_time: true,
        }),
        (ColumnSpec {
            column: ColumnId::CurrentTotalCapacity,
            sql_type: SqlType::SmallInteger,
            not_null: true,
            default_current_time: false,
        }),
        (ColumnSpec {
            column: ColumnId::CurrentShortCapacity,
            sql_type: SqlType::SmallInteger,
            not_null: true,
            default_current_time: false,
        }),
        (ColumnSpec {
            column: ColumnId::CurrentOtherCapacity,
            sql_type: SqlType::SmallInteger,
            not_null: true,
            default_current_time: false,
        }),
        (ColumnSpec {
            column: ColumnId::CurrentTotalOccupied,
            sql_type: SqlType::SmallInteger,
            not_null: true,
            default_current_time: false,
        }),
        (ColumnSpec {
            column: ColumnId::CurrentShortOccupied,
            sql_type: SqlType::SmallInteger,
            not_null: true,
            default_current_time: false,
        }),
        (ColumnSpec {
            column: ColumnId::CurrentOtherOccupied,
            sql_type: SqlType::SmallInteger,
            not_null: true,
            default_current_time: false,
        }),
    ]
}

/// The foreign key of the snapshot table: every snapshot's garage id
/// references the reference table's key, following renames of that
/// key (cascade on update) and refusing orphaning deletes (no action
/// on delete).
pub open spec fn stats_foreign_key() -> ForeignKeySpec {
    ForeignKeySpec {
        from_table: TableName::ParkingStats,
        from_column: ColumnId::Id,
        to_table: TableName::ParkingInfo,
        to_column: ColumnId::Id,
        on_update: FkAction::Cascade,
        on_delete: FkAction::NoAction,
    }
}

/// The full shape of the garage reference table.
pub open spec fn is_info_table(t: TableSpec) -> bool {
    &&& t.name == TableName::ParkingInfo
    &&& t.if_not_exists
    &&& t.columns@ == info_columns()
    &&& t.primary_key@ == seq![ColumnId::Id]
    &&& t.foreign_key is None
}

/// The full shape of the occupancy snapshot table, with its composite
/// primary key and its foreign key into the reference table.
pub open spec fn is_stats_table(t: TableSpec) -> bool {
    &&& t.name == TableName::ParkingStats
    &&& t.if_not_exists
    &&& t.columns@ == stats_columns()
    &&& t.primary_key@ == seq![ColumnId::Id, ColumnId::SourceTime]
    &&& t.foreign_key == Some(stats_foreign_key())
}

fn push_column(
    columns: &mut Vec<ColumnSpec>,
    column: ColumnId,
    sql_type: SqlType,
    default_current_time: bool,
)
    ensures
        final(columns)@ == old(columns)@.push(
            ColumnSpec { column, sql_type, not_null: true, default_current_time },
        ),
{
    columns.push(ColumnSpec { column, sql_type, not_null: true, default_current_time });
}

/// The descriptor of the garage reference table.
pub fn garage_info_table() -> (t: TableSpec)
    ensures
        is_info_table(t),
{
    let mut columns: Vec<ColumnSpec> = Vec::new();
    push_column(&mut columns, ColumnId::Id, SqlType::Integer, false);
    push_column(&mut columns, ColumnId::Name, SqlType::FixedChar(100), false);
    push_column(&mut columns, ColumnId::ParkingType, SqlType::FixedChar(50), false);
    push_column(&mut columns, ColumnId::TotalCapacity, SqlType::SmallInteger, false);
    push_column(&mut columns, ColumnId::ShortCapacity, SqlType::SmallInteger, false);
    push_column(&mut columns, ColumnId::OtherCapacity, SqlType::SmallInteger, false);
    push_column(&mut columns, ColumnId::UpdatedTime, SqlType::DateTime, true);
    let mut primary_key: Vec<ColumnId> = Vec::new();
    primary_key.push(ColumnId::Id);
    proof {
        assert(columns@ =~= info_columns());
        assert(primary_key@ =~= seq![ColumnId::Id]);
    }
    TableSpec {
        name: TableName::ParkingInfo,
        if_not_exists: true,
        columns,
        primary_key,
        foreign_key: None,
    }
}

/// The descriptor of the occupancy snapshot table.
pub fn snapshot_table() -> (t: TableSpec)
    ensures
        is_stats_table(t),
{
    let mut columns: Vec<ColumnSpec> = Vec::new();
    push_column(&mut columns, ColumnId::Id, SqlType::Integer, false);
    push_column(&mut columns, ColumnId::SourceTime, SqlType::DateTime, false);
    push_column(&mut columns, ColumnId::Opened, SqlType::Boolean, false);
    push_column(&mut columns, ColumnId::UpdatedTime, SqlType::DateTime, true);
    push_column(&mut columns, ColumnId::CurrentTotalCapacity, SqlType::SmallInteger, false);
    push_column(&mut columns, ColumnId::CurrentShortCapacity, SqlType::SmallInteger, false);
    push_column(&mut columns, ColumnId::CurrentOtherCapacity, SqlType::SmallInteger, false);
    push_column(&mut columns, ColumnId::CurrentTotalOccupied, SqlType::SmallInteger, false);
    push_column(&mut columns, ColumnId::CurrentShortOccupied, SqlType::SmallInteger, false);
    push_column(&mut columns, ColumnId::CurrentOtherOccupied, SqlType::SmallInteger, false);
    let mut primary_key: Vec<ColumnId> = Vec::new();
    primary_key.push(ColumnId::Id);
    primary_key.push(ColumnId::SourceTime);
    proof {
        assert(columns@ =~= stats_columns());
        assert(primary_key@ =~= seq![ColumnId::Id, ColumnId::SourceTime]);
    }
    TableSpec {
        name: TableName::ParkingStats,
        if_not_exists: true,
        columns,
        primary_key,
        foreign_key: Some(
            ForeignKeySpec {
                from_table: TableName::ParkingStats,
                from_column: ColumnId::Id,
                to_table: TableName::ParkingInfo,
                to_column: ColumnId::Id,
                on_update: FkAction::Cascade,
                on_delete: FkAction::NoAction,
            },
        ),
    }
}

/// The tables in creation order: the reference table strictly before
/// the snapshot table, whose foreign key requires its target to exist
/// first.
pub fn provisioning_plan() -> (v: Vec<TableSpec>)
    ensures
        v@.len() == 2,
        is_info_table(v@[0]),
        is_stats_table(v@[1]),
{
    let mut v: Vec<TableSpec> = Vec::new();
    v.push(garage_info_table());
    v.push(snapshot_table());
    v
}

/// Decide whether the database must be created: the existence probe
/// reports how many catalog rows matched the database name, and an
/// absent database is one with no matching row.
pub fn needs_create_database(matching_rows: u64) -> (b: bool)
    ensures
        b == (matching_rows == 0),
{
    matching_rows == 0
}

/// The catalog query probing for the database, with the database name
/// bound as its single parameter.
pub fn database_exists_sql() -> (s: &'static str)
    ensures
        s@ == "SELECT FROM pg_database WHERE datname = $1;"@,
{
    "SELECT FROM pg_database WHERE datname = $1;"
}

/// The statement creating the target database.
pub fn create_database_sql(db_name: &str) -> (s: String)
    ensures
        s@ == "CREATE DATABASE "@ + db_name@ + ";"@,
{
    let mut s = "CREATE DATABASE ".to_owned();
    s.append(db_name);
    s.append(";");
    s
}

} // verus!
