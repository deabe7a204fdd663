use vstd::prelude::*;
use crate::timestamp::Timestamp;

verus! {

/// A raw garage reference record as the open-data feed delivers it:
/// the garage identifier arrives as a string and must be parsed.
pub struct RawInfo {
    pub id: String,
    pub name: String,
    pub parking_type: String,
    pub capacity: i16,
    pub short: i16,
    pub other: i16,
}

/// Mathematical image of a raw reference record.
pub struct RawInfoV {
    pub id: Seq<char>,
    pub name: Seq<char>,
    pub parking_type: Seq<char>,
    pub capacity: int,
    pub short: int,
    pub other: int,
}

impl View for RawInfo {
    type V = RawInfoV;

    open spec fn view(&self) -> RawInfoV {
        RawInfoV {
            id: self.id@,
            name: self.name@,
            parking_type: self.parking_type@,
            capacity: self.capacity as int,
            short: self.short as int,
            other: self.other as int,
        }
    }
}

/// A raw occupancy record as the feed delivers it. `stand` carries the
/// source time of the reading, or an error text when the upstream
/// station was faulty; `parkeinrichtung` is the open/closed status
/// token. `frei` is accepted from the feed but not persisted.
pub struct RawStats {
    pub id: String,
    pub stand: String,
    pub parkeinrichtung: String,
    pub dyntotal: i16,
    pub dynshort: i16,
    pub dynother: i16,
    pub dtotalo: i16,
    pub dshorto: i16,
    pub dothero: i16,
    pub frei: i16,
}

/// Mathematical image of a raw occupancy record.
pub struct RawStatsV {
    pub id: Seq<char>,
    pub stand: Seq<char>,
    pub parkeinrichtung: Seq<char>,
    pub dyntotal: int,
    pub dynshort: int,
    pub dynother: int,
    pub dtotalo: int,
    pub dshorto: int,
    pub dothero: int,
    pub frei: int,
}

impl View for RawStats {
    type V = RawStatsV;

    open spec fn view(&self) -> RawStatsV {
        RawStatsV {
            id: self.id@,
            stand: self.stand@,
            parkeinrichtung: self.parkeinrichtung@,
            dyntotal: self.dyntotal as int,
            dynshort: self.dynshort as int,
            dynother: self.dynother as int,
            dtotalo: self.dtotalo as int,
            dshorto: self.dshorto as int,
            dothero: self.dothero as int,
            frei: self.frei as int,
        }
    }
}

/// A normalized garage reference record: the identifier has been
/// parsed into the integer key space shared with the snapshots.
pub struct GarageInfo {
    pub id: i32,
    pub name: String,
    pub parking_type: String,
    pub total_capacity: i16,
    pub short_capacity: i16,
    pub other_capacity: i16,
}

/// Mathematical image of a normalized reference record.
pub struct GarageInfoV {
    pub id: int,
    pub name: Seq<char>,
    pub parking_type: Seq<char>,
    pub total_capacity: int,
    pub short_capacity: int,
    pub other_capacity: int,
}

impl View for GarageInfo {
    type V = GarageInfoV;

    open spec fn view(&self) -> GarageInfoV {
        GarageInfoV {
            id: self.id as int,
            name: self.name@,
            parking_type: self.parking_type@,
            total_capacity: self.total_capacity as int,
            short_capacity: self.short_capacity as int,
            other_capacity: self.other_capacity as int,
        }
    }
}

impl GarageInfo {
    /// An owned copy with the same abstract value.
    pub fn duplicate(&self) -> (r: Self)
        ensures
            r@ == self@,
    {
        GarageInfo {
            id: self.id,
            name: self.name.clone(),
            parking_type: self.parking_type.clone(),
            total_capacity: self.total_capacity,
            short_capacity: self.short_capacity,
            other_capacity: self.other_capacity,
        }
    }
}

/// A normalized occupancy snapshot, keyed by `(garage_id, source_time)`.
/// All fields are plain values, so the record is its own mathematical
/// image and compares structurally.
#[derive(Clone, Copy, PartialEq, Eq, Structural, Debug)]
pub struct Snapshot {
    pub garage_id: i32,
    pub source_time: Timestamp,
    pub opened: bool,
    pub current_total_capacity: i16,
    pub current_short_capacity: i16,
    pub current_other_capacity: i16,
    pub current_total_occupied: i16,
    pub current_short_occupied: i16,
    pub current_other_occupied: i16,
}

} // verus!
