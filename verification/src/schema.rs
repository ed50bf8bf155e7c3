//! The tables of the schema and the keys by which they refer to each other.

use vstd::prelude::*;

verus! {

/// Marker for a value of a PostGIS `geometry` column. The library carries such
/// a value without its coordinates.
#[derive(Debug, Clone, Copy, PartialEq, Eq)]
pub struct Geometry;

/// A table of the schema.
#[derive(Debug, Clone, Copy, PartialEq, Eq, Structural)]
pub enum Table {
    AccessLevel,
    Organization,
    Session,
    SimCard,
    User,
    Vehicle,
    VehicleTracker,
    VehicleTrackerLastLocation,
    VehicleTrackerLocation,
}

impl Table {
    /// The name of the table in the database.
    pub open spec fn spec_name(self) -> Seq<char> {
        match self {
            Table::AccessLevel => "access_level"@,
            Table::Organization => "organization"@,
            Table::Session => "session"@,
            Table::SimCard => "sim_card"@,
            Table::User => "user"@,
            Table::Vehicle => "vehicle"@,
            Table::VehicleTracker => "vehicle_tracker"@,
            Table::VehicleTrackerLastLocation => "vehicle_tracker_last_location"@,
            Table::VehicleTrackerLocation => "vehicle_tracker_location"@,
        }
    }

    /// The name of the table in the database.
    pub fn name(self) -> (r: &'static str)
        ensures
            r@ == self.spec_name(),
    {
        match self {
            Table::AccessLevel => "access_level",
            Table::Organization => "organization",
            Table::Session => "session",
            Table::SimCard => "sim_card",
            Table::User => "user",
            Table::Vehicle => "vehicle",
            Table::VehicleTracker => "vehicle_tracker",
            Table::VehicleTrackerLastLocation => "vehicle_tracker_last_location",
            Table::VehicleTrackerLocation => "vehicle_tracker_location",
        }
    }

    /// Whether rows of `self` hold a key into `parent`. An organization
    /// refers to its owner and a user to its organization: of such a pair one
    /// row has to exist before its key can be set.
    pub open spec fn refers_to(self, parent: Table) -> bool {
        match self {
            Table::AccessLevel => parent == Table::Organization,
            Table::Organization => parent == Table::User,
            Table::Session => parent == Table::User,
            Table::SimCard => parent == Table::Organization || parent == Table::VehicleTracker,
            Table::User => parent == Table::AccessLevel || parent == Table::Organization,
            Table::Vehicle => parent == Table::Organization,
            Table::VehicleTracker => parent == Table::Organization || parent == Table::Vehicle,
            Table::VehicleTrackerLastLocation => parent == Table::VehicleTracker,
            Table::VehicleTrackerLocation => parent == Table::VehicleTracker,
        }
    }
}

} // verus!
