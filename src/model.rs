//! The typed domain model of one dashboard snapshot.
use vstd::prelude::*;

verus! {

/// A region of the dashboard, each with a fixed display name.
#[derive(Clone, Copy, Debug, PartialEq, Eq, Structural)]
pub enum Area {
    Bronx,
    Brooklyn,
    Manhattan,
    Queens,
    StatenIsland,
    LongIsland,
    MidHudson,
}

/// The display name of an area, as the dashboard writes it.
pub open spec fn area_name(a: Area) -> Seq<char> {
    match a {
        Area::Bronx => "Bronx"@,
        Area::Brooklyn => "Brooklyn"@,
        Area::Manhattan => "Manhattan"@,
        Area::Queens => "Queens"@,
        Area::StatenIsland => "Staten Island"@,
        Area::LongIsland => "Long Island"@,
        Area::MidHudson => "Mid-Hudson"@,
    }
}

/// The area whose display name is exactly `s`, if any.
pub open spec fn area_named(s: Seq<char>) -> Option<Area> {
    if s == "Bronx"@ {
        Some(Area::Bronx)
    } else if s == "Brooklyn"@ {
        Some(Area::Brooklyn)
    } else if s == "Manhattan"@ {
        Some(Area::Manhattan)
    } else if s == "Queens"@ {
        Some(Area::Queens)
    } else if s == "Staten Island"@ {
        Some(Area::StatenIsland)
    } else if s == "Long Island"@ {
        Some(Area::LongIsland)
    } else if s == "Mid-Hudson"@ {
        Some(Area::MidHudson)
    } else {
        None
    }
}

/// Exact comparison of a string with a literal.
fn same_text(s: &String, lit: &str) -> (r: bool)
    ensures
        r == (s@ == lit@),
{
    let t = String::from_str(lit);
    *s == t
}

impl Area {
    /// The display name of this area.
    pub fn name(&self) -> (r: &'static str)
        ensures
            r@ == area_name(*self),
    {
        match self {
            Area::Bronx => "Bronx",
            Area::Brooklyn => "Brooklyn",
            Area::Manhattan => "Manhattan",
            Area::Queens => "Queens",
            Area::StatenIsland => "Staten Island",
            Area::LongIsland => "Long Island",
            Area::MidHudson => "Mid-Hudson",
        }
    }

    /// The area whose display name is exactly `s`; no other text names one.
    pub fn from_name(s: &String) -> (r: Option<Area>)
        ensures
            r == area_named(s@),
    {
        if same_text(s, "Bronx") {
            Some(Area::Bronx)
        } else if same_text(s, "Brooklyn") {
            Some(Area::Brooklyn)
        } else if same_text(s, "Manhattan") {
            Some(Area::Manhattan)
        } else if same_text(s, "Queens") {
            Some(Area::Queens)
        } else if same_text(s, "Staten Island") {
            Some(Area::StatenIsland)
        } else if same_text(s, "Long Island") {
            Some(Area::LongIsland)
        } else if same_text(s, "Mid-Hudson") {
            Some(Area::MidHudson)
        } else {
            None
        }
    }
}

/// A kind of booking channel.
#[derive(Clone, Copy, Debug, PartialEq, Eq, Structural)]
pub enum PortalType {
    Clinic,
    Government,
    Pharmacy,
}

/// The name of a portal type, as the dashboard writes it.
pub open spec fn portal_type_name(t: PortalType) -> Seq<char> {
    match t {
        PortalType::Clinic => "clinic"@,
        PortalType::Government => "government"@,
        PortalType::Pharmacy => "pharmacy"@,
    }
}

/// The portal type whose name is exactly `s`, if any.
pub open spec fn portal_type_named(s: Seq<char>) -> Option<PortalType> {
    if s == "clinic"@ {
        Some(PortalType::Clinic)
    } else if s == "government"@ {
        Some(PortalType::Government)
    } else if s == "pharmacy"@ {
        Some(PortalType::Pharmacy)
    } else {
        None
    }
}

impl PortalType {
    /// The name of this portal type.
    pub fn name(&self) -> (r: &'static str)
        ensures
            r@ == portal_type_name(*self),
    {
        match self {
            PortalType::Clinic => "clinic",
            PortalType::Government => "government",
            PortalType::Pharmacy => "pharmacy",
        }
    }

    /// The portal type whose name is exactly `s`; no other text names one.
    pub fn from_name(s: &String) -> (r: Option<PortalType>)
        ensures
            r == portal_type_named(s@),
    {
        if same_text(s, "clinic") {
            Some(PortalType::Clinic)
        } else if same_text(s, "government") {
            Some(PortalType::Government)
        } else if same_text(s, "pharmacy") {
            Some(PortalType::Pharmacy)
        } else {
            None
        }
    }
}

/// Every area is found again by its display name.
pub proof fn area_name_round_trip(a: Area)
    ensures
        area_named(area_name(a)) == Some(a),
{
    reveal_strlit("Bronx");
    assert("Bronx"@.len() == 5);
    reveal_strlit("Brooklyn");
    assert("Brooklyn"@.len() == 8);
    reveal_strlit("Manhattan");
    assert("Manhattan"@.len() == 9);
    reveal_strlit("Queens");
    assert("Queens"@.len() == 6);
    reveal_strlit("Staten Island");
    assert("Staten Island"@.len() == 13);
    reveal_strlit("Long Island");
    assert("Long Island"@.len() == 11);
    reveal_strlit("Mid-Hudson");
    assert("Mid-Hudson"@.len() == 10);
}

/// Text that names an area is exactly that area's display name.
pub proof fn area_named_is_display(s: Seq<char>, a: Area)
    requires
        area_named(s) == Some(a),
    ensures
        area_name(a) == s,
{
}

/// Every portal type is found again by its name.
pub proof fn portal_type_name_round_trip(t: PortalType)
    ensures
        portal_type_named(portal_type_name(t)) == Some(t),
{
    reveal_strlit("clinic");
    assert("clinic"@.len() == 6);
    reveal_strlit("government");
    assert("government"@.len() == 10);
    reveal_strlit("pharmacy");
    assert("pharmacy"@.len() == 8);
}

/// Text that names a portal type is exactly that type's name.
pub proof fn portal_type_named_is_name(s: Seq<char>, t: PortalType)
    requires
        portal_type_named(s) == Some(t),
    ensures
        portal_type_name(t) == s,
{
}

/// An instant in UTC: whole seconds since the Unix epoch and the nanoseconds
/// past that second (above one billion only within a leap second).
#[derive(Clone, Copy, Debug, PartialEq, Eq, Structural)]
pub struct Timestamp {
    pub secs: i64,
    pub nanos: u32,
}

/// Open slots at a location.
#[derive(Clone, Debug)]
pub struct Appointments {
    pub count: u64,
    pub summary: Option<String>,
}

/// One appointment site as one snapshot reports it.
#[derive(Clone, Debug)]
pub struct Location {
    pub id: String,
    pub name: String,
    pub area: Area,
    pub portal: String,
    pub active: bool,
    pub available: bool,
    pub appointments: Appointments,
    pub last_available_at: Option<Timestamp>,
    pub updated_at: Option<Timestamp>,
}

/// A booking channel; locations refer to it by `key`.
#[derive(Clone, Debug)]
pub struct Portal {
    pub key: String,
    pub name: String,
    pub url: String,
    pub portal_type: PortalType,
}

/// The whole state that one poll of the dashboard reports.
#[derive(Clone, Debug)]
pub struct Snapshot {
    pub last_updated_at: Timestamp,
    pub locations: Vec<Location>,
    pub portals: Vec<Portal>,
}

} // verus!
