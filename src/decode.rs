//! Checks a payload, already split into fields, against the domain model.
//!
//! The payload arrives as raw records whose enumerated values, counts and
//! instants are still plain text or integers; decoding either yields a
//! [`Snapshot`] or names the first constraint that the payload breaks.
use vstd::prelude::*;

use crate::model::{
    area_named, portal_type_named, Appointments, Area, Location, Portal, PortalType, Snapshot,
    Timestamp,
};

verus! {

/// The constraint that a payload breaks.
#[derive(Clone, Copy, Debug, PartialEq, Eq, Structural)]
pub enum DecodeError {
    /// An `area` that names no known area.
    UnknownArea,
    /// A portal `type` that names no known portal type.
    UnknownPortalType,
    /// An appointment count below zero.
    NegativeCount,
    /// An appointment count above the largest `u64`.
    CountTooLarge,
    /// An instant that does not read as a date and time with an offset.
    BadTimestamp,
}

/// Open slots as the payload states them.
#[derive(Clone, Debug)]
pub struct RawAppointments {
    pub count: i128,
    pub summary: Option<String>,
}

/// A location as the payload states it.
#[derive(Clone, Debug)]
pub struct RawLocation {
    pub active: bool,
    pub appointments: RawAppointments,
    pub area: String,
    pub available: bool,
    pub id: String,
    pub last_available_at: Option<String>,
    pub name: String,
    pub portal: String,
    pub updated_at: Option<String>,
}

/// A portal as the payload states it.
#[derive(Clone, Debug)]
pub struct RawPortal {
    pub key: String,
    pub name: String,
    pub url: String,
    pub portal_type: String,
}

/// A whole payload.
#[derive(Clone, Debug)]
pub struct RawResponse {
    pub last_updated_at: String,
    pub locations: Vec<RawLocation>,
    pub portals: Vec<RawPortal>,
}

/// The instant, as seconds and nanoseconds since the Unix epoch, that chrono
/// reads from a text, or `None` where it reads none.
pub uninterp spec fn instant_of(s: Seq<char>) -> Option<(i64, u32)>;

/// Relies on chrono's `FromStr for DateTime<Utc>` (a relaxed RFC 3339 reader
/// that converts any offset to UTC), and on `timestamp` and
/// `timestamp_subsec_nanos` to read the instant back.
#[verifier::external_body]
fn parse_instant(s: &str) -> (r: Option<(i64, u32)>)
    ensures
        r == instant_of(s@),
{
    match s.parse::<chrono::DateTime<chrono::Utc>>() {
        Ok(t) => Some((t.timestamp(), t.timestamp_subsec_nanos())),
        Err(_) => None,
    }
}

/// The timestamp that a text denotes, if it denotes one.
pub open spec fn timestamp_of(s: Seq<char>) -> Option<Timestamp> {
    match timestamp_result(instant_of(s)) {
        Ok(t) => Some(t),
        Err(_) => None,
    }
}

/// The timestamp for an instant read as seconds and nanoseconds, or
/// `BadTimestamp` where none was read.
pub open spec fn timestamp_result(parsed: Option<(i64, u32)>) -> Result<Timestamp, DecodeError> {
    match parsed {
        Some(p) => Ok(Timestamp { secs: p.0, nanos: p.1 }),
        None => Err(DecodeError::BadTimestamp),
    }
}

/// Turns an instant read as seconds and nanoseconds into a timestamp.
pub fn timestamp_from_instant(parsed: Option<(i64, u32)>) -> (r: Result<Timestamp, DecodeError>)
    ensures
        r == timestamp_result(parsed),
{
    match parsed {
        Some(p) => Ok(Timestamp { secs: p.0, nanos: p.1 }),
        None => Err(DecodeError::BadTimestamp),
    }
}

/// Reads a timestamp, or fails with `BadTimestamp`.
pub fn decode_timestamp(s: &String) -> (r: Result<Timestamp, DecodeError>)
    ensures
        r == timestamp_result(instant_of(s@)),
{
    timestamp_from_instant(parse_instant(s.as_str()))
}

/// Whether an optional instant is absent or readable.
pub open spec fn optional_ok(s: Option<String>) -> bool {
    match s {
        Some(t) => timestamp_of(t@) is Some,
        None => true,
    }
}

/// The decoded form of an optional instant.
pub open spec fn optional_timestamp(s: Option<String>) -> Option<Timestamp> {
    match s {
        Some(t) => timestamp_of(t@),
        None => None,
    }
}

/// Reads an optional timestamp; absence is no error.
pub fn decode_optional_timestamp(s: &Option<String>) -> (r: Result<Option<Timestamp>, DecodeError>)
    ensures
        r == (if optional_ok(*s) {
            Ok::<Option<Timestamp>, DecodeError>(optional_timestamp(*s))
        } else {
            Err(DecodeError::BadTimestamp)
        }),
{
    match s {
        Some(t) => match decode_timestamp(t) {
            Ok(v) => Ok(Some(v)),
            Err(e) => Err(e),
        },
        None => Ok(None),
    }
}

/// The first constraint that a location breaks, checked in the order
/// area, count (below zero, then too large), last-available instant,
/// update instant.
pub open spec fn location_fault(raw: RawLocation) -> Option<DecodeError> {
    if area_named(raw.area@) is None {
        Some(DecodeError::UnknownArea)
    } else if raw.appointments.count < 0 {
        Some(DecodeError::NegativeCount)
    } else if raw.appointments.count > u64::MAX {
        Some(DecodeError::CountTooLarge)
    } else if !optional_ok(raw.last_available_at) || !optional_ok(raw.updated_at) {
        Some(DecodeError::BadTimestamp)
    } else {
        None
    }
}

/// The location that a well-formed raw location decodes to.
pub open spec fn decoded_location(raw: RawLocation) -> Location {
    Location {
        id: raw.id,
        name: raw.name,
        area: area_named(raw.area@).unwrap(),
        portal: raw.portal,
        active: raw.active,
        available: raw.available,
        appointments: Appointments {
            count: raw.appointments.count as u64,
            summary: raw.appointments.summary,
        },
        last_available_at: optional_timestamp(raw.last_available_at),
        updated_at: optional_timestamp(raw.updated_at),
    }
}

fn clone_optional_text(s: &Option<String>) -> (r: Option<String>)
    ensures
        r == *s,
{
    match s {
        Some(t) => Some(t.clone()),
        None => None,
    }
}

/// Decodes one location, or names the first constraint it breaks.
pub fn decode_location(raw: &RawLocation) -> (r: Result<Location, DecodeError>)
    ensures
        r == match location_fault(*raw) {
            Some(e) => Err::<Location, DecodeError>(e),
            None => Ok(decoded_location(*raw)),
        },
{
    let area = match Area::from_name(&raw.area) {
        Some(a) => a,
        None => return Err(DecodeError::UnknownArea),
    };
    if raw.appointments.count < 0 {
        return Err(DecodeError::NegativeCount);
    }
    if raw.appointments.count > u64::MAX as i128 {
        return Err(DecodeError::CountTooLarge);
    }
    let last_available_at = match decode_optional_timestamp(&raw.last_available_at) {
        Ok(t) => t,
        Err(e) => return Err(e),
    };
    let updated_at = match decode_optional_timestamp(&raw.updated_at) {
        Ok(t) => t,
        Err(e) => return Err(e),
    };
    Ok(Location {
        id: raw.id.clone(),
        name: raw.name.clone(),
        area,
        portal: raw.portal.clone(),
        active: raw.active,
        available: raw.available,
        appointments: Appointments {
            count: raw.appointments.count as u64,
            summary: clone_optional_text(&raw.appointments.summary),
        },
        last_available_at,
        updated_at,
    })
}

/// The first constraint that a portal breaks.
pub open spec fn portal_fault(raw: RawPortal) -> Option<DecodeError> {
    if portal_type_named(raw.portal_type@) is None {
        Some(DecodeError::UnknownPortalType)
    } else {
        None
    }
}

/// The portal that a well-formed raw portal decodes to.
pub open spec fn decoded_portal(raw: RawPortal) -> Portal {
    Portal {
        key: raw.key,
        name: raw.name,
        url: raw.url,
        portal_type: portal_type_named(raw.portal_type@).unwrap(),
    }
}

/// Decodes one portal, or fails on an unknown portal type.
pub fn decode_portal(raw: &RawPortal) -> (r: Result<Portal, DecodeError>)
    ensures
        r == match portal_fault(*raw) {
            Some(e) => Err::<Portal, DecodeError>(e),
            None => Ok(decoded_portal(*raw)),
        },
{
    match PortalType::from_name(&raw.portal_type) {
        Some(t) => Ok(
            Portal { key: raw.key.clone(), name: raw.name.clone(), url: raw.url.clone(), portal_type: t },
        ),
        None => Err(DecodeError::UnknownPortalType),
    }
}

/// The first constraint that a list of raw locations breaks, in list order.
pub open spec fn locations_fault(s: Seq<RawLocation>) -> Option<DecodeError>
    decreases s.len(),
{
    if s.len() == 0 {
        None
    } else {
        match locations_fault(s.drop_last()) {
            Some(e) => Some(e),
            None => location_fault(s.last()),
        }
    }
}

/// The first constraint that a list of raw portals breaks, in list order.
pub open spec fn portals_fault(s: Seq<RawPortal>) -> Option<DecodeError>
    decreases s.len(),
{
    if s.len() == 0 {
        None
    } else {
        match portals_fault(s.drop_last()) {
            Some(e) => Some(e),
            None => portal_fault(s.last()),
        }
    }
}

/// The first constraint that a payload breaks: its own instant, then its
/// locations, then its portals.
pub open spec fn response_fault(raw: RawResponse) -> Option<DecodeError> {
    if timestamp_of(raw.last_updated_at@) is None {
        Some(DecodeError::BadTimestamp)
    } else if locations_fault(raw.locations@) is Some {
        locations_fault(raw.locations@)
    } else {
        portals_fault(raw.portals@)
    }
}

/// The snapshot that a well-formed payload decodes to: every record decoded,
/// in the payload's order.
pub open spec fn decoded_snapshot(raw: RawResponse, snap: Snapshot) -> bool {
    &&& timestamp_of(raw.last_updated_at@) == Some(snap.last_updated_at)
    &&& snap.locations@ == raw.locations@.map_values(|l: RawLocation| decoded_location(l))
    &&& snap.portals@ == raw.portals@.map_values(|p: RawPortal| decoded_portal(p))
}

/// Decodes a whole payload, or names the first constraint that it breaks.
pub fn decode_response(raw: &RawResponse) -> (r: Result<Snapshot, DecodeError>)
    ensures
        match r {
            Ok(snap) => response_fault(*raw) is None && decoded_snapshot(*raw, snap),
            Err(e) => response_fault(*raw) == Some(e),
        },
{
    let last_updated_at = match decode_timestamp(&raw.last_updated_at) {
        Ok(t) => t,
        Err(e) => return Err(e),
    };
    let mut locations: Vec<Location> = Vec::new();
    let n = raw.locations.len();
    for i in 0..n
        invariant
            n == raw.locations@.len(),
            timestamp_of(raw.last_updated_at@) == Some(last_updated_at),
            locations_fault(raw.locations@.subrange(0, i as int)) is None,
            locations@ == raw.locations@.subrange(0, i as int).map_values(
                |l: RawLocation| decoded_location(l),
            ),
    {
        assert(raw.locations@.subrange(0, i + 1).drop_last() == raw.locations@.subrange(0, i as int));
        match decode_location(&raw.locations[i]) {
            Ok(l) => locations.push(l),
            Err(e) => {
                assert(raw.locations@.subrange(0, i + 1).last() == raw.locations@[i as int]);
                assert(locations_fault(raw.locations@.subrange(0, i + 1)) == Some(e));
                assert(locations_fault(raw.locations@) == Some(e)) by {
                    lemma_locations_fault_prefix(raw.locations@, i + 1);
                }
                return Err(e);
            },
        }
    }
    assert(raw.locations@.subrange(0, n as int) == raw.locations@);
    let mut portals: Vec<Portal> = Vec::new();
    let m = raw.portals.len();
    for i in 0..m
        invariant
            m == raw.portals@.len(),
            timestamp_of(raw.last_updated_at@) == Some(last_updated_at),
            locations_fault(raw.locations@) is None,
            locations@ == raw.locations@.map_values(|l: RawLocation| decoded_location(l)),
            portals_fault(raw.portals@.subrange(0, i as int)) is None,
            portals@ == raw.portals@.subrange(0, i as int).map_values(|p: RawPortal| decoded_portal(p)),
    {
        assert(raw.portals@.subrange(0, i + 1).drop_last() == raw.portals@.subrange(0, i as int));
        match decode_portal(&raw.portals[i]) {
            Ok(p) => portals.push(p),
            Err(e) => {
                assert(raw.portals@.subrange(0, i + 1).last() == raw.portals@[i as int]);
                assert(portals_fault(raw.portals@.subrange(0, i + 1)) == Some(e));
                assert(portals_fault(raw.portals@) == Some(e)) by {
                    lemma_portals_fault_prefix(raw.portals@, i + 1);
                }
                return Err(e);
            },
        }
    }
    assert(raw.portals@.subrange(0, m as int) == raw.portals@);
    Ok(Snapshot { last_updated_at, locations, portals })
}

/// A fault in a prefix is the fault of the whole list.
proof fn lemma_locations_fault_prefix(s: Seq<RawLocation>, k: int)
    requires
        0 <= k <= s.len(),
        locations_fault(s.subrange(0, k)) is Some,
    ensures
        locations_fault(s) == locations_fault(s.subrange(0, k)),
    decreases s.len() - k,
{
    if k < s.len() {
        assert(s.subrange(0, k + 1).drop_last() == s.subrange(0, k));
        lemma_locations_fault_prefix(s, k + 1);
    } else {
        assert(s.subrange(0, k) == s);
    }
}

/// A fault in a prefix is the fault of the whole list.
proof fn lemma_portals_fault_prefix(s: Seq<RawPortal>, k: int)
    requires
        0 <= k <= s.len(),
        portals_fault(s.subrange(0, k)) is Some,
    ensures
        portals_fault(s) == portals_fault(s.subrange(0, k)),
    decreases s.len() - k,
{
    if k < s.len() {
        assert(s.subrange(0, k + 1).drop_last() == s.subrange(0, k));
        lemma_portals_fault_prefix(s, k + 1);
    } else {
        assert(s.subrange(0, k) == s);
    }
}

/// A location that breaks a constraint anywhere in the list makes the list
/// fail: decoding never falls back to a default.
pub proof fn location_fault_anywhere(s: Seq<RawLocation>, i: int)
    requires
        0 <= i < s.len(),
        location_fault(s[i]) is Some,
    ensures
        locations_fault(s) is Some,
    decreases s.len(),
{
    if i < s.len() - 1 {
        assert(s.drop_last()[i] == s[i]);
        location_fault_anywhere(s.drop_last(), i);
    }
}

/// A payload with a location whose area names no known area does not
/// decode.
pub proof fn unknown_area_rejected(raw: RawResponse, i: int)
    requires
        0 <= i < raw.locations@.len(),
        area_named(raw.locations@[i].area@) is None,
    ensures
        response_fault(raw) is Some,
{
    location_fault_anywhere(raw.locations@, i);
}

} // verus!
