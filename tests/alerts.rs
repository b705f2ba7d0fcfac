use vax_alert::decode::{
    decode_location, decode_portal, decode_response, decode_timestamp, timestamp_from_instant,
    DecodeError,
    RawAppointments, RawLocation, RawPortal, RawResponse,
};
use vax_alert::model::{Appointments, Area, Location, Portal, PortalType, Timestamp};
use vax_alert::notify::{available_indices, compose_body, find_portal, push_decimal, SUBJECT};
use vax_alert::scheduler::{plan_alerts, Action, Event, Fault, Phase, Scheduler};

const ALL_AREAS: [Area; 7] = [
    Area::Bronx,
    Area::Brooklyn,
    Area::Manhattan,
    Area::Queens,
    Area::StatenIsland,
    Area::LongIsland,
    Area::MidHudson,
];

fn raw_location(id: &str, area: &str, available: bool, count: i128) -> RawLocation {
    RawLocation {
        active: true,
        appointments: RawAppointments { count, summary: None },
        area: area.to_string(),
        available,
        id: id.to_string(),
        last_available_at: None,
        name: format!("Site {}", id),
        portal: "p1".to_string(),
        updated_at: None,
    }
}

fn raw_portal(key: &str, kind: &str) -> RawPortal {
    RawPortal {
        key: key.to_string(),
        name: "CityVax".to_string(),
        url: "https://x".to_string(),
        portal_type: kind.to_string(),
    }
}

fn raw_response(locations: Vec<RawLocation>) -> RawResponse {
    RawResponse {
        last_updated_at: "2021-03-01T12:00:00Z".to_string(),
        locations,
        portals: vec![raw_portal("p1", "clinic")],
    }
}

fn location(id: &str, available: bool, portal: &str) -> Location {
    Location {
        id: id.to_string(),
        name: format!("Site {}", id),
        area: Area::Queens,
        portal: portal.to_string(),
        active: true,
        available,
        appointments: Appointments { count: 1, summary: None },
        last_available_at: None,
        updated_at: None,
    }
}

fn portal(key: &str) -> Portal {
    Portal {
        key: key.to_string(),
        name: "CityVax".to_string(),
        url: "https://x".to_string(),
        portal_type: PortalType::Government,
    }
}

#[test]
fn area_names_round_trip() {
    for a in ALL_AREAS {
        let name = a.name().to_string();
        assert_eq!(Area::from_name(&name), Some(a));
    }
    assert_eq!(Area::from_name(&"Staten Island".to_string()), Some(Area::StatenIsland));
    assert_eq!(Area::StatenIsland.name(), "Staten Island");
    assert_eq!(Area::MidHudson.name(), "Mid-Hudson");
    assert_eq!(Area::LongIsland.name(), "Long Island");
}

#[test]
fn portal_type_names_round_trip() {
    for t in [PortalType::Clinic, PortalType::Government, PortalType::Pharmacy] {
        let name = t.name().to_string();
        assert_eq!(PortalType::from_name(&name), Some(t));
    }
    assert_eq!(PortalType::Pharmacy.name(), "pharmacy");
}

#[test]
fn names_match_exactly() {
    assert_eq!(Area::from_name(&"staten island".to_string()), None);
    assert_eq!(Area::from_name(&"StatenIsland".to_string()), None);
    assert_eq!(Area::from_name(&"Atlantis".to_string()), None);
    assert_eq!(PortalType::from_name(&"Clinic".to_string()), None);
}

#[test]
fn decode_rejects_unknown_area() {
    let raw = raw_response(vec![raw_location("a", "Atlantis", true, 1)]);
    assert_eq!(decode_response(&raw).err(), Some(DecodeError::UnknownArea));
}

#[test]
fn decode_rejects_unknown_portal_type() {
    let mut raw = raw_response(vec![raw_location("a", "Bronx", true, 1)]);
    raw.portals.push(raw_portal("p2", "hospital"));
    assert_eq!(decode_response(&raw).err(), Some(DecodeError::UnknownPortalType));
    assert_eq!(decode_portal(&raw_portal("p", "pharmacy")).unwrap().portal_type, PortalType::Pharmacy);
}

#[test]
fn decode_rejects_negative_count() {
    assert_eq!(decode_location(&raw_location("a", "Bronx", true, -1)).err(), Some(DecodeError::NegativeCount));
    assert_eq!(decode_location(&raw_location("a", "Bronx", true, 0)).unwrap().appointments.count, 0);
    let max = u64::MAX as i128;
    assert_eq!(decode_location(&raw_location("a", "Bronx", true, max)).unwrap().appointments.count, u64::MAX);
    assert_eq!(decode_location(&raw_location("a", "Bronx", true, max + 1)).err(), Some(DecodeError::CountTooLarge));
}

#[test]
fn decode_reports_first_fault() {
    let raw = raw_response(vec![
        raw_location("a", "Bronx", true, -1),
        raw_location("b", "Atlantis", true, 1),
    ]);
    assert_eq!(decode_response(&raw).err(), Some(DecodeError::NegativeCount));
    let mut late = raw_response(vec![raw_location("a", "Atlantis", true, 1)]);
    late.last_updated_at = "yesterday".to_string();
    assert_eq!(decode_response(&late).err(), Some(DecodeError::BadTimestamp));
}

#[test]
fn decode_reads_timestamps() {
    assert_eq!(
        decode_timestamp(&"2021-03-01T12:00:00Z".to_string()),
        Ok(Timestamp { secs: 1614600000, nanos: 0 })
    );
    assert_eq!(
        decode_timestamp(&"2021-03-01T12:00:00.5+01:00".to_string()),
        Ok(Timestamp { secs: 1614596400, nanos: 500000000 })
    );
    assert_eq!(decode_timestamp(&"not a time".to_string()), Err(DecodeError::BadTimestamp));
    let mut raw = raw_location("a", "Brooklyn", true, 2);
    raw.updated_at = Some("2021-03-01T00:00:00Z".to_string());
    let loc = decode_location(&raw).unwrap();
    assert_eq!(loc.last_available_at, None);
    assert_eq!(loc.updated_at, Some(Timestamp { secs: 1614556800, nanos: 0 }));
    raw.last_available_at = Some("soon".to_string());
    assert_eq!(decode_location(&raw).err(), Some(DecodeError::BadTimestamp));
}

#[test]
fn instant_becomes_timestamp() {
    assert_eq!(timestamp_from_instant(Some((-5, 7))), Ok(Timestamp { secs: -5, nanos: 7 }));
    assert_eq!(timestamp_from_instant(None), Err(DecodeError::BadTimestamp));
}

#[test]
fn decode_keeps_fields_and_order() {
    let mut first = raw_location("a", "Mid-Hudson", false, 4);
    first.appointments.summary = Some("Walk-ins welcome".to_string());
    first.active = false;
    let raw = raw_response(vec![first, raw_location("b", "Long Island", true, 2)]);
    let snap = decode_response(&raw).unwrap();
    assert_eq!(snap.last_updated_at, Timestamp { secs: 1614600000, nanos: 0 });
    assert_eq!(snap.locations.len(), 2);
    assert_eq!(snap.locations[0].id, "a");
    assert_eq!(snap.locations[0].area, Area::MidHudson);
    assert!(!snap.locations[0].active);
    assert_eq!(snap.locations[0].appointments.count, 4);
    assert_eq!(snap.locations[0].appointments.summary.as_deref(), Some("Walk-ins welcome"));
    assert_eq!(snap.locations[1].area, Area::LongIsland);
    assert_eq!(snap.portals[0].portal_type, PortalType::Clinic);
    assert_eq!(snap.portals[0].url, "https://x");
}

#[test]
fn filter_keeps_available_in_order() {
    let locs = vec![location("a", true, "p1"), location("b", false, "p1"), location("c", true, "p1")];
    assert_eq!(available_indices(&locs), vec![0, 2]);
    let mut inactive = location("d", true, "p1");
    inactive.active = false;
    assert_eq!(available_indices(&vec![inactive]), vec![0]);
    assert_eq!(available_indices(&vec![]), Vec::<usize>::new());
}

#[test]
fn portal_resolution() {
    let portals = vec![portal("p0"), portal("p1"), portal("p1")];
    assert_eq!(find_portal(&portals, &"p1".to_string()), Some(1));
    assert_eq!(find_portal(&portals, &"missing".to_string()), None);
    let body = compose_body(&location("a", true, "missing"), None);
    assert!(body.ends_with("Visit turbovax.info for more information"));
}

#[test]
fn message_composition() {
    let loc = Location {
        id: "1".to_string(),
        name: "Clinic A".to_string(),
        area: Area::Brooklyn,
        portal: "p1".to_string(),
        active: true,
        available: true,
        appointments: Appointments { count: 3, summary: Some("Walk-ins welcome".to_string()) },
        last_available_at: None,
        updated_at: None,
    };
    let p = portal("p1");
    let body = compose_body(&loc, Some(&p));
    for part in ["3", "Clinic A", "Brooklyn", "Walk-ins welcome", "CityVax", "https://x"] {
        assert!(body.contains(part), "missing {}", part);
    }
    assert_eq!(
        body,
        "Found 3 vaccine appoitnemnt(s)! The location is Clinic A in Brooklyn.\n\
         Walk-ins welcome\n\
         Appointments can be booked through the CityVax portal, at https://x"
    );
    assert_eq!(SUBJECT, "Vaccine slot found!");
}

#[test]
fn decimal_text() {
    for (n, text) in [(0u64, "0"), (7, "7"), (10, "10"), (305, "305"), (u64::MAX, "18446744073709551615")] {
        let mut s = String::from("#");
        push_decimal(&mut s, n);
        assert_eq!(s, format!("#{}", text));
    }
}

#[test]
fn plan_has_one_alert_per_available_location() {
    let raw = raw_response(vec![
        raw_location("a", "Bronx", true, 1),
        raw_location("b", "Bronx", false, 1),
        raw_location("c", "Queens", true, 2),
    ]);
    let snap = decode_response(&raw).unwrap();
    let plan = plan_alerts(&snap);
    assert_eq!(plan.len(), 2);
    assert!(plan[0].contains("Site a") && plan[0].contains("CityVax"));
    assert!(plan[1].contains("Site c") && plan[1].contains("Queens"));
}

#[test]
fn one_cycle_with_one_available_location() {
    let mut s = Scheduler::new();
    assert!(matches!(s.step(Event::Tick), Action::Fetch));
    let raw = raw_response(vec![raw_location("a", "Bronx", true, 3), raw_location("b", "Bronx", false, 1)]);
    let expected = "Found 3 vaccine appoitnemnt(s)! The location is Site a in Bronx.\n\
                    Appointments can be booked through the CityVax portal, at https://x";
    let mut sends = 0;
    match s.step(Event::Fetched(raw)) {
        Action::Send(body) => {
            sends += 1;
            assert_eq!(body, expected);
        }
        other => panic!("unexpected {:?}", other),
    }
    assert!(matches!(s.step(Event::Sent), Action::Wait));
    assert_eq!(sends, 1);
    assert_eq!(s.phase(), Phase::Waiting);
}

#[test]
fn one_cycle_with_nothing_available() {
    let mut s = Scheduler::new();
    assert!(matches!(s.step(Event::Tick), Action::Fetch));
    let raw = raw_response(vec![raw_location("a", "Bronx", false, 0)]);
    assert!(matches!(s.step(Event::Fetched(raw)), Action::Wait));
    assert_eq!(s.phase(), Phase::Waiting);
    assert!(matches!(s.step(Event::Tick), Action::Fetch));
}

#[test]
fn cycles_send_in_list_order() {
    let mut s = Scheduler::new();
    s.step(Event::Tick);
    let raw = raw_response(vec![raw_location("a", "Bronx", true, 1), raw_location("b", "Queens", true, 2)]);
    match s.step(Event::Fetched(raw)) {
        Action::Send(body) => assert!(body.contains("Site a")),
        other => panic!("unexpected {:?}", other),
    }
    match s.step(Event::Sent) {
        Action::Send(body) => assert!(body.contains("Site b")),
        other => panic!("unexpected {:?}", other),
    }
    assert!(matches!(s.step(Event::Sent), Action::Wait));
}

fn assert_stays_stopped(s: &mut Scheduler, f: Fault) {
    assert_eq!(s.phase(), Phase::Stopped(f));
    assert!(matches!(s.step(Event::Tick), Action::Stop(g) if g == f));
    assert!(matches!(s.step(Event::Sent), Action::Stop(g) if g == f));
}

#[test]
fn fetch_failure_is_fatal() {
    let mut s = Scheduler::new();
    s.step(Event::Tick);
    assert!(matches!(s.step(Event::FetchFailed), Action::Stop(Fault::Fetch)));
    assert_stays_stopped(&mut s, Fault::Fetch);
}

#[test]
fn malformed_payload_is_fatal() {
    let mut s = Scheduler::new();
    s.step(Event::Tick);
    assert!(matches!(s.step(Event::Malformed), Action::Stop(Fault::Decode)));
    assert_stays_stopped(&mut s, Fault::Decode);

    let mut t = Scheduler::new();
    t.step(Event::Tick);
    let raw = raw_response(vec![raw_location("a", "Atlantis", true, 1)]);
    assert!(matches!(t.step(Event::Fetched(raw)), Action::Stop(Fault::Decode)));
    assert_stays_stopped(&mut t, Fault::Decode);
}

#[test]
fn send_failure_is_fatal() {
    let mut s = Scheduler::new();
    s.step(Event::Tick);
    let raw = raw_response(vec![raw_location("a", "Bronx", true, 1), raw_location("b", "Bronx", true, 1)]);
    assert!(matches!(s.step(Event::Fetched(raw)), Action::Send(_)));
    assert!(matches!(s.step(Event::SendFailed), Action::Stop(Fault::Send)));
    assert_stays_stopped(&mut s, Fault::Send);
}

#[test]
fn refused_alert_stops_after_earlier_ones_in_order() {
    let mut s = Scheduler::new();
    s.step(Event::Tick);
    let raw = raw_response(vec![
        raw_location("a", "Bronx", true, 1),
        raw_location("b", "Bronx", false, 1),
        raw_location("c", "Queens", true, 1),
        raw_location("d", "Queens", true, 1),
    ]);
    let mut sent = Vec::new();
    match s.step(Event::Fetched(raw)) {
        Action::Send(body) => sent.push(body),
        other => panic!("unexpected {:?}", other),
    }
    match s.step(Event::Sent) {
        Action::Send(body) => sent.push(body),
        other => panic!("unexpected {:?}", other),
    }
    assert!(matches!(s.step(Event::SendFailed), Action::Stop(Fault::Send)));
    assert_eq!(sent.len(), 2);
    assert!(sent[0].contains("Site a"));
    assert!(sent[1].contains("Site c"));
    assert_stays_stopped(&mut s, Fault::Send);
}

#[test]
fn unexpected_events_repeat_pending_action() {
    let mut s = Scheduler::new();
    assert!(matches!(s.step(Event::Sent), Action::Wait));
    assert_eq!(s.phase(), Phase::Waiting);
    s.step(Event::Tick);
    assert!(matches!(s.step(Event::Tick), Action::Fetch));
    assert_eq!(s.phase(), Phase::Fetching);
    let raw = raw_response(vec![raw_location("a", "Bronx", true, 1), raw_location("b", "Queens", true, 2)]);
    s.step(Event::Fetched(raw));
    match s.step(Event::Tick) {
        Action::Send(body) => assert!(body.contains("Site a")),
        other => panic!("unexpected {:?}", other),
    }
    assert_eq!(s.phase(), Phase::Sending);
}
