use hmac::Mac;
use ics_tools::{
    classify, generate_ics, unknown_properties, Action, Calendar, ComponentKind, Config, Event, HeaderStyle, Mode,
    ParamStyle, Property, Timezone, TranscodeError, UnknownPolicy, Unsupported,
};

fn prop(name: &str, value: &str) -> Property {
    Property { name: name.to_string(), params: None, value: Some(value.to_string()) }
}

fn calendar(properties: Vec<Property>, timezones: Vec<Timezone>, events: Vec<Event>) -> Calendar {
    Calendar { properties, timezones, events, alarms: 0, todos: 0, journals: 0, free_busys: 0 }
}

fn anonymize(message: &str, seed: &str, unknown: UnknownPolicy) -> Config {
    Config {
        mode: Mode::Anonymize { message: message.to_string(), seed: seed.to_string() },
        unknown,
        header: HeaderStyle::Fixed,
        params: ParamStyle::Bare,
    }
}

fn ignore_matching(sentinel: &str, unknown: UnknownPolicy) -> Config {
    Config {
        mode: Mode::IgnoreMatching { sentinel: sentinel.to_string() },
        unknown,
        header: HeaderStyle::Fixed,
        params: ParamStyle::Bare,
    }
}

fn hmac_hex(seed: &str, id: &str) -> String {
    let mut mac = hmac::Hmac::<sha2::Sha256>::new_from_slice(seed.as_bytes()).unwrap();
    mac.update(id.as_bytes());
    hex::encode(mac.finalize().into_bytes())
}

#[test]
fn end_to_end_anonymize() {
    let ev = Event {
        properties: vec![
            prop("SUMMARY", "Dentist"),
            prop("UID", "abc123"),
            prop("DTSTART", "20240101T090000Z"),
        ],
    };
    let out = generate_ics(
        &calendar(vec![], vec![], vec![ev]),
        &anonymize("Busy", "s3cr3t", UnknownPolicy::Strict),
    )
    .unwrap();
    let expected = format!(
        "BEGIN:VCALENDAR\nVERSION:2.0\nPRODID:CALDAV-ANON\nBEGIN:VEVENT\nSUMMARY:Busy\n\
         DTSTAMP:20200101T000001Z\nUID:{}\nDTSTART:20240101T090000Z\nEND:VEVENT\nEND:VCALENDAR\n",
        hmac_hex("s3cr3t", "abc123")
    );
    assert_eq!(out, expected);
    assert!(out.contains("SUMMARY:Busy\n"));
    assert!(out.contains("DTSTART:20240101T090000Z\n"));
    assert!(!out.contains("Dentist"));
    assert!(!out.contains("abc123"));
}

#[test]
fn empty_calendar() {
    let out = generate_ics(&calendar(vec![], vec![], vec![]), &anonymize("Busy", "k", UnknownPolicy::Strict));
    assert_eq!(out.unwrap(), "BEGIN:VCALENDAR\nVERSION:2.0\nPRODID:CALDAV-ANON\nEND:VCALENDAR\n");
}

#[test]
fn refused_components_in_every_mode() {
    for cfg in [anonymize("Busy", "k", UnknownPolicy::Lenient), ignore_matching("x", UnknownPolicy::Lenient)] {
        let mut cal = calendar(vec![], vec![], vec![]);
        cal.alarms = 1;
        assert_eq!(generate_ics(&cal, &cfg), Err(TranscodeError::UnsupportedComponent(Unsupported::Alarms)));
        let mut cal = calendar(vec![], vec![], vec![]);
        cal.todos = 2;
        assert_eq!(generate_ics(&cal, &cfg), Err(TranscodeError::UnsupportedComponent(Unsupported::Todos)));
        let mut cal = calendar(vec![], vec![], vec![]);
        cal.journals = 1;
        assert_eq!(generate_ics(&cal, &cfg), Err(TranscodeError::UnsupportedComponent(Unsupported::Journals)));
        let mut cal = calendar(vec![], vec![], vec![]);
        cal.free_busys = 1;
        assert_eq!(generate_ics(&cal, &cfg), Err(TranscodeError::UnsupportedComponent(Unsupported::FreeBusys)));
    }
}

#[test]
fn strict_fails_lenient_drops_unknown() {
    let ev = Event { properties: vec![prop("DTSTART", "20240101T090000Z"), prop("ORGANIZER", "me")] };
    let cal = calendar(vec![], vec![], vec![ev]);
    assert_eq!(
        generate_ics(&cal, &ignore_matching("x", UnknownPolicy::Strict)),
        Err(TranscodeError::UnknownProperty(ComponentKind::Event, "ORGANIZER".to_string()))
    );
    let out = generate_ics(&cal, &ignore_matching("x", UnknownPolicy::Lenient)).unwrap();
    assert_eq!(
        out,
        "BEGIN:VCALENDAR\nVERSION:2.0\nPRODID:CALDAV-ANON\nBEGIN:VEVENT\nDTSTART:20240101T090000Z\nEND:VEVENT\nEND:VCALENDAR\n"
    );
}

#[test]
fn strict_fails_on_unknown_calendar_and_timezone_properties() {
    let cal = calendar(vec![prop("COLOR", "red")], vec![], vec![]);
    assert_eq!(
        generate_ics(&cal, &anonymize("Busy", "k", UnknownPolicy::Strict)),
        Err(TranscodeError::UnknownProperty(ComponentKind::Calendar, "COLOR".to_string()))
    );
    let tz = Timezone { properties: vec![prop("TZID", "Z"), prop("TZURL", "u")], transitions: vec![] };
    let cal = calendar(vec![], vec![tz], vec![]);
    assert_eq!(
        generate_ics(&cal, &anonymize("Busy", "k", UnknownPolicy::Strict)),
        Err(TranscodeError::UnknownProperty(ComponentKind::Timezone, "TZURL".to_string()))
    );
    let tz = Timezone { properties: vec![], transitions: vec![vec![prop("COMMENT", "c")]] };
    let cal = calendar(vec![], vec![tz], vec![]);
    assert_eq!(
        generate_ics(&cal, &anonymize("Busy", "k", UnknownPolicy::Strict)),
        Err(TranscodeError::UnknownProperty(ComponentKind::TimezoneTransition, "COMMENT".to_string()))
    );
}

#[test]
fn ignore_matching_skips_sentinel_events() {
    let skipped = Event { properties: vec![prop("SUMMARY", "private"), prop("DTSTART", "1"), prop("X-UNKNOWN", "y")] };
    let kept = Event { properties: vec![prop("SUMMARY", "Meeting"), prop("UID", "u1"), prop("DTEND", "2")] };
    let none = Event { properties: vec![prop("DTSTART", "3")] };
    let out = generate_ics(
        &calendar(vec![], vec![], vec![skipped, kept, none]),
        &ignore_matching("private", UnknownPolicy::Strict),
    )
    .unwrap();
    assert_eq!(
        out,
        "BEGIN:VCALENDAR\nVERSION:2.0\nPRODID:CALDAV-ANON\nBEGIN:VEVENT\nUID:u1\nDTEND:2\nEND:VEVENT\n\
         BEGIN:VEVENT\nDTSTART:3\nEND:VEVENT\nEND:VCALENDAR\n"
    );
    assert!(!out.contains("SUMMARY"));
}

#[test]
fn anonymize_replaces_summary_and_uid() {
    let ev = Event { properties: vec![prop("UID", "id-1"), prop("SUMMARY", "Lunch"), prop("LOCATION", "Cafe")] };
    let out = generate_ics(&calendar(vec![], vec![], vec![ev]), &anonymize("Taken", "seed", UnknownPolicy::Strict)).unwrap();
    assert_eq!(out.matches("SUMMARY:").count(), 1);
    assert!(out.contains("SUMMARY:Taken\n"));
    assert!(out.contains(&format!("UID:{}\n", hmac_hex("seed", "id-1"))));
    assert!(!out.contains("Lunch"));
    assert!(!out.contains("Cafe"));
}

#[test]
fn uid_without_value_is_refused() {
    let ev = Event { properties: vec![Property { name: "UID".to_string(), params: None, value: None }] };
    assert_eq!(
        generate_ics(&calendar(vec![], vec![], vec![ev]), &anonymize("Busy", "k", UnknownPolicy::Strict)),
        Err(TranscodeError::MissingValue(ComponentKind::Event, "UID".to_string()))
    );
}

#[test]
fn empty_seed_fails_transcode() {
    let ev = Event { properties: vec![prop("UID", "u")] };
    assert_eq!(
        generate_ics(&calendar(vec![], vec![], vec![ev]), &anonymize("Busy", "", UnknownPolicy::Strict)),
        Err(TranscodeError::MissingSeed)
    );
}

#[test]
fn timezones_and_transitions() {
    let tz = Timezone {
        properties: vec![prop("TZID", "Europe/Paris")],
        transitions: vec![
            vec![prop("DTSTART", "19700329T020000"), prop("TZOFFSETFROM", "+0100"), prop("TZOFFSETTO", "+0200")],
            vec![prop("TZNAME", "CET")],
        ],
    };
    let out = generate_ics(&calendar(vec![], vec![tz], vec![]), &ignore_matching("x", UnknownPolicy::Strict)).unwrap();
    assert_eq!(
        out,
        "BEGIN:VCALENDAR\nVERSION:2.0\nPRODID:CALDAV-ANON\nBEGIN:VTIMEZONE\nTZID:Europe/Paris\n\
         BEGIN:STANDARD\nDTSTART:19700329T020000\nTZOFFSETFROM:+0100\nTZOFFSETTO:+0200\nEND:STANDARD\n\
         BEGIN:STANDARD\nTZNAME:CET\nEND:STANDARD\nEND:VTIMEZONE\nEND:VCALENDAR\n"
    );
}

#[test]
fn calendar_properties_and_pass_through_header() {
    let props = vec![
        prop("PRODID", "-//Remote//EN"),
        prop("VERSION", "2.0"),
        prop("CALSCALE", "GREGORIAN"),
        prop("METHOD", "PUBLISH"),
        prop("X-WR-CALNAME", "Private"),
        prop("REFRESH-INTERVAL", "P1H"),
    ];
    let mut cfg = ignore_matching("x", UnknownPolicy::Strict);
    cfg.header = HeaderStyle::PassThrough;
    let out = generate_ics(&calendar(props, vec![], vec![]), &cfg).unwrap();
    assert_eq!(
        out,
        "BEGIN:VCALENDAR\nPRODID:-//Remote//EN\nVERSION:2.0\nVERSION:2.0\nCALSCALE:GREGORIAN\nEND:VCALENDAR\n"
    );
}

#[test]
fn version_other_than_two_is_dropped() {
    let out = generate_ics(
        &calendar(vec![prop("VERSION", "1.0")], vec![], vec![]),
        &anonymize("Busy", "k", UnknownPolicy::Strict),
    )
    .unwrap();
    assert_eq!(out, "BEGIN:VCALENDAR\nVERSION:2.0\nPRODID:CALDAV-ANON\nEND:VCALENDAR\n");
}

#[test]
fn policy_table_lookups() {
    assert_eq!(classify(ComponentKind::Calendar, "CALSCALE", &None), Action::Pass);
    assert_eq!(classify(ComponentKind::Calendar, "VERSION", &Some("2.0".to_string())), Action::Pass);
    assert_eq!(classify(ComponentKind::Calendar, "VERSION", &Some("1.0".to_string())), Action::Drop);
    assert_eq!(classify(ComponentKind::Calendar, "X-ANYTHING", &None), Action::Drop);
    assert_eq!(classify(ComponentKind::Calendar, "X", &None), Action::Unknown);
    assert_eq!(classify(ComponentKind::Timezone, "TZID", &None), Action::Pass);
    assert_eq!(classify(ComponentKind::Timezone, "DTSTART", &None), Action::Unknown);
    assert_eq!(classify(ComponentKind::TimezoneTransition, "TZOFFSETTO", &None), Action::Pass);
    assert_eq!(classify(ComponentKind::Event, "UID", &None), Action::Pseudonymize);
    assert_eq!(classify(ComponentKind::Event, "URL", &None), Action::Drop);
    assert_eq!(classify(ComponentKind::Event, "uid", &None), Action::Unknown);
}

#[test]
fn quoted_parameters_in_events() {
    let ev = Event {
        properties: vec![Property {
            name: "DTSTART".to_string(),
            params: Some(vec![("TZID".to_string(), vec!["A".to_string(), "B".to_string()])]),
            value: Some("1".to_string()),
        }],
    };
    let mut cfg = ignore_matching("x", UnknownPolicy::Strict);
    cfg.params = ParamStyle::Quoted;
    let out = generate_ics(&calendar(vec![], vec![], vec![ev]), &cfg).unwrap();
    assert!(out.contains("BEGIN:VEVENT\nDTSTART;TZID=\"A\",\"B\":1\nEND:VEVENT\n"));
}

#[test]
fn unknown_properties_are_listed_in_order() {
    let props = vec![prop("ORGANIZER", "a"), prop("DTSTART", "1"), prop("SUMMARY", "s"), prop("ATTENDEE", "b")];
    assert_eq!(unknown_properties(ComponentKind::Event, &props), vec!["ORGANIZER".to_string(), "ATTENDEE".to_string()]);
    assert!(unknown_properties(ComponentKind::Timezone, &vec![prop("TZID", "Z")]).is_empty());
}
