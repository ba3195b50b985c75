use ics_tools::{build_property, render_property, ParamStyle};

fn params(list: &[(&str, &[&str])]) -> Option<Vec<(String, Vec<String>)>> {
    Some(
        list.iter()
            .map(|(n, vs)| (n.to_string(), vs.iter().map(|v| v.to_string()).collect()))
            .collect(),
    )
}

#[test]
fn bare_multi_value_parameter() {
    let line = build_property("NAME", &params(&[("TZID", &["x", "y"])]), &Some("v".to_string()));
    assert_eq!(line, "NAME;TZID=x,y:v\n");
}

#[test]
fn bare_line_survives_reparse() {
    let line = build_property("NAME", &params(&[("TZID", &["x", "y"])]), &Some("v".to_string()));
    let parsed = ical::PropertyParser::from_reader(line.as_bytes())
        .next()
        .expect("one line")
        .expect("a valid line");
    let again = build_property(&parsed.name, &parsed.params, &parsed.value);
    assert_eq!(again, line);
}

#[test]
fn quoted_multi_value_parameter() {
    let line = render_property(
        "NAME",
        &params(&[("TZID", &["x", "y"])]),
        &Some("v".to_string()),
        ParamStyle::Quoted,
    );
    assert_eq!(line, "NAME;TZID=\"x\",\"y\":v\n");
}

#[test]
fn missing_value_keeps_colon() {
    assert_eq!(build_property("X", &None, &None), "X:\n");
}

#[test]
fn parameter_order_is_kept() {
    let line = build_property(
        "DTSTART",
        &params(&[("VALUE", &["DATE"]), ("TZID", &["Europe/Paris"]), ("A", &["1", "2", "3"])]),
        &Some("20240101".to_string()),
    );
    assert_eq!(line, "DTSTART;VALUE=DATE;TZID=Europe/Paris;A=1,2,3:20240101\n");
}

#[test]
fn parameter_without_values() {
    assert_eq!(build_property("N", &params(&[("P", &[])]), &Some("v".to_string())), "N;P=:v\n");
    assert_eq!(
        render_property("N", &params(&[("P", &[])]), &Some("v".to_string()), ParamStyle::Quoted),
        "N;P=\"\":v\n"
    );
}

