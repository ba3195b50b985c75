//! The policy table: what becomes of each property, by component kind and name.
use vstd::prelude::*;
use crate::text::{is_prefix, str_eq, starts_with};

verus! {

/// The kinds of component whose properties the transcoder filters.
#[derive(Clone, Copy, Debug, PartialEq, Eq, Structural)]
pub enum ComponentKind {
    Calendar,
    Timezone,
    TimezoneTransition,
    Event,
}

/// What the policy decides for one property.
///
/// A conditional pass is resolved against the property's value when the
/// property is classified, so it arrives here as `Pass` or `Drop`.
#[derive(Clone, Copy, Debug, PartialEq, Eq, Structural)]
pub enum Action {
    /// Rendered verbatim.
    Pass,
    /// Omitted from the output.
    Drop,
    /// Rendered with its value replaced by a keyed hash.
    Pseudonymize,
    /// Not listed for its kind: the unknown-property policy decides.
    Unknown,
}


/// The policy table, row by row.
pub open spec fn action_of(kind: ComponentKind, name: Seq<char>, value: Option<Seq<char>>) -> Action {
    match kind {
        ComponentKind::Calendar => {
            if name == "CALSCALE"@ {
                Action::Pass
            } else if name == "VERSION"@ {
                if value == Some("2.0"@) { Action::Pass } else { Action::Drop }
            } else if name == "METHOD"@ || name == "PRODID"@ || name == "REFRESH-INTERVAL"@
                || is_prefix("X-"@, name) {
                Action::Drop
            } else {
                Action::Unknown
            }
        },
        ComponentKind::Timezone => {
            if name == "TZID"@ { Action::Pass } else { Action::Unknown }
        },
        ComponentKind::TimezoneTransition => {
            if name == "DTSTART"@ || name == "RRULE"@ || name == "TZNAME"@
                || name == "TZOFFSETFROM"@ || name == "TZOFFSETTO"@ {
                Action::Pass
            } else {
                Action::Unknown
            }
        },
        ComponentKind::Event => {
            if name == "DTSTART"@ || name == "DTEND"@ || name == "EXDATE"@ || name == "EXRULE"@
                || name == "RDATE"@ || name == "RRULE"@ || name == "SEQUENCE"@
                || name == "STATUS"@ {
                Action::Pass
            } else if name == "UID"@ {
                Action::Pseudonymize
            } else if name == "CREATED"@ || name == "DTSTAMP"@ || name == "DESCRIPTION"@
                || name == "LAST-MODIFIED"@ || name == "LOCATION"@ || name == "SUMMARY"@
                || name == "URL"@ {
                Action::Drop
            } else {
                Action::Unknown
            }
        },
    }
}

fn value_is(value: &Option<String>, expected: &str) -> (r: bool)
    ensures
        r == (value.deep_view() == Some(expected@)),
{
    match value {
        Some(v) => str_eq(v.as_str(), expected),
        None => false,
    }
}

/// Looks up the action for a property of the given kind, name and value.
pub fn classify(kind: ComponentKind, name: &str, value: &Option<String>) -> (r: Action)
    ensures
        r == action_of(kind, name@, value.deep_view()),
{
    match kind {
        ComponentKind::Calendar => {
            if str_eq(name, "CALSCALE") {
                Action::Pass
            } else if str_eq(name, "VERSION") {
                if value_is(value, "2.0") { Action::Pass } else { Action::Drop }
            } else if str_eq(name, "METHOD") || str_eq(name, "PRODID")
                || str_eq(name, "REFRESH-INTERVAL") || starts_with(name, "X-") {
                Action::Drop
            } else {
                Action::Unknown
            }
        },
        ComponentKind::Timezone => {
            if str_eq(name, "TZID") { Action::Pass } else { Action::Unknown }
        },
        ComponentKind::TimezoneTransition => {
            if str_eq(name, "DTSTART") || str_eq(name, "RRULE") || str_eq(name, "TZNAME")
                || str_eq(name, "TZOFFSETFROM") || str_eq(name, "TZOFFSETTO") {
                Action::Pass
            } else {
                Action::Unknown
            }
        },
        ComponentKind::Event => {
            if str_eq(name, "DTSTART") || str_eq(name, "DTEND") || str_eq(name, "EXDATE")
                || str_eq(name, "EXRULE") || str_eq(name, "RDATE") || str_eq(name, "RRULE")
                || str_eq(name, "SEQUENCE") || str_eq(name, "STATUS") {
                Action::Pass
            } else if str_eq(name, "UID") {
                Action::Pseudonymize
            } else if str_eq(name, "CREATED") || str_eq(name, "DTSTAMP")
                || str_eq(name, "DESCRIPTION") || str_eq(name, "LAST-MODIFIED")
                || str_eq(name, "LOCATION") || str_eq(name, "SUMMARY") || str_eq(name, "URL") {
                Action::Drop
            } else {
                Action::Unknown
            }
        },
    }
}

} // verus!
