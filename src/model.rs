//! The parsed calendar tree that the transcoder reads, and its configuration.
use vstd::prelude::*;
use crate::render::{ParamStyle, Params};

verus! {

/// One property: a name, optional ordered parameters and an optional value.
#[derive(Clone, Debug, PartialEq, Eq)]
pub struct Property {
    pub name: String,
    pub params: Option<Params>,
    pub value: Option<String>,
}

/// A timezone: its own properties, then each transition's properties.
#[derive(Clone, Debug, PartialEq, Eq)]
pub struct Timezone {
    pub properties: Vec<Property>,
    pub transitions: Vec<Vec<Property>>,
}

/// An event. Alarms nested in an event are never read, so they are not held.
#[derive(Clone, Debug, PartialEq, Eq)]
pub struct Event {
    pub properties: Vec<Property>,
}

/// A parsed calendar. Of the kinds of component that are always refused
/// only the number found is held.
#[derive(Clone, Debug, PartialEq, Eq)]
pub struct Calendar {
    pub properties: Vec<Property>,
    pub timezones: Vec<Timezone>,
    pub events: Vec<Event>,
    pub alarms: usize,
    pub todos: usize,
    pub journals: usize,
    pub free_busys: usize,
}

/// What becomes of a property that the policy table does not list.
#[derive(Clone, Copy, Debug, PartialEq, Eq, Structural)]
pub enum UnknownPolicy {
    /// The whole transcode fails.
    Strict,
    /// The property is left out.
    Lenient,
}

/// How the calendar header is written.
#[derive(Clone, Copy, Debug, PartialEq, Eq, Structural)]
pub enum HeaderStyle {
    /// `VERSION:2.0` and a fixed `PRODID`.
    Fixed,
    /// The calendar's own `VERSION` and `PRODID` properties, as they are.
    PassThrough,
}

/// How events are treated; a deployment picks one.
#[derive(Clone, Debug, PartialEq, Eq)]
pub enum Mode {
    /// Every event gets `message` as its summary and a fixed stamp, and its
    /// UID is replaced by its pseudonym under `seed`.
    Anonymize { message: String, seed: String },
    /// Events whose summary is `sentinel` are left out; the others keep their
    /// permitted properties unchanged, UID included.
    IgnoreMatching { sentinel: String },
}

/// The transcoder's configuration.
#[derive(Clone, Debug, PartialEq, Eq)]
pub struct Config {
    pub mode: Mode,
    pub unknown: UnknownPolicy,
    pub header: HeaderStyle,
    pub params: ParamStyle,
}

} // verus!
