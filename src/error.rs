//! Why a transcode fails.
use vstd::prelude::*;
use crate::policy::ComponentKind;

verus! {

/// The kinds of component that the transcoder refuses to handle.
#[derive(Clone, Copy, Debug, PartialEq, Eq, Structural)]
pub enum Unsupported {
    Alarms,
    Todos,
    Journals,
    FreeBusys,
}

/// A failure of the transcoder. Any failure aborts the whole transcode.
#[derive(Clone, Debug, PartialEq, Eq)]
pub enum TranscodeError {
    /// The calendar holds components of a kind that is never handled.
    UnsupportedComponent(Unsupported),
    /// A property not listed for its component kind, under the strict policy.
    UnknownProperty(ComponentKind, String),
    /// A property to pseudonymize carries no value.
    MissingValue(ComponentKind, String),
    /// The pseudonymization seed is empty.
    MissingSeed,
    /// The keyed hasher could not be set up with the seed.
    HashInitFailed,
}

} // verus!
