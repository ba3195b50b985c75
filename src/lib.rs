//! Anonymising transcoder for calendar documents: a parsed calendar tree is
//! filtered through a per-component policy and re-emitted as calendar text.

pub mod error;
pub mod filter;
pub mod laws;
pub mod model;
pub mod policy;
pub mod pseudonym;
pub mod render;
pub mod text;
pub mod transcode;

pub use error::{TranscodeError, Unsupported};
pub use filter::unknown_properties;
pub use model::{Calendar, Config, Event, HeaderStyle, Mode, Property, Timezone, UnknownPolicy};
pub use policy::{classify, Action, ComponentKind};
pub use pseudonym::pseudonymize;
pub use render::{build_property, render_property, ParamStyle, Params};
pub use transcode::generate_ics;
