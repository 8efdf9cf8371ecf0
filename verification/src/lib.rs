//! Session Buddy store tooling: the data model of browser session
//! snapshots, the JSON interchange codec, and the mapping between the
//! relational storage form and the interchange form.

pub mod backup;
pub mod error;
pub mod host;
pub mod json;
pub mod json_parse;
pub mod json_text;
pub mod schema;
pub mod session;
pub mod settings;
pub mod tab;
pub mod timestamp;
pub mod util;
pub mod window;

use vstd::prelude::*;

verus! {

/// Extension id of the Session Buddy browser extension, stamped into
/// every interchange envelope.
pub const SESSION_BUDDY_APPID: &'static str = "edacconmaakjimmfgnblocblbcdcpbko";

/// Format identifier of the interchange document.
pub const SESSION_BUDDY_FORMAT: &'static str = "nxs.json.v1";

/// Version of the interchange format's origin, stamped into the envelope.
pub const SESSION_BUDDY_VERSION: &'static str = "3.6.4";

} // verus!
