//! What the host environment supplies: the platform, the language,
//! the clock and fresh gids.
//!
//! Everything environment-dependent sits behind a small trusted
//! wrapper; the rules that turn those raw readings into envelope
//! metadata are verified functions on plain values.

use vstd::prelude::*;

use std::time::Duration;
use std::time::SystemTime;

use crate::error::Error;

verus! {

use rand::RngExt;

/// The browser user-agent text stamped on exports made on Linux.
pub const USER_AGENT_LINUX: &'static str =
    "Mozilla/5.0 (X11; Linux x86_64) AppleWebKit/537.36 (KHTML, like Gecko) Chrome/111.0.0.0 Safari/537.36";

/// The browser user-agent text stamped on exports made on macOS.
pub const USER_AGENT_MACOS: &'static str =
    "Mozilla/5.0 (Macintosh; Intel Mac OS X 10_15_7) AppleWebKit/537.36 (KHTML, like Gecko) Chrome/111.0.0.0 Safari/537.36";

/// The browser user-agent text stamped on exports made on Windows.
pub const USER_AGENT_WINDOWS: &'static str =
    "Mozilla/5.0 (Windows NT 10.0; Win64; x64) AppleWebKit/537.36 (KHTML, like Gecko) Chrome/111.0.0.0 Safari/537.36 Edg/111.0.1661.41";

/// The host platforms the envelope metadata distinguishes.
#[derive(Debug, Clone, Copy, PartialEq, Eq, Structural)]
pub enum PlatformKind {
    Windows,
    Linux,
    MacOs,
    Other,
}

/// Relies on whoami::platform: the platform the host reports, folded
/// onto the kinds the envelope metadata distinguishes.
#[verifier::external_body]
pub fn host_platform_kind() -> PlatformKind {
    match whoami::platform() {
        whoami::Platform::Windows => PlatformKind::Windows,
        whoami::Platform::Linux => PlatformKind::Linux,
        whoami::Platform::Mac => PlatformKind::MacOs,
        _ => PlatformKind::Other,
    }
}

/// Relies on whoami::platform and its Display impl: the host
/// platform's display name.
#[verifier::external_body]
pub fn host_platform_name() -> String {
    whoami::platform().to_string()
}

/// Relies on whoami::lang_prefs: the user's most preferred message
/// language, as its display text, when the host reports one.
#[verifier::external_body]
pub fn host_language() -> Option<String> {
    match whoami::lang_prefs() {
        Ok(p) => p.message_langs().next().map(|l| l.to_string()),
        Err(_) => None,
    }
}

/// Relies on SystemTime::now and duration_since: the wall-clock time
/// elapsed since the Unix epoch. Panics only on a clock that reads
/// before the epoch.
#[verifier::external_body]
pub fn ts() -> Duration {
    SystemTime::now().duration_since(SystemTime::UNIX_EPOCH).unwrap()
}

/// Relies on chrono's Utc::now and to_rfc3339: the current wall-clock
/// time, as RFC 3339 text; whatever instant the clock reads, the text
/// is valid RFC 3339.
#[verifier::external_body]
pub fn now_rfc3339() -> (r: String)
    ensures
        crate::timestamp::is_rfc3339(r@),
{
    chrono::Utc::now().to_rfc3339()
}

/// A character a gid may hold: an ASCII letter or digit.
pub open spec fn is_gid_char(c: char) -> bool {
    (65 <= (c as u32) && (c as u32) <= 90) || (97 <= (c as u32) && (c as u32) <= 122) || (48 <= (
    c as u32) && (c as u32) <= 57)
}

/// Relies on rand's Alphanumeric distribution: each sampled byte is
/// an ASCII letter or digit, drawn uniformly.
#[verifier::external_body]
pub fn generate_gid() -> (r: String)
    ensures
        r@.len() == 32,
        forall|i: int| 0 <= i < 32 ==> is_gid_char(r@[i]),
{
    rand::rng().sample_iter(rand::distr::Alphanumeric).take(32).map(char::from).collect()
}

/// The platform name the envelope carries: the text the host reports,
/// except on Windows, where the extension writes its own label.
pub fn platform_label(kind: PlatformKind, reported: String) -> (r: String)
    ensures
        kind == PlatformKind::Windows ==> r@ == "Win32"@,
        kind != PlatformKind::Windows ==> r@ == reported@,
{
    if kind == PlatformKind::Windows {
        String::from_str("Win32")
    } else {
        reported
    }
}

/// The user-agent text for a host platform; a platform the engine
/// does not recognize cannot be stamped into an envelope.
pub fn user_agent_for(kind: PlatformKind) -> (r: Result<String, Error>)
    ensures
        kind == PlatformKind::Windows ==> (r matches Ok(s) && s@ == USER_AGENT_WINDOWS@),
        kind == PlatformKind::Linux ==> (r matches Ok(s) && s@ == USER_AGENT_LINUX@),
        kind == PlatformKind::MacOs ==> (r matches Ok(s) && s@ == USER_AGENT_MACOS@),
        kind == PlatformKind::Other ==> (r matches Err(e) && e == Error::UnsupportedPlatform),
{
    match kind {
        PlatformKind::Windows => Ok(String::from_str(USER_AGENT_WINDOWS)),
        PlatformKind::Linux => Ok(String::from_str(USER_AGENT_LINUX)),
        PlatformKind::MacOs => Ok(String::from_str(USER_AGENT_MACOS)),
        PlatformKind::Other => Err(Error::UnsupportedPlatform),
    }
}

/// The language tag the envelope carries: what the host reports, with
/// the tag's separator normalized, or a plain default when the host
/// reports none.
pub fn language_tag(reported: Option<String>) -> (r: String)
    ensures
        reported is None ==> r@ == "en-US"@,
        reported matches Some(s) ==> r@ == spec_dash_separated(s@),
{
    match reported {
        Option::None => String::from_str("en-US"),
        Option::Some(s) => {
            let n = s.as_str().unicode_len();
            let mut out: Vec<char> = Vec::new();
            let mut i: usize = 0;
            while i < n
                invariant
                    n == s@.len(),
                    i <= n,
                    out@ == spec_dash_separated(s@).subrange(0, i as int),
                decreases n - i,
            {
                let c = s.as_str().get_char(i);
                let d: char = if c == '/' {
                    '-'
                } else {
                    c
                };
                out.push(d);
                i += 1;
                proof {
                    assert(out@ =~= spec_dash_separated(s@).subrange(0, i as int));
                }
            }
            proof {
                assert(out@ =~= spec_dash_separated(s@));
            }
            crate::json_text::chars_to_string(&out)
        },
    }
}

/// The text with every slash replaced by a dash.
pub open spec fn spec_dash_separated(s: Seq<char>) -> Seq<char> {
    Seq::new(
        s.len(),
        |i: int|
            if s[i] == '/' {
                '-'
            } else {
                s[i]
            },
    )
}

} // verus!
