//! The typed settings records and the query text of the settings
//! accessor.
//!
//! The accessor itself issues point lookups against a key/value table
//! of the store; the query text built here is what it runs. A value
//! read back from the store arrives as a `StringValue` row.

use vstd::prelude::*;

verus! {

/// The known per-user settings; any key absent from storage is simply
/// absent here, never defaulted.
#[derive(Debug, Clone)]
pub struct UserSettings {
    /// The export format the user chose.
    pub session_export_format: Option<String>,
    /// The export scope the user chose.
    pub session_export_scope: Option<String>,
    /// Whether exports show titles, as stored text.
    pub session_export_show_titles: Option<String>,
    /// Whether exports show URLs, as stored text.
    pub session_export_show_urls: Option<String>,
}

impl UserSettings {
    /// A settings record with every key absent.
    pub fn new() -> (r: UserSettings)
        ensures
            r.session_export_format is None,
            r.session_export_scope is None,
            r.session_export_show_titles is None,
            r.session_export_show_urls is None,
    {
        UserSettings {
            session_export_format: None,
            session_export_scope: None,
            session_export_show_titles: None,
            session_export_show_urls: None,
        }
    }
}

/// One value read back from a key/value settings table.
#[derive(Debug, Clone)]
pub struct StringValue {
    /// The stored value, as text.
    pub value: String,
}

/// The parameterized point-lookup query against a named key/value
/// table; the single parameter is the key.
pub fn setting_query(table: &str) -> (q: String)
    ensures
        q@ == "SELECT value FROM "@ + table@ + " WHERE key = ?"@,
{
    let q = String::from_str("SELECT value FROM ").concat(table).concat(" WHERE key = ?");
    proof {
        assert(q@ =~= "SELECT value FROM "@ + table@ + " WHERE key = ?"@);
    }
    q
}

} // verus!
