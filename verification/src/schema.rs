//! The canonical relational schema of a store, and the rule for
//! creating one.
//!
//! The five tables are the fixed set the browser extension writes;
//! their column names stay in lock-step with the interchange field
//! names wherever a field is shared. The whole definition is one
//! executable statement, run as one transaction when a store is
//! created.

use vstd::prelude::*;

use crate::error::Error;

verus! {

/// The store's five tables, as one executable definition.
pub const SCHEMA: &'static str = "
CREATE TABLE Settings (
    key TEXT PRIMARY KEY,
    value NUMERIC);

CREATE TABLE UserSettings (
    key TEXT PRIMARY KEY,
    value NUMERIC);

CREATE TABLE Undo (
    id INTEGER PRIMARY KEY AUTOINCREMENT,
    creationDateTime NUMERIC,
    tabIdentifier TEXT,
    action TEXT,
    description TEXT,
    register1 TEXT,
    register2 TEXT,
    register3 TEXT,
    register4 TEXT,
    register5 TEXT);

CREATE TABLE SavedSessions (
    id INTEGER PRIMARY KEY AUTOINCREMENT,
    name TEXT,
    generationDateTime NUMERIC,
    creationDateTime NUMERIC,
    modificationDateTime NUMERIC,
    tags TEXT,
    users TEXT,
    deleted TEXT,
    thumbnail TEXT,
    windows TEXT,
    unfilteredWindowCount INTEGER,
    filteredWindowCount INTEGER,
    unfilteredTabCount INTEGER,
    filteredTabCount INTEGER);

CREATE TABLE PreviousSessions (
    id INTEGER PRIMARY KEY AUTOINCREMENT,
    recordingDateTime NUMERIC,
    creationDateTime NUMERIC,
    users TEXT,
    deleted TEXT,
    thumbnail TEXT,
    windows TEXT,
    unfilteredWindowCount INTEGER,
    filteredWindowCount INTEGER,
    unfilteredTabCount INTEGER,
    filteredTabCount INTEGER);
";

/// The insert statement for one saved session; the store assigns the
/// identifier, and the ignored columns stay empty.
pub const INSERT_SAVED_SESSION: &'static str = "
INSERT INTO SavedSessions (
    name,
    generationDateTime,
    creationDateTime,
    modificationDateTime,
    tags,
    deleted,
    windows,
    unfilteredWindowCount,
    filteredWindowCount,
    unfilteredTabCount,
    filteredTabCount
) VALUES ($1, $2, $3, $4, $5, $6, $7, $8, $9, $10, $11)
";

/// Whether a store may be created at a path: an existing store is
/// only overwritten when creation is explicitly forced.
pub fn creation_allowed(exists: bool, force: bool) -> (r: Result<(), Error>)
    ensures
        r is Ok <==> ((!exists) || force),
        r is Err ==> r->Err_0 == Error::StoreAlreadyExists,
{
    if exists && !force {
        Err(Error::StoreAlreadyExists)
    } else {
        Ok(())
    }
}

} // verus!
