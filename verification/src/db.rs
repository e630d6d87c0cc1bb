//! Versioned, forward-only schema migrations. Each migration runs in its
//! own transaction and its version is recorded only after it commits, so a
//! failure leaves the database at its last good version. The baseline
//! (version 1) is laid down when a vault is created.

use vstd::prelude::*;

verus! {

/// A single forward migration producing schema `version`. Its SQL must be
/// transaction-safe; the runner wraps it in a transaction.
#[derive(Debug, Clone, Copy)]
pub struct Migration {
    pub version: u32,
    pub description: &'static str,
    pub sql: &'static str,
}

/// The number of migrations beyond the baseline.
pub const MIGRATION_COUNT: usize = 3;

/// The baseline schema version every vault starts from.
pub const BASELINE_VERSION: u32 = 1;

/// The description of the `i`-th migration.
pub open spec fn migration_description(i: int) -> Seq<char> {
    if i == 0 {
        "knowledge_records table"@
    } else if i == 1 {
        "conversations and messages"@
    } else {
        "sources table"@
    }
}

/// The SQL of the `i`-th migration.
pub open spec fn migration_sql(i: int) -> Seq<char> {
    if i == 0 {
        "CREATE TABLE IF NOT EXISTS knowledge_records (
                record_id      TEXT PRIMARY KEY,
                record_type    TEXT NOT NULL,
                canonical_text TEXT NOT NULL,
                status         TEXT NOT NULL,
                sensitivity    TEXT NOT NULL DEFAULT 'normal',
                created_at     TEXT NOT NULL,
                updated_at     TEXT NOT NULL,
                schema_version INTEGER NOT NULL DEFAULT 1
              );
              CREATE INDEX IF NOT EXISTS knowledge_records_status
                  ON knowledge_records(status);"@
    } else if i == 1 {
        "CREATE TABLE IF NOT EXISTS conversations (
                conversation_id TEXT PRIMARY KEY,
                title           TEXT,
                created_at      TEXT NOT NULL,
                updated_at      TEXT NOT NULL
              );
              CREATE TABLE IF NOT EXISTS messages (
                message_id      TEXT PRIMARY KEY,
                conversation_id TEXT NOT NULL REFERENCES conversations(conversation_id),
                role            TEXT NOT NULL,
                content         TEXT NOT NULL,
                created_at      TEXT NOT NULL,
                seq             INTEGER NOT NULL
              );
              CREATE INDEX IF NOT EXISTS messages_conversation
                  ON messages(conversation_id, seq);"@
    } else {
        "CREATE TABLE IF NOT EXISTS sources (
                source_id   TEXT PRIMARY KEY,
                kind        TEXT NOT NULL,
                name        TEXT NOT NULL,
                checksum    TEXT NOT NULL,
                imported_at TEXT NOT NULL,
                status      TEXT NOT NULL DEFAULT 'active'
              );"@
    }
}

fn description_at(i: usize) -> (s: &'static str)
    requires
        i < MIGRATION_COUNT,
    ensures
        s@ == migration_description(i as int),
{
    if i == 0 {
        "knowledge_records table"
    } else if i == 1 {
        "conversations and messages"
    } else {
        "sources table"
    }
}

fn sql_at(i: usize) -> (s: &'static str)
    requires
        i < MIGRATION_COUNT,
    ensures
        s@ == migration_sql(i as int),
{
    if i == 0 {
        "CREATE TABLE IF NOT EXISTS knowledge_records (
                record_id      TEXT PRIMARY KEY,
                record_type    TEXT NOT NULL,
                canonical_text TEXT NOT NULL,
                status         TEXT NOT NULL,
                sensitivity    TEXT NOT NULL DEFAULT 'normal',
                created_at     TEXT NOT NULL,
                updated_at     TEXT NOT NULL,
                schema_version INTEGER NOT NULL DEFAULT 1
              );
              CREATE INDEX IF NOT EXISTS knowledge_records_status
                  ON knowledge_records(status);"
    } else if i == 1 {
        "CREATE TABLE IF NOT EXISTS conversations (
                conversation_id TEXT PRIMARY KEY,
                title           TEXT,
                created_at      TEXT NOT NULL,
                updated_at      TEXT NOT NULL
              );
              CREATE TABLE IF NOT EXISTS messages (
                message_id      TEXT PRIMARY KEY,
                conversation_id TEXT NOT NULL REFERENCES conversations(conversation_id),
                role            TEXT NOT NULL,
                content         TEXT NOT NULL,
                created_at      TEXT NOT NULL,
                seq             INTEGER NOT NULL
              );
              CREATE INDEX IF NOT EXISTS messages_conversation
                  ON messages(conversation_id, seq);"
    } else {
        "CREATE TABLE IF NOT EXISTS sources (
                source_id   TEXT PRIMARY KEY,
                kind        TEXT NOT NULL,
                name        TEXT NOT NULL,
                checksum    TEXT NOT NULL,
                imported_at TEXT NOT NULL,
                status      TEXT NOT NULL DEFAULT 'active'
              );"
    }
}

/// The ordered migrations beyond the baseline. Their versions are
/// contiguous and increasing: the `i`-th produces version `i + 2`.
pub fn migrations() -> (ms: Vec<Migration>)
    ensures
        ms@.len() == MIGRATION_COUNT,
        forall|i: int| 0 <= i < ms@.len() ==> {
            &&& (#[trigger] ms@[i]).version == i + 2
            &&& ms@[i].description@ == migration_description(i)
            &&& ms@[i].sql@ == migration_sql(i)
        },
{
    let mut ms: Vec<Migration> = Vec::new();
    let mut i: usize = 0;
    while i < MIGRATION_COUNT
        invariant
            i <= MIGRATION_COUNT,
            ms@.len() == i,
            forall|k: int| 0 <= k < ms@.len() ==> {
                &&& (#[trigger] ms@[k]).version == k + 2
                &&& ms@[k].description@ == migration_description(k)
                &&& ms@[k].sql@ == migration_sql(k)
            },
        decreases MIGRATION_COUNT - i,
    {
        ms.push(Migration { version: (i + 2) as u32, description: description_at(i), sql: sql_at(i) });
        i = i + 1;
    }
    ms
}

/// The highest migration version defined (the baseline when none is).
pub fn latest_version() -> (v: u32)
    ensures
        v == MIGRATION_COUNT + 1,
{
    let ms = migrations();
    if ms.len() == 0 {
        BASELINE_VERSION
    } else {
        ms[ms.len() - 1].version
    }
}

/// The index of the next migration to apply to a database at version
/// `current`: the first whose version is above it.
pub fn next_migration(current: u32) -> (r: Option<usize>)
    ensures
        match r {
            Some(i) => i < MIGRATION_COUNT && i + 2 > current && (i == 0 || i + 1 <= current),
            None => current >= MIGRATION_COUNT + 1,
        },
{
    let ms = migrations();
    let mut i: usize = 0;
    while i < ms.len()
        invariant
            i <= ms@.len(),
            ms@.len() == MIGRATION_COUNT,
            forall|k: int| 0 <= k < ms@.len() ==> (#[trigger] ms@[k]).version == k + 2,
            i == 0 || i + 1 <= current,
        decreases ms@.len() - i,
    {
        if ms[i].version > current {
            return Some(i);
        }
        i = i + 1;
    }
    None
}

} // verus!
