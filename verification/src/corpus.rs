//! Versioned corpus packages: a manifest and an array of knowledge records.
//! Import is idempotent (an upsert by stable record id) and tombstones
//! remove active availability. This module holds the manifest, the package
//! checks and the per-record import decision; reading records, JSON and the
//! database live with the caller.

use vstd::prelude::*;
use crate::backup::sha256_hex_of;
use crate::error::AppError;
use crate::text::decimal;

verus! {

/// Format version of the package manifest.
pub const PACKAGE_FORMAT_VERSION: u32 = 1;

/// Schema version of the records in a package.
pub const RECORD_SCHEMA_VERSION: u32 = 1;

/// Whether a package holds everything or only changes.
#[derive(Debug, Clone, Copy, PartialEq, Eq, Structural)]
pub enum PackageType {
    Full,
    Incremental,
}

/// The package manifest.
#[derive(Debug, Clone)]
pub struct CorpusManifest {
    pub manifest_version: u32,
    pub package_type: PackageType,
    pub vault_id: String,
    pub vault_name: String,
    pub created_at: String,
    pub app_version: String,
    pub record_schema_version: u32,
    pub record_count: u32,
    pub source_count: u32,
    /// SHA-256 (lowercase hex) of the serialized records array.
    pub checksum: String,
    /// For incremental packages, the checksum of the package before.
    pub previous_package_checksum: Option<String>,
}

/// Some record id among the first `n` equals `id`.
pub open spec fn seen_before(ids: Seq<Seq<char>>, n: int, id: Seq<char>) -> bool {
    exists|k: int| 0 <= k < n && #[trigger] ids[k] == id
}

/// Why a package is invalid, if it is: checked in order, the manifest
/// version, the record schema version, the checksum of the serialized
/// records, the record count, and then, record by record, an empty or a
/// repeated id.
pub open spec fn package_problem(m: CorpusManifest, records_json: Seq<u8>, ids: Seq<Seq<char>>) -> Option<Seq<char>> {
    if m.manifest_version != PACKAGE_FORMAT_VERSION {
        Some("unsupported manifest version "@ + decimal(m.manifest_version as nat))
    } else if m.record_schema_version != RECORD_SCHEMA_VERSION {
        Some("unsupported record schema version "@ + decimal(m.record_schema_version as nat))
    } else if sha256_hex_of(records_json) != m.checksum@ {
        Some("package checksum mismatch — records may be corrupted"@)
    } else if m.record_count != ids.len() {
        Some("manifest record_count does not match records length"@)
    } else {
        id_problem(ids, 0)
    }
}

/// The first problem with the record ids from position `i` on.
pub open spec fn id_problem(ids: Seq<Seq<char>>, i: int) -> Option<Seq<char>>
    decreases ids.len() - i,
{
    if i >= ids.len() || i < 0 {
        None
    } else if ids[i].len() == 0 {
        Some("record with empty id"@)
    } else if seen_before(ids, i, ids[i]) {
        Some("duplicate record id in package: "@ + ids[i])
    } else {
        id_problem(ids, i + 1)
    }
}

/// Validate a package from its manifest, its serialized records array and
/// its record ids in order.
pub fn validate_package(manifest: &CorpusManifest, records_json: &[u8], record_ids: &Vec<String>) -> (r: Result<(), AppError>)
    ensures
        match package_problem(*manifest, records_json@, crate::text::views_of(record_ids@)) {
            None => r is Ok,
            Some(msg) => r matches Err(AppError::Config(e)) && e@ == msg,
        },
{
    let ghost ids = crate::text::views_of(record_ids@);
    if manifest.manifest_version != PACKAGE_FORMAT_VERSION {
        let mut m = "unsupported manifest version ".to_owned();
        crate::text::push_str(&mut m, crate::text::decimal_string(manifest.manifest_version as usize).as_str());
        return Err(AppError::Config(m));
    }
    if manifest.record_schema_version != RECORD_SCHEMA_VERSION {
        let mut m = "unsupported record schema version ".to_owned();
        crate::text::push_str(&mut m, crate::text::decimal_string(manifest.record_schema_version as usize).as_str());
        return Err(AppError::Config(m));
    }
    let actual = crate::backup::sha256_hex(records_json);
    if actual != manifest.checksum {
        return Err(AppError::Config("package checksum mismatch — records may be corrupted".to_owned()));
    }
    if manifest.record_count as usize != record_ids.len() {
        return Err(AppError::Config("manifest record_count does not match records length".to_owned()));
    }
    let mut i: usize = 0;
    while i < record_ids.len()
        invariant
            i <= record_ids@.len(),
            ids == crate::text::views_of(record_ids@),
            ids.len() == record_ids@.len(),
            package_problem(*manifest, records_json@, ids) == id_problem(ids, i as int),
        decreases record_ids@.len() - i,
    {
        let id = &record_ids[i];
        assert(ids[i as int] == id@);
        if id.as_str().is_empty() {
            return Err(AppError::Config("record with empty id".to_owned()));
        }
        let mut k: usize = 0;
        while k < i
            invariant
                k <= i < record_ids@.len(),
                ids == crate::text::views_of(record_ids@),
                *id == record_ids@[i as int],
                ids[i as int] == id@,
                ids.len() == record_ids@.len(),
                ids[i as int].len() != 0,
                package_problem(*manifest, records_json@, ids) == id_problem(ids, i as int),
                forall|j: int| 0 <= j < k ==> ids[j] != ids[i as int],
            decreases i - k,
        {
            assert(ids[k as int] == record_ids@[k as int]@);
            if record_ids[k] == *id {
                assert(ids[k as int] == ids[i as int]);
                assert(seen_before(ids, i as int, ids[i as int]));
                let mut m = "duplicate record id in package: ".to_owned();
                crate::text::push_str(&mut m, id.as_str());
                return Err(AppError::Config(m));
            }
            k = k + 1;
        }
        assert(!seen_before(ids, i as int, ids[i as int]));
        i = i + 1;
    }
    Ok(())
}

/// Counts of what an import did.
/// A manifest describes a full export of `count` records serialized as
/// `records_json`.
pub open spec fn is_full_manifest(m: CorpusManifest, records_json: Seq<u8>, count: nat) -> bool {
    &&& m.manifest_version == PACKAGE_FORMAT_VERSION
    &&& m.package_type == PackageType::Full
    &&& m.record_schema_version == RECORD_SCHEMA_VERSION
    &&& m.record_count == count as u32
    &&& m.source_count == 0
    &&& m.checksum@ == sha256_hex_of(records_json)
    &&& m.previous_package_checksum is None
}

/// The manifest of a full export: current format versions, the record
/// count (as a `u32`, truncated like the original cast) and the checksum of
/// the serialized records.
pub fn full_manifest(
    vault_id: &str,
    vault_name: &str,
    created_at: String,
    app_version: &str,
    records_json: &[u8],
    record_count: usize,
) -> (m: CorpusManifest)
    ensures
        is_full_manifest(m, records_json@, record_count as nat),
        m.vault_id@ == vault_id@,
        m.vault_name@ == vault_name@,
        m.created_at == created_at,
        m.app_version@ == app_version@,
{
    CorpusManifest {
        manifest_version: PACKAGE_FORMAT_VERSION,
        package_type: PackageType::Full,
        vault_id: vault_id.to_owned(),
        vault_name: vault_name.to_owned(),
        created_at,
        app_version: app_version.to_owned(),
        record_schema_version: RECORD_SCHEMA_VERSION,
        record_count: #[verifier::truncate] (record_count as u32),
        source_count: 0,
        checksum: crate::backup::sha256_hex(records_json),
        previous_package_checksum: None,
    }
}

/// A full export validates: a package whose manifest was made for its
/// records passes every check of the validator, as long as its record ids
/// are non-empty and distinct and their number fits the manifest's count.
pub proof fn lemma_exported_package_validates(m: CorpusManifest, records_json: Seq<u8>, ids: Seq<Seq<char>>)
    requires
        is_full_manifest(m, records_json, ids.len()),
        ids.len() <= u32::MAX,
        id_problem(ids, 0) is None,
    ensures
        package_problem(m, records_json, ids) is None,
{
}

/// Record ids that are all non-empty and pairwise distinct.
pub open spec fn ids_nonempty_distinct(ids: Seq<Seq<char>>) -> bool {
    &&& forall|i: int| 0 <= i < ids.len() ==> (#[trigger] ids[i]).len() > 0
    &&& forall|i: int, j: int| 0 <= i < j < ids.len() ==> ids[i] != ids[j]
}

/// No id problem from position `i` on exactly when every id from there on is
/// non-empty and unseen before its position.
proof fn lemma_id_problem_from(ids: Seq<Seq<char>>, i: int)
    requires
        0 <= i <= ids.len(),
    ensures
        id_problem(ids, i) is None <==> forall|k: int| i <= k < ids.len() ==> (#[trigger] ids[k]).len() > 0
            && !seen_before(ids, k, ids[k]),
    decreases ids.len() - i,
{
    if i < ids.len() {
        lemma_id_problem_from(ids, i + 1);
        if id_problem(ids, i) is None {
            assert forall|k: int| i <= k < ids.len() implies (#[trigger] ids[k]).len() > 0
                && !seen_before(ids, k, ids[k]) by {
                if k > i {
                    assert(i + 1 <= k);
                }
            }
        }
    }
}

/// A package validates exactly when its manifest has the supported versions,
/// the checksum of its records and their count, and its record ids are
/// non-empty and pairwise distinct.
pub proof fn lemma_package_validates_exactly(m: CorpusManifest, records_json: Seq<u8>, ids: Seq<Seq<char>>)
    ensures
        package_problem(m, records_json, ids) is None <==> {
            &&& m.manifest_version == PACKAGE_FORMAT_VERSION
            &&& m.record_schema_version == RECORD_SCHEMA_VERSION
            &&& sha256_hex_of(records_json) == m.checksum@
            &&& m.record_count == ids.len()
            &&& ids_nonempty_distinct(ids)
        },
{
    lemma_id_problem_from(ids, 0);
    if id_problem(ids, 0) is None {
        assert forall|i: int, j: int| 0 <= i < j < ids.len() implies ids[i] != ids[j] by {
            assert(!seen_before(ids, j, ids[j]));
            if ids[i] == ids[j] {
                assert(seen_before(ids, j, ids[j]));
            }
        }
    }
    if ids_nonempty_distinct(ids) {
        assert forall|k: int| 0 <= k < ids.len() implies (#[trigger] ids[k]).len() > 0
            && !seen_before(ids, k, ids[k]) by {
            if seen_before(ids, k, ids[k]) {
                let w = choose|w: int| 0 <= w < k && #[trigger] ids[w] == ids[k];
                assert(ids[w] != ids[k]);
            }
        }
    }
}

#[derive(Debug, Clone, Copy)]
pub struct ImportOutcome {
    pub imported: u32,
    pub updated: u32,
    pub tombstoned: u32,
    pub skipped: u32,
}

/// What importing one record does to the vault.
#[derive(Debug, Clone, Copy, PartialEq, Eq, Structural)]
pub enum ImportAction {
    /// Tombstone the existing record.
    Tombstone,
    /// Insert the record, already tombstoned, so a re-import cannot
    /// resurrect it.
    InsertTombstoned,
    /// Overwrite the existing record with the newer one.
    Update,
    /// Leave the existing record as it is.
    Skip,
    /// Insert the new record.
    Insert,
}

/// Strict lexicographic order of texts (the order of `str`).
pub open spec fn lex_lt(a: Seq<char>, b: Seq<char>) -> bool
    decreases a.len(),
{
    if b.len() == 0 {
        false
    } else if a.len() == 0 {
        true
    } else if a[0] < b[0] {
        true
    } else if a[0] == b[0] {
        lex_lt(a.drop_first(), b.drop_first())
    } else {
        false
    }
}

pub(crate) fn lex_less(a: &Vec<char>, b: &Vec<char>) -> (r: bool)
    ensures
        r == lex_lt(a@, b@),
{
    let mut i: usize = 0;
    proof {
        assert(a@.skip(0) =~= a@);
        assert(b@.skip(0) =~= b@);
    }
    while i < a.len() && i < b.len() && a[i] == b[i]
        invariant
            i <= a@.len(),
            i <= b@.len(),
            lex_lt(a@, b@) == lex_lt(a@.skip(i as int), b@.skip(i as int)),
        decreases a@.len() - i,
    {
        proof {
            assert(a@.skip(i as int).drop_first() =~= a@.skip(i + 1));
            assert(b@.skip(i as int).drop_first() =~= b@.skip(i + 1));
        }
        i = i + 1;
    }
    if i == b.len() {
        false
    } else if i == a.len() {
        true
    } else {
        a[i] < b[i]
    }
}

/// The import action for a record of the given status, given whether a
/// record with its id exists and when that one was last updated (`None` if
/// unknown): tombstones always win; an existing record is overwritten only
/// by a strictly newer one.
pub open spec fn import_action_spec(status: Seq<char>, exists: bool, existing_updated: Option<Seq<char>>, incoming_updated: Seq<char>) -> ImportAction {
    if status == "tombstoned"@ {
        if exists { ImportAction::Tombstone } else { ImportAction::InsertTombstoned }
    } else if exists {
        match existing_updated {
            None => ImportAction::Update,
            Some(e) => if lex_lt(e, incoming_updated) { ImportAction::Update } else { ImportAction::Skip },
        }
    } else {
        ImportAction::Insert
    }
}

/// Decide what importing one record does.
pub fn import_action(status: &str, exists: bool, existing_updated: Option<&str>, incoming_updated: &str) -> (a: ImportAction)
    ensures
        a == import_action_spec(status@, exists, match existing_updated {
            Some(e) => Some(e@),
            None => None,
        }, incoming_updated@),
{
    if crate::text::str_eq(status, "tombstoned") {
        if exists { ImportAction::Tombstone } else { ImportAction::InsertTombstoned }
    } else if exists {
        match existing_updated {
            None => ImportAction::Update,
            Some(e) => {
                let ec = crate::text::chars_of(e);
                let ic = crate::text::chars_of(incoming_updated);
                if lex_less(&ec, &ic) { ImportAction::Update } else { ImportAction::Skip }
            },
        }
    } else {
        ImportAction::Insert
    }
}

/// Re-importing what was just imported changes nothing: a record that now
/// exists with the same update time is skipped, and a tombstone only
/// tombstones again.
pub proof fn lemma_import_is_idempotent(status: Seq<char>, updated: Seq<char>)
    ensures
        status != "tombstoned"@ ==> import_action_spec(status, true, Some(updated), updated) == ImportAction::Skip,
        status == "tombstoned"@ ==> import_action_spec(status, true, Some(updated), updated) == ImportAction::Tombstone,
{
    lemma_lex_lt_irreflexive(updated);
}

proof fn lemma_lex_lt_irreflexive(a: Seq<char>)
    ensures
        !lex_lt(a, a),
    decreases a.len(),
{
    if a.len() > 0 {
        lemma_lex_lt_irreflexive(a.drop_first());
    }
}

impl ImportOutcome {
    /// Nothing imported yet.
    pub fn new() -> (o: Self)
        ensures
            o.imported == 0 && o.updated == 0 && o.tombstoned == 0 && o.skipped == 0,
    {
        ImportOutcome { imported: 0, updated: 0, tombstoned: 0, skipped: 0 }
    }

    /// Count one record's action.
    pub fn count(&mut self, a: ImportAction)
        requires
            old(self).imported < u32::MAX,
            old(self).updated < u32::MAX,
            old(self).tombstoned < u32::MAX,
            old(self).skipped < u32::MAX,
        ensures
            final(self).imported == old(self).imported + if a == ImportAction::Insert { 1int } else { 0int },
            final(self).updated == old(self).updated + if a == ImportAction::Update { 1int } else { 0int },
            final(self).tombstoned == old(self).tombstoned + if a == ImportAction::Tombstone || a == ImportAction::InsertTombstoned { 1int } else { 0int },
            final(self).skipped == old(self).skipped + if a == ImportAction::Skip { 1int } else { 0int },
    {
        match a {
            ImportAction::Tombstone | ImportAction::InsertTombstoned => self.tombstoned = self.tombstoned + 1,
            ImportAction::Update => self.updated = self.updated + 1,
            ImportAction::Skip => self.skipped = self.skipped + 1,
            ImportAction::Insert => self.imported = self.imported + 1,
        }
    }
}

/// Records of these statuses are kept in the full-text index.
pub fn is_indexed_status(status: &str) -> (b: bool)
    ensures
        b == (status@ == "approved"@ || status@ == "disputed"@),
{
    crate::text::str_eq(status, "approved") || crate::text::str_eq(status, "disputed")
}

} // verus!
