//! The schema-version gate ahead of full deserialization.
//!
//! The raw JSON is parsed first so `schema_version` can be read and checked
//! *before* any attempt to deserialize into a `Project`: a file from a newer
//! format is refused outright rather than deserialized and hoped for.

use vstd::prelude::*;
use crate::project::error::ProjectError;
use crate::project::value::{field, json_document, parse_json, u64_of_value, JsonValue};

verus! {

/// The schema version this build reads and writes.
pub const CURRENT_SCHEMA_VERSION: u32 = 1;

/// `project.json`'s `schema_version`, when it is a whole number that fits in
/// a `u64`.
pub open spec fn schema_field(doc: JsonValue) -> Option<u64> {
    match field(doc, "schema_version"@) {
        Some(v) => u64_of_value(v),
        None => None,
    }
}

/// The version a refusal reports: the file's own, or `u32::MAX` for one too
/// large to name in a `u32` (it is newer than anything either way).
pub open spec fn reported_version(v: u64) -> u32 {
    if v > u32::MAX {
        u32::MAX
    } else {
        v as u32
    }
}

/// Whether a `project.json` with this schema version is read, and the error
/// that refuses it otherwise. Every version above this build's is refused,
/// however large.
pub open spec fn gate_answer(found: Option<u64>, r: Result<u32, ProjectError>) -> bool {
    match found {
        None => r matches Err(ProjectError::Migration { from, to, reason }) && from == 0 && to
            == CURRENT_SCHEMA_VERSION && reason@ == "project.json has no schema_version field"@,
        Some(v) => {
            if v > CURRENT_SCHEMA_VERSION {
                r matches Err(ProjectError::SchemaTooNew { found, supported }) && found
                    == reported_version(v) && supported == CURRENT_SCHEMA_VERSION
            } else if v < CURRENT_SCHEMA_VERSION {
                r matches Err(ProjectError::Migration { from, to, reason }) && from == v && to
                    == CURRENT_SCHEMA_VERSION && reason@ == "no migrations are implemented yet"@
            } else {
                r matches Ok(x) && x == v
            }
        },
    }
}

/// Decide whether a file carrying `found` as its schema version can be read.
pub fn schema_gate(found: Option<u64>) -> (r: Result<u32, ProjectError>)
    ensures
        gate_answer(found, r),
{
    let v = match found {
        Some(v) => v,
        None => {
            return Err(
                ProjectError::Migration {
                    from: 0,
                    to: CURRENT_SCHEMA_VERSION,
                    reason: String::from_str("project.json has no schema_version field"),
                },
            );
        },
    };
    if v > CURRENT_SCHEMA_VERSION as u64 {
        let reported: u32 = if v > u32::MAX as u64 {
            u32::MAX
        } else {
            v as u32
        };
        return Err(ProjectError::SchemaTooNew { found: reported, supported: CURRENT_SCHEMA_VERSION });
    }
    if v < CURRENT_SCHEMA_VERSION as u64 {
        return Err(
            ProjectError::Migration {
                from: v as u32,
                to: CURRENT_SCHEMA_VERSION,
                reason: String::from_str("no migrations are implemented yet"),
            },
        );
    }
    Ok(v as u32)
}

/// **Only this build's schema is read.** A file is accepted exactly when
/// its version is this build's, and then as that version. A newer one,
/// however large, is refused as too new, naming a version above this
/// build's; an older one is refused as needing a migration from it; a file
/// without a version is refused as needing a migration from nothing.
pub proof fn law_only_this_builds_schema_is_read(found: Option<u64>, v: u64, r: Result<u32, ProjectError>)
    requires
        gate_answer(found, r),
    ensures
        r is Ok <==> found == Some(CURRENT_SCHEMA_VERSION as u64),
        r matches Ok(v) ==> v == CURRENT_SCHEMA_VERSION,
        (found == Some(v) && v > CURRENT_SCHEMA_VERSION) ==> (r matches Err(
            ProjectError::SchemaTooNew { found: f, supported },
        ) && f > CURRENT_SCHEMA_VERSION && supported == CURRENT_SCHEMA_VERSION),
        (found == Some(v) && v < CURRENT_SCHEMA_VERSION) ==> (r matches Err(
            ProjectError::Migration { from, .. },
        ) && from == v),
        found is None ==> (r matches Err(ProjectError::Migration { from, .. }) && from == 0),
{
}

/// Parse `project.json`'s text and gate it on its schema version.
///
/// `Ok` carries the version of a file this build can read; the document
/// itself is then deserialized by the caller.
pub fn check_schema(text: &str) -> (r: Result<u32, ProjectError>)
    ensures
        json_document(vstd::utf8::encode_utf8(text@)) is None <==> r matches Err(ProjectError::Json(_)),
        json_document(vstd::utf8::encode_utf8(text@)) matches Some(doc) ==> gate_answer(schema_field(doc), r),
{
    let value = match parse_json(text.as_bytes()) {
        Ok(v) => v,
        Err(e) => return Err(ProjectError::Json(e)),
    };
    let found = match value.get("schema_version") {
        Some(v) => v.as_u64(),
        None => None,
    };
    schema_gate(found)
}

} // verus!
