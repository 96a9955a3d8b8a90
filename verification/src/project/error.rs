//! Errors for the project codec, save/load, and the asset store.

use vstd::prelude::*;
use crate::text::{decimal, decimal_text, starts_with};

verus! {

#[verifier::external_type_specification]
#[verifier::external_body]
pub struct ExIoError(std::io::Error);

/// Everything that can go wrong reading or writing an Animus project.
#[derive(Debug)]
pub enum ProjectError {
    Io(std::io::Error),
    Json(serde_json::Error),
    /// `serde_json` silently writes a non-finite float as `null`, which
    /// would corrupt the file with no error at all; the walk that catches
    /// one names the path to it.
    NonFiniteFloat { path: String },
    /// The file was written by a newer Animus Live than this build
    /// understands. Refused rather than guessed at.
    SchemaTooNew { found: u32, supported: u32 },
    Migration { from: u32, to: u32, reason: String },
}

/// The text of an I/O error (its `Display`). The operating system words it,
/// so nothing is promised of it.
#[verifier::external_body]
fn io_error_text(e: &std::io::Error) -> String {
    format!("{e}")
}

/// The text of a `serde_json` error (its `Display`); nothing is promised of it.
#[verifier::external_body]
fn json_error_text(e: &serde_json::Error) -> String {
    format!("{e}")
}

/// Whether `m` is the sentence shown for `e`. The texts of I/O and JSON
/// errors are worded by the system and `serde_json`; only their prefix is fixed.
pub open spec fn describes(e: ProjectError, m: Seq<char>) -> bool {
    match e {
        ProjectError::Io(_) => starts_with(m, "I/O error: "@),
        ProjectError::Json(_) => starts_with(m, "JSON error: "@),
        ProjectError::NonFiniteFloat { path } => m == "non-finite float at "@ + path@,
        ProjectError::SchemaTooNew { found, supported } => m == "project schema version "@
            + decimal(found as nat) + " is newer than the "@ + decimal(supported as nat)
            + " this build supports"@,
        ProjectError::Migration { from, to, reason } => m == "migration from schema "@
            + decimal(from as nat) + " to "@ + decimal(to as nat) + " failed: "@
            + reason@,
    }
}

impl ProjectError {
    /// The sentence shown for this error.
    pub fn message(&self) -> (m: String)
        ensures
            describes(*self, m@),
    {
        match self {
            ProjectError::Io(e) => {
                let m = String::from_str("I/O error: ");
                let m = m.concat(io_error_text(e).as_str());
                assert(m@.subrange(0, "I/O error: "@.len() as int) =~= "I/O error: "@);
                m
            },
            ProjectError::Json(e) => {
                let m = String::from_str("JSON error: ");
                let m = m.concat(json_error_text(e).as_str());
                assert(m@.subrange(0, "JSON error: "@.len() as int) =~= "JSON error: "@);
                m
            },
            ProjectError::NonFiniteFloat { path } => {
                String::from_str("non-finite float at ").concat(path.as_str())
            },
            ProjectError::SchemaTooNew { found, supported } => {
                let m = String::from_str("project schema version ");
                let m = m.concat(decimal_text(*found as u64).as_str());
                let m = m.concat(" is newer than the ");
                let m = m.concat(decimal_text(*supported as u64).as_str());
                m.concat(" this build supports")
            },
            ProjectError::Migration { from, to, reason } => {
                let m = String::from_str("migration from schema ");
                let m = m.concat(decimal_text(*from as u64).as_str());
                let m = m.concat(" to ");
                let m = m.concat(decimal_text(*to as u64).as_str());
                let m = m.concat(" failed: ");
                m.concat(reason.as_str())
            },
        }
    }
}

} // verus!
