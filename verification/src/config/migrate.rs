//! What is to be done to bring a configuration file to the current schema version.

use vstd::prelude::*;

use crate::text::{cat3, signed_decimal, signed_decimal_string};

verus! {

/// A TOML syntax error, as the `toml` crate tells it.
#[verifier::external_type_specification]
#[verifier::external_body]
pub struct ExTomlError(toml::de::Error);

/// The integer that a TOML document holds under a top-level key: nothing where the text is no TOML
/// document, `Some(None)` where the key is absent or holds something else.
pub uninterp spec fn toml_integer(content: Seq<char>, key: Seq<char>) -> Option<Option<i64>>;

/// `toml::Table::from_str`, then `get` and `as_integer` on what it read. The result depends on the
/// text and the key alone; which texts are TOML documents is not stated.
#[verifier::external_body]
fn read_integer(content: &str, key: &str) -> (r: Result<Option<i64>, toml::de::Error>)
    ensures
        r is Ok == toml_integer(content@, key@) is Some,
        r is Ok ==> toml_integer(content@, key@) == Some(r->Ok_0),
{
    let table: toml::Table = content.parse()?;
    Ok(table.get(key).and_then(|value| value.as_integer()))
}

/// What is left to do for a configuration file.
#[derive(Clone, Copy, Debug, PartialEq, Eq, Structural)]
pub enum MigrationStep {
    /// The file is at the current version.
    UpToDate,
    /// Only tell that the file would be migrated from `version`.
    Announce { version: i64 },
    /// Copy the file to its `.toml.bak` before touching it.
    BackUp,
}

/// Why a configuration file cannot be migrated.
#[derive(Debug)]
pub enum MigrateError {
    /// The file is no TOML document.
    Syntax { error: toml::de::Error },
    MissingVersion,
    TooNew { version: i64 },
}

/// The step for a file at `version`, or that there is none.
pub open spec fn step_for(version: i64, dry_run: bool) -> Option<MigrationStep> {
    if version == 1 {
        Some(MigrationStep::UpToDate)
    } else if version >= 0 {
        None
    } else if dry_run {
        Some(MigrationStep::Announce { version })
    } else {
        Some(MigrationStep::BackUp)
    }
}

/// What is said of a version that is newer than the current one.
pub open spec fn too_new_text(version: i64) -> Seq<char> {
    "schema_version "@ + signed_decimal(version as int)
        + " is newer than this version of jeha supports."@
}

impl MigrateError {
    /// What is said of the version; nothing for a syntax error, which speaks for itself.
    pub fn message(&self) -> (r: Option<String>)
        ensures
            match *self {
                MigrateError::Syntax { error } => r is None,
                MigrateError::MissingVersion => r is Some && r->0@
                    == "schema_version 0 or missing — cannot auto-migrate. Please add schema_version = 1 to your config."@,
                MigrateError::TooNew { version } => r is Some && r->0@ == too_new_text(version),
            },
    {
        match self {
            MigrateError::Syntax { error: _ } => None,
            MigrateError::MissingVersion => Some(
                "schema_version 0 or missing — cannot auto-migrate. Please add schema_version = 1 to your config.".to_owned(),
            ),
            MigrateError::TooNew { version } => Some(
                cat3(
                    "schema_version ",
                    signed_decimal_string(*version).as_str(),
                    " is newer than this version of jeha supports.",
                ),
            ),
        }
    }
}

/// Decides on the step for a file whose version is known.
pub fn plan_migration(version: i64, dry_run: bool) -> (r: Result<MigrationStep, MigrateError>)
    ensures
        match r {
            Ok(step) => step_for(version, dry_run) == Some(step),
            Err(MigrateError::MissingVersion) => version == 0,
            Err(MigrateError::TooNew { version: v }) => v == version && version > 1,
            Err(MigrateError::Syntax { error }) => false,
        },
{
    if version == 1 {
        return Ok(MigrationStep::UpToDate);
    }
    if version == 0 {
        return Err(MigrateError::MissingVersion);
    }
    if version > 1 {
        return Err(MigrateError::TooNew { version });
    }
    if dry_run {
        Ok(MigrationStep::Announce { version })
    } else {
        Ok(MigrationStep::BackUp)
    }
}

/// The schema version that a file's text states; 0 where it states none.
pub open spec fn stated_version(content: Seq<char>) -> i64 {
    match toml_integer(content, "schema_version"@) {
        Some(Some(version)) => version,
        _ => 0,
    }
}

/// Decides on the step for the text of a configuration file.
pub fn migrate_config(content: &str, dry_run: bool) -> (r: Result<MigrationStep, MigrateError>)
    ensures
        match r {
            Err(MigrateError::Syntax { error }) => toml_integer(content@, "schema_version"@) is None,
            Ok(step) => toml_integer(content@, "schema_version"@) is Some && step_for(
                stated_version(content@),
                dry_run,
            ) == Some(step),
            Err(MigrateError::MissingVersion) => toml_integer(
                content@,
                "schema_version"@,
            ) is Some && stated_version(content@) == 0,
            Err(MigrateError::TooNew { version }) => toml_integer(
                content@,
                "schema_version"@,
            ) is Some && stated_version(content@) == version && version > 1,
        },
{
    match read_integer(content, "schema_version") {
        Err(error) => Err(MigrateError::Syntax { error }),
        Ok(found) => plan_migration(found.unwrap_or(0), dry_run),
    }
}

/// A file at the current version is left alone, one without a version or with a later one is
/// refused, and what is older is only told of in a dry run and backed up otherwise.
pub proof fn law_only_older_files_are_migrated(version: i64, dry_run: bool)
    ensures
        step_for(version, dry_run) == Some(MigrationStep::UpToDate) <==> version == 1,
        step_for(version, dry_run) is None <==> version == 0 || version > 1,
        version < 0 && dry_run ==> step_for(version, dry_run) == Some(
            MigrationStep::Announce { version },
        ),
        version < 0 && !dry_run ==> step_for(version, dry_run) == Some(MigrationStep::BackUp),
{
}

} // verus!
