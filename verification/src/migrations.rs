//! The schema migrations that run before the service takes requests: what
//! is reported of them, and what a run hands back.

use crate::connection::{line_view, DriverExit};
use crate::decimal::{decimal, push_decimal};
use crate::middleware::lines_view;
use vstd::prelude::*;
use vstd::string::*;

verus! {

/// A migration that a run has applied.
#[derive(Clone, Debug, PartialEq, Eq)]
pub struct AppliedMigration {
    pub name: String,
    pub version: u32,
}

/// Why a run of the migrations came to nothing.
#[derive(Clone, Debug, PartialEq, Eq)]
pub struct MigrationError {
    pub message: String,
}

/// What a run of the migrations leaves behind: the lines it reported, and
/// the migrations it applied or the reason why it broke off.
#[derive(Debug, PartialEq, Eq)]
pub struct MigrationRun {
    pub log: Vec<String>,
    pub outcome: Result<Vec<AppliedMigration>, MigrationError>,
}

/// How the migrations reach the database. They open a connection of their
/// own, and share none with the handlers.
pub const MIGRATION_DATABASE: &'static str =
    "host=localhost user=admin password=admin dbname=notes";

/// The line that marks the start of a run.
pub open spec fn started_line() -> Seq<char> {
    "Running DB migrations..."@
}

/// The line that reports one applied migration.
pub open spec fn applied_line(migration: AppliedMigration) -> Seq<char> {
    "Migration Applied -  Name: "@ + migration.name@ + ", Version: "@ + decimal(
        migration.version as nat,
    )
}

/// The line that marks the end of a run that went well.
pub open spec fn finished_line() -> Seq<char> {
    "DB migrations finished!"@
}

/// The lines that report the applied migrations, one for each, in the order
/// in which they were applied.
pub open spec fn applied_lines(applied: Seq<AppliedMigration>) -> Seq<Seq<char>> {
    applied.map_values(|migration: AppliedMigration| applied_line(migration))
}

/// Everything that a run reports. A run that breaks off reports its start
/// and nothing more.
pub open spec fn run_report(applied: Option<Seq<AppliedMigration>>) -> Seq<Seq<char>> {
    match applied {
        Some(applied) => seq![started_line()] + applied_lines(applied) + seq![finished_line()],
        None => seq![started_line()],
    }
}

/// What the end of the driver of the migrations' own connection adds to the
/// diagnostic stream.
pub open spec fn migration_driver_report(exit: DriverExit) -> Option<Seq<char>> {
    match exit {
        DriverExit::Finished => None,
        DriverExit::Failed(message) => Some("connection error: "@ + message@),
    }
}

/// The line that marks the start of a run.
pub fn migrations_started() -> (line: String)
    ensures
        line@ == started_line(),
{
    "Running DB migrations...".to_owned()
}

/// The line that reports one applied migration.
pub fn migration_applied(migration: &AppliedMigration) -> (line: String)
    ensures
        line@ == applied_line(*migration),
{
    let mut line = "Migration Applied -  Name: ".to_owned();
    line.append(migration.name.as_str());
    line.append(", Version: ");
    push_decimal(&mut line, migration.version as u64);
    line
}

/// The line that marks the end of a run that went well.
pub fn migrations_finished() -> (line: String)
    ensures
        line@ == finished_line(),
{
    "DB migrations finished!".to_owned()
}

/// The line that the end of the driver of the migrations' own connection is
/// reported with, if it is reported at all.
pub fn migration_driver_line(exit: &DriverExit) -> (line: Option<String>)
    ensures
        line_view(line) == migration_driver_report(*exit),
{
    match exit {
        DriverExit::Finished => None,
        DriverExit::Failed(message) => {
            let mut line = "connection error: ".to_owned();
            line.append(message.as_str());
            Some(line)
        },
    }
}

/// Runs the migrations. `apply` opens a connection of its own to the
/// database it is given, applies what has not been applied yet, in the order
/// of the versions, and hands back what it applied, or the message of the
/// error that stopped it.
pub fn run_migrations<F>(apply: F) -> (run: MigrationRun) where
    F: FnOnce(&'static str) -> Result<Vec<AppliedMigration>, String>,

    requires
        call_requires(apply, (MIGRATION_DATABASE,)),
    ensures
        match run.outcome {
            Ok(applied) => call_ensures(apply, (MIGRATION_DATABASE,), Ok(applied)) && lines_view(
                run.log@,
            ) == run_report(Some(applied@)),
            Err(error) => call_ensures(apply, (MIGRATION_DATABASE,), Err(error.message))
                && lines_view(run.log@) == run_report(None),
        },
{
    let mut log: Vec<String> = Vec::new();
    log.push(migrations_started());
    assert(lines_view(log@) =~= seq![started_line()]);
    let outcome = apply(MIGRATION_DATABASE);
    match outcome {
        Ok(applied) => {
            let mut i: usize = 0;
            while i < applied.len()
                invariant
                    i <= applied.len(),
                    lines_view(log@) == seq![started_line()] + applied_lines(applied@.take(i as int)),
                decreases applied.len() - i,
            {
                let ghost reported = lines_view(log@);
                log.push(migration_applied(&applied[i]));
                assert(lines_view(log@) =~= reported.push(applied_line(applied@[i as int])));
                assert(applied_lines(applied@.take(i + 1)) =~= applied_lines(
                    applied@.take(i as int),
                ).push(applied_line(applied@[i as int])));
                i = i + 1;
            }
            let ghost reported = lines_view(log@);
            log.push(migrations_finished());
            assert(applied@.take(i as int) =~= applied@);
            assert(lines_view(log@) =~= reported.push(finished_line()));
            assert(outcome == Ok::<Vec<AppliedMigration>, String>(applied));
            MigrationRun { log, outcome: Ok(applied) }
        },
        Err(message) => MigrationRun { log, outcome: Err(MigrationError { message }) },
    }
}

} // verus!
