use notes_service::connection::DriverExit;
use notes_service::migrations::{
    migration_applied, migration_driver_line, migrations_finished, migrations_started,
    run_migrations, AppliedMigration, MigrationError, MIGRATION_DATABASE,
};
use std::cell::Cell;

fn applied(name: &str, version: u32) -> AppliedMigration {
    AppliedMigration { name: name.to_string(), version }
}

#[test]
fn run_reports_each_applied_migration() {
    let run = run_migrations(|_database| Ok(vec![applied("initial", 1), applied("add_deleted_at", 2)]));
    assert_eq!(
        run.log,
        vec![
            "Running DB migrations...".to_string(),
            "Migration Applied -  Name: initial, Version: 1".to_string(),
            "Migration Applied -  Name: add_deleted_at, Version: 2".to_string(),
            "DB migrations finished!".to_string(),
        ]
    );
    assert_eq!(run.outcome, Ok(vec![applied("initial", 1), applied("add_deleted_at", 2)]));
}

#[test]
fn run_with_nothing_to_apply_reports_start_and_end() {
    let run = run_migrations(|_database| Ok(Vec::new()));
    assert_eq!(
        run.log,
        vec!["Running DB migrations...".to_string(), "DB migrations finished!".to_string()]
    );
    assert_eq!(run.outcome, Ok(Vec::new()));
}

#[test]
fn failed_run_reports_its_start_only() {
    let run = run_migrations(|_database| Err("connection refused".to_string()));
    assert_eq!(run.log, vec!["Running DB migrations...".to_string()]);
    assert_eq!(run.outcome, Err(MigrationError { message: "connection refused".to_string() }));
}

#[test]
fn applied_migrations_are_reported_in_the_order_given() {
    let run = run_migrations(|_database| Ok(vec![applied("b", 20), applied("a", 3), applied("c", 100)]));
    assert_eq!(run.log.len(), 5);
    assert_eq!(run.log[1], "Migration Applied -  Name: b, Version: 20");
    assert_eq!(run.log[2], "Migration Applied -  Name: a, Version: 3");
    assert_eq!(run.log[3], "Migration Applied -  Name: c, Version: 100");
}

#[test]
fn lines_of_a_run_are_worded_exactly() {
    assert_eq!(migrations_started(), "Running DB migrations...");
    assert_eq!(migrations_finished(), "DB migrations finished!");
    assert_eq!(
        migration_applied(&applied("create_notes", 0)),
        "Migration Applied -  Name: create_notes, Version: 0"
    );
    assert_eq!(
        migration_applied(&applied("", u32::MAX)),
        "Migration Applied -  Name: , Version: 4294967295"
    );
}

#[test]
fn end_of_the_migration_connection_is_reported_in_lower_case() {
    assert_eq!(migration_driver_line(&DriverExit::Finished), None);
    assert_eq!(
        migration_driver_line(&DriverExit::Failed("broken pipe".to_string())),
        Some("connection error: broken pipe".to_string())
    );
}

#[test]
fn migrations_connect_on_their_own() {
    let asked: Cell<Option<&'static str>> = Cell::new(None);
    let run = run_migrations(|database| {
        asked.set(Some(database));
        Ok(Vec::new())
    });
    assert!(run.outcome.is_ok());
    assert_eq!(asked.get(), Some("host=localhost user=admin password=admin dbname=notes"));
    assert_eq!(asked.get(), Some(MIGRATION_DATABASE));
}
