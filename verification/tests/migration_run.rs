use modkit_core::migration_run::{MigrationRun, PendingAction, PendingCheck, PendingEvent, RunAction, RunEvent};
use modkit_core::migration_runner::{
    migration_table_name, table_exists_from_row, DatabaseBackend, ExistsRow, MigrationError, MigrationResult,
};

fn names(v: &[&str]) -> Vec<String> {
    v.iter().map(|s| s.to_string()).collect()
}

/// Drives a run against an in-memory history; `fail_up` and `fail_record`
/// name a migration whose `up` step or record fails.
fn drive(
    module: &str,
    list: &[&str],
    history: &mut Vec<String>,
    fail_up: Option<&str>,
    fail_record: Option<&str>,
    trace: &mut Vec<String>,
) -> Result<MigrationResult, MigrationError> {
    let (mut run, mut action) = MigrationRun::start(module, DatabaseBackend::Sqlite, names(list));
    let mut pending: Option<String> = None;
    loop {
        let event = match action {
            RunAction::Finish(r) => return r,
            RunAction::Execute(sql) => {
                trace.push(sql);
                RunEvent::Done
            }
            RunAction::Query(sql) => {
                trace.push(sql);
                RunEvent::Rows(history.clone())
            }
            RunAction::Begin(n) => {
                trace.push(format!("begin {n}"));
                RunEvent::Done
            }
            RunAction::Up(n) => {
                trace.push(format!("up {n}"));
                if fail_up == Some(n.as_str()) {
                    RunEvent::Failed("boom".to_owned())
                } else {
                    RunEvent::Done
                }
            }
            RunAction::Record(sql, n) => {
                trace.push(sql);
                if fail_record == Some(n.as_str()) {
                    RunEvent::Failed("disk full".to_owned())
                } else {
                    pending = Some(n);
                    RunEvent::Done
                }
            }
            RunAction::Commit => {
                trace.push("commit".to_owned());
                history.extend(pending.take());
                RunEvent::Done
            }
            RunAction::Rollback => {
                trace.push("rollback".to_owned());
                pending = None;
                RunEvent::Done
            }
        };
        action = run.step(event);
    }
}

#[test]
fn empty_run_finishes_at_once() {
    let mut h = vec![];
    let mut t = vec![];
    let r = drive("m", &[], &mut h, None, None, &mut t).unwrap();
    assert_eq!((r.applied, r.skipped), (0, 0));
    assert!(r.applied_names.is_empty());
    assert!(t.is_empty());
}

#[test]
fn single_migration_is_applied_and_recorded() {
    let mut h = vec![];
    let mut t = vec![];
    let r = drive("m", &["m001_initial"], &mut h, None, None, &mut t).unwrap();
    assert_eq!(r.applied, 1);
    assert_eq!(r.skipped, 0);
    assert_eq!(r.applied_names, vec!["m001_initial"]);
    assert_eq!(h, vec!["m001_initial"]);
    let table = migration_table_name("m");
    assert!(t[0].contains(&format!("CREATE TABLE IF NOT EXISTS \"{table}\"")));
    assert_eq!(t[1], format!("SELECT version FROM \"{table}\""));
    assert_eq!(t[2], "begin m001_initial");
    assert_eq!(t[3], "up m001_initial");
    assert_eq!(t[4], format!("INSERT INTO \"{table}\" (version) VALUES ($1)"));
    assert_eq!(t[5], "commit");
    assert_eq!(t.len(), 6);
}

#[test]
fn second_run_skips_everything() {
    let mut h = vec![];
    let mut t = vec![];
    drive("m", &["m001", "m002"], &mut h, None, None, &mut t).unwrap();
    let r = drive("m", &["m001", "m002"], &mut h, None, None, &mut t).unwrap();
    assert_eq!((r.applied, r.skipped), (0, 2));
    assert!(r.applied_names.is_empty());
}

#[test]
fn migrations_run_in_name_order() {
    let mut h = vec![];
    let mut t = vec![];
    let r = drive("m", &["m003_c", "m001_a", "m002_b"], &mut h, None, None, &mut t).unwrap();
    assert_eq!(r.applied_names, vec!["m001_a", "m002_b", "m003_c"]);
}

#[test]
fn failed_up_rolls_back_and_stops() {
    let mut h = vec![];
    let mut t = vec![];
    let e = drive("mod_x", &["m1", "m2", "m3"], &mut h, Some("m2"), None, &mut t).unwrap_err();
    match e {
        MigrationError::MigrationFailed { module, migration, source } => {
            assert_eq!(module, "mod_x");
            assert_eq!(migration, "m2");
            assert_eq!(source, "boom");
        }
        other => panic!("unexpected {other:?}"),
    }
    assert_eq!(h, vec!["m1"]);
    assert_eq!(t.last().unwrap(), "rollback");
    assert!(!t.iter().any(|s| s.contains("m3")));
}

#[test]
fn failed_record_rolls_back_and_stops() {
    let mut h = vec![];
    let mut t = vec![];
    let e = drive("mod_x", &["m1", "m2"], &mut h, None, Some("m1"), &mut t).unwrap_err();
    assert!(matches!(e, MigrationError::RecordFailed { ref migration, ref source, .. } if migration == "m1" && source == "disk full"));
    assert!(h.is_empty());
    assert_eq!(t.last().unwrap(), "rollback");
}

#[test]
fn duplicate_names_are_refused_before_any_statement() {
    let mut h = vec![];
    let mut t = vec![];
    let e = drive("dup_module", &["m001_dup", "m001_dup"], &mut h, None, None, &mut t).unwrap_err();
    assert!(matches!(e, MigrationError::DuplicateMigrationName { ref module, ref name } if module == "dup_module" && name == "m001_dup"));
    assert!(t.is_empty());
}

#[test]
fn table_and_query_failures_end_the_run() {
    let (mut run, _) = MigrationRun::start("m", DatabaseBackend::Postgres, names(&["a"]));
    let r = run.step(RunEvent::Failed("no perms".to_owned()));
    assert!(matches!(r, RunAction::Finish(Err(MigrationError::CreateTable { ref module, ref source })) if module == "m" && source == "no perms"));
    assert!(run.is_finished());

    let (mut run, _) = MigrationRun::start("m", DatabaseBackend::MySql, names(&["a"]));
    let q = run.step(RunEvent::Done);
    assert!(matches!(q, RunAction::Query(ref s) if s.starts_with("SELECT version FROM `")));
    let r = run.step(RunEvent::Failed("gone".to_owned()));
    assert!(matches!(r, RunAction::Finish(Err(MigrationError::QueryHistory { ref source, .. })) if source == "gone"));
}

#[test]
fn failed_commit_ends_the_run_without_rollback() {
    let (mut run, _) = MigrationRun::start("m", DatabaseBackend::Sqlite, names(&["a", "b"]));
    run.step(RunEvent::Done);
    assert!(matches!(run.step(RunEvent::Rows(vec![])), RunAction::Begin(ref n) if n == "a"));
    assert!(matches!(run.step(RunEvent::Done), RunAction::Up(_)));
    assert!(matches!(run.step(RunEvent::Done), RunAction::Record(_, _)));
    assert!(matches!(run.step(RunEvent::Done), RunAction::Commit));
    let r = run.step(RunEvent::Failed("lost".to_owned()));
    assert!(matches!(r, RunAction::Finish(Err(MigrationError::MigrationFailed { ref migration, .. })) if migration == "a"));
}

#[test]
fn modules_use_their_own_tables() {
    let mut ha = vec![];
    let mut hb = vec![];
    let mut ta = vec![];
    let mut tb = vec![];
    let ra = drive("module_a", &["m001_initial"], &mut ha, None, None, &mut ta).unwrap();
    let rb = drive("module_b", &["m001_initial"], &mut hb, None, None, &mut tb).unwrap();
    assert_eq!(ra.applied, 1);
    assert_eq!(rb.applied, 1);
    let a = migration_table_name("module_a");
    let b = migration_table_name("module_b");
    assert!(ta.iter().all(|s| !s.contains(&b)));
    assert!(tb.iter().all(|s| !s.contains(&a)));
    assert!(ta.iter().any(|s| s.contains(&a)));
}

#[test]
fn table_exists_answers() {
    assert!(table_exists_from_row(ExistsRow::Flag(Some(true))));
    assert!(!table_exists_from_row(ExistsRow::Flag(Some(false))));
    assert!(!table_exists_from_row(ExistsRow::Flag(None)));
    assert!(table_exists_from_row(ExistsRow::Count(Some(1))));
    assert!(!table_exists_from_row(ExistsRow::Count(Some(0))));
    assert!(!table_exists_from_row(ExistsRow::Count(None)));
}

#[test]
fn pending_check_without_table_lists_every_name() {
    let (mut check, a) = PendingCheck::start("m", DatabaseBackend::Sqlite, names(&["b", "a"]));
    let table = migration_table_name("m");
    assert!(matches!(a, PendingAction::QueryExists(ref s) if *s == format!("SELECT COUNT(*) FROM sqlite_master WHERE type='table' AND name='{table}'")));
    let r = check.step(PendingEvent::Exists(ExistsRow::Count(Some(0))));
    assert!(matches!(r, PendingAction::Finish(Ok(ref v)) if *v == vec!["b", "a"]));
}

#[test]
fn pending_check_filters_by_history() {
    let (mut check, _) = PendingCheck::start("m", DatabaseBackend::Postgres, names(&["m001", "m002"]));
    let q = check.step(PendingEvent::Exists(ExistsRow::Flag(Some(true))));
    assert!(matches!(q, PendingAction::Query(ref s) if s.starts_with("SELECT version FROM \"")));
    let r = check.step(PendingEvent::Rows(names(&["m001"])));
    assert!(matches!(r, PendingAction::Finish(Ok(ref v)) if *v == vec!["m002"]));
}

#[test]
fn pending_check_edge_cases() {
    let (_, a) = PendingCheck::start("m", DatabaseBackend::MySql, vec![]);
    assert!(matches!(a, PendingAction::Finish(Ok(ref v)) if v.is_empty()));
    let (mut check, _) = PendingCheck::start("m", DatabaseBackend::MySql, names(&["a"]));
    let r = check.step(PendingEvent::Failed("denied".to_owned()));
    assert!(matches!(r, PendingAction::Finish(Err(MigrationError::QueryHistory { ref module, ref source })) if module == "m" && source == "denied"));
}
