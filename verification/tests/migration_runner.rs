use modkit_core::migration_runner::{
    applied_migrations_sql, check_duplicate_names, create_migration_table_sql, migration_table_exists_sql,
    migration_table_name, migration_table_name_with_hash, pending_migrations, prepare_migration_run,
    record_migration_sql, sanitize_module_name, sort_migration_names, DatabaseBackend, MigrationError,
    MigrationResult,
};

fn names(v: &[&str]) -> Vec<String> {
    v.iter().map(|s| s.to_string()).collect()
}

#[test]
fn test_sanitize_module_name() {
    assert_eq!(sanitize_module_name("my_module"), "my_module");
    assert_eq!(sanitize_module_name("my-module"), "my_module");
    assert_eq!(sanitize_module_name("MyModule123"), "MyModule123");
    assert_eq!(sanitize_module_name("my.module"), "my_module");
    assert_eq!(sanitize_module_name("my/module"), "my_module");
    assert_eq!(sanitize_module_name(""), "_");
}

#[test]
fn test_migration_table_name() {
    let users_info_table_1 = migration_table_name("users-info");
    let users_info_table_2 = migration_table_name("users-info");
    assert_eq!(users_info_table_1, users_info_table_2, "deterministic");
    assert!(users_info_table_1.starts_with("modkit_migrations__"));
    assert!(users_info_table_1.len() <= 63);

    let simple_settings_table = migration_table_name("simple-user-settings");
    // Hyphens are sanitized to underscores
    assert!(simple_settings_table.contains("simple_user_settings"));
    assert!(simple_settings_table.len() <= 63);
}

#[test]
fn test_table_name_length_limit() {
    // Long module name should still produce <= 63-byte identifier (Postgres limit).
    let long = "this-is-a-very-long-module-name/with.weird.chars/and-more-and-more-and-more";
    let t = migration_table_name(long);
    assert!(t.len() <= 63);
    assert!(t.starts_with("modkit_migrations__"));
}

#[test]
fn table_name_uses_first_eight_hex_digits_of_hash() {
    assert_eq!(
        migration_table_name_with_hash("users-info", 0x0123_4567_89ab_cdef),
        "modkit_migrations__users_info__01234567"
    );
    assert_eq!(migration_table_name_with_hash("", 0xff), "modkit_migrations_____00000000");
}

#[test]
fn table_name_hash_is_that_of_the_original_name() {
    let t = migration_table_name("_test");
    let h = xxhash_rust::xxh3::xxh3_64("_test".as_bytes());
    let expected = format!("modkit_migrations___test__{}", &format!("{h:016x}")[..8]);
    assert_eq!(t, expected);
    // Names that sanitize alike still get different tables.
    assert_ne!(migration_table_name("a-b"), migration_table_name("a.b"));
}

#[test]
fn long_names_are_cut_to_fit() {
    let long = "this-is-a-very-long-module-name/with.weird.chars/and-more-and-more-and-more";
    let t = migration_table_name_with_hash(long, 0);
    assert_eq!(t, "modkit_migrations__this_is_a_very_long_module_name_wi__00000000");
    assert_eq!(t.len(), 63);
}

#[test]
fn statements_per_backend() {
    assert_eq!(applied_migrations_sql(DatabaseBackend::Postgres, "t"), "SELECT version FROM \"t\"");
    assert_eq!(applied_migrations_sql(DatabaseBackend::MySql, "t"), "SELECT version FROM `t`");
    assert_eq!(record_migration_sql(DatabaseBackend::Sqlite, "t"), "INSERT INTO \"t\" (version) VALUES ($1)");
    assert_eq!(record_migration_sql(DatabaseBackend::MySql, "t"), "INSERT INTO `t` (version) VALUES (?)");
    assert_eq!(
        migration_table_exists_sql(DatabaseBackend::Sqlite, "t"),
        "SELECT COUNT(*) FROM sqlite_master WHERE type='table' AND name='t'"
    );
    assert!(create_migration_table_sql(DatabaseBackend::Postgres, "t").contains("CREATE TABLE IF NOT EXISTS \"t\""));
    assert!(create_migration_table_sql(DatabaseBackend::Sqlite, "t").contains("datetime('now')"));
}

#[test]
fn duplicate_name_is_rejected() {
    let err = check_duplicate_names("dup_module", &names(&["m001_dup", "m001_dup"])).unwrap_err();
    match err {
        MigrationError::DuplicateMigrationName { module, name } => {
            assert_eq!(module, "dup_module");
            assert_eq!(name, "m001_dup");
        }
        other => panic!("expected DuplicateMigrationName, got: {other:?}"),
    }
    assert!(check_duplicate_names("m", &names(&["a", "b", "c"])).is_ok());
}

#[test]
fn first_repeated_name_is_reported() {
    let err = check_duplicate_names("m", &names(&["x", "b", "a", "b", "x"])).unwrap_err();
    assert_eq!(err.to_string(), "duplicate migration name 'b' for module 'm'");
}

#[test]
fn names_are_sorted() {
    let sorted = sort_migration_names(names(&["m003_third", "m001_first", "m002_second"]));
    assert_eq!(sorted, names(&["m001_first", "m002_second", "m003_third"]));
    let sorted = sort_migration_names(names(&["b", "a", "ab", "", "B"]));
    assert_eq!(sorted, names(&["", "B", "a", "ab", "b"]));
}

#[test]
fn empty_run_needs_nothing() {
    assert!(matches!(prepare_migration_run("m", vec![]), Ok(None)));
}

#[test]
fn planned_run_applies_pending_in_order() {
    let sorted = prepare_migration_run("m", names(&["m003", "m001", "m002"])).unwrap().unwrap();
    let result = MigrationResult::planned(&sorted, &names(&["m002"]));
    assert_eq!(result.applied, 2);
    assert_eq!(result.skipped, 1);
    assert_eq!(result.applied_names, names(&["m001", "m003"]));
}

#[test]
fn second_run_is_idempotent() {
    let sorted = names(&["m001_initial"]);
    let first = MigrationResult::planned(&sorted, &vec![]);
    assert_eq!(first.applied, 1);
    let second = MigrationResult::planned(&sorted, &first.applied_names);
    assert_eq!(second.applied, 0);
    assert_eq!(second.skipped, 1);
}

#[test]
fn pending_follows_history() {
    let all = names(&["m001_first", "m002_second"]);
    assert_eq!(pending_migrations(&all, false, &vec![]).len(), 2);
    assert_eq!(pending_migrations(&all, true, &names(&["m001_first"])), names(&["m002_second"]));
    assert!(pending_migrations(&vec![], false, &vec![]).is_empty());
}

#[test]
fn migration_error_messages() {
    let e = MigrationError::MigrationFailed {
        module: "m".to_owned(),
        migration: "m1".to_owned(),
        source: "boom".to_owned(),
    };
    assert_eq!(e.to_string(), "migration 'm1' failed for module 'm': boom");
    let e = MigrationError::CreateTable { module: "m".to_owned(), source: "x".to_owned() };
    assert_eq!(e.to_string(), "failed to create migration table for module 'm': x");
}

#[test]
fn modules_get_separate_tables() {
    let a = migration_table_name("module_a");
    let b = migration_table_name("module_b");
    assert_ne!(a, b);
    assert!(a.starts_with("modkit_migrations__module_a__"));
    assert!(b.starts_with("modkit_migrations__module_b__"));
    assert_ne!(
        migration_table_name_with_hash("module_a", 7),
        migration_table_name_with_hash("module_b", 7)
    );
}
