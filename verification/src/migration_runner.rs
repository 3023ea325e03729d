//! The decisions of the per-module migration runner: the name of each
//! module's migration history table, the statements that create, read and
//! write it, the validation and order of a module's migrations, and which of them
//! a run applies or skips. The statements are executed by the caller.

use vstd::prelude::*;

use vstd::string::StringSliceAdditionalSpecFns;

use crate::claims_error::texts;
use crate::seq_facts::{lemma_filter_keeps, lemma_filter_none, lemma_filter_partition, lemma_filter_step};
use crate::text::{cat, cat3, chars_of, hex_digits, hex_text, lemma_hex_digits_len, owned, push_char,
    string_from_range};

verus! {

/// The database dialects the runner writes statements for.
#[derive(Debug, Clone, Copy, PartialEq, Eq, Structural)]
pub enum DatabaseBackend {
    Postgres,
    MySql,
    Sqlite,
}

/// Characters kept as they are in a table-name fragment.
pub open spec fn is_ident_safe(c: char) -> bool {
    ('a' <= c && c <= 'z') || ('A' <= c && c <= 'Z') || ('0' <= c && c <= '9') || c == '_'
}

/// A module name made into a safe identifier fragment: every character
/// outside `[a-zA-Z0-9_]` becomes `_`, and the empty name becomes `_`.
pub open spec fn sanitized(name: Seq<char>) -> Seq<char> {
    if name.len() == 0 {
        seq!['_']
    } else {
        Seq::new(name.len(), |i: int| if is_ident_safe(name[i]) { name[i] } else { '_' })
    }
}

/// Sanitizes a module name into a safe identifier fragment.
pub fn sanitize_module_name(name: &str) -> (r: String)
    ensures
        r@ == sanitized(name@),
{
    let v = chars_of(name);
    if v.len() == 0 {
        proof {
            reveal_strlit("_");
        }
        let r = owned("_");
        assert(r@ =~= seq!['_']);
        return r;
    }
    let mut out = String::new();
    let mut i: usize = 0;
    while i < v.len()
        invariant
            v@ == name@,
            i <= v@.len(),
            out@.len() == i,
            forall|k: int| 0 <= k < i ==> #[trigger] out@[k] == (if is_ident_safe(v@[k]) { v@[k] } else { '_' }),
        decreases v.len() - i,
    {
        let c = v[i];
        if ('a' <= c && c <= 'z') || ('A' <= c && c <= 'Z') || ('0' <= c && c <= '9') || c == '_' {
            push_char(&mut out, c);
        } else {
            push_char(&mut out, '_');
        }
        i += 1;
    }
    assert(out@ =~= sanitized(name@));
    out
}

/// The 64-bit `xxh3` hash of a byte string.
pub uninterp spec fn xxh3_64_of(bytes: Seq<u8>) -> u64;

/// The `xxh3` 64-bit hash (xxhash-rust's `xxh3::xxh3_64`). Claimed: the
/// result is the hash of exactly the given bytes.
#[verifier::external_body]
pub(crate) fn xxh3_64(input: &[u8]) -> (r: u64)
    ensures
        r == xxh3_64_of(input@),
{
    xxhash_rust::xxh3::xxh3_64(input)
}

/// The longest sanitized fragment kept in a table name: the 63-character
/// identifier limit less the prefix, the separator and the hash.
pub open spec fn max_fragment_len() -> int {
    63 - ("modkit_migrations__"@.len() + "__"@.len() + 8)
}

/// The history table name of a module whose name hashes to `hash`:
/// `modkit_migrations__<fragment>__<hash8>`, where the fragment is the
/// sanitized name cut to fit 63 characters and `<hash8>` the first 8 of the
/// 16 zero-padded lower-case hexadecimal digits of the hash.
pub open spec fn table_name(module_name: Seq<char>, hash: u64) -> Seq<char> {
    let s = sanitized(module_name);
    let fragment = if s.len() > 34 { s.subrange(0, 34) } else { s };
    "modkit_migrations__"@ + fragment + "__"@ + hex_digits(hash as nat, 16).subrange(0, 8)
}

/// The history table name of a module, given the hash of its name.
pub fn migration_table_name_with_hash(module_name: &str, hash: u64) -> (r: String)
    ensures
        r@ == table_name(module_name@, hash),
{
    let s = sanitize_module_name(module_name);
    let sv = chars_of(s.as_str());
    let fragment = if sv.len() > 34 {
        string_from_range(&sv, 0, 34)
    } else {
        s
    };
    let h = hex_text(hash as u128, 16);
    proof {
        lemma_hex_digits_len(hash as nat, 16);
    }
    let hv = chars_of(h.as_str());
    let hash8 = string_from_range(&hv, 0, 8);
    let mut r = cat3("modkit_migrations__", fragment.as_str(), "__");
    r.append(hash8.as_str());
    r
}

/// The history table name of a module: see `table_name`, with the hash of
/// the module name's UTF-8 bytes.
pub fn migration_table_name(module_name: &str) -> (r: String)
    ensures
        r@ == table_name(module_name@, xxh3_64_of(module_name.spec_bytes())),
{
    let hash = xxh3_64(module_name.as_bytes());
    migration_table_name_with_hash(module_name, hash)
}

/// Modules whose sanitized names differ and fit in the table name whole get
/// different history tables, whatever the hashes of their names.
pub proof fn lemma_table_names_distinct(a: Seq<char>, b: Seq<char>, ha: u64, hb: u64)
    requires
        sanitized(a) != sanitized(b),
        sanitized(a).len() <= 34,
        sanitized(b).len() <= 34,
    ensures
        table_name(a, ha) != table_name(b, hb),
{
    let p = "modkit_migrations__"@;
    let sa = sanitized(a);
    let sb = sanitized(b);
    let ta = table_name(a, ha);
    let tb = table_name(b, hb);
    lemma_hex_digits_len(ha as nat, 16);
    lemma_hex_digits_len(hb as nat, 16);
    let qa = "__"@ + hex_digits(ha as nat, 16).subrange(0, 8);
    let qb = "__"@ + hex_digits(hb as nat, 16).subrange(0, 8);
    assert(ta == p + sa + "__"@ + hex_digits(ha as nat, 16).subrange(0, 8));
    assert(ta =~= p + sa + qa);
    assert(tb =~= p + sb + qb);
    assert(qa.len() == qb.len());
    if sa.len() == sb.len() {
        if forall|i: int| 0 <= i < sa.len() ==> sa[i] == sb[i] {
            assert(sa =~= sb);
        }
        let i = choose|i: int| 0 <= i < sa.len() && sa[i] != sb[i];
        assert(ta[p.len() + i] == sa[i]);
        assert(tb[p.len() + i] == sb[i]);
    } else {
        assert(ta.len() != tb.len());
    }
}

/// A table name has at most 63 characters, all of them ASCII letters, digits
/// or `_`, and starts with `modkit_migrations__`, whatever the module name.
pub proof fn lemma_table_name_shape(module_name: Seq<char>, hash: u64)
    ensures
        table_name(module_name, hash).len() <= 63,
        "modkit_migrations__"@.is_prefix_of(table_name(module_name, hash)),
        forall|i: int|
            0 <= i < table_name(module_name, hash).len() ==> is_ident_safe(
                #[trigger] table_name(module_name, hash)[i],
            ),
{
    reveal_strlit("modkit_migrations__");
    reveal_strlit("__");
    lemma_hex_digits_len(hash as nat, 16);
    lemma_hex_digits_safe(hash as nat, 16);
    let t = table_name(module_name, hash);
    let s = sanitized(module_name);
    let fragment = if s.len() > 34 { s.subrange(0, 34) } else { s };
    let h8 = hex_digits(hash as nat, 16).subrange(0, 8);
    assert(t == "modkit_migrations__"@ + fragment + "__"@ + h8);
    assert forall|i: int| 0 <= i < t.len() implies is_ident_safe(#[trigger] t[i]) by {
        let a = "modkit_migrations__"@.len() as int;
        let b = a + fragment.len();
        if i < a {
            assert(t[i] == "modkit_migrations__"@[i]);
        } else if i < b {
            assert(t[i] == fragment[i - a]);
            if s.len() > 34 {
                assert(fragment[i - a] == s[i - a]);
            }
        } else if i < b + 2 {
            assert(t[i] == '_');
        } else {
            assert(t[i] == h8[i - b - 2]);
            assert(h8[i - b - 2] == hex_digits(hash as nat, 16)[i - b - 2]);
        }
    }
    assert(t.subrange(0, "modkit_migrations__"@.len() as int) =~= "modkit_migrations__"@);
}

proof fn lemma_hex_digits_safe(x: nat, n: nat)
    ensures
        forall|i: int| 0 <= i < hex_digits(x, n).len() ==> is_ident_safe(#[trigger] hex_digits(x, n)[i]),
    decreases n,
{
    if n > 0 {
        lemma_hex_digits_safe(x / 16, (n - 1) as nat);
        lemma_hex_digits_len(x / 16, (n - 1) as nat);
    }
}

/// The statement that creates a module's history table if it is missing.
pub open spec fn create_table_sql(backend: DatabaseBackend, table: Seq<char>) -> Seq<char> {
    match backend {
        DatabaseBackend::Postgres => "\n            CREATE TABLE IF NOT EXISTS \""@ + table
            + "\" (\n                version VARCHAR(255) PRIMARY KEY,\n                applied_at TIMESTAMPTZ NOT NULL DEFAULT CURRENT_TIMESTAMP\n            )\n            "@,
        DatabaseBackend::MySql => "\n            CREATE TABLE IF NOT EXISTS `"@ + table
            + "` (\n                version VARCHAR(255) PRIMARY KEY,\n                applied_at TIMESTAMP NOT NULL DEFAULT CURRENT_TIMESTAMP\n            )\n            "@,
        DatabaseBackend::Sqlite => "\n            CREATE TABLE IF NOT EXISTS \""@ + table
            + "\" (\n                version TEXT PRIMARY KEY,\n                applied_at TEXT NOT NULL DEFAULT (datetime('now'))\n            )\n            "@,
    }
}

/// The statement that creates a module's history table if it is missing.
pub fn create_migration_table_sql(backend: DatabaseBackend, table: &str) -> (r: String)
    ensures
        r@ == create_table_sql(backend, table@),
{
    match backend {
        DatabaseBackend::Postgres => cat3(
            "\n            CREATE TABLE IF NOT EXISTS \"",
            table,
            "\" (\n                version VARCHAR(255) PRIMARY KEY,\n                applied_at TIMESTAMPTZ NOT NULL DEFAULT CURRENT_TIMESTAMP\n            )\n            ",
        ),
        DatabaseBackend::MySql => cat3(
            "\n            CREATE TABLE IF NOT EXISTS `",
            table,
            "` (\n                version VARCHAR(255) PRIMARY KEY,\n                applied_at TIMESTAMP NOT NULL DEFAULT CURRENT_TIMESTAMP\n            )\n            ",
        ),
        DatabaseBackend::Sqlite => cat3(
            "\n            CREATE TABLE IF NOT EXISTS \"",
            table,
            "\" (\n                version TEXT PRIMARY KEY,\n                applied_at TEXT NOT NULL DEFAULT (datetime('now'))\n            )\n            ",
        ),
    }
}

/// The statement that reads the applied migrations of a module.
pub open spec fn select_applied_sql(backend: DatabaseBackend, table: Seq<char>) -> Seq<char> {
    match backend {
        DatabaseBackend::MySql => "SELECT version FROM `"@ + table + "`"@,
        _ => "SELECT version FROM \""@ + table + "\""@,
    }
}

/// The statement that reads the applied migrations of a module.
pub fn applied_migrations_sql(backend: DatabaseBackend, table: &str) -> (r: String)
    ensures
        r@ == select_applied_sql(backend, table@),
{
    match backend {
        DatabaseBackend::MySql => cat3("SELECT version FROM `", table, "`"),
        _ => cat3("SELECT version FROM \"", table, "\""),
    }
}

/// The statement that records one applied migration (its name is the one parameter).
pub open spec fn insert_applied_sql(backend: DatabaseBackend, table: Seq<char>) -> Seq<char> {
    match backend {
        DatabaseBackend::MySql => "INSERT INTO `"@ + table + "` (version) VALUES (?)"@,
        _ => "INSERT INTO \""@ + table + "\" (version) VALUES ($1)"@,
    }
}

/// The statement that records one applied migration.
pub fn record_migration_sql(backend: DatabaseBackend, table: &str) -> (r: String)
    ensures
        r@ == insert_applied_sql(backend, table@),
{
    match backend {
        DatabaseBackend::MySql => cat3("INSERT INTO `", table, "` (version) VALUES (?)"),
        _ => cat3("INSERT INTO \"", table, "\" (version) VALUES ($1)"),
    }
}

/// The query that tells whether a module's history table exists.
pub open spec fn table_exists_sql(backend: DatabaseBackend, table: Seq<char>) -> Seq<char> {
    match backend {
        DatabaseBackend::Postgres => "SELECT EXISTS (SELECT 1 FROM information_schema.tables WHERE table_name = '"@
            + table + "')"@,
        DatabaseBackend::MySql => "SELECT COUNT(*) FROM information_schema.tables WHERE table_name = '"@ + table
            + "'"@,
        DatabaseBackend::Sqlite => "SELECT COUNT(*) FROM sqlite_master WHERE type='table' AND name='"@ + table
            + "'"@,
    }
}

/// The query that tells whether a module's history table exists.
pub fn migration_table_exists_sql(backend: DatabaseBackend, table: &str) -> (r: String)
    ensures
        r@ == table_exists_sql(backend, table@),
{
    match backend {
        DatabaseBackend::Postgres => cat3(
            "SELECT EXISTS (SELECT 1 FROM information_schema.tables WHERE table_name = '",
            table,
            "')",
        ),
        DatabaseBackend::MySql => cat3(
            "SELECT COUNT(*) FROM information_schema.tables WHERE table_name = '",
            table,
            "'",
        ),
        DatabaseBackend::Sqlite => cat3(
            "SELECT COUNT(*) FROM sqlite_master WHERE type='table' AND name='",
            table,
            "'",
        ),
    }
}

/// The one value of the row that the table-exists query returns, as the
/// driver read it: a flag (Postgres) or a count (`MySQL`, `SQLite`); `None`
/// when there was no row or its value did not read as that type.
#[derive(Debug, Clone, Copy, PartialEq, Eq)]
pub enum ExistsRow {
    Flag(Option<bool>),
    Count(Option<i64>),
}

/// Whether the history table exists, by the answer of the table-exists query:
/// a flag that reads `true`, or a count above zero.
pub open spec fn table_exists_from_row_spec(row: ExistsRow) -> bool {
    match row {
        ExistsRow::Flag(f) => f == Some(true),
        ExistsRow::Count(c) => c matches Some(n) && n > 0,
    }
}

/// Whether the history table exists (see `table_exists_from_row_spec`).
pub fn table_exists_from_row(row: ExistsRow) -> (r: bool)
    ensures
        r == table_exists_from_row_spec(row),
{
    match row {
        ExistsRow::Flag(f) => match f {
            Some(b) => b,
            None => false,
        },
        ExistsRow::Count(c) => match c {
            Some(n) => n > 0,
            None => false,
        },
    }
}

/// Errors of a migration run; a database error is kept as its message.
#[derive(Debug)]
#[non_exhaustive]
pub enum MigrationError {
    CreateTable { module: String, source: String },
    QueryHistory { module: String, source: String },
    MigrationFailed { module: String, migration: String, source: String },
    RecordFailed { module: String, migration: String, source: String },
    DuplicateMigrationName { module: String, name: String },
}

/// The message of a migration error.
pub open spec fn migration_error_text(e: MigrationError) -> Seq<char> {
    match e {
        MigrationError::CreateTable { module, source } => "failed to create migration table for module '"@
            + module@ + "': "@ + source@,
        MigrationError::QueryHistory { module, source } => "failed to query migration history for module '"@
            + module@ + "': "@ + source@,
        MigrationError::MigrationFailed { module, migration, source } => "migration '"@ + migration@
            + "' failed for module '"@ + module@ + "': "@ + source@,
        MigrationError::RecordFailed { module, migration, source } => "failed to record migration '"@
            + migration@ + "' for module '"@ + module@ + "': "@ + source@,
        MigrationError::DuplicateMigrationName { module, name } => "duplicate migration name '"@ + name@
            + "' for module '"@ + module@ + "'"@,
    }
}

impl MigrationError {
    /// The message of this error.
    pub fn to_string(&self) -> (r: String)
        ensures
            r@ == migration_error_text(*self),
    {
        match self {
            MigrationError::CreateTable { module, source } => {
                let mut r = cat3("failed to create migration table for module '", module.as_str(), "': ");
                r.append(source.as_str());
                r
            },
            MigrationError::QueryHistory { module, source } => {
                let mut r = cat3("failed to query migration history for module '", module.as_str(), "': ");
                r.append(source.as_str());
                r
            },
            MigrationError::MigrationFailed { module, migration, source } => {
                let mut r = cat3("migration '", migration.as_str(), "' failed for module '");
                r.append(module.as_str());
                r.append("': ");
                r.append(source.as_str());
                r
            },
            MigrationError::RecordFailed { module, migration, source } => {
                let mut r = cat3("failed to record migration '", migration.as_str(), "' for module '");
                r.append(module.as_str());
                r.append("': ");
                r.append(source.as_str());
                r
            },
            MigrationError::DuplicateMigrationName { module, name } => {
                let mut r = cat3("duplicate migration name '", name.as_str(), "' for module '");
                r.append(module.as_str());
                r.append("'");
                r
            },
        }
    }
}

/// Result of a migration run.
#[derive(Debug, Clone)]
pub struct MigrationResult {
    /// Number of migrations that were applied.
    pub applied: usize,
    /// Number of migrations that were skipped (already applied).
    pub skipped: usize,
    /// Names of the migrations that were applied.
    pub applied_names: Vec<String>,
}

/// The index of the first name of `names` that an earlier name repeats, if any.
pub open spec fn first_repeat(names: Seq<Seq<char>>) -> Option<int> {
    if exists|j: int| 0 <= j < names.len() && #[trigger] names.take(j).contains(names[j]) {
        Some(choose|j: int|
            0 <= j < names.len() && #[trigger] names.take(j).contains(names[j]) && forall|k: int|
                0 <= k < j ==> !#[trigger] names.take(k).contains(names[k]))
    } else {
        None
    }
}

/// Whether `names` holds `n`.
pub(crate) fn holds(names: &Vec<String>, upto: usize, n: &String) -> (r: bool)
    requires
        upto <= names@.len(),
    ensures
        r == texts(names@).take(upto as int).contains(n@),
{
    let ghost ts = texts(names@);
    let mut i: usize = 0;
    while i < upto
        invariant
            i <= upto <= names@.len(),
            ts == texts(names@),
            forall|k: int| 0 <= k < i ==> ts[k] != n@,
        decreases upto - i,
    {
        if names[i] == *n {
            assert(ts.take(upto as int)[i as int] == n@);
            return true;
        }
        i += 1;
    }
    assert forall|k: int| 0 <= k < upto implies #[trigger] ts.take(upto as int)[k] != n@ by {
        assert(ts.take(upto as int)[k] == ts[k]);
    }
    false
}

/// Rejects a migration list in which a name occurs twice, naming the first
/// repeated occurrence.
pub fn check_duplicate_names(module_name: &str, names: &Vec<String>) -> (r: Result<(), MigrationError>)
    ensures
        match r {
            Ok(()) => first_repeat(texts(names@)) is None,
            Err(e) => first_repeat(texts(names@)) matches Some(j) && e matches MigrationError::DuplicateMigrationName {
                module,
                name,
            } && module@ == module_name@ && name@ == texts(names@)[j],
        },
{
    let ghost ts = texts(names@);
    let mut j: usize = 0;
    while j < names.len()
        invariant
            j <= names@.len(),
            ts == texts(names@),
            ts.len() == names@.len(),
            forall|k: int| 0 <= k < j ==> !#[trigger] ts.take(k).contains(ts[k]),
        decreases names.len() - j,
    {
        if holds(names, j, &names[j]) {
            assert(ts[j as int] == names@[j as int]@);
            proof {
                let w = choose|jj: int|
                    0 <= jj < ts.len() && #[trigger] ts.take(jj).contains(ts[jj]) && forall|k: int|
                        0 <= k < jj ==> !#[trigger] ts.take(k).contains(ts[k]);
                assert(ts.take(j as int).contains(ts[j as int]));
                assert(w == j) by {
                    if w < j {
                    } else if w > j {
                        assert(!ts.take(j as int).contains(ts[j as int]));
                    }
                }
            }
            return Err(MigrationError::DuplicateMigrationName { module: owned(module_name), name: names[j].clone() });
        }
        assert(ts[j as int] == names@[j as int]@);
        j += 1;
    }
    Ok(())
}

/// Strict lexicographic order of texts by character.
pub open spec fn text_lt(a: Seq<char>, b: Seq<char>) -> bool
    decreases a.len(),
{
    if a.len() == 0 {
        b.len() > 0
    } else if b.len() == 0 {
        false
    } else if a[0] != b[0] {
        a[0] < b[0]
    } else {
        text_lt(a.drop_first(), b.drop_first())
    }
}

pub proof fn lemma_text_lt_transitive(a: Seq<char>, b: Seq<char>, c: Seq<char>)
    requires
        text_lt(a, b),
        text_lt(b, c),
    ensures
        text_lt(a, c),
    decreases a.len(),
{
    if a.len() > 0 && b.len() > 0 && c.len() > 0 && a[0] == b[0] && b[0] == c[0] {
        lemma_text_lt_transitive(a.drop_first(), b.drop_first(), c.drop_first());
    }
}

pub proof fn lemma_text_lt_total(a: Seq<char>, b: Seq<char>)
    ensures
        a == b || text_lt(a, b) || text_lt(b, a),
    decreases a.len(),
{
    if a.len() > 0 && b.len() > 0 && a[0] == b[0] {
        lemma_text_lt_total(a.drop_first(), b.drop_first());
        if a.drop_first() == b.drop_first() {
            assert(a =~= seq![a[0]] + a.drop_first());
            assert(b =~= seq![b[0]] + b.drop_first());
        }
    } else if a.len() == 0 && b.len() == 0 {
        assert(a =~= b);
    }
}

pub proof fn lemma_text_lt_irreflexive(a: Seq<char>)
    ensures
        !text_lt(a, a),
    decreases a.len(),
{
    if a.len() > 0 {
        lemma_text_lt_irreflexive(a.drop_first());
    }
}

pub proof fn lemma_text_lt_asymmetric(a: Seq<char>, b: Seq<char>)
    requires
        text_lt(a, b),
    ensures
        !text_lt(b, a),
    decreases a.len(),
{
    if a.len() > 0 && b.len() > 0 && a[0] == b[0] {
        lemma_text_lt_asymmetric(a.drop_first(), b.drop_first());
    }
}

/// Executable `text_lt` on strings.
fn less_than(a: &String, b: &String) -> (r: bool)
    ensures
        r == text_lt(a@, b@),
{
    let av = chars_of(a.as_str());
    let bv = chars_of(b.as_str());
    let mut i: usize = 0;
    assert(av@.skip(0) =~= av@);
    assert(bv@.skip(0) =~= bv@);
    while i < av.len() && i < bv.len() && av[i] == bv[i]
        invariant
            i <= av@.len(),
            i <= bv@.len(),
            text_lt(a@, b@) == text_lt(av@.skip(i as int), bv@.skip(i as int)),
            av@ == a@,
            bv@ == b@,
        decreases av.len() - i,
    {
        assert(av@.skip(i as int).drop_first() =~= av@.skip(i + 1));
        assert(bv@.skip(i as int).drop_first() =~= bv@.skip(i + 1));
        i += 1;
    }
    if i == av.len() {
        i < bv.len()
    } else if i == bv.len() {
        false
    } else {
        assert(av@.skip(i as int)[0] == av@[i as int]);
        assert(bv@.skip(i as int)[0] == bv@[i as int]);
        av[i] < bv[i]
    }
}

/// Whether `s` is in non-decreasing lexicographic order.
pub open spec fn sorted_texts(s: Seq<Seq<char>>) -> bool {
    forall|i: int, j: int| 0 <= i < j < s.len() ==> !text_lt(#[trigger] s[j], #[trigger] s[i])
}

/// The migration names in lexicographic order (a permutation of `names`).
pub fn sort_migration_names(names: Vec<String>) -> (r: Vec<String>)
    ensures
        sorted_texts(texts(r@)),
        texts(r@).to_multiset() == texts(names@).to_multiset(),
{
    let mut out: Vec<String> = Vec::new();
    let mut i: usize = 0;
    let ghost ins = texts(names@);
    assert(texts(out@).to_multiset() =~= ins.take(0).to_multiset()) by {
        assert(texts(out@) =~= ins.take(0));
    }
    while i < names.len()
        invariant
            i <= names@.len(),
            ins == texts(names@),
            ins.len() == names@.len(),
            sorted_texts(texts(out@)),
            texts(out@).to_multiset() == ins.take(i as int).to_multiset(),
        decreases names.len() - i,
    {
        let x = names[i].clone();
        let ghost o = texts(out@);
        let mut p: usize = 0;
        while p < out.len() && !less_than(&x, &out[p])
            invariant
                p <= out@.len(),
                o == texts(out@),
                forall|k: int| 0 <= k < p ==> !text_lt(x@, #[trigger] o[k]),
            decreases out.len() - p,
        {
            p += 1;
        }
        proof {
            // everything at or after p is above x
            if p < out@.len() {
                assert(text_lt(x@, o[p as int]));
            }
            assert forall|k: int| p <= k < o.len() implies text_lt(x@, #[trigger] o[k]) by {
                if k > p {
                    assert(!text_lt(o[k], o[p as int]));
                    lemma_text_lt_total(o[k], o[p as int]);
                    if o[k] != o[p as int] {
                        lemma_text_lt_transitive(x@, o[p as int], o[k]);
                    }
                }
            }
        }
        out.insert(p, x);
        proof {
            let o2 = texts(out@);
            assert(o2 =~= o.insert(p as int, x@));
            assert forall|a: int, b: int| 0 <= a < b < o2.len() implies !text_lt(#[trigger] o2[b], #[trigger] o2[a]) by {
                if a < p && b == p {
                    lemma_text_lt_total(x@, o[a]);
                    if x@ != o[a] {
                        lemma_text_lt_asymmetric(o[a], x@);
                    } else {
                        lemma_text_lt_irreflexive(x@);
                    }
                } else if a == p && b > p {
                    lemma_text_lt_asymmetric(x@, o[b - 1]);
                } else if a < p && b > p {
                    assert(o2[b] == o[b - 1]);
                } else if a > p {
                    assert(o2[a] == o[a - 1] && o2[b] == o[b - 1]);
                }
            }
            vstd::seq_lib::to_multiset_insert(o, p as int, x@);
            assert(ins.take(i + 1) =~= ins.take(i as int).push(ins[i as int]));
            vstd::seq_lib::to_multiset_build(ins.take(i as int), ins[i as int]);
        }
        i += 1;
    }
    assert(ins.take(names@.len() as int) =~= ins);
    out
}

/// The first step of a migration run: an empty list needs nothing (`None`);
/// a list with a repeated name is refused; otherwise the names in the order
/// in which they are applied.
pub fn prepare_migration_run(module_name: &str, names: Vec<String>) -> (r: Result<Option<Vec<String>>, MigrationError>)
    ensures
        names@.len() == 0 ==> r == Ok::<Option<Vec<String>>, MigrationError>(None),
        names@.len() > 0 ==> match r {
            Ok(Some(sorted)) => first_repeat(texts(names@)) is None && sorted_texts(texts(sorted@))
                && texts(sorted@).to_multiset() == texts(names@).to_multiset(),
            Ok(None) => false,
            Err(e) => first_repeat(texts(names@)) matches Some(j) && e matches MigrationError::DuplicateMigrationName {
                module,
                name,
            } && module@ == module_name@ && name@ == texts(names@)[j],
        },
{
    if names.len() == 0 {
        return Ok(None);
    }
    match check_duplicate_names(module_name, &names) {
        Err(e) => Err(e),
        Ok(()) => Ok(Some(sort_migration_names(names))),
    }
}

/// The names of `sorted` that `applied` does not hold, in order.
pub open spec fn pending_names(sorted: Seq<Seq<char>>, applied: Seq<Seq<char>>) -> Seq<Seq<char>> {
    sorted.filter(|n: Seq<char>| !applied.contains(n))
}

/// The names of `sorted` that `applied` holds.
pub open spec fn skipped_names(sorted: Seq<Seq<char>>, applied: Seq<Seq<char>>) -> Seq<Seq<char>> {
    sorted.filter(|n: Seq<char>| applied.contains(n))
}

impl MigrationResult {
    /// The result of a run over `sorted` when the names in `applied` were
    /// applied before and every other one applies: those are applied in
    /// order, the rest skipped.
    pub fn planned(sorted: &Vec<String>, applied: &Vec<String>) -> (r: MigrationResult)
        ensures
            texts(r.applied_names@) == pending_names(texts(sorted@), texts(applied@)),
            r.applied == r.applied_names@.len(),
            r.skipped == skipped_names(texts(sorted@), texts(applied@)).len(),
    {
        let ghost s = texts(sorted@);
        let ghost a = texts(applied@);
        let ghost p = |n: Seq<char>| !a.contains(n);
        let ghost q = |n: Seq<char>| a.contains(n);
        let mut names: Vec<String> = Vec::new();
        let mut skipped: usize = 0;
        let mut i: usize = 0;
        while i < sorted.len()
            invariant
                i <= sorted@.len(),
                s == texts(sorted@),
                a == texts(applied@),
                s.len() == sorted@.len(),
                p == (|n: Seq<char>| !a.contains(n)),
                q == (|n: Seq<char>| a.contains(n)),
                texts(names@) == s.take(i as int).filter(p),
                skipped == s.take(i as int).filter(q).len(),
                skipped <= i,
            decreases sorted.len() - i,
        {
            proof {
                lemma_filter_step(s, p, i as int);
                lemma_filter_step(s, q, i as int);
            }
            let n = &sorted[i];
            assert(s[i as int] == n@);
            if holds(applied, applied.len(), n) {
                assert(a.take(a.len() as int) =~= a);
                skipped += 1;
            } else {
                assert(a.take(a.len() as int) =~= a);
                let ghost prev = names@;
                names.push(n.clone());
                assert(texts(names@) =~= texts(prev).push(n@));
            }
            i += 1;
        }
        assert(s.take(s.len() as int) =~= s);
        MigrationResult { applied: names.len(), skipped, applied_names: names }
    }
}

/// Every migration of a run is either applied or skipped.
pub proof fn lemma_planned_partition(sorted: Seq<Seq<char>>, applied: Seq<Seq<char>>)
    ensures
        pending_names(sorted, applied).len() + skipped_names(sorted, applied).len() == sorted.len(),
{
    let p = |n: Seq<char>| !applied.contains(n);
    let q = |n: Seq<char>| applied.contains(n);
    lemma_filter_partition(sorted, p, q);
}

/// Runs are idempotent: once the pending migrations of a run are recorded
/// as applied, a second run over the same names applies none and skips all.
pub proof fn lemma_second_run_applies_nothing(sorted: Seq<Seq<char>>, applied: Seq<Seq<char>>)
    ensures
        pending_names(sorted, applied + pending_names(sorted, applied)).len() == 0,
        skipped_names(sorted, applied + pending_names(sorted, applied)).len() == sorted.len(),
{
    let pend = pending_names(sorted, applied);
    let after = applied + pend;
    let p = |n: Seq<char>| !applied.contains(n);
    let p2 = |n: Seq<char>| !after.contains(n);
    let q2 = |n: Seq<char>| after.contains(n);
    assert forall|i: int| 0 <= i < sorted.len() implies !p2(#[trigger] sorted[i]) by {
        if applied.contains(sorted[i]) {
            let k = choose|k: int| 0 <= k < applied.len() && applied[k] == sorted[i];
            assert(after[k] == sorted[i]);
        } else {
            lemma_filter_keeps(sorted, p, i);
            let k = choose|k: int| 0 <= k < pend.len() && pend[k] == sorted[i];
            assert(after[applied.len() + k] == sorted[i]);
        }
    }
    lemma_filter_none(sorted, p2);
    lemma_filter_partition(sorted, p2, q2);
}

/// The migrations of `names` not yet applied, in the given order: none for
/// an empty list, all of them when the history table does not exist yet.
pub open spec fn pending_migrations_spec(names: Seq<Seq<char>>, table_exists: bool, applied: Seq<Seq<char>>) -> Seq<
    Seq<char>,
> {
    if names.len() == 0 {
        seq![]
    } else if !table_exists {
        names
    } else {
        pending_names(names, applied)
    }
}

/// The migrations of `names` not yet applied (see `pending_migrations_spec`).
pub fn pending_migrations(names: &Vec<String>, table_exists: bool, applied: &Vec<String>) -> (r: Vec<String>)
    ensures
        texts(r@) == pending_migrations_spec(texts(names@), table_exists, texts(applied@)),
{
    if names.len() == 0 {
        let v: Vec<String> = Vec::new();
        assert(texts(v@) =~= Seq::<Seq<char>>::empty());
        return v;
    }
    if !table_exists {
        return names.clone();
    }
    MigrationResult::planned(names, applied).applied_names
}

} // verus!
