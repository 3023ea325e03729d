//! A migration run as a state machine: the driver performs each action on the
//! database and hands back what came of it; the run decides what comes next.
//!
//! A run rejects an empty or duplicated list first, then creates the history
//! table, reads it, and applies every pending migration in name order, each
//! in its own transaction: begin, `up`, record, commit. A failure of `up` or of
//! the record rolls the transaction back and ends the run with that error;
//! nothing after it runs.

use vstd::prelude::*;

use crate::claims_error::texts;
use crate::migration_runner::{
    migration_table_exists_sql, pending_migrations, pending_migrations_spec, table_exists_from_row, table_exists_from_row_spec, table_exists_sql,
    ExistsRow,
    lemma_table_names_distinct,
    applied_migrations_sql, create_migration_table_sql, create_table_sql, first_repeat, holds,
    insert_applied_sql, migration_table_name_with_hash, pending_names, prepare_migration_run,
    record_migration_sql, sanitized, select_applied_sql, skipped_names, sorted_texts, table_name, xxh3_64, xxh3_64_of,
    DatabaseBackend, MigrationError, MigrationResult,
};
use crate::seq_facts::lemma_filter_step;
use crate::text::owned;
use vstd::string::StringSliceAdditionalSpecFns;

verus! {

/// What the driver of a run does next.
#[derive(Debug)]
pub enum RunAction {
    /// Execute this statement: it creates the history table if it is missing.
    Execute(String),
    /// Run this query and answer with the versions it returns.
    Query(String),
    /// Open a transaction for the named migration.
    Begin(String),
    /// Run the `up` step of the named migration inside the transaction.
    Up(String),
    /// Execute this statement inside the transaction with the migration's name
    /// (the second field) bound to its parameter.
    Record(String, String),
    /// Commit the transaction.
    Commit,
    /// Roll the transaction back; what comes of it does not matter.
    Rollback,
    /// The run is over, with this outcome.
    Finish(Result<MigrationResult, MigrationError>),
}

/// What came of the last action.
#[derive(Debug)]
pub enum RunEvent {
    /// It succeeded.
    Done,
    /// The query succeeded and returned these versions.
    Rows(Vec<String>),
    /// It failed with this database error message.
    Failed(String),
}

/// The action a run waits on.
#[derive(Debug, Clone, Copy, PartialEq, Eq, Structural)]
pub enum RunPhase {
    CreateTable,
    QueryHistory,
    Begin,
    Up,
    Record,
    Commit,
    Rollback,
    Finished,
}

/// The state of a migration run.
#[derive(Debug)]
pub struct MigrationRun {
    /// The module whose migrations run.
    pub module: String,
    /// The hash of the module name.
    pub hash: u64,
    /// The module's history table.
    pub table: String,
    /// The dialect of the statements.
    pub backend: DatabaseBackend,
    /// The migration names in the order they are applied.
    pub names: Vec<String>,
    /// The versions the history table held when it was read.
    pub history: Vec<String>,
    /// The migration in progress, or the number of names considered so far.
    pub pos: usize,
    /// The action the run waits on.
    pub phase: RunPhase,
    /// What the run has applied and skipped so far.
    pub result: MigrationResult,
    /// The error that ends the run once the rollback is done.
    pub failure: Option<MigrationError>,
}

/// The position of the first migration at or after `pos` that the history
/// does not hold, or the number of names when there is none.
pub open spec fn next_pending(names: Seq<Seq<char>>, history: Seq<Seq<char>>, pos: int) -> int
    decreases names.len() - pos,
{
    if pos < 0 || pos >= names.len() {
        names.len() as int
    } else if history.contains(names[pos]) {
        next_pending(names, history, pos + 1)
    } else {
        pos
    }
}

/// The result of a run that applied every pending name of `names` and skipped the rest.
pub open spec fn planned_result(r: MigrationResult, names: Seq<Seq<char>>, history: Seq<Seq<char>>) -> bool {
    &&& texts(r.applied_names@) == pending_names(names, history)
    &&& r.applied == r.applied_names@.len()
    &&& r.skipped == skipped_names(names, history).len()
}

/// The versions a query answered with.
pub open spec fn event_rows(e: RunEvent) -> Seq<Seq<char>> {
    match e {
        RunEvent::Rows(v) => texts(v@),
        _ => seq![],
    }
}

/// The message of a failure.
pub open spec fn event_message(e: RunEvent) -> Seq<char> {
    match e {
        RunEvent::Failed(m) => m@,
        _ => seq![],
    }
}

pub open spec fn create_table_failed(e: MigrationError, module: Seq<char>, source: Seq<char>) -> bool {
    e matches MigrationError::CreateTable { module: a, source: b } && a@ == module && b@ == source
}

pub open spec fn query_history_failed(e: MigrationError, module: Seq<char>, source: Seq<char>) -> bool {
    e matches MigrationError::QueryHistory { module: a, source: b } && a@ == module && b@ == source
}

pub open spec fn migration_failed(e: MigrationError, module: Seq<char>, migration: Seq<char>, source: Seq<char>) -> bool {
    e matches MigrationError::MigrationFailed { module: a, migration: b, source: c } && a@ == module && b@
        == migration && c@ == source
}

pub open spec fn record_failed(e: MigrationError, module: Seq<char>, migration: Seq<char>, source: Seq<char>) -> bool {
    e matches MigrationError::RecordFailed { module: a, migration: b, source: c } && a@ == module && b@
        == migration && c@ == source
}

/// Every statement of an action reads or writes the given history table only:
/// it is one of the statements built on that table.
pub open spec fn uses_table_only(r: RunAction, backend: DatabaseBackend, table: Seq<char>) -> bool {
    match r {
        RunAction::Execute(s) => s@ == create_table_sql(backend, table),
        RunAction::Query(s) => s@ == select_applied_sql(backend, table),
        RunAction::Record(s, _) => s@ == insert_applied_sql(backend, table),
        _ => true,
    }
}

impl MigrationRun {
    /// The names of the run as texts.
    pub open spec fn name_texts(self) -> Seq<Seq<char>> {
        texts(self.names@)
    }

    /// The history of the run as texts.
    pub open spec fn history_texts(self) -> Seq<Seq<char>> {
        texts(self.history@)
    }

    /// What the run has done with the names before `pos`: every pending one
    /// applied in order, every other skipped.
    pub open spec fn counted(self) -> bool {
        &&& texts(self.result.applied_names@) == pending_names(
            self.name_texts().take(self.pos as int),
            self.history_texts(),
        )
        &&& self.result.applied == self.result.applied_names@.len()
        &&& self.result.skipped == skipped_names(self.name_texts().take(self.pos as int), self.history_texts()).len()
        &&& self.result.applied + self.result.skipped == self.pos
    }

    /// Whether the phase holds a migration in progress.
    pub open spec fn in_transaction(self) -> bool {
        ||| self.phase == RunPhase::Begin
        ||| self.phase == RunPhase::Up
        ||| self.phase == RunPhase::Record
        ||| self.phase == RunPhase::Commit
        ||| self.phase == RunPhase::Rollback
    }

    /// The invariant of a run.
    pub open spec fn wf(self) -> bool {
        &&& self.table@ == table_name(self.module@, self.hash)
        &&& sorted_texts(self.name_texts())
        &&& self.pos <= self.names@.len()
        &&& (self.phase == RunPhase::CreateTable || self.phase == RunPhase::QueryHistory) ==> self.pos == 0
        &&& self.in_transaction() ==> self.pos < self.names@.len() && !self.history_texts().contains(
            self.name_texts()[self.pos as int],
        )
        &&& (self.phase == RunPhase::Rollback) == (self.failure is Some)
        &&& self.phase != RunPhase::Finished ==> self.counted()
    }

    /// After moving on from position `start`: the run stands at the next
    /// pending migration and asks to begin it, or, when none is left, has
    /// finished with every pending migration applied and the rest skipped.
    pub open spec fn advanced(self, start: int, r: RunAction) -> bool {
        &&& self.pos == next_pending(self.name_texts(), self.history_texts(), start)
        &&& if self.pos == self.names@.len() {
            &&& self.phase == RunPhase::Finished
            &&& r matches RunAction::Finish(Ok(res)) && planned_result(res, self.name_texts(), self.history_texts())
        } else {
            &&& self.phase == RunPhase::Begin
            &&& r matches RunAction::Begin(n) && n@ == self.name_texts()[self.pos as int]
        }
    }

    /// Starts a run of the named migrations for a module: an empty list
    /// finishes at once with nothing applied; a list with a repeated name
    /// finishes with that error; otherwise the run asks to create the
    /// module's history table.
    #[verifier::rlimit(100)]
    pub fn start(module_name: &str, backend: DatabaseBackend, names: Vec<String>) -> (r: (MigrationRun, RunAction))
        ensures
            r.0.wf(),
            r.0.module@ == module_name@,
            r.0.hash == xxh3_64_of(module_name.spec_bytes()),
            r.0.backend == backend,
            names@.len() == 0 ==> r.0.phase == RunPhase::Finished && (r.1 matches RunAction::Finish(Ok(res))
                && res.applied == 0 && res.skipped == 0 && res.applied_names@.len() == 0),
            names@.len() > 0 && first_repeat(texts(names@)) is Some ==> r.0.phase == RunPhase::Finished && (
            r.1 matches RunAction::Finish(Err(MigrationError::DuplicateMigrationName { module, name }))
                && module@ == module_name@ && name@ == texts(names@)[first_repeat(texts(names@))->0]),
            names@.len() > 0 && first_repeat(texts(names@)) is None ==> {
                &&& r.0.phase == RunPhase::CreateTable
                &&& r.0.name_texts().to_multiset() == texts(names@).to_multiset()
                &&& r.1 matches RunAction::Execute(s) && s@ == create_table_sql(backend, r.0.table@)
            },
            uses_table_only(r.1, r.0.backend, r.0.table@),
    {
        let hash = xxh3_64(module_name.as_bytes());
        let table = migration_table_name_with_hash(module_name, hash);
        let empty = MigrationResult { applied: 0, skipped: 0, applied_names: Vec::new() };
        proof {
            assert(texts(Seq::<String>::empty()) =~= Seq::<Seq<char>>::empty());
        }
        match prepare_migration_run(module_name, names) {
            Ok(None) => {
                let run = MigrationRun {
                    module: owned(module_name),
                    hash,
                    table,
                    backend,
                    names: Vec::new(),
                    history: Vec::new(),
                    pos: 0,
                    phase: RunPhase::Finished,
                    result: MigrationResult { applied: 0, skipped: 0, applied_names: Vec::new() },
                    failure: None,
                };
                (run, RunAction::Finish(Ok(empty)))
            },
            Err(e) => {
                let run = MigrationRun {
                    module: owned(module_name),
                    hash,
                    table,
                    backend,
                    names: Vec::new(),
                    history: Vec::new(),
                    pos: 0,
                    phase: RunPhase::Finished,
                    result: empty,
                    failure: None,
                };
                (run, RunAction::Finish(Err(e)))
            },
            Ok(Some(sorted)) => {
                let sql = create_migration_table_sql(backend, table.as_str());
                proof {
                    lemma_empty_filters(texts(sorted@), Seq::<Seq<char>>::empty());
                }
                let run = MigrationRun {
                    module: owned(module_name),
                    hash,
                    table,
                    backend,
                    names: sorted,
                    history: Vec::new(),
                    pos: 0,
                    phase: RunPhase::CreateTable,
                    result: empty,
                    failure: None,
                };
                (run, RunAction::Execute(sql))
            },
        }
    }

    /// Moves past the migrations that the history holds, from `pos` on, and
    /// asks to begin the next one, or finishes the run when none is left.
    fn advance(&mut self) -> (r: RunAction)
        requires
            old(self).table@ == table_name(old(self).module@, old(self).hash),
            sorted_texts(old(self).name_texts()),
            old(self).pos <= old(self).names@.len(),
            old(self).counted(),
            old(self).failure is None,
        ensures
            final(self).wf(),
            final(self).module@ == old(self).module@,
            final(self).hash == old(self).hash,
            final(self).table@ == old(self).table@,
            final(self).backend == old(self).backend,
            final(self).names@ == old(self).names@,
            final(self).history@ == old(self).history@,
            final(self).advanced(old(self).pos as int, r),
    {
        let ghost names = self.name_texts();
        let ghost hist = self.history_texts();
        let ghost start = self.pos as int;
        let ghost p = |n: Seq<char>| !hist.contains(n);
        let ghost q = |n: Seq<char>| hist.contains(n);
        while self.pos < self.names.len() && holds(&self.history, self.history.len(), &self.names[self.pos as usize])
            invariant
                self.table@ == table_name(self.module@, self.hash),
                self.module@ == old(self).module@,
                self.hash == old(self).hash,
                self.table@ == old(self).table@,
                self.backend == old(self).backend,
                self.names@ == old(self).names@,
                self.history@ == old(self).history@,
                names == self.name_texts(),
                hist == self.history_texts(),
                names.len() == self.names@.len(),
                p == (|n: Seq<char>| !hist.contains(n)),
                q == (|n: Seq<char>| hist.contains(n)),
                sorted_texts(names),
                self.pos <= self.names@.len(),
                self.counted(),
                self.failure is None,
                next_pending(names, hist, self.pos as int) == next_pending(names, hist, start),
            decreases self.names@.len() - self.pos,
        {
            let ghost i = self.pos as int;
            proof {
                assert(hist.take(hist.len() as int) =~= hist);
                assert(names[i] == self.names@[i]@);
                lemma_filter_step(names, p, i);
                lemma_filter_step(names, q, i);
            }
            self.result.skipped = self.result.skipped + 1;
            self.pos = self.pos + 1;
        }
        proof {
            if self.pos < self.names@.len() {
                assert(hist.take(hist.len() as int) =~= hist);
                assert(names[self.pos as int] == self.names@[self.pos as int]@);
            }
        }
        if self.pos == self.names.len() {
            self.phase = RunPhase::Finished;
            let mut done: Vec<String> = Vec::new();
            core::mem::swap(&mut done, &mut self.result.applied_names);
            let res = MigrationResult { applied: self.result.applied, skipped: self.result.skipped, applied_names: done };
            proof {
                assert(names.take(names.len() as int) =~= names);
            }
            RunAction::Finish(Ok(res))
        } else {
            self.phase = RunPhase::Begin;
            RunAction::Begin(self.names[self.pos].clone())
        }
    }

    /// Takes what came of the last action and decides the next one.
    pub fn step(&mut self, event: RunEvent) -> (r: RunAction)
        requires
            old(self).wf(),
            old(self).phase != RunPhase::Finished,
        ensures
            final(self).wf(),
            final(self).module@ == old(self).module@,
            final(self).hash == old(self).hash,
            final(self).table@ == old(self).table@,
            final(self).backend == old(self).backend,
            final(self).names@ == old(self).names@,
            uses_table_only(r, old(self).backend, old(self).table@),
            // Creating the history table.
            old(self).phase == RunPhase::CreateTable && event is Failed ==> final(self).phase == RunPhase::Finished
                && (r matches RunAction::Finish(Err(e)) && create_table_failed(e, old(self).module@, event_message(event))),
            old(self).phase == RunPhase::CreateTable && !(event is Failed) ==> final(self).phase
                == RunPhase::QueryHistory && (r matches RunAction::Query(s) && s@ == select_applied_sql(
                old(self).backend,
                old(self).table@,
            )),
            // Reading the history.
            old(self).phase == RunPhase::QueryHistory && event is Failed ==> final(self).phase == RunPhase::Finished
                && (r matches RunAction::Finish(Err(e)) && query_history_failed(e, old(self).module@, event_message(event))),
            old(self).phase == RunPhase::QueryHistory && !(event is Failed) ==> final(self).history_texts()
                == event_rows(event) && final(self).advanced(0, r),
            // Opening the transaction of the migration at `pos`.
            old(self).phase == RunPhase::Begin && event is Failed ==> final(self).phase == RunPhase::Finished && (
            r matches RunAction::Finish(Err(e)) && migration_failed(
                e,
                old(self).module@,
                old(self).name_texts()[old(self).pos as int],
                event_message(event),
            )),
            old(self).phase == RunPhase::Begin && !(event is Failed) ==> final(self).phase == RunPhase::Up
                && final(self).pos == old(self).pos && (r matches RunAction::Up(n) && n@ == old(
                self,
            ).name_texts()[old(self).pos as int]),
            // Its `up` step.
            old(self).phase == RunPhase::Up && event is Failed ==> final(self).phase == RunPhase::Rollback && r
                is Rollback && migration_failed(
                final(self).failure->0,
                old(self).module@,
                old(self).name_texts()[old(self).pos as int],
                event_message(event),
            ),
            old(self).phase == RunPhase::Up && !(event is Failed) ==> final(self).phase == RunPhase::Record
                && final(self).pos == old(self).pos && (r matches RunAction::Record(s, n) && s@
                == insert_applied_sql(old(self).backend, old(self).table@) && n@ == old(self).name_texts()[old(
                self,
            ).pos as int]),
            // Recording it in the history.
            old(self).phase == RunPhase::Record && event is Failed ==> final(self).phase == RunPhase::Rollback && r
                is Rollback && record_failed(
                final(self).failure->0,
                old(self).module@,
                old(self).name_texts()[old(self).pos as int],
                event_message(event),
            ),
            old(self).phase == RunPhase::Record && !(event is Failed) ==> final(self).phase == RunPhase::Commit
                && final(self).pos == old(self).pos && r is Commit,
            // Committing it.
            old(self).phase == RunPhase::Commit && event is Failed ==> final(self).phase == RunPhase::Finished && (
            r matches RunAction::Finish(Err(e)) && migration_failed(
                e,
                old(self).module@,
                old(self).name_texts()[old(self).pos as int],
                event_message(event),
            )),
            old(self).phase == RunPhase::Commit && !(event is Failed) ==> final(self).history@ == old(self).history@
                && final(self).advanced(old(self).pos + 1, r),
            // Rolling it back after a failure.
            old(self).phase == RunPhase::Rollback ==> final(self).phase == RunPhase::Finished && r
                == RunAction::Finish(Err(old(self).failure->0)),
    {
        let ghost names = self.name_texts();
        match self.phase {
            RunPhase::CreateTable => match event {
                RunEvent::Failed(m) => {
                    self.phase = RunPhase::Finished;
                    RunAction::Finish(Err(MigrationError::CreateTable { module: self.module.clone(), source: m }))
                },
                _ => {
                    self.phase = RunPhase::QueryHistory;
                    RunAction::Query(applied_migrations_sql(self.backend, self.table.as_str()))
                },
            },
            RunPhase::QueryHistory => match event {
                RunEvent::Failed(m) => {
                    self.phase = RunPhase::Finished;
                    RunAction::Finish(Err(MigrationError::QueryHistory { module: self.module.clone(), source: m }))
                },
                RunEvent::Rows(v) => {
                    proof {
                        lemma_empty_filters(names, self.history_texts());
                    }
                    self.history = v;
                    proof {
                        lemma_empty_filters(names, self.history_texts());
                    }
                    self.advance()
                },
                RunEvent::Done => {
                    proof {
                        lemma_empty_filters(names, self.history_texts());
                    }
                    self.history = Vec::new();
                    proof {
                        assert(self.history_texts() =~= Seq::<Seq<char>>::empty());
                        lemma_empty_filters(names, self.history_texts());
                    }
                    self.advance()
                },
            },
            RunPhase::Begin => match event {
                RunEvent::Failed(m) => {
                    self.phase = RunPhase::Finished;
                    RunAction::Finish(
                        Err(
                            MigrationError::MigrationFailed {
                                module: self.module.clone(),
                                migration: self.names[self.pos].clone(),
                                source: m,
                            },
                        ),
                    )
                },
                _ => {
                    self.phase = RunPhase::Up;
                    RunAction::Up(self.names[self.pos].clone())
                },
            },
            RunPhase::Up => match event {
                RunEvent::Failed(m) => {
                    self.failure = Some(
                        MigrationError::MigrationFailed {
                            module: self.module.clone(),
                            migration: self.names[self.pos].clone(),
                            source: m,
                        },
                    );
                    self.phase = RunPhase::Rollback;
                    RunAction::Rollback
                },
                _ => {
                    self.phase = RunPhase::Record;
                    RunAction::Record(
                        record_migration_sql(self.backend, self.table.as_str()),
                        self.names[self.pos].clone(),
                    )
                },
            },
            RunPhase::Record => match event {
                RunEvent::Failed(m) => {
                    self.failure = Some(
                        MigrationError::RecordFailed {
                            module: self.module.clone(),
                            migration: self.names[self.pos].clone(),
                            source: m,
                        },
                    );
                    self.phase = RunPhase::Rollback;
                    RunAction::Rollback
                },
                _ => {
                    self.phase = RunPhase::Commit;
                    RunAction::Commit
                },
            },
            RunPhase::Commit => match event {
                RunEvent::Failed(m) => {
                    self.phase = RunPhase::Finished;
                    RunAction::Finish(
                        Err(
                            MigrationError::MigrationFailed {
                                module: self.module.clone(),
                                migration: self.names[self.pos].clone(),
                                source: m,
                            },
                        ),
                    )
                },
                _ => {
                    assert(self.in_transaction());
                    let len = self.names.len();
                    assert(self.pos < len);
                    let ghost hist = self.history_texts();
                    let ghost i = self.pos as int;
                    let ghost prev = self.result.applied_names@;
                    proof {
                        lemma_filter_step(names, |n: Seq<char>| !hist.contains(n), i);
                        lemma_filter_step(names, |n: Seq<char>| hist.contains(n), i);
                    }
                    let n = self.names[self.pos].clone();
                    self.result.applied_names.push(n);
                    self.result.applied = self.result.applied + 1;
                    self.pos = self.pos + 1;
                    proof {
                        assert(texts(self.result.applied_names@) =~= texts(prev).push(names[i]));
                        assert(next_pending(names, hist, i + 1) == next_pending(names, hist, self.pos as int));
                    }
                    self.advance()
                },
            },
            RunPhase::Rollback => {
                let mut failure: Option<MigrationError> = None;
                core::mem::swap(&mut failure, &mut self.failure);
                self.phase = RunPhase::Finished;
                match failure {
                    Some(e) => RunAction::Finish(Err(e)),
                    None => {
                        proof {
                            assert(false);
                        }
                        RunAction::Rollback
                    },
                }
            },
            RunPhase::Finished => {
                proof {
                    assert(false);
                }
                RunAction::Rollback
            },
        }
    }

    /// Whether the run is over.
    pub fn is_finished(&self) -> (r: bool)
        ensures
            r == (self.phase == RunPhase::Finished),
    {
        self.phase == RunPhase::Finished
    }
}

/// Runs of modules whose sanitized names differ and fit in a table name
/// whole never touch each other's history table: every statement of a run
/// names its own module's table only (see `step`), and those tables differ.
pub proof fn lemma_runs_keep_to_own_tables(a: MigrationRun, b: MigrationRun)
    requires
        a.wf(),
        b.wf(),
        sanitized(a.module@) != sanitized(b.module@),
        sanitized(a.module@).len() <= 34,
        sanitized(b.module@).len() <= 34,
    ensures
        a.table@ != b.table@,
        a.table@ == table_name(a.module@, a.hash),
        b.table@ == table_name(b.module@, b.hash),
{
    lemma_table_names_distinct(a.module@, b.module@, a.hash, b.hash);
}

/// Filtering the empty prefix of any names leaves nothing, whatever the history.
proof fn lemma_empty_filters(names: Seq<Seq<char>>, hist: Seq<Seq<char>>)
    ensures
        pending_names(names.take(0), hist) == Seq::<Seq<char>>::empty(),
        skipped_names(names.take(0), hist) == Seq::<Seq<char>>::empty(),
{
    reveal_with_fuel(Seq::filter, 1);
    assert(names.take(0) =~= Seq::<Seq<char>>::empty());
    assert(pending_names(names.take(0), hist) =~= Seq::<Seq<char>>::empty());
    assert(skipped_names(names.take(0), hist) =~= Seq::<Seq<char>>::empty());
}

/// What the driver of a pending-migrations check does next.
#[derive(Debug)]
pub enum PendingAction {
    /// Run this query and answer with the one value of its row.
    QueryExists(String),
    /// Run this query and answer with the versions it returns.
    Query(String),
    /// The check is over, with the names of the migrations not yet applied.
    Finish(Result<Vec<String>, MigrationError>),
}

/// What came of the last query of a pending-migrations check.
#[derive(Debug)]
pub enum PendingEvent {
    /// The table-exists query answered with this row value.
    Exists(ExistsRow),
    /// The history query returned these versions.
    Rows(Vec<String>),
    /// The query failed with this database error message.
    Failed(String),
}

/// The query a pending-migrations check waits on.
#[derive(Debug, Clone, Copy, PartialEq, Eq, Structural)]
pub enum PendingPhase {
    Exists,
    History,
    Finished,
}

/// The state of a check of which migrations a module has not applied yet.
#[derive(Debug)]
pub struct PendingCheck {
    /// The module whose migrations are checked.
    pub module: String,
    /// The hash of the module name.
    pub hash: u64,
    /// The module's history table.
    pub table: String,
    /// The dialect of the statements.
    pub backend: DatabaseBackend,
    /// The migration names, in the order given.
    pub names: Vec<String>,
    /// The query the check waits on.
    pub phase: PendingPhase,
}

impl PendingCheck {
    /// The invariant of a check.
    pub open spec fn wf(self) -> bool {
        &&& self.table@ == table_name(self.module@, self.hash)
        &&& self.phase != PendingPhase::Finished ==> self.names@.len() > 0
    }

    /// Starts a check: an empty list has nothing pending; otherwise the check
    /// asks whether the module's history table exists.
    pub fn start(module_name: &str, backend: DatabaseBackend, names: Vec<String>) -> (r: (PendingCheck, PendingAction))
        ensures
            r.0.wf(),
            r.0.module@ == module_name@,
            r.0.hash == xxh3_64_of(module_name.spec_bytes()),
            r.0.backend == backend,
            r.0.names@ == names@,
            names@.len() == 0 ==> r.0.phase == PendingPhase::Finished && (r.1 matches PendingAction::Finish(Ok(v))
                && v@.len() == 0),
            names@.len() > 0 ==> r.0.phase == PendingPhase::Exists && (r.1 matches PendingAction::QueryExists(s)
                && s@ == table_exists_sql(backend, r.0.table@)),
    {
        let hash = xxh3_64(module_name.as_bytes());
        let table = migration_table_name_with_hash(module_name, hash);
        if names.len() == 0 {
            let check = PendingCheck {
                module: owned(module_name),
                hash,
                table,
                backend,
                names,
                phase: PendingPhase::Finished,
            };
            (check, PendingAction::Finish(Ok(Vec::new())))
        } else {
            let sql = migration_table_exists_sql(backend, table.as_str());
            let check = PendingCheck {
                module: owned(module_name),
                hash,
                table,
                backend,
                names,
                phase: PendingPhase::Exists,
            };
            (check, PendingAction::QueryExists(sql))
        }
    }

    /// Takes the answer to the last query and decides the next step: a
    /// failed query ends the check with `QueryHistory`; a missing table
    /// leaves every name pending; otherwise the history is read and the names
    /// it does not hold are pending, in the order given.
    pub fn step(&mut self, event: PendingEvent) -> (r: PendingAction)
        requires
            old(self).wf(),
            old(self).phase != PendingPhase::Finished,
            old(self).phase == PendingPhase::Exists ==> !(event is Rows),
            old(self).phase == PendingPhase::History ==> !(event is Exists),
        ensures
            final(self).wf(),
            final(self).module@ == old(self).module@,
            final(self).hash == old(self).hash,
            final(self).table@ == old(self).table@,
            final(self).backend == old(self).backend,
            final(self).names@ == old(self).names@,
            event is Failed ==> final(self).phase == PendingPhase::Finished && (r matches PendingAction::Finish(
                Err(e),
            ) && query_history_failed(e, old(self).module@, pending_message(event))),
            event matches PendingEvent::Exists(row) ==> if table_exists_from_row_spec(row) {
                &&& final(self).phase == PendingPhase::History
                &&& r matches PendingAction::Query(s) && s@ == select_applied_sql(old(self).backend, old(self).table@)
            } else {
                &&& final(self).phase == PendingPhase::Finished
                &&& r matches PendingAction::Finish(Ok(v)) && texts(v@) == texts(old(self).names@)
            },
            event is Rows ==> final(self).phase == PendingPhase::Finished && (r matches PendingAction::Finish(Ok(v))
                && texts(v@) == pending_migrations_spec(texts(old(self).names@), true, event_rows_of(event))),
    {
        match event {
            PendingEvent::Failed(m) => {
                self.phase = PendingPhase::Finished;
                PendingAction::Finish(Err(MigrationError::QueryHistory { module: self.module.clone(), source: m }))
            },
            PendingEvent::Exists(row) => {
                if table_exists_from_row(row) {
                    self.phase = PendingPhase::History;
                    PendingAction::Query(applied_migrations_sql(self.backend, self.table.as_str()))
                } else {
                    self.phase = PendingPhase::Finished;
                    let none: Vec<String> = Vec::new();
                    let v = pending_migrations(&self.names, false, &none);
                    PendingAction::Finish(Ok(v))
                }
            },
            PendingEvent::Rows(applied) => {
                self.phase = PendingPhase::Finished;
                PendingAction::Finish(Ok(pending_migrations(&self.names, true, &applied)))
            },
        }
    }
}

/// The message of a failed query of a pending-migrations check.
pub open spec fn pending_message(e: PendingEvent) -> Seq<char> {
    match e {
        PendingEvent::Failed(m) => m@,
        _ => seq![],
    }
}

/// The versions a history query of a pending-migrations check returned.
pub open spec fn event_rows_of(e: PendingEvent) -> Seq<Seq<char>> {
    match e {
        PendingEvent::Rows(v) => texts(v@),
        _ => seq![],
    }
}

} // verus!
