//! Running schema migrations: which migrations to apply, in which order, and
//! what to record after each.
//!
//! The number of applied migrations is kept in the metadata table. Missing
//! migrations are applied in order; after each one, its number (counting from
//! 1) is recorded. A migration that fails because the column it adds already
//! exists counts as applied.

use vstd::prelude::*;
use crate::text::{contains, contains_seq};

verus! {

/// Outside work of a migration run.
#[derive(Debug, Clone, Copy, PartialEq, Eq, Structural)]
pub enum MigrationAction {
    /// Execute the migration with this index.
    Apply(usize),
    /// Record that this many migrations are applied.
    RecordVersion(i64),
}

/// The outcome of a [`MigrationAction`].
#[derive(Debug)]
pub enum MigrationEvent {
    /// A statement succeeded.
    Done,
    /// A statement failed; the error's message.
    Failed(String),
}

/// Where a migration run stands.
#[derive(Debug, Clone, Copy, PartialEq, Eq, Structural)]
pub enum MigrationState {
    /// Waiting for the migration with this index to run.
    Applying(usize),
    /// Waiting for the version after the migration with this index to be recorded.
    Recording(usize),
}

/// A migration run over `total` migrations.
#[derive(Debug, Clone, Copy, PartialEq, Eq, Structural)]
pub struct MigrationRun {
    pub total: usize,
    pub state: MigrationState,
}

/// What a step of a migration run gives.
#[derive(Debug)]
pub enum MigrationStep {
    Continue(MigrationRun, MigrationAction),
    /// Every migration is applied.
    Finished,
    /// A migration or the recording failed with this message.
    Failed(String),
}

/// A failure that still counts the migration as applied.
pub open spec fn is_ignorable_failure(msg: Seq<char>) -> bool {
    contains_seq(msg, "duplicate column name"@)
}

/// The first step of a run whose recorded version is `current_version`: up to
/// date when at least `total` migrations are recorded (or there are none),
/// otherwise apply the first missing one.
pub open spec fn migration_start(current_version: i64, total: usize, r: Option<(MigrationRun, MigrationAction)>) -> bool {
    if current_version >= total || total == 0 {
        r is None
    } else {
        let first: usize = if current_version < 0 { 0 } else { current_version as usize };
        r == Some((
            MigrationRun { total, state: MigrationState::Applying(first) },
            MigrationAction::Apply(first),
        ))
    }
}

/// Well-formed runs.
pub open spec fn migration_run_valid(run: MigrationRun) -> bool {
    match run.state {
        MigrationState::Applying(i) => i < run.total,
        MigrationState::Recording(i) => i < run.total,
    }
}

/// One step of a migration run.
pub open spec fn migration_next(run: MigrationRun, ev: MigrationEvent, r: MigrationStep) -> bool {
    match run.state {
        MigrationState::Applying(i) => match ev {
            MigrationEvent::Failed(m) if !is_ignorable_failure(m@) => r == MigrationStep::Failed(m),
            _ => r == MigrationStep::Continue(
                MigrationRun { state: MigrationState::Recording(i), ..run },
                MigrationAction::RecordVersion((i + 1) as i64),
            ),
        },
        MigrationState::Recording(i) => match ev {
            MigrationEvent::Failed(m) => r == MigrationStep::Failed(m),
            MigrationEvent::Done => if i + 1 < run.total {
                r == MigrationStep::Continue(
                    MigrationRun { state: MigrationState::Applying((i + 1) as usize), ..run },
                    MigrationAction::Apply((i + 1) as usize),
                )
            } else {
                r == MigrationStep::Finished
            },
        },
    }
}

impl MigrationRun {
    /// Start a run of `total` migrations when `current_version` are recorded
    /// as applied; `None` when the schema is up to date.
    pub fn start(current_version: i64, total: usize) -> (r: Option<(MigrationRun, MigrationAction)>)
        requires
            total <= i64::MAX,
        ensures
            migration_start(current_version, total, r),
            r matches Some((run, _)) ==> migration_run_valid(run),
    {
        if current_version >= total as i64 || total == 0 {
            return None;
        }
        let first: usize = if current_version < 0 { 0 } else { current_version as usize };
        Some((MigrationRun { total, state: MigrationState::Applying(first) }, MigrationAction::Apply(first)))
    }

    /// Advances the run with the outcome of its last statement.
    pub fn step(self, ev: MigrationEvent) -> (r: MigrationStep)
        requires
            migration_run_valid(self),
            self.total <= i64::MAX,
        ensures
            migration_next(self, ev, r),
            r matches MigrationStep::Continue(run, _) ==> migration_run_valid(run),
    {
        match self.state {
            MigrationState::Applying(i) => match ev {
                MigrationEvent::Failed(m) => {
                    if contains(m.as_str(), "duplicate column name") {
                        Self::recording(self, i)
                    } else {
                        MigrationStep::Failed(m)
                    }
                },
                MigrationEvent::Done => Self::recording(self, i),
            },
            MigrationState::Recording(i) => match ev {
                MigrationEvent::Failed(m) => MigrationStep::Failed(m),
                MigrationEvent::Done => {
                    if i + 1 < self.total {
                        MigrationStep::Continue(
                            MigrationRun { state: MigrationState::Applying(i + 1), ..self },
                            MigrationAction::Apply(i + 1),
                        )
                    } else {
                        MigrationStep::Finished
                    }
                },
            },
        }
    }

    fn recording(self, i: usize) -> (r: MigrationStep)
        requires
            i < self.total <= i64::MAX,
        ensures
            r == MigrationStep::Continue(
                MigrationRun { state: MigrationState::Recording(i), ..self },
                MigrationAction::RecordVersion((i + 1) as i64),
            ),
    {
        MigrationStep::Continue(
            MigrationRun { state: MigrationState::Recording(i), ..self },
            MigrationAction::RecordVersion((i + 1) as i64),
        )
    }
}

/// Migrations are applied in order, one index at a time, and the version
/// recorded after migration `i` is `i + 1`: every step either ends the run or
/// moves it forward.
pub proof fn law_migrations_in_order(run: MigrationRun, ev: MigrationEvent, r: MigrationStep)
    requires
        migration_run_valid(run),
        migration_next(run, ev, r),
    ensures
        r matches MigrationStep::Continue(next, a) ==> match (run.state, next.state) {
            (MigrationState::Applying(i), MigrationState::Recording(j)) => j == i && a == MigrationAction::RecordVersion((i + 1) as i64),
            (MigrationState::Recording(i), MigrationState::Applying(j)) => j == i + 1 && a == MigrationAction::Apply(j),
            _ => false,
        },
        r is Finished ==> run.state == MigrationState::Recording((run.total - 1) as usize),
{
}

/// Running the migrations again changes nothing: a run finishes only once the
/// version after the last migration, `total`, is recorded, and a run that
/// starts from that recorded version applies no migration at all.
pub proof fn law_migrations_idempotent(
    run: MigrationRun,
    ev: MigrationEvent,
    r: MigrationStep,
    again: Option<(MigrationRun, MigrationAction)>,
)
    requires
        migration_run_valid(run),
        run.total <= i64::MAX,
        migration_next(run, ev, r),
        r is Finished,
        migration_start(run.total as i64, run.total, again),
    ensures
        run.state == MigrationState::Recording((run.total - 1) as usize),
        ev is Done,
        again is None,
{
}

} // verus!
