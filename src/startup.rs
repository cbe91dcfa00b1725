//! The steps that bring the server up: open the database pool, apply the
//! pending migrations, then bind the listener. Either failure ends start-up
//! for good, before anything listens. The caller performs each action and
//! reports how it went; this machine decides what comes next.

use vstd::prelude::*;

verus! {

/// The step of start-up that failed.
#[derive(Clone, Copy, Debug, PartialEq, Eq, Structural)]
pub enum StartupFailure {
    Pool,
    Migrations,
}

/// Where start-up stands.
#[derive(Clone, Copy, Debug, PartialEq, Eq, Structural)]
pub enum StartupPhase {
    Connecting,
    Migrating,
    Serving,
    Aborted(StartupFailure),
}

/// What the last action came to.
#[derive(Clone, Copy, Debug, PartialEq, Eq, Structural)]
pub enum StartupEvent {
    PoolCreated,
    PoolFailed,
    MigrationsApplied,
    MigrationsFailed,
}

/// What the caller is to do next.
#[derive(Clone, Copy, Debug, PartialEq, Eq, Structural)]
pub enum StartupAction {
    ConnectPool,
    RunMigrations,
    Bind,
    Abort(StartupFailure),
}

/// The diagnostic printed when start-up ends on a failure.
pub open spec fn failure_message(f: StartupFailure) -> Seq<char> {
    match f {
        StartupFailure::Pool => "Failed to create database pool"@,
        StartupFailure::Migrations => "Failed to run migrations"@,
    }
}

impl StartupFailure {
    /// The diagnostic for this failure.
    pub fn message(&self) -> (r: String)
        ensures
            r@ == failure_message(*self),
    {
        match self {
            StartupFailure::Pool => String::from_str("Failed to create database pool"),
            StartupFailure::Migrations => String::from_str("Failed to run migrations"),
        }
    }
}

/// The phase that an event moves a phase to. An event that does not answer
/// the phase's action leaves it as it is; an aborted start-up stays aborted.
pub open spec fn next_phase(p: StartupPhase, e: StartupEvent) -> StartupPhase {
    match (p, e) {
        (StartupPhase::Connecting, StartupEvent::PoolCreated) => StartupPhase::Migrating,
        (StartupPhase::Connecting, StartupEvent::PoolFailed) => StartupPhase::Aborted(
            StartupFailure::Pool,
        ),
        (StartupPhase::Migrating, StartupEvent::MigrationsApplied) => StartupPhase::Serving,
        (StartupPhase::Migrating, StartupEvent::MigrationsFailed) => StartupPhase::Aborted(
            StartupFailure::Migrations,
        ),
        _ => p,
    }
}

/// The action that a phase asks for.
pub open spec fn action_of(p: StartupPhase) -> StartupAction {
    match p {
        StartupPhase::Connecting => StartupAction::ConnectPool,
        StartupPhase::Migrating => StartupAction::RunMigrations,
        StartupPhase::Serving => StartupAction::Bind,
        StartupPhase::Aborted(f) => StartupAction::Abort(f),
    }
}

/// The phase reached from the start after a sequence of events.
pub open spec fn phase_after(events: Seq<StartupEvent>) -> StartupPhase
    decreases events.len(),
{
    if events.len() == 0 {
        StartupPhase::Connecting
    } else {
        next_phase(phase_after(events.drop_last()), events.last())
    }
}

/// A start-up in progress.
pub struct Startup {
    phase: StartupPhase,
}

impl View for Startup {
    type V = StartupPhase;

    closed spec fn view(&self) -> StartupPhase {
        self.phase
    }
}

impl Startup {
    /// A start-up that has done nothing yet.
    pub fn new() -> (r: Startup)
        ensures
            r@ == phase_after(Seq::empty()),
    {
        Startup { phase: StartupPhase::Connecting }
    }

    /// Where start-up stands.
    pub fn phase(&self) -> (r: StartupPhase)
        ensures
            r == self@,
    {
        self.phase
    }

    /// What the caller is to do next.
    pub fn action(&self) -> (r: StartupAction)
        ensures
            r == action_of(self@),
    {
        match self.phase {
            StartupPhase::Connecting => StartupAction::ConnectPool,
            StartupPhase::Migrating => StartupAction::RunMigrations,
            StartupPhase::Serving => StartupAction::Bind,
            StartupPhase::Aborted(f) => StartupAction::Abort(f),
        }
    }

    /// Takes in what the last action came to.
    pub fn on_event(&mut self, e: StartupEvent)
        ensures
            final(self)@ == next_phase(old(self)@, e),
    {
        let next = match (self.phase, e) {
            (StartupPhase::Connecting, StartupEvent::PoolCreated) => StartupPhase::Migrating,
            (StartupPhase::Connecting, StartupEvent::PoolFailed) => StartupPhase::Aborted(
                StartupFailure::Pool,
            ),
            (StartupPhase::Migrating, StartupEvent::MigrationsApplied) => StartupPhase::Serving,
            (StartupPhase::Migrating, StartupEvent::MigrationsFailed) => StartupPhase::Aborted(
                StartupFailure::Migrations,
            ),
            (p, _) => p,
        };
        self.phase = next;
    }
}

/// Once aborted, start-up stays aborted, whatever is reported after.
pub proof fn lemma_abort_is_final(events: Seq<StartupEvent>, more: Seq<StartupEvent>)
    requires
        phase_after(events) is Aborted,
    ensures
        phase_after(events + more) == phase_after(events),
    decreases more.len(),
{
    if more.len() > 0 {
        lemma_abort_is_final(events, more.drop_last());
        assert((events + more).drop_last() =~= events + more.drop_last());
        assert((events + more).last() == more.last());
    } else {
        assert(events + more =~= events);
    }
}

/// A run whose pool could not be opened is aborted for that reason.
proof fn lemma_pool_failure_aborts(events: Seq<StartupEvent>)
    requires
        events.len() > 0,
        events[0] == StartupEvent::PoolFailed,
    ensures
        phase_after(events) == StartupPhase::Aborted(StartupFailure::Pool),
    decreases events.len(),
{
    if events.len() > 1 {
        assert(events.drop_last()[0] == events[0]);
        lemma_pool_failure_aborts(events.drop_last());
    } else {
        assert(events.drop_last() =~= Seq::<StartupEvent>::empty());
        assert(phase_after(events.drop_last()) == StartupPhase::Connecting);
    }
}

/// When the pool cannot be opened (a connection string that names no
/// usable database), start-up aborts and at no point asks for the listener
/// to be bound.
pub proof fn lemma_pool_failure_never_binds(events: Seq<StartupEvent>)
    requires
        events.len() > 0,
        events[0] == StartupEvent::PoolFailed,
    ensures
        phase_after(events) == StartupPhase::Aborted(StartupFailure::Pool),
        forall|k: int|
            0 <= k <= events.len() ==> action_of(#[trigger] phase_after(events.take(k)))
                != StartupAction::Bind,
{
    lemma_pool_failure_aborts(events);
    assert forall|k: int| 0 <= k <= events.len() implies action_of(
        #[trigger] phase_after(events.take(k)),
    ) != StartupAction::Bind by {
        if k == 0 {
            assert(events.take(k) =~= Seq::<StartupEvent>::empty());
        } else {
            lemma_pool_failure_aborts(events.take(k));
        }
    }
}

/// The listener is bound only after the pool was opened and, later, the
/// migrations were applied.
pub proof fn lemma_bind_needs_pool_and_migrations(events: Seq<StartupEvent>)
    ensures
        action_of(phase_after(events)) == StartupAction::Bind ==> exists|i: int, j: int|
            0 <= i < j < events.len() && events[i] == StartupEvent::PoolCreated && events[j]
                == StartupEvent::MigrationsApplied,
        phase_after(events) == StartupPhase::Migrating ==> exists|i: int|
            0 <= i < events.len() && events[i] == StartupEvent::PoolCreated,
    decreases events.len(),
{
    if events.len() > 0 {
        let prev = events.drop_last();
        let n = events.len() - 1;
        lemma_bind_needs_pool_and_migrations(prev);
        if phase_after(events) == StartupPhase::Serving {
            if phase_after(prev) == StartupPhase::Serving {
                let (i, j) = choose|i: int, j: int|
                    0 <= i < j < prev.len() && prev[i] == StartupEvent::PoolCreated && prev[j]
                        == StartupEvent::MigrationsApplied;
                assert(events[i] == StartupEvent::PoolCreated && events[j]
                    == StartupEvent::MigrationsApplied);
            } else {
                let i = choose|i: int| 0 <= i < prev.len() && prev[i] == StartupEvent::PoolCreated;
                assert(events[i] == StartupEvent::PoolCreated && events[n]
                    == StartupEvent::MigrationsApplied);
            }
        }
        if phase_after(events) == StartupPhase::Migrating {
            if phase_after(prev) == StartupPhase::Migrating {
                let i = choose|i: int| 0 <= i < prev.len() && prev[i] == StartupEvent::PoolCreated;
                assert(events[i] == StartupEvent::PoolCreated);
            } else {
                assert(events[n] == StartupEvent::PoolCreated);
            }
        }
    }
}

} // verus!
