//! Opening a thread's database session, and the repair that the first
//! session of the process runs.
//!
//! Every thread opens a session of its own. The first session that the
//! process opens also repairs the database: it records the present time as
//! the last time the device was known to be off the body, removes what a
//! crash during key generation left behind, and tells the garbage collector.
//! A latch that the whole process shares lets exactly one session do so;
//! sessions that arrive meanwhile wait, and no session is handed out before
//! the repair is done.

use vstd::prelude::*;

verus! {

/// What the startup latch has seen.
#[derive(Clone, Copy, Debug, PartialEq, Eq, Structural)]
pub enum LatchState {
    /// No session has reached the latch yet.
    Unarmed,
    /// One session is repairing the database.
    Repairing,
    /// The repair is done; it removed `removed` leftover entries.
    Armed { removed: usize },
    /// The repair failed. The latch never recovers.
    Poisoned,
}

/// The single-fire gate in front of the database repair. The process has
/// one, and every step of every session goes through it.
pub struct StartupLatch {
    state: LatchState,
}

impl View for StartupLatch {
    type V = LatchState;

    closed spec fn view(&self) -> LatchState {
        self.state
    }
}

impl StartupLatch {
    /// A latch that no session has reached.
    pub fn new() -> (latch: StartupLatch)
        ensures
            latch@ == LatchState::Unarmed,
    {
        StartupLatch { state: LatchState::Unarmed }
    }

    /// What the latch has seen.
    pub fn state(&self) -> (state: LatchState)
        ensures
            state == self@,
    {
        self.state
    }
}

/// How far a session has come.
#[derive(Clone, Copy, Debug, PartialEq, Eq, Structural)]
pub enum Phase {
    /// Nothing was asked yet.
    Idle,
    /// The database is being opened.
    Opening,
    /// Another session is repairing; this one waits for the latch.
    Waiting,
    /// This session repairs: the off-body time is being recorded.
    Marking,
    /// This session repairs: leftovers are being removed.
    Cleaning,
    /// This session repairs: the `removed` leftovers are being reported.
    Reporting { removed: usize },
    /// This session repairs: the garbage collector is being told.
    Notifying { removed: usize },
    /// The session is ready for use.
    Open,
    /// The session failed for good.
    Failed,
}

/// The progress of one thread's session. Only [`create_thread_local_db`]
/// moves it.
pub struct DbSession {
    phase: Phase,
}

impl View for DbSession {
    type V = Phase;

    closed spec fn view(&self) -> Phase {
        self.phase
    }
}

impl DbSession {
    /// A session of which nothing was asked yet.
    pub fn new() -> (session: DbSession)
        ensures
            session@ == Phase::Idle,
    {
        DbSession { phase: Phase::Idle }
    }

    /// How far the session has come.
    pub fn phase(&self) -> (phase: Phase)
        ensures
            phase == self@,
    {
        self.phase
    }
}

/// A call that the embedding process makes on behalf of a session.
#[derive(Clone, Copy, Debug, PartialEq, Eq, Structural)]
pub enum DbCall {
    /// Open the database at the storage root.
    OpenDatabase,
    /// Block until the latch has left [`LatchState::Repairing`].
    Wait,
    /// Record the present time as the last known off-body time.
    InsertLastOffBody,
    /// Remove the entries that an interrupted key generation left behind.
    CleanupLeftovers,
    /// Report that `removed` leftover entries were removed.
    ReportLeftovers { removed: usize },
    /// Tell the garbage collector that there may be something to collect.
    NotifyGc,
}

/// The outcome of a [`DbCall`].
#[derive(Clone, Copy, Debug, PartialEq, Eq, Structural)]
pub enum DbReply {
    /// The answer to [`DbCall::OpenDatabase`].
    Opened { ok: bool },
    /// The answer to [`DbCall::Wait`].
    Woken,
    /// The answer to [`DbCall::InsertLastOffBody`].
    LastOffBodyInserted { ok: bool },
    /// The answer to [`DbCall::CleanupLeftovers`]: how many entries were
    /// removed, or `None` if the cleanup failed.
    LeftoversCleaned { removed: Option<usize> },
    /// The answer to [`DbCall::ReportLeftovers`].
    Reported,
    /// The answer to [`DbCall::NotifyGc`].
    GcNotified,
}

/// Why a session failed. Each is a failure of the storage, and none is
/// retried.
#[derive(Clone, Copy, Debug, PartialEq, Eq, Structural)]
pub enum StorageFailure {
    /// The database could not be opened.
    Open,
    /// The off-body time could not be recorded.
    LastOffBody,
    /// The leftovers could not be removed.
    Cleanup,
    /// An earlier session failed to repair the database.
    Poisoned,
}

/// What a step of a session decides.
#[derive(Clone, Copy, Debug, PartialEq, Eq, Structural)]
pub enum DbStep {
    /// Make this call and come back with its outcome.
    Call(DbCall),
    /// The session is ready. The repair of this process removed `removed`
    /// leftover entries.
    Ready { removed: usize },
    /// The session failed.
    Failed(StorageFailure),
    /// The reply does not answer the call that is pending, or the latch is
    /// not the one that this session holds; nothing changed.
    Rejected,
}

/// What a session does when it reaches the latch with its database open.
pub open spec fn at_latch(latch: LatchState) -> (LatchState, Phase, DbStep) {
    match latch {
        LatchState::Unarmed => (
            LatchState::Repairing,
            Phase::Marking,
            DbStep::Call(DbCall::InsertLastOffBody),
        ),
        LatchState::Repairing => (latch, Phase::Waiting, DbStep::Call(DbCall::Wait)),
        LatchState::Armed { removed } => (latch, Phase::Open, DbStep::Ready { removed }),
        LatchState::Poisoned => (latch, Phase::Failed, DbStep::Failed(StorageFailure::Poisoned)),
    }
}

/// One step of a session: the latch and the phase after it, and what it
/// decides.
///
/// A session opens its database first. At the latch it becomes the repairer
/// if the latch is unarmed, waits if another session repairs, is ready if the
/// repair is done, and fails if the repair failed. The repairer records the
/// off-body time, removes the leftovers, reports them if there were any, and
/// tells the garbage collector, in this order; then it arms the latch.
pub open spec fn session_step(latch: LatchState, phase: Phase, reply: Option<DbReply>) -> (
    LatchState,
    Phase,
    DbStep,
) {
    let repairing = latch == LatchState::Repairing;
    match (phase, reply) {
        (Phase::Idle, None) => (latch, Phase::Opening, DbStep::Call(DbCall::OpenDatabase)),
        (Phase::Opening, Some(DbReply::Opened { ok })) => if ok {
            at_latch(latch)
        } else {
            (latch, Phase::Failed, DbStep::Failed(StorageFailure::Open))
        },
        (Phase::Waiting, Some(DbReply::Woken)) => at_latch(latch),
        (Phase::Marking, Some(DbReply::LastOffBodyInserted { ok })) if repairing => if ok {
            (latch, Phase::Cleaning, DbStep::Call(DbCall::CleanupLeftovers))
        } else {
            (LatchState::Poisoned, Phase::Failed, DbStep::Failed(StorageFailure::LastOffBody))
        },
        (Phase::Cleaning, Some(DbReply::LeftoversCleaned { removed })) if repairing => match removed {
            Some(removed) => if removed != 0 {
                (
                    latch,
                    Phase::Reporting { removed },
                    DbStep::Call(DbCall::ReportLeftovers { removed }),
                )
            } else {
                (latch, Phase::Notifying { removed }, DbStep::Call(DbCall::NotifyGc))
            },
            None => (LatchState::Poisoned, Phase::Failed, DbStep::Failed(StorageFailure::Cleanup)),
        },
        (Phase::Reporting { removed }, Some(DbReply::Reported)) if repairing => (
            latch,
            Phase::Notifying { removed },
            DbStep::Call(DbCall::NotifyGc),
        ),
        (Phase::Notifying { removed }, Some(DbReply::GcNotified)) if repairing => (
            LatchState::Armed { removed },
            Phase::Open,
            DbStep::Ready { removed },
        ),
        _ => (latch, phase, DbStep::Rejected),
    }
}

/// Takes one step of opening the calling thread's database session.
///
/// Start with [`DbSession::new`] and no reply. While the step is
/// [`DbStep::Call`], make the call and step again with the session returned
/// and the call's outcome. The session may be used once the step is
/// [`DbStep::Ready`]. The latch must be the one latch of the process, and no
/// other step may run between reading and writing it.
pub fn create_thread_local_db(
    latch: &mut StartupLatch,
    session: DbSession,
    reply: Option<DbReply>,
) -> (next: (DbSession, DbStep))
    ensures
        (final(latch)@, next.0@, next.1) == session_step(old(latch)@, session@, reply),
{
    let (state, phase, step) = decide(latch.state, session.phase, reply);
    latch.state = state;
    (DbSession { phase }, step)
}

fn decide(latch: LatchState, phase: Phase, reply: Option<DbReply>) -> (next: (
    LatchState,
    Phase,
    DbStep,
))
    ensures
        next == session_step(latch, phase, reply),
{
    let repairing = latch == LatchState::Repairing;
    match (phase, reply) {
        (Phase::Idle, None) => (latch, Phase::Opening, DbStep::Call(DbCall::OpenDatabase)),
        (Phase::Opening, Some(DbReply::Opened { ok })) => {
            if ok {
                reach_latch(latch)
            } else {
                (latch, Phase::Failed, DbStep::Failed(StorageFailure::Open))
            }
        },
        (Phase::Waiting, Some(DbReply::Woken)) => reach_latch(latch),
        (Phase::Marking, Some(DbReply::LastOffBodyInserted { ok })) if repairing => {
            if ok {
                (latch, Phase::Cleaning, DbStep::Call(DbCall::CleanupLeftovers))
            } else {
                (LatchState::Poisoned, Phase::Failed, DbStep::Failed(StorageFailure::LastOffBody))
            }
        },
        (Phase::Cleaning, Some(DbReply::LeftoversCleaned { removed })) if repairing => {
            match removed {
                Some(removed) => {
                    if removed != 0 {
                        (
                            latch,
                            Phase::Reporting { removed },
                            DbStep::Call(DbCall::ReportLeftovers { removed }),
                        )
                    } else {
                        (latch, Phase::Notifying { removed }, DbStep::Call(DbCall::NotifyGc))
                    }
                },
                None => (
                    LatchState::Poisoned,
                    Phase::Failed,
                    DbStep::Failed(StorageFailure::Cleanup),
                ),
            }
        },
        (Phase::Reporting { removed }, Some(DbReply::Reported)) if repairing => (
            latch,
            Phase::Notifying { removed },
            DbStep::Call(DbCall::NotifyGc),
        ),
        (Phase::Notifying { removed }, Some(DbReply::GcNotified)) if repairing => (
            LatchState::Armed { removed },
            Phase::Open,
            DbStep::Ready { removed },
        ),
        _ => (latch, phase, DbStep::Rejected),
    }
}

fn reach_latch(latch: LatchState) -> (next: (LatchState, Phase, DbStep))
    ensures
        next == at_latch(latch),
{
    match latch {
        LatchState::Unarmed => (
            LatchState::Repairing,
            Phase::Marking,
            DbStep::Call(DbCall::InsertLastOffBody),
        ),
        LatchState::Repairing => (latch, Phase::Waiting, DbStep::Call(DbCall::Wait)),
        LatchState::Armed { removed } => (latch, Phase::Open, DbStep::Ready { removed }),
        LatchState::Poisoned => (latch, Phase::Failed, DbStep::Failed(StorageFailure::Poisoned)),
    }
}

/// A latch that has fired stays as it is: once it is armed or poisoned, no
/// step of any session changes it, and no step asks for a call of the
/// repair.
pub proof fn lemma_latch_fires_once(latch: LatchState, phase: Phase, reply: Option<DbReply>)
    requires
        latch is Armed || latch is Poisoned,
    ensures
        session_step(latch, phase, reply).0 == latch,
        session_step(latch, phase, reply).2 matches DbStep::Call(call) ==> call == DbCall::OpenDatabase,
{
}

/// A session that is ready or has failed stays so: every further step is
/// rejected, and a failure is not retried.
pub proof fn lemma_ended_session_stays_ended(
    latch: LatchState,
    phase: Phase,
    reply: Option<DbReply>,
)
    requires
        phase is Open || phase is Failed,
    ensures
        session_step(latch, phase, reply) == (latch, phase, DbStep::Rejected),
{
}

impl Phase {
    /// Whether a session in this phase is the one that repairs.
    pub open spec fn repairs(self) -> bool {
        self is Marking || self is Cleaning || self is Reporting || self is Notifying
    }
}

/// The startup of a whole process: the latch, the session of every thread,
/// and what the sessions have asked for and were told so far.
pub struct Startup {
    /// The one latch.
    pub latch: LatchState,
    /// The phase of each thread's session. A thread that is not listed has
    /// asked for nothing yet.
    pub sessions: Map<int, Phase>,
    /// The thread whose session became the repairer, if any has.
    pub repairer: Option<int>,
    /// How often the off-body time was asked to be recorded.
    pub marked: nat,
    /// How often the leftovers were asked to be removed.
    pub cleaned: nat,
    /// How often the garbage collector was asked to be told.
    pub notified: nat,
    /// How many leftovers the cleanup said it removed.
    pub found: Option<usize>,
    /// The number of removed leftovers that each ready session was given.
    pub told: Map<int, usize>,
}

impl Startup {
    /// A process in which no thread has asked for a session.
    pub open spec fn initial() -> Startup {
        Startup {
            latch: LatchState::Unarmed,
            sessions: Map::empty(),
            repairer: None,
            marked: 0,
            cleaned: 0,
            notified: 0,
            found: None,
            told: Map::empty(),
        }
    }

    /// The phase of `thread`'s session.
    pub open spec fn phase_of(self, thread: int) -> Phase {
        if self.sessions.contains_key(thread) {
            self.sessions[thread]
        } else {
            Phase::Idle
        }
    }

    /// The process after `thread`'s session took one step with `reply`.
    pub open spec fn step(self, thread: int, reply: Option<DbReply>) -> Startup {
        let before = self.phase_of(thread);
        let (latch, phase, step) = session_step(self.latch, before, reply);
        Startup {
            latch,
            sessions: self.sessions.insert(thread, phase),
            repairer: if step == DbStep::Call(DbCall::InsertLastOffBody) {
                Some(thread)
            } else {
                self.repairer
            },
            marked: if step == DbStep::Call(DbCall::InsertLastOffBody) {
                self.marked + 1
            } else {
                self.marked
            },
            cleaned: if step == DbStep::Call(DbCall::CleanupLeftovers) {
                self.cleaned + 1
            } else {
                self.cleaned
            },
            notified: if step == DbStep::Call(DbCall::NotifyGc) {
                self.notified + 1
            } else {
                self.notified
            },
            found: match reply {
                Some(DbReply::LeftoversCleaned { removed: Some(removed) }) if before is Cleaning
                    && step != DbStep::Rejected => Some(removed),
                _ => self.found,
            },
            told: match step {
                DbStep::Ready { removed } => self.told.insert(thread, removed),
                _ => self.told,
            },
        }
    }

    /// The process after the steps of `trace`, each the thread that stepped
    /// and the reply it stepped with, in the order in which they went
    /// through the latch.
    pub open spec fn run(trace: Seq<(int, Option<DbReply>)>) -> Startup
        decreases trace.len(),
    {
        if trace.len() == 0 {
            Startup::initial()
        } else {
            Startup::run(trace.drop_last()).step(trace.last().0, trace.last().1)
        }
    }

    /// What holds of a process at every moment.
    pub open spec fn consistent(self) -> bool {
        &&& forall|thread: int| #[trigger]
            self.phase_of(thread).repairs() <==> self.latch is Repairing && self.repairer == Some(
                thread,
            )
        &&& forall|thread: int| #[trigger]
            self.phase_of(thread) is Open <==> self.told.contains_key(thread)
        &&& forall|thread: int| #[trigger]
            self.told.contains_key(thread) ==> self.latch == (LatchState::Armed {
                removed: self.told[thread],
            })
        &&& match self.latch {
            LatchState::Unarmed => self.marked == 0 && self.cleaned == 0 && self.notified == 0
                && self.found is None,
            LatchState::Repairing => self.repairer is Some && match self.phase_of(
                self.repairer.unwrap(),
            ) {
                Phase::Marking => self.marked == 1 && self.cleaned == 0 && self.notified == 0
                    && self.found is None,
                Phase::Cleaning => self.marked == 1 && self.cleaned == 1 && self.notified == 0
                    && self.found is None,
                Phase::Reporting { removed } => self.marked == 1 && self.cleaned == 1
                    && self.notified == 0 && self.found == Some(removed),
                Phase::Notifying { removed } => self.marked == 1 && self.cleaned == 1
                    && self.notified == 1 && self.found == Some(removed),
                _ => false,
            },
            LatchState::Armed { removed } => self.marked == 1 && self.cleaned == 1 && self.notified
                == 1 && self.found == Some(removed),
            LatchState::Poisoned => self.marked == 1 && self.cleaned <= 1 && self.notified == 0,
        }
    }
}

/// A step of any session keeps the process consistent.
pub proof fn lemma_step_keeps_consistent(before: Startup, thread: int, reply: Option<DbReply>)
    requires
        before.consistent(),
    ensures
        before.step(thread, reply).consistent(),
{
    let after = before.step(thread, reply);
    assert forall|other: int| other != thread implies #[trigger] after.phase_of(other)
        == before.phase_of(other) by {}
    assert(before.phase_of(thread).repairs() <==> before.latch is Repairing && before.repairer
        == Some(thread));
    assert(before.phase_of(thread) is Open <==> before.told.contains_key(thread));
    assert forall|other: int| #[trigger]
        after.phase_of(other).repairs() <==> after.latch is Repairing && after.repairer == Some(
            other,
        ) by {
        assert(before.phase_of(other).repairs() <==> before.latch is Repairing && before.repairer
            == Some(other));
    }
    assert forall|other: int| #[trigger]
        after.phase_of(other) is Open <==> after.told.contains_key(other) by {
        assert(before.phase_of(other) is Open <==> before.told.contains_key(other));
    }
    assert forall|other: int| #[trigger] after.told.contains_key(other) implies after.latch == (
    LatchState::Armed { removed: after.told[other] }) by {
        if before.told.contains_key(other) {
            assert(before.latch == (LatchState::Armed { removed: before.told[other] }));
        }
    }
    if before.repairer is Some {
        let repairer = before.repairer.unwrap();
        assert(before.phase_of(repairer).repairs() <==> before.latch is Repairing
            && before.repairer == Some(repairer));
    }
}

/// However the sessions of a process interleave, the repair runs at most
/// once and in order: the off-body time is recorded before the leftovers are
/// removed, and those before the garbage collector is told. No session is
/// ready before the repair has run to its end, once, and every ready session
/// was given the number of leftovers that this one repair removed.
pub proof fn lemma_repair_runs_once(trace: Seq<(int, Option<DbReply>)>)
    ensures
        ({
            let end = Startup::run(trace);
            &&& end.consistent()
            &&& end.notified <= end.cleaned <= end.marked <= 1
            &&& forall|thread: int| #[trigger]
                end.phase_of(thread) is Open ==> {
                    &&& end.marked == 1 && end.cleaned == 1 && end.notified == 1
                    &&& end.told.contains_key(thread)
                    &&& end.found == Some(end.told[thread])
                    &&& end.latch == (LatchState::Armed { removed: end.told[thread] })
                }
        }),
    decreases trace.len(),
{
    if trace.len() > 0 {
        lemma_repair_runs_once(trace.drop_last());
        lemma_step_keeps_consistent(
            Startup::run(trace.drop_last()),
            trace.last().0,
            trace.last().1,
        );
    }
    let end = Startup::run(trace);
    assert forall|thread: int| #[trigger] end.phase_of(thread) is Open implies {
        &&& end.marked == 1 && end.cleaned == 1 && end.notified == 1
        &&& end.told.contains_key(thread)
        &&& end.found == Some(end.told[thread])
        &&& end.latch == (LatchState::Armed { removed: end.told[thread] })
    } by {
        assert(end.told.contains_key(thread));
    }
    if end.repairer is Some {
        let repairer = end.repairer.unwrap();
        assert(end.phase_of(repairer).repairs() <==> end.latch is Repairing && end.repairer
            == Some(repairer));
    }
}

} // verus!
