use keystore2::{
    create_thread_local_db, DbCall, DbReply, DbSession, DbStep, LatchState, Phase, StartupLatch,
    StorageFailure,
};

/// A database that answers each call in one fixed way and counts the calls
/// of the repair.
struct Database {
    opens: bool,
    marks: bool,
    leftovers: Option<usize>,
    opened: usize,
    marked: usize,
    cleaned: usize,
    reported: Vec<usize>,
    notified: usize,
    order: Vec<DbCall>,
}

impl Database {
    fn with_leftovers(leftovers: usize) -> Database {
        Database {
            opens: true,
            marks: true,
            leftovers: Some(leftovers),
            opened: 0,
            marked: 0,
            cleaned: 0,
            reported: Vec::new(),
            notified: 0,
            order: Vec::new(),
        }
    }

    fn answer(&mut self, call: DbCall) -> DbReply {
        if call != DbCall::OpenDatabase && call != DbCall::Wait {
            self.order.push(call);
        }
        match call {
            DbCall::OpenDatabase => {
                self.opened += 1;
                DbReply::Opened { ok: self.opens }
            }
            DbCall::Wait => DbReply::Woken,
            DbCall::InsertLastOffBody => {
                self.marked += 1;
                DbReply::LastOffBodyInserted { ok: self.marks }
            }
            DbCall::CleanupLeftovers => {
                self.cleaned += 1;
                DbReply::LeftoversCleaned { removed: self.leftovers }
            }
            DbCall::ReportLeftovers { removed } => {
                self.reported.push(removed);
                DbReply::Reported
            }
            DbCall::NotifyGc => {
                self.notified += 1;
                DbReply::GcNotified
            }
        }
    }
}

/// One thread on its way to a session.
struct Thread {
    session: Option<DbSession>,
    reply: Option<DbReply>,
    end: Option<DbStep>,
}

impl Thread {
    fn new() -> Thread {
        Thread { session: Some(DbSession::new()), reply: None, end: None }
    }

    /// Takes one step, makes the call that the step asks for, and keeps the
    /// outcome for the next step.
    fn advance(&mut self, latch: &mut StartupLatch, database: &mut Database) {
        if self.end.is_some() {
            return;
        }
        let (session, step) =
            create_thread_local_db(latch, self.session.take().unwrap(), self.reply.take());
        self.session = Some(session);
        match step {
            DbStep::Call(call) => self.reply = Some(database.answer(call)),
            DbStep::Rejected => panic!("a reply in kind was rejected"),
            end => self.end = Some(end),
        }
    }
}

/// Runs `threads` threads, letting them step in the order that `schedule`
/// gives, over and over, until all have ended.
fn run(threads: usize, schedule: &[usize], database: &mut Database) -> (StartupLatch, Vec<Thread>) {
    let mut latch = StartupLatch::new();
    let mut all: Vec<Thread> = Vec::new();
    for _ in 0..threads {
        all.push(Thread::new());
    }
    let mut rounds = 0;
    while all.iter().any(|thread| thread.end.is_none()) {
        for &turn in schedule {
            all[turn % threads].advance(&mut latch, database);
        }
        rounds += 1;
        assert!(rounds < 1000, "the sessions do not come to an end");
    }
    (latch, all)
}

#[test]
fn new_latch_is_unarmed_and_new_session_is_idle() {
    assert_eq!(StartupLatch::new().state(), LatchState::Unarmed);
    assert_eq!(DbSession::new().phase(), Phase::Idle);
}

#[test]
fn first_session_repairs_in_order() {
    let mut latch = StartupLatch::new();
    let session = DbSession::new();
    let (session, step) = create_thread_local_db(&mut latch, session, None);
    assert_eq!((session.phase(), step), (Phase::Opening, DbStep::Call(DbCall::OpenDatabase)));
    assert_eq!(latch.state(), LatchState::Unarmed);
    let (session, step) =
        create_thread_local_db(&mut latch, session, Some(DbReply::Opened { ok: true }));
    assert_eq!((session.phase(), step), (Phase::Marking, DbStep::Call(DbCall::InsertLastOffBody)));
    assert_eq!(latch.state(), LatchState::Repairing);
    let (session, step) =
        create_thread_local_db(&mut latch, session, Some(DbReply::LastOffBodyInserted { ok: true }));
    assert_eq!((session.phase(), step), (Phase::Cleaning, DbStep::Call(DbCall::CleanupLeftovers)));
    let (session, step) = create_thread_local_db(
        &mut latch,
        session,
        Some(DbReply::LeftoversCleaned { removed: Some(3) }),
    );
    assert_eq!(
        (session.phase(), step),
        (Phase::Reporting { removed: 3 }, DbStep::Call(DbCall::ReportLeftovers { removed: 3 }))
    );
    let (session, step) = create_thread_local_db(&mut latch, session, Some(DbReply::Reported));
    assert_eq!(
        (session.phase(), step),
        (Phase::Notifying { removed: 3 }, DbStep::Call(DbCall::NotifyGc))
    );
    assert_eq!(latch.state(), LatchState::Repairing);
    let (session, step) = create_thread_local_db(&mut latch, session, Some(DbReply::GcNotified));
    assert_eq!((session.phase(), step), (Phase::Open, DbStep::Ready { removed: 3 }));
    assert_eq!(latch.state(), LatchState::Armed { removed: 3 });
}

#[test]
fn nothing_is_reported_where_nothing_was_left() {
    let mut database = Database::with_leftovers(0);
    let (latch, threads) = run(1, &[0], &mut database);
    assert_eq!(threads[0].end, Some(DbStep::Ready { removed: 0 }));
    assert_eq!(latch.state(), LatchState::Armed { removed: 0 });
    assert_eq!(
        database.order,
        vec![DbCall::InsertLastOffBody, DbCall::CleanupLeftovers, DbCall::NotifyGc]
    );
    assert!(database.reported.is_empty());
}

#[test]
fn later_session_only_opens_its_database() {
    let mut database = Database::with_leftovers(2);
    let mut latch = StartupLatch::new();
    let mut first = Thread::new();
    while first.end.is_none() {
        first.advance(&mut latch, &mut database);
    }
    assert_eq!(first.end, Some(DbStep::Ready { removed: 2 }));
    let calls_of_the_repair = database.order.len();
    let session = DbSession::new();
    let (session, step) = create_thread_local_db(&mut latch, session, None);
    assert_eq!(step, DbStep::Call(DbCall::OpenDatabase));
    let (session, step) =
        create_thread_local_db(&mut latch, session, Some(DbReply::Opened { ok: true }));
    assert_eq!((session.phase(), step), (Phase::Open, DbStep::Ready { removed: 2 }));
    assert_eq!(database.order.len(), calls_of_the_repair);
    assert_eq!(latch.state(), LatchState::Armed { removed: 2 });
}

#[test]
fn session_that_arrives_during_the_repair_waits() {
    let mut latch = StartupLatch::new();
    let (first, _) = create_thread_local_db(&mut latch, DbSession::new(), None);
    let (first, _) = create_thread_local_db(&mut latch, first, Some(DbReply::Opened { ok: true }));
    let (second, _) = create_thread_local_db(&mut latch, DbSession::new(), None);
    let (second, step) =
        create_thread_local_db(&mut latch, second, Some(DbReply::Opened { ok: true }));
    assert_eq!((second.phase(), step), (Phase::Waiting, DbStep::Call(DbCall::Wait)));
    let (second, step) = create_thread_local_db(&mut latch, second, Some(DbReply::Woken));
    assert_eq!((second.phase(), step), (Phase::Waiting, DbStep::Call(DbCall::Wait)));
    let (first, _) =
        create_thread_local_db(&mut latch, first, Some(DbReply::LastOffBodyInserted { ok: true }));
    let (first, _) = create_thread_local_db(
        &mut latch,
        first,
        Some(DbReply::LeftoversCleaned { removed: Some(0) }),
    );
    let (first, step) = create_thread_local_db(&mut latch, first, Some(DbReply::GcNotified));
    assert_eq!((first.phase(), step), (Phase::Open, DbStep::Ready { removed: 0 }));
    let (second, step) = create_thread_local_db(&mut latch, second, Some(DbReply::Woken));
    assert_eq!((second.phase(), step), (Phase::Open, DbStep::Ready { removed: 0 }));
}

#[test]
fn repair_runs_once_however_threads_interleave() {
    let schedules: [&[usize]; 6] = [
        &[0, 1, 2, 3, 4, 5, 6, 7],
        &[7, 6, 5, 4, 3, 2, 1, 0],
        &[0, 0, 0, 0, 0, 0, 1, 2, 3, 4, 5, 6, 7],
        &[3, 1, 3, 1, 4, 1, 5, 0, 2, 6, 5, 3, 7],
        &[0, 1, 0, 2, 0, 3, 0, 4, 0, 5, 0, 6, 0, 7],
        &[7, 7, 1, 1, 0, 0, 2, 3, 4, 5, 6, 7, 7, 7],
    ];
    for schedule in schedules {
        let mut database = Database::with_leftovers(4);
        let (latch, threads) = run(8, schedule, &mut database);
        assert_eq!(database.opened, 8);
        assert_eq!(database.marked, 1);
        assert_eq!(database.cleaned, 1);
        assert_eq!(database.notified, 1);
        assert_eq!(database.reported, vec![4]);
        assert_eq!(
            database.order,
            vec![
                DbCall::InsertLastOffBody,
                DbCall::CleanupLeftovers,
                DbCall::ReportLeftovers { removed: 4 },
                DbCall::NotifyGc,
            ]
        );
        assert_eq!(latch.state(), LatchState::Armed { removed: 4 });
        for thread in &threads {
            assert_eq!(thread.end, Some(DbStep::Ready { removed: 4 }));
        }
    }
}

#[test]
fn database_that_does_not_open_fails_the_session_and_spares_the_latch() {
    let mut database = Database::with_leftovers(0);
    database.opens = false;
    let (latch, threads) = run(3, &[0, 1, 2], &mut database);
    for thread in &threads {
        assert_eq!(thread.end, Some(DbStep::Failed(StorageFailure::Open)));
        assert_eq!(thread.session.as_ref().unwrap().phase(), Phase::Failed);
    }
    assert_eq!(latch.state(), LatchState::Unarmed);
    assert_eq!(database.marked, 0);
}

#[test]
fn failed_off_body_record_poisons_the_latch() {
    let mut database = Database::with_leftovers(0);
    database.marks = false;
    let (latch, threads) = run(3, &[0, 1, 2], &mut database);
    assert_eq!(threads[0].end, Some(DbStep::Failed(StorageFailure::LastOffBody)));
    assert_eq!(threads[1].end, Some(DbStep::Failed(StorageFailure::Poisoned)));
    assert_eq!(threads[2].end, Some(DbStep::Failed(StorageFailure::Poisoned)));
    assert_eq!(latch.state(), LatchState::Poisoned);
    assert_eq!((database.marked, database.cleaned, database.notified), (1, 0, 0));
}

#[test]
fn failed_cleanup_poisons_the_latch() {
    let mut database = Database::with_leftovers(0);
    database.leftovers = None;
    let (latch, threads) = run(2, &[1, 0], &mut database);
    assert_eq!(threads[1].end, Some(DbStep::Failed(StorageFailure::Cleanup)));
    assert_eq!(threads[0].end, Some(DbStep::Failed(StorageFailure::Poisoned)));
    assert_eq!(latch.state(), LatchState::Poisoned);
    assert_eq!((database.marked, database.cleaned, database.notified), (1, 1, 0));
}

#[test]
fn reply_of_the_wrong_kind_changes_neither_session_nor_latch() {
    let mut latch = StartupLatch::new();
    let (session, step) =
        create_thread_local_db(&mut latch, DbSession::new(), Some(DbReply::GcNotified));
    assert_eq!((session.phase(), step), (Phase::Idle, DbStep::Rejected));
    let (session, _) = create_thread_local_db(&mut latch, session, None);
    let (session, step) = create_thread_local_db(&mut latch, session, None);
    assert_eq!((session.phase(), step), (Phase::Opening, DbStep::Rejected));
    let (session, step) = create_thread_local_db(&mut latch, session, Some(DbReply::Woken));
    assert_eq!((session.phase(), step), (Phase::Opening, DbStep::Rejected));
    assert_eq!(latch.state(), LatchState::Unarmed);
    let (session, _) =
        create_thread_local_db(&mut latch, session, Some(DbReply::Opened { ok: true }));
    let (session, step) = create_thread_local_db(&mut latch, session, Some(DbReply::GcNotified));
    assert_eq!((session.phase(), step), (Phase::Marking, DbStep::Rejected));
    assert_eq!(latch.state(), LatchState::Repairing);
}

#[test]
fn repairer_of_another_latch_is_rejected() {
    let mut latch = StartupLatch::new();
    let (session, _) = create_thread_local_db(&mut latch, DbSession::new(), None);
    let (session, _) =
        create_thread_local_db(&mut latch, session, Some(DbReply::Opened { ok: true }));
    assert_eq!(session.phase(), Phase::Marking);
    let mut other = StartupLatch::new();
    let (session, step) = create_thread_local_db(
        &mut other,
        session,
        Some(DbReply::LastOffBodyInserted { ok: true }),
    );
    assert_eq!((session.phase(), step), (Phase::Marking, DbStep::Rejected));
    assert_eq!(other.state(), LatchState::Unarmed);
}

#[test]
fn ended_session_rejects_every_reply() {
    let mut database = Database::with_leftovers(1);
    let (mut latch, mut threads) = run(1, &[0], &mut database);
    let session = threads[0].session.take().unwrap();
    let (session, step) = create_thread_local_db(&mut latch, session, None);
    assert_eq!((session.phase(), step), (Phase::Open, DbStep::Rejected));
    let (session, step) =
        create_thread_local_db(&mut latch, session, Some(DbReply::Opened { ok: true }));
    assert_eq!((session.phase(), step), (Phase::Open, DbStep::Rejected));
    assert_eq!(latch.state(), LatchState::Armed { removed: 1 });
}
