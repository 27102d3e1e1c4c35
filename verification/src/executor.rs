use vstd::prelude::*;

use crate::error::Error;
use crate::fortune::{build_response, fortunes_from_rows, resolved_quantity, Fortune,
    FortunesListRequest, FortunesListResponse, DEFAULT_QUANTITY};

verus! {

/// The text of the bounded random-sampling query a run executes: it orders
/// the store's rows by a uniform random key and limits the result, with the
/// row limit as its one parameter.
pub fn sampling_query() -> (r: &'static str)
    ensures
        r@ == "SELECT content FROM fortune ORDER BY random() LIMIT $1"@,
{
    "SELECT content FROM fortune ORDER BY random() LIMIT $1"
}

/// What the driver must perform next on behalf of a run. The driver owns the
/// real connection and transaction; the executor only decides.
pub enum Action {
    /// Ask the pool for a connection.
    Acquire,
    /// Open a transaction on the held connection.
    Begin,
    /// Run the bounded random-sampling query with this row limit.
    RunQuery(i64),
    /// Commit the open transaction.
    Commit,
    /// Roll the open transaction back.
    Rollback,
    /// Return the held connection to the pool.
    Release,
    /// The run is over; collect the outcome.
    Stop,
}

/// The outcome of the step the driver performed, fed back to the executor.
pub enum Event {
    /// A connection was granted.
    Acquired,
    /// No connection became available within the wait bound.
    AcquireExhausted(String),
    /// Establishing a connection to the store failed.
    AcquireFailed(String),
    /// The transaction is open.
    Begun,
    /// Opening the transaction failed; no transaction was opened.
    BeginFailed(String),
    /// The sampling query returned these `content` values, in store order.
    Rows(Vec<String>),
    /// The sampling query failed.
    QueryFailed(String),
    /// The transaction committed.
    Committed,
    /// The commit failed; the store decides the effect, assumed a rollback.
    CommitFailed(String),
    /// The rollback completed.
    RolledBack,
    /// The connection went back to the pool.
    Released,
}

/// Where a run stands: which step outcome it is waiting for.
pub enum Phase {
    AwaitAcquire,
    AwaitBegin,
    AwaitRows,
    AwaitCommit,
    AwaitRollback,
    AwaitRelease,
    Finished,
}

/// One request's transactional run: acquire a connection, open a transaction,
/// run the sampling query, commit on success, roll back on failure, and
/// release the connection on every path. The executor is the decision half of
/// that run: a driver performs each `Action` against the real pool and store
/// and reports each outcome as an `Event`.
///
/// The flag fields record what the run holds and what became of its
/// transaction, so that the resource discipline is part of the state itself:
/// `conn_held` while a connection is leased, `tx_open` while a transaction is
/// open, `tx_opened` once one was ever opened, and `committed` /
/// `rolled_back` for how it ended.
pub struct Executor {
    pub quantity: i64,
    pub phase: Phase,
    pub conn_held: bool,
    pub tx_opened: bool,
    pub tx_open: bool,
    pub committed: bool,
    pub rolled_back: bool,
    pub items: Vec<Fortune>,
    pub failure: Option<Error>,
}

impl Executor {
    /// The run's invariant. It ties each phase to the resources held there
    /// and to what is known of the transaction, and bounds the fetched items
    /// by the requested quantity throughout.
    pub open spec fn wf(&self) -> bool {
        &&& 0 <= self.quantity
        &&& self.items@.len() <= self.quantity
        &&& match self.phase {
            Phase::AwaitAcquire =>
                !self.conn_held && !self.tx_open && !self.tx_opened
                && !self.committed && !self.rolled_back
                && self.failure is None && self.items@.len() == 0,
            Phase::AwaitBegin =>
                self.conn_held && !self.tx_open && !self.tx_opened
                && !self.committed && !self.rolled_back
                && self.failure is None && self.items@.len() == 0,
            Phase::AwaitRows =>
                self.conn_held && self.tx_open && self.tx_opened
                && !self.committed && !self.rolled_back
                && self.failure is None && self.items@.len() == 0,
            Phase::AwaitCommit =>
                self.conn_held && self.tx_open && self.tx_opened
                && !self.committed && !self.rolled_back
                && self.failure is None,
            Phase::AwaitRollback =>
                self.conn_held && self.tx_open && self.tx_opened
                && !self.committed && !self.rolled_back
                && (self.failure matches Some(Error::Query(_))),
            Phase::AwaitRelease =>
                self.conn_held && !self.tx_open
                && !(self.committed && self.rolled_back)
                && (self.committed <==> self.failure is None)
                && (self.failure is Some ==> self.rolled_back || !self.tx_opened),
            Phase::Finished =>
                !self.conn_held && !self.tx_open
                && !(self.committed && self.rolled_back)
                && (self.committed <==> self.failure is None)
                && (self.failure is Some ==> self.rolled_back || !self.tx_opened),
        }
    }

    /// A fresh run that will fetch at most `quantity` rows.
    pub fn new(quantity: i64) -> (r: Executor)
        requires
            0 <= quantity,
        ensures
            r.wf(),
            r.phase is AwaitAcquire,
            r.quantity == quantity,
    {
        Executor {
            quantity,
            phase: Phase::AwaitAcquire,
            conn_held: false,
            tx_opened: false,
            tx_open: false,
            committed: false,
            rolled_back: false,
            items: Vec::new(),
            failure: None,
        }
    }

    /// A fresh run for a request: its quantity resolved against the default.
    pub fn for_request(request: &FortunesListRequest) -> (r: Executor)
        ensures
            r.wf(),
            r.phase is AwaitAcquire,
            r.quantity == resolved_quantity(request.quantity),
    {
        let quantity = crate::fortune::resolve_quantity(request);
        Executor::new(quantity)
    }

    /// The action a run in this state asks of its driver.
    pub open spec fn action_spec(&self) -> Action {
        match self.phase {
            Phase::AwaitAcquire => Action::Acquire,
            Phase::AwaitBegin => Action::Begin,
            Phase::AwaitRows => Action::RunQuery(self.quantity),
            Phase::AwaitCommit => Action::Commit,
            Phase::AwaitRollback => Action::Rollback,
            Phase::AwaitRelease => Action::Release,
            Phase::Finished => Action::Stop,
        }
    }

    /// What the driver must do next. A run that is waiting for rows asks for
    /// the query with exactly the resolved quantity as its limit.
    pub fn next_action(&self) -> (a: Action)
        ensures
            a == self.action_spec(),
    {
        match self.phase {
            Phase::AwaitAcquire => Action::Acquire,
            Phase::AwaitBegin => Action::Begin,
            Phase::AwaitRows => Action::RunQuery(self.quantity),
            Phase::AwaitCommit => Action::Commit,
            Phase::AwaitRollback => Action::Rollback,
            Phase::AwaitRelease => Action::Release,
            Phase::Finished => Action::Stop,
        }
    }

    /// Whether this event can answer the action the run is waiting on. The
    /// sampling query never returns more rows than its limit, so a `Rows`
    /// event carries at most `quantity` rows.
    pub open spec fn event_fits(&self, e: Event) -> bool {
        match self.phase {
            Phase::AwaitAcquire =>
                e is Acquired || e is AcquireExhausted || e is AcquireFailed,
            Phase::AwaitBegin => e is Begun || e is BeginFailed,
            Phase::AwaitRows =>
                (e matches Event::Rows(rows) && rows@.len() <= self.quantity)
                || e is QueryFailed,
            Phase::AwaitCommit => e is Committed || e is CommitFailed,
            Phase::AwaitRollback => e is RolledBack,
            Phase::AwaitRelease => e is Released,
            Phase::Finished => false,
        }
    }

    /// Advance the run by the outcome of the step the driver performed.
    ///
    /// Failures steer the run onto the cleanup path: a query failure goes
    /// through rollback, every failure after an acquire goes through release,
    /// and a failed acquire finishes at once since nothing is held. A failed
    /// commit ends the transaction with nothing promised of the data; the
    /// store's effect is recorded as a rollback, the assumption this library
    /// documents for that case.
    pub fn on_event(&mut self, e: Event)
        requires
            old(self).wf(),
            old(self).event_fits(e),
        ensures
            final(self).wf(),
            final(self).quantity == old(self).quantity,
            match e {
                Event::Acquired =>
                    final(self).phase is AwaitBegin && final(self).conn_held,
                Event::AcquireExhausted(m) =>
                    final(self).phase is Finished && !final(self).conn_held
                    && !final(self).tx_opened
                    && final(self).failure == Some(Error::PoolExhausted(m)),
                Event::AcquireFailed(m) =>
                    final(self).phase is Finished && !final(self).conn_held
                    && !final(self).tx_opened
                    && final(self).failure == Some(Error::Connection(m)),
                Event::Begun =>
                    final(self).phase is AwaitRows && final(self).tx_open,
                Event::BeginFailed(m) =>
                    final(self).phase is AwaitRelease && !final(self).tx_opened
                    && final(self).failure == Some(Error::Query(m)),
                Event::Rows(rows) =>
                    final(self).phase is AwaitCommit
                    && final(self).items@.len() == rows@.len()
                    && (forall|i: int| 0 <= i < rows@.len()
                        ==> final(self).items@[i].content@ == rows@[i]@),
                Event::QueryFailed(m) =>
                    final(self).phase is AwaitRollback
                    && final(self).failure == Some(Error::Query(m)),
                Event::Committed =>
                    final(self).phase is AwaitRelease && final(self).committed
                    && !final(self).tx_open && final(self).failure is None
                    && final(self).items == old(self).items,
                Event::CommitFailed(m) =>
                    final(self).phase is AwaitRelease && !final(self).committed
                    && final(self).rolled_back && !final(self).tx_open
                    && final(self).failure == Some(Error::Commit(m)),
                Event::RolledBack =>
                    final(self).phase is AwaitRelease && final(self).rolled_back
                    && !final(self).tx_open
                    && final(self).failure == old(self).failure,
                Event::Released =>
                    final(self).phase is Finished && !final(self).conn_held
                    && final(self).committed == old(self).committed
                    && final(self).rolled_back == old(self).rolled_back
                    && final(self).tx_opened == old(self).tx_opened
                    && final(self).failure == old(self).failure
                    && final(self).items == old(self).items,
            },
    {
        match e {
            Event::Acquired => {
                self.conn_held = true;
                self.phase = Phase::AwaitBegin;
            }
            Event::AcquireExhausted(m) => {
                self.failure = Some(Error::PoolExhausted(m));
                self.phase = Phase::Finished;
            }
            Event::AcquireFailed(m) => {
                self.failure = Some(Error::Connection(m));
                self.phase = Phase::Finished;
            }
            Event::Begun => {
                self.tx_open = true;
                self.tx_opened = true;
                self.phase = Phase::AwaitRows;
            }
            Event::BeginFailed(m) => {
                self.failure = Some(Error::Query(m));
                self.phase = Phase::AwaitRelease;
            }
            Event::Rows(rows) => {
                self.items = fortunes_from_rows(rows);
                self.phase = Phase::AwaitCommit;
            }
            Event::QueryFailed(m) => {
                self.failure = Some(Error::Query(m));
                self.phase = Phase::AwaitRollback;
            }
            Event::Committed => {
                self.committed = true;
                self.tx_open = false;
                self.phase = Phase::AwaitRelease;
            }
            Event::CommitFailed(m) => {
                self.failure = Some(Error::Commit(m));
                self.rolled_back = true;
                self.tx_open = false;
                self.phase = Phase::AwaitRelease;
            }
            Event::RolledBack => {
                self.rolled_back = true;
                self.tx_open = false;
                self.phase = Phase::AwaitRelease;
            }
            Event::Released => {
                self.conn_held = false;
                self.phase = Phase::Finished;
            }
        }
    }

    /// Consume a finished run and produce its outcome: the response whose
    /// `count` equals the number of items fetched, or the failure that ended
    /// the run. A success never carries more items than the quantity asked.
    pub fn take_outcome(self) -> (r: Result<FortunesListResponse, Error>)
        requires
            self.wf(),
            self.phase is Finished,
        ensures
            self.failure is None ==> (r matches Ok(resp)
                && resp.wf()
                && resp.items == self.items
                && resp.count == self.items@.len()
                && resp.count <= self.quantity),
            match self.failure {
                Some(err) => r == Err::<FortunesListResponse, Error>(err),
                None => r is Ok,
            },
    {
        match self.failure {
            Some(err) => Err(err),
            None => Ok(build_response(self.items)),
        }
    }
}

/// Law: a finished run holds nothing and its transaction ended exactly one
/// way. No connection or open transaction is left behind; a success has
/// committed and not rolled back; a failure has not committed, and has either
/// rolled back or never opened a transaction at all.
pub proof fn lemma_finished_no_leak(s: Executor)
    requires
        s.wf(),
        s.phase is Finished,
    ensures
        !s.conn_held,
        !s.tx_open,
        s.failure is None ==> s.committed && !s.rolled_back,
        s.failure is Some ==> !s.committed && (s.rolled_back || !s.tx_opened),
        !(s.committed && s.rolled_back),
{
}

/// Law: a finished successful run carries at most the quantity it resolved,
/// for every valid quantity.
pub proof fn lemma_success_bounded(s: Executor)
    requires
        s.wf(),
        s.phase is Finished,
        s.failure is None,
    ensures
        s.items@.len() <= s.quantity,
{
}

/// Law: a run whose request gave no quantity resolves to the default, so a
/// successful one carries at most the default number of items.
pub proof fn lemma_default_bounded(s: Executor, q: Option<i64>)
    requires
        s.wf(),
        s.phase is Finished,
        s.failure is None,
        s.quantity == resolved_quantity(q),
        q is None,
    ensures
        s.items@.len() <= DEFAULT_QUANTITY,
{
}

/// Law: a run that asked for zero rows succeeds with no items and no error
/// possible from the quantity itself; whatever rows event answered it was
/// bounded by zero, so the outcome is empty.
pub proof fn lemma_zero_quantity_empty(s: Executor)
    requires
        s.wf(),
        s.phase is Finished,
        s.failure is None,
        s.quantity == 0,
    ensures
        s.items@.len() == 0,
{
}

} // verus!

