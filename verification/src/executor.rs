//! The query executor: what an execution of a SQL text against a connection
//! id does, step by step.
//!
//! An execution has two stages against the same resolved pool: it fetches the
//! rows of the statement, at most [`MAX_ROWS`] of them, and it counts the rows
//! of the whole result with a wrapping statement. The two are separate round
//! trips and share no transaction. Whatever touches the network is asked of
//! the caller as a [`Request`]; the caller answers with an [`Event`].

use crate::column::{
    cell_views, column_views, decode_row, decoded_row, row_views, ColumnValue, ColumnValueView,
    RawCell, RawCellView,
};
use crate::pool::{DBPool, PgPoolHandle};
use crate::registry::{
    attached, resolved, sample_descriptor, DbError, DbErrorView, DbManager, DescriptorView,
    Resolution, ResolutionView,
};
use vstd::prelude::*;
use vstd::string::*;

verus! {

/// The largest number of rows that one execution keeps. Rows beyond it are
/// discarded without error; the count still covers them.
pub const MAX_ROWS: usize = 10;

/// The total number of rows of a query's result.
#[derive(Debug, Clone, Copy, PartialEq, Eq, Structural)]
pub struct CountResult {
    pub total: i64,
}

/// What an execution returns: the id and SQL it was asked for, the decoded
/// rows it kept, and the total count.
#[derive(Debug, Clone, PartialEq, Eq)]
pub struct QueryResult {
    pub connection_id: String,
    pub sql: String,
    pub data: Vec<Vec<ColumnValue>>,
    pub size: CountResult,
}

/// The mathematical content of a [`QueryResult`].
pub struct QueryResultView {
    pub connection_id: Seq<char>,
    pub sql: Seq<char>,
    pub data: Seq<Seq<ColumnValueView>>,
    pub size: CountResult,
}

impl View for QueryResult {
    type V = QueryResultView;

    open spec fn view(&self) -> QueryResultView {
        QueryResultView {
            connection_id: self.connection_id@,
            sql: self.sql@,
            data: row_views(self.data@),
            size: self.size,
        }
    }
}

/// The two stages of an execution.
#[derive(Debug, Clone, Copy, PartialEq, Eq, Structural)]
pub enum Stage {
    Rows,
    Count,
}

/// What an execution is waiting for.
#[derive(Debug, Clone, Copy, PartialEq, Eq, Structural)]
pub enum Phase {
    /// The URL of the sample connection.
    Seeding,
    /// A pool for the descriptor, on the way into the given stage.
    Connecting(Stage),
    /// The next row of the statement.
    Fetching,
    /// The total of the counting statement.
    Counting,
}

/// An execution under way.
#[derive(Debug)]
pub struct Execution {
    connection_id: String,
    sql: String,
    phase: Phase,
    rows: Vec<Vec<ColumnValue>>,
}

/// The mathematical content of an [`Execution`].
pub struct ExecutionView {
    pub connection_id: Seq<char>,
    pub sql: Seq<char>,
    pub phase: Phase,
    pub rows: Seq<Seq<ColumnValueView>>,
}

impl View for Execution {
    type V = ExecutionView;

    closed spec fn view(&self) -> ExecutionView {
        ExecutionView {
            connection_id: self.connection_id@,
            sql: self.sql@,
            phase: self.phase,
            rows: row_views(self.rows@),
        }
    }
}

/// The answer to a request.
#[derive(Debug)]
pub enum Event {
    /// The configured URL of the sample connection.
    SampleUrl(String),
    /// The pool that was opened.
    Connected(DBPool),
    /// The next row of the statement.
    Row(Vec<RawCell>),
    /// The statement has no further row.
    EndOfRows,
    /// The single value of the counting statement.
    Total(i64),
    /// The driver failed, with its message.
    Failed(String),
}

/// The mathematical content of an [`Event`].
pub enum EventView {
    SampleUrl(Seq<char>),
    Connected(DBPool),
    Row(Seq<RawCellView>),
    EndOfRows,
    Total(i64),
    Failed(Seq<char>),
}

impl View for Event {
    type V = EventView;

    open spec fn view(&self) -> EventView {
        match self {
            Event::SampleUrl(url) => EventView::SampleUrl(url@),
            Event::Connected(pool) => EventView::Connected(*pool),
            Event::Row(cells) => EventView::Row(cell_views(cells@)),
            Event::EndOfRows => EventView::EndOfRows,
            Event::Total(total) => EventView::Total(*total),
            Event::Failed(message) => EventView::Failed(message@),
        }
    }
}

/// What an execution asks of its caller.
#[derive(Debug)]
pub enum Request {
    /// Read the configured URL of the sample connection.
    SampleUrl,
    /// Open a pool on `url` with at most `max_connections` connections.
    Connect { url: String, max_connections: u32 },
    /// Run `sql` on `pool` as a streaming query and report its first row.
    OpenRows { pool: PgPoolHandle, sql: String },
    /// Report the next row of the open stream.
    NextRow,
    /// Run `sql` on `pool`, which gives one row with one 64-bit integer.
    Count { pool: PgPoolHandle, sql: String },
}

/// The mathematical content of a [`Request`].
pub enum RequestView {
    SampleUrl,
    Connect { url: Seq<char>, max_connections: u32 },
    OpenRows { pool: PgPoolHandle, sql: Seq<char> },
    NextRow,
    Count { pool: PgPoolHandle, sql: Seq<char> },
}

impl View for Request {
    type V = RequestView;

    open spec fn view(&self) -> RequestView {
        match self {
            Request::SampleUrl => RequestView::SampleUrl,
            Request::Connect { url, max_connections } => RequestView::Connect {
                url: url@,
                max_connections: *max_connections,
            },
            Request::OpenRows { pool, sql } => RequestView::OpenRows { pool: *pool, sql: sql@ },
            Request::NextRow => RequestView::NextRow,
            Request::Count { pool, sql } => RequestView::Count { pool: *pool, sql: sql@ },
        }
    }
}

/// Where an execution stands after a step: it goes on once the request has
/// been answered, or it has ended with its result.
#[derive(Debug)]
pub enum Step {
    Next(Execution, Request),
    Done(Result<QueryResult, DbError>),
}

/// The mathematical content of a [`Step`].
pub enum StepView {
    Next(ExecutionView, RequestView),
    Done(Result<QueryResultView, DbErrorView>),
}

impl View for Step {
    type V = StepView;

    open spec fn view(&self) -> StepView {
        match self {
            Step::Next(run, request) => StepView::Next(run@, request@),
            Step::Done(Ok(result)) => StepView::Done(Ok(result@)),
            Step::Done(Err(error)) => StepView::Done(Err(error@)),
        }
    }
}

/// The counting statement for `sql`: `sql` wrapped as a subquery.
pub open spec fn count_sql(sql: Seq<char>) -> Seq<char> {
    "SELECT COUNT(*) AS total FROM ("@ + sql + ") AS tb"@
}

/// Whether the rows kept so far agree with the phase: none before the first
/// fetch, fewer than the cap while fetching, never more than the cap.
pub open spec fn well_formed(run: ExecutionView) -> bool {
    match run.phase {
        Phase::Seeding => run.rows.len() == 0,
        Phase::Connecting(Stage::Rows) => run.rows.len() == 0,
        Phase::Fetching => run.rows.len() < MAX_ROWS,
        Phase::Connecting(Stage::Count) => run.rows.len() <= MAX_ROWS,
        Phase::Counting => run.rows.len() <= MAX_ROWS,
    }
}

/// Whether a step holds a well-formed execution or a result within the cap.
pub open spec fn step_well_formed(step: StepView) -> bool {
    match step {
        StepView::Next(run, _) => well_formed(run),
        StepView::Done(Ok(result)) => result.data.len() <= MAX_ROWS,
        StepView::Done(Err(_)) => true,
    }
}

/// Entering a stage: the id is resolved, and the outcome says what comes
/// next. `closed` is what the resolved pool answers when asked whether it is
/// closed.
pub open spec fn entered(
    descriptors: Seq<DescriptorView>,
    run: ExecutionView,
    stage: Stage,
    closed: bool,
) -> StepView {
    match resolved(descriptors, run.connection_id, closed) {
        Err(error) => StepView::Done(Err(error)),
        Ok(ResolutionView::MustConnect { url, max_connections }) => StepView::Next(
            ExecutionView { phase: Phase::Connecting(stage), ..run },
            RequestView::Connect { url, max_connections },
        ),
        Ok(ResolutionView::Ready(pool)) => match stage {
            Stage::Rows => StepView::Next(
                ExecutionView { phase: Phase::Fetching, ..run },
                RequestView::OpenRows { pool, sql: run.sql },
            ),
            Stage::Count => StepView::Next(
                ExecutionView { phase: Phase::Counting, ..run },
                RequestView::Count { pool, sql: count_sql(run.sql) },
            ),
        },
    }
}

/// The first step of an execution. An empty registry is seeded first; else
/// the rows stage is entered.
pub open spec fn begun(
    descriptors: Seq<DescriptorView>,
    connection_id: Seq<char>,
    sql: Seq<char>,
    closed: bool,
) -> StepView {
    let run = ExecutionView { connection_id, sql, phase: Phase::Seeding, rows: Seq::empty() };
    if descriptors.len() == 0 {
        StepView::Next(run, RequestView::SampleUrl)
    } else {
        entered(descriptors, run, Stage::Rows, closed)
    }
}

/// The registry after the sample URL has arrived: seeded if still empty.
pub open spec fn seeded(descriptors: Seq<DescriptorView>, url: Seq<char>) -> Seq<DescriptorView> {
    if descriptors.len() == 0 {
        descriptors.push(sample_descriptor(url))
    } else {
        descriptors
    }
}

/// The registry and the step that follow when `run` is resumed with `event`.
pub open spec fn resumed(
    descriptors: Seq<DescriptorView>,
    run: ExecutionView,
    event: EventView,
    closed: bool,
) -> (Seq<DescriptorView>, StepView) {
    match (run.phase, event) {
        (Phase::Seeding, EventView::SampleUrl(url)) => {
            let registry = seeded(descriptors, url);
            (registry, entered(registry, run, Stage::Rows, closed))
        },
        (Phase::Connecting(stage), EventView::Connected(pool)) => {
            let registry = attached(descriptors, run.connection_id, pool);
            (registry, entered(registry, run, stage, closed))
        },
        (Phase::Fetching, EventView::Row(cells)) => {
            let kept = ExecutionView { rows: run.rows.push(decoded_row(cells)), ..run };
            if kept.rows.len() >= MAX_ROWS {
                (descriptors, entered(descriptors, kept, Stage::Count, closed))
            } else {
                (descriptors, StepView::Next(kept, RequestView::NextRow))
            }
        },
        (Phase::Fetching, EventView::EndOfRows) => (
            descriptors,
            entered(descriptors, run, Stage::Count, closed),
        ),
        (Phase::Counting, EventView::Total(total)) => (
            descriptors,
            StepView::Done(
                Ok(
                    QueryResultView {
                        connection_id: run.connection_id,
                        sql: run.sql,
                        data: run.rows,
                        size: CountResult { total },
                    },
                ),
            ),
        ),
        (Phase::Connecting(_), EventView::Failed(message)) => (
            descriptors,
            StepView::Done(Err(DbErrorView::Driver(message))),
        ),
        (Phase::Fetching, EventView::Failed(message)) => (
            descriptors,
            StepView::Done(Err(DbErrorView::Driver(message))),
        ),
        (Phase::Counting, EventView::Failed(message)) => (
            descriptors,
            StepView::Done(Err(DbErrorView::Driver(message))),
        ),
        _ => (descriptors, StepView::Done(Err(DbErrorView::UnexpectedEvent))),
    }
}

/// Builds the counting statement for `sql`.
pub fn count_query(sql: &str) -> (statement: String)
    ensures
        statement@ == count_sql(sql@),
{
    let mut statement = String::from_str("SELECT COUNT(*) AS total FROM (");
    statement.append(sql);
    statement.append(") AS tb");
    statement
}

impl Execution {
    /// The rows kept so far always agree with the phase.
    #[verifier::type_invariant]
    closed spec fn wf(&self) -> bool {
        well_formed(self@)
    }

    /// The connection id that the execution runs against.
    pub fn connection_id(&self) -> (id: &String)
        ensures
            id@ == self@.connection_id,
    {
        &self.connection_id
    }

    /// The SQL text that the execution runs.
    pub fn sql(&self) -> (sql: &String)
        ensures
            sql@ == self@.sql,
    {
        &self.sql
    }

    /// What the execution is waiting for.
    pub fn phase(&self) -> (phase: Phase)
        ensures
            phase == self@.phase,
    {
        self.phase
    }

    /// The number of rows kept so far.
    pub fn rows_kept(&self) -> (kept: usize)
        ensures
            kept == self@.rows.len(),
    {
        self.rows.len()
    }
}

impl DbManager {
    /// Starts an execution of `sql` against `connection_id`.
    ///
    /// An empty registry is seeded first: the step asks for the URL of the
    /// sample connection. Otherwise the id is resolved, and the step asks for
    /// the rows of the statement on the descriptor's pool, or for a pool to be
    /// opened, or ends with the error of the resolution. Where the descriptor
    /// has a pool, the outcome goes by what the pool answers when asked
    /// whether it is closed, so the contract names both.
    pub fn exec(&mut self, connection_id: String, sql: String) -> (step: Step)
        ensures
            final(self)@ == old(self)@,
            step_well_formed(step@),
            step@ == begun(old(self)@, connection_id@, sql@, true) || step@ == begun(
                old(self)@,
                connection_id@,
                sql@,
                false,
            ),
    {
        let run = Execution { connection_id, sql, phase: Phase::Seeding, rows: Vec::new() };
        assert(run@.rows =~= Seq::empty());
        if self.is_empty() {
            Step::Next(run, Request::SampleUrl)
        } else {
            self.exec_table(run)
        }
    }

    /// Goes on with `run` now that `event` has answered its request.
    ///
    /// The sample URL seeds a registry that is still empty; a pool is offered
    /// to the descriptor, which keeps the one it has if it has one; a row is
    /// decoded and kept, and the count begins once `MAX_ROWS` rows are kept or
    /// the rows have ended; the total ends the execution with its result. A
    /// failure of the driver ends it with the driver's message, and so does,
    /// with `UnexpectedEvent`, an answer that the execution was not waiting
    /// for. Both stages resolve the id anew, so a pool that was closed in
    /// between fails the count.
    pub fn resume(&mut self, run: Execution, event: Event) -> (step: Step)
        ensures
            step_well_formed(step@),
            (final(self)@, step@) == resumed(old(self)@, run@, event@, true) || (
                final(self)@,
                step@,
            ) == resumed(old(self)@, run@, event@, false),
    {
        proof {
            use_type_invariant(&run);
        }
        match event {
            Event::SampleUrl(url) => match run.phase {
                Phase::Seeding => {
                    if self.is_empty() {
                        self.add_sample_connection(url);
                    }
                    self.exec_table(run)
                },
                _ => Step::Done(Err(DbError::UnexpectedEvent)),
            },
            Event::Connected(pool) => match run.phase {
                Phase::Connecting(stage) => {
                    let _ = self.attach(run.connection_id.as_str(), pool);
                    match stage {
                        Stage::Rows => self.exec_table(run),
                        Stage::Count => self.exec_count(run),
                    }
                },
                _ => Step::Done(Err(DbError::UnexpectedEvent)),
            },
            Event::Row(cells) => match run.phase {
                Phase::Fetching => {
                    let ghost before = run@;
                    let Execution { connection_id, sql, phase, rows } = run;
                    let mut rows = rows;
                    rows.push(decode_row(&cells));
                    assert(row_views(rows@) =~= before.rows.push(
                        decoded_row(cell_views(cells@)),
                    ));
                    if rows.len() >= MAX_ROWS {
                        self.exec_count(
                            Execution { connection_id, sql, phase: Phase::Counting, rows },
                        )
                    } else {
                        Step::Next(Execution { connection_id, sql, phase, rows }, Request::NextRow)
                    }
                },
                _ => Step::Done(Err(DbError::UnexpectedEvent)),
            },
            Event::EndOfRows => match run.phase {
                Phase::Fetching => self.exec_count(run),
                _ => Step::Done(Err(DbError::UnexpectedEvent)),
            },
            Event::Total(total) => match run.phase {
                Phase::Counting => Step::Done(
                    Ok(
                        QueryResult {
                            connection_id: run.connection_id,
                            sql: run.sql,
                            data: run.rows,
                            size: CountResult { total },
                        },
                    ),
                ),
                _ => Step::Done(Err(DbError::UnexpectedEvent)),
            },
            Event::Failed(message) => match run.phase {
                Phase::Seeding => Step::Done(Err(DbError::UnexpectedEvent)),
                _ => Step::Done(Err(DbError::Driver(message))),
            },
        }
    }

    /// Enters the rows stage: resolves the id and asks for the statement to
    /// be run on the pool, or for a pool to be opened first.
    fn exec_table(&self, run: Execution) -> (step: Step)
        requires
            run@.rows.len() == 0,
        ensures
            step_well_formed(step@),
            step@ == entered(self@, run@, Stage::Rows, true) || step@ == entered(
                self@,
                run@,
                Stage::Rows,
                false,
            ),
    {
        let mut run = run;
        match self.get_connection(run.connection_id.as_str()) {
            Err(error) => Step::Done(Err(error)),
            Ok(Resolution::MustConnect { url, max_connections }) => {
                run.phase = Phase::Connecting(Stage::Rows);
                Step::Next(run, Request::Connect { url, max_connections })
            },
            Ok(Resolution::Ready(pool)) => {
                run.phase = Phase::Fetching;
                let sql = run.sql.clone();
                Step::Next(run, Request::OpenRows { pool, sql })
            },
        }
    }

    /// Enters the count stage: resolves the id and asks for the counting
    /// statement to be run on the pool, or for a pool to be opened first.
    fn exec_count(&self, run: Execution) -> (step: Step)
        ensures
            step_well_formed(step@),
            step@ == entered(self@, run@, Stage::Count, true) || step@ == entered(
                self@,
                run@,
                Stage::Count,
                false,
            ),
    {
        proof {
            use_type_invariant(&run);
        }
        let mut run = run;
        match self.get_connection(run.connection_id.as_str()) {
            Err(error) => Step::Done(Err(error)),
            Ok(Resolution::MustConnect { url, max_connections }) => {
                run.phase = Phase::Connecting(Stage::Count);
                Step::Next(run, Request::Connect { url, max_connections })
            },
            Ok(Resolution::Ready(pool)) => {
                run.phase = Phase::Counting;
                let sql = count_query(run.sql.as_str());
                Step::Next(run, Request::Count { pool, sql })
            },
        }
    }
}

} // verus!
