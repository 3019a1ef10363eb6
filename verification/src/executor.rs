//! The decisions of one statement execution.
//!
//! Locating the database, opening the connection and running the statement
//! are work for the caller. What to do next, and what to answer, is decided
//! here: [`Execution::step`] takes the outcome of the last request and gives
//! the next one, or the result of the call.

use vstd::prelude::*;
use vstd::string::*;
use crate::value::{DynValue, DynValueView, views_of};
use crate::codec::{
    Binding, BindingView, ColumnValue, ColumnValueView, bind_values, binding_views, bindings_of,
    column_to_dynamic, inbound, tag_view,
};

verus! {

/// A statement and its positional parameters, matched left to right against
/// the placeholders of the statement.
#[derive(Clone, Debug, PartialEq, Eq)]
pub struct SqlQuery {
    pub sql: String,
    pub params: Vec<DynValue>,
}

/// The mathematical value of a [`SqlQuery`].
pub struct SqlQueryView {
    pub sql: Seq<char>,
    pub params: Seq<DynValueView>,
}

impl View for SqlQuery {
    type V = SqlQueryView;

    open spec fn view(&self) -> SqlQueryView {
        SqlQueryView { sql: self.sql@, params: views_of(self.params@) }
    }
}

/// One row of a result: the names of its columns in physical order, and the
/// value of each.
#[derive(Clone, Debug, PartialEq, Eq)]
pub struct SqlRow {
    pub columns: Vec<String>,
    pub values: Vec<DynValue>,
}

/// The mathematical value of a [`SqlRow`].
pub struct SqlRowView {
    pub columns: Seq<Seq<char>>,
    pub values: Seq<DynValueView>,
}

/// The views of a sequence of texts, in order.
pub open spec fn text_views(texts: Seq<String>) -> Seq<Seq<char>> {
    texts.map_values(|s: String| s@)
}

impl View for SqlRow {
    type V = SqlRowView;

    open spec fn view(&self) -> SqlRowView {
        SqlRowView { columns: text_views(self.columns@), values: views_of(self.values@) }
    }
}

/// The views of a sequence of rows, in order.
pub open spec fn row_views(rows: Seq<SqlRow>) -> Seq<SqlRowView> {
    rows.map_values(|r: SqlRow| r@)
}

/// One cell as the driver hands it over: the name of its column, the type
/// tag of the column as the driver writes it, where `NULL` or no tag stands
/// for a column that declares no type, and the value, which is absent where
/// the cell could not be reached at all.
#[derive(Clone, Debug, PartialEq, Eq)]
pub struct RawCell {
    pub column: String,
    pub declared: Option<String>,
    pub value: Option<ColumnValue>,
}

/// The mathematical value of a [`RawCell`].
pub struct RawCellView {
    pub column: Seq<char>,
    pub declared: Option<Seq<char>>,
    pub value: Option<ColumnValueView>,
}

impl View for RawCell {
    type V = RawCellView;

    open spec fn view(&self) -> RawCellView {
        RawCellView {
            column: self.column@,
            declared: tag_view(self.declared),
            value: match self.value {
                Some(v) => Some(v@),
                None => None,
            },
        }
    }
}

/// One row as the driver hands it over, cell by cell in physical order.
#[derive(Clone, Debug, PartialEq, Eq)]
pub struct RawRow {
    pub cells: Vec<RawCell>,
}

/// The views of the cells of a row, in order.
pub open spec fn cell_views(cells: Seq<RawCell>) -> Seq<RawCellView> {
    cells.map_values(|c: RawCell| c@)
}

impl View for RawRow {
    type V = Seq<RawCellView>;

    open spec fn view(&self) -> Seq<RawCellView> {
        cell_views(self.cells@)
    }
}

/// The views of a sequence of rows of the driver, in order.
pub open spec fn raw_row_views(rows: Seq<RawRow>) -> Seq<Seq<RawCellView>> {
    rows.map_values(|r: RawRow| r@)
}

/// The dynamic value of a cell: `Null` where the cell could not be reached,
/// and the inbound conversion of its value otherwise.
pub open spec fn cell_value(cell: RawCellView) -> DynValueView {
    match cell.value {
        Some(v) => inbound(cell.declared, v),
        None => DynValueView::Null,
    }
}

/// The result row of a row of the driver: one column name and one value for
/// each cell, in the order of the cells.
pub open spec fn row_of(cells: Seq<RawCellView>) -> SqlRowView {
    SqlRowView {
        columns: cells.map_values(|c: RawCellView| c.column),
        values: cells.map_values(|c: RawCellView| cell_value(c)),
    }
}

/// The result set of the rows of the driver, row by row in order.
pub open spec fn rows_of(rows: Seq<Seq<RawCellView>>) -> Seq<SqlRowView> {
    rows.map_values(|r: Seq<RawCellView>| row_of(r))
}

/// Converts one cell to its dynamic value.
pub fn convert_cell(cell: &RawCell) -> (value: DynValue)
    ensures
        value@ == cell_value(cell@),
{
    match &cell.value {
        Some(v) => column_to_dynamic(&cell.declared, v),
        None => DynValue::Null,
    }
}

/// Converts one row of the driver to a result row.
pub fn convert_row(raw: &RawRow) -> (row: SqlRow)
    ensures
        row@ == row_of(raw@),
        row.columns@.len() == raw.cells@.len(),
        row.values@.len() == raw.cells@.len(),
{
    let mut columns: Vec<String> = Vec::new();
    let mut values: Vec<DynValue> = Vec::new();
    let mut i: usize = 0;
    while i < raw.cells.len()
        invariant
            i <= raw.cells.len(),
            columns@.len() == i,
            values@.len() == i,
            forall|k: int| 0 <= k < i ==> (#[trigger] columns@[k])@ == raw.cells@[k].column@,
            forall|k: int| 0 <= k < i ==> (#[trigger] values@[k])@ == cell_value(raw.cells@[k]@),
        decreases raw.cells.len() - i,
    {
        let cell = &raw.cells[i];
        columns.push(cell.column.clone());
        values.push(convert_cell(cell));
        i += 1;
    }
    let row = SqlRow { columns, values };
    assert(row@.columns =~= row_of(raw@).columns);
    assert(row@.values =~= row_of(raw@).values);
    row
}

/// Converts the rows of the driver to a result set, keeping their order. In
/// every row of the result the columns and the values are equally many.
pub fn convert_rows(raw: &Vec<RawRow>) -> (rows: Vec<SqlRow>)
    ensures
        row_views(rows@) == rows_of(raw_row_views(raw@)),
        rows@.len() == raw@.len(),
        forall|k: int| 0 <= k < rows@.len() ==> (#[trigger] rows@[k]).columns@.len() == rows@[k].values@.len(),
{
    let mut rows: Vec<SqlRow> = Vec::new();
    let mut i: usize = 0;
    while i < raw.len()
        invariant
            i <= raw.len(),
            rows@.len() == i,
            forall|k: int| 0 <= k < i ==> (#[trigger] rows@[k])@ == row_of(raw@[k]@),
            forall|k: int| 0 <= k < i ==> (#[trigger] rows@[k]).columns@.len() == rows@[k].values@.len(),
        decreases raw.len() - i,
    {
        rows.push(convert_row(&raw[i]));
        i += 1;
    }
    assert(row_views(rows@) =~= rows_of(raw_row_views(raw@)));
    rows
}

/// A place where the database file may lie, and whether a file is there.
#[derive(Clone, Debug, PartialEq, Eq)]
pub struct Candidate {
    pub path: String,
    pub exists: bool,
}

/// The mathematical value of a [`Candidate`].
pub struct CandidateView {
    pub path: Seq<char>,
    pub exists: bool,
}

impl View for Candidate {
    type V = CandidateView;

    open spec fn view(&self) -> CandidateView {
        CandidateView { path: self.path@, exists: self.exists }
    }
}

/// The view of a candidate that may be absent.
pub open spec fn candidate_view(candidate: Option<Candidate>) -> Option<CandidateView> {
    match candidate {
        Some(c) => Some(c@),
        None => None,
    }
}

/// The location of the database, given the candidate under the configuration
/// directory and the one under the data directory, each absent where its
/// directory cannot be resolved.
///
/// The first candidate at which a file exists is taken, the configuration
/// directory first. Where no file exists the configuration candidate is the
/// default, and the data candidate where there is no other. There is no
/// location only where neither directory can be resolved.
pub open spec fn located(config: Option<CandidateView>, data: Option<CandidateView>) -> Option<Seq<char>> {
    match (config, data) {
        (Some(c), Some(d)) => if !c.exists && d.exists {
            Some(d.path)
        } else {
            Some(c.path)
        },
        (Some(c), None) => Some(c.path),
        (None, Some(d)) => Some(d.path),
        (None, None) => None,
    }
}

/// Chooses the location of the database among the two candidates.
pub fn locate(config: &Option<Candidate>, data: &Option<Candidate>) -> (path: Option<String>)
    ensures
        match located(candidate_view(*config), candidate_view(*data)) {
            Some(p) => path matches Some(q) && q@ == p,
            None => path is None,
        },
{
    match config {
        Some(c) => {
            if !c.exists {
                match data {
                    Some(d) => {
                        if d.exists {
                            return Some(d.path.clone());
                        }
                    },
                    None => {},
                }
            }
            Some(c.path.clone())
        },
        None => match data {
            Some(d) => Some(d.path.clone()),
            None => None,
        },
    }
}

/// The address under which the driver opens the database at `path`.
pub open spec fn uri_of(path: Seq<char>) -> Seq<char> {
    "sqlite:"@ + path
}

/// The message of a call that found no location for the database.
pub open spec fn unresolved_text() -> Seq<char> {
    "Could not resolve app config directory"@
}

/// The message of a connection that could not be opened at `path`.
pub open spec fn connect_failure_text(path: Seq<char>, cause: Seq<char>) -> Seq<char> {
    "Failed to connect to DB at "@ + path + ": "@ + cause
}

/// The message of a statement that the store rejected.
pub open spec fn query_failure_text(cause: Seq<char>) -> Seq<char> {
    "Query failed: "@ + cause
}

/// Why a call failed. Either way the call is over and has no rows.
#[derive(Clone, Debug, PartialEq, Eq)]
pub enum BridgeError {
    /// The database was not found or could not be opened.
    Connection(String),
    /// The store rejected the statement.
    Execution(String),
}

/// The mathematical value of a [`BridgeError`].
pub enum BridgeErrorView {
    Connection(Seq<char>),
    Execution(Seq<char>),
}

impl View for BridgeError {
    type V = BridgeErrorView;

    open spec fn view(&self) -> BridgeErrorView {
        match *self {
            BridgeError::Connection(m) => BridgeErrorView::Connection(m@),
            BridgeError::Execution(m) => BridgeErrorView::Execution(m@),
        }
    }
}

impl BridgeError {
    /// The text of the error, as the caller is to see it.
    pub open spec fn text(self) -> Seq<char> {
        match self {
            BridgeError::Connection(m) => m@,
            BridgeError::Execution(m) => m@,
        }
    }

    /// Gives the text of the error, which is all that the caller is told.
    pub fn message(&self) -> (m: String)
        ensures
            m@ == self.text(),
    {
        match self {
            BridgeError::Connection(m) => m.clone(),
            BridgeError::Execution(m) => m.clone(),
        }
    }
}

/// A statement as it goes to the driver: its text, untouched, and one binding
/// for each parameter, in order.
#[derive(Clone, Debug, PartialEq, Eq)]
pub struct Statement {
    pub sql: String,
    pub bindings: Vec<Binding>,
}

/// The mathematical value of a [`Statement`].
pub struct StatementView {
    pub sql: Seq<char>,
    pub bindings: Seq<BindingView>,
}

impl View for Statement {
    type V = StatementView;

    open spec fn view(&self) -> StatementView {
        StatementView { sql: self.sql@, bindings: binding_views(self.bindings@) }
    }
}

/// The statement that a query is executed as.
pub open spec fn statement_of(query: SqlQueryView) -> StatementView {
    StatementView { sql: query.sql, bindings: bindings_of(query.params) }
}

/// Prepares the statement of a query: the text as it is, the parameters bound
/// in order.
pub fn prepare(query: &SqlQuery) -> (statement: Statement)
    ensures
        statement@ == statement_of(query@),
{
    Statement { sql: query.sql.clone(), bindings: bind_values(&query.params) }
}

/// How far a call has come.
#[derive(Clone, Copy, Debug, PartialEq, Eq, Structural)]
pub enum Stage {
    /// The location of the database is being resolved.
    Locating,
    /// The connection is being opened.
    Connecting,
    /// The statement is with the store.
    Executing,
    /// The call has returned.
    Finished,
}

/// What the caller reports back after carrying out a request.
#[derive(Debug, PartialEq, Eq)]
pub enum Event {
    /// The two candidate locations, each absent where its directory cannot be
    /// resolved.
    Located { config: Option<Candidate>, data: Option<Candidate> },
    /// The connection is open.
    Connected,
    /// The connection could not be opened, and why.
    ConnectFailed(String),
    /// The store ran the statement and these are all its rows.
    Fetched(Vec<RawRow>),
    /// The store rejected the statement, and why.
    QueryFailed(String),
}

/// The mathematical value of an [`Event`].
pub enum EventView {
    Located { config: Option<CandidateView>, data: Option<CandidateView> },
    Connected,
    ConnectFailed(Seq<char>),
    Fetched(Seq<Seq<RawCellView>>),
    QueryFailed(Seq<char>),
}

impl View for Event {
    type V = EventView;

    open spec fn view(&self) -> EventView {
        match *self {
            Event::Located { config, data } => EventView::Located {
                config: candidate_view(config),
                data: candidate_view(data),
            },
            Event::Connected => EventView::Connected,
            Event::ConnectFailed(cause) => EventView::ConnectFailed(cause@),
            Event::Fetched(rows) => EventView::Fetched(raw_row_views(rows@)),
            Event::QueryFailed(cause) => EventView::QueryFailed(cause@),
        }
    }
}

/// What the caller is asked to do next.
#[derive(Debug, PartialEq, Eq)]
pub enum Action {
    /// Resolve the two candidate locations of the database.
    Locate,
    /// Open a connection of its own for this call, at this address.
    Connect(String),
    /// Run this statement on the connection and fetch all its rows.
    Execute(Statement),
    /// Release the connection and return this to the caller.
    Return(Result<Vec<SqlRow>, BridgeError>),
    /// Nothing: the call has returned already.
    Halt,
}

/// The mathematical value of an [`Action`].
pub enum ActionView {
    Locate,
    Connect(Seq<char>),
    Execute(StatementView),
    Return(Result<Seq<SqlRowView>, BridgeErrorView>),
    Halt,
}

impl View for Action {
    type V = ActionView;

    open spec fn view(&self) -> ActionView {
        match *self {
            Action::Locate => ActionView::Locate,
            Action::Connect(uri) => ActionView::Connect(uri@),
            Action::Execute(statement) => ActionView::Execute(statement@),
            Action::Return(Ok(rows)) => ActionView::Return(Ok(row_views(rows@))),
            Action::Return(Err(e)) => ActionView::Return(Err(e@)),
            Action::Halt => ActionView::Halt,
        }
    }
}

/// One call in progress: its query, how far it has come, and the location of
/// the database once that is known.
#[derive(Debug, PartialEq, Eq)]
pub struct Execution {
    stage: Stage,
    query: SqlQuery,
    path: String,
}

/// The mathematical value of an [`Execution`].
pub struct ExecutionView {
    pub stage: Stage,
    pub query: SqlQueryView,
    pub path: Seq<char>,
}

impl View for Execution {
    type V = ExecutionView;

    closed spec fn view(&self) -> ExecutionView {
        ExecutionView { stage: self.stage, query: self.query@, path: self.path@ }
    }
}

/// The state in which a call for `query` begins.
pub open spec fn begun(query: SqlQueryView) -> ExecutionView {
    ExecutionView { stage: Stage::Locating, query, path: Seq::empty() }
}

/// The request that is open at a stage of a call.
pub open spec fn pending(state: ExecutionView) -> ActionView {
    match state.stage {
        Stage::Locating => ActionView::Locate,
        Stage::Connecting => ActionView::Connect(uri_of(state.path)),
        Stage::Executing => ActionView::Execute(statement_of(state.query)),
        Stage::Finished => ActionView::Halt,
    }
}

/// The state of a call that has returned.
pub open spec fn finished(state: ExecutionView) -> ExecutionView {
    ExecutionView { stage: Stage::Finished, ..state }
}

/// The state after an event, and the request that follows it.
///
/// A call goes from locating to connecting to executing, and returns from
/// any of them: with a connection error where there is no location or the
/// connection fails, with an execution error where the store rejects the
/// statement, and with the converted rows otherwise. An event that does not
/// answer the open request changes nothing and has the request repeated.
pub open spec fn stepped(state: ExecutionView, event: EventView) -> (ExecutionView, ActionView) {
    match (state.stage, event) {
        (Stage::Locating, EventView::Located { config, data }) => match located(config, data) {
            Some(path) => (
                ExecutionView { stage: Stage::Connecting, query: state.query, path },
                ActionView::Connect(uri_of(path)),
            ),
            None => (
                finished(state),
                ActionView::Return(Err(BridgeErrorView::Connection(unresolved_text()))),
            ),
        },
        (Stage::Connecting, EventView::Connected) => (
            ExecutionView { stage: Stage::Executing, ..state },
            ActionView::Execute(statement_of(state.query)),
        ),
        (Stage::Connecting, EventView::ConnectFailed(cause)) => (
            finished(state),
            ActionView::Return(
                Err(BridgeErrorView::Connection(connect_failure_text(state.path, cause))),
            ),
        ),
        (Stage::Executing, EventView::Fetched(rows)) => (
            finished(state),
            ActionView::Return(Ok(rows_of(rows))),
        ),
        (Stage::Executing, EventView::QueryFailed(cause)) => (
            finished(state),
            ActionView::Return(Err(BridgeErrorView::Execution(query_failure_text(cause)))),
        ),
        _ => (state, pending(state)),
    }
}

/// Builds the address under which the driver opens the database at `path`.
pub fn connection_uri(path: &String) -> (uri: String)
    ensures
        uri@ == uri_of(path@),
{
    String::from_str("sqlite:").concat(path.as_str())
}

/// Builds the error of a call that found no location for the database.
pub fn unresolved_error() -> (e: BridgeError)
    ensures
        e@ == BridgeErrorView::Connection(unresolved_text()),
{
    BridgeError::Connection(String::from_str("Could not resolve app config directory"))
}

/// Builds the error of a connection that could not be opened at `path`.
pub fn connect_error(path: &String, cause: &String) -> (e: BridgeError)
    ensures
        e@ == BridgeErrorView::Connection(connect_failure_text(path@, cause@)),
{
    let text = String::from_str("Failed to connect to DB at ").concat(path.as_str()).concat(
        ": ",
    ).concat(cause.as_str());
    BridgeError::Connection(text)
}

/// Builds the error of a statement that the store rejected.
pub fn query_error(cause: &String) -> (e: BridgeError)
    ensures
        e@ == BridgeErrorView::Execution(query_failure_text(cause@)),
{
    BridgeError::Execution(String::from_str("Query failed: ").concat(cause.as_str()))
}

impl Execution {
    /// Begins a call for `query`. The first request is to locate the database.
    pub fn start(query: SqlQuery) -> (started: (Execution, Action))
        ensures
            started.0@ == begun(query@),
            started.1@ == ActionView::Locate,
    {
        (Execution { stage: Stage::Locating, query, path: String::new() }, Action::Locate)
    }

    /// How far the call has come.
    pub fn stage(&self) -> (stage: Stage)
        ensures
            stage == self@.stage,
    {
        self.stage
    }

    /// Takes the outcome of the last request and gives the state that follows
    /// and the next request, or the result of the call.
    pub fn step(self, event: Event) -> (next: (Execution, Action))
        ensures
            (next.0@, next.1@) == stepped(self@, event@),
    {
        match self.stage {
            Stage::Locating => match event {
                Event::Located { config, data } => match locate(&config, &data) {
                    Some(path) => {
                        let uri = connection_uri(&path);
                        (
                            Execution { stage: Stage::Connecting, query: self.query, path },
                            Action::Connect(uri),
                        )
                    },
                    None => (
                        Execution { stage: Stage::Finished, query: self.query, path: self.path },
                        Action::Return(Err(unresolved_error())),
                    ),
                },
                _ => (self, Action::Locate),
            },
            Stage::Connecting => match event {
                Event::Connected => {
                    let statement = prepare(&self.query);
                    (
                        Execution { stage: Stage::Executing, query: self.query, path: self.path },
                        Action::Execute(statement),
                    )
                },
                Event::ConnectFailed(cause) => {
                    let e = connect_error(&self.path, &cause);
                    (
                        Execution { stage: Stage::Finished, query: self.query, path: self.path },
                        Action::Return(Err(e)),
                    )
                },
                _ => {
                    let uri = connection_uri(&self.path);
                    (self, Action::Connect(uri))
                },
            },
            Stage::Executing => match event {
                Event::Fetched(rows) => {
                    let converted = convert_rows(&rows);
                    (
                        Execution { stage: Stage::Finished, query: self.query, path: self.path },
                        Action::Return(Ok(converted)),
                    )
                },
                Event::QueryFailed(cause) => {
                    let e = query_error(&cause);
                    (
                        Execution { stage: Stage::Finished, query: self.query, path: self.path },
                        Action::Return(Err(e)),
                    )
                },
                _ => {
                    let statement = prepare(&self.query);
                    (self, Action::Execute(statement))
                },
            },
            Stage::Finished => (self, Action::Halt),
        }
    }
}

/// The result of a whole call, stated at once: what the caller gets, given
/// the two candidate locations, the cause for which the connection failed, if
/// it did, and what the store answered to the statement.
pub open spec fn outcome(
    config: Option<CandidateView>,
    data: Option<CandidateView>,
    connect_failure: Option<Seq<char>>,
    answer: Result<Seq<Seq<RawCellView>>, Seq<char>>,
) -> Result<Seq<SqlRowView>, BridgeErrorView> {
    match located(config, data) {
        None => Err(BridgeErrorView::Connection(unresolved_text())),
        Some(path) => match connect_failure {
            Some(cause) => Err(BridgeErrorView::Connection(connect_failure_text(path, cause))),
            None => match answer {
                Ok(rows) => Ok(rows_of(rows)),
                Err(cause) => Err(BridgeErrorView::Execution(query_failure_text(cause))),
            },
        },
    }
}

/// In every row of a result set the columns and the values are equally many,
/// and the result set has one row for each row of the driver; no rows give an
/// empty result set.
pub proof fn lemma_rows_rectangular(rows: Seq<Seq<RawCellView>>)
    ensures
        rows_of(rows).len() == rows.len(),
        forall|k: int|
            0 <= k < rows.len() ==> (#[trigger] rows_of(rows)[k]).columns.len() == rows_of(
                rows,
            )[k].values.len(),
        forall|k: int|
            0 <= k < rows.len() ==> (#[trigger] rows_of(rows)[k]).columns.len() == rows[k].len(),
{
}

/// A statement that yields no rows returns an empty result set, and no error.
pub proof fn lemma_no_rows_is_no_error(state: ExecutionView)
    requires
        state.stage == Stage::Executing,
    ensures
        stepped(state, EventView::Fetched(Seq::empty())).1 == ActionView::Return(
            Ok(Seq::<SqlRowView>::empty()),
        ),
{
    assert(rows_of(Seq::<Seq<RawCellView>>::empty()) =~= Seq::<SqlRowView>::empty());
}

/// Whatever a step returns as rows, the columns and the values of each row
/// are equally many.
pub proof fn lemma_returned_rows_rectangular(state: ExecutionView, event: EventView)
    ensures
        stepped(state, event).1 matches ActionView::Return(Ok(rows)) ==> forall|k: int|
            0 <= k < rows.len() ==> (#[trigger] rows[k]).columns.len() == rows[k].values.len(),
{
    match (state.stage, event) {
        (Stage::Executing, EventView::Fetched(raw)) => {
            lemma_rows_rectangular(raw);
        },
        _ => {},
    }
}

/// A statement that the store rejects ends the call with an execution error,
/// which carries no rows, and the text of the error names the cause.
pub proof fn lemma_rejected_statement(state: ExecutionView, cause: Seq<char>)
    requires
        state.stage == Stage::Executing,
    ensures
        stepped(state, EventView::QueryFailed(cause)).0.stage == Stage::Finished,
        stepped(state, EventView::QueryFailed(cause)).1 == ActionView::Return(
            Err(BridgeErrorView::Execution(query_failure_text(cause))),
        ),
{
}

/// A call whose database has no location, or whose connection cannot be
/// opened, ends with a connection error at once.
pub proof fn lemma_unreachable_store(state: ExecutionView, cause: Seq<char>)
    ensures
        state.stage == Stage::Locating ==> stepped(
            state,
            EventView::Located { config: None, data: None },
        ) == (
            finished(state),
            ActionView::Return(Err(BridgeErrorView::Connection(unresolved_text()))),
        ),
        state.stage == Stage::Connecting ==> stepped(state, EventView::ConnectFailed(cause)) == (
            finished(state),
            ActionView::Return(
                Err(BridgeErrorView::Connection(connect_failure_text(state.path, cause))),
            ),
        ),
{
}

/// No statement goes to the store before the connection is open, and none
/// after the call has returned: a step asks to execute only when it is told
/// that the connection is open, or when it repeats that request. A call that
/// has returned stays so and asks for nothing.
pub proof fn lemma_execute_only_when_connected(state: ExecutionView, event: EventView)
    ensures
        stepped(state, event).1 is Execute ==> (state.stage == Stage::Connecting
            && event is Connected) || state.stage == Stage::Executing,
        stepped(state, event).1 is Execute ==> stepped(state, event).1 == ActionView::Execute(
            statement_of(state.query),
        ),
        state.stage == Stage::Finished ==> stepped(state, event) == (state, ActionView::Halt),
        stepped(state, event).1 is Return ==> stepped(state, event).0.stage == Stage::Finished,
        stepped(state, event).0.query == state.query,
{
}

/// A call that is told, request by request, what [`outcome`] is told at
/// once, returns what [`outcome`] says, and goes no further than it must: it
/// asks to connect only where there is a location, and to execute only where
/// the connection is open.
pub proof fn lemma_call_returns_outcome(
    query: SqlQueryView,
    config: Option<CandidateView>,
    data: Option<CandidateView>,
    connect_failure: Option<Seq<char>>,
    answer: Result<Seq<Seq<RawCellView>>, Seq<char>>,
)
    ensures
        ({
            let first = stepped(begun(query), EventView::Located { config, data });
            let second = stepped(
                first.0,
                match connect_failure {
                    Some(cause) => EventView::ConnectFailed(cause),
                    None => EventView::Connected,
                },
            );
            let third = stepped(
                second.0,
                match answer {
                    Ok(rows) => EventView::Fetched(rows),
                    Err(cause) => EventView::QueryFailed(cause),
                },
            );
            let expected = ActionView::Return(outcome(config, data, connect_failure, answer));
            match located(config, data) {
                None => first.1 == expected,
                Some(path) => first.1 == ActionView::Connect(uri_of(path)) && match connect_failure {
                    Some(_) => second.1 == expected,
                    None => second.1 == ActionView::Execute(statement_of(query)) && third.1
                        == expected,
                },
            }
        }),
{
}

} // verus!
