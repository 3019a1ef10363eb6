use sql_bridge::codec::{Binding, ColumnValue};
use sql_bridge::executor::{
    connect_error, connection_uri, convert_cell, convert_row, convert_rows, locate, prepare,
    query_error, unresolved_error, Action, BridgeError, Candidate, Event, Execution, RawCell,
    RawRow, SqlQuery, SqlRow, Stage, Statement,
};
use sql_bridge::value::{DynValue, Number};

fn candidate(path: &str, exists: bool) -> Option<Candidate> {
    Some(Candidate { path: path.to_string(), exists })
}

fn cell(column: &str, declared: Option<&str>, value: Option<ColumnValue>) -> RawCell {
    RawCell { column: column.to_string(), declared: declared.map(|t| t.to_string()), value }
}

fn query(sql: &str, params: Vec<DynValue>) -> SqlQuery {
    SqlQuery { sql: sql.to_string(), params }
}

fn connecting(q: SqlQuery) -> Execution {
    let (start, _) = Execution::start(q);
    let (next, _) = start.step(Event::Located { config: candidate("/c/database.db", true), data: None });
    next
}

fn executing(q: SqlQuery) -> Execution {
    let (next, _) = connecting(q).step(Event::Connected);
    next
}

#[test]
fn locate_takes_the_configuration_candidate_where_it_exists() {
    let got = locate(&candidate("/c/database.db", true), &candidate("/d/database.db", true));
    assert_eq!(got, Some("/c/database.db".to_string()));
    let got = locate(&candidate("/c/database.db", true), &None);
    assert_eq!(got, Some("/c/database.db".to_string()));
}

#[test]
fn locate_falls_back_to_the_data_candidate_where_only_it_exists() {
    let got = locate(&candidate("/c/database.db", false), &candidate("/d/database.db", true));
    assert_eq!(got, Some("/d/database.db".to_string()));
    let got = locate(&None, &candidate("/d/database.db", true));
    assert_eq!(got, Some("/d/database.db".to_string()));
}

#[test]
fn locate_defaults_to_the_configuration_candidate_where_none_exists() {
    let got = locate(&candidate("/c/database.db", false), &candidate("/d/database.db", false));
    assert_eq!(got, Some("/c/database.db".to_string()));
    let got = locate(&candidate("/c/database.db", false), &None);
    assert_eq!(got, Some("/c/database.db".to_string()));
}

#[test]
fn locate_takes_the_data_candidate_where_it_is_the_only_one() {
    let got = locate(&None, &candidate("/d/database.db", false));
    assert_eq!(got, Some("/d/database.db".to_string()));
}

#[test]
fn locate_fails_only_where_neither_directory_resolves() {
    assert_eq!(locate(&None, &None), None);
}

#[test]
fn connection_uri_prefixes_the_scheme() {
    assert_eq!(connection_uri(&"/c/database.db".to_string()), "sqlite:/c/database.db");
    assert_eq!(connection_uri(&String::new()), "sqlite:");
}

#[test]
fn errors_carry_their_messages() {
    let e = unresolved_error();
    assert_eq!(e, BridgeError::Connection("Could not resolve app config directory".to_string()));
    assert_eq!(e.message(), "Could not resolve app config directory");

    let e = connect_error(&"/c/database.db".to_string(), &"unable to open".to_string());
    assert_eq!(
        e,
        BridgeError::Connection("Failed to connect to DB at /c/database.db: unable to open".to_string())
    );
    assert_eq!(e.message(), "Failed to connect to DB at /c/database.db: unable to open");

    let e = query_error(&"near \"SELEC\": syntax error".to_string());
    assert_eq!(e, BridgeError::Execution("Query failed: near \"SELEC\": syntax error".to_string()));
    assert_eq!(e.message(), "Query failed: near \"SELEC\": syntax error");
}

#[test]
fn prepare_keeps_the_text_and_binds_in_order() {
    let q = query(
        "SELECT ?1, ?2, ?3",
        vec![DynValue::Text("a".to_string()), DynValue::Number(Number::Integer(2)), DynValue::Null],
    );
    assert_eq!(
        prepare(&q),
        Statement {
            sql: "SELECT ?1, ?2, ?3".to_string(),
            bindings: vec![Binding::Text("a".to_string()), Binding::Integer(2), Binding::Null],
        }
    );
}

#[test]
fn unreachable_cell_is_null() {
    assert_eq!(convert_cell(&cell("x", Some("INTEGER"), None)), DynValue::Null);
    assert_eq!(convert_cell(&cell("x", None, None)), DynValue::Null);
}

#[test]
fn reachable_cell_is_converted_by_its_column() {
    let got = convert_cell(&cell("x", Some("INTEGER"), Some(ColumnValue::Integer(9))));
    assert_eq!(got, DynValue::Number(Number::Integer(9)));
    let got = convert_cell(&cell("x", Some("TEXT"), Some(ColumnValue::Integer(9))));
    assert_eq!(got, DynValue::Null);
}

#[test]
fn row_pairs_names_and_values_in_physical_order() {
    let raw = RawRow {
        cells: vec![
            cell("id", Some("INTEGER"), Some(ColumnValue::Integer(1))),
            cell("name", Some("TEXT"), Some(ColumnValue::Text("ann".to_string()))),
            cell("name", Some("TEXT"), Some(ColumnValue::Null)),
            cell("data", Some("BLOB"), Some(ColumnValue::Blob(vec![1, 2, 3]))),
            cell("gone", None, None),
        ],
    };
    let row = convert_row(&raw);
    assert_eq!(row.columns, vec!["id", "name", "name", "data", "gone"]);
    assert_eq!(
        row.values,
        vec![
            DynValue::Number(Number::Integer(1)),
            DynValue::Text("ann".to_string()),
            DynValue::Null,
            DynValue::Text("AQID".to_string()),
            DynValue::Null,
        ]
    );
}

#[test]
fn rows_have_as_many_values_as_columns() {
    let raw = vec![
        RawRow { cells: Vec::new() },
        RawRow { cells: vec![cell("a", None, Some(ColumnValue::Integer(1)))] },
        RawRow { cells: vec![cell("a", None, None), cell("b", Some("REAL"), Some(ColumnValue::Null))] },
    ];
    let rows = convert_rows(&raw);
    assert_eq!(rows.len(), 3);
    for (row, source) in rows.iter().zip(raw.iter()) {
        assert_eq!(row.columns.len(), row.values.len());
        assert_eq!(row.columns.len(), source.cells.len());
    }
}

#[test]
fn no_rows_give_an_empty_result_set() {
    assert_eq!(convert_rows(&Vec::new()), Vec::<SqlRow>::new());
}

#[test]
fn call_starts_by_locating() {
    let (start, action) = Execution::start(query("SELECT 1", Vec::new()));
    assert_eq!(start.stage(), Stage::Locating);
    assert_eq!(action, Action::Locate);
}

#[test]
fn located_call_asks_to_connect() {
    let (start, _) = Execution::start(query("SELECT 1", Vec::new()));
    let (next, action) = start.step(Event::Located {
        config: candidate("/c/database.db", false),
        data: candidate("/d/database.db", true),
    });
    assert_eq!(next.stage(), Stage::Connecting);
    assert_eq!(action, Action::Connect("sqlite:/d/database.db".to_string()));
}

#[test]
fn unresolved_location_returns_before_any_statement() {
    let (start, _) = Execution::start(query("SELECT 1", Vec::new()));
    let (next, action) = start.step(Event::Located { config: None, data: None });
    assert_eq!(next.stage(), Stage::Finished);
    assert_eq!(
        action,
        Action::Return(Err(BridgeError::Connection(
            "Could not resolve app config directory".to_string()
        )))
    );
    let (after, action) = next.step(Event::Connected);
    assert_eq!(after.stage(), Stage::Finished);
    assert_eq!(action, Action::Halt);
}

#[test]
fn failed_connection_returns_a_connection_error() {
    let (next, action) = connecting(query("SELECT 1", Vec::new()))
        .step(Event::ConnectFailed("unable to open database file".to_string()));
    assert_eq!(next.stage(), Stage::Finished);
    assert_eq!(
        action,
        Action::Return(Err(BridgeError::Connection(
            "Failed to connect to DB at /c/database.db: unable to open database file".to_string()
        )))
    );
}

#[test]
fn open_connection_asks_to_execute_the_statement() {
    let q = query("SELECT ?1 AS echo", vec![DynValue::Text("hi".to_string())]);
    let (next, action) = connecting(q).step(Event::Connected);
    assert_eq!(next.stage(), Stage::Executing);
    assert_eq!(
        action,
        Action::Execute(Statement {
            sql: "SELECT ?1 AS echo".to_string(),
            bindings: vec![Binding::Text("hi".to_string())],
        })
    );
}

#[test]
fn fetched_rows_are_returned_converted() {
    let raw = vec![RawRow {
        cells: vec![
            cell("x", None, Some(ColumnValue::Integer(1))),
            cell("y", None, Some(ColumnValue::Null)),
        ],
    }];
    let (next, action) = executing(query("SELECT 1 AS x, NULL AS y", Vec::new())).step(Event::Fetched(raw));
    assert_eq!(next.stage(), Stage::Finished);
    assert_eq!(
        action,
        Action::Return(Ok(vec![SqlRow {
            columns: vec!["x".to_string(), "y".to_string()],
            values: vec![DynValue::Number(Number::Integer(1)), DynValue::Null],
        }]))
    );
}

#[test]
fn zero_rows_are_a_result_and_no_error() {
    let (_, action) = executing(query("SELECT 1 WHERE 0", Vec::new())).step(Event::Fetched(Vec::new()));
    assert_eq!(action, Action::Return(Ok(Vec::new())));
}

#[test]
fn rejected_statement_returns_an_execution_error_and_no_rows() {
    let (next, action) = executing(query("SELECT ?1, ?2", vec![DynValue::Null]))
        .step(Event::QueryFailed("wrong number of parameters".to_string()));
    assert_eq!(next.stage(), Stage::Finished);
    assert_eq!(
        action,
        Action::Return(Err(BridgeError::Execution(
            "Query failed: wrong number of parameters".to_string()
        )))
    );
}

#[test]
fn event_out_of_turn_repeats_the_request() {
    let (start, _) = Execution::start(query("SELECT 1", Vec::new()));
    let (same, action) = start.step(Event::Connected);
    assert_eq!(same.stage(), Stage::Locating);
    assert_eq!(action, Action::Locate);

    let (same, action) = connecting(query("SELECT 1", Vec::new())).step(Event::Fetched(Vec::new()));
    assert_eq!(same.stage(), Stage::Connecting);
    assert_eq!(action, Action::Connect("sqlite:/c/database.db".to_string()));

    let (same, action) = executing(query("SELECT 1", Vec::new())).step(Event::Connected);
    assert_eq!(same.stage(), Stage::Executing);
    assert_eq!(
        action,
        Action::Execute(Statement { sql: "SELECT 1".to_string(), bindings: Vec::new() })
    );
}
