use rust_string_utils::bridge::{
    advance, compose_sql, into_result, no_results, BridgeState, QueryError, Stage, StageEvent,
};

#[test]
fn compose_sql_adds_the_fixed_prefix() {
    assert_eq!(compose_sql("1+1"), "SELECT 1+1");
    assert_eq!(compose_sql(""), "SELECT ");
}

#[test]
fn no_results_sentinel_text() {
    assert_eq!(no_results(), "No results");
}

#[test]
fn message_is_tagged_with_each_stage() {
    let cases = [
        (Stage::Connect, "DuckDB connection failed: boom"),
        (Stage::Prepare, "DuckDB prepare failed: boom"),
        (Stage::Execute, "DuckDB query failed: boom"),
        (Stage::Fetch, "DuckDB row fetch failed: boom"),
        (Stage::Extract, "DuckDB value extraction failed: boom"),
    ];
    for (stage, expected) in cases {
        let e = QueryError::new(stage, String::from("boom"));
        assert_eq!(e.message(), expected);
    }
}

#[test]
fn advance_walks_the_stages_in_order() {
    let s = BridgeState::Connecting;
    let s = advance(s, StageEvent::Advanced);
    assert_eq!(s, BridgeState::Preparing);
    let s = advance(s, StageEvent::Advanced);
    assert_eq!(s, BridgeState::Executing);
    let s = advance(s, StageEvent::Advanced);
    assert_eq!(s, BridgeState::Fetching);
    let s = advance(s, StageEvent::Row);
    assert_eq!(s, BridgeState::Extracting);
    let s = advance(s, StageEvent::Value(String::from("2")));
    assert_eq!(s, BridgeState::Finished(String::from("2")));
    assert_eq!(into_result(s), Ok(String::from("2")));
}

#[test]
fn advance_yields_sentinel_when_no_row_exists() {
    let s = BridgeState::Fetching;
    let s = advance(s, StageEvent::NoRow);
    assert_eq!(s, BridgeState::Finished(String::from("No results")));
    assert_eq!(into_result(s), Ok(String::from("No results")));
}

#[test]
fn advance_tags_a_failure_with_the_running_stage() {
    let cases = [
        (BridgeState::Connecting, Stage::Connect),
        (BridgeState::Preparing, Stage::Prepare),
        (BridgeState::Executing, Stage::Execute),
        (BridgeState::Fetching, Stage::Fetch),
        (BridgeState::Extracting, Stage::Extract),
    ];
    for (state, stage) in cases {
        let next = advance(state, StageEvent::Trouble(String::from("cause text")));
        let expected = BridgeState::Failed(QueryError::new(stage, String::from("cause text")));
        assert_eq!(next, expected);
        match next {
            BridgeState::Failed(e) => assert_eq!(into_result(BridgeState::Failed(e.clone())), Err(e)),
            _ => panic!("a failing stage must end the run"),
        }
    }
}

#[test]
fn identical_runs_reach_identical_outcomes() {
    let mut outcomes = Vec::new();
    for _ in 0..2 {
        let s = BridgeState::Connecting;
        let s = advance(s, StageEvent::Advanced);
        let s = advance(s, StageEvent::Advanced);
        let s = advance(s, StageEvent::Advanced);
        let s = advance(s, StageEvent::Row);
        let s = advance(s, StageEvent::Value(String::from("42")));
        outcomes.push(into_result(s));
    }
    assert_eq!(outcomes[0], outcomes[1]);
    assert_eq!(outcomes[0], Ok(String::from("42")));
}

#[test]
fn failure_at_prepare_reads_as_a_prepare_message() {
    let next = advance(
        BridgeState::Preparing,
        StageEvent::Trouble(String::from("syntax error at end of input")),
    );
    match next {
        BridgeState::Failed(e) => {
            assert_eq!(e.stage, Stage::Prepare);
            assert_eq!(e.message(), "DuckDB prepare failed: syntax error at end of input");
        }
        _ => panic!("a failing prepare must end the run"),
    }
}
