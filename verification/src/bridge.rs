use vstd::prelude::*;
use vstd::pervasive::unreached;
use vstd::string::StringExecFns;

verus! {

/// The stage of the query pipeline at which a failure can arise.
#[derive(Clone, Copy, Debug, PartialEq, Eq)]
pub enum Stage {
    Connect,
    Prepare,
    Execute,
    Fetch,
    Extract,
}

impl Stage {
    /// The tag naming this stage inside an error message.
    pub open spec fn spec_tag(self) -> Seq<char> {
        match self {
            Stage::Connect => "connection"@,
            Stage::Prepare => "prepare"@,
            Stage::Execute => "query"@,
            Stage::Fetch => "row fetch"@,
            Stage::Extract => "value extraction"@,
        }
    }

    /// The tag naming this stage inside an error message.
    pub fn tag(self) -> (r: &'static str)
        ensures
            r@ == self.spec_tag(),
    {
        match self {
            Stage::Connect => "connection",
            Stage::Prepare => "prepare",
            Stage::Execute => "query",
            Stage::Fetch => "row fetch",
            Stage::Extract => "value extraction",
        }
    }
}

/// The full message reported for a failure: the fixed prefix, the tag of
/// the failing stage, and the underlying cause's description.
pub open spec fn spec_message(stage: Stage, cause: Seq<char>) -> Seq<char> {
    "DuckDB "@ + stage.spec_tag() + " failed: "@ + cause
}

/// A failure of the query bridge: the stage that failed, together with
/// the underlying cause's description.
#[derive(Clone, Debug, PartialEq, Eq)]
pub struct QueryError {
    pub stage: Stage,
    pub cause: String,
}

impl QueryError {
    /// Records a failure of the given stage with the given cause.
    pub fn new(stage: Stage, cause: String) -> (r: QueryError)
        ensures
            r.stage == stage,
            r.cause == cause,
    {
        QueryError { stage, cause }
    }

    /// The stage-tagged message, e.g. `DuckDB prepare failed: <cause>`.
    pub fn message(&self) -> (r: String)
        ensures
            r@ == spec_message(self.stage, self.cause@),
    {
        let mut m = String::from_str("DuckDB ");
        m.append(self.stage.tag());
        m.append(" failed: ");
        m.append(self.cause.as_str());
        proof {
            assert(m@ =~= spec_message(self.stage, self.cause@));
        }
        m
    }
}

/// Composes the statement that is executed: the fixed `SELECT ` prefix,
/// then the caller's fragment verbatim. The fragment is neither
/// validated nor escaped: passing an arbitrary select-list through is
/// the bridge's documented, unsafe-by-construction contract.
pub fn compose_sql(fragment: &str) -> (r: String)
    ensures
        r@ == "SELECT "@ + fragment@,
{
    let mut s = String::from_str("SELECT ");
    s.append(fragment);
    s
}

/// The fixed sentinel text returned when a query yields no rows.
pub fn no_results() -> (r: String)
    ensures
        r@ == "No results"@,
{
    String::from_str("No results")
}

/// Where a query invocation stands: first the five stages of the
/// pipeline in order (connect, prepare, execute, fetch, extract), then
/// one of the two terminal states.
#[derive(Clone, Debug, PartialEq, Eq)]
pub enum BridgeState {
    /// Opening the ephemeral in-memory connection.
    Connecting,
    /// Preparing the composed statement against the connection.
    Preparing,
    /// Executing the prepared statement.
    Executing,
    /// Advancing to the first result row.
    Fetching,
    /// Extracting the text at column zero of the fetched row.
    Extracting,
    /// The scalar text the invocation returns.
    Finished(String),
    /// The failure the invocation reports.
    Failed(QueryError),
}

impl BridgeState {
    /// The pipeline stage that runs while the bridge is in this state.
    pub open spec fn stage(self) -> Option<Stage> {
        match self {
            BridgeState::Connecting => Some(Stage::Connect),
            BridgeState::Preparing => Some(Stage::Prepare),
            BridgeState::Executing => Some(Stage::Execute),
            BridgeState::Fetching => Some(Stage::Fetch),
            BridgeState::Extracting => Some(Stage::Extract),
            BridgeState::Finished(_) => None,
            BridgeState::Failed(_) => None,
        }
    }

    /// Whether the invocation is over, successfully or not.
    pub open spec fn is_terminal(self) -> bool {
        self.stage() is None
    }
}

/// What the stage that was running reported back.
#[derive(Clone, Debug, PartialEq, Eq)]
pub enum StageEvent {
    /// The stage succeeded and produced the next handle (connect,
    /// prepare, execute).
    Advanced,
    /// The fetch succeeded and found a first row.
    Row,
    /// The fetch succeeded and found no row at all.
    NoRow,
    /// The extraction succeeded with the given scalar text.
    Value(String),
    /// The stage failed; the payload is the underlying cause's
    /// description.
    Trouble(String),
}

/// Which events a state can answer: the first three stages hand the
/// pipeline a new handle, the fetch reports whether a row exists, the
/// extraction reports the scalar text, and any stage can fail.
pub open spec fn accepts(state: BridgeState, event: StageEvent) -> bool {
    match event {
        StageEvent::Advanced => state == BridgeState::Connecting || state == BridgeState::Preparing
            || state == BridgeState::Executing,
        StageEvent::Row => state == BridgeState::Fetching,
        StageEvent::NoRow => state == BridgeState::Fetching,
        StageEvent::Value(_) => state == BridgeState::Extracting,
        StageEvent::Trouble(_) => !state.is_terminal(),
    }
}

/// Advances the query pipeline by one stage.
///
/// A failure in any stage ends the run at once, tagged with exactly the
/// stage that was running; the stages otherwise follow one another in
/// their fixed order; a fetch that finds no row ends the run with the
/// `No results` sentinel; an extracted value ends the run with that
/// value, unchanged.
pub fn advance(state: BridgeState, event: StageEvent) -> (next: BridgeState)
    requires
        accepts(state, event),
    ensures
        event matches StageEvent::Trouble(c) ==> (next matches BridgeState::Failed(e) && e.stage
            == state.stage()->0 && e.cause == c),
        state == BridgeState::Connecting && event == StageEvent::Advanced ==> next
            == BridgeState::Preparing,
        state == BridgeState::Preparing && event == StageEvent::Advanced ==> next
            == BridgeState::Executing,
        state == BridgeState::Executing && event == StageEvent::Advanced ==> next
            == BridgeState::Fetching,
        event == StageEvent::Row ==> next == BridgeState::Extracting,
        event == StageEvent::NoRow ==> (next matches BridgeState::Finished(v) && v@
            == "No results"@),
        event matches StageEvent::Value(v) ==> next == BridgeState::Finished(v),
{
    match event {
        StageEvent::Trouble(c) => match state {
            BridgeState::Connecting => BridgeState::Failed(QueryError::new(Stage::Connect, c)),
            BridgeState::Preparing => BridgeState::Failed(QueryError::new(Stage::Prepare, c)),
            BridgeState::Executing => BridgeState::Failed(QueryError::new(Stage::Execute, c)),
            BridgeState::Fetching => BridgeState::Failed(QueryError::new(Stage::Fetch, c)),
            BridgeState::Extracting => BridgeState::Failed(QueryError::new(Stage::Extract, c)),
            _ => unreached(),
        },
        StageEvent::Advanced => match state {
            BridgeState::Connecting => BridgeState::Preparing,
            BridgeState::Preparing => BridgeState::Executing,
            BridgeState::Executing => BridgeState::Fetching,
            _ => unreached(),
        },
        StageEvent::Row => BridgeState::Extracting,
        StageEvent::NoRow => BridgeState::Finished(no_results()),
        StageEvent::Value(v) => BridgeState::Finished(v),
    }
}

/// Reads the outcome out of a finished run: the scalar text of a
/// successful run, or the failure of an unsuccessful one.
pub fn into_result(state: BridgeState) -> (r: Result<String, QueryError>)
    requires
        state.is_terminal(),
    ensures
        state matches BridgeState::Finished(v) ==> r == Result::<String, QueryError>::Ok(v),
        state matches BridgeState::Failed(e) ==> r == Result::<String, QueryError>::Err(e),
{
    match state {
        BridgeState::Finished(v) => Ok(v),
        BridgeState::Failed(e) => Err(e),
        _ => unreached(),
    }
}

} // verus!
