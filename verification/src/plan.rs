//! The requests a client sends and the responses it reads, as plain values.
//!
//! A request is what an `ExecutePlanRequest` of the Spark Connect protocol carries
//! besides its constant parts (no user context, no client type, no request options,
//! and no arguments of a SQL command). A relation that the server returned is carried
//! as the bytes of its protocol buffer encoding: the client never looks inside one,
//! it only hands it back to the server.
use vstd::prelude::*;

verus! {

/// A relation of the Spark Connect protocol.
#[derive(Clone, Debug)]
pub enum Relation {
    /// A relation that the server returned, as its encoded protocol buffer message
    Encoded(Vec<u8>),
    /// A read of the data source at a local file path
    ReadFile(String),
}

/// What a relation is, as plain values.
pub enum RelationView {
    Encoded(Seq<u8>),
    ReadFile(Seq<char>),
}

impl View for Relation {
    type V = RelationView;

    open spec fn view(&self) -> RelationView {
        match self {
            Relation::Encoded(bytes) => RelationView::Encoded(bytes@),
            Relation::ReadFile(path) => RelationView::ReadFile(path@),
        }
    }
}

impl Relation {
    /// A copy of the relation.
    pub fn duplicate(&self) -> (copy: Relation)
        ensures
            copy@ == self@,
    {
        match self {
            Relation::Encoded(bytes) => {
                let copy = bytes.clone();
                assert(copy@ =~= bytes@);
                Relation::Encoded(copy)
            },
            Relation::ReadFile(path) => Relation::ReadFile(path.clone()),
        }
    }
}

/// The plan of an `ExecutePlanRequest`.
#[derive(Clone, Debug)]
pub enum Plan {
    /// A command that runs a SQL statement.
    SqlCommand { sql: String },
    /// A root relation that renders `input` as text.
    ShowString { input: Relation, num_rows: i32, truncate: i32, vertical: bool },
}

/// An `ExecutePlanRequest`: the session it belongs to and the plan to execute.
#[derive(Clone, Debug)]
pub struct ExecutePlanRequest {
    pub session_id: String,
    pub plan: Plan,
}

impl ExecutePlanRequest {
    /// The request runs the SQL statement `query` in the session named `session`.
    pub open spec fn is_sql_command(self, session: Seq<char>, query: Seq<char>) -> bool {
        &&& self.session_id@ == session
        &&& self.plan matches Plan::SqlCommand { sql } && sql@ == query
    }

    /// The request shows the relation `input` in the session named `session`.
    pub open spec fn is_show_string(
        self,
        session: Seq<char>,
        input: RelationView,
        num_rows: i32,
        truncate: i32,
        vertical: bool,
    ) -> bool {
        &&& self.session_id@ == session
        &&& self.plan matches Plan::ShowString { input: i, num_rows: n, truncate: t, vertical: v }
        &&& i@ == input
        &&& n == num_rows
        &&& t == truncate
        &&& v == vertical
    }

    /// A request that runs the SQL statement `query`.
    pub fn sql_command(session_id: String, query: &str) -> (request: ExecutePlanRequest)
        ensures
            request.is_sql_command(session_id@, query@),
    {
        ExecutePlanRequest { session_id, plan: Plan::SqlCommand { sql: query.to_owned() } }
    }

    /// A request that shows `input`, at most `num_rows` rows, with cells cut to
    /// `truncate` characters (no cut for 0), vertically or not.
    pub fn show_string(
        session_id: String,
        input: Relation,
        num_rows: i32,
        truncate: i32,
        vertical: bool,
    ) -> (request: ExecutePlanRequest)
        ensures
            request.is_show_string(session_id@, input@, num_rows, truncate, vertical),
    {
        ExecutePlanRequest {
            session_id,
            plan: Plan::ShowString { input, num_rows, truncate, vertical },
        }
    }
}

/// What one response of an `ExecutePlan` response stream carries, as far as the
/// client reads it: its `response_type`.
#[derive(Clone, Debug)]
pub enum ResponseKind {
    /// The response has no `response_type`.
    Unset,
    /// A `SqlCommandResult`, with the relation it holds, if any.
    SqlCommandResult(Option<Relation>),
    /// An `ArrowBatch`, with the bytes of its Arrow IPC stream.
    ArrowBatch(Vec<u8>),
    /// Any other `response_type`.
    Other,
}

} // verus!
