//! Properties that hold across the library's functions.
use crate::client::{build_outcome, parsed_uri, query_step, target_outcome, QueryAction, QueryStage, SparkConnect, SqlQuery, Target};
use crate::error::Error;
use crate::plan::{ExecutePlanRequest, Relation, ResponseKind};
use crate::session::{show_start, sql_accepts, sql_outcome, DataFrame, SessionAction, ShowRun, SparkSession};
use crate::session_id::{digit_at, hex_digit, is_v4, nibble, uuid_text};
use vstd::arithmetic::div_mod::{lemma_basic_div, lemma_div_denominator, lemma_fundamental_div_mod};
use vstd::arithmetic::power2::{lemma2_to64, lemma_pow2_adds, lemma_pow2_pos, pow2};
use vstd::prelude::*;

verus! {

/// The text of every session identifier has 36 characters: hyphens at places 8, 13,
/// 18 and 23, and lower-case hexadecimal digits everywhere else.
pub proof fn session_text_shape(bits: u128)
    ensures
        uuid_text(bits).len() == 36,
        forall|k: int| 0 <= k < 36 ==> (#[trigger] uuid_text(bits)[k] == '-' <==> (k == 8 || k == 13 || k == 18 || k == 23)),
        forall|k: int|
            0 <= k < 36 && k != 8 && k != 13 && k != 18 && k != 23 ==> {
                let c = #[trigger] uuid_text(bits)[k];
                ('0' <= c <= '9') || ('a' <= c <= 'f')
            },
{
    assert forall|k: int| 0 <= k < 36 && k != 8 && k != 13 && k != 18 && k != 23 implies {
        let c = #[trigger] uuid_text(bits)[k];
        ('0' <= c <= '9') || ('a' <= c <= 'f')
    } by {
        let d = nibble(bits, digit_at(k));
        assert(0 <= d < 16);
    }
}

/// A session identifier drawn by the library reads as a version 4 UUID of the RFC 4122
/// variant: its text has `4` at place 14 and one of `8`, `9`, `a`, `b` at place 19.
pub proof fn v4_session_text(bits: u128)
    requires
        is_v4(bits),
    ensures
        uuid_text(bits)[14] == '4',
        uuid_text(bits)[19] == '8' || uuid_text(bits)[19] == '9' || uuid_text(bits)[19] == 'a'
            || uuid_text(bits)[19] == 'b',
{
    assert(digit_at(14) == 12);
    assert(digit_at(19) == 16);
    let d = nibble(bits, 16);
    assert(8 <= d < 12);
    assert(uuid_text(bits)[19] == hex_digit(d));
}

/// A builder made by [SparkConnect::with] from `host` builds: the client has that
/// host, a version 4 session identifier, and no channel yet.
pub proof fn with_then_build(host: Seq<char>, client: Result<SparkConnect, Error>)
    requires
        build_outcome(Some(host), client),
    ensures
        client is Ok,
        client->Ok_0.host@ == host,
        is_v4(client->Ok_0.session_id.0),
        !client->Ok_0.is_connected(),
{
}

/// A builder that was given no host (such as the default one) does not build: it
/// fails with an unknown error.
pub proof fn no_host_does_not_build(client: Result<SparkConnect, Error>)
    requires
        build_outcome(None, client),
    ensures
        client matches Err(e) && e is Unknown,
{
}

/// The frame that a SQL query of a session gives shows the relation of the command's
/// result, in the same session: its show request names the session by the session's
/// own identifier text.
pub proof fn sql_then_show<H: Clone>(
    session: SparkSession<H>,
    relation: Relation,
    frame: DataFrame<H>,
    num_rows: i32,
    truncate: i32,
    start: Option<(ShowRun, ExecutePlanRequest)>,
)
    requires
        sql_outcome(session, Some(ResponseKind::SqlCommandResult(Some(relation))), SessionAction::Finish(Ok(frame))),
        show_start(frame, num_rows, truncate, start),
    ensures
        frame.session_id == session.session_id,
        start matches Some((run, request)) && !run.decoding() && request.is_show_string(
            uuid_text(session.session_id.0),
            relation@,
            num_rows,
            truncate,
            true,
        ),
{
}

/// Every request of a SQL query of a client names the client's session: the show
/// request that a command result leads to carries the same session text as the
/// command itself.
pub proof fn query_requests_name_the_session(
    client: SparkConnect,
    query: SqlQuery,
    relation: Relation,
    after: QueryStage,
    action: QueryAction,
)
    requires
        query.session@ == uuid_text(client.session_id.0),
        query_step(query.session@, QueryStage::Command, Some(ResponseKind::SqlCommandResult(Some(relation))), after, action),
    ensures
        after == QueryStage::Show,
        action matches QueryAction::Send(request) && request.session_id@ == uuid_text(client.session_id.0)
            && request.is_show_string(uuid_text(client.session_id.0), relation@, 10, 0, true),
{
}

/// The URI that a client dials is the one its configured host parses to: whenever a
/// target comes out for a host, its URI and text are the parse of that host, so two
/// targets for the same host dial the same URI.
pub proof fn target_dials_the_host(host: Seq<char>, t: Target, other: Target)
    requires
        target_outcome(host, Ok(t)),
        target_outcome(host, Ok(other)),
    ensures
        parsed_uri(host) == Some((t.uri, t.text@)),
        t.uri == other.uri,
        t.text@ == other.text@,
{
}

/// A session turns every command result that carries a relation into a frame of the
/// session holding that relation: the checked step of a session on such a result
/// finishes with that frame, and is never refused.
pub proof fn session_handles_command_results<H: Clone>(
    session: SparkSession<H>,
    relation: Relation,
    action: Option<SessionAction<H>>,
)
    requires
        action is None <==> !sql_accepts(Some(ResponseKind::SqlCommandResult(Some(relation)))),
        action matches Some(a) ==> sql_outcome(session, Some(ResponseKind::SqlCommandResult(Some(relation))), a),
    ensures
        action matches Some(SessionAction::Finish(Ok(frame))) && frame.session_id == session.session_id
            && frame.relation == Some(relation) && frame.data is None,
{
}

/// A query that waits for the result of its command accepts every command result
/// that carries a relation: its checked step on one sends the request that shows that
/// relation in the query's session (10 rows, no truncation, vertically), and the query
/// goes on to read the responses to it.
pub proof fn query_handles_command_results(
    before: SqlQuery,
    after: SqlQuery,
    relation: Relation,
    action: Option<QueryAction>,
)
    requires
        before.stage == QueryStage::Command,
        action is None <==> !before.accepts(Some(ResponseKind::SqlCommandResult(Some(relation)))),
        action matches Some(a) ==> query_step(
            before.session@,
            before.stage,
            Some(ResponseKind::SqlCommandResult(Some(relation))),
            after.stage,
            a,
        ),
    ensures
        after.stage == QueryStage::Show,
        action matches Some(QueryAction::Send(request)) && request.is_show_string(before.session@, relation@, 10, 0, true),
{
}

/// The value of the `n` leading hexadecimal digits of `bits`.
spec fn leading(bits: u128, n: nat) -> int {
    bits as int / pow2((4 * (32 - n)) as nat) as int
}

proof fn leading_step(bits: u128, n: nat)
    requires
        n < 32,
    ensures
        leading(bits, n + 1) == 16 * leading(bits, n) + nibble(bits, n as int),
{
    let e = (4 * (31 - n)) as nat;
    lemma2_to64();
    lemma_pow2_adds(e, 4);
    lemma_pow2_pos(e);
    assert((4 * (32 - n)) as nat == e + 4);
    lemma_div_denominator(bits as int, pow2(e) as int, 16);
    lemma_fundamental_div_mod(leading(bits, n + 1), 16);
}

proof fn leading_agree(a: u128, b: u128, n: nat)
    requires
        n <= 32,
        forall|i: int| 0 <= i < n ==> nibble(a, i) == nibble(b, i),
    ensures
        leading(a, n) == leading(b, n),
    decreases n,
{
    if n == 0 {
        lemma2_to64();
        lemma_pow2_adds(64, 64);
        assert(pow2(128) == 0x1_0000_0000_0000_0000_0000_0000_0000_0000);
        lemma_basic_div(a as int, pow2(128) as int);
        lemma_basic_div(b as int, pow2(128) as int);
    } else {
        let m = (n - 1) as nat;
        leading_agree(a, b, m);
        leading_step(a, m);
        leading_step(b, m);
    }
}

proof fn hex_digit_injective(d: int, e: int)
    requires
        0 <= d < 16,
        0 <= e < 16,
        hex_digit(d) == hex_digit(e),
    ensures
        d == e,
{
}

/// Distinct session identifiers are sent as distinct texts: the text of a session
/// identifier determines it.
pub proof fn session_text_determines_session(a: u128, b: u128)
    requires
        uuid_text(a) == uuid_text(b),
    ensures
        a == b,
{
    assert forall|i: int| 0 <= i < 32 implies nibble(a, i) == nibble(b, i) by {
        let k = if i < 8 {
            i
        } else if i < 12 {
            i + 1
        } else if i < 16 {
            i + 2
        } else if i < 20 {
            i + 3
        } else {
            i + 4
        };
        assert(digit_at(k) == i);
        assert(uuid_text(a)[k] == hex_digit(nibble(a, i)));
        assert(uuid_text(b)[k] == hex_digit(nibble(b, i)));
        hex_digit_injective(nibble(a, i), nibble(b, i));
    }
    leading_agree(a, b, 32);
    lemma2_to64();
    assert(leading(a, 32) == a as int / 1);
    assert(leading(b, 32) == b as int / 1);
}

} // verus!
