//! The primary client: a host, a session, and the channel once connected.
use crate::arrow_stream::{ipc_item, ipc_stream_opens, Batch, IpcBatches, IpcItem, IpcPosition};
use crate::error::Error;
use crate::plan::{ExecutePlanRequest, ResponseKind};
use crate::session_id::{is_v4, uuid_text, SessionId};
use http::uri::InvalidUri;
use http::Uri;
use tonic::transport::Channel;
use vstd::prelude::*;

verus! {

#[verifier::external_type_specification]
#[verifier::external_body]
pub struct ExUri(Uri);

#[verifier::external_type_specification]
#[verifier::external_body]
pub struct ExChannel(Channel);

/// What `http::Uri`'s `FromStr` makes of `text`: `None` when it refuses it, else the
/// parsed URI (the value of its parts) with the text it displays as (`Display` of `Uri`).
pub uninterp spec fn parsed_uri(text: Seq<char>) -> Option<(Uri, Seq<char>)>;

/// Calls `str::parse::<http::Uri>` (`Uri::from_str`), and renders the parsed URI with
/// its `Display`. It succeeds exactly when `parsed_uri(text)` is `Some`, and then the
/// URI and its rendering are the ones named there; the empty text is refused (`ErrorKind::Empty`).
#[verifier::external_body]
fn parse_uri(text: &str) -> (uri: Result<(Uri, String), InvalidUri>)
    ensures
        uri is Ok <==> parsed_uri(text@) is Some,
        uri matches Ok((u, shown)) ==> parsed_uri(text@) == Some((u, shown@)),
        text@.len() == 0 ==> uri is Err,
{
    match text.parse::<Uri>() {
        Ok(uri) => {
            let shown = uri.to_string();
            Ok((uri, shown))
        },
        Err(e) => Err(e),
    }
}

/// What the target of a client with `host` is: the URI that the host parses to, with
/// its text, and an HTTP error exactly when the host is no URI.
pub open spec fn target_outcome(host: Seq<char>, target: Result<Target, Error>) -> bool {
    &&& target is Ok <==> parsed_uri(host) is Some
    &&& target matches Ok(t) ==> parsed_uri(host) == Some((t.uri, t.text@))
    &&& target matches Err(e) ==> e is HttpError
}

/// A URI to connect to, with the text it displays as.
#[derive(Debug)]
pub struct Target {
    pub uri: Uri,
    pub text: String,
}

/// The primary client interface for interacting with Spark Connect instances
#[derive(Clone, Debug)]
pub struct SparkConnect {
    /// Configured hostname for the Spark Connect connection
    pub host: String,
    /// Session ID to use for this connection
    pub session_id: SessionId,
    /// The gRPC channel, once connected
    pub inner: Option<Channel>,
}

/// Internal builder object for creating new [SparkConnect] objects
#[derive(Clone, Debug)]
pub struct SparkConnectBuilder {
    host: Option<String>,
}

impl View for SparkConnectBuilder {
    /// The host that the builder was given, if any.
    type V = Option<Seq<char>>;

    closed spec fn view(&self) -> Option<Seq<char>> {
        match self.host {
            Some(host) => Some(host@),
            None => None,
        }
    }
}

impl Default for SparkConnectBuilder {
    fn default() -> (builder: SparkConnectBuilder)
        ensures
            builder@ is None,
    {
        SparkConnectBuilder { host: None }
    }
}

impl Default for SparkConnect {
    fn default() -> (client: SparkConnect)
        ensures
            client.host@ == Seq::<char>::empty(),
            client.session_id.0 == 0,
            !client.is_connected(),
    {
        SparkConnect { host: String::new(), session_id: SessionId(0), inner: None }
    }
}

/// What building gives for a builder with `host`: a client with that host, a fresh
/// version 4 session identifier and no channel when there is a host, an unknown error
/// when there is none.
pub open spec fn build_outcome(host: Option<Seq<char>>, client: Result<SparkConnect, Error>) -> bool {
    match host {
        Some(h) => client matches Ok(c) && c.host@ == h && is_v4(c.session_id.0) && !c.is_connected(),
        None => client matches Err(e) && e is Unknown,
    }
}

impl SparkConnectBuilder {
    /// Build the configured [SparkConnect] instance: it succeeds exactly when a host
    /// was given, with that host, a fresh version 4 session identifier, and no channel.
    pub fn build(self) -> (client: Result<SparkConnect, Error>)
        ensures
            build_outcome(self@, client),
    {
        match self.host {
            Some(host) => Ok(SparkConnect { session_id: SessionId::new_v4(), inner: None, host }),
            None => Err(Error::Unknown),
        }
    }
}

impl SparkConnect {
    /// Whether the client holds a channel to its host.
    pub open spec fn is_connected(&self) -> bool {
        self.inner is Some
    }

    /// Create a [SparkConnectBuilder] with the given hostname to a Spark Connect server
    pub fn with(host: &str) -> (builder: SparkConnectBuilder)
        ensures
            builder@ == Some(host@),
    {
        let mut builder = SparkConnectBuilder::default();
        builder.host = Some(host.to_owned());
        builder
    }

    /// The URI to connect to: the host, parsed. It fails, with an HTTP error, exactly
    /// when the host is not a URI; otherwise it is the URI that the host parses to.
    pub fn target(&self) -> (target: Result<Target, Error>)
        ensures
            target_outcome(self.host@, target),
    {
        match parse_uri(self.host.as_str()) {
            Ok((uri, text)) => Ok(Target { uri, text }),
            Err(e) => Err(Error::HttpError(e)),
        }
    }

    /// The client, connected through `channel`: host and session are kept.
    pub fn connected(self, channel: Channel) -> (client: SparkConnect)
        ensures
            client.host@ == self.host@,
            client.session_id == self.session_id,
            client.is_connected(),
    {
        SparkConnect { inner: Some(channel), ..self }
    }

    /// The channel to the host, if the client is connected.
    pub fn channel(&self) -> (channel: Option<&Channel>)
        ensures
            channel is Some <==> self.is_connected(),
    {
        self.inner.as_ref()
    }

    /// Send a SQL query to the Spark Connect server: the request to send first, and
    /// the run that decides what to do with each response (see [SqlQuery]).
    /// The client must be connected.
    pub fn sql(&self, query: &str) -> (start: (SqlQuery, ExecutePlanRequest))
        requires
            self.is_connected(),
        ensures
            start.0.stage == QueryStage::Command,
            start.0.session@ == uuid_text(self.session_id.0),
            start.1.is_sql_command(uuid_text(self.session_id.0), query@),
    {
        let session = self.session_id.to_text();
        let request = ExecutePlanRequest::sql_command(session.clone(), query);
        (SqlQuery { stage: QueryStage::Command, session }, request)
    }
}

/// Which response stream a SQL query is reading.
#[derive(Clone, Copy, Debug, PartialEq, Eq, Structural)]
pub enum QueryStage {
    /// The responses to the SQL command.
    Command,
    /// The responses to the request that shows the command's result; once they end,
    /// the query goes back to the responses to the command.
    Show,
}

/// What the caller does next in a SQL query.
#[derive(Debug)]
pub enum QueryAction {
    /// Read the next response of the stream of the current stage.
    Read,
    /// Send this request and read its responses (the stage is now `Show`).
    Send(ExecutePlanRequest),
    /// The query is over, with this result.
    Finish(Result<Batch, Error>),
}

/// The decisions of [SparkConnect::sql], one response at a time.
#[derive(Clone, Debug)]
pub struct SqlQuery {
    pub stage: QueryStage,
    /// The text of the session that the query's requests name
    pub session: String,
}

/// The place of the first item of the Arrow IPC stream in `data`.
pub open spec fn stream_start(data: Seq<u8>) -> IpcPosition {
    IpcPosition { data, index: 0 }
}

/// One step of a SQL query of the session named `session`: in stage `before`, the
/// stream gave `message` (`None` when it ended); the query goes to stage `after` and
/// asks for `action`.
pub open spec fn query_step(
    session: Seq<char>,
    before: QueryStage,
    message: Option<ResponseKind>,
    after: QueryStage,
    action: QueryAction,
) -> bool {
    match before {
        QueryStage::Command => match message {
            None => after == QueryStage::Command && action matches QueryAction::Finish(Err(Error::Unknown)),
            Some(ResponseKind::Unset) => after == QueryStage::Command && action is Read,
            Some(ResponseKind::SqlCommandResult(Some(relation))) => {
                &&& after == QueryStage::Show
                &&& action matches QueryAction::Send(request)
                &&& request.is_show_string(session, relation@, 10, 0, true)
            },
            _ => false,
        },
        QueryStage::Show => match message {
            None => after == QueryStage::Command && action is Read,
            Some(ResponseKind::ArrowBatch(data)) => {
                &&& after == QueryStage::Show
                &&& ipc_stream_opens(data@)
                &&& match ipc_item(stream_start(data@)) {
                    IpcItem::Batch(_) => action matches QueryAction::Finish(Ok(_)),
                    IpcItem::Error => action matches QueryAction::Finish(Err(e)) && e is ArrowError,
                    _ => action is Read,
                }
            },
            Some(_) => after == QueryStage::Show && action is Read,
        },
    }
}

impl SqlQuery {
    /// The responses that the query handles; on any other it cannot go on: a command
    /// result without a relation, a response to the command that is not a command
    /// result, or an Arrow batch that is no Arrow IPC stream.
    pub open spec fn accepts(self, message: Option<ResponseKind>) -> bool {
        match self.stage {
            QueryStage::Command => match message {
                Some(ResponseKind::SqlCommandResult(None)) => false,
                Some(ResponseKind::ArrowBatch(_)) => false,
                Some(ResponseKind::Other) => false,
                _ => true,
            },
            QueryStage::Show => match message {
                Some(ResponseKind::ArrowBatch(data)) => ipc_stream_opens(data@),
                _ => true,
            },
        }
    }

    /// The Arrow batch shown, if any, is not one on which the Arrow reader panics
    /// when it reads the first item.
    pub open spec fn decodes(self, message: Option<ResponseKind>) -> bool {
        match self.stage {
            QueryStage::Show => match message {
                Some(ResponseKind::ArrowBatch(data)) => !(ipc_item(stream_start(data@)) is Aborts),
                _ => true,
            },
            _ => true,
        }
    }

    /// Handles the next response of the current stream (`None` when it ended).
    ///
    /// A command result sends a request, in the query's session, to show its relation
    /// (at most 10 rows, no truncation, vertically); the end of the command stream
    /// fails the query with an unknown error; an Arrow batch shown finishes the query
    /// with its first record batch, or with its first item's Arrow error, and is read
    /// past when it holds no item; the end of the show stream goes back to the command
    /// stream; anything else is read past.
    pub fn step(&mut self, message: Option<ResponseKind>) -> (action: QueryAction)
        requires
            old(self).accepts(message),
            old(self).decodes(message),
        ensures
            final(self).session@ == old(self).session@,
            query_step(old(self).session@, old(self).stage, message, final(self).stage, action),
    {
        match self.stage {
            QueryStage::Command => match message {
                None => QueryAction::Finish(Err(Error::Unknown)),
                Some(ResponseKind::SqlCommandResult(Some(relation))) => {
                    self.stage = QueryStage::Show;
                    QueryAction::Send(ExecutePlanRequest::show_string(self.session.clone(), relation, 10, 0, true))
                },
                _ => QueryAction::Read,
            },
            QueryStage::Show => match message {
                None => {
                    self.stage = QueryStage::Command;
                    QueryAction::Read
                },
                Some(ResponseKind::ArrowBatch(data)) => match IpcBatches::open(data) {
                    Ok(mut batches) => match batches.next_batch() {
                        Some(Ok(decoded)) => QueryAction::Finish(Ok(decoded.batch)),
                        Some(Err(e)) => QueryAction::Finish(Err(e)),
                        None => QueryAction::Read,
                    },
                    Err(e) => QueryAction::Finish(Err(e)),
                },
                Some(_) => QueryAction::Read,
            },
        }
    }

    /// [SqlQuery::step] on any response that decodes: `None`, with the query unchanged,
    /// exactly on the responses that it does not accept.
    pub fn checked_step(&mut self, message: Option<ResponseKind>) -> (action: Option<QueryAction>)
        requires
            old(self).decodes(message),
        ensures
            action is None <==> !old(self).accepts(message),
            action is None ==> final(self).stage == old(self).stage,
            final(self).session@ == old(self).session@,
            action matches Some(a) ==> query_step(old(self).session@, old(self).stage, message, final(self).stage, a),
    {
        let accepted = match self.stage {
            QueryStage::Command => match &message {
                Some(ResponseKind::SqlCommandResult(None)) => false,
                Some(ResponseKind::ArrowBatch(_)) => false,
                Some(ResponseKind::Other) => false,
                _ => true,
            },
            QueryStage::Show => match &message {
                Some(ResponseKind::ArrowBatch(data)) => {
                    let copy = data.clone();
                    assert(copy@ =~= data@);
                    IpcBatches::open(copy).is_ok()
                },
                _ => true,
            },
        };
        if accepted {
            Some(self.step(message))
        } else {
            None
        }
    }
}

} // verus!
