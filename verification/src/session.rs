//! Sessions and data frames.
//!
//! A session and the data frames made from it share one handle to the gRPC service
//! client (`H`, such as an `Arc<RwLock<..>>` around it); the library only passes
//! the handle on. What a session or a frame decides is stated here: the requests
//! it sends and what it does with each response.
use crate::arrow_stream::{ipc_item, ipc_stream_opens, text_of, IpcBatches, IpcItem, IpcPosition};
use crate::error::Error;
use crate::plan::{ExecutePlanRequest, Relation, RelationView, ResponseKind};
use crate::session_id::{is_v4, uuid_text, SessionId};
use vstd::prelude::*;

verus! {

/// The primary client interface for interacting with Spark Connect servers
#[derive(Clone, Debug)]
pub struct SparkSession<H> {
    /// Session ID to use for this connection
    pub session_id: SessionId,
    /// The shared handle to the gRPC service client
    pub inner: H,
}

/// The DataFrame struct looks and feels like a "real" Spark data frame but it isn't
/// actually one. It is returned by the calls of a [SparkSession].
#[derive(Debug)]
pub struct DataFrame<H> {
    pub session_id: SessionId,
    pub data: Option<bool>,
    /// The relation that the server returned for the frame, if any
    pub relation: Option<Relation>,
    /// The shared handle to the gRPC service client
    pub inner: H,
}

/// What the caller does next in [SparkSession::sql].
#[derive(Debug)]
pub enum SessionAction<H> {
    /// Read the next response.
    Read,
    /// The query is over, with this result.
    Finish(Result<DataFrame<H>, Error>),
}

/// The responses to a SQL command that a session handles: any but a command result
/// without a relation or a response that is not a command result.
pub open spec fn sql_accepts(message: Option<ResponseKind>) -> bool {
    match message {
        Some(ResponseKind::SqlCommandResult(None)) => false,
        Some(ResponseKind::ArrowBatch(_)) => false,
        Some(ResponseKind::Other) => false,
        _ => true,
    }
}

/// What a session does with a response to its SQL command (`None`: the stream ended):
/// a command result finishes the query with a frame of the session that holds the
/// result's relation; the end of the stream fails it with an unknown error; a
/// response with no type is read past.
pub open spec fn sql_outcome<H: Clone>(session: SparkSession<H>, message: Option<ResponseKind>, action: SessionAction<H>) -> bool {
    match message {
        None => action matches SessionAction::Finish(Err(Error::Unknown)),
        Some(ResponseKind::SqlCommandResult(Some(relation))) => {
            &&& action matches SessionAction::Finish(Ok(frame))
            &&& frame.session_id == session.session_id
            &&& frame.relation == Some(relation)
            &&& frame.data is None
            &&& cloned::<H>(session.inner, frame.inner)
        },
        _ => action is Read,
    }
}

/// What showing `frame` starts with: for a frame with a relation, a run that is not
/// decoding and the request that shows the relation in the frame's session, vertically;
/// for a frame without one, nothing.
pub open spec fn show_start<H>(
    frame: DataFrame<H>,
    num_rows: i32,
    truncate: i32,
    start: Option<(ShowRun, ExecutePlanRequest)>,
) -> bool {
    match frame.relation {
        Some(relation) => start matches Some((run, request)) && !run.decoding()
            && request.is_show_string(uuid_text(frame.session_id.0), relation@, num_rows, truncate, true),
        None => start is None,
    }
}

/// The frame that `session` makes to read the file at `file`: a frame of the
/// session, sharing its client, whose relation reads that file.
pub open spec fn file_frame<H: Clone>(session: SparkSession<H>, file: Seq<char>, frame: DataFrame<H>) -> bool {
    &&& frame.session_id == session.session_id
    &&& frame.relation matches Some(r) && r@ == RelationView::ReadFile(file)
    &&& frame.data is None
    &&& cloned::<H>(session.inner, frame.inner)
}

impl<H> SparkSession<H> {
    /// A session with a fresh session identifier over the client handle `inner`.
    fn new(inner: H) -> (session: SparkSession<H>)
        ensures
            is_v4(session.session_id.0),
            session.inner == inner,
    {
        SparkSession { session_id: SessionId::new_v4(), inner }
    }

    /// Configure [SparkSession] with an already connected client: a fresh version 4
    /// session identifier over that client.
    pub fn with_client(client: H) -> (session: SparkSession<H>)
        ensures
            is_v4(session.session_id.0),
            session.inner == client,
    {
        Self::new(client)
    }

    /// The request that sends the SQL query `query` to the Spark Connect server,
    /// in this session. Its responses go to [SparkSession::sql_step].
    pub fn sql(&self, query: &str) -> (request: ExecutePlanRequest)
        ensures
            request.is_sql_command(uuid_text(self.session_id.0), query@),
    {
        ExecutePlanRequest::sql_command(self.session_id.to_text(), query)
    }
}

impl<H: Clone> SparkSession<H> {
    /// Read a local file into a [DataFrame]: a frame of this session whose relation
    /// reads the data source at `file`, which the server resolves.
    pub fn read(&mut self, file: &str) -> (frame: Result<DataFrame<H>, Error>)
        ensures
            *final(self) == *old(self),
            frame matches Ok(f) && file_frame(*old(self), file@, f),
    {
        let mut frame = DataFrame::new(self.session_id, self.inner.clone());
        frame.relation = Some(Relation::ReadFile(file.to_owned()));
        Ok(frame)
    }

    /// Handles the next response to a SQL command (`None` when the stream ended).
    /// A command result finishes the query with a frame of this session that holds
    /// the result's relation; the end of the stream fails it with an unknown error;
    /// a response with no type is read past.
    pub fn sql_step(&self, message: Option<ResponseKind>) -> (action: SessionAction<H>)
        requires
            sql_accepts(message),
        ensures
            sql_outcome(*self, message, action),
    {
        match message {
            None => SessionAction::Finish(Err(Error::Unknown)),
            Some(ResponseKind::SqlCommandResult(Some(relation))) => SessionAction::Finish(
                Ok(DataFrame {
                    session_id: self.session_id,
                    inner: self.inner.clone(),
                    relation: Some(relation),
                    data: None,
                }),
            ),
            _ => SessionAction::Read,
        }
    }

    /// [SparkSession::sql_step] on any response: `None` exactly on the responses that
    /// a session does not handle.
    pub fn checked_sql_step(&self, message: Option<ResponseKind>) -> (action: Option<SessionAction<H>>)
        ensures
            action is None <==> !sql_accepts(message),
            action matches Some(a) ==> sql_outcome(*self, message, a),
    {
        let accepted = match &message {
            Some(ResponseKind::SqlCommandResult(None)) => false,
            Some(ResponseKind::ArrowBatch(_)) => false,
            Some(ResponseKind::Other) => false,
            _ => true,
        };
        if accepted {
            Some(self.sql_step(message))
        } else {
            None
        }
    }
}

impl<H> DataFrame<H> {
    /// Create a new DataFrame with some defaults: no data and no relation.
    pub fn new(session_id: SessionId, inner: H) -> (frame: DataFrame<H>)
        ensures
            frame.session_id == session_id,
            frame.inner == inner,
            frame.data is None,
            frame.relation is None,
    {
        DataFrame { session_id, inner, data: None, relation: None }
    }

    /// Show the frame: for a frame with a relation, the request that asks the server
    /// for a string representation of at most `num_rows` rows of it, vertically, with
    /// cells cut to `truncate` characters, and the run that hands that representation
    /// out, record batch by record batch; for a frame without one, nothing is sent
    /// (`None`) and showing is done.
    pub fn show(&self, num_rows: i32, truncate: i32) -> (start: Option<(ShowRun, ExecutePlanRequest)>)
        ensures
            show_start(*self, num_rows, truncate, start),
    {
        match &self.relation {
            Some(relation) => Some((
                ShowRun { batches: None },
                ExecutePlanRequest::show_string(self.session_id.to_text(), relation.duplicate(), num_rows, truncate, true),
            )),
            None => None,
        }
    }
}

/// What the caller does next while showing a frame.
#[derive(Debug)]
pub enum ShowAction {
    /// Read the next response, and hand it to [ShowRun::on_response].
    Read,
    /// Hand the caller this rendering of a record batch of the server's string
    /// representation to print (`None`: the batch could not be rendered, nothing is
    /// printed), then ask [ShowRun::next_batch] for the next one.
    Print(Option<String>),
    /// Showing is over: `Ok` hands the frame back, `Err` fails with the error.
    Finish(Result<(), Error>),
}

/// The decisions of [DataFrame::show]: every record batch of every Arrow batch
/// response is handed out to be printed, in order; an Arrow error ends the showing.
pub struct ShowRun {
    batches: Option<IpcBatches>,
}

/// The Arrow batch in `message`, if any, is not one on which the Arrow reader
/// panics when it reads the first item.
pub open spec fn show_decodes(message: Option<ResponseKind>) -> bool {
    match message {
        Some(ResponseKind::ArrowBatch(data)) => ipc_stream_opens(data@) ==> !(ipc_item(
            IpcPosition { data: data@, index: 0 },
        ) is Aborts),
        _ => true,
    }
}

/// After the item at `at` was read: a record batch's rendering is handed out to be printed and
/// the run goes on at the next item; an Arrow error ends the showing with that error;
/// the end of the Arrow batch goes back to reading responses.
pub open spec fn item_outcome(at: IpcPosition, run: ShowRun, action: ShowAction) -> bool {
    match ipc_item(at) {
        IpcItem::Batch(rendering) => {
            &&& action matches ShowAction::Print(text) && text_of(text) == rendering
            &&& run.position() == Some(IpcPosition { data: at.data, index: at.index + 1 })
        },
        IpcItem::Error => action matches ShowAction::Finish(Err(e)) && e is ArrowError,
        _ => action is Read && run.position() is None,
    }
}

impl ShowRun {
    /// Where the run is in the record batches of an Arrow batch, if it is decoding one.
    pub closed spec fn position(self) -> Option<IpcPosition> {
        match self.batches {
            Some(b) => Some(b@),
            None => None,
        }
    }

    /// Whether the run is in the middle of the record batches of an Arrow batch.
    pub open spec fn decoding(self) -> bool {
        self.position() is Some
    }

    /// Handles the next response (`None` when the stream ended): the end finishes
    /// showing; an Arrow batch is decoded from its first item on, an Arrow error if it
    /// is no Arrow IPC stream; anything else is read past.
    pub fn on_response(&mut self, message: Option<ResponseKind>) -> (action: ShowAction)
        requires
            !old(self).decoding(),
            show_decodes(message),
        ensures
            match message {
                None => action matches ShowAction::Finish(Ok(())) && !final(self).decoding(),
                Some(ResponseKind::ArrowBatch(data)) => if ipc_stream_opens(data@) {
                    item_outcome(IpcPosition { data: data@, index: 0 }, *final(self), action)
                } else {
                    action matches ShowAction::Finish(Err(e)) && e is ArrowError
                },
                Some(_) => action is Read && !final(self).decoding(),
            },
    {
        match message {
            None => ShowAction::Finish(Ok(())),
            Some(ResponseKind::ArrowBatch(data)) => match IpcBatches::open(data) {
                Ok(batches) => {
                    self.batches = Some(batches);
                    self.next_batch()
                },
                Err(e) => ShowAction::Finish(Err(e)),
            },
            Some(_) => ShowAction::Read,
        }
    }

    /// Reads the next item of the Arrow batch being decoded.
    pub fn next_batch(&mut self) -> (action: ShowAction)
        requires
            old(self).decoding(),
            !(ipc_item(old(self).position()->0) is Aborts),
        ensures
            item_outcome(old(self).position()->0, *final(self), action),
    {
        let mut batches = self.batches.take().unwrap();
        match batches.next_batch() {
            Some(Ok(decoded)) => {
                self.batches = Some(batches);
                ShowAction::Print(decoded.text)
            },
            Some(Err(e)) => ShowAction::Finish(Err(e)),
            None => ShowAction::Read,
        }
    }
}

} // verus!
