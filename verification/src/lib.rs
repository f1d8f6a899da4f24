//! A client library for Spark Connect servers.
//!
//! The library holds what a Spark Connect client decides: which requests it
//! sends for a session, and what it does with each response of a response
//! stream. Sending requests and reading responses over gRPC is done by the
//! caller, which hands every response back to the library as a plain value.
mod arrow_stream;
mod client;
mod error;
mod laws;
mod plan;
mod session;
mod session_id;

pub use crate::arrow_stream::{ipc_item, ipc_stream_opens, text_of, Batch, Decoded, IpcBatches, IpcItem, IpcPosition};
pub use crate::client::{build_outcome, query_step, target_outcome, parsed_uri, stream_start, QueryAction, QueryStage, SparkConnect, SparkConnectBuilder, SqlQuery, Target};
pub use crate::error::Error;
pub use crate::laws::{no_host_does_not_build, query_handles_command_results, query_requests_name_the_session, session_handles_command_results, target_dials_the_host, session_text_determines_session, session_text_shape, sql_then_show, v4_session_text, with_then_build};
pub use crate::plan::{ExecutePlanRequest, Plan, Relation, RelationView, ResponseKind};
pub use crate::session::{file_frame, item_outcome, show_decodes, show_start, sql_outcome, sql_accepts, DataFrame, SessionAction, ShowAction, ShowRun, SparkSession};
pub use crate::session_id::{digit_at, hex_digit, is_v4, nibble, uuid_text, SessionId};
