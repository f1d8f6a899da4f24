use spark_connect::{
    Error, ExecutePlanRequest, Plan, QueryAction, QueryStage, Relation, ResponseKind, SessionId,
    SparkConnect, SparkConnectBuilder, SqlQuery,
};
use std::sync::Arc;

use arrow::array::Int32Array;
use arrow::datatypes::{DataType, Field, Schema};
use arrow::record_batch::RecordBatch;
use arrow_ipc::writer::StreamWriter;

fn ipc_stream(batches: &[Vec<i32>]) -> Vec<u8> {
    let schema = Arc::new(Schema::new(vec![Field::new("n", DataType::Int32, false)]));
    let mut bytes = Vec::new();
    {
        let mut writer = StreamWriter::try_new(&mut bytes, &schema).unwrap();
        for values in batches {
            let batch = RecordBatch::try_new(
                schema.clone(),
                vec![Arc::new(Int32Array::from(values.clone()))],
            )
            .unwrap();
            writer.write(&batch).unwrap();
        }
        writer.finish().unwrap();
    }
    bytes
}

fn relation(bytes: &[u8]) -> Relation {
    Relation::Encoded(bytes.to_vec())
}

fn new_query(stage: QueryStage) -> SqlQuery {
    SqlQuery { stage, session: "67e55044-10b1-426f-9247-bb680e5fe0c8".to_string() }
}

#[test]
fn test_build_sparkconnect() {
    let host = "http://example.com";
    let spark = SparkConnect::with(host).build().expect("Failed to build");
    assert_eq!(spark.host, host);
}

#[test]
fn built_client_has_fresh_v4_session_and_no_channel() {
    let spark = SparkConnect::with("http://[::1]:15002").build().unwrap();
    let text = spark.session_id.to_text();
    assert_eq!(text.len(), 36);
    assert_eq!(text.chars().nth(14), Some('4'));
    assert!(matches!(text.chars().nth(19), Some('8' | '9' | 'a' | 'b')));
    assert!(spark.channel().is_none());
    let other = SparkConnect::with("http://[::1]:15002").build().unwrap();
    assert_ne!(spark.session_id, other.session_id);
}

#[test]
fn default_builder_does_not_build() {
    let result = SparkConnectBuilder::default().build();
    assert!(matches!(result, Err(Error::Unknown)));
}

#[test]
fn default_client_is_empty() {
    let spark = SparkConnect::default();
    assert_eq!(spark.host, "");
    assert_eq!(spark.session_id, SessionId(0));
    assert!(spark.channel().is_none());
}

#[test]
fn target_parses_the_host() {
    let spark = SparkConnect::with("http://[::1]:15002").build().unwrap();
    let target = spark.target().unwrap();
    assert_eq!(target.uri.host(), Some("[::1]"));
    assert_eq!(target.uri.port_u16(), Some(15002));
    assert_eq!(target.text, "http://[::1]:15002/");
}

#[test]
fn target_of_an_empty_host_is_an_http_error() {
    let spark = SparkConnect::with("").build().unwrap();
    assert!(matches!(spark.target(), Err(Error::HttpError(_))));
}

#[test]
fn target_of_a_host_with_spaces_is_an_http_error() {
    let spark = SparkConnect::with("http://exa mple.com").build().unwrap();
    assert!(matches!(spark.target(), Err(Error::HttpError(_))));
}

fn connected_client(id: u128, runtime: &tokio::runtime::Runtime) -> SparkConnect {
    let _guard = runtime.enter();
    let mut spark = SparkConnect::with("http://[::1]:15002").build().unwrap();
    spark.session_id = SessionId(id);
    let channel = tonic::transport::Channel::from_static("http://[::1]:15002").connect_lazy();
    spark.connected(channel)
}

fn runtime() -> tokio::runtime::Runtime {
    tokio::runtime::Builder::new_current_thread().enable_all().build().unwrap()
}

#[test]
fn connected_keeps_host_and_session() {
    let rt = runtime();
    let spark = connected_client(7, &rt);
    assert_eq!(spark.host, "http://[::1]:15002");
    assert_eq!(spark.session_id, SessionId(7));
    assert!(spark.channel().is_some());
}

#[test]
fn sql_sends_the_query_in_the_client_session() {
    let rt = runtime();
    let spark = connected_client(0x67e55044_10b1_426f_9247_bb680e5fe0c8, &rt);
    let (query, request) = spark.sql("SELECT current_date()");
    assert_eq!(query.stage, QueryStage::Command);
    assert_eq!(query.session, "67e55044-10b1-426f-9247-bb680e5fe0c8");
    assert_eq!(request.session_id, "67e55044-10b1-426f-9247-bb680e5fe0c8");
    assert!(matches!(request.plan, Plan::SqlCommand { ref sql } if sql == "SELECT current_date()"));
}

#[test]
fn query_fails_when_the_command_stream_ends() {
    let mut query = new_query(QueryStage::Command);
    let action = query.step(None);
    assert!(matches!(action, QueryAction::Finish(Err(Error::Unknown))));
}

#[test]
fn query_reads_past_untyped_responses() {
    let mut query = new_query(QueryStage::Command);
    assert!(matches!(query.step(Some(ResponseKind::Unset)), QueryAction::Read));
    assert_eq!(query.stage, QueryStage::Command);
    let mut query = new_query(QueryStage::Show);
    assert!(matches!(query.step(Some(ResponseKind::Unset)), QueryAction::Read));
    assert!(matches!(query.step(Some(ResponseKind::Other)), QueryAction::Read));
    assert!(matches!(
        query.step(Some(ResponseKind::SqlCommandResult(None))),
        QueryAction::Read
    ));
    assert!(matches!(query.step(Some(ResponseKind::ArrowBatch(ipc_stream(&[])))), QueryAction::Read));
    assert_eq!(query.stage, QueryStage::Show);
}

#[test]
fn query_shows_the_command_result() {
    let mut query = new_query(QueryStage::Command);
    let action = query.step(Some(ResponseKind::SqlCommandResult(Some(relation(&[1, 2, 3])))));
    assert_eq!(query.stage, QueryStage::Show);
    match action {
        QueryAction::Send(ExecutePlanRequest { session_id, plan }) => {
            assert_eq!(session_id, "67e55044-10b1-426f-9247-bb680e5fe0c8");
            match plan {
                Plan::ShowString { input, num_rows, truncate, vertical } => {
                    assert!(matches!(input, Relation::Encoded(ref bytes) if *bytes == vec![1, 2, 3]));
                    assert_eq!(num_rows, 10);
                    assert_eq!(truncate, 0);
                    assert!(vertical);
                }
                other => panic!("unexpected plan {other:?}"),
            }
        }
        other => panic!("unexpected action {other:?}"),
    }
}

#[test]
fn query_returns_the_first_record_batch() {
    let mut query = new_query(QueryStage::Show);
    let action = query.step(Some(ResponseKind::ArrowBatch(ipc_stream(&[vec![4, 5], vec![6]]))));
    match action {
        QueryAction::Finish(Ok(batch)) => {
            assert_eq!(batch.record_batch.num_rows(), 2);
        }
        other => panic!("unexpected action {other:?}"),
    }
}

fn broken_ipc_stream() -> Vec<u8> {
    let mut bytes = ipc_stream(&[vec![1, 2, 3]]);
    bytes.truncate(bytes.len() - 20);
    bytes
}

#[test]
fn query_finishes_with_the_first_item_error() {
    let mut query = new_query(QueryStage::Show);
    let action = query.step(Some(ResponseKind::ArrowBatch(broken_ipc_stream())));
    assert!(matches!(action, QueryAction::Finish(Err(Error::ArrowError(_)))));
}

#[test]
fn query_reads_on_after_an_arrow_batch_without_record_batches() {
    let mut query = new_query(QueryStage::Show);
    let action = query.step(Some(ResponseKind::ArrowBatch(ipc_stream(&[]))));
    assert!(matches!(action, QueryAction::Read));
    assert_eq!(query.stage, QueryStage::Show);
}

#[test]
fn query_goes_back_to_the_command_stream_when_the_show_stream_ends() {
    let mut query = new_query(QueryStage::Show);
    assert!(matches!(query.step(None), QueryAction::Read));
    assert_eq!(query.stage, QueryStage::Command);
}

#[test]
fn checked_step_refuses_what_the_query_cannot_handle() {
    let mut query = new_query(QueryStage::Command);
    assert!(query.checked_step(Some(ResponseKind::Other)).is_none());
    assert!(query.checked_step(Some(ResponseKind::SqlCommandResult(None))).is_none());
    assert!(query.checked_step(Some(ResponseKind::ArrowBatch(ipc_stream(&[vec![1]])))).is_none());
    assert_eq!(query.stage, QueryStage::Command);
    let mut query = new_query(QueryStage::Show);
    assert!(query.checked_step(Some(ResponseKind::ArrowBatch(vec![]))).is_none());
    assert!(query.checked_step(Some(ResponseKind::ArrowBatch(vec![1, 2, 3, 4, 5]))).is_none());
    assert_eq!(query.stage, QueryStage::Show);
    assert!(matches!(
        query.checked_step(Some(ResponseKind::ArrowBatch(ipc_stream(&[vec![1]])))),
        Some(QueryAction::Finish(Ok(_)))
    ));
}
