//! The prepared-statement lifecycle: creation from a server response,
//! repeatable execution while open, and the terminal close transition
//! after which everything is an illegal-state error.

use arrow::datatypes::{DataType, Field, Schema};
use arrow::ipc::writer::{DictionaryTracker, IpcDataGenerator, IpcWriteOptions};
use arrow_flight_sql_client::errors::FlightError;
use arrow_flight_sql_client::ipc::ColumnType;
use arrow_flight_sql_client::prepared::PreparedStatement;
use arrow_flight_sql_client::tags::MessageType;
use arrow_flight::sql::ProstMessageExt;
use prost::Message;

/// A schema blob as it travels in flight info and prepared-statement
/// results: a four-byte continuation marker, a four-byte length, then
/// the IPC schema message.
fn schema_blob(schema: &Schema) -> Vec<u8> {
    let data_gen = IpcDataGenerator::default();
    let mut tracker = DictionaryTracker::new(false);
    let opts = IpcWriteOptions::default();
    let encoded = data_gen.schema_to_bytes_with_dictionary_tracker(schema, &mut tracker, &opts);
    let msg = encoded.ipc_message;
    let mut out = vec![0xff, 0xff, 0xff, 0xff];
    out.extend_from_slice(&(msg.len() as u32).to_le_bytes());
    out.extend_from_slice(&msg);
    out
}

/// The body of a successful create-prepared-statement action response,
/// as a server would encode it.
fn action_result_body(handle: &[u8]) -> Vec<u8> {
    let dataset = Schema::new(vec![Field::new("id", DataType::Int64, false)]);
    let params = Schema::new(vec![Field::new("p", DataType::Utf8, true)]);
    let result = arrow_flight::sql::ActionCreatePreparedStatementResult {
        prepared_statement_handle: handle.to_vec().into(),
        dataset_schema: schema_blob(&dataset).into(),
        parameter_schema: schema_blob(&params).into(),
    };
    arrow_flight::sql::Any::pack(&result).unwrap().encode_to_vec()
}

#[test]
fn prepare_decodes_handle_and_schemas() {
    let body = action_result_body(b"handle-1");
    let ps = PreparedStatement::from_action_result(Some(&body)).unwrap();
    assert_eq!(ps.handle, b"handle-1".to_vec());
    assert!(!ps.is_closed());
    assert_eq!(ps.dataset_schema().fields.len(), 1);
    assert_eq!(ps.dataset_schema().fields[0].name, "id");
    assert_eq!(ps.dataset_schema().fields[0].column_type, ColumnType::Int64);
    assert_eq!(ps.parameter_schema().fields.len(), 1);
    assert_eq!(ps.parameter_schema().fields[0].name, "p");
    assert_eq!(ps.parameter_schema().fields[0].column_type, ColumnType::Utf8);
}

#[test]
fn prepare_with_no_response_is_malformed() {
    match PreparedStatement::from_action_result(None) {
        Err(FlightError::Malformed(_)) => {},
        _ => panic!("a missing action response must be a malformed-response error"),
    }
}

#[test]
fn prepare_with_garbage_body_is_a_decode_error() {
    let body = vec![0xff, 0x00, 0x13];
    match PreparedStatement::from_action_result(Some(&body)) {
        Err(FlightError::Decode(_)) => {},
        _ => panic!("an unparseable action response must be a decode error"),
    }
}

#[test]
fn execute_while_open_is_repeatable() {
    let body = action_result_body(b"h");
    let ps = PreparedStatement::from_action_result(Some(&body)).unwrap();
    for _ in 0..3 {
        let d = ps.execute_request().unwrap();
        let any = arrow_flight::sql::Any::decode(d.cmd.as_slice()).unwrap();
        let m: arrow_flight::sql::CommandPreparedStatementQuery = any.unpack().unwrap().unwrap();
        assert_eq!(m.prepared_statement_handle.as_ref(), b"h");
    }
    for _ in 0..3 {
        let d = ps.execute_update_request().unwrap();
        let any = arrow_flight::sql::Any::decode(d.cmd.as_slice()).unwrap();
        let m: arrow_flight::sql::CommandPreparedStatementUpdate = any.unpack().unwrap().unwrap();
        assert_eq!(m.prepared_statement_handle.as_ref(), b"h");
    }
}

#[test]
fn execute_response_reports_the_unfinished_path() {
    let body = action_result_body(b"h");
    let ps = PreparedStatement::from_action_result(Some(&body)).unwrap();
    // A perfectly well-formed response envelope still yields the
    // deliberate unsupported-feature error, not a result set.
    let metadata = arrow_flight::sql::Any::pack(&arrow_flight::sql::DoPutUpdateResult {
        record_count: 0,
    })
    .unwrap()
    .encode_to_vec();
    match ps.execute_response(Some(&metadata)) {
        Err(FlightError::Unsupported(_)) => {},
        _ => panic!("prepared query results are a deliberately unfinished path"),
    }
}

#[test]
fn execute_update_response_yields_the_row_count() {
    let body = action_result_body(b"h");
    let ps = PreparedStatement::from_action_result(Some(&body)).unwrap();
    let metadata = arrow_flight::sql::Any::pack(&arrow_flight::sql::DoPutUpdateResult {
        record_count: 7,
    })
    .unwrap()
    .encode_to_vec();
    assert_eq!(ps.execute_update_response(Some(&metadata)).unwrap(), 7);
}

#[test]
fn close_then_reuse_is_illegal_state() {
    let body = action_result_body(b"h");
    let mut ps = PreparedStatement::from_action_result(Some(&body)).unwrap();

    // prepare("SELECT 1") followed immediately by close() succeeds...
    let action = ps.close_request().unwrap();
    assert_eq!(action.action_type, "ClosePreparedStatement");
    let any = arrow_flight::sql::Any::decode(action.body.as_slice()).unwrap();
    let m: arrow_flight::sql::ActionClosePreparedStatementRequest = any.unpack().unwrap().unwrap();
    assert_eq!(m.prepared_statement_handle.as_ref(), b"h");
    ps.mark_closed();
    assert!(ps.is_closed());

    // ...and leaves the handle unusable for anything further.
    assert!(matches!(ps.execute_request(), Err(FlightError::IllegalState)));
    assert!(matches!(ps.execute_update_request(), Err(FlightError::IllegalState)));
    assert!(matches!(ps.close_request(), Err(FlightError::IllegalState)));
}

#[test]
fn set_parameters_holds_the_binding() {
    let body = action_result_body(b"h");
    let mut ps = PreparedStatement::from_action_result(Some(&body)).unwrap();
    assert!(ps.parameter_binding.is_none());
    let batch = arrow_flight_sql_client::ipc::RecordBatchData { n_rows: 0, columns: Vec::new() };
    ps.set_parameters(batch.clone());
    assert_eq!(ps.parameter_binding, Some(batch));
    assert!(!ps.is_closed());
}

#[test]
fn wrong_action_result_type_is_malformed() {
    let wrong = arrow_flight::sql::DoPutUpdateResult { record_count: 0 };
    let body = arrow_flight::sql::Any::pack(&wrong).unwrap().encode_to_vec();
    match PreparedStatement::from_action_result(Some(&body)) {
        Err(FlightError::Malformed(_)) => {},
        _ => panic!("an action result of another type must be a malformed-response error"),
    }
}

#[test]
fn library_tag_matches_prost_for_prepared_results() {
    let tag = MessageType::CreatePreparedStatementResult.tag_bytes();
    assert_eq!(
        String::from_utf8(tag).unwrap(),
        arrow_flight::sql::ActionCreatePreparedStatementResult::type_url()
    );
}
