//! The session layer's request builders and response decoders, checked
//! against an independent protobuf implementation where one exists.

use arrow_flight_sql_client::errors::FlightError;
use arrow_flight_sql_client::flight::DescriptorType;
use arrow_flight_sql_client::session::{
    execute_request, execute_update_request, execute_update_response, get_catalogs_request,
    get_sql_info_request, get_table_types_request, prepare_request,
};
use prost::Message;

#[test]
fn execute_request_builds_a_statement_query_descriptor() {
    let d = execute_request(b"SELECT 1".to_vec());
    assert_eq!(d.descriptor_type, DescriptorType::Cmd);
    assert!(d.path.is_empty());
    let any = arrow_flight::sql::Any::decode(d.cmd.as_slice()).unwrap();
    let m: arrow_flight::sql::CommandStatementQuery = any.unpack().unwrap().unwrap();
    assert_eq!(m.query, "SELECT 1");
}

#[test]
fn execute_update_request_builds_a_statement_update_descriptor() {
    let d = execute_update_request(b"DELETE FROM t".to_vec());
    assert_eq!(d.descriptor_type, DescriptorType::Cmd);
    let any = arrow_flight::sql::Any::decode(d.cmd.as_slice()).unwrap();
    let m: arrow_flight::sql::CommandStatementUpdate = any.unpack().unwrap().unwrap();
    assert_eq!(m.query, "DELETE FROM t");
}

#[test]
fn catalog_and_table_type_requests_have_empty_bodies() {
    let d = get_catalogs_request();
    let any = arrow_flight::sql::Any::decode(d.cmd.as_slice()).unwrap();
    let m: Option<arrow_flight::sql::CommandGetCatalogs> = any.unpack().unwrap();
    assert!(m.is_some());

    let d = get_table_types_request();
    let any = arrow_flight::sql::Any::decode(d.cmd.as_slice()).unwrap();
    let m: Option<arrow_flight::sql::CommandGetTableTypes> = any.unpack().unwrap();
    assert!(m.is_some());
}

#[test]
fn sql_info_request_carries_the_codes() {
    let d = get_sql_info_request(vec![0, 1, 572]);
    let any = arrow_flight::sql::Any::decode(d.cmd.as_slice()).unwrap();
    let m: arrow_flight::sql::CommandGetSqlInfo = any.unpack().unwrap().unwrap();
    assert_eq!(m.info, vec![0, 1, 572]);
}

#[test]
fn prepare_request_is_a_create_action() {
    let a = prepare_request(b"SELECT 1".to_vec());
    assert_eq!(a.action_type, "CreatePreparedStatement");
    let any = arrow_flight::sql::Any::decode(a.body.as_slice()).unwrap();
    let m: arrow_flight::sql::ActionCreatePreparedStatementRequest = any.unpack().unwrap().unwrap();
    assert_eq!(m.query, "SELECT 1");
}

#[test]
fn update_with_one_result_frame_yields_the_row_count() {
    let result = arrow_flight::sql::DoPutUpdateResult { record_count: 5 };
    let bytes = arrow_flight::sql::Any::pack(&result).unwrap().encode_to_vec();
    assert_eq!(execute_update_response(Some(&bytes)).unwrap(), 5);
}

#[test]
fn update_with_negative_row_count_round_trips() {
    let result = arrow_flight::sql::DoPutUpdateResult { record_count: -1 };
    let bytes = arrow_flight::sql::Any::pack(&result).unwrap().encode_to_vec();
    assert_eq!(execute_update_response(Some(&bytes)).unwrap(), -1);
}

#[test]
fn update_with_zero_frames_is_malformed() {
    match execute_update_response(None) {
        Err(FlightError::Malformed(_)) => {},
        _ => panic!("zero response frames must be a malformed-response error"),
    }
}

#[test]
fn update_with_wrong_result_type_is_malformed() {
    let wrong = arrow_flight::sql::CommandStatementQuery {
        query: "SELECT 1".to_string(),
        transaction_id: None,
    };
    let bytes = arrow_flight::sql::Any::pack(&wrong).unwrap().encode_to_vec();
    match execute_update_response(Some(&bytes)) {
        Err(FlightError::Malformed(_)) => {},
        _ => panic!("an envelope of another type must be a malformed-response error"),
    }
}

#[test]
fn update_with_garbage_metadata_is_a_decode_error() {
    let bytes = vec![0xff, 0xff, 0xff];
    match execute_update_response(Some(&bytes)) {
        Err(FlightError::Decode(_)) => {},
        _ => panic!("unparseable metadata must be a decode error"),
    }
}

#[test]
fn library_update_result_encoding_matches_prost() {
    let ours = arrow_flight_sql_client::messages::DoPutUpdateResult { record_count: 42 };
    let body = ours.encode_body();
    let theirs = arrow_flight::sql::DoPutUpdateResult::decode(body.as_slice()).unwrap();
    assert_eq!(theirs.record_count, 42);

    let negative = arrow_flight_sql_client::messages::DoPutUpdateResult { record_count: -1 };
    let body = negative.encode_body();
    let theirs = arrow_flight::sql::DoPutUpdateResult::decode(body.as_slice()).unwrap();
    assert_eq!(theirs.record_count, -1);
}

#[test]
fn update_result_encoding_has_expected_bytes() {
    // Field one as a varint: key 0x08, then 300 base-128 encoded.
    let ours = arrow_flight_sql_client::messages::DoPutUpdateResult { record_count: 300 };
    assert_eq!(ours.encode_body(), vec![0x08, 0xac, 0x02]);
    // A zero count is the protocol default and is omitted entirely.
    let zero = arrow_flight_sql_client::messages::DoPutUpdateResult { record_count: 0 };
    assert_eq!(zero.encode_body(), Vec::<u8>::new());
}
