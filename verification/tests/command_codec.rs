//! Round trips of the command codec: every command variant survives
//! pack / encode / decode / unpack, a mismatched type is "no match", and
//! a malformed body under a matching tag is a hard error.  The wire
//! bytes are also cross-checked against an independent protobuf
//! implementation of the same messages.

use arrow_flight_sql_client::envelope::Envelope;
use arrow_flight_sql_client::messages::Command;
use arrow_flight_sql_client::tags::MessageType;
use arrow_flight::sql::ProstMessageExt;
use prost::Message;

fn round_trip(cmd: Command, t: MessageType) {
    let env = Envelope::pack(&cmd);
    let bytes = env.encode();
    let back = Envelope::decode(bytes.as_slice()).expect("envelope must decode");
    let got = back
        .unpack_command(t)
        .expect("a matching tag must not error")
        .expect("the tag must match");
    assert_eq!(got, cmd);
}

#[test]
fn round_trip_statement_query() {
    round_trip(
        Command::StatementQuery { query: b"SELECT * FROM t".to_vec() },
        MessageType::StatementQuery,
    );
}

#[test]
fn round_trip_statement_query_empty() {
    round_trip(Command::StatementQuery { query: Vec::new() }, MessageType::StatementQuery);
}

#[test]
fn round_trip_statement_update() {
    round_trip(
        Command::StatementUpdate { query: b"DELETE FROM t".to_vec() },
        MessageType::StatementUpdate,
    );
}

#[test]
fn round_trip_get_catalogs() {
    round_trip(Command::GetCatalogs, MessageType::GetCatalogs);
}

#[test]
fn round_trip_get_table_types() {
    round_trip(Command::GetTableTypes, MessageType::GetTableTypes);
}

#[test]
fn round_trip_get_db_schemas() {
    round_trip(
        Command::GetDbSchemas {
            catalog: Some(b"main".to_vec()),
            db_schema_filter_pattern: Some(b"pub%".to_vec()),
        },
        MessageType::GetDbSchemas,
    );
    round_trip(
        Command::GetDbSchemas { catalog: None, db_schema_filter_pattern: None },
        MessageType::GetDbSchemas,
    );
    round_trip(
        Command::GetDbSchemas { catalog: Some(Vec::new()), db_schema_filter_pattern: None },
        MessageType::GetDbSchemas,
    );
}

#[test]
fn round_trip_get_tables() {
    round_trip(
        Command::GetTables {
            catalog: Some(b"main".to_vec()),
            db_schema_filter_pattern: None,
            table_name_filter_pattern: Some(b"t%".to_vec()),
            table_types: vec![b"TABLE".to_vec(), b"VIEW".to_vec()],
            include_schema: true,
        },
        MessageType::GetTables,
    );
    round_trip(
        Command::GetTables {
            catalog: None,
            db_schema_filter_pattern: None,
            table_name_filter_pattern: None,
            table_types: Vec::new(),
            include_schema: false,
        },
        MessageType::GetTables,
    );
}

#[test]
fn round_trip_get_primary_keys() {
    round_trip(
        Command::GetPrimaryKeys {
            catalog: None,
            db_schema: Some(b"s".to_vec()),
            table: b"orders".to_vec(),
        },
        MessageType::GetPrimaryKeys,
    );
}

#[test]
fn round_trip_get_exported_keys() {
    round_trip(
        Command::GetExportedKeys { catalog: None, db_schema: None, table: b"t".to_vec() },
        MessageType::GetExportedKeys,
    );
}

#[test]
fn round_trip_get_imported_keys() {
    round_trip(
        Command::GetImportedKeys {
            catalog: Some(b"c".to_vec()),
            db_schema: None,
            table: b"t".to_vec(),
        },
        MessageType::GetImportedKeys,
    );
}

#[test]
fn round_trip_get_cross_reference() {
    round_trip(
        Command::GetCrossReference {
            pk_catalog: Some(b"c1".to_vec()),
            pk_db_schema: None,
            pk_table: b"parent".to_vec(),
            fk_catalog: None,
            fk_db_schema: Some(b"s2".to_vec()),
            fk_table: b"child".to_vec(),
        },
        MessageType::GetCrossReference,
    );
}

#[test]
fn round_trip_get_sql_info() {
    round_trip(Command::GetSqlInfo { info: vec![0, 1, 2, 1000, u32::MAX] }, MessageType::GetSqlInfo);
    round_trip(Command::GetSqlInfo { info: Vec::new() }, MessageType::GetSqlInfo);
}

#[test]
fn round_trip_prepared_statement_query() {
    round_trip(
        Command::PreparedStatementQuery { prepared_statement_handle: vec![0, 1, 254, 255] },
        MessageType::PreparedStatementQuery,
    );
}

#[test]
fn round_trip_prepared_statement_update() {
    round_trip(
        Command::PreparedStatementUpdate { prepared_statement_handle: b"h".to_vec() },
        MessageType::PreparedStatementUpdate,
    );
}

#[test]
fn round_trip_create_prepared_statement() {
    round_trip(
        Command::CreatePreparedStatement { query: b"SELECT 1".to_vec() },
        MessageType::CreatePreparedStatementRequest,
    );
}

#[test]
fn round_trip_close_prepared_statement() {
    round_trip(
        Command::ClosePreparedStatement { prepared_statement_handle: vec![9, 9, 9] },
        MessageType::ClosePreparedStatementRequest,
    );
}

#[test]
fn mismatched_type_is_no_match_not_error() {
    let cmd = Command::StatementQuery { query: b"SELECT 1".to_vec() };
    let env = Envelope::pack(&cmd);
    let bytes = env.encode();
    let back = Envelope::decode(bytes.as_slice()).unwrap();
    assert_eq!(back.unpack_command(MessageType::GetCatalogs).unwrap(), None);
    assert_eq!(back.unpack_command(MessageType::StatementUpdate).unwrap(), None);
    assert_eq!(back.unpack_update_result().unwrap(), None);
    assert_eq!(back.unpack_prepared_result().unwrap(), None);
}

#[test]
fn malformed_body_under_matching_tag_is_an_error() {
    let tag = MessageType::StatementQuery.tag_bytes();
    // A lone field key with no value following it cannot parse.
    let env = Envelope { type_url: tag, value: vec![0x0a] };
    assert!(env.unpack_command(MessageType::StatementQuery).is_err());
}

#[test]
fn unknown_field_numbers_are_skipped() {
    // GetCatalogs defines no fields at all, so every field number in its
    // body is unknown and is stepped over, whatever its wire shape:
    // a byte string, a fixed 32-bit value, and a fixed 64-bit value.
    let value = vec![
        0x0a, 0x01, 0x78, // field 1, length-delimited
        0x15, 0x01, 0x02, 0x03, 0x04, // field 2, fixed 32-bit
        0x19, 0x01, 0x02, 0x03, 0x04, 0x05, 0x06, 0x07, 0x08, // field 3, fixed 64-bit
    ];
    let env = Envelope { type_url: MessageType::GetCatalogs.tag_bytes(), value };
    let got = env.unpack_command(MessageType::GetCatalogs).unwrap().unwrap();
    assert_eq!(got, Command::GetCatalogs);
}

#[test]
fn newer_server_fields_are_skipped() {
    // A peer built against a newer revision of the protocol may add
    // fields; here the statement query carries a transaction id this
    // client does not model, and decoding keeps the query and steps
    // over the rest.
    let theirs = arrow_flight::sql::CommandStatementQuery {
        query: "SELECT 1".to_string(),
        transaction_id: Some(b"tx-1".to_vec().into()),
    };
    let bytes = arrow_flight::sql::Any::pack(&theirs).unwrap().encode_to_vec();
    let env = Envelope::decode(bytes.as_slice()).unwrap();
    let got = env.unpack_command(MessageType::StatementQuery).unwrap().unwrap();
    assert_eq!(got, Command::StatementQuery { query: b"SELECT 1".to_vec() });
}

#[test]
fn wrong_wire_shape_on_known_field_is_an_error() {
    // Field 1 of a statement query is a string; sending it as a varint
    // is a malformed message, not something to skip.
    let env = Envelope {
        type_url: MessageType::StatementQuery.tag_bytes(),
        value: vec![0x08, 0x01],
    };
    assert!(env.unpack_command(MessageType::StatementQuery).is_err());
}

#[test]
fn group_wire_types_are_an_error() {
    // The legacy group wire types never appear in this protocol's
    // messages; a field claiming one does not parse.
    let env = Envelope {
        type_url: MessageType::GetCatalogs.tag_bytes(),
        value: vec![0x0b],
    };
    assert!(env.unpack_command(MessageType::GetCatalogs).is_err());
}

#[test]
fn wire_bytes_match_prost_get_tables() {
    let theirs = arrow_flight::sql::CommandGetTables {
        catalog: Some("main".to_string()),
        db_schema_filter_pattern: None,
        table_name_filter_pattern: Some("t%".to_string()),
        table_types: vec!["TABLE".to_string(), "VIEW".to_string()],
        include_schema: true,
    };
    let any = arrow_flight::sql::Any::pack(&theirs).unwrap();
    let bytes = any.encode_to_vec();
    let env = Envelope::decode(bytes.as_slice()).expect("prost-encoded envelope must decode");
    let got = env.unpack_command(MessageType::GetTables).unwrap().unwrap();
    assert_eq!(
        got,
        Command::GetTables {
            catalog: Some(b"main".to_vec()),
            db_schema_filter_pattern: None,
            table_name_filter_pattern: Some(b"t%".to_vec()),
            table_types: vec![b"TABLE".to_vec(), b"VIEW".to_vec()],
            include_schema: true,
        }
    );
}

#[test]
fn wire_bytes_match_prost_cross_reference() {
    let ours = Command::GetCrossReference {
        pk_catalog: Some(b"c1".to_vec()),
        pk_db_schema: None,
        pk_table: b"parent".to_vec(),
        fk_catalog: None,
        fk_db_schema: Some(b"s2".to_vec()),
        fk_table: b"child".to_vec(),
    };
    let bytes = Envelope::pack(&ours).encode();
    let any = arrow_flight::sql::Any::decode(bytes.as_slice()).unwrap();
    assert_eq!(any.type_url, arrow_flight::sql::CommandGetCrossReference::type_url());
    let theirs: arrow_flight::sql::CommandGetCrossReference = any.unpack().unwrap().unwrap();
    assert_eq!(theirs.pk_catalog.as_deref(), Some("c1"));
    assert_eq!(theirs.pk_db_schema, None);
    assert_eq!(theirs.pk_table, "parent");
    assert_eq!(theirs.fk_catalog, None);
    assert_eq!(theirs.fk_db_schema.as_deref(), Some("s2"));
    assert_eq!(theirs.fk_table, "child");
}

#[test]
fn wire_bytes_match_prost_sql_info() {
    let ours = Command::GetSqlInfo { info: vec![0, 3, 1000] };
    let bytes = Envelope::pack(&ours).encode();
    let any = arrow_flight::sql::Any::decode(bytes.as_slice()).unwrap();
    let theirs: arrow_flight::sql::CommandGetSqlInfo = any.unpack().unwrap().unwrap();
    assert_eq!(theirs.info, vec![0, 3, 1000]);

    let again = any.encode_to_vec();
    let env = Envelope::decode(again.as_slice()).unwrap();
    assert_eq!(env.unpack_command(MessageType::GetSqlInfo).unwrap().unwrap(), ours);
}

#[test]
fn wire_bytes_match_prost_statement_query() {
    let ours = Command::StatementQuery { query: b"SELECT 1".to_vec() };
    let bytes = Envelope::pack(&ours).encode();
    let any = arrow_flight::sql::Any::decode(bytes.as_slice()).unwrap();
    let theirs: arrow_flight::sql::CommandStatementQuery = any.unpack().unwrap().unwrap();
    assert_eq!(theirs.query, "SELECT 1");
    assert_eq!(theirs.transaction_id, None);
}

#[test]
fn encoder_bytes_are_identical_to_prost() {
    let ours = Command::GetTables {
        catalog: Some(b"main".to_vec()),
        db_schema_filter_pattern: None,
        table_name_filter_pattern: Some(b"t%".to_vec()),
        table_types: vec![b"TABLE".to_vec(), b"VIEW".to_vec()],
        include_schema: true,
    };
    let our_bytes = Envelope::pack(&ours).encode();
    let theirs = arrow_flight::sql::CommandGetTables {
        catalog: Some("main".to_string()),
        db_schema_filter_pattern: None,
        table_name_filter_pattern: Some("t%".to_string()),
        table_types: vec!["TABLE".to_string(), "VIEW".to_string()],
        include_schema: true,
    };
    let their_bytes = arrow_flight::sql::Any::pack(&theirs).unwrap().encode_to_vec();
    assert_eq!(our_bytes, their_bytes);

    let ours = Command::GetSqlInfo { info: vec![0, 3, 1000] };
    let our_bytes = Envelope::pack(&ours).encode();
    let theirs = arrow_flight::sql::CommandGetSqlInfo { info: vec![0, 3, 1000] };
    let their_bytes = arrow_flight::sql::Any::pack(&theirs).unwrap().encode_to_vec();
    assert_eq!(our_bytes, their_bytes);
}
