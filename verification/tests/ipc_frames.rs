//! Decoding Flight data frames: record batches produced by the arrow
//! IPC writer come back with exactly their rows and values; schema
//! frames are recognized and suppressed by the stream consumer; and
//! dictionary batches, tensors and sparse tensors are refused with an
//! unsupported-feature error naming the kind.

use arrow::array::{ArrayRef, DictionaryArray, Int64Array, StringArray};
use arrow::datatypes::{DataType, Field, Int32Type, Schema};
use arrow::ipc::writer::{DictionaryTracker, IpcDataGenerator, IpcWriteOptions};
use arrow_flight_sql_client::errors::{FlightError, UnsupportedFeature};
use arrow_flight_sql_client::flight::{FlightData, FlightInfo};
use arrow_flight_sql_client::ipc::{
    arrow_data_from_flight_data, arrow_schema_from_flight_info, consume_frame, ArrowFlightData,
    Column, ColumnType, IpcMessage, SchemaDesc,
};
use std::sync::Arc;

fn schema_blob(schema: &Schema) -> Vec<u8> {
    let data_gen = IpcDataGenerator::default();
    let mut tracker = DictionaryTracker::new(false);
    let opts = IpcWriteOptions::default();
    let encoded = data_gen.schema_to_bytes_with_dictionary_tracker(schema, &mut tracker, &opts);
    let msg = encoded.ipc_message;
    let mut out = vec![0xff, 0xff, 0xff, 0xff];
    out.extend_from_slice(&(msg.len() as u32).to_le_bytes());
    out.extend_from_slice(&msg);
    out
}

#[allow(deprecated)]
fn encode_batch(batch: &arrow::record_batch::RecordBatch) -> Vec<(Vec<u8>, Vec<u8>)> {
    let data_gen = IpcDataGenerator::default();
    let mut tracker = DictionaryTracker::new(false);
    let opts = IpcWriteOptions::default();
    // Walking the schema first assigns the dictionary ids the encoder
    // hands out while encoding the batch.
    let _ = data_gen.schema_to_bytes_with_dictionary_tracker(
        batch.schema().as_ref(),
        &mut tracker,
        &opts,
    );
    let (dicts, data) = data_gen.encoded_batch(batch, &mut tracker, &opts).unwrap();
    let mut frames: Vec<(Vec<u8>, Vec<u8>)> = Vec::new();
    for d in dicts {
        frames.push((d.ipc_message, d.arrow_data));
    }
    frames.push((data.ipc_message, data.arrow_data));
    frames
}

fn frame(header: Vec<u8>, body: Vec<u8>) -> FlightData {
    FlightData {
        flight_descriptor: None,
        data_header: header,
        data_body: body,
        app_metadata: Vec::new(),
    }
}

fn two_row_schema() -> Schema {
    Schema::new(vec![
        Field::new("id", DataType::Int64, false),
        Field::new("name", DataType::Utf8, false),
    ])
}

fn decoded_schema(schema: &Schema) -> SchemaDesc {
    let fi = FlightInfo { schema: schema_blob(schema), endpoint: Vec::new() };
    arrow_schema_from_flight_info(&fi).unwrap()
}

#[test]
fn schema_from_flight_info_reads_names_and_types() {
    let sd = decoded_schema(&two_row_schema());
    assert_eq!(sd.fields.len(), 2);
    assert_eq!(sd.fields[0].name, "id");
    assert_eq!(sd.fields[0].column_type, ColumnType::Int64);
    assert_eq!(sd.fields[1].name, "name");
    assert_eq!(sd.fields[1].column_type, ColumnType::Utf8);
}

#[test]
fn ipc_message_to_schema_matches_flight_info_path() {
    let blob = schema_blob(&two_row_schema());
    let sd = IpcMessage(blob).to_schema().unwrap();
    assert_eq!(sd.fields.len(), 2);
    assert_eq!(sd.fields[1].column_type, ColumnType::Utf8);
}

#[test]
fn short_schema_blob_is_a_decode_error() {
    assert!(matches!(
        IpcMessage(vec![0xff, 0xff]).to_schema(),
        Err(FlightError::Decode(_))
    ));
}

#[test]
fn unknown_column_type_is_carried_as_unsupported() {
    let schema = Schema::new(vec![Field::new("f", DataType::Float64, false)]);
    let sd = decoded_schema(&schema);
    assert_eq!(sd.fields[0].column_type, ColumnType::Unsupported);
}

#[test]
fn two_rows_decode_to_their_values() {
    let schema = two_row_schema();
    let batch = arrow::record_batch::RecordBatch::try_new(
        Arc::new(schema.clone()),
        vec![
            Arc::new(Int64Array::from(vec![1i64, 2])) as ArrayRef,
            Arc::new(StringArray::from(vec!["a", "b"])) as ArrayRef,
        ],
    )
    .unwrap();
    let frames = encode_batch(&batch);
    assert_eq!(frames.len(), 1);
    let (header, body) = frames.into_iter().next().unwrap();
    let sd = decoded_schema(&schema);
    let out = arrow_data_from_flight_data(&frame(header, body), &sd).unwrap();
    match out {
        ArrowFlightData::RecordBatch(rb) => {
            assert_eq!(rb.n_rows, 2);
            assert_eq!(rb.columns.len(), 2);
            match &rb.columns[0] {
                Column::Int64(v) => assert_eq!(v, &vec![Some(1), Some(2)]),
                _ => panic!("column id must decode as 64-bit integers"),
            }
            match &rb.columns[1] {
                Column::Utf8(v) => {
                    assert_eq!(v, &vec![Some(b"a".to_vec()), Some(b"b".to_vec())])
                },
                _ => panic!("column name must decode as strings"),
            }
        },
        _ => panic!("a record batch frame must decode to a record batch"),
    }
}

#[test]
fn nulls_decode_to_none() {
    let schema = Schema::new(vec![
        Field::new("id", DataType::Int64, true),
        Field::new("name", DataType::Utf8, true),
    ]);
    let batch = arrow::record_batch::RecordBatch::try_new(
        Arc::new(schema.clone()),
        vec![
            Arc::new(Int64Array::from(vec![Some(5), None, Some(-7)])) as ArrayRef,
            Arc::new(StringArray::from(vec![None, Some("x"), Some("")])) as ArrayRef,
        ],
    )
    .unwrap();
    let frames = encode_batch(&batch);
    let (header, body) = frames.into_iter().next().unwrap();
    let sd = decoded_schema(&schema);
    let out = arrow_data_from_flight_data(&frame(header, body), &sd).unwrap();
    match out {
        ArrowFlightData::RecordBatch(rb) => {
            assert_eq!(rb.n_rows, 3);
            match &rb.columns[0] {
                Column::Int64(v) => assert_eq!(v, &vec![Some(5), None, Some(-7)]),
                _ => panic!("expected an integer column"),
            }
            match &rb.columns[1] {
                Column::Utf8(v) => {
                    assert_eq!(v, &vec![None, Some(b"x".to_vec()), Some(Vec::new())])
                },
                _ => panic!("expected a string column"),
            }
        },
        _ => panic!("expected a record batch"),
    }
}

#[test]
fn schema_frame_is_an_artifact_and_suppressed_by_the_consumer() {
    let schema = two_row_schema();
    let data_gen = IpcDataGenerator::default();
    let mut tracker = DictionaryTracker::new(false);
    let opts = IpcWriteOptions::default();
    let encoded = data_gen.schema_to_bytes_with_dictionary_tracker(&schema, &mut tracker, &opts);
    let sd = decoded_schema(&schema);
    let fd = frame(encoded.ipc_message, Vec::new());
    match arrow_data_from_flight_data(&fd, &sd).unwrap() {
        ArrowFlightData::Schema(got) => {
            assert_eq!(got.fields.len(), 2);
            assert_eq!(got.fields[0].name, "id");
        },
        _ => panic!("a schema frame must decode to a schema artifact"),
    }
    assert_eq!(consume_frame(&fd, &sd).unwrap(), None);
}

#[test]
fn consumer_yields_record_batches() {
    let schema = two_row_schema();
    let batch = arrow::record_batch::RecordBatch::try_new(
        Arc::new(schema.clone()),
        vec![
            Arc::new(Int64Array::from(vec![9i64])) as ArrayRef,
            Arc::new(StringArray::from(vec!["z"])) as ArrayRef,
        ],
    )
    .unwrap();
    let (header, body) = encode_batch(&batch).into_iter().next().unwrap();
    let sd = decoded_schema(&schema);
    let got = consume_frame(&frame(header, body), &sd).unwrap().unwrap();
    assert_eq!(got.n_rows, 1);
}

#[test]
fn dictionary_batch_is_unsupported() {
    let values: DictionaryArray<Int32Type> = vec!["x", "y", "x"].into_iter().collect();
    let schema = Schema::new(vec![Field::new(
        "d",
        DataType::Dictionary(Box::new(DataType::Int32), Box::new(DataType::Utf8)),
        false,
    )]);
    let batch = arrow::record_batch::RecordBatch::try_new(
        Arc::new(schema),
        vec![Arc::new(values) as ArrayRef],
    )
    .unwrap();
    let frames = encode_batch(&batch);
    assert!(frames.len() >= 2, "a dictionary column must emit a dictionary frame");
    let (header, body) = frames.into_iter().next().unwrap();
    let sd = SchemaDesc { fields: Vec::new() };
    match arrow_data_from_flight_data(&frame(header, body), &sd) {
        Err(FlightError::Unsupported(UnsupportedFeature::DictionaryBatch)) => {},
        _ => panic!("a dictionary batch must be an unsupported-feature error naming it"),
    }
}

fn tensor_header() -> Vec<u8> {
    let mut fbb = flatbuffers::FlatBufferBuilder::new();
    let int_type = {
        let mut ib = arrow::ipc::IntBuilder::new(&mut fbb);
        ib.add_bitWidth(64);
        ib.add_is_signed(true);
        ib.finish()
    };
    let shape = fbb.create_vector::<flatbuffers::WIPOffset<arrow::ipc::TensorDim>>(&[]);
    let data = arrow::ipc::Buffer::new(0, 0);
    let tensor = {
        let mut tb = arrow::ipc::TensorBuilder::new(&mut fbb);
        tb.add_type_type(arrow::ipc::Type::Int);
        tb.add_type_(int_type.as_union_value());
        tb.add_shape(shape);
        tb.add_data(&data);
        tb.finish()
    };
    let msg = {
        let mut mb = arrow::ipc::MessageBuilder::new(&mut fbb);
        mb.add_version(arrow::ipc::MetadataVersion::V5);
        mb.add_header_type(arrow::ipc::MessageHeader::Tensor);
        mb.add_header(tensor.as_union_value());
        mb.add_bodyLength(0);
        mb.finish()
    };
    fbb.finish(msg, None);
    fbb.finished_data().to_vec()
}

#[test]
fn tensor_is_unsupported() {
    let sd = SchemaDesc { fields: Vec::new() };
    match arrow_data_from_flight_data(&frame(tensor_header(), Vec::new()), &sd) {
        Err(FlightError::Unsupported(UnsupportedFeature::Tensor)) => {},
        _ => panic!("a tensor frame must be an unsupported-feature error naming it"),
    }
}

fn sparse_tensor_header() -> Vec<u8> {
    let mut fbb = flatbuffers::FlatBufferBuilder::new();
    let int_type = {
        let mut ib = arrow::ipc::IntBuilder::new(&mut fbb);
        ib.add_bitWidth(64);
        ib.add_is_signed(true);
        ib.finish()
    };
    let indices_type = {
        let mut ib = arrow::ipc::IntBuilder::new(&mut fbb);
        ib.add_bitWidth(32);
        ib.add_is_signed(true);
        ib.finish()
    };
    let indices_buffer = arrow::ipc::Buffer::new(0, 0);
    let coo = {
        let mut cb = arrow::ipc::SparseTensorIndexCOOBuilder::new(&mut fbb);
        cb.add_indicesType(indices_type);
        cb.add_indicesBuffer(&indices_buffer);
        cb.finish()
    };
    let shape = fbb.create_vector::<flatbuffers::WIPOffset<arrow::ipc::TensorDim>>(&[]);
    let data = arrow::ipc::Buffer::new(0, 0);
    let sparse = {
        let mut sb = arrow::ipc::SparseTensorBuilder::new(&mut fbb);
        sb.add_type_type(arrow::ipc::Type::Int);
        sb.add_type_(int_type.as_union_value());
        sb.add_shape(shape);
        sb.add_non_zero_length(0);
        sb.add_sparseIndex_type(arrow::ipc::SparseTensorIndex::SparseTensorIndexCOO);
        sb.add_sparseIndex(coo.as_union_value());
        sb.add_data(&data);
        sb.finish()
    };
    let msg = {
        let mut mb = arrow::ipc::MessageBuilder::new(&mut fbb);
        mb.add_version(arrow::ipc::MetadataVersion::V5);
        mb.add_header_type(arrow::ipc::MessageHeader::SparseTensor);
        mb.add_header(sparse.as_union_value());
        mb.add_bodyLength(0);
        mb.finish()
    };
    fbb.finish(msg, None);
    fbb.finished_data().to_vec()
}

#[test]
fn sparse_tensor_is_unsupported() {
    let sd = SchemaDesc { fields: Vec::new() };
    match arrow_data_from_flight_data(&frame(sparse_tensor_header(), Vec::new()), &sd) {
        Err(FlightError::Unsupported(UnsupportedFeature::SparseTensor)) => {},
        _ => panic!("a sparse tensor frame must be an unsupported-feature error naming it"),
    }
}

#[test]
fn garbage_header_is_a_decode_error() {
    let sd = SchemaDesc { fields: Vec::new() };
    let fd = frame(vec![1, 2, 3], Vec::new());
    assert!(matches!(
        arrow_data_from_flight_data(&fd, &sd),
        Err(FlightError::Decode(_))
    ));
    assert!(matches!(consume_frame(&fd, &sd), Err(FlightError::Decode(_))));
}

#[test]
fn batch_against_unsupported_column_type_is_refused() {
    let schema = Schema::new(vec![Field::new("f", DataType::Float64, false)]);
    let batch = arrow::record_batch::RecordBatch::try_new(
        Arc::new(schema.clone()),
        vec![Arc::new(arrow::array::Float64Array::from(vec![1.5f64])) as ArrayRef],
    )
    .unwrap();
    let (header, body) = encode_batch(&batch).into_iter().next().unwrap();
    let sd = decoded_schema(&schema);
    match arrow_data_from_flight_data(&frame(header, body), &sd) {
        Err(FlightError::Unsupported(UnsupportedFeature::ColumnType)) => {},
        _ => panic!("an unsupported column type must be refused, never misread"),
    }
}

#[test]
fn truncated_body_is_a_decode_error() {
    let schema = two_row_schema();
    let batch = arrow::record_batch::RecordBatch::try_new(
        Arc::new(schema.clone()),
        vec![
            Arc::new(Int64Array::from(vec![1i64, 2])) as ArrayRef,
            Arc::new(StringArray::from(vec!["a", "b"])) as ArrayRef,
        ],
    )
    .unwrap();
    let (header, body) = encode_batch(&batch).into_iter().next().unwrap();
    let sd = decoded_schema(&schema);
    let truncated = body[..body.len() / 2].to_vec();
    assert!(matches!(
        arrow_data_from_flight_data(&frame(header, truncated), &sd),
        Err(FlightError::Decode(_))
    ));
}
